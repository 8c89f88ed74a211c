//! The source of one lockfile's text.

use vstd::prelude::*;
use vstd::string::*;

verus! {

/// Where the text of one lockfile is read from: a file at a path, or
/// standard input.
#[derive(Debug, Clone, PartialEq, Eq)]
pub enum Input {
    File(String),
    Stdin,
}

/// The mathematical value of an [`Input`]: the path as a sequence of
/// characters.
pub enum InputView {
    File(Seq<char>),
    Stdin,
}

impl View for Input {
    type V = InputView;

    open spec fn view(&self) -> InputView {
        match self {
            Input::File(path) => InputView::File(path@),
            Input::Stdin => InputView::Stdin,
        }
    }
}

/// The text that stands for standard input on the command line: a single
/// hyphen.
pub open spec fn stdin_marker() -> Seq<char> {
    seq!['-']
}

/// What a named option's value denotes: the marker is standard input, any
/// other text is the path of a file, taken as written.
pub open spec fn spec_parse_input(s: Seq<char>) -> InputView {
    if s == stdin_marker() {
        InputView::Stdin
    } else {
        InputView::File(s)
    }
}

/// The diagnostic for an input that could not be read: it names the file or
/// the stream, then gives the cause.
pub open spec fn spec_read_failure(input: InputView, cause: Seq<char>) -> Seq<char> {
    match input {
        InputView::File(path) => "failed to read "@ + path + ": "@ + cause,
        InputView::Stdin => "failed to read standard input: "@ + cause,
    }
}

impl Input {
    /// The one-line diagnostic for a failed read of this input.
    pub fn read_failure(&self, cause: &str) -> (r: String)
        ensures
            r@ == spec_read_failure(self@, cause@),
    {
        match self {
            Input::File(path) => {
                let mut text = "failed to read ".to_owned();
                text.append(path.as_str());
                text.append(": ");
                text.append(cause);
                text
            },
            Input::Stdin => {
                let mut text = "failed to read standard input: ".to_owned();
                text.append(cause);
                text
            },
        }
    }

    /// Whether this input is standard input.
    pub fn is_stdin(&self) -> (r: bool)
        ensures
            r == (self@ is Stdin),
    {
        match self {
            Input::Stdin => true,
            Input::File(_) => false,
        }
    }
}

/// Whether `s` is the standard input marker.
pub fn is_stdin_marker(s: &str) -> (r: bool)
    ensures
        r == (s@ == stdin_marker()),
{
    if s.unicode_len() != 1 {
        false
    } else {
        let c = s.get_char(0);
        assert(c == '-' ==> s@ =~= stdin_marker());
        c == '-'
    }
}

/// Reads the value of a named option. Never fails: every text is either the
/// marker or a path.
pub fn parse_input(s: &str) -> (r: Result<Input, String>)
    ensures
        r is Ok,
        r->Ok_0@ == spec_parse_input(s@),
{
    if is_stdin_marker(s) {
        Ok(Input::Stdin)
    } else {
        Ok(Input::File(s.to_owned()))
    }
}

/// Only the marker denotes standard input, and every other text denotes the
/// file whose path it is.
pub proof fn law_only_marker_is_stdin(s: Seq<char>)
    ensures
        spec_parse_input(s) is Stdin <==> s == stdin_marker(),
        s != stdin_marker() ==> spec_parse_input(s) == InputView::File(s),
{
}

} // verus!
