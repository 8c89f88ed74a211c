//! Parsing the two lockfile texts.
//!
//! The lockfile format belongs to the parser that the caller brings: a text
//! goes in, and a parsed value or a diagnostic comes out. What is decided
//! here is the order in which the texts are parsed and which of the two
//! inputs a failure is charged to.

use vstd::prelude::*;
use vstd::string::*;

verus! {

/// One of the two inputs of a comparison.
#[derive(Debug, Clone, Copy, PartialEq, Eq, Structural)]
pub enum Side {
    Before,
    After,
}

/// A lockfile text that could not be parsed: which input it was, and the
/// parser's diagnostic.
#[derive(Debug, Clone, PartialEq, Eq)]
pub struct ParseFailure {
    pub side: Side,
    pub message: String,
}

/// The diagnostic for a text that could not be parsed: it names the input,
/// then gives the parser's words.
pub open spec fn spec_parse_failure_text(side: Side, message: Seq<char>) -> Seq<char> {
    match side {
        Side::Before => "failed to parse the 'before' lockfile: "@ + message,
        Side::After => "failed to parse the 'after' lockfile: "@ + message,
    }
}

impl ParseFailure {
    /// The one-line diagnostic for this failure.
    pub fn describe(&self) -> (r: String)
        ensures
            r@ == spec_parse_failure_text(self.side, self.message@),
    {
        let mut text = match self.side {
            Side::Before => "failed to parse the 'before' lockfile: ".to_owned(),
            Side::After => "failed to parse the 'after' lockfile: ".to_owned(),
        };
        text.append(self.message.as_str());
        text
    }
}

/// What two parse results amount to: both parsed values, or the first
/// failure, "before" taking precedence.
pub open spec fn spec_pair_parsed<T>(
    before: Result<T, Seq<char>>,
    after: Result<T, Seq<char>>,
) -> Result<(T, T), (Side, Seq<char>)> {
    match (before, after) {
        (Err(e), _) => Err((Side::Before, e)),
        (Ok(_), Err(e)) => Err((Side::After, e)),
        (Ok(b), Ok(a)) => Ok((b, a)),
    }
}

/// A parse result with its diagnostic as a sequence of characters.
pub open spec fn parsed_view<T>(r: Result<T, String>) -> Result<T, Seq<char>> {
    match r {
        Ok(v) => Ok(v),
        Err(e) => Err(e@),
    }
}

/// Joins the parse results of the two inputs, and charges a failure to the
/// input it came from. Where both failed, "before" is reported. The
/// diagnostic is handed on as it came.
pub fn pair_parsed<T>(before: Result<T, String>, after: Result<T, String>) -> (r: Result<
    (T, T),
    ParseFailure,
>)
    ensures
        match spec_pair_parsed(parsed_view(before), parsed_view(after)) {
            Ok(pair) => r == Ok::<(T, T), ParseFailure>(pair),
            Err((side, message)) => r matches Err(f) && f.side == side && f.message@ == message,
        },
        r matches Err(f) ==> f.message == (if before is Err {
            before->Err_0
        } else {
            after->Err_0
        }),
{
    match before {
        Err(message) => Err(ParseFailure { side: Side::Before, message }),
        Ok(b) => match after {
            Err(message) => Err(ParseFailure { side: Side::After, message }),
            Ok(a) => Ok((b, a)),
        },
    }
}

/// Parses the "before" text, and the "after" text only once "before" has
/// parsed. Succeeds exactly with what the parser made of both texts, in
/// order. A failure carries the parser's diagnostic and names the text it
/// came from: "after" only where "before" parsed.
pub fn parse_lockfiles<T, F: Fn(&str) -> Result<T, String>>(
    before: &str,
    after: &str,
    parse: F,
) -> (r: Result<(T, T), ParseFailure>)
    requires
        call_requires(parse, (before,)),
        call_requires(parse, (after,)),
    ensures
        match r {
            Ok((b, a)) => {
                &&& call_ensures(parse, (before,), Ok::<T, String>(b))
                &&& call_ensures(parse, (after,), Ok::<T, String>(a))
            },
            Err(f) => match f.side {
                Side::Before => call_ensures(parse, (before,), Err::<T, String>(f.message)),
                Side::After => {
                    &&& exists|b: T| #[trigger] call_ensures(parse, (before,), Ok::<T, String>(b))
                    &&& call_ensures(parse, (after,), Err::<T, String>(f.message))
                },
            },
        },
{
    match parse(before) {
        Err(message) => Err(ParseFailure { side: Side::Before, message }),
        Ok(b) => pair_parsed(Ok(b), parse(after)),
    }
}

/// A failure is charged to "after" only when "before" parsed.
pub proof fn law_failure_names_first_bad_input<T>(
    before: Result<T, Seq<char>>,
    after: Result<T, Seq<char>>,
)
    ensures
        spec_pair_parsed(before, after) is Ok <==> before is Ok && after is Ok,
        spec_pair_parsed(before, after) matches Err((side, _)) ==> (side == Side::Before
            <==> before is Err),
{
}

} // verus!
