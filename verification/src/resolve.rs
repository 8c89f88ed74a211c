//! Choosing the two inputs from what the command line supplied.
//!
//! The inputs may be named (`--before`, `--after`) or positional, never
//! both. A named input that is left out is standard input; positional inputs
//! are always files and come as a pair. Standard input can feed one side only.

use vstd::prelude::*;
use crate::input::{Input, InputView};

verus! {

/// The input options as the command line gave them, each absent or present.
#[derive(Debug, Clone)]
pub struct CliInputs {
    pub before: Option<Input>,
    pub after: Option<Input>,
    pub before_positional: Option<String>,
    pub after_positional: Option<String>,
}

pub struct CliInputsView {
    pub before: Option<InputView>,
    pub after: Option<InputView>,
    pub before_positional: Option<Seq<char>>,
    pub after_positional: Option<Seq<char>>,
}

impl View for CliInputs {
    type V = CliInputsView;

    open spec fn view(&self) -> CliInputsView {
        CliInputsView {
            before: match self.before {
                Some(i) => Some(i@),
                None => None,
            },
            after: match self.after {
                Some(i) => Some(i@),
                None => None,
            },
            before_positional: match self.before_positional {
                Some(p) => Some(p@),
                None => None,
            },
            after_positional: match self.after_positional {
                Some(p) => Some(p@),
                None => None,
            },
        }
    }
}

impl CliInputsView {
    /// At least one named option is present.
    pub open spec fn has_named(self) -> bool {
        self.before is Some || self.after is Some
    }

    /// At least one positional argument is present.
    pub open spec fn has_positional(self) -> bool {
        self.before_positional is Some || self.after_positional is Some
    }
}

/// Why the supplied options name no valid pair of inputs.
#[derive(Debug, Clone, Copy, PartialEq, Eq, Structural)]
pub enum UsageError {
    /// Named options and positional arguments were mixed.
    ConflictingForms,
    /// Only one of the two positional arguments was given.
    IncompletePositional,
    /// No input was given in either form.
    MissingInputs,
    /// Both sides would be read from standard input.
    BothStdin,
}

/// A named input, or standard input where it was left out.
pub open spec fn named_or_stdin(i: Option<InputView>) -> InputView {
    match i {
        Some(v) => v,
        None => InputView::Stdin,
    }
}

/// The pair of inputs that the options denote, or the reason why they
/// denote none. The rules are tried in this order: the two forms exclude
/// each other; positional arguments come as a pair; something must be given;
/// standard input serves one side at most.
pub open spec fn spec_resolve(a: CliInputsView) -> Result<(InputView, InputView), UsageError> {
    if a.has_named() && a.has_positional() {
        Err(UsageError::ConflictingForms)
    } else if a.before_positional is Some != a.after_positional is Some {
        Err(UsageError::IncompletePositional)
    } else if a.has_positional() {
        Ok((InputView::File(a.before_positional->0), InputView::File(a.after_positional->0)))
    } else if !a.has_named() {
        Err(UsageError::MissingInputs)
    } else if named_or_stdin(a.before) is Stdin && named_or_stdin(a.after) is Stdin {
        Err(UsageError::BothStdin)
    } else {
        Ok((named_or_stdin(a.before), named_or_stdin(a.after)))
    }
}

/// `r` is the executable form of the outcome `s`.
pub open spec fn resolved_as(
    r: Result<(Input, Input), UsageError>,
    s: Result<(InputView, InputView), UsageError>,
) -> bool {
    match (r, s) {
        (Ok(p), Ok(q)) => p.0@ == q.0 && p.1@ == q.1,
        (Err(e), Err(f)) => e == f,
        _ => false,
    }
}

/// The diagnostic of each usage error.
pub open spec fn spec_usage_message(e: UsageError) -> Seq<char> {
    match e {
        UsageError::ConflictingForms => "Named and positional inputs cannot be combined"@,
        UsageError::IncompletePositional => "Both [BEFORE] and [AFTER] must be given"@,
        UsageError::MissingInputs => "Either [BEFORE] or [AFTER] is required"@,
        UsageError::BothStdin => "Cannot read both inputs from stdin"@,
    }
}

impl UsageError {
    /// The one-line diagnostic for this error.
    pub fn message(&self) -> (r: String)
        ensures
            r@ == spec_usage_message(*self),
    {
        match self {
            UsageError::ConflictingForms => "Named and positional inputs cannot be combined".to_owned(),
            UsageError::IncompletePositional => "Both [BEFORE] and [AFTER] must be given".to_owned(),
            UsageError::MissingInputs => "Either [BEFORE] or [AFTER] is required".to_owned(),
            UsageError::BothStdin => "Cannot read both inputs from stdin".to_owned(),
        }
    }
}

/// Resolves the supplied options to the "before" and the "after" input.
/// Performs no I/O.
pub fn resolve_inputs(args: CliInputs) -> (r: Result<(Input, Input), UsageError>)
    ensures
        resolved_as(r, spec_resolve(args@)),
        r matches Ok(p) ==> !(p.0@ is Stdin && p.1@ is Stdin),
{
    let CliInputs { before, after, before_positional, after_positional } = args;
    let named = before.is_some() || after.is_some();
    let positional = before_positional.is_some() || after_positional.is_some();
    if named && positional {
        return Err(UsageError::ConflictingForms);
    }
    match (before_positional, after_positional) {
        (Some(b), Some(a)) => Ok((Input::File(b), Input::File(a))),
        (Some(_), None) => Err(UsageError::IncompletePositional),
        (None, Some(_)) => Err(UsageError::IncompletePositional),
        (None, None) => {
            if !named {
                return Err(UsageError::MissingInputs);
            }
            let b = match before {
                Some(i) => i,
                None => Input::Stdin,
            };
            let a = match after {
                Some(i) => i,
                None => Input::Stdin,
            };
            if b.is_stdin() && a.is_stdin() {
                Err(UsageError::BothStdin)
            } else {
                Ok((b, a))
            }
        },
    }
}

/// With no input in either form, resolution fails for want of inputs.
pub proof fn law_no_inputs_is_usage_error(a: CliInputsView)
    requires
        !a.has_named(),
        !a.has_positional(),
    ensures
        spec_resolve(a) == Err::<(InputView, InputView), UsageError>(UsageError::MissingInputs),
{
}

/// When each named side is the standard input marker or is left out,
/// resolution fails: with both left out for want of inputs, otherwise because
/// standard input cannot feed both sides.
pub proof fn law_both_stdin_is_usage_error(a: CliInputsView)
    requires
        !a.has_positional(),
        named_or_stdin(a.before) is Stdin,
        named_or_stdin(a.after) is Stdin,
    ensures
        spec_resolve(a) is Err,
        a.has_named() ==> spec_resolve(a) == Err::<(InputView, InputView), UsageError>(
            UsageError::BothStdin,
        ),
{
}

/// A resolved pair never reads standard input on both sides, and positional
/// inputs always resolve to files.
pub proof fn law_resolved_pair_is_readable(a: CliInputsView)
    requires
        spec_resolve(a) is Ok,
    ensures
        !(spec_resolve(a)->Ok_0.0 is Stdin && spec_resolve(a)->Ok_0.1 is Stdin),
        a.has_positional() ==> spec_resolve(a)->Ok_0.0 is File && spec_resolve(a)->Ok_0.1 is File,
{
}

/// Each usage error comes on exactly the options that break its rule, the
/// earlier rules being kept.
pub proof fn law_usage_errors(a: CliInputsView)
    ensures
        spec_resolve(a) == Err::<(InputView, InputView), UsageError>(UsageError::ConflictingForms)
            <==> a.has_named() && a.has_positional(),
        spec_resolve(a) == Err::<(InputView, InputView), UsageError>(
            UsageError::IncompletePositional,
        ) <==> !a.has_named() && (a.before_positional is Some != a.after_positional is Some),
        spec_resolve(a) == Err::<(InputView, InputView), UsageError>(UsageError::MissingInputs)
            <==> !a.has_named() && !a.has_positional(),
        spec_resolve(a) == Err::<(InputView, InputView), UsageError>(UsageError::BothStdin)
            <==> a.has_named() && !a.has_positional() && named_or_stdin(a.before) is Stdin
            && named_or_stdin(a.after) is Stdin,
{
}

} // verus!
