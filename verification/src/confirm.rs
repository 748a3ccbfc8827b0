//! Confirming a destructive action: by the `--confirm` flag, or by typing the name
//! of what the action applies to.
use vstd::prelude::*;

use crate::text::{concat3, owned, str_equal, trim, trim_ws};

verus! {

/// What a command that must be confirmed does first.
pub enum ConfirmStep {
    /// Fail with this message.
    Fail(String),
    /// Ask with this prompt until the answer matches `expected` (see
    /// `confirmation_matches`), then go on.
    Ask { prompt: String, expected: String },
    /// Go on without asking.
    Proceed,
}

/// The first step of an action that `--confirm` confirms, with the prompt shown to
/// confirm it by hand and the text the answer must match.
pub open spec fn confirm_step_spec(r: ConfirmStep, can_prompt: bool, confirm: bool, prompt: Seq<char>, expected: Seq<char>) -> bool {
    if !can_prompt && !confirm {
        r matches ConfirmStep::Fail(m) && m@ == "--confirm required when not running interactively"@
    } else if !confirm {
        r matches ConfirmStep::Ask { prompt: p, expected: e } && p@ == prompt && e@ == expected
    } else {
        r == ConfirmStep::Proceed
    }
}

/// Without a prompt the flag is required; without the flag the user is asked.
pub fn confirm_step(can_prompt: bool, confirm: bool, prompt: String, expected: &str) -> (r: ConfirmStep)
    ensures
        confirm_step_spec(r, can_prompt, confirm, prompt@, expected@),
{
    if !can_prompt && !confirm {
        return ConfirmStep::Fail(owned("--confirm required when not running interactively"));
    }
    if !confirm {
        return ConfirmStep::Ask { prompt, expected: owned(expected) };
    }
    ConfirmStep::Proceed
}

/// The prompt that asks to type `name` to confirm `action`.
pub open spec fn type_to_confirm(name: Seq<char>, action: Seq<char>) -> Seq<char> {
    "Type "@ + name + " to confirm "@ + action + ":"@
}

/// The prompt that asks to type `name` to confirm `action` (`deletion`, `stop`, ...).
pub fn type_to_confirm_prompt(name: &str, action: &str) -> (r: String)
    ensures
        r@ == type_to_confirm(name@, action@),
{
    let p = concat3("Type ", name, " to confirm ");
    concat3(p.as_str(), action, ":")
}

/// An answer confirms when, without surrounding white space, it is the expected
/// text ("mismatched confirmation" otherwise).
pub fn confirmation_matches(input: &str, expected: &str) -> (r: bool)
    ensures
        r == (trim_ws(input@) == expected@),
{
    let t = trim(input);
    str_equal(t.as_str(), expected)
}

} // verus!
