//! The question policy consulted before a memory-unsafe fallback.

use vstd::prelude::*;

verus! {

/// Determines whether an ambiguous operation proceeds: always proceed, always
/// refuse, or ask the user interactively.
#[derive(Clone, Copy, Debug, PartialEq, Eq, Structural)]
pub enum QuestionPolicy {
    AlwaysYes,
    AlwaysNo,
    Ask,
}

/// The kind of operation a question is about.
#[derive(Clone, Copy, Debug, PartialEq, Eq, Structural)]
pub enum QuestionAction {
    Compression,
    Decompression,
}

/// What one consultation of the policy answers. When the policy is `Ask`, the
/// answer is whatever the interactive user replied; the prompting itself is
/// I/O and belongs to the caller.
pub open spec fn spec_wants_to_continue(policy: QuestionPolicy, answer_if_asked: bool) -> bool {
    match policy {
        QuestionPolicy::AlwaysYes => true,
        QuestionPolicy::AlwaysNo => false,
        QuestionPolicy::Ask => answer_if_asked,
    }
}

/// Consult the policy once for the given action. `answer_if_asked` carries the
/// interactive user's reply and is read only when the policy is `Ask`.
pub fn user_wants_to_continue(
    policy: QuestionPolicy,
    _action: QuestionAction,
    answer_if_asked: bool,
) -> (r: bool)
    ensures
        r == spec_wants_to_continue(policy, answer_if_asked),
{
    match policy {
        QuestionPolicy::AlwaysYes => true,
        QuestionPolicy::AlwaysNo => false,
        QuestionPolicy::Ask => answer_if_asked,
    }
}

} // verus!
