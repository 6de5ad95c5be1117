//! Reading a reply to the approval prompt.
use vstd::prelude::*;
use crate::text::{all_white_space, law_trim_ignores_surrounding_white_space, lowercase, trimmed};

verus! {

/// What a reply to the approval prompt asks for.
#[derive(Debug, PartialEq)]
pub enum ApprovalDecision {
    /// Run the plan.
    Approve,
    /// Drop the task.
    Deny,
    /// Revise the plan with this (trimmed) text and ask again.
    Feedback(String),
}

/// The model of an [`ApprovalDecision`].
pub enum ApprovalView {
    Approve,
    Deny,
    Feedback(Seq<char>),
}

impl View for ApprovalDecision {
    type V = ApprovalView;

    open spec fn view(&self) -> ApprovalView {
        match self {
            ApprovalDecision::Approve => ApprovalView::Approve,
            ApprovalDecision::Deny => ApprovalView::Deny,
            ApprovalDecision::Feedback(s) => ApprovalView::Feedback(s@),
        }
    }
}

/// The words that approve a plan.
pub open spec fn approves(word: Seq<char>) -> bool {
    word == "y"@ || word == "yes"@ || word == "승인"@
}

/// The words that deny a plan.
pub open spec fn denies(word: Seq<char>) -> bool {
    word == "n"@ || word == "no"@ || word == "거절"@ || word == "취소"@
}

/// The decision for a reply, given the reply without surrounding white
/// space and its lower-case form: an approving word approves, a denying word
/// denies, anything else is feedback, kept as trimmed.
pub open spec fn decision_of(trimmed_reply: Seq<char>, lowered: Seq<char>) -> ApprovalView {
    if approves(lowered) {
        ApprovalView::Approve
    } else if denies(lowered) {
        ApprovalView::Deny
    } else {
        ApprovalView::Feedback(trimmed_reply)
    }
}

/// A reply is read without surrounding white space and without regard to
/// case.
pub open spec fn approval_of(input: Seq<char>) -> ApprovalView {
    let t = trimmed(input);
    decision_of(t, lowercase(t))
}

/// White space around a reply changes nothing: the reply is decided as if
/// it were not there.
pub proof fn law_surrounding_white_space_is_ignored(w1: Seq<char>, s: Seq<char>, w2: Seq<char>)
    requires
        all_white_space(w1),
        all_white_space(w2),
    ensures
        approval_of(w1 + s + w2) == approval_of(s),
{
    law_trim_ignores_surrounding_white_space(w1, s, w2);
}

/// Decides a reply from its trimmed text and that text in lower case.
pub fn decide_approval(trimmed_reply: &str, lowered: &str) -> (d: ApprovalDecision)
    ensures
        d@ == decision_of(trimmed_reply@, lowered@),
{
    if crate::text::str_eq(lowered, "y") || crate::text::str_eq(lowered, "yes")
        || crate::text::str_eq(lowered, "승인") {
        ApprovalDecision::Approve
    } else if crate::text::str_eq(lowered, "n") || crate::text::str_eq(lowered, "no")
        || crate::text::str_eq(lowered, "거절") || crate::text::str_eq(lowered, "취소") {
        ApprovalDecision::Deny
    } else {
        ApprovalDecision::Feedback(crate::text::copy_str(trimmed_reply))
    }
}

/// Reads a reply to the approval prompt.
pub fn parse_approval(input: &str) -> (d: ApprovalDecision)
    ensures
        d@ == approval_of(input@),
{
    let t = crate::text::trim(input);
    let w = crate::text::to_lowercase(t.as_str());
    decide_approval(t.as_str(), w.as_str())
}

} // verus!
