//! The confirmation that every command asks for before its call.
use vstd::prelude::*;
use crate::text::{lower_of, lowercase};

verus! {

/// What one typed confirmation line means.
#[derive(PartialEq, Eq, Structural, Clone, Copy, Debug)]
pub enum ConfirmReply {
    Accept,
    Cancel,
    Invalid,
}

/// The state of the confirmation: it starts at the preview and ends confirmed or
/// cancelled.
#[derive(PartialEq, Eq, Structural, Clone, Copy, Debug)]
pub enum ConfirmState {
    Preview,
    Confirmed,
    Cancelled,
}

/// The meaning of a reply that is already in lower case.
pub open spec fn reply_for(lowered: Seq<char>) -> ConfirmReply {
    if lowered == "accept"@ {
        ConfirmReply::Accept
    } else if lowered == "cancel"@ {
        ConfirmReply::Cancel
    } else {
        ConfirmReply::Invalid
    }
}

/// The state after one reply whose lower-case form is `lowered`.
pub open spec fn confirm_next(state: ConfirmState, lowered: Seq<char>) -> ConfirmState {
    match state {
        ConfirmState::Preview => match reply_for(lowered) {
            ConfirmReply::Accept => ConfirmState::Confirmed,
            ConfirmReply::Cancel => ConfirmState::Cancelled,
            ConfirmReply::Invalid => ConfirmState::Preview,
        },
        _ => state,
    }
}

/// The state after a sequence of replies, each given in lower case.
pub open spec fn confirm_run(state: ConfirmState, replies: Seq<Seq<char>>) -> ConfirmState
    decreases replies.len(),
{
    if replies.len() == 0 {
        state
    } else {
        confirm_next(confirm_run(state, replies.drop_last()), replies.last())
    }
}

/// Classifies a reply that is already in lower case.
pub fn classify_reply(lowered: &str) -> (r: ConfirmReply)
    ensures
        r == reply_for(lowered@),
{
    let s = String::from_str(lowered);
    if s == String::from_str("accept") {
        ConfirmReply::Accept
    } else if s == String::from_str("cancel") {
        ConfirmReply::Cancel
    } else {
        ConfirmReply::Invalid
    }
}

/// Classifies a typed reply, ignoring case.
pub fn confirm_reply(input: &str) -> (r: ConfirmReply)
    ensures
        r == reply_for(lower_of(input@)),
{
    let lowered = lowercase(input);
    classify_reply(lowered.as_str())
}

/// Moves the confirmation on by one typed reply. Only `accept` and `cancel`, in any
/// case, leave the preview; the two final states never change.
pub fn confirm_step(state: ConfirmState, input: &str) -> (r: ConfirmState)
    ensures
        r == confirm_next(state, lower_of(input@)),
{
    match state {
        ConfirmState::Preview => match confirm_reply(input) {
            ConfirmReply::Accept => ConfirmState::Confirmed,
            ConfirmReply::Cancel => ConfirmState::Cancelled,
            ConfirmReply::Invalid => ConfirmState::Preview,
        },
        _ => state,
    }
}

/// Replies other than `accept` and `cancel` keep the confirmation at the preview,
/// however many of them come.
pub proof fn lemma_invalid_replies_reprompt(replies: Seq<Seq<char>>)
    requires
        forall|i: int| 0 <= i < replies.len() ==> #[trigger] reply_for(replies[i]) == ConfirmReply::Invalid,
    ensures
        confirm_run(ConfirmState::Preview, replies) == ConfirmState::Preview,
    decreases replies.len(),
{
    if replies.len() > 0 {
        let p = replies.drop_last();
        assert forall|i: int| 0 <= i < p.len() implies #[trigger] reply_for(p[i]) == ConfirmReply::Invalid by {
            assert(p[i] == replies[i]);
        }
        lemma_invalid_replies_reprompt(p);
        assert(reply_for(replies[replies.len() - 1]) == ConfirmReply::Invalid);
    }
}

/// Once the confirmation is accepted or cancelled, no later reply changes it.
pub proof fn lemma_confirm_decision_is_final(state: ConfirmState, replies: Seq<Seq<char>>)
    requires
        state != ConfirmState::Preview,
    ensures
        confirm_run(state, replies) == state,
    decreases replies.len(),
{
    if replies.len() > 0 {
        lemma_confirm_decision_is_final(state, replies.drop_last());
    }
}

} // verus!
