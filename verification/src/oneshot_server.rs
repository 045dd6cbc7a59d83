//! The single-shot notification server: it answers each notification once,
//! on the first action, close request or expiry, and reads a notification's
//! action list as `(identifier, label)` pairs.
use vstd::prelude::*;

use crate::action::CloseReason;
use crate::text::owned;

verus! {

/// An action as the single-shot server receives it.
#[derive(Debug)]
pub struct Action {
    /// The identifier reported back when the action is invoked.
    pub tag: String,
    /// The text shown for the action.
    pub description: String,
}

/// The abstract value of an [`Action`]: tag and description.
pub open spec fn action_view(a: &Action) -> (Seq<char>, Seq<char>) {
    (a.tag@, a.description@)
}

impl Action {
    /// An action from a `(tag, description)` pair.
    pub fn from_pair(pair: (&String, &String)) -> (a: Action)
        ensures
            action_view(&a) == (pair.0@, pair.1@),
    {
        Action { tag: pair.0.clone(), description: pair.1.clone() }
    }

    /// Reads the actions of a `Notify` call from its flat
    /// `[identifier, label, identifier, label, ...]` list: one action per
    /// complete pair, tagged with the identifier and described by the label;
    /// an odd last entry is dropped.
    pub fn from_vec(raw: &[String]) -> (r: Vec<Action>)
        ensures
            r@.map_values(|a: Action| action_view(&a)) == pairs_of_flat(raw@.map_values(|s: String| s@)),
    {
        let ghost flat = raw@.map_values(|s: String| s@);
        let mut out: Vec<Action> = Vec::new();
        let mut i: usize = 0;
        while i + 1 < raw.len()
            invariant
                i % 2 == 0,
                i <= raw.len(),
                flat == raw@.map_values(|s: String| s@),
                out@.len() == i / 2,
                forall|k: int| 0 <= k < out@.len() ==> #[trigger] action_view(&out@[k]) == (flat[2 * k], flat[2 * k + 1]),
            decreases raw.len() - i,
        {
            out.push(Action::from_pair((&raw[i], &raw[i + 1])));
            i = i + 2;
        }
        assert(out@.map_values(|a: Action| action_view(&a)) =~= pairs_of_flat(flat));
        out
    }
}

/// The `(identifier, label)` pairs of a flat `[identifier, label, ...]` list,
/// in order; an odd last entry belongs to no pair.
pub open spec fn pairs_of_flat(raw: Seq<Seq<char>>) -> Seq<(Seq<char>, Seq<char>)> {
    Seq::new(raw.len() / 2, |k: int| (raw[2 * k], raw[2 * k + 1]))
}

/// The first of the events that the single-shot server waits for: an action,
/// a close request, or expiry.
#[derive(Debug)]
pub enum FirstEvent {
    /// An action arrived, or receiving it failed.
    Action(Result<String, String>),
    /// A close request arrived, or receiving it failed.
    Close(Result<CloseReason, String>),
    /// The notification's timeout elapsed.
    Expired,
}

/// How the single-shot server answers its first event: the close reason it
/// signals and the action it reports, if any. An action closes the
/// notification as closed by action; a failed close request counts as expiry.
pub open spec fn first_event_outcome(event: &FirstEvent) -> (CloseReason, Option<Seq<char>>) {
    match event {
        FirstEvent::Action(Ok(a)) => (CloseReason::CloseAction, Some(a@)),
        FirstEvent::Action(Err(_)) => (CloseReason::CloseAction, None),
        FirstEvent::Close(Ok(r)) => (*r, None),
        FirstEvent::Close(Err(_)) => (CloseReason::Expired, None),
        FirstEvent::Expired => (CloseReason::Expired, None),
    }
}

/// Answers the first event of the single-shot server.
pub fn answer_first_event(event: FirstEvent) -> (r: (CloseReason, Option<String>))
    ensures
        (r.0, match r.1 { Some(a) => Some(a@), None => None }) == first_event_outcome(&event),
{
    match event {
        FirstEvent::Action(Ok(action)) => (CloseReason::CloseAction, Some(action)),
        FirstEvent::Action(Err(_)) => (CloseReason::CloseAction, None),
        FirstEvent::Close(Ok(reason)) => (reason, None),
        FirstEvent::Close(Err(_)) => (CloseReason::Expired, None),
        FirstEvent::Expired => (CloseReason::Expired, None),
    }
}

} // verus!
