//! What the service does on an event that it receives: an agent that went
//! offline is deleted.

use vstd::prelude::*;
use crate::id::Id;
use crate::messages::EventKind;

verus! {

/// The agent to delete on `event`: the agent of a change of presence that
/// says it is offline. No other event asks for anything.
pub open spec fn agent_to_delete(event: EventKind) -> Option<Id> {
    match event {
        EventKind::StateUpdate(e) => if e.payload.data.online {
            None
        } else {
            Some(e.payload.agent_id)
        },
        _ => None,
    }
}

/// The agent to delete on the last of `events`, if that event asks for it.
pub fn call(events: Vec<EventKind>) -> (r: Option<Id>)
    ensures
        r == if events@.len() == 0 {
            None
        } else {
            agent_to_delete(events@.last())
        },
{
    let mut events = events;
    match events.pop() {
        Some(event) => try_call(event),
        None => None,
    }
}

/// The agent to delete on `event`, if the event asks for it.
pub fn try_call(event: EventKind) -> (r: Option<Id>)
    ensures
        r == agent_to_delete(event),
{
    match event {
        EventKind::StateUpdate(event) => {
            if !event.is_online() {
                Some(event.agent_id())
            } else {
                None
            }
        },
        _ => None,
    }
}

} // verus!
