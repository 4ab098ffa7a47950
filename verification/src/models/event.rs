//! An event: one payload triggered on a webhook, with its overall delivery state.

use vstd::prelude::*;

verus! {

/// Where delivery of an event stands across all destinations of its webhook.
#[derive(Debug, Clone, Copy, PartialEq, Eq, Structural)]
pub enum EventState {
    Pending,
    Processed,
    Partial,
    Error,
}

/// One payload triggered on a webhook. `data` is the payload's JSON text;
/// identifiers are UUIDs held as `u128`; times are microseconds since the Unix epoch.
#[derive(Debug)]
pub struct Event {
    pub id: u128,
    pub webhook_id: u128,
    pub data: String,
    pub state: EventState,
    pub created_at: i64,
    pub updated_at: Option<i64>,
}

impl Clone for Event {
    fn clone(&self) -> (r: Self)
        ensures
            r == *self,
    {
        Event {
            id: self.id,
            webhook_id: self.webhook_id,
            data: self.data.clone(),
            state: self.state,
            created_at: self.created_at,
            updated_at: self.updated_at,
        }
    }
}

impl Event {
    /// The event in `state`, stamped as updated at `now`; every other field kept.
    pub open spec fn spec_with_state(self, state: EventState, now: i64) -> Event {
        Event { state, updated_at: Some(now), ..self }
    }

    /// The event in `state`, stamped as updated at `now`.
    pub fn with_state(&self, state: EventState, now: i64) -> (r: Event)
        ensures
            r == self.spec_with_state(state, now),
            r.state == state,
            r.updated_at == Some(now),
            r.id == self.id,
            r.webhook_id == self.webhook_id,
            r.data == self.data,
            r.created_at == self.created_at,
    {
        Event { state, updated_at: Some(now), ..self.clone() }
    }
}

/// Restating an event sets exactly the state asked for and the update time,
/// and keeps its identifiers, payload and creation time.
pub proof fn law_with_state_sets_state_only(e: Event, state: EventState, now: i64)
    ensures
        e.spec_with_state(state, now).state == state,
        e.spec_with_state(state, now).updated_at == Some(now),
        e.spec_with_state(state, now).id == e.id,
        e.spec_with_state(state, now).webhook_id == e.webhook_id,
        e.spec_with_state(state, now).data == e.data,
        e.spec_with_state(state, now).created_at == e.created_at,
{
}

} // verus!
