//! A destination: one endpoint of a webhook, with its delivery state.

use vstd::prelude::*;

verus! {

/// Where delivery to one destination stands.
#[derive(Debug, Clone, Copy, PartialEq, Eq, Structural)]
pub enum DestinationState {
    Pending,
    Reached,
    Error,
}

/// One endpoint of a webhook. Identifiers are UUIDs held as `u128`; times are
/// microseconds since the Unix epoch.
#[derive(Debug)]
pub struct Destination {
    pub id: u128,
    pub webhook_id: u128,
    pub url: String,
    pub api_key: Option<String>,
    pub state: DestinationState,
    pub retry_count: i64,
    pub next_retry_at: Option<i64>,
    pub created_at: i64,
    pub updated_at: Option<i64>,
}

/// A copy of an optional text.
pub fn copy_text(t: &Option<String>) -> (r: Option<String>)
    ensures
        r == *t,
{
    match t {
        Some(s) => Some(s.clone()),
        None => None,
    }
}

impl Clone for Destination {
    fn clone(&self) -> (r: Self)
        ensures
            r == *self,
    {
        Destination {
            id: self.id,
            webhook_id: self.webhook_id,
            url: self.url.clone(),
            api_key: copy_text(&self.api_key),
            state: self.state,
            retry_count: self.retry_count,
            next_retry_at: self.next_retry_at,
            created_at: self.created_at,
            updated_at: self.updated_at,
        }
    }
}

impl Destination {
    /// The destination in `state`, stamped as updated at `now`; every other field kept.
    pub open spec fn spec_with_state(self, state: DestinationState, now: i64) -> Destination {
        Destination { state, updated_at: Some(now), ..self }
    }

    /// The destination in `state`, stamped as updated at `now`.
    pub fn with_state(&self, state: DestinationState, now: i64) -> (r: Destination)
        ensures
            r == self.spec_with_state(state, now),
            r.state == state,
            r.updated_at == Some(now),
            r.id == self.id,
            r.webhook_id == self.webhook_id,
            r.url == self.url,
            r.api_key == self.api_key,
            r.retry_count == self.retry_count,
            r.next_retry_at == self.next_retry_at,
            r.created_at == self.created_at,
    {
        Destination { state, updated_at: Some(now), ..self.clone() }
    }
}

/// Marking a destination sets exactly the state asked for and the update time,
/// and keeps every other field: identifiers, url, key, retry count and times.
pub proof fn law_with_state_sets_state_only(d: Destination, state: DestinationState, now: i64)
    ensures
        d.spec_with_state(state, now).state == state,
        d.spec_with_state(state, now).updated_at == Some(now),
        d.spec_with_state(state, now).id == d.id,
        d.spec_with_state(state, now).webhook_id == d.webhook_id,
        d.spec_with_state(state, now).url == d.url,
        d.spec_with_state(state, now).api_key == d.api_key,
        d.spec_with_state(state, now).retry_count == d.retry_count,
        d.spec_with_state(state, now).next_retry_at == d.next_retry_at,
        d.spec_with_state(state, now).created_at == d.created_at,
{
}

} // verus!
