//! Delivery of one event to one destination: the retry state machine with
//! exponential backoff, and the rule that derives an event's state from the
//! states of its webhook's destinations.
//!
//! The HTTP request, the sleep and the store updates are done by the caller,
//! which runs the machine: it starts at `DeliveryJob::first_step`, performs
//! each step, and feeds what happened back through `DeliveryJob::after_send`.

use vstd::prelude::*;
use vstd::arithmetic::power2::{pow2, lemma_pow2_adds, lemma2_to64};
use crate::models::destination::{Destination, DestinationState};
use crate::models::event::{Event, EventState};

verus! {

/// How many times a delivery is attempted at most.
pub const MAX_RETRIES: u32 = 3;

/// The wait after the first rejected attempt, in milliseconds; it doubles after each one.
pub const BASE_DELAY_MS: u64 = 1000;

/// What one attempt to POST the payload gave.
#[derive(Debug, Clone, Copy, PartialEq, Eq, Structural)]
pub enum SendOutcome {
    /// The destination answered with a success status (2xx).
    Success,
    /// The destination answered with another status.
    Rejected,
    /// The request failed before any answer came (connection, timeout, ...).
    Unreachable,
}

/// What the runner of a delivery must do next.
#[derive(Debug, Clone, Copy, PartialEq, Eq, Structural)]
pub enum DeliveryStep {
    /// POST the payload to the destination; this is attempt number `attempt` (from 0).
    Send { attempt: u32 },
    /// Wait `millis` milliseconds, then make attempt number `next_attempt`.
    Sleep { millis: u64, next_attempt: u32 },
    /// Store the destination in `state`, recompute the event's state, and stop.
    Mark { state: DestinationState },
    /// Stop without storing anything.
    Stop,
}

/// Calls `reqwest::StatusCode::from_u16(code)` and `is_success` on the status
/// it gives. The source accepts codes from 100 to 999 and calls those from 200
/// to 299 successful.
#[verifier::external_body]
pub(crate) fn status_is_success(code: u16) -> (r: bool)
    requires
        100 <= code <= 999,
    ensures
        r == (200 <= code < 300),
{
    match reqwest::StatusCode::from_u16(code) {
        Ok(status) => status.is_success(),
        Err(_) => false,
    }
}

/// What an attempt gave, from the status of the answer (`None` when the
/// request failed before any answer): a success status (2xx) is a success,
/// any other status a rejection.
pub fn classify_response(status: Option<u16>) -> (r: SendOutcome)
    requires
        status matches Some(code) ==> 100 <= code <= 999,
    ensures
        r == match status {
            None => SendOutcome::Unreachable,
            Some(code) => if 200 <= code < 300 {
                SendOutcome::Success
            } else {
                SendOutcome::Rejected
            },
        },
{
    match status {
        None => SendOutcome::Unreachable,
        Some(code) => if status_is_success(code) {
            SendOutcome::Success
        } else {
            SendOutcome::Rejected
        },
    }
}

/// The wait before the attempt that follows rejected attempt `attempt`:
/// `BASE_DELAY_MS * 2^attempt`.
pub open spec fn backoff_ms(attempt: nat) -> int {
    BASE_DELAY_MS * pow2(attempt)
}

/// The step that follows attempt `attempt` when it gave `outcome`.
pub open spec fn next_step(attempt: u32, outcome: SendOutcome) -> DeliveryStep {
    match outcome {
        SendOutcome::Success => DeliveryStep::Mark { state: DestinationState::Reached },
        SendOutcome::Rejected => if attempt + 1 < MAX_RETRIES {
            DeliveryStep::Sleep {
                millis: backoff_ms(attempt as nat) as u64,
                next_attempt: (attempt + 1) as u32,
            }
        } else {
            DeliveryStep::Mark { state: DestinationState::Error }
        },
        SendOutcome::Unreachable => if attempt + 1 < MAX_RETRIES {
            DeliveryStep::Send { attempt: (attempt + 1) as u32 }
        } else {
            DeliveryStep::Stop
        },
    }
}

/// Every destination in `states` is in `state` (true of an empty sequence).
pub open spec fn all_in_state(states: Seq<DestinationState>, state: DestinationState) -> bool {
    forall|i: int| 0 <= i < states.len() ==> states[i] == state
}

/// The state of an event given the states of its webhook's destinations:
/// `Processed` when every destination was reached (also when there are none),
/// otherwise `Error` when every destination failed, otherwise `Partial`.
pub open spec fn aggregate_state(states: Seq<DestinationState>) -> EventState {
    if all_in_state(states, DestinationState::Reached) {
        EventState::Processed
    } else if all_in_state(states, DestinationState::Error) {
        EventState::Error
    } else {
        EventState::Partial
    }
}

/// The states of a sequence of destinations, in order.
pub open spec fn destination_states(destinations: Seq<Destination>) -> Seq<DestinationState> {
    destinations.map_values(|d: Destination| d.state)
}

/// How many of `states` are `state`.
pub open spec fn count_state(states: Seq<DestinationState>, state: DestinationState) -> nat
    decreases states.len(),
{
    if states.len() == 0 {
        0
    } else {
        count_state(states.drop_last(), state) + if states.last() == state { 1nat } else { 0nat }
    }
}

proof fn lemma_count_state_bounds(states: Seq<DestinationState>, state: DestinationState)
    ensures
        count_state(states, state) <= states.len(),
        count_state(states, state) == states.len() <==> all_in_state(states, state),
    decreases states.len(),
{
    if states.len() > 0 {
        lemma_count_state_bounds(states.drop_last(), state);
        if all_in_state(states, state) {
            assert(all_in_state(states.drop_last(), state));
        }
        if count_state(states, state) == states.len() {
            assert forall|i: int| 0 <= i < states.len() implies states[i] == state by {
                if i < states.len() - 1 {
                    assert(states.drop_last()[i] == states[i]);
                }
            }
        }
    }
}

/// The waits, in milliseconds, between attempts are `BASE_DELAY_MS * 2^attempt`.
pub fn backoff_delay_ms(attempt: u32) -> (r: u64)
    requires
        backoff_ms(attempt as nat) <= u64::MAX,
    ensures
        r == backoff_ms(attempt as nat),
{
    let factor: u64 = 2;
    let mut power: u64 = 1;
    let mut i: u32 = 0;
    proof {
        lemma2_to64();
    }
    while i < attempt
        invariant
            i <= attempt,
            power == pow2(i as nat),
            factor == 2,
            backoff_ms(attempt as nat) <= u64::MAX,
        decreases attempt - i,
    {
        proof {
            lemma2_to64();
            lemma_pow2_adds(i as nat, 1);
            lemma_pow2_adds((i + 1) as nat, (attempt - i - 1) as nat);
            vstd::arithmetic::power2::lemma_pow2_pos((attempt - i - 1) as nat);
            assert(pow2((i + 1) as nat) <= pow2(attempt as nat)) by (nonlinear_arith)
                requires
                    pow2(attempt as nat) == pow2((i + 1) as nat) * pow2((attempt - i - 1) as nat),
                    pow2((attempt - i - 1) as nat) > 0,
            {}
            assert(pow2((i + 1) as nat) == pow2(i as nat) * 2);
            assert(power * 2 <= u64::MAX);
        }
        power = power * factor;
        i = i + 1;
    }
    BASE_DELAY_MS * power
}


/// What a delivery ends with when attempts `attempt`, `attempt + 1`, ... give
/// `outcomes[attempt]`, `outcomes[attempt + 1]`, ...: the state the destination
/// is marked with, or `None` when it is left as it is (or the outcomes run out).
pub open spec fn delivery_result(attempt: u32, outcomes: Seq<SendOutcome>) -> Option<DestinationState>
    decreases MAX_RETRIES - attempt,
{
    if attempt >= MAX_RETRIES || attempt >= outcomes.len() {
        None
    } else {
        match next_step(attempt, outcomes[attempt as int]) {
            DeliveryStep::Mark { state } => Some(state),
            DeliveryStep::Stop => None,
            DeliveryStep::Send { attempt: next } => delivery_result(next, outcomes),
            DeliveryStep::Sleep { next_attempt: next, .. } => delivery_result(next, outcomes),
        }
    }
}

/// The total time, in milliseconds, that a delivery waits between attempts
/// when attempts from `attempt` on give `outcomes[attempt]`, ...
pub open spec fn delivery_wait(attempt: u32, outcomes: Seq<SendOutcome>) -> int
    decreases MAX_RETRIES - attempt,
{
    if attempt >= MAX_RETRIES || attempt >= outcomes.len() {
        0
    } else {
        match next_step(attempt, outcomes[attempt as int]) {
            DeliveryStep::Send { attempt: next } => delivery_wait(next, outcomes),
            DeliveryStep::Sleep { millis, next_attempt: next } => millis + delivery_wait(next, outcomes),
            _ => 0,
        }
    }
}

/// Some attempt from `from` on, among the first `MAX_RETRIES` and the outcomes given, succeeded.
pub open spec fn succeeds_from(from: int, outcomes: Seq<SendOutcome>) -> bool {
    exists|i: int| from <= i < MAX_RETRIES && i < outcomes.len() && outcomes[i] == SendOutcome::Success
}

/// The result of a delivery stated directly: the destination is reached when
/// one of the first `MAX_RETRIES` attempts succeeds; it has failed when none
/// does and the last of them is rejected; otherwise it is left as it is.
pub open spec fn expected_delivery_result(from: int, outcomes: Seq<SendOutcome>) -> Option<DestinationState> {
    if succeeds_from(from, outcomes) {
        Some(DestinationState::Reached)
    } else if outcomes.len() >= MAX_RETRIES && outcomes[MAX_RETRIES - 1] == SendOutcome::Rejected {
        Some(DestinationState::Error)
    } else {
        None
    }
}

proof fn lemma_delivery_result_from(attempt: u32, outcomes: Seq<SendOutcome>)
    requires
        attempt < MAX_RETRIES,
    ensures
        delivery_result(attempt, outcomes) == expected_delivery_result(attempt as int, outcomes),
    decreases MAX_RETRIES - attempt,
{
    if attempt >= MAX_RETRIES || attempt >= outcomes.len() {
        assert(!succeeds_from(attempt as int, outcomes));
    } else {
        let o = outcomes[attempt as int];
        if attempt + 1 < MAX_RETRIES {
            lemma_delivery_result_from((attempt + 1) as u32, outcomes);
            if o == SendOutcome::Success {
                assert(succeeds_from(attempt as int, outcomes));
            } else {
                assert(succeeds_from(attempt as int, outcomes) == succeeds_from(attempt + 1, outcomes)) by {
                    if succeeds_from(attempt as int, outcomes) {
                        let i: int = choose|i: int|
                            attempt <= i < MAX_RETRIES && i < outcomes.len() && outcomes[i] == SendOutcome::Success;
                        assert(i != attempt);
                    }
                }
            }
        } else {
            if o != SendOutcome::Success {
                assert(!succeeds_from(attempt as int, outcomes)) by {
                    if succeeds_from(attempt as int, outcomes) {
                        let i: int = choose|i: int|
                            attempt <= i < MAX_RETRIES && i < outcomes.len() && outcomes[i] == SendOutcome::Success;
                        assert(i == attempt);
                    }
                }
            } else {
                assert(succeeds_from(attempt as int, outcomes));
            }
        }
    }
}

/// A delivery run through `DeliveryJob::after_send` from attempt 0 marks the
/// destination reached exactly when one of the first `MAX_RETRIES` attempts
/// succeeds, marks it failed exactly when none does and the last of them is
/// rejected, and leaves it as it is otherwise.
pub proof fn law_delivery_result(outcomes: Seq<SendOutcome>)
    ensures
        delivery_result(0, outcomes) == expected_delivery_result(0, outcomes),
{
    lemma_delivery_result_from(0, outcomes);
}

proof fn lemma_delivery_wait_from(attempt: u32, outcomes: Seq<SendOutcome>)
    requires
        attempt <= MAX_RETRIES,
    ensures
        0 <= delivery_wait(attempt, outcomes),
        attempt < MAX_RETRIES ==> delivery_wait(attempt, outcomes)
            <= backoff_ms((MAX_RETRIES - 1) as nat) - backoff_ms(attempt as nat),
    decreases MAX_RETRIES - attempt,
{
    lemma2_to64();
    if attempt < MAX_RETRIES && attempt < outcomes.len() && attempt + 1 < MAX_RETRIES {
        lemma_delivery_wait_from((attempt + 1) as u32, outcomes);
        lemma_pow2_adds(attempt as nat, 1);
    }
}

/// Whatever the outcomes, a delivery waits at most
/// `BASE_DELAY_MS * (2^(MAX_RETRIES - 1) - 1)` milliseconds in all (3 seconds).
pub proof fn law_delivery_wait_bounded(outcomes: Seq<SendOutcome>)
    ensures
        0 <= delivery_wait(0, outcomes) <= BASE_DELAY_MS * (pow2((MAX_RETRIES - 1) as nat) - 1),
        delivery_wait(0, outcomes) <= 3000,
{
    lemma2_to64();
    lemma_delivery_wait_from(0, outcomes);
}

/// Each wait is twice the one before: `backoff_ms(a + 1) == 2 * backoff_ms(a)`,
/// starting from `BASE_DELAY_MS`.
pub proof fn law_backoff_doubles(attempt: nat)
    ensures
        backoff_ms(0) == BASE_DELAY_MS,
        backoff_ms(attempt + 1) == 2 * backoff_ms(attempt),
{
    lemma2_to64();
    lemma_pow2_adds(attempt, 1);
}

proof fn lemma_all_in_state_by_contents(s: Seq<DestinationState>, t: Seq<DestinationState>, state: DestinationState)
    requires
        forall|x: DestinationState| s.contains(x) ==> t.contains(x),
        all_in_state(t, state),
    ensures
        all_in_state(s, state),
{
    assert forall|i: int| 0 <= i < s.len() implies s[i] == state by {
        assert(s.contains(s[i]));
        let j: int = choose|j: int| 0 <= j < t.len() && t[j] == s[i];
    }
}

/// An event's state depends only on how many destinations are in each state,
/// not on their order.
pub proof fn law_event_state_ignores_order(s: Seq<DestinationState>, t: Seq<DestinationState>)
    requires
        s.to_multiset() == t.to_multiset(),
    ensures
        aggregate_state(s) == aggregate_state(t),
{
    broadcast use vstd::seq_lib::group_to_multiset_ensures;
    assert forall|x: DestinationState| s.contains(x) <==> t.contains(x) by {
        assert(s.contains(x) <==> s.to_multiset().count(x) > 0);
        assert(t.contains(x) <==> t.to_multiset().count(x) > 0);
    }
    if all_in_state(t, DestinationState::Reached) {
        lemma_all_in_state_by_contents(s, t, DestinationState::Reached);
    }
    if all_in_state(s, DestinationState::Reached) {
        lemma_all_in_state_by_contents(t, s, DestinationState::Reached);
    }
    if all_in_state(t, DestinationState::Error) {
        lemma_all_in_state_by_contents(s, t, DestinationState::Error);
    }
    if all_in_state(s, DestinationState::Error) {
        lemma_all_in_state_by_contents(t, s, DestinationState::Error);
    }
}


/// The job that delivers `event` to `destination`.
pub struct DeliveryJob {
    pub event: Event,
    pub destination: Destination,
}

impl DeliveryJob {
    pub fn new(event: Event, destination: Destination) -> (r: Self)
        ensures
            r.event == event,
            r.destination == destination,
    {
        DeliveryJob { event, destination }
    }

    /// A delivery starts with attempt 0.
    pub fn first_step() -> (r: DeliveryStep)
        ensures
            r == (DeliveryStep::Send { attempt: 0 }),
    {
        DeliveryStep::Send { attempt: 0 }
    }

    /// The step after attempt `attempt` gave `outcome`: a success marks the
    /// destination reached; a rejection waits `BASE_DELAY_MS * 2^attempt` and
    /// tries again, or after the last attempt marks it failed; an unreachable
    /// destination is tried again at once, or after the last attempt left as it is.
    pub fn after_send(attempt: u32, outcome: SendOutcome) -> (r: DeliveryStep)
        requires
            attempt < MAX_RETRIES,
        ensures
            r == next_step(attempt, outcome),
            r matches DeliveryStep::Send { attempt: next } ==> next == attempt + 1 && next < MAX_RETRIES,
            r matches DeliveryStep::Sleep { next_attempt: next, .. } ==> next == attempt + 1 && next < MAX_RETRIES,
    {
        match outcome {
            SendOutcome::Success => DeliveryStep::Mark { state: DestinationState::Reached },
            SendOutcome::Rejected => {
                if attempt < MAX_RETRIES - 1 {
                    proof {
                        lemma2_to64();
                    }
                    DeliveryStep::Sleep { millis: backoff_delay_ms(attempt), next_attempt: attempt + 1 }
                } else {
                    DeliveryStep::Mark { state: DestinationState::Error }
                }
            },
            SendOutcome::Unreachable => {
                if attempt < MAX_RETRIES - 1 {
                    DeliveryStep::Send { attempt: attempt + 1 }
                } else {
                    DeliveryStep::Stop
                }
            },
        }
    }

    /// The job's destination in `state`, stamped as updated at `now`.
    pub fn marked_destination(&self, state: DestinationState, now: i64) -> (r: Destination)
        ensures
            r == self.destination.spec_with_state(state, now),
            r.state == state,
            r.updated_at == Some(now),
            r.id == self.destination.id,
            r.webhook_id == self.destination.webhook_id,
            r.url == self.destination.url,
            r.api_key == self.destination.api_key,
            r.retry_count == self.destination.retry_count,
            r.next_retry_at == self.destination.next_retry_at,
            r.created_at == self.destination.created_at,
    {
        self.destination.with_state(state, now)
    }

    /// The job's event in the state that the states of `destinations` give,
    /// stamped as updated at `now`.
    pub fn updated_event(&self, destinations: &Vec<Destination>, now: i64) -> (r: Event)
        ensures
            r == self.event.spec_with_state(aggregate_state(destination_states(destinations@)), now),
            r.updated_at == Some(now),
            r.id == self.event.id,
            r.webhook_id == self.event.webhook_id,
            r.data == self.event.data,
            r.created_at == self.event.created_at,
            ({
                let ds = destinations@;
                &&& (r.state == EventState::Processed <==> forall|i: int|
                    0 <= i < ds.len() ==> ds[i].state == DestinationState::Reached)
                &&& (r.state == EventState::Error <==> ds.len() > 0 && forall|i: int|
                    0 <= i < ds.len() ==> ds[i].state == DestinationState::Error)
                &&& (r.state == EventState::Partial <==> (exists|i: int|
                    0 <= i < ds.len() && ds[i].state != DestinationState::Reached) && (exists|j: int|
                    0 <= j < ds.len() && ds[j].state != DestinationState::Error))
            }),
    {
        proof {
            lemma_event_state_of_destinations(destinations@);
        }
        let state = event_state_for(destinations);
        self.event.with_state(state, now)
    }
}

/// The event-state rule, stated over the states themselves: an event is
/// `Processed` exactly when every destination was reached, `Error` exactly when
/// there is at least one destination and every one failed, `Partial` exactly
/// when some destination was not reached and some did not fail; never `Pending`.
pub proof fn law_event_state_rule(states: Seq<DestinationState>)
    ensures
        aggregate_state(states) != EventState::Pending,
        aggregate_state(states) == EventState::Processed <==> forall|i: int|
            0 <= i < states.len() ==> states[i] == DestinationState::Reached,
        aggregate_state(states) == EventState::Error <==> states.len() > 0 && forall|i: int|
            0 <= i < states.len() ==> states[i] == DestinationState::Error,
        aggregate_state(states) == EventState::Partial <==> (exists|i: int|
            0 <= i < states.len() && states[i] != DestinationState::Reached) && (exists|j: int|
            0 <= j < states.len() && states[j] != DestinationState::Error),
{
    if states.len() > 0 {
        assert(states[0] == DestinationState::Reached ==> states[0] != DestinationState::Error);
    }
    if !all_in_state(states, DestinationState::Reached) {
        let i: int = choose|i: int| 0 <= i < states.len() && states[i] != DestinationState::Reached;
        assert(states.len() > 0);
    }
}

/// The event-state rule over destinations, as the contracts state it.
proof fn lemma_event_state_of_destinations(ds: Seq<Destination>)
    ensures
        ({
            let r = aggregate_state(destination_states(ds));
            &&& r != EventState::Pending
            &&& (r == EventState::Processed <==> forall|i: int|
                0 <= i < ds.len() ==> ds[i].state == DestinationState::Reached)
            &&& (r == EventState::Error <==> ds.len() > 0 && forall|i: int|
                0 <= i < ds.len() ==> ds[i].state == DestinationState::Error)
            &&& (r == EventState::Partial <==> (exists|i: int|
                0 <= i < ds.len() && ds[i].state != DestinationState::Reached) && (exists|j: int|
                0 <= j < ds.len() && ds[j].state != DestinationState::Error))
        }),
{
    let states = destination_states(ds);
    law_event_state_rule(states);
    assert(states.len() == ds.len());
    assert forall|i: int| 0 <= i < ds.len() implies #[trigger] states[i] == ds[i].state by {}
    if exists|i: int| 0 <= i < ds.len() && ds[i].state != DestinationState::Reached {
        let i: int = choose|i: int| 0 <= i < ds.len() && ds[i].state != DestinationState::Reached;
        assert(states[i] != DestinationState::Reached);
    }
    if exists|i: int| 0 <= i < ds.len() && ds[i].state != DestinationState::Error {
        let i: int = choose|i: int| 0 <= i < ds.len() && ds[i].state != DestinationState::Error;
        assert(states[i] != DestinationState::Error);
    }
    if exists|i: int| 0 <= i < states.len() && states[i] != DestinationState::Reached {
        let i: int = choose|i: int| 0 <= i < states.len() && states[i] != DestinationState::Reached;
        assert(ds[i].state != DestinationState::Reached);
    }
    if exists|i: int| 0 <= i < states.len() && states[i] != DestinationState::Error {
        let i: int = choose|i: int| 0 <= i < states.len() && states[i] != DestinationState::Error;
        assert(ds[i].state != DestinationState::Error);
    }
}

/// The state of an event given its webhook's destinations: it counts those
/// reached and those failed, and compares each count with the number of destinations.
pub fn event_state_for(destinations: &Vec<Destination>) -> (r: EventState)
    ensures
        r == aggregate_state(destination_states(destinations@)),
        r != EventState::Pending,
        ({
            let ds = destinations@;
            &&& (r == EventState::Processed <==> forall|i: int|
                0 <= i < ds.len() ==> ds[i].state == DestinationState::Reached)
            &&& (r == EventState::Error <==> ds.len() > 0 && forall|i: int|
                0 <= i < ds.len() ==> ds[i].state == DestinationState::Error)
            &&& (r == EventState::Partial <==> (exists|i: int|
                0 <= i < ds.len() && ds[i].state != DestinationState::Reached) && (exists|j: int|
                0 <= j < ds.len() && ds[j].state != DestinationState::Error))
        }),
{
    let ghost states = destination_states(destinations@);
    let mut reached_count: usize = 0;
    let mut error_count: usize = 0;
    let mut i: usize = 0;
    while i < destinations.len()
        invariant
            i <= destinations.len(),
            states == destination_states(destinations@),
            reached_count == count_state(states.take(i as int), DestinationState::Reached),
            error_count == count_state(states.take(i as int), DestinationState::Error),
        decreases destinations.len() - i,
    {
        proof {
            assert(states.take(i + 1).drop_last() == states.take(i as int));
            lemma_count_state_bounds(states.take(i as int), DestinationState::Reached);
            lemma_count_state_bounds(states.take(i as int), DestinationState::Error);
        }
        let state = destinations[i].state;
        if state == DestinationState::Reached {
            reached_count = reached_count + 1;
        }
        if state == DestinationState::Error {
            error_count = error_count + 1;
        }
        i = i + 1;
    }
    proof {
        lemma_event_state_of_destinations(destinations@);
        assert(states.take(destinations.len() as int) == states);
        lemma_count_state_bounds(states, DestinationState::Reached);
        lemma_count_state_bounds(states, DestinationState::Error);
    }
    if reached_count == destinations.len() {
        EventState::Processed
    } else if error_count == destinations.len() {
        EventState::Error
    } else {
        EventState::Partial
    }
}

} // verus!
