use webhook_relay::models::destination::{Destination, DestinationState};
use webhook_relay::models::event::{Event, EventState};
use webhook_relay::workers::job::{
    backoff_delay_ms, classify_response, event_state_for, DeliveryJob, DeliveryStep, SendOutcome, BASE_DELAY_MS,
    MAX_RETRIES,
};

fn destination(id: u128, state: DestinationState) -> Destination {
    Destination {
        id,
        webhook_id: 7,
        url: format!("http://example.test/{}", id),
        api_key: None,
        state,
        retry_count: 0,
        next_retry_at: None,
        created_at: 1_700_000_000_000_000,
        updated_at: None,
    }
}

fn event() -> Event {
    Event {
        id: 42,
        webhook_id: 7,
        data: "{\"a\":1}".to_string(),
        state: EventState::Pending,
        created_at: 1_700_000_000_000_000,
        updated_at: None,
    }
}

/// Runs the step machine on a list of outcomes, as the worker does, and
/// returns the final mark, the waits and the number of attempts.
fn run(outcomes: &[SendOutcome]) -> (Option<DestinationState>, Vec<u64>, u32) {
    let mut step = DeliveryJob::first_step();
    let mut waits = Vec::new();
    let mut attempts = 0;
    loop {
        match step {
            DeliveryStep::Send { attempt } => {
                attempts += 1;
                step = DeliveryJob::after_send(attempt, outcomes[attempt as usize]);
            }
            DeliveryStep::Sleep { millis, next_attempt } => {
                waits.push(millis);
                step = DeliveryStep::Send { attempt: next_attempt };
            }
            DeliveryStep::Mark { state } => return (Some(state), waits, attempts),
            DeliveryStep::Stop => return (None, waits, attempts),
        }
    }
}

#[test]
fn constants_are_those_of_the_service() {
    assert_eq!(MAX_RETRIES, 3);
    assert_eq!(BASE_DELAY_MS, 1000);
}

#[test]
fn backoff_doubles_from_one_second() {
    assert_eq!(backoff_delay_ms(0), 1000);
    assert_eq!(backoff_delay_ms(1), 2000);
    assert_eq!(backoff_delay_ms(2), 4000);
    assert_eq!(backoff_delay_ms(10), 1_024_000);
}

#[test]
fn first_attempt_success_marks_reached() {
    let (mark, waits, attempts) = run(&[SendOutcome::Success]);
    assert_eq!(mark, Some(DestinationState::Reached));
    assert!(waits.is_empty());
    assert_eq!(attempts, 1);
}

#[test]
fn success_after_rejections_marks_reached() {
    let (mark, waits, attempts) =
        run(&[SendOutcome::Rejected, SendOutcome::Rejected, SendOutcome::Success]);
    assert_eq!(mark, Some(DestinationState::Reached));
    assert_eq!(waits, vec![1000, 2000]);
    assert_eq!(attempts, 3);
}

#[test]
fn three_rejections_mark_error_after_three_seconds_of_waiting() {
    let (mark, waits, attempts) =
        run(&[SendOutcome::Rejected, SendOutcome::Rejected, SendOutcome::Rejected]);
    assert_eq!(mark, Some(DestinationState::Error));
    assert_eq!(waits, vec![1000, 2000]);
    assert_eq!(attempts, 3);
}

#[test]
fn unreachable_retries_without_waiting_and_leaves_destination_alone() {
    let (mark, waits, attempts) =
        run(&[SendOutcome::Unreachable, SendOutcome::Unreachable, SendOutcome::Unreachable]);
    assert_eq!(mark, None);
    assert!(waits.is_empty());
    assert_eq!(attempts, 3);
}

#[test]
fn last_attempt_unreachable_after_rejections_leaves_destination_alone() {
    let (mark, waits, _) =
        run(&[SendOutcome::Rejected, SendOutcome::Rejected, SendOutcome::Unreachable]);
    assert_eq!(mark, None);
    assert_eq!(waits, vec![1000, 2000]);
}

#[test]
fn last_attempt_rejected_after_unreachable_marks_error() {
    let (mark, waits, _) =
        run(&[SendOutcome::Unreachable, SendOutcome::Unreachable, SendOutcome::Rejected]);
    assert_eq!(mark, Some(DestinationState::Error));
    assert!(waits.is_empty());
}

#[test]
fn after_send_steps() {
    assert_eq!(
        DeliveryJob::after_send(0, SendOutcome::Rejected),
        DeliveryStep::Sleep { millis: 1000, next_attempt: 1 }
    );
    assert_eq!(
        DeliveryJob::after_send(1, SendOutcome::Unreachable),
        DeliveryStep::Send { attempt: 2 }
    );
    assert_eq!(DeliveryJob::after_send(2, SendOutcome::Unreachable), DeliveryStep::Stop);
    assert_eq!(
        DeliveryJob::after_send(2, SendOutcome::Success),
        DeliveryStep::Mark { state: DestinationState::Reached }
    );
}

#[test]
fn all_reached_is_processed() {
    let v = vec![
        destination(1, DestinationState::Reached),
        destination(2, DestinationState::Reached),
    ];
    assert_eq!(event_state_for(&v), EventState::Processed);
}

#[test]
fn no_destinations_is_processed() {
    assert_eq!(event_state_for(&Vec::new()), EventState::Processed);
}

#[test]
fn all_failed_is_error() {
    let v = vec![destination(1, DestinationState::Error), destination(2, DestinationState::Error)];
    assert_eq!(event_state_for(&v), EventState::Error);
}

#[test]
fn mixed_is_partial_whatever_the_order() {
    let a = vec![
        destination(1, DestinationState::Reached),
        destination(2, DestinationState::Error),
        destination(3, DestinationState::Pending),
    ];
    let b = vec![
        destination(3, DestinationState::Pending),
        destination(1, DestinationState::Reached),
        destination(2, DestinationState::Error),
    ];
    assert_eq!(event_state_for(&a), EventState::Partial);
    assert_eq!(event_state_for(&b), EventState::Partial);
}

#[test]
fn pending_only_is_partial() {
    let v = vec![destination(1, DestinationState::Pending)];
    assert_eq!(event_state_for(&v), EventState::Partial);
}

#[test]
fn job_marks_its_destination() {
    let job = DeliveryJob::new(event(), destination(5, DestinationState::Pending));
    let d = job.marked_destination(DestinationState::Reached, 99);
    assert_eq!(d.id, 5);
    assert_eq!(d.state, DestinationState::Reached);
    assert_eq!(d.updated_at, Some(99));
    assert_eq!(d.url, "http://example.test/5");
    assert_eq!(d.created_at, 1_700_000_000_000_000);
}

#[test]
fn job_updates_its_event_from_all_destinations() {
    let job = DeliveryJob::new(event(), destination(5, DestinationState::Reached));
    let all = vec![destination(5, DestinationState::Reached), destination(6, DestinationState::Error)];
    let e = job.updated_event(&all, 123);
    assert_eq!(e.id, 42);
    assert_eq!(e.state, EventState::Partial);
    assert_eq!(e.updated_at, Some(123));
    assert_eq!(e.data, "{\"a\":1}");
    let only = vec![destination(5, DestinationState::Reached)];
    assert_eq!(job.updated_event(&only, 124).state, EventState::Processed);
}

#[test]
fn responses_are_classified_by_status() {
    assert_eq!(classify_response(Some(200)), SendOutcome::Success);
    assert_eq!(classify_response(Some(204)), SendOutcome::Success);
    assert_eq!(classify_response(Some(299)), SendOutcome::Success);
    assert_eq!(classify_response(Some(199)), SendOutcome::Rejected);
    assert_eq!(classify_response(Some(300)), SendOutcome::Rejected);
    assert_eq!(classify_response(Some(404)), SendOutcome::Rejected);
    assert_eq!(classify_response(Some(500)), SendOutcome::Rejected);
    assert_eq!(classify_response(None), SendOutcome::Unreachable);
}
