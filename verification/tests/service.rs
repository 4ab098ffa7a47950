use webhook_relay::error::ServiceError;
use webhook_relay::models::destination::{Destination, DestinationState};
use webhook_relay::models::event::EventState;
use webhook_relay::models::webhook::Webhook;
use webhook_relay::services::webhook::{
    apply_update, assemble_creation, new_pending_event, pending_event, plan_creation,
    queue_message, CreateDestinationInput, CreateWebhookInput, UpdateWebhookInput, EVENTS_QUEUE,
};
use webhook_relay::workers::dispatcher::{parse_event_id, plan_jobs};

const ID: u128 = 0x550e8400_e29b_41d4_a716_446655440000;
const ID_TEXT: &str = "550e8400-e29b-41d4-a716-446655440000";

fn version(u: u128) -> u128 {
    (u >> 76) & 0xf
}

fn variant(u: u128) -> u128 {
    (u >> 62) & 0x3
}

fn input() -> CreateWebhookInput {
    CreateWebhookInput {
        name: Some("orders".to_string()),
        description: None,
        destinations: vec![
            CreateDestinationInput { url: "http://a.test/hook".to_string(), api_key: None },
            CreateDestinationInput {
                url: "http://b.test/hook".to_string(),
                api_key: Some("key-b".to_string()),
            },
        ],
    }
}

#[test]
fn queue_name() {
    assert_eq!(EVENTS_QUEUE, "events:queue");
}

#[test]
fn assembled_creation_links_destinations() {
    let c = assemble_creation(input(), 9, "s".to_string(), 100, vec![11, 12], vec![101, 102]);
    assert_eq!(c.webhook.id, 9);
    assert_eq!(c.webhook.secret, "s");
    assert_eq!(c.webhook.name, Some("orders".to_string()));
    assert_eq!(c.webhook.description, None);
    assert_eq!(c.webhook.created_at, 100);
    assert_eq!(c.destinations.len(), 2);
    for (i, d) in c.destinations.iter().enumerate() {
        assert_eq!(d.id, 11 + i as u128);
        assert_eq!(d.webhook_id, 9);
        assert_eq!(d.state, DestinationState::Pending);
        assert_eq!(d.retry_count, 0);
        assert_eq!(d.next_retry_at, None);
        assert_eq!(d.updated_at, None);
        assert_eq!(d.created_at, 101 + i as i64);
    }
    assert_eq!(c.destinations[1].url, "http://b.test/hook");
    assert_eq!(c.destinations[1].api_key, Some("key-b".to_string()));
}

#[test]
fn planned_creation_draws_version_four_ids_and_a_uuid_secret() {
    let c = plan_creation(input());
    assert_eq!(version(c.webhook.id), 4);
    assert_eq!(variant(c.webhook.id), 2);
    assert_eq!(c.webhook.secret.len(), 36);
    let secret = parse_event_id(&c.webhook.secret).ok().unwrap();
    assert_eq!(version(secret), 4);
    assert!(c.webhook.created_at > 1_600_000_000_000_000);
    assert_eq!(c.destinations.len(), 2);
    for d in &c.destinations {
        assert_eq!(d.webhook_id, c.webhook.id);
        assert_eq!(version(d.id), 4);
        assert_eq!(d.state, DestinationState::Pending);
    }
    assert_ne!(c.destinations[0].id, c.destinations[1].id);
}

#[test]
fn creation_without_destinations() {
    let c = plan_creation(CreateWebhookInput { name: None, description: None, destinations: vec![] });
    assert!(c.destinations.is_empty());
}

#[test]
fn update_keeps_identity_and_secret() {
    let found = Webhook {
        id: 3,
        secret: "kept".to_string(),
        name: Some("old".to_string()),
        description: Some("old text".to_string()),
        created_at: 5,
    };
    let w = apply_update(
        Some(found),
        UpdateWebhookInput { name: Some("new".to_string()), description: None },
    )
    .unwrap();
    assert_eq!(w.id, 3);
    assert_eq!(w.secret, "kept");
    assert_eq!(w.name, Some("new".to_string()));
    assert_eq!(w.description, None);
    assert_eq!(w.created_at, 5);
}

#[test]
fn update_of_missing_webhook_writes_nothing() {
    assert!(apply_update(None, UpdateWebhookInput { name: None, description: None }).is_none());
}

#[test]
fn triggered_event_is_pending() {
    let e = pending_event(1, 2, "null".to_string(), 3);
    assert_eq!((e.id, e.webhook_id, e.created_at), (1, 2, 3));
    assert_eq!(e.state, EventState::Pending);
    assert_eq!(e.updated_at, None);
    let fresh = new_pending_event(2, "[1,2]".to_string());
    assert_eq!(fresh.webhook_id, 2);
    assert_eq!(fresh.data, "[1,2]");
    assert_eq!(fresh.state, EventState::Pending);
    assert_eq!(version(fresh.id), 4);
    assert!(fresh.created_at > 1_600_000_000_000_000);
}

#[test]
fn queue_message_is_the_hyphenated_id() {
    let e = pending_event(ID, 2, "{}".to_string(), 3);
    assert_eq!(queue_message(&e), ID_TEXT);
    let zero = pending_event(0, 2, "{}".to_string(), 3);
    assert_eq!(queue_message(&zero), "00000000-0000-0000-0000-000000000000");
}

#[test]
fn queued_id_reads_back() {
    let e = new_pending_event(8, "{}".to_string());
    let msg = queue_message(&e);
    assert_eq!(parse_event_id(&msg).ok(), Some(e.id));
    assert_eq!(parse_event_id(ID_TEXT).ok(), Some(ID));
}

#[test]
fn other_uuid_formats_are_read_too() {
    assert_eq!(parse_event_id("550E8400-E29B-41D4-A716-446655440000").ok(), Some(ID));
    assert_eq!(parse_event_id("550e8400e29b41d4a716446655440000").ok(), Some(ID));
}

#[test]
fn invalid_queue_message_is_an_error_holding_it() {
    match parse_event_id("not-an-id") {
        Err(ServiceError::InvalidEventId(m)) => assert_eq!(m, "not-an-id"),
        other => panic!("unexpected {:?}", other),
    }
    assert!(parse_event_id("").is_err());
}

#[test]
fn one_job_per_destination_in_order() {
    let e = pending_event(ID, 2, "{}".to_string(), 3);
    let dests: Vec<Destination> = (0..3u128)
        .map(|i| Destination {
            id: i,
            webhook_id: 2,
            url: format!("http://{}.test", i),
            api_key: None,
            state: DestinationState::Pending,
            retry_count: 0,
            next_retry_at: None,
            created_at: 0,
            updated_at: None,
        })
        .collect();
    let jobs = plan_jobs(&e, dests);
    assert_eq!(jobs.len(), 3);
    for (i, j) in jobs.iter().enumerate() {
        assert_eq!(j.destination.id, i as u128);
        assert_eq!(j.event.id, ID);
        assert_eq!(j.event.data, "{}");
    }
    assert!(plan_jobs(&e, Vec::new()).is_empty());
}

#[test]
fn distinct_events_queue_distinct_messages() {
    let a = pending_event(ID, 2, "{}".to_string(), 3);
    let b = pending_event(ID + 1, 2, "{}".to_string(), 3);
    assert_ne!(queue_message(&a), queue_message(&b));
    assert_eq!(queue_message(&b), "550e8400-e29b-41d4-a716-446655440001");
}
