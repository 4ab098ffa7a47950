//! The webhook service's rules: what creating a webhook stores, what an update
//! writes, and what triggering a webhook records and queues.
//!
//! The store and the queue are driven by the caller; the records it writes
//! and the messages it queues are built here.

use vstd::prelude::*;
use crate::clock::now_micros;
use crate::ids::{law_distinct_uuids_distinct_texts, random_uuid, uuid_text, uuid_to_text, uuid_version};
use crate::models::destination::{copy_text, Destination, DestinationState};
use crate::models::event::{Event, EventState};
use crate::models::webhook::Webhook;

verus! {

/// The name of the queue that carries the identifiers of triggered events.
pub const EVENTS_QUEUE: &'static str = "events:queue";

/// One destination to create along with a webhook.
#[derive(Debug)]
pub struct CreateDestinationInput {
    pub url: String,
    pub api_key: Option<String>,
}

/// A request to create a webhook with its destinations.
#[derive(Debug)]
pub struct CreateWebhookInput {
    pub name: Option<String>,
    pub description: Option<String>,
    pub destinations: Vec<CreateDestinationInput>,
}

/// A request to change a webhook's name and description.
#[derive(Debug)]
pub struct UpdateWebhookInput {
    pub name: Option<String>,
    pub description: Option<String>,
}

/// A request to delete a webhook.
#[derive(Debug)]
pub struct DeleteWebhookInput {
    pub id: u128,
}

/// What creating a webhook stores, all at once: the webhook and its destinations.
#[derive(Debug)]
pub struct WebhookCreation {
    pub webhook: Webhook,
    pub destinations: Vec<Destination>,
}

/// A new destination of webhook `webhook_id`: pending, never retried.
pub open spec fn new_destination(
    id: u128,
    webhook_id: u128,
    input: CreateDestinationInput,
    created_at: i64,
) -> Destination {
    Destination {
        id,
        webhook_id,
        url: input.url,
        api_key: input.api_key,
        state: DestinationState::Pending,
        retry_count: 0,
        next_retry_at: None,
        created_at,
        updated_at: None,
    }
}

/// The webhook that a creation request gives, with its identity and time.
pub open spec fn new_webhook(input: CreateWebhookInput, id: u128, secret: String, created_at: i64) -> Webhook {
    Webhook { id, secret, name: input.name, description: input.description, created_at }
}

/// The records of a creation request, given the identifiers and times drawn
/// for the webhook and for each destination, in the request's order.
pub fn assemble_creation(
    input: CreateWebhookInput,
    id: u128,
    secret: String,
    created_at: i64,
    destination_ids: Vec<u128>,
    destination_times: Vec<i64>,
) -> (r: WebhookCreation)
    requires
        destination_ids.len() == input.destinations.len(),
        destination_times.len() == input.destinations.len(),
    ensures
        r.webhook == new_webhook(input, id, secret, created_at),
        r.destinations.len() == input.destinations.len(),
        forall|i: int|
            0 <= i < r.destinations.len() ==> r.destinations[i] == new_destination(
                destination_ids[i],
                id,
                input.destinations[i],
                destination_times[i],
            ),
{
    let mut destinations: Vec<Destination> = Vec::new();
    let n: usize = input.destinations.len();
    let mut i: usize = 0;
    while i < n
        invariant
            i <= n,
            n == input.destinations.len(),
            destination_ids.len() == n,
            destination_times.len() == n,
            destinations.len() == i,
            forall|j: int|
                0 <= j < i ==> destinations[j] == new_destination(
                    destination_ids[j],
                    id,
                    input.destinations[j],
                    destination_times[j],
                ),
        decreases n - i,
    {
        let d = &input.destinations[i];
        destinations.push(
            Destination {
                id: destination_ids[i],
                webhook_id: id,
                url: d.url.clone(),
                api_key: copy_text(&d.api_key),
                state: DestinationState::Pending,
                retry_count: 0,
                next_retry_at: None,
                created_at: destination_times[i],
                updated_at: None,
            },
        );
        i = i + 1;
    }
    let webhook = Webhook {
        id,
        secret,
        name: input.name,
        description: input.description,
        created_at,
    };
    WebhookCreation { webhook, destinations }
}

/// The records to store for a creation request. The webhook gets a random
/// identifier and a secret that is the text of another random UUID; each
/// destination gets a random identifier; times are read from the clock.
pub fn plan_creation(input: CreateWebhookInput) -> (r: WebhookCreation)
    ensures
        r.webhook.name == input.name,
        r.webhook.description == input.description,
        uuid_version(r.webhook.id) == 4,
        exists|s: u128| uuid_version(s) == 4 && s != r.webhook.id && r.webhook.secret@ == uuid_text(s),
        r.webhook.secret@ != uuid_text(r.webhook.id),
        r.destinations.len() == input.destinations.len(),
        forall|i: int|
            0 <= i < r.destinations.len() ==> #[trigger] r.destinations[i] == new_destination(
                r.destinations[i].id,
                r.webhook.id,
                input.destinations[i],
                r.destinations[i].created_at,
            ) && uuid_version(r.destinations[i].id) == 4,
{
    let id: u128 = random_uuid();
    let drawn: u128 = random_uuid();
    // The secret is a second, independent draw. Should it ever repeat the
    // identifier, its lowest bit is flipped: it stays a version-4 UUID and
    // never gives the webhook's public id away.
    let secret_id: u128 = if drawn == id {
        drawn ^ 1
    } else {
        drawn
    };
    proof {
        assert(uuid_version(drawn ^ 1) == uuid_version(drawn) && (drawn ^ 1) != drawn) by (bit_vector);
        law_distinct_uuids_distinct_texts(secret_id, id);
    }
    let secret = uuid_to_text(secret_id);
    let created_at: i64 = now_micros();
    let n: usize = input.destinations.len();
    let mut destination_ids: Vec<u128> = Vec::new();
    let mut destination_times: Vec<i64> = Vec::new();
    let mut i: usize = 0;
    while i < n
        invariant
            i <= n,
            destination_ids.len() == i,
            destination_times.len() == i,
            forall|j: int| 0 <= j < i ==> uuid_version(#[trigger] destination_ids[j]) == 4,
        decreases n - i,
    {
        destination_ids.push(random_uuid());
        destination_times.push(now_micros());
        i = i + 1;
    }
    let ghost ids = destination_ids@;
    let r = assemble_creation(input, id, secret, created_at, destination_ids, destination_times);
    assert(uuid_version(secret_id) == 4 && secret_id != id && r.webhook.secret@ == uuid_text(secret_id));
    assert forall|i: int| 0 <= i < r.destinations.len() implies #[trigger] r.destinations[i] == new_destination(
        r.destinations[i].id,
        r.webhook.id,
        input.destinations[i],
        r.destinations[i].created_at,
    ) && uuid_version(r.destinations[i].id) == 4 by {
        assert(r.destinations[i].id == ids[i]);
    }
    r
}

/// The webhook to write for an update request, given what the store found:
/// the found webhook with the request's name and description (identifier,
/// secret and creation time kept), or `None` when there was none.
pub fn apply_update(found: Option<Webhook>, input: UpdateWebhookInput) -> (r: Option<Webhook>)
    ensures
        r == match found {
            Some(w) => Some(Webhook { name: input.name, description: input.description, ..w }),
            None => None::<Webhook>,
        },
{
    match found {
        Some(w) => Some(
            Webhook {
                id: w.id,
                secret: w.secret,
                name: input.name,
                description: input.description,
                created_at: w.created_at,
            },
        ),
        None => None,
    }
}

/// The event that triggering webhook `webhook_id` with `data` records: pending, not yet updated.
pub fn pending_event(id: u128, webhook_id: u128, data: String, created_at: i64) -> (r: Event)
    ensures
        r == (Event { id, webhook_id, data, state: EventState::Pending, created_at, updated_at: None }),
{
    Event { id, webhook_id, data, state: EventState::Pending, created_at, updated_at: None }
}

/// The event to record when webhook `webhook_id` is triggered with `data`: a
/// random identifier, the current time, pending.
pub fn new_pending_event(webhook_id: u128, data: String) -> (r: Event)
    ensures
        r.webhook_id == webhook_id,
        r.data == data,
        r.state == EventState::Pending,
        r.updated_at is None,
        uuid_version(r.id) == 4,
{
    let id: u128 = random_uuid();
    let created_at: i64 = now_micros();
    pending_event(id, webhook_id, data, created_at)
}

/// The message queued for a recorded event: the text of its identifier.
pub fn queue_message(event: &Event) -> (r: String)
    ensures
        r@ == uuid_text(event.id),
{
    uuid_to_text(event.id)
}

} // verus!
