//! The dispatcher's rules: reading an event identifier off the queue, and the
//! delivery jobs that an event gives.

use vstd::prelude::*;
use crate::error::ServiceError;
use crate::ids::{parse_uuid, uuid_from_text, uuid_text};
use crate::models::destination::Destination;
use crate::models::event::Event;
use crate::workers::job::DeliveryJob;

verus! {

/// The event identifier that a queue message holds. A message that is not the
/// text of a UUID is an `InvalidEventId` error that holds the message.
pub fn parse_event_id(message: &str) -> (r: Result<u128, ServiceError>)
    ensures
        r is Ok <==> uuid_from_text(message@) is Some,
        r matches Ok(id) ==> uuid_from_text(message@) == Some(id),
        r matches Err(e) ==> (e matches ServiceError::InvalidEventId(m) && m@ == message@),
        forall|id: u128| message@ == uuid_text(id) ==> (r matches Ok(v) && v == id),
{
    match parse_uuid(message) {
        Ok(id) => Ok(id),
        Err(_) => Err(ServiceError::InvalidEventId(message.to_string())),
    }
}

/// One delivery job per destination, in order, each carrying the event.
pub fn plan_jobs(event: &Event, destinations: Vec<Destination>) -> (r: Vec<DeliveryJob>)
    ensures
        r.len() == destinations.len(),
        forall|i: int| 0 <= i < r.len() ==> r[i].event == *event && r[i].destination == destinations[i],
{
    let mut jobs: Vec<DeliveryJob> = Vec::new();
    let n: usize = destinations.len();
    let mut i: usize = 0;
    while i < n
        invariant
            i <= n,
            n == destinations.len(),
            jobs.len() == i,
            forall|j: int| 0 <= j < i ==> jobs[j].event == *event && jobs[j].destination == destinations[j],
        decreases n - i,
    {
        jobs.push(DeliveryJob::new(event.clone(), destinations[i].clone()));
        i = i + 1;
    }
    jobs
}

} // verus!
