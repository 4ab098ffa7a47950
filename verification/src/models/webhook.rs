//! A webhook: a named receiver of events, with a secret.

use vstd::prelude::*;
use crate::models::destination::copy_text;

verus! {

/// A webhook. The identifier is a UUID held as `u128`; `created_at` is in
/// microseconds since the Unix epoch.
#[derive(Debug)]
pub struct Webhook {
    pub id: u128,
    pub secret: String,
    pub name: Option<String>,
    pub description: Option<String>,
    pub created_at: i64,
}

impl Clone for Webhook {
    fn clone(&self) -> (r: Self)
        ensures
            r == *self,
    {
        Webhook {
            id: self.id,
            secret: self.secret.clone(),
            name: copy_text(&self.name),
            description: copy_text(&self.description),
            created_at: self.created_at,
        }
    }
}

} // verus!
