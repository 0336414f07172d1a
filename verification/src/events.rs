//! Lifecycle events and the webhook deliveries that carry them.

use vstd::prelude::*;

use crate::json::Json;
use crate::time::Timestamp;

verus! {

/// Something that happened to a transaction, a subscription or a peer quote.
#[derive(Debug)]
pub struct Event {
    pub id: String,
    /// What happened, such as `transaction.completed`.
    pub event_type: String,
    pub transaction_id: Option<String>,
    pub order_id: Option<String>,
    pub agent_id: Option<String>,
    pub occurred_at: Timestamp,
    pub payload: Json,
}

/// Where a delivery stands.
#[derive(Debug, Clone, Copy, PartialEq, Eq, Structural)]
pub enum DeliveryStatus {
    Pending,
    InFlight,
    Delivered,
    Failed,
    DeadLettered,
}

impl DeliveryStatus {
    /// The name on the wire.
    pub open spec fn name(self) -> Seq<char> {
        match self {
            DeliveryStatus::Pending => "pending"@,
            DeliveryStatus::InFlight => "in_flight"@,
            DeliveryStatus::Delivered => "delivered"@,
            DeliveryStatus::Failed => "failed"@,
            DeliveryStatus::DeadLettered => "dead_lettered"@,
        }
    }
}

/// An event on its way to one destination.
#[derive(Debug)]
pub struct WebhookDelivery {
    pub id: String,
    pub event_id: String,
    pub event_type: String,
    pub url: String,
    pub payload_json: String,
    pub status: DeliveryStatus,
    pub attempts: u32,
    pub max_attempts: u32,
    pub next_attempt_at: Timestamp,
    pub last_status_code: Option<u16>,
    pub last_error: Option<String>,
    pub created_at: Timestamp,
    pub updated_at: Timestamp,
    pub delivered_at: Option<Timestamp>,
    pub tenant_id: String,
}

/// A destination that a tenant registered.
#[derive(Debug)]
pub struct WebhookSubscriber {
    pub id: String,
    pub tenant_id: String,
    pub url: String,
    pub secret: Option<String>,
    pub active: bool,
    pub created_at: Timestamp,
    pub updated_at: Timestamp,
}

impl Clone for WebhookSubscriber {
    fn clone(&self) -> (r: Self)
        ensures
            r == *self,
    {
        WebhookSubscriber {
            id: self.id.clone(),
            tenant_id: self.tenant_id.clone(),
            url: self.url.clone(),
            secret: self.secret.clone(),
            active: self.active,
            created_at: self.created_at,
            updated_at: self.updated_at,
        }
    }
}

} // verus!
