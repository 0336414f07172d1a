//! The intent pipeline.
//!
//! [`IcpService`] holds the state of the protocol and executes intents against
//! it. What needs the outside world is left to the caller: the clock, fresh ids,
//! the JSON reader, the resolver of principals and the commerce
//! engine. An intent that needs the engine is executed in two steps, with the
//! reply of the engine handed to the second.

use vstd::prelude::*;

use crate::agent::{AgentIdentifier, ApiKeyInfo};
use crate::config::Config;
use crate::events::{Event, WebhookDelivery, WebhookSubscriber};
use crate::idempotency::IdempotencyStore;
use crate::mandate::MandateLedger;
use crate::models::{
    IntentEnvelope, Money, OrderSummary, PeerQuote, Subscription, Transaction,
};
use crate::rate_limit::RateLimiter;
use crate::receipts::ReceiptStore;
use crate::signing::ReceiptSigner;
use crate::table::Table;

pub mod a2a;
pub mod catalog;
pub mod dispatch;
pub mod expiry;
pub mod helpers;
pub mod locks;
pub mod negotiate;
pub mod orders;
pub mod purchase;
pub mod renewal;
pub mod run;
pub mod subscriptions;

verus! {

/// The state of the protocol, and the means to sign and limit.
pub struct IcpService {
    pub config: Config,
    pub transactions: Table<Transaction>,
    pub subscriptions: Table<Subscription>,
    pub peer_quotes: Table<PeerQuote>,
    pub receipts: ReceiptStore,
    pub mandates: MandateLedger,
    pub idempotency: IdempotencyStore,
    pub rate_limiter: RateLimiter,
    /// Limits requests by client before the key is looked at.
    pub pre_auth_limiter: RateLimiter,
    /// Deliveries that the worker is to send.
    pub webhook_outbox: Vec<WebhookDelivery>,
    pub webhook_subscribers: Table<WebhookSubscriber>,
    /// Attempts that a new delivery gets.
    pub webhook_max_attempts: u32,
    pub signer: ReceiptSigner,
    /// Events that are to be published, oldest first.
    pub events: Vec<Event>,
}

/// An intent with everything that is known of its caller.
#[derive(Debug)]
pub struct IntentInput {
    pub envelope: IntentEnvelope,
    pub agent: AgentIdentifier,
    pub tenant: ApiKeyInfo,
    pub mandate_jws: Option<String>,
    pub request_id: String,
    pub trace_id: Option<String>,
    /// Set only by the compatibility paths, which take the tenant's key as a
    /// mandate for its own shop.
    pub skip_mandate_check: bool,
}

impl IntentInput {
    /// An intent on the native path.
    pub fn for_icp(
        envelope: IntentEnvelope,
        agent: AgentIdentifier,
        tenant: ApiKeyInfo,
        mandate_jws: Option<String>,
        request_id: String,
        trace_id: Option<String>,
    ) -> (r: IntentInput)
        ensures
            r == (IntentInput {
                envelope,
                agent,
                tenant,
                mandate_jws,
                request_id,
                trace_id,
                skip_mandate_check: false,
            }),
    {
        IntentInput {
            envelope,
            agent,
            tenant,
            mandate_jws,
            request_id,
            trace_id,
            skip_mandate_check: false,
        }
    }

    /// An intent on a compatibility path.
    pub fn for_compat(
        envelope: IntentEnvelope,
        agent: AgentIdentifier,
        tenant: ApiKeyInfo,
        request_id: String,
        trace_id: Option<String>,
    ) -> (r: IntentInput)
        ensures
            r == (IntentInput {
                envelope,
                agent,
                tenant,
                mandate_jws: None,
                request_id,
                trace_id,
                skip_mandate_check: true,
            }),
    {
        IntentInput {
            envelope,
            agent,
            tenant,
            mandate_jws: None,
            request_id,
            trace_id,
            skip_mandate_check: true,
        }
    }
}

/// What an executed intent produced.
#[derive(Debug)]
pub struct Outcome {
    pub transaction: Transaction,
    pub order: Option<OrderSummary>,
    /// Set by the subscription intents.
    pub subscription: Option<Subscription>,
    /// Set by peer quotes, and by peer payments against one.
    pub peer_quote: Option<PeerQuote>,
}

/// An order that the engine accepted.
#[derive(Debug)]
pub struct PersistedOrder {
    pub id: String,
    pub order_number: String,
    pub total: Money,
}

impl IcpService {
    /// Every row is kept under its own id.
    pub open spec fn wf(&self) -> bool {
        &&& forall|k: Seq<char>| #[trigger]
            self.transactions@.contains_key(k) ==> self.transactions@[k].id@ == k
        &&& forall|k: Seq<char>| #[trigger]
            self.subscriptions@.contains_key(k) ==> self.subscriptions@[k].id@ == k
        &&& forall|k: Seq<char>| #[trigger]
            self.peer_quotes@.contains_key(k) ==> self.peer_quotes@[k].id@ == k
    }

    /// A service without any state.
    pub fn new(config: Config, signer: ReceiptSigner, webhook_max_attempts: u32) -> (r: IcpService)
        ensures
            r.wf(),
            r.config == config,
            r.signer == signer,
            r.webhook_max_attempts == webhook_max_attempts,
            r.transactions@ == Map::<Seq<char>, Transaction>::empty(),
            r.subscriptions@ == Map::<Seq<char>, Subscription>::empty(),
            r.peer_quotes@ == Map::<Seq<char>, PeerQuote>::empty(),
            r.receipts@ == Map::<Seq<char>, crate::receipts::StoredReceipt>::empty(),
            r.mandates@ == Map::<Seq<char>, crate::mandate::UsageView>::empty(),
            r.idempotency@ == Map::<(Seq<char>, Seq<char>), crate::idempotency::RowView>::empty(),
            r.rate_limiter.capacity() == config.rate_limit_per_minute,
            r.rate_limiter.window() == 60_000_000_000,
            r.rate_limiter@ == Map::<Seq<char>, crate::rate_limit::BucketView>::empty(),
            r.pre_auth_limiter.capacity() == config.pre_auth_rate_limit_per_minute,
            r.pre_auth_limiter.window() == 60_000_000_000,
            r.pre_auth_limiter@ == Map::<Seq<char>, crate::rate_limit::BucketView>::empty(),
            r.webhook_outbox@.len() == 0,
            r.webhook_subscribers@ == Map::<Seq<char>, WebhookSubscriber>::empty(),
            r.events@.len() == 0,
    {
        let rate_limiter = RateLimiter::per_minute(config.rate_limit_per_minute);
        let pre_auth_limiter = RateLimiter::per_minute(config.pre_auth_rate_limit_per_minute);
        IcpService {
            config,
            transactions: Table::new(),
            subscriptions: Table::new(),
            peer_quotes: Table::new(),
            receipts: ReceiptStore::new(),
            mandates: MandateLedger::new(),
            idempotency: IdempotencyStore::in_memory(),
            rate_limiter,
            pre_auth_limiter,
            webhook_outbox: Vec::new(),
            webhook_subscribers: Table::new(),
            webhook_max_attempts,
            signer,
            events: Vec::new(),
        }
    }
}

} // verus!
