//! The data model: money, parties, transactions, subscriptions, peer quotes,
//! and the parameters of each intent.

use vstd::prelude::*;

use crate::json::Json;
use crate::table::Table;
use crate::text::{str_eq, to_uppercase, uppercase};
use crate::time::Timestamp;

verus! {

// ---------------------------------------------------------------------------
// Envelope and money
// ---------------------------------------------------------------------------

/// Metadata stamped onto every response and echoed into receipts.
#[derive(Debug)]
pub struct ResponseEnvelope {
    pub icp_version: String,
    pub request_id: String,
    pub trace_id: Option<String>,
    pub issued_at: Timestamp,
}

impl Clone for ResponseEnvelope {
    fn clone(&self) -> (r: Self)
        ensures
            r == *self,
    {
        ResponseEnvelope {
            icp_version: self.icp_version.clone(),
            request_id: self.request_id.clone(),
            trace_id: self.trace_id.clone(),
            issued_at: self.issued_at,
        }
    }
}

/// An amount in the minor unit of a currency.
#[derive(Debug)]
pub struct Money {
    /// Integer amount in the minor unit of the currency (cents, satoshis,
    /// six-decimal base for USDC).
    pub amount_minor: i64,
    /// Human-friendly decimal text.
    pub amount_display: Option<String>,
    /// ISO 4217 for fiat; extended codes for stablecoins and crypto.
    pub currency: String,
}

impl Clone for Money {
    fn clone(&self) -> (r: Self)
        ensures
            r == *self,
    {
        Money {
            amount_minor: self.amount_minor,
            amount_display: self.amount_display.clone(),
            currency: self.currency.clone(),
        }
    }
}

impl Money {
    /// An amount without a display text.
    pub fn new(amount_minor: i64, currency: &str) -> (r: Money)
        ensures
            r.is_plain(amount_minor as int, currency@),
    {
        Money { amount_minor, amount_display: None, currency: String::from_str(currency) }
    }

    /// Whether this is the given amount of the given currency, without a
    /// display text.
    pub open spec fn is_plain(self, amount: int, currency: Seq<char>) -> bool {
        self.amount_minor == amount && self.amount_display is None && self.currency@ == currency
    }
}

// ---------------------------------------------------------------------------
// Parties
// ---------------------------------------------------------------------------

/// A postal address.
#[derive(Debug)]
pub struct Address {
    pub name: Option<String>,
    pub line_one: Option<String>,
    pub line_two: Option<String>,
    pub city: Option<String>,
    pub state: Option<String>,
    pub postal_code: Option<String>,
    pub country: Option<String>,
    pub phone_number: Option<String>,
    pub email: Option<String>,
}

impl Clone for Address {
    fn clone(&self) -> (r: Self)
        ensures
            r == *self,
    {
        Address {
            name: self.name.clone(),
            line_one: self.line_one.clone(),
            line_two: self.line_two.clone(),
            city: self.city.clone(),
            state: self.state.clone(),
            postal_code: self.postal_code.clone(),
            country: self.country.clone(),
            phone_number: self.phone_number.clone(),
            email: self.email.clone(),
        }
    }
}

impl Default for Address {
    fn default() -> (r: Self)
        ensures
            r.name is None,
            r.line_one is None,
            r.line_two is None,
            r.city is None,
            r.state is None,
            r.postal_code is None,
            r.country is None,
            r.phone_number is None,
            r.email is None,
    {
        Address {
            name: None,
            line_one: None,
            line_two: None,
            city: None,
            state: None,
            postal_code: None,
            country: None,
            phone_number: None,
            email: None,
        }
    }
}

/// The party that buys.
#[derive(Debug)]
pub struct Buyer {
    pub first_name: Option<String>,
    pub last_name: Option<String>,
    pub email: Option<String>,
    pub phone_number: Option<String>,
    /// Principal DID, when the buyer has a stable decentralized identity.
    pub principal_did: Option<String>,
}

impl Clone for Buyer {
    fn clone(&self) -> (r: Self)
        ensures
            r == *self,
    {
        Buyer {
            first_name: self.first_name.clone(),
            last_name: self.last_name.clone(),
            email: self.email.clone(),
            phone_number: self.phone_number.clone(),
            principal_did: self.principal_did.clone(),
        }
    }
}

impl Default for Buyer {
    fn default() -> (r: Self)
        ensures
            r.first_name is None,
            r.last_name is None,
            r.email is None,
            r.phone_number is None,
            r.principal_did is None,
    {
        Buyer {
            first_name: None,
            last_name: None,
            email: None,
            phone_number: None,
            principal_did: None,
        }
    }
}

// ---------------------------------------------------------------------------
// Intent envelope
// ---------------------------------------------------------------------------

/// Where and how an intent is raised.
#[derive(Debug)]
pub struct IntentContext {
    pub locale: Option<String>,
    pub jurisdiction: Option<String>,
    pub currency: Option<String>,
    pub channel: Option<String>,
    pub session_hint: Option<String>,
}

impl Clone for IntentContext {
    fn clone(&self) -> (r: Self)
        ensures
            r == *self,
    {
        IntentContext {
            locale: self.locale.clone(),
            jurisdiction: self.jurisdiction.clone(),
            currency: self.currency.clone(),
            channel: self.channel.clone(),
            session_hint: self.session_hint.clone(),
        }
    }
}

impl Default for IntentContext {
    fn default() -> (r: Self)
        ensures
            r.locale is None,
            r.jurisdiction is None,
            r.currency is None,
            r.channel is None,
            r.session_hint is None,
    {
        IntentContext {
            locale: None,
            jurisdiction: None,
            currency: None,
            channel: None,
            session_hint: None,
        }
    }
}

/// An intent as it arrives.
#[derive(Debug)]
pub struct IntentEnvelope {
    pub intent: String,
    pub intent_id: Option<String>,
    pub transaction_id: Option<String>,
    pub agent_id: String,
    pub mandate_jti: Option<String>,
    pub params: Json,
    pub context: IntentContext,
}

// ---------------------------------------------------------------------------
// Transactions
// ---------------------------------------------------------------------------

/// Where a transaction stands.
#[derive(Debug, Clone, Copy, PartialEq, Eq, Structural)]
pub enum TransactionState {
    Draft,
    Quoted,
    Authorized,
    Captured,
    Fulfilled,
    Completed,
    Reversed,
    Canceled,
    Expired,
}

impl TransactionState {
    /// The states that end a transaction; nothing but a return leaves them.
    pub open spec fn terminal(self) -> bool {
        self is Completed || self is Reversed || self is Canceled || self is Expired
    }

    /// The name on the wire.
    pub open spec fn name(self) -> Seq<char> {
        match self {
            TransactionState::Draft => "draft"@,
            TransactionState::Quoted => "quoted"@,
            TransactionState::Authorized => "authorized"@,
            TransactionState::Captured => "captured"@,
            TransactionState::Fulfilled => "fulfilled"@,
            TransactionState::Completed => "completed"@,
            TransactionState::Reversed => "reversed"@,
            TransactionState::Canceled => "canceled"@,
            TransactionState::Expired => "expired"@,
        }
    }

    /// The name in messages.
    pub open spec fn label(self) -> Seq<char> {
        match self {
            TransactionState::Draft => "Draft"@,
            TransactionState::Quoted => "Quoted"@,
            TransactionState::Authorized => "Authorized"@,
            TransactionState::Captured => "Captured"@,
            TransactionState::Fulfilled => "Fulfilled"@,
            TransactionState::Completed => "Completed"@,
            TransactionState::Reversed => "Reversed"@,
            TransactionState::Canceled => "Canceled"@,
            TransactionState::Expired => "Expired"@,
        }
    }

    /// Whether the transaction has ended.
    pub fn is_terminal(self) -> (r: bool)
        ensures
            r == self.terminal(),
    {
        matches!(
            self,
            TransactionState::Completed | TransactionState::Reversed | TransactionState::Canceled
                | TransactionState::Expired
        )
    }

    /// The name on the wire.
    pub fn wire_name(self) -> (r: &'static str)
        ensures
            r@ == self.name(),
    {
        match self {
            TransactionState::Draft => "draft",
            TransactionState::Quoted => "quoted",
            TransactionState::Authorized => "authorized",
            TransactionState::Captured => "captured",
            TransactionState::Fulfilled => "fulfilled",
            TransactionState::Completed => "completed",
            TransactionState::Reversed => "reversed",
            TransactionState::Canceled => "canceled",
            TransactionState::Expired => "expired",
        }
    }

    /// The name in messages.
    pub fn debug_name(self) -> (r: &'static str)
        ensures
            r@ == self.label(),
    {
        match self {
            TransactionState::Draft => "Draft",
            TransactionState::Quoted => "Quoted",
            TransactionState::Authorized => "Authorized",
            TransactionState::Captured => "Captured",
            TransactionState::Fulfilled => "Fulfilled",
            TransactionState::Completed => "Completed",
            TransactionState::Reversed => "Reversed",
            TransactionState::Canceled => "Canceled",
            TransactionState::Expired => "Expired",
        }
    }
}

/// One priced position of a transaction.
#[derive(Debug)]
pub struct LineItem {
    pub id: String,
    pub sku: String,
    pub name: String,
    pub quantity: i64,
    pub unit_price: Money,
    pub subtotal: Money,
    pub tax: Option<Money>,
    pub total: Money,
}

impl Clone for LineItem {
    fn clone(&self) -> (r: Self)
        ensures
            r == *self,
    {
        LineItem {
            id: self.id.clone(),
            sku: self.sku.clone(),
            name: self.name.clone(),
            quantity: self.quantity,
            unit_price: self.unit_price.clone(),
            subtotal: self.subtotal.clone(),
            tax: self.tax.clone(),
            total: self.total.clone(),
        }
    }
}

/// The sums of a transaction.
#[derive(Debug)]
pub struct Totals {
    pub subtotal: Option<Money>,
    pub discount: Option<Money>,
    pub shipping: Option<Money>,
    pub tax: Option<Money>,
    pub total: Option<Money>,
}

impl Clone for Totals {
    fn clone(&self) -> (r: Self)
        ensures
            r == *self,
    {
        Totals {
            subtotal: self.subtotal.clone(),
            discount: self.discount.clone(),
            shipping: self.shipping.clone(),
            tax: self.tax.clone(),
            total: self.total.clone(),
        }
    }
}

impl Default for Totals {
    fn default() -> (r: Self)
        ensures
            r.subtotal is None,
            r.discount is None,
            r.shipping is None,
            r.tax is None,
            r.total is None,
    {
        Totals {
            subtotal: None,
            discount: None,
            shipping: None,
            tax: None,
            total: None,
        }
    }
}

/// A transaction and everything known of it.
#[derive(Debug)]
pub struct Transaction {
    pub id: String,
    pub state: TransactionState,
    pub agent_id: String,
    /// Tenant that owns this transaction, derived from the bearer key at
    /// creation time. Reads by other tenants behave as if it did not exist.
    pub tenant_id: String,
    pub mandate_jti: Option<String>,
    pub currency: String,
    pub jurisdiction: Option<String>,
    pub buyer: Buyer,
    pub ship_to: Option<Address>,
    pub bill_to: Option<Address>,
    pub line_items: Vec<LineItem>,
    pub totals: Totals,
    pub order_id: Option<String>,
    pub quote_expires_at: Option<Timestamp>,
    pub created_at: Timestamp,
    pub updated_at: Timestamp,
    /// Cross references to external systems.
    pub external_refs: Table<String>,
}

impl Transaction {
    /// Whether the two hold the same values.
    pub open spec fn same_as(self, other: Self) -> bool {
        &&& self == (Transaction { line_items: self.line_items, external_refs: self.external_refs, ..other })
        &&& self.line_items@ == other.line_items@
        &&& self.external_refs.seq() == other.external_refs.seq()
        &&& self.external_refs@ == other.external_refs@
    }
}

impl Clone for Transaction {
    fn clone(&self) -> (r: Self)
        ensures
            r.same_as(*self),
    {
        let r = Transaction {
            id: self.id.clone(),
            state: self.state,
            agent_id: self.agent_id.clone(),
            tenant_id: self.tenant_id.clone(),
            mandate_jti: self.mandate_jti.clone(),
            currency: self.currency.clone(),
            jurisdiction: self.jurisdiction.clone(),
            buyer: self.buyer.clone(),
            ship_to: self.ship_to.clone(),
            bill_to: self.bill_to.clone(),
            line_items: self.line_items.clone(),
            totals: self.totals.clone(),
            order_id: self.order_id.clone(),
            quote_expires_at: self.quote_expires_at,
            created_at: self.created_at,
            updated_at: self.updated_at,
            external_refs: self.external_refs.copy(),
        };
        assert(r.line_items@ =~= self.line_items@);
        r
    }
}

// ---------------------------------------------------------------------------
// Responses
// ---------------------------------------------------------------------------

/// The order that a purchase created.
#[derive(Debug)]
pub struct OrderSummary {
    pub id: String,
    pub order_number: String,
    pub status: String,
    pub permalink_url: Option<String>,
    pub total: Money,
}

impl Clone for OrderSummary {
    fn clone(&self) -> (r: Self)
        ensures
            r == *self,
    {
        OrderSummary {
            id: self.id.clone(),
            order_number: self.order_number.clone(),
            status: self.status.clone(),
            permalink_url: self.permalink_url.clone(),
            total: self.total.clone(),
        }
    }
}

/// The receipt as it stands in a response body.
#[derive(Debug)]
pub struct ReceiptStub {
    pub jti: String,
    pub kid: String,
    pub jws: String,
    pub body_digest: String,
}

impl Clone for ReceiptStub {
    fn clone(&self) -> (r: Self)
        ensures
            r == *self,
    {
        ReceiptStub {
            jti: self.jti.clone(),
            kid: self.kid.clone(),
            jws: self.jws.clone(),
            body_digest: self.body_digest.clone(),
        }
    }
}

/// The response to an intent.
#[derive(Debug)]
pub struct IntentResponseBody {
    pub intent: String,
    pub intent_id: String,
    pub transaction: Transaction,
    pub order: Option<OrderSummary>,
    /// Present on subscription intents.
    pub subscription: Option<Subscription>,
    /// Present on peer quotes, and on peer payments made against one.
    pub peer_quote: Option<PeerQuote>,
    pub receipt: ReceiptStub,
    pub envelope: ResponseEnvelope,
}

// ---------------------------------------------------------------------------
// Intent parameters
// ---------------------------------------------------------------------------

/// Parameters of `intent.search`.
#[derive(Debug)]
pub struct SearchParams {
    pub query: Option<String>,
    pub filters: Table<String>,
    pub limit: Option<u32>,
    pub cursor: Option<String>,
}

/// Parameters of `intent.describe`.
#[derive(Debug)]
pub struct DescribeParams {
    pub product_id: Option<String>,
    pub sku: Option<String>,
}

/// One requested position.
#[derive(Debug)]
pub struct RequestItem {
    pub sku: String,
    pub quantity: i64,
    pub unit_price_hint: Option<Money>,
}

impl Clone for RequestItem {
    fn clone(&self) -> (r: Self)
        ensures
            r == *self,
    {
        RequestItem {
            sku: self.sku.clone(),
            quantity: self.quantity,
            unit_price_hint: self.unit_price_hint.clone(),
        }
    }
}

/// Parameters of `intent.quote`.
#[derive(Debug)]
pub struct QuoteParams {
    pub items: Vec<RequestItem>,
    pub buyer: Option<Buyer>,
    pub ship_to: Option<Address>,
    pub discount_codes: Vec<String>,
}

/// Parameters of `intent.authorize`.
#[derive(Debug)]
pub struct AuthorizeParams {
    pub transaction_id: String,
    pub buyer: Option<Buyer>,
    pub ship_to: Option<Address>,
    pub bill_to: Option<Address>,
}

/// How a charge is paid.
#[derive(Debug)]
#[allow(inconsistent_fields)]
pub enum PaymentInstrument {
    Card { token: Option<String>, last_digits: Option<String>, brand: Option<String> },
    /// A delegated-payment vault token.
    DelegatedVault { token: String, provider: Option<String> },
    Stablecoin { asset: String, chain: String, from: String, network_memo: Option<String> },
    /// Payment to a peer agent.
    A2A { peer_agent_id: String, memo: Option<String> },
    /// Funds that a payment provider already authorized or captured outside
    /// this handler.
    ExternalAuthorization {
        provider: String,
        authorization_id: String,
        instrument_hint: Option<String>,
    },
}

/// Parameters of `intent.buy`.
#[derive(Debug)]
pub struct BuyParams {
    pub transaction_id: String,
    pub payment: PaymentInstrument,
}

/// Parameters of `intent.track`.
#[derive(Debug)]
pub struct TrackParams {
    pub transaction_id: Option<String>,
    pub order_id: Option<String>,
}

// ---------------------------------------------------------------------------
// Subscriptions
// ---------------------------------------------------------------------------

/// Where a subscription stands.
#[derive(Debug, Clone, Copy, PartialEq, Eq, Structural)]
pub enum SubscriptionStatus {
    /// In its free trial; the first charge is due when the trial ends.
    Trialing,
    Active,
    Paused,
    Canceled,
    PastDue,
}

impl SubscriptionStatus {
    /// The name on the wire.
    pub open spec fn name(self) -> Seq<char> {
        match self {
            SubscriptionStatus::Trialing => "trialing"@,
            SubscriptionStatus::Active => "active"@,
            SubscriptionStatus::Paused => "paused"@,
            SubscriptionStatus::Canceled => "canceled"@,
            SubscriptionStatus::PastDue => "past_due"@,
        }
    }

    /// The name in messages.
    pub open spec fn label(self) -> Seq<char> {
        match self {
            SubscriptionStatus::Trialing => "Trialing"@,
            SubscriptionStatus::Active => "Active"@,
            SubscriptionStatus::Paused => "Paused"@,
            SubscriptionStatus::Canceled => "Canceled"@,
            SubscriptionStatus::PastDue => "PastDue"@,
        }
    }

    /// The name on the wire.
    pub fn wire_name(self) -> (r: &'static str)
        ensures
            r@ == self.name(),
    {
        match self {
            SubscriptionStatus::Trialing => "trialing",
            SubscriptionStatus::Active => "active",
            SubscriptionStatus::Paused => "paused",
            SubscriptionStatus::Canceled => "canceled",
            SubscriptionStatus::PastDue => "past_due",
        }
    }

    /// The name in messages.
    pub fn debug_name(self) -> (r: &'static str)
        ensures
            r@ == self.label(),
    {
        match self {
            SubscriptionStatus::Trialing => "Trialing",
            SubscriptionStatus::Active => "Active",
            SubscriptionStatus::Paused => "Paused",
            SubscriptionStatus::Canceled => "Canceled",
            SubscriptionStatus::PastDue => "PastDue",
        }
    }

    /// Whether the subscription has ended for good.
    pub fn is_terminal(self) -> (r: bool)
        ensures
            r == (self is Canceled),
    {
        matches!(self, SubscriptionStatus::Canceled)
    }
}

/// How often a subscription bills: every seven days, every calendar month
/// (clamped to the end of the month) or every year.
#[derive(Debug, Clone, Copy, PartialEq, Eq, Structural)]
pub enum BillingCadence {
    Weekly,
    Monthly,
    Annual,
}

impl BillingCadence {
    /// The name on the wire.
    pub open spec fn name(self) -> Seq<char> {
        match self {
            BillingCadence::Weekly => "weekly"@,
            BillingCadence::Monthly => "monthly"@,
            BillingCadence::Annual => "annual"@,
        }
    }

    /// The name on the wire.
    pub fn wire_name(self) -> (r: &'static str)
        ensures
            r@ == self.name(),
    {
        match self {
            BillingCadence::Weekly => "weekly",
            BillingCadence::Monthly => "monthly",
            BillingCadence::Annual => "annual",
        }
    }
}

impl Clone for PaymentInstrument {
    fn clone(&self) -> (r: Self)
        ensures
            r == *self,
    {
        match self {
            PaymentInstrument::Card { token, last_digits, brand } => PaymentInstrument::Card {
                token: token.clone(),
                last_digits: last_digits.clone(),
                brand: brand.clone(),
            },
            PaymentInstrument::DelegatedVault { token, provider } => {
                PaymentInstrument::DelegatedVault {
                    token: token.clone(),
                    provider: provider.clone(),
                }
            },
            PaymentInstrument::Stablecoin { asset, chain, from, network_memo } => {
                PaymentInstrument::Stablecoin {
                    asset: asset.clone(),
                    chain: chain.clone(),
                    from: from.clone(),
                    network_memo: network_memo.clone(),
                }
            },
            PaymentInstrument::A2A { peer_agent_id, memo } => PaymentInstrument::A2A {
                peer_agent_id: peer_agent_id.clone(),
                memo: memo.clone(),
            },
            PaymentInstrument::ExternalAuthorization {
                provider,
                authorization_id,
                instrument_hint,
            } => PaymentInstrument::ExternalAuthorization {
                provider: provider.clone(),
                authorization_id: authorization_id.clone(),
                instrument_hint: instrument_hint.clone(),
            },
        }
    }
}

/// A recurring purchase.
#[derive(Debug)]
pub struct Subscription {
    pub id: String,
    pub status: SubscriptionStatus,
    pub agent_id: String,
    /// Tenant that created the subscription; scheduler-driven events go to
    /// this tenant.
    pub tenant_id: String,
    pub mandate_jti: Option<String>,
    pub buyer: Buyer,
    pub ship_to: Option<Address>,
    /// The basket that is charged each cycle.
    pub items: Vec<RequestItem>,
    pub currency: String,
    pub cadence: BillingCadence,
    pub current_period_start: Timestamp,
    pub current_period_end: Timestamp,
    pub next_charge_at: Timestamp,
    /// Number of successful charges to date.
    pub charges_completed: u32,
    /// Most recent charge transaction.
    pub last_transaction_id: Option<String>,
    /// Payment instrument for scheduler-driven renewals.
    pub payment_instrument: Option<PaymentInstrument>,
    pub created_at: Timestamp,
    pub updated_at: Timestamp,
    pub canceled_at: Option<Timestamp>,
    pub paused_at: Option<Timestamp>,
    /// Consecutive scheduler-driven charge failures; a success resets it.
    pub failed_renewal_attempts: u32,
    /// End of the free trial, while there is one.
    pub trial_end: Option<Timestamp>,
}

impl Subscription {
    /// Whether the two hold the same values.
    pub open spec fn same_as(self, other: Self) -> bool {
        &&& self == (Subscription { items: self.items, ..other })
        &&& self.items@ == other.items@
    }
}

impl Clone for Subscription {
    fn clone(&self) -> (r: Self)
        ensures
            r.same_as(*self),
    {
        let r = Subscription {
            id: self.id.clone(),
            status: self.status,
            agent_id: self.agent_id.clone(),
            tenant_id: self.tenant_id.clone(),
            mandate_jti: self.mandate_jti.clone(),
            buyer: self.buyer.clone(),
            ship_to: self.ship_to.clone(),
            items: self.items.clone(),
            currency: self.currency.clone(),
            cadence: self.cadence,
            current_period_start: self.current_period_start,
            current_period_end: self.current_period_end,
            next_charge_at: self.next_charge_at,
            charges_completed: self.charges_completed,
            last_transaction_id: self.last_transaction_id.clone(),
            payment_instrument: self.payment_instrument.clone(),
            created_at: self.created_at,
            updated_at: self.updated_at,
            canceled_at: self.canceled_at,
            paused_at: self.paused_at,
            failed_renewal_attempts: self.failed_renewal_attempts,
            trial_end: self.trial_end,
        };
        assert(r.items@ =~= self.items@);
        r
    }
}

/// Parameters of `intent.subscribe`.
#[derive(Debug)]
pub struct SubscribeParams {
    pub items: Vec<RequestItem>,
    pub buyer: Option<Buyer>,
    pub ship_to: Option<Address>,
    pub cadence: BillingCadence,
    pub payment: PaymentInstrument,
    /// Length of a free trial, when one is wanted.
    pub trial_days: Option<u32>,
}

/// Parameters of `intent.renew`.
#[derive(Debug)]
pub struct RenewParams {
    pub subscription_id: String,
    pub payment: PaymentInstrument,
}

/// Parameters of `intent.pause` and `intent.cancel_subscription`.
#[derive(Debug)]
pub struct SubscriptionRefParams {
    pub subscription_id: String,
}

// ---------------------------------------------------------------------------
// Peer commerce
// ---------------------------------------------------------------------------

/// Where a peer quote stands.
#[derive(Debug, Clone, Copy, PartialEq, Eq, Structural)]
pub enum PeerQuoteStatus {
    /// Requested; not priced yet.
    Pending,
    /// Priced and ready to be paid.
    Quoted,
    /// Paid.
    Accepted,
    /// The deadline passed without acceptance.
    Expired,
    /// One party rejected it.
    Rejected,
}

impl PeerQuoteStatus {
    /// The name on the wire.
    pub open spec fn name(self) -> Seq<char> {
        match self {
            PeerQuoteStatus::Pending => "pending"@,
            PeerQuoteStatus::Quoted => "quoted"@,
            PeerQuoteStatus::Accepted => "accepted"@,
            PeerQuoteStatus::Expired => "expired"@,
            PeerQuoteStatus::Rejected => "rejected"@,
        }
    }

    /// The statuses that nothing leaves.
    pub open spec fn terminal(self) -> bool {
        self is Accepted || self is Expired || self is Rejected
    }

    /// The name on the wire.
    pub fn wire_name(self) -> (r: &'static str)
        ensures
            r@ == self.name(),
    {
        match self {
            PeerQuoteStatus::Pending => "pending",
            PeerQuoteStatus::Quoted => "quoted",
            PeerQuoteStatus::Accepted => "accepted",
            PeerQuoteStatus::Expired => "expired",
            PeerQuoteStatus::Rejected => "rejected",
        }
    }

    /// Whether nothing leaves this status.
    pub fn is_terminal(self) -> (r: bool)
        ensures
            r == self.terminal(),
    {
        matches!(
            self,
            PeerQuoteStatus::Accepted | PeerQuoteStatus::Expired | PeerQuoteStatus::Rejected
        )
    }
}

/// Coarse classification of the work that is quoted between agents.
#[derive(Debug, Clone, Copy, PartialEq, Eq, Structural)]
pub enum A2aServiceKind {
    Compute,
    DataFeed,
    ImageGeneration,
    AdHoc,
}

impl A2aServiceKind {
    /// The name on the wire.
    pub open spec fn name(self) -> Seq<char> {
        match self {
            A2aServiceKind::Compute => "compute"@,
            A2aServiceKind::DataFeed => "data_feed"@,
            A2aServiceKind::ImageGeneration => "image_generation"@,
            A2aServiceKind::AdHoc => "ad_hoc"@,
        }
    }

    /// The name on the wire.
    pub fn wire_name(self) -> (r: &'static str)
        ensures
            r@ == self.name(),
    {
        match self {
            A2aServiceKind::Compute => "compute",
            A2aServiceKind::DataFeed => "data_feed",
            A2aServiceKind::ImageGeneration => "image_generation",
            A2aServiceKind::AdHoc => "ad_hoc",
        }
    }
}

/// The work that is quoted between agents.
#[derive(Debug)]
pub struct A2aServiceSpec {
    pub kind: A2aServiceKind,
    pub description: String,
    /// Structured data that depends on the kind.
    pub params: Json,
}

impl A2aServiceSpec {
    /// Whether the two hold the same values.
    pub open spec fn same_as(self, other: Self) -> bool {
        &&& self == (A2aServiceSpec { params: self.params, ..other })
        &&& self.params@ == other.params@
    }
}

impl Clone for A2aServiceSpec {
    fn clone(&self) -> (r: Self)
        ensures
            r.same_as(*self),
    {
        let r = A2aServiceSpec {
            kind: self.kind,
            description: self.description.clone(),
            params: self.params.copy(),
        };
        r
    }
}

/// A request, quote and payment record between two agents.
#[derive(Debug)]
pub struct PeerQuote {
    pub id: String,
    pub status: PeerQuoteStatus,
    /// Tenant that owns this quote; reads by other tenants behave as if it
    /// did not exist.
    pub tenant_id: String,
    /// The agent that asked for the quote and pays on acceptance.
    pub requester_agent_id: String,
    /// The agent that performs the work and gets paid.
    pub peer_agent_id: String,
    pub service: A2aServiceSpec,
    /// Set once the work is priced.
    pub price: Option<Money>,
    pub created_at: Timestamp,
    pub updated_at: Timestamp,
    pub expires_at: Timestamp,
    pub accepted_at: Option<Timestamp>,
    /// The charge made when the requester paid this quote.
    pub charge_transaction_id: Option<String>,
    pub mandate_jti: Option<String>,
    /// Caller-supplied id for cross-system correlation.
    pub reference_id: Option<String>,
}

impl PeerQuote {
    /// Whether the two hold the same values.
    pub open spec fn same_as(self, other: Self) -> bool {
        &&& self == (PeerQuote { service: self.service, ..other })
        &&& self.service.same_as(other.service)
    }
}

impl Clone for PeerQuote {
    fn clone(&self) -> (r: Self)
        ensures
            r.same_as(*self),
    {
        let r = PeerQuote {
            id: self.id.clone(),
            status: self.status,
            tenant_id: self.tenant_id.clone(),
            requester_agent_id: self.requester_agent_id.clone(),
            peer_agent_id: self.peer_agent_id.clone(),
            service: self.service.clone(),
            price: self.price.clone(),
            created_at: self.created_at,
            updated_at: self.updated_at,
            expires_at: self.expires_at,
            accepted_at: self.accepted_at,
            charge_transaction_id: self.charge_transaction_id.clone(),
            mandate_jti: self.mandate_jti.clone(),
            reference_id: self.reference_id.clone(),
        };
        r
    }
}

/// Parameters of `intent.a2a_quote`.
#[derive(Debug)]
pub struct A2aQuoteParams {
    pub peer_agent_id: String,
    pub service: A2aServiceSpec,
    /// Price that the requester is willing to pay; with it the quote is
    /// immediately payable.
    pub price_hint: Option<Money>,
    /// Validity of the quote; five minutes when absent.
    pub expires_in_seconds: Option<u64>,
    pub reference_id: Option<String>,
}

/// A percentage off a quoted total.
#[derive(Debug)]
pub struct DiscountRequest {
    /// The percentage as a decimal numeral.
    pub percent: String,
    /// The percentage as it stands in messages.
    pub shown: String,
    /// Whether the percentage lies between 0 and 90.
    pub within_bounds: bool,
    /// What is left of the total, in ten-thousandths.
    pub kept_basis_points: i64,
}

impl Clone for DiscountRequest {
    fn clone(&self) -> (r: Self)
        ensures
            r == *self,
    {
        DiscountRequest {
            percent: self.percent.clone(),
            shown: self.shown.clone(),
            within_bounds: self.within_bounds,
            kept_basis_points: self.kept_basis_points,
        }
    }
}

impl DiscountRequest {
    /// Within its bounds a discount leaves between a tenth and the whole.
    pub open spec fn wf(self) -> bool {
        self.within_bounds ==> 1_000 <= self.kept_basis_points <= 10_000
    }
}

/// Parameters of `intent.negotiate`: a new total, or a percentage off the
/// quoted one. The new total wins when both are given.
#[derive(Debug)]
pub struct NegotiateParams {
    pub transaction_id: String,
    pub proposed_total: Option<Money>,
    pub discount: Option<DiscountRequest>,
    /// Rationale for the audit trail.
    pub message: Option<String>,
}

/// Parameters of `intent.confirm_receipt`.
#[derive(Debug)]
pub struct ConfirmReceiptParams {
    pub transaction_id: String,
    pub note: Option<String>,
}

/// Parameters of `intent.a2a_pay`.
#[derive(Debug)]
pub struct A2aPayParams {
    /// The quote that is paid, when there is one.
    pub peer_quote_id: Option<String>,
    /// The payee of a direct payment.
    pub peer_agent_id: Option<String>,
    /// The amount of a direct payment.
    pub amount: Option<Money>,
    /// Wallet or account that pays.
    pub from: String,
    pub payment: Option<PaymentInstrument>,
    pub memo: Option<String>,
}

/// Parameters of `intent.return`.
#[derive(Debug)]
pub struct ReturnParams {
    pub order_id: String,
    pub line_item_ids: Vec<String>,
    pub reason: String,
}

// ---------------------------------------------------------------------------
// Currencies
// ---------------------------------------------------------------------------

/// Minor units per unit of the currency with this upper-case code.
pub open spec fn scale_of(code: Seq<char>) -> int {
    if code == "JPY"@ || code == "KRW"@ || code == "VND"@ {
        1
    } else if code == "BHD"@ || code == "IQD"@ || code == "JOD"@ || code == "KWD"@ || code == "LYD"@
        || code == "OMR"@ || code == "TND"@ {
        1_000
    } else if code == "BTC"@ {
        100_000_000
    } else if code == "USDC"@ || code == "USDT"@ || code == "DAI"@ || code == "SSUSD"@ {
        1_000_000
    } else {
        100
    }
}

/// Minor units per unit of a currency; the code may be in any ASCII case.
pub fn minor_unit_scale(currency: &str) -> (r: i64)
    ensures
        r == scale_of(uppercase(currency@)),
        r >= 1,
{
    let upper = to_uppercase(currency);
    let c = upper.as_str();
    if str_eq(c, "JPY") || str_eq(c, "KRW") || str_eq(c, "VND") {
        1
    } else if str_eq(c, "BHD") || str_eq(c, "IQD") || str_eq(c, "JOD") || str_eq(c, "KWD")
        || str_eq(c, "LYD") || str_eq(c, "OMR") || str_eq(c, "TND") {
        1_000
    } else if str_eq(c, "BTC") {
        100_000_000
    } else if str_eq(c, "USDC") || str_eq(c, "USDT") || str_eq(c, "DAI") || str_eq(c, "SSUSD") {
        1_000_000
    } else {
        100
    }
}

/// Amounts are counted in the smallest unit of their currency: a yen has none, a dinar has a
/// thousand, a bitcoin a hundred million, a stablecoin a million, and any other currency a
/// hundred.
pub proof fn law_currencies_have_their_smallest_unit(code: Seq<char>)
    ensures
        scale_of("JPY"@) == 1 && scale_of("KRW"@) == 1 && scale_of("VND"@) == 1,
        scale_of("BHD"@) == 1_000 && scale_of("IQD"@) == 1_000 && scale_of("JOD"@) == 1_000
            && scale_of("KWD"@) == 1_000 && scale_of("LYD"@) == 1_000 && scale_of("OMR"@) == 1_000
            && scale_of("TND"@) == 1_000,
        scale_of("BTC"@) == 100_000_000,
        scale_of("USDC"@) == 1_000_000 && scale_of("USDT"@) == 1_000_000 && scale_of("DAI"@)
            == 1_000_000 && scale_of("SSUSD"@) == 1_000_000,
        scale_of("USD"@) == 100 && scale_of("EUR"@) == 100 && scale_of("GBP"@) == 100,
        scale_of(code) != 100 ==> code == "JPY"@ || code == "KRW"@ || code == "VND"@ || code
            == "BHD"@ || code == "IQD"@ || code == "JOD"@ || code == "KWD"@ || code == "LYD"@
            || code == "OMR"@ || code == "TND"@ || code == "BTC"@ || code == "USDC"@ || code
            == "USDT"@ || code == "DAI"@ || code == "SSUSD"@,
{
    reveal_strlit("JPY");
    reveal_strlit("KRW");
    reveal_strlit("VND");
    reveal_strlit("BHD");
    reveal_strlit("IQD");
    reveal_strlit("JOD");
    reveal_strlit("KWD");
    reveal_strlit("LYD");
    reveal_strlit("OMR");
    reveal_strlit("TND");
    reveal_strlit("BTC");
    reveal_strlit("USDC");
    reveal_strlit("USDT");
    reveal_strlit("DAI");
    reveal_strlit("SSUSD");
    reveal_strlit("USD");
    reveal_strlit("EUR");
    reveal_strlit("GBP");
    assert("JPY"@[0] == 'J' && "KRW"@[0] == 'K' && "VND"@[0] == 'V' && "BHD"@[0] == 'B'
        && "IQD"@[0] == 'I' && "JOD"@[0] == 'J' && "KWD"@[0] == 'K' && "LYD"@[0] == 'L'
        && "OMR"@[0] == 'O' && "TND"@[0] == 'T' && "BTC"@[0] == 'B' && "DAI"@[0] == 'D'
        && "USD"@[0] == 'U' && "EUR"@[0] == 'E' && "GBP"@[0] == 'G');
    assert("JPY"@[1] == 'P' && "JOD"@[1] == 'O' && "KRW"@[1] == 'R' && "KWD"@[1] == 'W'
        && "BHD"@[1] == 'H' && "BTC"@[1] == 'T');
    assert("USDC"@.len() == 4 && "USDT"@.len() == 4 && "SSUSD"@.len() == 5 && "USD"@.len() == 3
        && "JPY"@.len() == 3 && "KRW"@.len() == 3 && "VND"@.len() == 3 && "BHD"@.len() == 3
        && "IQD"@.len() == 3 && "JOD"@.len() == 3 && "KWD"@.len() == 3 && "LYD"@.len() == 3
        && "OMR"@.len() == 3 && "TND"@.len() == 3 && "BTC"@.len() == 3 && "DAI"@.len() == 3);
}

/// A transaction ends when it is completed, reversed, canceled or expired; a quote between
/// agents when it is accepted, expired or rejected.
pub proof fn law_some_states_are_final(t: TransactionState, q: PeerQuoteStatus)
    ensures
        t.terminal() <==> !(t is Draft || t is Quoted || t is Authorized || t is Captured || t
            is Fulfilled),
        q.terminal() <==> !(q is Pending || q is Quoted),
{
}

/// Each state, status and cadence has its own name on the wire.
pub proof fn law_wire_names()
    ensures
        TransactionState::Draft.name() == "draft"@ && TransactionState::Quoted.name() == "quoted"@
            && TransactionState::Authorized.name() == "authorized"@
            && TransactionState::Captured.name() == "captured"@
            && TransactionState::Fulfilled.name() == "fulfilled"@
            && TransactionState::Completed.name() == "completed"@
            && TransactionState::Reversed.name() == "reversed"@
            && TransactionState::Canceled.name() == "canceled"@
            && TransactionState::Expired.name() == "expired"@,
        SubscriptionStatus::Active.name() == "active"@ && SubscriptionStatus::Paused.name()
            == "paused"@ && SubscriptionStatus::Canceled.name() == "canceled"@
            && SubscriptionStatus::PastDue.name() == "past_due"@
            && SubscriptionStatus::Trialing.name() == "trialing"@,
        PeerQuoteStatus::Pending.name() == "pending"@ && PeerQuoteStatus::Quoted.name()
            == "quoted"@ && PeerQuoteStatus::Accepted.name() == "accepted"@
            && PeerQuoteStatus::Expired.name() == "expired"@ && PeerQuoteStatus::Rejected.name()
            == "rejected"@,
        BillingCadence::Weekly.name() == "weekly"@ && BillingCadence::Monthly.name() == "monthly"@
            && BillingCadence::Annual.name() == "annual"@,
        A2aServiceKind::Compute.name() == "compute"@ && A2aServiceKind::DataFeed.name()
            == "data_feed"@ && A2aServiceKind::ImageGeneration.name() == "image_generation"@
            && A2aServiceKind::AdHoc.name() == "ad_hoc"@,
{
}

} // verus!
