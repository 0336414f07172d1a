//! The Universal Commerce Protocol: checkouts on top of transactions.
//!
//! Creating a checkout quotes, updating it authorizes, completing it buys, and
//! canceling it returns. Every response names the capabilities that were agreed
//! on.

use vstd::prelude::*;

use crate::agent::ApiKeyStore;
use crate::compat::{context_for, context_of, key_error, tenant_of, CompatContext, CompatHeaders};
use crate::errors::{ApiError, ErrorView};
use crate::handlers::bearer_of;
use crate::json::{ArrayBuilder, Json, JsonView, ObjectBuilder};
use crate::models::{
    Address, AuthorizeParams, Buyer, BuyParams, LineItem, OrderSummary, PaymentInstrument,
    QuoteParams, RequestItem, Totals, Transaction, TransactionState,
};
use crate::service::helpers::blank_buyer;
use crate::service::IcpService;
use crate::text::{join2, join5, opt_text, str_eq};

verus! {

/// The version of the protocol that is spoken.
pub const UCP_VERSION: &'static str = "2026-01-11";

// ---------------------------------------------------------------------------
// Requests
// ---------------------------------------------------------------------------

/// A reference to an item.
#[derive(Debug)]
pub struct ItemRef {
    pub id: String,
}

/// One requested position.
#[derive(Debug)]
pub struct LineItemInput {
    pub item: ItemRef,
    pub quantity: i32,
    pub id: Option<String>,
}

/// The party that buys.
#[derive(Debug)]
pub struct UcpBuyer {
    pub first_name: Option<String>,
    pub last_name: Option<String>,
    pub email: Option<String>,
    pub phone_number: Option<String>,
}

/// A postal address.
#[derive(Debug)]
pub struct UcpAddress {
    pub name: Option<String>,
    pub line_one: Option<String>,
    pub line_two: Option<String>,
    pub city: Option<String>,
    pub state: Option<String>,
    pub postal_code: Option<String>,
    pub country: Option<String>,
}

/// The same party in the data model.
pub open spec fn as_buyer(b: UcpBuyer) -> Buyer {
    Buyer {
        first_name: b.first_name,
        last_name: b.last_name,
        email: b.email,
        phone_number: b.phone_number,
        principal_did: None,
    }
}

/// The same party in the data model.
pub fn map_buyer(b: UcpBuyer) -> (r: Buyer)
    ensures
        r == as_buyer(b),
{
    Buyer {
        first_name: b.first_name,
        last_name: b.last_name,
        email: b.email,
        phone_number: b.phone_number,
        principal_did: None,
    }
}

/// The same address in the data model.
pub open spec fn as_address(a: UcpAddress) -> Address {
    Address {
        name: a.name,
        line_one: a.line_one,
        line_two: a.line_two,
        city: a.city,
        state: a.state,
        postal_code: a.postal_code,
        country: a.country,
        phone_number: None,
        email: None,
    }
}

/// The same address in the data model.
pub fn map_address(a: UcpAddress) -> (r: Address)
    ensures
        r == as_address(a),
{
    Address {
        name: a.name,
        line_one: a.line_one,
        line_two: a.line_two,
        city: a.city,
        state: a.state,
        postal_code: a.postal_code,
        country: a.country,
        phone_number: None,
        email: None,
    }
}

/// Where the goods go.
#[derive(Debug)]
pub struct FulfillmentInput {
    pub address: Option<UcpAddress>,
}

/// How the checkout is to be paid.
#[derive(Debug)]
pub struct PaymentRequestInput {
    pub selected_instrument_id: Option<String>,
}

/// A checkout that is to be created.
#[derive(Debug)]
pub struct CreateCheckoutBody {
    pub line_items: Vec<LineItemInput>,
    pub buyer: Option<UcpBuyer>,
    pub currency: String,
    pub payment: Option<PaymentRequestInput>,
    pub fulfillment: Option<FulfillmentInput>,
}

/// Changes to a checkout.
#[derive(Debug)]
pub struct UpdateCheckoutBody {
    pub line_items: Option<Vec<LineItemInput>>,
    pub buyer: Option<UcpBuyer>,
    pub fulfillment: Option<FulfillmentInput>,
}

/// A checkout that is to be completed.
#[derive(Debug)]
pub struct CompleteCheckoutBody {
    pub payment_data: PaymentData,
}

/// A payment.
#[derive(Debug)]
pub struct PaymentData {
    pub instrument_type: String,
    pub token: Option<String>,
    pub handler_id: Option<String>,
    pub brand: Option<String>,
    pub last_digits: Option<String>,
}

/// Why a caller is refused.
pub open spec fn context_error(
    keys: Map<Seq<char>, crate::agent::ApiKeyInfo>,
    h: CompatHeaders,
) -> Option<ErrorView> {
    if key_error(keys, opt_text(h.authorization)) is Some {
        key_error(keys, opt_text(h.authorization))
    } else if h.version matches Some(v) && v@ != UCP_VERSION@ {
        Some(
            ErrorView::InvalidRequest(
                "UCP-Version `"@ + h.version->0@ + "` not supported; expected `"@ + UCP_VERSION@
                    + "`"@,
            ),
        )
    } else {
        None
    }
}

/// The context of a caller. A version is optional, and checked when it is there.
pub fn build_context(headers: CompatHeaders, keys: &ApiKeyStore, fresh_request_id: String) -> (r:
    Result<CompatContext, ApiError>)
    ensures
        match r {
            Ok(c) => context_error(keys@, headers) is None && context_of(
                c,
                keys@[bearer_of(opt_text(headers.authorization))->0],
                "did:stateset:agent:ucp-"@,
                headers,
                fresh_request_id,
            ),
            Err(e) => context_error(keys@, headers) == Some(e@),
        },
{
    let tenant = match tenant_of(&headers, keys) {
        Ok(t) => t,
        Err(e) => {
            return Err(e);
        },
    };
    match &headers.version {
        Some(v) => {
            if !str_eq(v.as_str(), UCP_VERSION) {
                return Err(
                    ApiError::InvalidRequest(
                        join5(
                            "UCP-Version `",
                            v.as_str(),
                            "` not supported; expected `",
                            UCP_VERSION,
                            "`",
                        ),
                    ),
                );
            }
        },
        None => {},
    }
    Ok(context_for(tenant, "did:stateset:agent:ucp-", headers, fresh_request_id))
}

/// Whether the item is the requested position, without a price: the shop prices.
pub open spec fn requests(r: RequestItem, item: LineItemInput) -> bool {
    r.sku == item.item.id && r.quantity == item.quantity && r.unit_price_hint is None
}

/// The address that goods are to be sent to.
pub open spec fn given_address(f: Option<FulfillmentInput>) -> Option<Address> {
    match f {
        Some(x) => match x.address {
            Some(a) => Some(as_address(a)),
            None => None,
        },
        None => None,
    }
}

fn read_address(f: Option<FulfillmentInput>) -> (r: Option<Address>)
    ensures
        r == given_address(f),
{
    match f {
        Some(x) => match x.address {
            Some(a) => Some(map_address(a)),
            None => None,
        },
        None => None,
    }
}

/// Whether these are the parameters of the quote for a new checkout.
pub open spec fn quotes_checkout(p: QuoteParams, body: CreateCheckoutBody) -> bool {
    &&& p.items@.len() == body.line_items@.len()
    &&& forall|i: int|
        0 <= i < body.line_items@.len() ==> requests(#[trigger] p.items@[i], body.line_items@[i])
    &&& p.buyer matches Some(b) && match body.buyer {
        Some(given) => b == as_buyer(given),
        None => blank_buyer(b),
    }
    &&& p.ship_to == given_address(body.fulfillment)
    &&& p.discount_codes@.len() == 0
}

/// The parameters of the quote for a new checkout, and its currency.
pub fn create_params(body: CreateCheckoutBody) -> (r: Result<(QuoteParams, String), ApiError>)
    ensures
        match r {
            Ok((p, currency)) => body.line_items@.len() > 0 && quotes_checkout(p, body) && currency
                == body.currency,
            Err(e) => body.line_items@.len() == 0 && e@ == ErrorView::InvalidRequest(
                "checkout: line_items must be non-empty"@,
            ),
        },
{
    if body.line_items.len() == 0 {
        return Err(
            ApiError::InvalidRequest(String::from_str("checkout: line_items must be non-empty")),
        );
    }
    let mut items: Vec<RequestItem> = Vec::new();
    let mut i: usize = 0;
    while i < body.line_items.len()
        invariant
            i <= body.line_items@.len(),
            items@.len() == i,
            forall|j: int| 0 <= j < i ==> requests(#[trigger] items@[j], body.line_items@[j]),
        decreases body.line_items@.len() - i,
    {
        items.push(
            RequestItem {
                sku: body.line_items[i].item.id.clone(),
                quantity: body.line_items[i].quantity as i64,
                unit_price_hint: None,
            },
        );
        i += 1;
    }
    let buyer = match body.buyer {
        Some(b) => map_buyer(b),
        None => Buyer::default(),
    };
    let ship_to = read_address(body.fulfillment);
    Ok(
        (
            QuoteParams { items, buyer: Some(buyer), ship_to, discount_codes: Vec::new() },
            body.currency,
        ),
    )
}

/// The parameters of the authorization that an update of a checkout stands for.
pub fn update_params(id: String, body: UpdateCheckoutBody) -> (p: AuthorizeParams)
    ensures
        p.transaction_id == id,
        p.buyer == (match body.buyer {
            Some(b) => Some(as_buyer(b)),
            None => None,
        }),
        p.ship_to == given_address(body.fulfillment),
        p.bill_to is None,
{
    let buyer = match body.buyer {
        Some(b) => Some(map_buyer(b)),
        None => None,
    };
    let ship_to = read_address(body.fulfillment);
    AuthorizeParams { transaction_id: id, buyer, ship_to, bill_to: None }
}

/// A text, or an empty one.
pub open spec fn text_or_empty(t: Option<String>) -> Seq<char> {
    match t {
        Some(s) => s@,
        None => Seq::empty(),
    }
}

fn or_empty(t: Option<String>) -> (r: String)
    ensures
        r@ == text_or_empty(t),
{
    match t {
        Some(s) => s,
        None => String::new(),
    }
}

/// Whether the instrument is the one that the payment describes: a vault token, a
/// stablecoin, and a card for everything else.
pub open spec fn pays(p: PaymentInstrument, d: PaymentData) -> bool {
    let kind = d.instrument_type@;
    if kind == "delegated_vault"@ || kind == "vault_token"@ {
        p matches PaymentInstrument::DelegatedVault { token, provider } && token@ == text_or_empty(
            d.token,
        ) && provider == d.handler_id
    } else if kind == "stablecoin"@ {
        p matches PaymentInstrument::Stablecoin { asset, chain, from, network_memo } && asset@
            == "USDC"@ && chain@ == (match d.handler_id {
            Some(h) => h@,
            None => "base"@,
        }) && from@ == text_or_empty(d.token) && network_memo is None
    } else {
        p == (PaymentInstrument::Card {
            token: d.token,
            last_digits: d.last_digits,
            brand: d.brand,
        })
    }
}

/// The parameters of the purchase that completes a checkout.
pub fn complete_params(id: String, body: CompleteCheckoutBody) -> (p: BuyParams)
    ensures
        p.transaction_id == id,
        pays(p.payment, body.payment_data),
{
    let d = body.payment_data;
    let kind = d.instrument_type.as_str();
    let payment = if str_eq(kind, "delegated_vault") || str_eq(kind, "vault_token") {
        PaymentInstrument::DelegatedVault { token: or_empty(d.token), provider: d.handler_id }
    } else if str_eq(kind, "stablecoin") {
        PaymentInstrument::Stablecoin {
            asset: String::from_str("USDC"),
            chain: match d.handler_id {
                Some(h) => h,
                None => String::from_str("base"),
            },
            from: or_empty(d.token),
            network_memo: None,
        }
    } else {
        PaymentInstrument::Card { token: d.token, last_digits: d.last_digits, brand: d.brand }
    };
    BuyParams { transaction_id: id, payment }
}

// ---------------------------------------------------------------------------
// Responses
// ---------------------------------------------------------------------------

/// What was agreed on.
#[derive(Debug)]
pub struct UcpResponseMeta {
    pub version: String,
    pub capabilities: Vec<CapabilityRef>,
}

/// A capability.
#[derive(Debug)]
pub struct CapabilityRef {
    pub name: String,
    pub version: String,
}

/// A checkout.
#[derive(Debug)]
pub struct CheckoutResponse {
    pub ucp: UcpResponseMeta,
    pub id: String,
    pub status: &'static str,
    pub currency: String,
    pub line_items: Vec<LineItemResponse>,
    pub totals: Vec<Total>,
    /// Left out when nothing is known of the buyer.
    pub buyer: Option<Buyer>,
    pub fulfillment: Option<FulfillmentView>,
    pub payment: Json,
    pub links: Vec<Link>,
    pub order: Option<OrderSummary>,
}

/// Where the goods of a checkout go.
#[derive(Debug)]
pub struct FulfillmentView {
    pub methods: Vec<Json>,
    pub available_methods: Vec<Json>,
    pub address: Address,
}

/// One position of a checkout.
#[derive(Debug)]
pub struct LineItemResponse {
    pub id: String,
    pub item: ItemResponseBrief,
    pub quantity: i64,
    pub totals: Vec<Total>,
}

/// An item of a checkout.
#[derive(Debug)]
pub struct ItemResponseBrief {
    pub id: String,
    pub title: String,
    pub price: i64,
}

/// A sum.
#[derive(Debug)]
pub struct Total {
    pub total_type: &'static str,
    pub display_text: &'static str,
    pub amount: i64,
}

/// A link.
#[derive(Debug)]
pub struct Link {
    pub link_type: &'static str,
    pub url: String,
}

/// The status of a checkout for the state of its transaction.
pub open spec fn checkout_status(state: TransactionState) -> Seq<char> {
    match state {
        TransactionState::Draft | TransactionState::Quoted => "incomplete"@,
        TransactionState::Authorized => "ready_for_complete"@,
        TransactionState::Captured
        | TransactionState::Fulfilled
        | TransactionState::Completed => "completed"@,
        TransactionState::Reversed
        | TransactionState::Canceled
        | TransactionState::Expired => "canceled"@,
    }
}

/// The status of a checkout for the state of its transaction.
pub fn ucp_status_for(state: TransactionState) -> (r: &'static str)
    ensures
        r@ == checkout_status(state),
{
    match state {
        TransactionState::Draft | TransactionState::Quoted => "incomplete",
        TransactionState::Authorized => "ready_for_complete",
        TransactionState::Captured
        | TransactionState::Fulfilled
        | TransactionState::Completed => "completed",
        TransactionState::Reversed
        | TransactionState::Canceled
        | TransactionState::Expired => "canceled",
    }
}

/// The models of the sums: type, text and amount.
pub open spec fn total_views(s: Seq<Total>) -> Seq<(Seq<char>, Seq<char>, int)> {
    s.map_values(|t: Total| (t.total_type@, t.display_text@, t.amount as int))
}

fn put_total(
    s: Vec<Total>,
    total_type: &'static str,
    display_text: &'static str,
    amount: i64,
) -> (r: Vec<Total>)
    ensures
        total_views(r@) == total_views(s@).push((total_type@, display_text@, amount as int)),
{
    let mut r = s;
    r.push(Total { total_type, display_text, amount });
    assert(total_views(r@) =~= total_views(s@).push((total_type@, display_text@, amount as int)));
    r
}

fn no_totals() -> (r: Vec<Total>)
    ensures
        total_views(r@) == Seq::<(Seq<char>, Seq<char>, int)>::empty(),
{
    let r: Vec<Total> = Vec::new();
    assert(total_views(r@) =~= Seq::<(Seq<char>, Seq<char>, int)>::empty());
    r
}

/// The tax of a line; nothing counts as zero.
pub open spec fn line_tax(li: LineItem) -> int {
    match li.tax {
        Some(m) => m.amount_minor as int,
        None => 0,
    }
}

/// The sums of a line: a tax is shown only when there is one.
pub open spec fn line_totals(li: LineItem) -> Seq<(Seq<char>, Seq<char>, int)> {
    let a = Seq::empty().push(("subtotal"@, "Subtotal"@, li.subtotal.amount_minor as int));
    let b = if line_tax(li) > 0 {
        a.push(("tax"@, "Tax"@, line_tax(li)))
    } else {
        a
    };
    b.push(("total"@, "Total"@, li.total.amount_minor as int))
}

/// Whether the position shows the line of the transaction.
pub open spec fn shows_line(r: LineItemResponse, li: LineItem) -> bool {
    &&& r.id == li.id
    &&& r.item.id == li.sku
    &&& r.item.title == li.name
    &&& r.item.price == li.unit_price.amount_minor
    &&& r.quantity == li.quantity
    &&& total_views(r.totals@) == line_totals(li)
}

/// The position that shows a line of a transaction.
pub fn map_line_item(li: &LineItem) -> (r: LineItemResponse)
    ensures
        shows_line(r, *li),
{
    let tax: i64 = match &li.tax {
        Some(m) => m.amount_minor,
        None => 0,
    };
    let mut totals = put_total(no_totals(), "subtotal", "Subtotal", li.subtotal.amount_minor);
    if tax > 0 {
        totals = put_total(totals, "tax", "Tax", tax);
    }
    totals = put_total(totals, "total", "Total", li.total.amount_minor);
    LineItemResponse {
        id: li.id.clone(),
        item: ItemResponseBrief {
            id: li.sku.clone(),
            title: li.name.clone(),
            price: li.unit_price.amount_minor,
        },
        quantity: li.quantity,
        totals,
    }
}

/// The sums of a checkout, as far as they are there.
pub open spec fn checkout_totals(t: Totals) -> Seq<(Seq<char>, Seq<char>, int)> {
    let a = match t.subtotal {
        Some(m) => Seq::empty().push(("subtotal"@, "Subtotal"@, m.amount_minor as int)),
        None => Seq::empty(),
    };
    let b = match t.shipping {
        Some(m) => a.push(("shipping"@, "Shipping"@, m.amount_minor as int)),
        None => a,
    };
    let c = match t.tax {
        Some(m) => b.push(("tax"@, "Tax"@, m.amount_minor as int)),
        None => b,
    };
    match t.total {
        Some(m) => c.push(("total"@, "Total"@, m.amount_minor as int)),
        None => c,
    }
}

/// The sums of a checkout.
pub fn build_totals(totals: &Totals) -> (r: Vec<Total>)
    ensures
        total_views(r@) == checkout_totals(*totals),
{
    let mut out = no_totals();
    match &totals.subtotal {
        Some(m) => {
            out = put_total(out, "subtotal", "Subtotal", m.amount_minor);
        },
        None => {},
    }
    match &totals.shipping {
        Some(m) => {
            out = put_total(out, "shipping", "Shipping", m.amount_minor);
        },
        None => {},
    }
    match &totals.tax {
        Some(m) => {
            out = put_total(out, "tax", "Tax", m.amount_minor);
        },
        None => {},
    }
    match &totals.total {
        Some(m) => {
            out = put_total(out, "total", "Total", m.amount_minor);
        },
        None => {},
    }
    out
}

/// How checkouts are paid.
pub open spec fn payment_options_view() -> JsonView {
    JsonView::Object(
        Seq::empty().push(
            ("handlers"@, JsonView::Array(
                Seq::empty().push(JsonView::Object(
                        Seq::empty().push(
                            ("id"@, JsonView::Str("card"@)),
                        ).push(
                            ("type"@, JsonView::Str("card"@)),
                        ),
                    )).push(JsonView::Object(
                        Seq::empty().push(
                            ("id"@, JsonView::Str("delegated_vault"@)),
                        ).push(
                            ("type"@, JsonView::Str("delegated_vault"@)),
                        ),
                    )),
            )),
        ).push(
            ("instruments"@, JsonView::Array(Seq::empty())),
        ),
    )
}

/// How checkouts are paid.
fn payment_options() -> (r: Json)
    ensures
        r@ == payment_options_view(),
{
    ObjectBuilder::new().put(
        "handlers",
        ArrayBuilder::new().put(
            ObjectBuilder::new().put_str(
                "id",
                "card",
            ).put_str(
                "type",
                "card",
            ).build(),
        ).put(
            ObjectBuilder::new().put_str(
                "id",
                "delegated_vault",
            ).put_str(
                "type",
                "delegated_vault",
            ).build(),
        ).build(),
    ).put(
        "instruments",
        ArrayBuilder::new().build(),
    ).build()
}

/// Whether nothing is known of the buyer.
fn is_blank_buyer(b: &Buyer) -> (r: bool)
    ensures
        r == blank_buyer(*b),
{
    b.first_name.is_none() && b.last_name.is_none() && b.email.is_none()
        && b.phone_number.is_none() && b.principal_did.is_none()
}

/// Whether the checkout shows the transaction.
pub open spec fn shows_checkout(r: CheckoutResponse, t: Transaction, order: Option<OrderSummary>) -> bool {
    &&& r.ucp.version@ == UCP_VERSION@
    &&& r.ucp.capabilities@.len() == 1
    &&& r.ucp.capabilities@[0].name@ == "dev.ucp.shopping"@
    &&& r.ucp.capabilities@[0].version@ == UCP_VERSION@
    &&& r.id == t.id
    &&& r.status@ == checkout_status(t.state)
    &&& r.currency == t.currency
    &&& r.line_items@.len() == t.line_items@.len()
    &&& forall|i: int|
        0 <= i < t.line_items@.len() ==> shows_line(#[trigger] r.line_items@[i], t.line_items@[i])
    &&& total_views(r.totals@) == checkout_totals(t.totals)
    &&& r.buyer == (if blank_buyer(t.buyer) {
        None
    } else {
        Some(t.buyer)
    })
    &&& match t.ship_to {
        Some(a) => r.fulfillment matches Some(f) && f.address == a && f.methods@.len() == 0
            && f.available_methods@.len() == 0,
        None => r.fulfillment is None,
    }
    &&& r.payment@ == payment_options_view()
    &&& r.links@.len() == 0
    &&& r.order == order
}

/// The checkout that shows a transaction, with its order when there is one.
pub fn checkout_response(txn: &Transaction, order: Option<OrderSummary>) -> (r: CheckoutResponse)
    ensures
        shows_checkout(r, *txn, order),
{
    let mut line_items: Vec<LineItemResponse> = Vec::new();
    let mut i: usize = 0;
    while i < txn.line_items.len()
        invariant
            i <= txn.line_items@.len(),
            line_items@.len() == i,
            forall|j: int|
                0 <= j < i ==> shows_line(#[trigger] line_items@[j], txn.line_items@[j]),
        decreases txn.line_items@.len() - i,
    {
        line_items.push(map_line_item(&txn.line_items[i]));
        i += 1;
    }
    let mut capabilities: Vec<CapabilityRef> = Vec::new();
    capabilities.push(
        CapabilityRef {
            name: String::from_str("dev.ucp.shopping"),
            version: String::from_str(UCP_VERSION),
        },
    );
    let buyer = if is_blank_buyer(&txn.buyer) {
        None
    } else {
        Some(txn.buyer.clone())
    };
    let fulfillment = match &txn.ship_to {
        Some(a) => Some(
            FulfillmentView {
                methods: Vec::new(),
                available_methods: Vec::new(),
                address: a.clone(),
            },
        ),
        None => None,
    };
    CheckoutResponse {
        ucp: UcpResponseMeta { version: String::from_str(UCP_VERSION), capabilities },
        id: txn.id.clone(),
        status: ucp_status_for(txn.state),
        currency: txn.currency.clone(),
        line_items,
        totals: build_totals(&txn.totals),
        buyer,
        fulfillment,
        payment: payment_options(),
        links: Vec::new(),
        order,
    }
}

impl IcpService {
    /// The checkout with this id.
    pub fn ucp_checkout(&self, id: &str) -> (r: Result<CheckoutResponse, ApiError>)
        ensures
            match r {
                Ok(v) => self.transactions@.contains_key(id@) && shows_checkout(
                    v,
                    self.transactions@[id@],
                    None,
                ),
                Err(e) => !self.transactions@.contains_key(id@) && e@
                    == ErrorView::ResourceNotFound("checkout-session "@ + id@),
            },
    {
        match self.session_transaction(id, "checkout-session ") {
            Ok(t) => Ok(checkout_response(&t, None)),
            Err(e) => Err(e),
        }
    }
}

// ---------------------------------------------------------------------------
// Discovery
// ---------------------------------------------------------------------------

/// What the handler offers to callers of this protocol.
pub open spec fn discovery_document_view(base: Seq<char>) -> JsonView {
    JsonView::Object(
        Seq::empty().push(
            ("ucp"@, JsonView::Object(
                Seq::empty().push(
                    ("profile"@, JsonView::Str("https://spec.ucp.dev/profile/shopping/2026-01-11"@)),
                ).push(
                    ("version"@, JsonView::Str(UCP_VERSION@)),
                ).push(
                    ("capabilities"@, JsonView::Array(
                        Seq::empty().push(JsonView::Object(
                                Seq::empty().push(
                                    ("name"@, JsonView::Str("dev.ucp.shopping"@)),
                                ).push(
                                    ("version"@, JsonView::Str(UCP_VERSION@)),
                                ),
                            )),
                    )),
                ).push(
                    ("services"@, JsonView::Object(
                        Seq::empty().push(
                            ("dev.ucp.shopping"@, JsonView::Object(
                                Seq::empty().push(
                                    ("version"@, JsonView::Str(UCP_VERSION@)),
                                ).push(
                                    ("spec"@, JsonView::Str("https://spec.ucp.dev/shopping"@)),
                                ).push(
                                    ("rest"@, JsonView::Object(
                                        Seq::empty().push(
                                            ("endpoint"@, JsonView::Str(base + "/checkout-sessions"@)),
                                        ),
                                    )),
                                ).push(
                                    ("intents"@, JsonView::Array(
                                        Seq::empty().push(JsonView::Str("intent.quote"@)).push(JsonView::Str("intent.authorize"@)).push(JsonView::Str("intent.buy"@)).push(JsonView::Str("intent.track"@)).push(JsonView::Str("intent.return"@)),
                                    )),
                                ),
                            )),
                        ),
                    )),
                ),
            )),
        ).push(
            ("compat"@, JsonView::Object(
                Seq::empty().push(
                    ("icp_base_url"@, JsonView::Str(base)),
                ).push(
                    ("acp_base_url"@, JsonView::Str(base)),
                ),
            )),
        ),
    )
}

/// What the handler offers to callers of this protocol.
pub fn discovery_document(base: &str) -> (r: Json)
    ensures
        r@ == discovery_document_view(base@),
{
    ObjectBuilder::new().put(
        "ucp",
        ObjectBuilder::new().put_str(
            "profile",
            "https://spec.ucp.dev/profile/shopping/2026-01-11",
        ).put(
            "version",
            Json::Str(String::from_str(UCP_VERSION)),
        ).put(
            "capabilities",
            ArrayBuilder::new().put(
                ObjectBuilder::new().put_str(
                    "name",
                    "dev.ucp.shopping",
                ).put(
                    "version",
                    Json::Str(String::from_str(UCP_VERSION)),
                ).build(),
            ).build(),
        ).put(
            "services",
            ObjectBuilder::new().put(
                "dev.ucp.shopping",
                ObjectBuilder::new().put(
                    "version",
                    Json::Str(String::from_str(UCP_VERSION)),
                ).put_str(
                    "spec",
                    "https://spec.ucp.dev/shopping",
                ).put(
                    "rest",
                    ObjectBuilder::new().put(
                        "endpoint",
                        Json::Str(join2(base, "/checkout-sessions")),
                    ).build(),
                ).put(
                    "intents",
                    ArrayBuilder::new().put_str("intent.quote").put_str("intent.authorize").put_str("intent.buy").put_str("intent.track").put_str("intent.return").build(),
                ).build(),
            ).build(),
        ).build(),
    ).put(
        "compat",
        ObjectBuilder::new().put(
            "icp_base_url",
            Json::Str(String::from_str(base)),
        ).put(
            "acp_base_url",
            Json::Str(String::from_str(base)),
        ).build(),
    ).build()
}

// ---------------------------------------------------------------------------
// Laws
// ---------------------------------------------------------------------------

/// The two protocols agree on when a transaction is over.
pub proof fn law_protocols_agree_on_the_end(state: TransactionState)
    ensures
        checkout_status(state) == "completed"@ <==> crate::compat::acp::session_status(state)
            == "completed"@,
        checkout_status(state) == "canceled"@ <==> crate::compat::acp::session_status(state)
            == "canceled"@,
{
    crate::compat::acp::law_session_status_follows_the_transaction(state);
    reveal_strlit("incomplete");
    reveal_strlit("ready_for_complete");
    reveal_strlit("completed");
    reveal_strlit("canceled");
    assert("incomplete"@.len() == 10 && "ready_for_complete"@.len() == 18);
    assert("completed"@.len() == 9 && "canceled"@.len() == 8);
}

/// A session asks for exactly its items, in order and at the prices of the shop, for the buyer
/// and the address that it gives.
pub proof fn law_checkouts_ask_for_their_items(p: QuoteParams, body: CreateCheckoutBody, i: int)
    requires
        quotes_checkout(p, body),
        0 <= i < body.line_items@.len(),
    ensures
        p.items@.len() == body.line_items@.len(),
        p.items@[i].sku == body.line_items@[i].item.id && p.items@[i].quantity
            == body.line_items@[i].quantity && p.items@[i].unit_price_hint is None,
        body.buyer matches Some(b) ==> (p.buyer matches Some(x) && x.first_name == b.first_name
            && x.last_name == b.last_name && x.email == b.email && x.phone_number
            == b.phone_number),
        body.buyer is None ==> (p.buyer matches Some(x) && x.first_name is None && x.email is None),
        p.ship_to == given_address(body.fulfillment),
        p.discount_codes@.len() == 0,
{
    assert(requests(p.items@[i], body.line_items@[i]));
}

/// A checkout is shipped to the address that it gives, and to none where it gives none.
pub proof fn law_checkouts_are_shipped_to_their_address(f: Option<FulfillmentInput>, a: UcpAddress)
    ensures
        f is None ==> given_address(f) is None,
        f matches Some(x) ==> (x.address is None ==> given_address(f) is None),
        f matches Some(x) ==> (x.address == Some(a) ==> (given_address(f) matches Some(y) && y.name
            == a.name && y.line_one == a.line_one && y.line_two == a.line_two && y.city == a.city
            && y.state == a.state && y.postal_code == a.postal_code && y.country == a.country)),
{
}

/// A checkout is paid with the instrument that it names: a token in a vault, a stablecoin from
/// a source, or a card.
pub proof fn law_checkouts_are_paid_as_named(p: PaymentInstrument, d: PaymentData)
    requires
        pays(p, d),
    ensures
        ({
            let kind = d.instrument_type@;
            let given = match d.token {
                Some(t) => t@,
                None => Seq::empty(),
            };
            &&& p is DelegatedVault <==> kind == "delegated_vault"@ || kind == "vault_token"@
            &&& p is Stablecoin <==> kind == "stablecoin"@
            &&& p matches PaymentInstrument::DelegatedVault { token, provider } ==> token@ == given
                && provider == d.handler_id
            &&& p matches PaymentInstrument::Stablecoin { asset, chain, from, network_memo }
                ==> asset@ == "USDC"@ && from@ == given && (d.handler_id matches Some(h) ==> chain@
                == h@) && (d.handler_id is None ==> chain@ == "base"@)
            &&& p matches PaymentInstrument::Card { token, last_digits, brand } ==> token == d.token
                && last_digits == d.last_digits && brand == d.brand
            &&& !(p is A2A) && !(p is ExternalAuthorization)
        }),
{
    reveal_strlit("delegated_vault");
    reveal_strlit("vault_token");
    reveal_strlit("stablecoin");
    assert("delegated_vault"@.len() == 15 && "vault_token"@.len() == 11 && "stablecoin"@.len()
        == 10);
}

/// A checkout can be completed exactly once its transaction is authorized.
pub proof fn law_authorized_checkouts_can_be_completed(state: TransactionState)
    ensures
        checkout_status(state) == "ready_for_complete"@ <==> state is Authorized,
        checkout_status(state) == "incomplete"@ <==> state is Draft || state is Quoted,
{
    reveal_strlit("ready_for_complete");
    reveal_strlit("incomplete");
    reveal_strlit("completed");
    reveal_strlit("canceled");
    assert("ready_for_complete"@.len() == 18 && "incomplete"@.len() == 10 && "completed"@.len() == 9
        && "canceled"@.len() == 8);
}

/// A checkout shows its transaction as it is: the lines with their amounts, the sums that it
/// has, its parties and its order.
pub proof fn law_checkouts_show_their_transaction(
    r: CheckoutResponse,
    t: Transaction,
    order: Option<OrderSummary>,
    i: int,
)
    requires
        shows_checkout(r, t, order),
        0 <= i < t.line_items@.len(),
    ensures
        r.id == t.id && r.currency == t.currency && r.order == order,
        r.status@ == checkout_status(t.state),
        r.ucp.version@ == UCP_VERSION@ && r.links@.len() == 0,
        blank_buyer(t.buyer) ==> r.buyer is None,
        t.buyer.email is Some ==> r.buyer == Some(t.buyer),
        t.ship_to matches Some(a) ==> (r.fulfillment matches Some(f) && f.address == a),
        t.ship_to is None ==> r.fulfillment is None,
        r.line_items@.len() == t.line_items@.len(),
        ({
            let s = r.line_items@[i];
            let li = t.line_items@[i];
            &&& s.id == li.id && s.item.id == li.sku && s.item.title == li.name && s.item.price
                == li.unit_price.amount_minor && s.quantity == li.quantity
            &&& total_views(s.totals@).contains(
                ("total"@, "Total"@, li.total.amount_minor as int),
            )
            &&& total_views(s.totals@).contains(
                ("subtotal"@, "Subtotal"@, li.subtotal.amount_minor as int),
            )
            &&& li.tax matches Some(m) ==> (m.amount_minor > 0 ==> total_views(s.totals@).contains(
                ("tax"@, "Tax"@, m.amount_minor as int),
            ))
        }),
        t.totals.total matches Some(m) ==> total_views(r.totals@).contains(
            ("total"@, "Total"@, m.amount_minor as int),
        ),
        t.totals.tax matches Some(m) ==> total_views(r.totals@).contains(
            ("tax"@, "Tax"@, m.amount_minor as int),
        ),
        t.totals.shipping matches Some(m) ==> total_views(r.totals@).contains(
            ("shipping"@, "Shipping"@, m.amount_minor as int),
        ),
        t.totals.subtotal matches Some(m) ==> total_views(r.totals@).contains(
            ("subtotal"@, "Subtotal"@, m.amount_minor as int),
        ),
{
    assert(shows_line(r.line_items@[i], t.line_items@[i]));
    let li = t.line_items@[i];
    let lines = line_totals(li);
    assert(lines[0] == ("subtotal"@, "Subtotal"@, li.subtotal.amount_minor as int));
    if line_tax(li) > 0 {
        assert(lines[1] == ("tax"@, "Tax"@, line_tax(li)));
    }
    assert(lines[lines.len() - 1] == ("total"@, "Total"@, li.total.amount_minor as int));
    let all = checkout_totals(t.totals);
    let a: int = if t.totals.subtotal is Some {
        1
    } else {
        0
    };
    let b: int = if t.totals.shipping is Some {
        a + 1
    } else {
        a
    };
    let c: int = if t.totals.tax is Some {
        b + 1
    } else {
        b
    };
    if t.totals.subtotal is Some {
        assert(all[0] == ("subtotal"@, "Subtotal"@, t.totals.subtotal->0.amount_minor as int));
    }
    if t.totals.shipping is Some {
        assert(all[a] == ("shipping"@, "Shipping"@, t.totals.shipping->0.amount_minor as int));
    }
    if t.totals.tax is Some {
        assert(all[b] == ("tax"@, "Tax"@, t.totals.tax->0.amount_minor as int));
    }
    if t.totals.total is Some {
        assert(all[c] == ("total"@, "Total"@, t.totals.total->0.amount_minor as int));
    }
}

} // verus!
