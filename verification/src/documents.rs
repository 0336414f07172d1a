//! The answers of the service as documents, as they stand on the wire and as receipts are
//! signed over them.

use vstd::prelude::*;

use crate::events::Event;
use crate::json::{
    lemma_member_found, lemma_member_of_none, lemma_member_put, lemma_member_put_some,
    opt_str_view, some_str_view, with_some, ArrayBuilder, Json, JsonView, ObjectBuilder,
};
use crate::models::{
    A2aServiceSpec, Address, Buyer, IntentResponseBody, LineItem, Money,
    OrderSummary, PaymentInstrument, PeerQuote, ReceiptStub, RequestItem, ResponseEnvelope,
    Subscription, Totals, Transaction,
};
use crate::signing::{ReceiptClaims, ReceiptIcp};
use crate::table::{Entry, Table};
use crate::text::opt_text;
use crate::time::{rfc3339, rfc3339_text, Timestamp};

verus! {

/// An instant as it stands in documents.
pub open spec fn instant_document(t: Timestamp) -> JsonView {
    JsonView::Str(rfc3339_text(t@, true))
}

fn instant(t: Timestamp) -> (r: Json)
    ensures
        r@ == instant_document(t),
{
    Json::Str(rfc3339(t, true))
}

/// An amount as a document.
pub open spec fn money_document(x: Money) -> JsonView {
    let m0 = Seq::empty().push(("amount_minor"@, JsonView::Int(x.amount_minor as int)));
    JsonView::Object(
        with_some(m0, "amount_display"@, some_str_view(opt_text(x.amount_display)))
            .push(("currency"@, JsonView::Str(x.currency@))),
    )
}

/// An amount as a document.
pub fn money_json(x: &Money) -> (r: Json)
    ensures
        r@ == money_document(*x),
{
    ObjectBuilder::new()
        .put("amount_minor", Json::Int(x.amount_minor))
        .put_some_str("amount_display", &x.amount_display)
        .put_str("currency", x.currency.as_str())
        .build()
}

/// An address as a document.
pub open spec fn address_document(x: Address) -> JsonView {
    JsonView::Object(
        Seq::empty()
            .push(("name"@, opt_str_view(opt_text(x.name))))
            .push(("line_one"@, opt_str_view(opt_text(x.line_one))))
            .push(("line_two"@, opt_str_view(opt_text(x.line_two))))
            .push(("city"@, opt_str_view(opt_text(x.city))))
            .push(("state"@, opt_str_view(opt_text(x.state))))
            .push(("postal_code"@, opt_str_view(opt_text(x.postal_code))))
            .push(("country"@, opt_str_view(opt_text(x.country))))
            .push(("phone_number"@, opt_str_view(opt_text(x.phone_number))))
            .push(("email"@, opt_str_view(opt_text(x.email)))),
    )
}

/// An address as a document.
pub fn address_json(x: &Address) -> (r: Json)
    ensures
        r@ == address_document(*x),
{
    ObjectBuilder::new()
        .put_opt_str("name", &x.name)
        .put_opt_str("line_one", &x.line_one)
        .put_opt_str("line_two", &x.line_two)
        .put_opt_str("city", &x.city)
        .put_opt_str("state", &x.state)
        .put_opt_str("postal_code", &x.postal_code)
        .put_opt_str("country", &x.country)
        .put_opt_str("phone_number", &x.phone_number)
        .put_opt_str("email", &x.email)
        .build()
}

/// A buyer as a document.
pub open spec fn buyer_document(x: Buyer) -> JsonView {
    JsonView::Object(
        Seq::empty()
            .push(("first_name"@, opt_str_view(opt_text(x.first_name))))
            .push(("last_name"@, opt_str_view(opt_text(x.last_name))))
            .push(("email"@, opt_str_view(opt_text(x.email))))
            .push(("phone_number"@, opt_str_view(opt_text(x.phone_number))))
            .push(("principal_did"@, opt_str_view(opt_text(x.principal_did)))),
    )
}

/// A buyer as a document.
pub fn buyer_json(x: &Buyer) -> (r: Json)
    ensures
        r@ == buyer_document(*x),
{
    ObjectBuilder::new()
        .put_opt_str("first_name", &x.first_name)
        .put_opt_str("last_name", &x.last_name)
        .put_opt_str("email", &x.email)
        .put_opt_str("phone_number", &x.phone_number)
        .put_opt_str("principal_did", &x.principal_did)
        .build()
}

/// The same, or null when there is none.
pub open spec fn opt_money_document(x: Option<Money>) -> JsonView {
    match x {
        Some(v) => money_document(v),
        None => JsonView::Null,
    }
}

fn opt_money_json(x: &Option<Money>) -> (r: Json)
    ensures
        r@ == opt_money_document(*x),
{
    match x {
        Some(v) => money_json(v),
        None => Json::Null,
    }
}

/// A position as a document.
pub open spec fn line_item_document(x: LineItem) -> JsonView {
    JsonView::Object(
        Seq::empty()
            .push(("id"@, JsonView::Str(x.id@)))
            .push(("sku"@, JsonView::Str(x.sku@)))
            .push(("name"@, JsonView::Str(x.name@)))
            .push(("quantity"@, JsonView::Int(x.quantity as int)))
            .push(("unit_price"@, money_document(x.unit_price)))
            .push(("subtotal"@, money_document(x.subtotal)))
            .push(("tax"@, opt_money_document(x.tax)))
            .push(("total"@, money_document(x.total))),
    )
}

/// A position as a document.
pub fn line_item_json(x: &LineItem) -> (r: Json)
    ensures
        r@ == line_item_document(*x),
{
    ObjectBuilder::new()
        .put_str("id", x.id.as_str())
        .put_str("sku", x.sku.as_str())
        .put_str("name", x.name.as_str())
        .put("quantity", Json::Int(x.quantity))
        .put("unit_price", money_json(&x.unit_price))
        .put("subtotal", money_json(&x.subtotal))
        .put("tax", opt_money_json(&x.tax))
        .put("total", money_json(&x.total))
        .build()
}

/// The sums of a basket as a document.
pub open spec fn totals_document(x: Totals) -> JsonView {
    JsonView::Object(
        Seq::empty()
            .push(("subtotal"@, opt_money_document(x.subtotal)))
            .push(("discount"@, opt_money_document(x.discount)))
            .push(("shipping"@, opt_money_document(x.shipping)))
            .push(("tax"@, opt_money_document(x.tax)))
            .push(("total"@, opt_money_document(x.total))),
    )
}

/// The sums of a basket as a document.
pub fn totals_json(x: &Totals) -> (r: Json)
    ensures
        r@ == totals_document(*x),
{
    ObjectBuilder::new()
        .put("subtotal", opt_money_json(&x.subtotal))
        .put("discount", opt_money_json(&x.discount))
        .put("shipping", opt_money_json(&x.shipping))
        .put("tax", opt_money_json(&x.tax))
        .put("total", opt_money_json(&x.total))
        .build()
}

/// The same, or null when there is none.
pub open spec fn opt_address_document(x: Option<Address>) -> JsonView {
    match x {
        Some(v) => address_document(v),
        None => JsonView::Null,
    }
}

fn opt_address_json(x: &Option<Address>) -> (r: Json)
    ensures
        r@ == opt_address_document(*x),
{
    match x {
        Some(v) => address_json(v),
        None => Json::Null,
    }
}

/// Several of them, in order.
pub open spec fn line_items_document(v: Seq<LineItem>) -> JsonView {
    JsonView::Array(v.map_values(|x: LineItem| line_item_document(x)))
}

fn line_items_json(v: &Vec<LineItem>) -> (r: Json)
    ensures
        r@ == line_items_document(v@),
{
    let mut list = ArrayBuilder::new();
    let mut i: usize = 0;
    while i < v.len()
        invariant
            i <= v@.len(),
            list@.len() == i,
            forall|j: int| 0 <= j < i ==> #[trigger] list@[j] == line_item_document(v@[j]),
        decreases v@.len() - i,
    {
        list = list.put(line_item_json(&v[i]));
        i += 1;
    }
    assert(list@ =~= v@.map_values(|x: LineItem| line_item_document(x)));
    list.build()
}

/// An instant, where there is one.
pub open spec fn some_instant_document(t: Option<Timestamp>) -> Option<JsonView> {
    match t {
        Some(v) => Some(instant_document(v)),
        None => None,
    }
}

fn some_instant(t: &Option<Timestamp>) -> (r: Option<Json>)
    ensures
        match r {
            Some(j) => some_instant_document(*t) == Some(j@),
            None => some_instant_document(*t) is None,
        },
{
    match t {
        Some(v) => Some(instant(*v)),
        None => None,
    }
}

/// The texts of a table under their names, in the order in which they are kept.
pub open spec fn refs_document(t: Table<String>) -> JsonView {
    JsonView::Object(
        t.seq().map_values(|e: Entry<String>| (e.key@, JsonView::Str(e.value@))),
    )
}

fn refs_json(t: &Table<String>) -> (r: Json)
    ensures
        r@ == refs_document(*t),
{
    let n: usize = t.len();
    let mut b = ObjectBuilder::new();
    let mut i: usize = 0;
    while i < n
        invariant
            i <= n == t.seq().len(),
            b@.len() == i,
            forall|j: int|
                0 <= j < i ==> #[trigger] b@[j] == (
                    t.seq()[j].key@,
                    JsonView::Str(t.seq()[j].value@),
                ),
        decreases n - i,
    {
        let e = t.entry_at(i);
        b = b.put_str(e.key.as_str(), e.value.as_str());
        i += 1;
    }
    assert(b@ =~= t.seq().map_values(|e: Entry<String>| (e.key@, JsonView::Str(e.value@))));
    b.build()
}

/// A transaction as a document.
pub open spec fn transaction_document(x: Transaction) -> JsonView {
    let m0 = Seq::empty()
        .push(("id"@, JsonView::Str(x.id@)))
        .push(("state"@, JsonView::Str(x.state.name())))
        .push(("agent_id"@, JsonView::Str(x.agent_id@)))
        .push(("tenant_id"@, JsonView::Str(x.tenant_id@)));
    let m1 = with_some(m0, "mandate_jti"@, some_str_view(opt_text(x.mandate_jti)))
        .push(("currency"@, JsonView::Str(x.currency@)));
    let m2 = with_some(m1, "jurisdiction"@, some_str_view(opt_text(x.jurisdiction)))
        .push(("buyer"@, buyer_document(x.buyer)))
        .push(("ship_to"@, opt_address_document(x.ship_to)))
        .push(("bill_to"@, opt_address_document(x.bill_to)))
        .push(("line_items"@, line_items_document(x.line_items@)))
        .push(("totals"@, totals_document(x.totals)));
    let m3 = with_some(m2, "order_id"@, some_str_view(opt_text(x.order_id)));
    JsonView::Object(
        with_some(m3, "quote_expires_at"@, some_instant_document(x.quote_expires_at))
            .push(("created_at"@, instant_document(x.created_at)))
            .push(("updated_at"@, instant_document(x.updated_at)))
            .push(("external_refs"@, refs_document(x.external_refs))),
    )
}

/// A transaction as a document.
pub fn transaction_json(x: &Transaction) -> (r: Json)
    ensures
        r@ == transaction_document(*x),
{
    ObjectBuilder::new()
        .put_str("id", x.id.as_str())
        .put_str("state", x.state.wire_name())
        .put_str("agent_id", x.agent_id.as_str())
        .put_str("tenant_id", x.tenant_id.as_str())
        .put_some_str("mandate_jti", &x.mandate_jti)
        .put_str("currency", x.currency.as_str())
        .put_some_str("jurisdiction", &x.jurisdiction)
        .put("buyer", buyer_json(&x.buyer))
        .put("ship_to", opt_address_json(&x.ship_to))
        .put("bill_to", opt_address_json(&x.bill_to))
        .put("line_items", line_items_json(&x.line_items))
        .put("totals", totals_json(&x.totals))
        .put_some_str("order_id", &x.order_id)
        .put_some("quote_expires_at", some_instant(&x.quote_expires_at))
        .put("created_at", instant(x.created_at))
        .put("updated_at", instant(x.updated_at))
        .put("external_refs", refs_json(&x.external_refs))
        .build()
}

/// An order as a document.
pub open spec fn order_document(x: OrderSummary) -> JsonView {
    JsonView::Object(
        Seq::empty()
            .push(("id"@, JsonView::Str(x.id@)))
            .push(("order_number"@, JsonView::Str(x.order_number@)))
            .push(("status"@, JsonView::Str(x.status@)))
            .push(("permalink_url"@, opt_str_view(opt_text(x.permalink_url))))
            .push(("total"@, money_document(x.total))),
    )
}

/// An order as a document.
pub fn order_json(x: &OrderSummary) -> (r: Json)
    ensures
        r@ == order_document(*x),
{
    ObjectBuilder::new()
        .put_str("id", x.id.as_str())
        .put_str("order_number", x.order_number.as_str())
        .put_str("status", x.status.as_str())
        .put_opt_str("permalink_url", &x.permalink_url)
        .put("total", money_json(&x.total))
        .build()
}

/// The same, where there is one.
pub open spec fn some_money_document(x: Option<Money>) -> Option<JsonView> {
    match x {
        Some(v) => Some(money_document(v)),
        None => None,
    }
}

fn some_money_json(x: &Option<Money>) -> (r: Option<Json>)
    ensures
        match r {
            Some(j) => some_money_document(*x) == Some(j@),
            None => some_money_document(*x) is None,
        },
{
    match x {
        Some(v) => Some(money_json(v)),
        None => None,
    }
}

/// A wanted item as a document.
pub open spec fn request_item_document(x: RequestItem) -> JsonView {
    let m0 = Seq::empty()
        .push(("sku"@, JsonView::Str(x.sku@)))
        .push(("quantity"@, JsonView::Int(x.quantity as int)));
    JsonView::Object(with_some(m0, "unit_price_hint"@, some_money_document(x.unit_price_hint)))
}

/// A wanted item as a document.
pub fn request_item_json(x: &RequestItem) -> (r: Json)
    ensures
        r@ == request_item_document(*x),
{
    ObjectBuilder::new()
        .put_str("sku", x.sku.as_str())
        .put("quantity", Json::Int(x.quantity))
        .put_some("unit_price_hint", some_money_json(&x.unit_price_hint))
        .build()
}

/// An instrument as a document; `method` names it.
pub open spec fn payment_document(x: PaymentInstrument) -> JsonView {
    let m = |name: Seq<char>| Seq::<(Seq<char>, JsonView)>::empty()
        .push(("method"@, JsonView::Str(name)));
    match x {
        PaymentInstrument::Card { token, last_digits, brand } => JsonView::Object(
            m("card"@)
                .push(("token"@, opt_str_view(opt_text(token))))
                .push(("last_digits"@, opt_str_view(opt_text(last_digits))))
                .push(("brand"@, opt_str_view(opt_text(brand)))),
        ),
        PaymentInstrument::DelegatedVault { token, provider } => JsonView::Object(
            m("delegated_vault"@)
                .push(("token"@, JsonView::Str(token@)))
                .push(("provider"@, opt_str_view(opt_text(provider)))),
        ),
        PaymentInstrument::Stablecoin { asset, chain, from, network_memo } => JsonView::Object(
            m("stablecoin"@)
                .push(("asset"@, JsonView::Str(asset@)))
                .push(("chain"@, JsonView::Str(chain@)))
                .push(("from"@, JsonView::Str(from@)))
                .push(("network_memo"@, opt_str_view(opt_text(network_memo)))),
        ),
        PaymentInstrument::A2A { peer_agent_id, memo } => JsonView::Object(
            m("a2a"@)
                .push(("peer_agent_id"@, JsonView::Str(peer_agent_id@)))
                .push(("memo"@, opt_str_view(opt_text(memo)))),
        ),
        PaymentInstrument::ExternalAuthorization {
            provider,
            authorization_id,
            instrument_hint,
        } => JsonView::Object(
            m("external_authorization"@)
                .push(("provider"@, JsonView::Str(provider@)))
                .push(("authorization_id"@, JsonView::Str(authorization_id@)))
                .push(("instrument_hint"@, opt_str_view(opt_text(instrument_hint)))),
        ),
    }
}

/// An instrument as a document.
pub fn payment_json(x: &PaymentInstrument) -> (r: Json)
    ensures
        r@ == payment_document(*x),
{
    match x {
        PaymentInstrument::Card { token, last_digits, brand } => ObjectBuilder::new()
            .put_str("method", "card")
            .put_opt_str("token", token)
            .put_opt_str("last_digits", last_digits)
            .put_opt_str("brand", brand)
            .build(),
        PaymentInstrument::DelegatedVault { token, provider } => ObjectBuilder::new()
            .put_str("method", "delegated_vault")
            .put_str("token", token.as_str())
            .put_opt_str("provider", provider)
            .build(),
        PaymentInstrument::Stablecoin { asset, chain, from, network_memo } => ObjectBuilder::new()
            .put_str("method", "stablecoin")
            .put_str("asset", asset.as_str())
            .put_str("chain", chain.as_str())
            .put_str("from", from.as_str())
            .put_opt_str("network_memo", network_memo)
            .build(),
        PaymentInstrument::A2A { peer_agent_id, memo } => ObjectBuilder::new()
            .put_str("method", "a2a")
            .put_str("peer_agent_id", peer_agent_id.as_str())
            .put_opt_str("memo", memo)
            .build(),
        PaymentInstrument::ExternalAuthorization {
            provider,
            authorization_id,
            instrument_hint,
        } => ObjectBuilder::new()
            .put_str("method", "external_authorization")
            .put_str("provider", provider.as_str())
            .put_str("authorization_id", authorization_id.as_str())
            .put_opt_str("instrument_hint", instrument_hint)
            .build(),
    }
}

/// The same, where there is one.
pub open spec fn some_address_document(x: Option<Address>) -> Option<JsonView> {
    match x {
        Some(v) => Some(address_document(v)),
        None => None,
    }
}

fn some_address_json(x: &Option<Address>) -> (r: Option<Json>)
    ensures
        match r {
            Some(j) => some_address_document(*x) == Some(j@),
            None => some_address_document(*x) is None,
        },
{
    match x {
        Some(v) => Some(address_json(v)),
        None => None,
    }
}

/// Several of them, in order.
pub open spec fn request_items_document(v: Seq<RequestItem>) -> JsonView {
    JsonView::Array(v.map_values(|x: RequestItem| request_item_document(x)))
}

fn request_items_json(v: &Vec<RequestItem>) -> (r: Json)
    ensures
        r@ == request_items_document(v@),
{
    let mut list = ArrayBuilder::new();
    let mut i: usize = 0;
    while i < v.len()
        invariant
            i <= v@.len(),
            list@.len() == i,
            forall|j: int| 0 <= j < i ==> #[trigger] list@[j] == request_item_document(v@[j]),
        decreases v@.len() - i,
    {
        list = list.put(request_item_json(&v[i]));
        i += 1;
    }
    assert(list@ =~= v@.map_values(|x: RequestItem| request_item_document(x)));
    list.build()
}

/// The same, where there is one.
pub open spec fn some_payment_document(x: Option<PaymentInstrument>) -> Option<JsonView> {
    match x {
        Some(v) => Some(payment_document(v)),
        None => None,
    }
}

fn some_payment_json(x: &Option<PaymentInstrument>) -> (r: Option<Json>)
    ensures
        match r {
            Some(j) => some_payment_document(*x) == Some(j@),
            None => some_payment_document(*x) is None,
        },
{
    match x {
        Some(v) => Some(payment_json(v)),
        None => None,
    }
}

/// A subscription as a document.
pub open spec fn subscription_document(x: Subscription) -> JsonView {
    let m0 = Seq::empty()
        .push(("id"@, JsonView::Str(x.id@)))
        .push(("status"@, JsonView::Str(x.status.name())))
        .push(("agent_id"@, JsonView::Str(x.agent_id@)))
        .push(("tenant_id"@, JsonView::Str(x.tenant_id@)));
    let m1 = with_some(m0, "mandate_jti"@, some_str_view(opt_text(x.mandate_jti)))
        .push(("buyer"@, buyer_document(x.buyer)));
    let m2 = with_some(m1, "ship_to"@, some_address_document(x.ship_to))
        .push(("items"@, request_items_document(x.items@)))
        .push(("currency"@, JsonView::Str(x.currency@)))
        .push(("cadence"@, JsonView::Str(x.cadence.name())))
        .push(("current_period_start"@, instant_document(x.current_period_start)))
        .push(("current_period_end"@, instant_document(x.current_period_end)))
        .push(("next_charge_at"@, instant_document(x.next_charge_at)))
        .push(("charges_completed"@, JsonView::Int(x.charges_completed as int)));
    let m3 = with_some(m2, "last_transaction_id"@, some_str_view(opt_text(x.last_transaction_id)));
    let m4 = with_some(m3, "payment_instrument"@, some_payment_document(x.payment_instrument))
        .push(("created_at"@, instant_document(x.created_at)))
        .push(("updated_at"@, instant_document(x.updated_at)));
    let m5 = with_some(m4, "canceled_at"@, some_instant_document(x.canceled_at));
    let m6 = with_some(m5, "paused_at"@, some_instant_document(x.paused_at))
        .push(("failed_renewal_attempts"@, JsonView::Int(x.failed_renewal_attempts as int)));
    JsonView::Object(with_some(m6, "trial_end"@, some_instant_document(x.trial_end)))
}

/// A subscription as a document.
pub fn subscription_json(x: &Subscription) -> (r: Json)
    ensures
        r@ == subscription_document(*x),
{
    ObjectBuilder::new()
        .put_str("id", x.id.as_str())
        .put_str("status", x.status.wire_name())
        .put_str("agent_id", x.agent_id.as_str())
        .put_str("tenant_id", x.tenant_id.as_str())
        .put_some_str("mandate_jti", &x.mandate_jti)
        .put("buyer", buyer_json(&x.buyer))
        .put_some("ship_to", some_address_json(&x.ship_to))
        .put("items", request_items_json(&x.items))
        .put_str("currency", x.currency.as_str())
        .put_str("cadence", x.cadence.wire_name())
        .put("current_period_start", instant(x.current_period_start))
        .put("current_period_end", instant(x.current_period_end))
        .put("next_charge_at", instant(x.next_charge_at))
        .put("charges_completed", Json::Int(x.charges_completed as i64))
        .put_some_str("last_transaction_id", &x.last_transaction_id)
        .put_some("payment_instrument", some_payment_json(&x.payment_instrument))
        .put("created_at", instant(x.created_at))
        .put("updated_at", instant(x.updated_at))
        .put_some("canceled_at", some_instant(&x.canceled_at))
        .put_some("paused_at", some_instant(&x.paused_at))
        .put("failed_renewal_attempts", Json::Int(x.failed_renewal_attempts as i64))
        .put_some("trial_end", some_instant(&x.trial_end))
        .build()
}

/// A service between agents as a document.
pub open spec fn service_document(x: A2aServiceSpec) -> JsonView {
    JsonView::Object(
        Seq::empty()
            .push(("kind"@, JsonView::Str(x.kind.name())))
            .push(("description"@, JsonView::Str(x.description@)))
            .push(("params"@, x.params@)),
    )
}

/// A service between agents as a document.
pub fn service_json(x: &A2aServiceSpec) -> (r: Json)
    ensures
        r@ == service_document(*x),
{
    ObjectBuilder::new()
        .put_str("kind", x.kind.wire_name())
        .put_str("description", x.description.as_str())
        .put("params", x.params.copy())
        .build()
}

/// A quote between agents as a document.
pub open spec fn peer_quote_document(x: PeerQuote) -> JsonView {
    let m0 = Seq::empty()
        .push(("id"@, JsonView::Str(x.id@)))
        .push(("status"@, JsonView::Str(x.status.name())))
        .push(("tenant_id"@, JsonView::Str(x.tenant_id@)))
        .push(("requester_agent_id"@, JsonView::Str(x.requester_agent_id@)))
        .push(("peer_agent_id"@, JsonView::Str(x.peer_agent_id@)))
        .push(("service"@, service_document(x.service)));
    let m1 = with_some(m0, "price"@, some_money_document(x.price))
        .push(("created_at"@, instant_document(x.created_at)))
        .push(("updated_at"@, instant_document(x.updated_at)))
        .push(("expires_at"@, instant_document(x.expires_at)));
    let m2 = with_some(m1, "accepted_at"@, some_instant_document(x.accepted_at));
    let m3 = with_some(
        m2,
        "charge_transaction_id"@,
        some_str_view(opt_text(x.charge_transaction_id)),
    );
    let m4 = with_some(m3, "mandate_jti"@, some_str_view(opt_text(x.mandate_jti)));
    JsonView::Object(with_some(m4, "reference_id"@, some_str_view(opt_text(x.reference_id))))
}

/// A quote between agents as a document.
pub fn peer_quote_json(x: &PeerQuote) -> (r: Json)
    ensures
        r@ == peer_quote_document(*x),
{
    ObjectBuilder::new()
        .put_str("id", x.id.as_str())
        .put_str("status", x.status.wire_name())
        .put_str("tenant_id", x.tenant_id.as_str())
        .put_str("requester_agent_id", x.requester_agent_id.as_str())
        .put_str("peer_agent_id", x.peer_agent_id.as_str())
        .put("service", service_json(&x.service))
        .put_some("price", some_money_json(&x.price))
        .put("created_at", instant(x.created_at))
        .put("updated_at", instant(x.updated_at))
        .put("expires_at", instant(x.expires_at))
        .put_some("accepted_at", some_instant(&x.accepted_at))
        .put_some_str("charge_transaction_id", &x.charge_transaction_id)
        .put_some_str("mandate_jti", &x.mandate_jti)
        .put_some_str("reference_id", &x.reference_id)
        .build()
}

/// A receipt in an answer as a document.
pub open spec fn receipt_document(x: ReceiptStub) -> JsonView {
    JsonView::Object(
        Seq::empty()
            .push(("jti"@, JsonView::Str(x.jti@)))
            .push(("kid"@, JsonView::Str(x.kid@)))
            .push(("jws"@, JsonView::Str(x.jws@)))
            .push(("body_digest"@, JsonView::Str(x.body_digest@))),
    )
}

/// A receipt in an answer as a document.
pub fn receipt_json(x: &ReceiptStub) -> (r: Json)
    ensures
        r@ == receipt_document(*x),
{
    ObjectBuilder::new()
        .put_str("jti", x.jti.as_str())
        .put_str("kid", x.kid.as_str())
        .put_str("jws", x.jws.as_str())
        .put_str("body_digest", x.body_digest.as_str())
        .build()
}

/// The frame of an answer as a document.
pub open spec fn envelope_document(x: ResponseEnvelope) -> JsonView {
    let m0 = Seq::empty()
        .push(("icp_version"@, JsonView::Str(x.icp_version@)))
        .push(("request_id"@, JsonView::Str(x.request_id@)));
    JsonView::Object(
        with_some(m0, "trace_id"@, some_str_view(opt_text(x.trace_id)))
            .push(("issued_at"@, instant_document(x.issued_at))),
    )
}

/// The frame of an answer as a document.
pub fn envelope_json(x: &ResponseEnvelope) -> (r: Json)
    ensures
        r@ == envelope_document(*x),
{
    ObjectBuilder::new()
        .put_str("icp_version", x.icp_version.as_str())
        .put_str("request_id", x.request_id.as_str())
        .put_some_str("trace_id", &x.trace_id)
        .put("issued_at", instant(x.issued_at))
        .build()
}

/// The same, where there is one.
pub open spec fn some_order_document(x: Option<OrderSummary>) -> Option<JsonView> {
    match x {
        Some(v) => Some(order_document(v)),
        None => None,
    }
}

fn some_order_json(x: &Option<OrderSummary>) -> (r: Option<Json>)
    ensures
        match r {
            Some(j) => some_order_document(*x) == Some(j@),
            None => some_order_document(*x) is None,
        },
{
    match x {
        Some(v) => Some(order_json(v)),
        None => None,
    }
}

/// The same, where there is one.
pub open spec fn some_subscription_document(x: Option<Subscription>) -> Option<JsonView> {
    match x {
        Some(v) => Some(subscription_document(v)),
        None => None,
    }
}

fn some_subscription_json(x: &Option<Subscription>) -> (r: Option<Json>)
    ensures
        match r {
            Some(j) => some_subscription_document(*x) == Some(j@),
            None => some_subscription_document(*x) is None,
        },
{
    match x {
        Some(v) => Some(subscription_json(v)),
        None => None,
    }
}

/// The same, where there is one.
pub open spec fn some_peer_quote_document(x: Option<PeerQuote>) -> Option<JsonView> {
    match x {
        Some(v) => Some(peer_quote_document(v)),
        None => None,
    }
}

fn some_peer_quote_json(x: &Option<PeerQuote>) -> (r: Option<Json>)
    ensures
        match r {
            Some(j) => some_peer_quote_document(*x) == Some(j@),
            None => some_peer_quote_document(*x) is None,
        },
{
    match x {
        Some(v) => Some(peer_quote_json(v)),
        None => None,
    }
}

/// The receipt of an answer before it is signed: only its key is known.
pub open spec fn unsigned_receipt(kid: Seq<char>) -> JsonView {
    JsonView::Object(
        Seq::empty().push(("jti"@, JsonView::Str(""@))).push(("kid"@, JsonView::Str(kid))).push(
            ("jws"@, JsonView::Str(""@)),
        ).push(("body_digest"@, JsonView::Str(""@))),
    )
}

/// An answer as a document, with this as its receipt.
pub open spec fn answer_document(x: IntentResponseBody, receipt: JsonView) -> JsonView {
    let m0 = Seq::empty().push(("intent"@, JsonView::Str(x.intent@))).push(
        ("intent_id"@, JsonView::Str(x.intent_id@)),
    ).push(("transaction"@, transaction_document(x.transaction)));
    let m1 = with_some(m0, "order"@, some_order_document(x.order));
    let m2 = with_some(m1, "subscription"@, some_subscription_document(x.subscription));
    let m3 = with_some(m2, "peer_quote"@, some_peer_quote_document(x.peer_quote));
    JsonView::Object(
        m3.push(("receipt"@, receipt)).push(("envelope"@, envelope_document(x.envelope))),
    )
}

/// An answer as a document.
pub fn answer_json(x: &IntentResponseBody) -> (r: Json)
    ensures
        r@ == answer_document(*x, receipt_document(x.receipt)),
{
    ObjectBuilder::new()
        .put_str("intent", x.intent.as_str())
        .put_str("intent_id", x.intent_id.as_str())
        .put("transaction", transaction_json(&x.transaction))
        .put_some("order", some_order_json(&x.order))
        .put_some("subscription", some_subscription_json(&x.subscription))
        .put_some("peer_quote", some_peer_quote_json(&x.peer_quote))
        .put("receipt", receipt_json(&x.receipt))
        .put("envelope", envelope_json(&x.envelope))
        .build()
}

/// What a receipt says of the intent as a document.
pub open spec fn receipt_icp_document(x: ReceiptIcp) -> JsonView {
    let m0 = Seq::empty()
        .push(("version"@, JsonView::Str(x.version@)))
        .push(("intent"@, JsonView::Str(x.intent@)))
        .push(("transaction_id"@, JsonView::Str(x.transaction_id@)));
    let m1 = with_some(m0, "order_id"@, some_str_view(opt_text(x.order_id)));
    JsonView::Object(
        with_some(m1, "mandate_jti"@, some_str_view(opt_text(x.mandate_jti)))
            .push(("body_digest"@, JsonView::Str(x.body_digest@)))
            .push(("body_canonicalization"@, JsonView::Str(x.body_canonicalization@))),
    )
}

/// What a receipt says of the intent as a document.
pub fn receipt_icp_json(x: &ReceiptIcp) -> (r: Json)
    ensures
        r@ == receipt_icp_document(*x),
{
    ObjectBuilder::new()
        .put_str("version", x.version.as_str())
        .put_str("intent", x.intent.as_str())
        .put_str("transaction_id", x.transaction_id.as_str())
        .put_some_str("order_id", &x.order_id)
        .put_some_str("mandate_jti", &x.mandate_jti)
        .put_str("body_digest", x.body_digest.as_str())
        .put_str("body_canonicalization", x.body_canonicalization.as_str())
        .build()
}

/// The claims of a receipt as a document.
pub open spec fn claims_document(x: ReceiptClaims) -> JsonView {
    JsonView::Object(
        Seq::empty()
            .push(("iss"@, JsonView::Str(x.iss@)))
            .push(("aud"@, JsonView::Str(x.aud@)))
            .push(("iat"@, JsonView::Int(x.iat as int)))
            .push(("jti"@, JsonView::Str(x.jti@)))
            .push(("icp"@, receipt_icp_document(x.icp))),
    )
}

/// The claims of a receipt as a document.
pub fn claims_json(x: &ReceiptClaims) -> (r: Json)
    ensures
        r@ == claims_document(*x),
{
    ObjectBuilder::new()
        .put_str("iss", x.iss.as_str())
        .put_str("aud", x.aud.as_str())
        .put("iat", Json::Int(x.iat))
        .put_str("jti", x.jti.as_str())
        .put("icp", receipt_icp_json(&x.icp))
        .build()
}

/// An event as a document.
pub open spec fn event_document(e: Event) -> JsonView {
    JsonView::Object(
        Seq::empty().push(("id"@, JsonView::Str(e.id@))).push(
            ("type"@, JsonView::Str(e.event_type@)),
        ).push(("transaction_id"@, opt_str_view(opt_text(e.transaction_id)))).push(
            ("order_id"@, opt_str_view(opt_text(e.order_id))),
        ).push(("agent_id"@, opt_str_view(opt_text(e.agent_id)))).push(
            ("occurred_at"@, instant_document(e.occurred_at)),
        ).push(("payload"@, e.payload@)),
    )
}

/// An event as a document.
pub fn event_json(e: &Event) -> (r: Json)
    ensures
        r@ == event_document(*e),
{
    ObjectBuilder::new()
        .put_str("id", e.id.as_str())
        .put_str("type", e.event_type.as_str())
        .put_opt_str("transaction_id", &e.transaction_id)
        .put_opt_str("order_id", &e.order_id)
        .put_opt_str("agent_id", &e.agent_id)
        .put("occurred_at", instant(e.occurred_at))
        .put("payload", e.payload.copy())
        .build()
}

// ---------------------------------------------------------------------------
// Laws
// ---------------------------------------------------------------------------

/// An amount as a document has exactly these members, each with what
/// it stands for.
pub proof fn law_members_of_a_money_document(x: Money, asked: Seq<char>)
    ensures
        money_document(x).member(asked) == (if asked == "amount_minor"@ {
            Some(JsonView::Int(x.amount_minor as int))
        } else if asked == "amount_display"@ {
            match x.amount_display {
                Some(t) => Some(JsonView::Str(t@)),
                None => None,
            }
        } else if asked == "currency"@ {
            Some(JsonView::Str(x.currency@))
        } else {
            None
        }),
{
    lemma_member_of_none(asked);
    let m0 = Seq::<(Seq<char>, JsonView)>::empty();
    lemma_member_put(m0, "amount_minor"@, JsonView::Int(x.amount_minor as int), asked);
    let m1 = m0.push(("amount_minor"@, JsonView::Int(x.amount_minor as int)));
    lemma_member_put_some(m1, "amount_display"@, some_str_view(opt_text(x.amount_display)), asked);
    let m2 = with_some(m1, "amount_display"@, some_str_view(opt_text(x.amount_display)));
    lemma_member_put(m2, "currency"@, JsonView::Str(x.currency@), asked);
    let m3 = m2.push(("currency"@, JsonView::Str(x.currency@)));
    reveal_strlit("amount_display");
    reveal_strlit("currency");
    assert("amount_display"@.len() == 14 && "currency"@.len() == 8);
    assert(money_document(x) == JsonView::Object(m3));
}

/// An address as a document has exactly these members, each with what
/// it stands for.
pub proof fn law_members_of_an_address_document(x: Address, asked: Seq<char>)
    ensures
        address_document(x).member(asked) == (if asked == "name"@ {
            Some(
                match x.name {
                    Some(t) => JsonView::Str(t@),
                    None => JsonView::Null,
                },
            )
        } else if asked == "line_one"@ {
            Some(
                match x.line_one {
                    Some(t) => JsonView::Str(t@),
                    None => JsonView::Null,
                },
            )
        } else if asked == "line_two"@ {
            Some(
                match x.line_two {
                    Some(t) => JsonView::Str(t@),
                    None => JsonView::Null,
                },
            )
        } else if asked == "city"@ {
            Some(
                match x.city {
                    Some(t) => JsonView::Str(t@),
                    None => JsonView::Null,
                },
            )
        } else if asked == "state"@ {
            Some(
                match x.state {
                    Some(t) => JsonView::Str(t@),
                    None => JsonView::Null,
                },
            )
        } else if asked == "postal_code"@ {
            Some(
                match x.postal_code {
                    Some(t) => JsonView::Str(t@),
                    None => JsonView::Null,
                },
            )
        } else if asked == "country"@ {
            Some(
                match x.country {
                    Some(t) => JsonView::Str(t@),
                    None => JsonView::Null,
                },
            )
        } else if asked == "phone_number"@ {
            Some(
                match x.phone_number {
                    Some(t) => JsonView::Str(t@),
                    None => JsonView::Null,
                },
            )
        } else if asked == "email"@ {
            Some(
                match x.email {
                    Some(t) => JsonView::Str(t@),
                    None => JsonView::Null,
                },
            )
        } else {
            None
        }),
{
    lemma_member_of_none(asked);
    let m0 = Seq::<(Seq<char>, JsonView)>::empty();
    lemma_member_put(m0, "name"@, opt_str_view(opt_text(x.name)), asked);
    let m1 = m0.push(("name"@, opt_str_view(opt_text(x.name))));
    lemma_member_put(m1, "line_one"@, opt_str_view(opt_text(x.line_one)), asked);
    let m2 = m1.push(("line_one"@, opt_str_view(opt_text(x.line_one))));
    lemma_member_put(m2, "line_two"@, opt_str_view(opt_text(x.line_two)), asked);
    let m3 = m2.push(("line_two"@, opt_str_view(opt_text(x.line_two))));
    lemma_member_put(m3, "city"@, opt_str_view(opt_text(x.city)), asked);
    let m4 = m3.push(("city"@, opt_str_view(opt_text(x.city))));
    lemma_member_put(m4, "state"@, opt_str_view(opt_text(x.state)), asked);
    let m5 = m4.push(("state"@, opt_str_view(opt_text(x.state))));
    lemma_member_put(m5, "postal_code"@, opt_str_view(opt_text(x.postal_code)), asked);
    let m6 = m5.push(("postal_code"@, opt_str_view(opt_text(x.postal_code))));
    lemma_member_put(m6, "country"@, opt_str_view(opt_text(x.country)), asked);
    let m7 = m6.push(("country"@, opt_str_view(opt_text(x.country))));
    lemma_member_put(m7, "phone_number"@, opt_str_view(opt_text(x.phone_number)), asked);
    let m8 = m7.push(("phone_number"@, opt_str_view(opt_text(x.phone_number))));
    lemma_member_put(m8, "email"@, opt_str_view(opt_text(x.email)), asked);
    let m9 = m8.push(("email"@, opt_str_view(opt_text(x.email))));
    assert(address_document(x) == JsonView::Object(m9));
}

/// A buyer as a document has exactly these members, each with what
/// it stands for.
pub proof fn law_members_of_a_buyer_document(x: Buyer, asked: Seq<char>)
    ensures
        buyer_document(x).member(asked) == (if asked == "first_name"@ {
            Some(
                match x.first_name {
                    Some(t) => JsonView::Str(t@),
                    None => JsonView::Null,
                },
            )
        } else if asked == "last_name"@ {
            Some(
                match x.last_name {
                    Some(t) => JsonView::Str(t@),
                    None => JsonView::Null,
                },
            )
        } else if asked == "email"@ {
            Some(
                match x.email {
                    Some(t) => JsonView::Str(t@),
                    None => JsonView::Null,
                },
            )
        } else if asked == "phone_number"@ {
            Some(
                match x.phone_number {
                    Some(t) => JsonView::Str(t@),
                    None => JsonView::Null,
                },
            )
        } else if asked == "principal_did"@ {
            Some(
                match x.principal_did {
                    Some(t) => JsonView::Str(t@),
                    None => JsonView::Null,
                },
            )
        } else {
            None
        }),
{
    lemma_member_of_none(asked);
    let m0 = Seq::<(Seq<char>, JsonView)>::empty();
    lemma_member_put(m0, "first_name"@, opt_str_view(opt_text(x.first_name)), asked);
    let m1 = m0.push(("first_name"@, opt_str_view(opt_text(x.first_name))));
    lemma_member_put(m1, "last_name"@, opt_str_view(opt_text(x.last_name)), asked);
    let m2 = m1.push(("last_name"@, opt_str_view(opt_text(x.last_name))));
    lemma_member_put(m2, "email"@, opt_str_view(opt_text(x.email)), asked);
    let m3 = m2.push(("email"@, opt_str_view(opt_text(x.email))));
    lemma_member_put(m3, "phone_number"@, opt_str_view(opt_text(x.phone_number)), asked);
    let m4 = m3.push(("phone_number"@, opt_str_view(opt_text(x.phone_number))));
    lemma_member_put(m4, "principal_did"@, opt_str_view(opt_text(x.principal_did)), asked);
    let m5 = m4.push(("principal_did"@, opt_str_view(opt_text(x.principal_did))));
    assert(buyer_document(x) == JsonView::Object(m5));
}

/// A position as a document has exactly these members, each with what
/// it stands for.
pub proof fn law_members_of_a_line_item_document(x: LineItem, asked: Seq<char>)
    ensures
        line_item_document(x).member(asked) == (if asked == "id"@ {
            Some(JsonView::Str(x.id@))
        } else if asked == "sku"@ {
            Some(JsonView::Str(x.sku@))
        } else if asked == "name"@ {
            Some(JsonView::Str(x.name@))
        } else if asked == "quantity"@ {
            Some(JsonView::Int(x.quantity as int))
        } else if asked == "unit_price"@ {
            Some(money_document(x.unit_price))
        } else if asked == "subtotal"@ {
            Some(money_document(x.subtotal))
        } else if asked == "tax"@ {
            Some(
                match x.tax {
                    Some(v) => money_document(v),
                    None => JsonView::Null,
                },
            )
        } else if asked == "total"@ {
            Some(money_document(x.total))
        } else {
            None
        }),
{
    lemma_member_of_none(asked);
    let m0 = Seq::<(Seq<char>, JsonView)>::empty();
    lemma_member_put(m0, "id"@, JsonView::Str(x.id@), asked);
    let m1 = m0.push(("id"@, JsonView::Str(x.id@)));
    lemma_member_put(m1, "sku"@, JsonView::Str(x.sku@), asked);
    let m2 = m1.push(("sku"@, JsonView::Str(x.sku@)));
    lemma_member_put(m2, "name"@, JsonView::Str(x.name@), asked);
    let m3 = m2.push(("name"@, JsonView::Str(x.name@)));
    lemma_member_put(m3, "quantity"@, JsonView::Int(x.quantity as int), asked);
    let m4 = m3.push(("quantity"@, JsonView::Int(x.quantity as int)));
    lemma_member_put(m4, "unit_price"@, money_document(x.unit_price), asked);
    let m5 = m4.push(("unit_price"@, money_document(x.unit_price)));
    lemma_member_put(m5, "subtotal"@, money_document(x.subtotal), asked);
    let m6 = m5.push(("subtotal"@, money_document(x.subtotal)));
    lemma_member_put(m6, "tax"@, opt_money_document(x.tax), asked);
    let m7 = m6.push(("tax"@, opt_money_document(x.tax)));
    lemma_member_put(m7, "total"@, money_document(x.total), asked);
    let m8 = m7.push(("total"@, money_document(x.total)));
    assert(line_item_document(x) == JsonView::Object(m8));
}

/// The sums of a basket as a document has exactly these members, each with what
/// it stands for.
pub proof fn law_members_of_totals_document(x: Totals, asked: Seq<char>)
    ensures
        totals_document(x).member(asked) == (if asked == "subtotal"@ {
            Some(
                match x.subtotal {
                    Some(v) => money_document(v),
                    None => JsonView::Null,
                },
            )
        } else if asked == "discount"@ {
            Some(
                match x.discount {
                    Some(v) => money_document(v),
                    None => JsonView::Null,
                },
            )
        } else if asked == "shipping"@ {
            Some(
                match x.shipping {
                    Some(v) => money_document(v),
                    None => JsonView::Null,
                },
            )
        } else if asked == "tax"@ {
            Some(
                match x.tax {
                    Some(v) => money_document(v),
                    None => JsonView::Null,
                },
            )
        } else if asked == "total"@ {
            Some(
                match x.total {
                    Some(v) => money_document(v),
                    None => JsonView::Null,
                },
            )
        } else {
            None
        }),
{
    lemma_member_of_none(asked);
    let m0 = Seq::<(Seq<char>, JsonView)>::empty();
    lemma_member_put(m0, "subtotal"@, opt_money_document(x.subtotal), asked);
    let m1 = m0.push(("subtotal"@, opt_money_document(x.subtotal)));
    lemma_member_put(m1, "discount"@, opt_money_document(x.discount), asked);
    let m2 = m1.push(("discount"@, opt_money_document(x.discount)));
    lemma_member_put(m2, "shipping"@, opt_money_document(x.shipping), asked);
    let m3 = m2.push(("shipping"@, opt_money_document(x.shipping)));
    lemma_member_put(m3, "tax"@, opt_money_document(x.tax), asked);
    let m4 = m3.push(("tax"@, opt_money_document(x.tax)));
    lemma_member_put(m4, "total"@, opt_money_document(x.total), asked);
    let m5 = m4.push(("total"@, opt_money_document(x.total)));
    assert(totals_document(x) == JsonView::Object(m5));
}

/// A transaction as a document has exactly these members, each with what
/// it stands for.
pub proof fn law_members_of_a_transaction_document(x: Transaction, asked: Seq<char>)
    ensures
        transaction_document(x).member(asked) == (if asked == "id"@ {
            Some(JsonView::Str(x.id@))
        } else if asked == "state"@ {
            Some(JsonView::Str(x.state.name()))
        } else if asked == "agent_id"@ {
            Some(JsonView::Str(x.agent_id@))
        } else if asked == "tenant_id"@ {
            Some(JsonView::Str(x.tenant_id@))
        } else if asked == "mandate_jti"@ {
            match x.mandate_jti {
                Some(t) => Some(JsonView::Str(t@)),
                None => None,
            }
        } else if asked == "currency"@ {
            Some(JsonView::Str(x.currency@))
        } else if asked == "jurisdiction"@ {
            match x.jurisdiction {
                Some(t) => Some(JsonView::Str(t@)),
                None => None,
            }
        } else if asked == "buyer"@ {
            Some(buyer_document(x.buyer))
        } else if asked == "ship_to"@ {
            Some(
                match x.ship_to {
                    Some(v) => address_document(v),
                    None => JsonView::Null,
                },
            )
        } else if asked == "bill_to"@ {
            Some(
                match x.bill_to {
                    Some(v) => address_document(v),
                    None => JsonView::Null,
                },
            )
        } else if asked == "line_items"@ {
            Some(JsonView::Array(x.line_items@.map_values(|v: LineItem| line_item_document(v))))
        } else if asked == "totals"@ {
            Some(totals_document(x.totals))
        } else if asked == "order_id"@ {
            match x.order_id {
                Some(t) => Some(JsonView::Str(t@)),
                None => None,
            }
        } else if asked == "quote_expires_at"@ {
            match x.quote_expires_at {
                Some(t) => Some(JsonView::Str(rfc3339_text(t@, true))),
                None => None,
            }
        } else if asked == "created_at"@ {
            Some(JsonView::Str(rfc3339_text(x.created_at@, true)))
        } else if asked == "updated_at"@ {
            Some(JsonView::Str(rfc3339_text(x.updated_at@, true)))
        } else if asked == "external_refs"@ {
            Some(refs_document(x.external_refs))
        } else {
            None
        }),
{
    lemma_member_of_none(asked);
    let m0 = Seq::<(Seq<char>, JsonView)>::empty();
    lemma_member_put(m0, "id"@, JsonView::Str(x.id@), asked);
    let m1 = m0.push(("id"@, JsonView::Str(x.id@)));
    lemma_member_put(m1, "state"@, JsonView::Str(x.state.name()), asked);
    let m2 = m1.push(("state"@, JsonView::Str(x.state.name())));
    lemma_member_put(m2, "agent_id"@, JsonView::Str(x.agent_id@), asked);
    let m3 = m2.push(("agent_id"@, JsonView::Str(x.agent_id@)));
    lemma_member_put(m3, "tenant_id"@, JsonView::Str(x.tenant_id@), asked);
    let m4 = m3.push(("tenant_id"@, JsonView::Str(x.tenant_id@)));
    lemma_member_put_some(m4, "mandate_jti"@, some_str_view(opt_text(x.mandate_jti)), asked);
    let m5 = with_some(m4, "mandate_jti"@, some_str_view(opt_text(x.mandate_jti)));
    lemma_member_put(m5, "currency"@, JsonView::Str(x.currency@), asked);
    let m6 = m5.push(("currency"@, JsonView::Str(x.currency@)));
    lemma_member_put_some(m6, "jurisdiction"@, some_str_view(opt_text(x.jurisdiction)), asked);
    let m7 = with_some(m6, "jurisdiction"@, some_str_view(opt_text(x.jurisdiction)));
    lemma_member_put(m7, "buyer"@, buyer_document(x.buyer), asked);
    let m8 = m7.push(("buyer"@, buyer_document(x.buyer)));
    lemma_member_put(m8, "ship_to"@, opt_address_document(x.ship_to), asked);
    let m9 = m8.push(("ship_to"@, opt_address_document(x.ship_to)));
    lemma_member_put(m9, "bill_to"@, opt_address_document(x.bill_to), asked);
    let m10 = m9.push(("bill_to"@, opt_address_document(x.bill_to)));
    lemma_member_put(m10, "line_items"@, line_items_document(x.line_items@), asked);
    let m11 = m10.push(("line_items"@, line_items_document(x.line_items@)));
    lemma_member_put(m11, "totals"@, totals_document(x.totals), asked);
    let m12 = m11.push(("totals"@, totals_document(x.totals)));
    lemma_member_put_some(m12, "order_id"@, some_str_view(opt_text(x.order_id)), asked);
    let m13 = with_some(m12, "order_id"@, some_str_view(opt_text(x.order_id)));
    lemma_member_put_some(
        m13,
        "quote_expires_at"@,
        some_instant_document(x.quote_expires_at),
        asked,
    );
    let m14 = with_some(m13, "quote_expires_at"@, some_instant_document(x.quote_expires_at));
    lemma_member_put(m14, "created_at"@, instant_document(x.created_at), asked);
    let m15 = m14.push(("created_at"@, instant_document(x.created_at)));
    lemma_member_put(m15, "updated_at"@, instant_document(x.updated_at), asked);
    let m16 = m15.push(("updated_at"@, instant_document(x.updated_at)));
    lemma_member_put(m16, "external_refs"@, refs_document(x.external_refs), asked);
    let m17 = m16.push(("external_refs"@, refs_document(x.external_refs)));
    reveal_strlit("mandate_jti");
    reveal_strlit("currency");
    reveal_strlit("jurisdiction");
    reveal_strlit("buyer");
    reveal_strlit("ship_to");
    reveal_strlit("bill_to");
    reveal_strlit("line_items");
    reveal_strlit("totals");
    reveal_strlit("order_id");
    reveal_strlit("quote_expires_at");
    reveal_strlit("created_at");
    reveal_strlit("updated_at");
    reveal_strlit("external_refs");
    assert("mandate_jti"@.len() == 11 && "currency"@.len() == 8);
    assert("mandate_jti"@.len() == 11 && "jurisdiction"@.len() == 12);
    assert("mandate_jti"@.len() == 11 && "buyer"@.len() == 5);
    assert("mandate_jti"@.len() == 11 && "ship_to"@.len() == 7);
    assert("mandate_jti"@.len() == 11 && "bill_to"@.len() == 7);
    assert("mandate_jti"@.len() == 11 && "line_items"@.len() == 10);
    assert("mandate_jti"@.len() == 11 && "totals"@.len() == 6);
    assert("mandate_jti"@.len() == 11 && "order_id"@.len() == 8);
    assert("mandate_jti"@.len() == 11 && "quote_expires_at"@.len() == 16);
    assert("mandate_jti"@.len() == 11 && "created_at"@.len() == 10);
    assert("mandate_jti"@.len() == 11 && "updated_at"@.len() == 10);
    assert("mandate_jti"@.len() == 11 && "external_refs"@.len() == 13);
    assert("jurisdiction"@.len() == 12 && "buyer"@.len() == 5);
    assert("jurisdiction"@.len() == 12 && "ship_to"@.len() == 7);
    assert("jurisdiction"@.len() == 12 && "bill_to"@.len() == 7);
    assert("jurisdiction"@.len() == 12 && "line_items"@.len() == 10);
    assert("jurisdiction"@.len() == 12 && "totals"@.len() == 6);
    assert("jurisdiction"@.len() == 12 && "order_id"@.len() == 8);
    assert("jurisdiction"@.len() == 12 && "quote_expires_at"@.len() == 16);
    assert("jurisdiction"@.len() == 12 && "created_at"@.len() == 10);
    assert("jurisdiction"@.len() == 12 && "updated_at"@.len() == 10);
    assert("jurisdiction"@.len() == 12 && "external_refs"@.len() == 13);
    assert("order_id"@.len() == 8 && "quote_expires_at"@.len() == 16);
    assert("order_id"@.len() == 8 && "created_at"@.len() == 10);
    assert("order_id"@.len() == 8 && "updated_at"@.len() == 10);
    assert("order_id"@.len() == 8 && "external_refs"@.len() == 13);
    assert("quote_expires_at"@.len() == 16 && "created_at"@.len() == 10);
    assert("quote_expires_at"@.len() == 16 && "updated_at"@.len() == 10);
    assert("quote_expires_at"@.len() == 16 && "external_refs"@.len() == 13);
    assert(transaction_document(x) == JsonView::Object(m17));
}

/// An order as a document has exactly these members, each with what
/// it stands for.
pub proof fn law_members_of_an_order_document(x: OrderSummary, asked: Seq<char>)
    ensures
        order_document(x).member(asked) == (if asked == "id"@ {
            Some(JsonView::Str(x.id@))
        } else if asked == "order_number"@ {
            Some(JsonView::Str(x.order_number@))
        } else if asked == "status"@ {
            Some(JsonView::Str(x.status@))
        } else if asked == "permalink_url"@ {
            Some(
                match x.permalink_url {
                    Some(t) => JsonView::Str(t@),
                    None => JsonView::Null,
                },
            )
        } else if asked == "total"@ {
            Some(money_document(x.total))
        } else {
            None
        }),
{
    lemma_member_of_none(asked);
    let m0 = Seq::<(Seq<char>, JsonView)>::empty();
    lemma_member_put(m0, "id"@, JsonView::Str(x.id@), asked);
    let m1 = m0.push(("id"@, JsonView::Str(x.id@)));
    lemma_member_put(m1, "order_number"@, JsonView::Str(x.order_number@), asked);
    let m2 = m1.push(("order_number"@, JsonView::Str(x.order_number@)));
    lemma_member_put(m2, "status"@, JsonView::Str(x.status@), asked);
    let m3 = m2.push(("status"@, JsonView::Str(x.status@)));
    lemma_member_put(m3, "permalink_url"@, opt_str_view(opt_text(x.permalink_url)), asked);
    let m4 = m3.push(("permalink_url"@, opt_str_view(opt_text(x.permalink_url))));
    lemma_member_put(m4, "total"@, money_document(x.total), asked);
    let m5 = m4.push(("total"@, money_document(x.total)));
    assert(order_document(x) == JsonView::Object(m5));
}

/// A wanted item as a document has exactly these members, each with what
/// it stands for.
pub proof fn law_members_of_a_request_item_document(x: RequestItem, asked: Seq<char>)
    ensures
        request_item_document(x).member(asked) == (if asked == "sku"@ {
            Some(JsonView::Str(x.sku@))
        } else if asked == "quantity"@ {
            Some(JsonView::Int(x.quantity as int))
        } else if asked == "unit_price_hint"@ {
            match x.unit_price_hint {
                Some(v) => Some(money_document(v)),
                None => None,
            }
        } else {
            None
        }),
{
    lemma_member_of_none(asked);
    let m0 = Seq::<(Seq<char>, JsonView)>::empty();
    lemma_member_put(m0, "sku"@, JsonView::Str(x.sku@), asked);
    let m1 = m0.push(("sku"@, JsonView::Str(x.sku@)));
    lemma_member_put(m1, "quantity"@, JsonView::Int(x.quantity as int), asked);
    let m2 = m1.push(("quantity"@, JsonView::Int(x.quantity as int)));
    lemma_member_put_some(m2, "unit_price_hint"@, some_money_document(x.unit_price_hint), asked);
    let m3 = with_some(m2, "unit_price_hint"@, some_money_document(x.unit_price_hint));
    assert(request_item_document(x) == JsonView::Object(m3));
}

/// A subscription as a document has exactly these members, each with what
/// it stands for.
pub proof fn law_members_of_a_subscription_document(x: Subscription, asked: Seq<char>)
    ensures
        subscription_document(x).member(asked) == (if asked == "id"@ {
            Some(JsonView::Str(x.id@))
        } else if asked == "status"@ {
            Some(JsonView::Str(x.status.name()))
        } else if asked == "agent_id"@ {
            Some(JsonView::Str(x.agent_id@))
        } else if asked == "tenant_id"@ {
            Some(JsonView::Str(x.tenant_id@))
        } else if asked == "mandate_jti"@ {
            match x.mandate_jti {
                Some(t) => Some(JsonView::Str(t@)),
                None => None,
            }
        } else if asked == "buyer"@ {
            Some(buyer_document(x.buyer))
        } else if asked == "ship_to"@ {
            match x.ship_to {
                Some(v) => Some(address_document(v)),
                None => None,
            }
        } else if asked == "items"@ {
            Some(JsonView::Array(x.items@.map_values(|v: RequestItem| request_item_document(v))))
        } else if asked == "currency"@ {
            Some(JsonView::Str(x.currency@))
        } else if asked == "cadence"@ {
            Some(JsonView::Str(x.cadence.name()))
        } else if asked == "current_period_start"@ {
            Some(JsonView::Str(rfc3339_text(x.current_period_start@, true)))
        } else if asked == "current_period_end"@ {
            Some(JsonView::Str(rfc3339_text(x.current_period_end@, true)))
        } else if asked == "next_charge_at"@ {
            Some(JsonView::Str(rfc3339_text(x.next_charge_at@, true)))
        } else if asked == "charges_completed"@ {
            Some(JsonView::Int(x.charges_completed as int))
        } else if asked == "last_transaction_id"@ {
            match x.last_transaction_id {
                Some(t) => Some(JsonView::Str(t@)),
                None => None,
            }
        } else if asked == "payment_instrument"@ {
            match x.payment_instrument {
                Some(v) => Some(payment_document(v)),
                None => None,
            }
        } else if asked == "created_at"@ {
            Some(JsonView::Str(rfc3339_text(x.created_at@, true)))
        } else if asked == "updated_at"@ {
            Some(JsonView::Str(rfc3339_text(x.updated_at@, true)))
        } else if asked == "canceled_at"@ {
            match x.canceled_at {
                Some(t) => Some(JsonView::Str(rfc3339_text(t@, true))),
                None => None,
            }
        } else if asked == "paused_at"@ {
            match x.paused_at {
                Some(t) => Some(JsonView::Str(rfc3339_text(t@, true))),
                None => None,
            }
        } else if asked == "failed_renewal_attempts"@ {
            Some(JsonView::Int(x.failed_renewal_attempts as int))
        } else if asked == "trial_end"@ {
            match x.trial_end {
                Some(t) => Some(JsonView::Str(rfc3339_text(t@, true))),
                None => None,
            }
        } else {
            None
        }),
{
    lemma_member_of_none(asked);
    let m0 = Seq::<(Seq<char>, JsonView)>::empty();
    lemma_member_put(m0, "id"@, JsonView::Str(x.id@), asked);
    let m1 = m0.push(("id"@, JsonView::Str(x.id@)));
    lemma_member_put(m1, "status"@, JsonView::Str(x.status.name()), asked);
    let m2 = m1.push(("status"@, JsonView::Str(x.status.name())));
    lemma_member_put(m2, "agent_id"@, JsonView::Str(x.agent_id@), asked);
    let m3 = m2.push(("agent_id"@, JsonView::Str(x.agent_id@)));
    lemma_member_put(m3, "tenant_id"@, JsonView::Str(x.tenant_id@), asked);
    let m4 = m3.push(("tenant_id"@, JsonView::Str(x.tenant_id@)));
    lemma_member_put_some(m4, "mandate_jti"@, some_str_view(opt_text(x.mandate_jti)), asked);
    let m5 = with_some(m4, "mandate_jti"@, some_str_view(opt_text(x.mandate_jti)));
    lemma_member_put(m5, "buyer"@, buyer_document(x.buyer), asked);
    let m6 = m5.push(("buyer"@, buyer_document(x.buyer)));
    lemma_member_put_some(m6, "ship_to"@, some_address_document(x.ship_to), asked);
    let m7 = with_some(m6, "ship_to"@, some_address_document(x.ship_to));
    lemma_member_put(m7, "items"@, request_items_document(x.items@), asked);
    let m8 = m7.push(("items"@, request_items_document(x.items@)));
    lemma_member_put(m8, "currency"@, JsonView::Str(x.currency@), asked);
    let m9 = m8.push(("currency"@, JsonView::Str(x.currency@)));
    lemma_member_put(m9, "cadence"@, JsonView::Str(x.cadence.name()), asked);
    let m10 = m9.push(("cadence"@, JsonView::Str(x.cadence.name())));
    lemma_member_put(
        m10,
        "current_period_start"@,
        instant_document(x.current_period_start),
        asked,
    );
    let m11 = m10.push(("current_period_start"@, instant_document(x.current_period_start)));
    lemma_member_put(m11, "current_period_end"@, instant_document(x.current_period_end), asked);
    let m12 = m11.push(("current_period_end"@, instant_document(x.current_period_end)));
    lemma_member_put(m12, "next_charge_at"@, instant_document(x.next_charge_at), asked);
    let m13 = m12.push(("next_charge_at"@, instant_document(x.next_charge_at)));
    lemma_member_put(m13, "charges_completed"@, JsonView::Int(x.charges_completed as int), asked);
    let m14 = m13.push(("charges_completed"@, JsonView::Int(x.charges_completed as int)));
    lemma_member_put_some(
        m14,
        "last_transaction_id"@,
        some_str_view(opt_text(x.last_transaction_id)),
        asked,
    );
    let m15 = with_some(
        m14,
        "last_transaction_id"@,
        some_str_view(opt_text(x.last_transaction_id)),
    );
    lemma_member_put_some(
        m15,
        "payment_instrument"@,
        some_payment_document(x.payment_instrument),
        asked,
    );
    let m16 = with_some(m15, "payment_instrument"@, some_payment_document(x.payment_instrument));
    lemma_member_put(m16, "created_at"@, instant_document(x.created_at), asked);
    let m17 = m16.push(("created_at"@, instant_document(x.created_at)));
    lemma_member_put(m17, "updated_at"@, instant_document(x.updated_at), asked);
    let m18 = m17.push(("updated_at"@, instant_document(x.updated_at)));
    lemma_member_put_some(m18, "canceled_at"@, some_instant_document(x.canceled_at), asked);
    let m19 = with_some(m18, "canceled_at"@, some_instant_document(x.canceled_at));
    lemma_member_put_some(m19, "paused_at"@, some_instant_document(x.paused_at), asked);
    let m20 = with_some(m19, "paused_at"@, some_instant_document(x.paused_at));
    lemma_member_put(
        m20,
        "failed_renewal_attempts"@,
        JsonView::Int(x.failed_renewal_attempts as int),
        asked,
    );
    let m21 = m20.push(
        ("failed_renewal_attempts"@, JsonView::Int(x.failed_renewal_attempts as int)),
    );
    lemma_member_put_some(m21, "trial_end"@, some_instant_document(x.trial_end), asked);
    let m22 = with_some(m21, "trial_end"@, some_instant_document(x.trial_end));
    reveal_strlit("mandate_jti");
    reveal_strlit("buyer");
    reveal_strlit("ship_to");
    reveal_strlit("items");
    reveal_strlit("currency");
    reveal_strlit("cadence");
    reveal_strlit("current_period_start");
    reveal_strlit("current_period_end");
    reveal_strlit("next_charge_at");
    reveal_strlit("charges_completed");
    reveal_strlit("last_transaction_id");
    reveal_strlit("payment_instrument");
    reveal_strlit("created_at");
    reveal_strlit("updated_at");
    reveal_strlit("canceled_at");
    reveal_strlit("paused_at");
    reveal_strlit("failed_renewal_attempts");
    reveal_strlit("trial_end");
    assert("mandate_jti"@.len() == 11 && "buyer"@.len() == 5);
    assert("mandate_jti"@.len() == 11 && "ship_to"@.len() == 7);
    assert("mandate_jti"@.len() == 11 && "items"@.len() == 5);
    assert("mandate_jti"@.len() == 11 && "currency"@.len() == 8);
    assert("mandate_jti"@.len() == 11 && "cadence"@.len() == 7);
    assert("mandate_jti"@.len() == 11 && "current_period_start"@.len() == 20);
    assert("mandate_jti"@.len() == 11 && "current_period_end"@.len() == 18);
    assert("mandate_jti"@.len() == 11 && "next_charge_at"@.len() == 14);
    assert("mandate_jti"@.len() == 11 && "charges_completed"@.len() == 17);
    assert("mandate_jti"@.len() == 11 && "last_transaction_id"@.len() == 19);
    assert("mandate_jti"@.len() == 11 && "payment_instrument"@.len() == 18);
    assert("mandate_jti"@.len() == 11 && "created_at"@.len() == 10);
    assert("mandate_jti"@.len() == 11 && "updated_at"@.len() == 10);
    assert("mandate_jti"@[0] == 'm' && "canceled_at"@[0] == 'c');
    assert("mandate_jti"@.len() == 11 && "paused_at"@.len() == 9);
    assert("mandate_jti"@.len() == 11 && "failed_renewal_attempts"@.len() == 23);
    assert("mandate_jti"@.len() == 11 && "trial_end"@.len() == 9);
    assert("ship_to"@.len() == 7 && "items"@.len() == 5);
    assert("ship_to"@.len() == 7 && "currency"@.len() == 8);
    assert("ship_to"@[0] == 's' && "cadence"@[0] == 'c');
    assert("ship_to"@.len() == 7 && "current_period_start"@.len() == 20);
    assert("ship_to"@.len() == 7 && "current_period_end"@.len() == 18);
    assert("ship_to"@.len() == 7 && "next_charge_at"@.len() == 14);
    assert("ship_to"@.len() == 7 && "charges_completed"@.len() == 17);
    assert("ship_to"@.len() == 7 && "last_transaction_id"@.len() == 19);
    assert("ship_to"@.len() == 7 && "payment_instrument"@.len() == 18);
    assert("ship_to"@.len() == 7 && "created_at"@.len() == 10);
    assert("ship_to"@.len() == 7 && "updated_at"@.len() == 10);
    assert("ship_to"@.len() == 7 && "canceled_at"@.len() == 11);
    assert("ship_to"@.len() == 7 && "paused_at"@.len() == 9);
    assert("ship_to"@.len() == 7 && "failed_renewal_attempts"@.len() == 23);
    assert("ship_to"@.len() == 7 && "trial_end"@.len() == 9);
    assert("last_transaction_id"@.len() == 19 && "payment_instrument"@.len() == 18);
    assert("last_transaction_id"@.len() == 19 && "created_at"@.len() == 10);
    assert("last_transaction_id"@.len() == 19 && "updated_at"@.len() == 10);
    assert("last_transaction_id"@.len() == 19 && "canceled_at"@.len() == 11);
    assert("last_transaction_id"@.len() == 19 && "paused_at"@.len() == 9);
    assert("last_transaction_id"@.len() == 19 && "failed_renewal_attempts"@.len() == 23);
    assert("last_transaction_id"@.len() == 19 && "trial_end"@.len() == 9);
    assert("payment_instrument"@.len() == 18 && "created_at"@.len() == 10);
    assert("payment_instrument"@.len() == 18 && "updated_at"@.len() == 10);
    assert("payment_instrument"@.len() == 18 && "canceled_at"@.len() == 11);
    assert("payment_instrument"@.len() == 18 && "paused_at"@.len() == 9);
    assert("payment_instrument"@.len() == 18 && "failed_renewal_attempts"@.len() == 23);
    assert("payment_instrument"@.len() == 18 && "trial_end"@.len() == 9);
    assert("canceled_at"@.len() == 11 && "paused_at"@.len() == 9);
    assert("canceled_at"@.len() == 11 && "failed_renewal_attempts"@.len() == 23);
    assert("canceled_at"@.len() == 11 && "trial_end"@.len() == 9);
    assert("paused_at"@.len() == 9 && "failed_renewal_attempts"@.len() == 23);
    assert("paused_at"@[0] == 'p' && "trial_end"@[0] == 't');
    assert(subscription_document(x) == JsonView::Object(m22));
}

/// A service as a document has exactly these members, each with what
/// it stands for.
pub proof fn law_members_of_a_service_document(x: A2aServiceSpec, asked: Seq<char>)
    ensures
        service_document(x).member(asked) == (if asked == "kind"@ {
            Some(JsonView::Str(x.kind.name()))
        } else if asked == "description"@ {
            Some(JsonView::Str(x.description@))
        } else if asked == "params"@ {
            Some(x.params@)
        } else {
            None
        }),
{
    lemma_member_of_none(asked);
    let m0 = Seq::<(Seq<char>, JsonView)>::empty();
    lemma_member_put(m0, "kind"@, JsonView::Str(x.kind.name()), asked);
    let m1 = m0.push(("kind"@, JsonView::Str(x.kind.name())));
    lemma_member_put(m1, "description"@, JsonView::Str(x.description@), asked);
    let m2 = m1.push(("description"@, JsonView::Str(x.description@)));
    lemma_member_put(m2, "params"@, x.params@, asked);
    let m3 = m2.push(("params"@, x.params@));
    assert(service_document(x) == JsonView::Object(m3));
}

/// A quote between agents as a document has exactly these members, each with what
/// it stands for.
pub proof fn law_members_of_a_peer_quote_document(x: PeerQuote, asked: Seq<char>)
    ensures
        peer_quote_document(x).member(asked) == (if asked == "id"@ {
            Some(JsonView::Str(x.id@))
        } else if asked == "status"@ {
            Some(JsonView::Str(x.status.name()))
        } else if asked == "tenant_id"@ {
            Some(JsonView::Str(x.tenant_id@))
        } else if asked == "requester_agent_id"@ {
            Some(JsonView::Str(x.requester_agent_id@))
        } else if asked == "peer_agent_id"@ {
            Some(JsonView::Str(x.peer_agent_id@))
        } else if asked == "service"@ {
            Some(service_document(x.service))
        } else if asked == "price"@ {
            match x.price {
                Some(v) => Some(money_document(v)),
                None => None,
            }
        } else if asked == "created_at"@ {
            Some(JsonView::Str(rfc3339_text(x.created_at@, true)))
        } else if asked == "updated_at"@ {
            Some(JsonView::Str(rfc3339_text(x.updated_at@, true)))
        } else if asked == "expires_at"@ {
            Some(JsonView::Str(rfc3339_text(x.expires_at@, true)))
        } else if asked == "accepted_at"@ {
            match x.accepted_at {
                Some(t) => Some(JsonView::Str(rfc3339_text(t@, true))),
                None => None,
            }
        } else if asked == "charge_transaction_id"@ {
            match x.charge_transaction_id {
                Some(t) => Some(JsonView::Str(t@)),
                None => None,
            }
        } else if asked == "mandate_jti"@ {
            match x.mandate_jti {
                Some(t) => Some(JsonView::Str(t@)),
                None => None,
            }
        } else if asked == "reference_id"@ {
            match x.reference_id {
                Some(t) => Some(JsonView::Str(t@)),
                None => None,
            }
        } else {
            None
        }),
{
    lemma_member_of_none(asked);
    let m0 = Seq::<(Seq<char>, JsonView)>::empty();
    lemma_member_put(m0, "id"@, JsonView::Str(x.id@), asked);
    let m1 = m0.push(("id"@, JsonView::Str(x.id@)));
    lemma_member_put(m1, "status"@, JsonView::Str(x.status.name()), asked);
    let m2 = m1.push(("status"@, JsonView::Str(x.status.name())));
    lemma_member_put(m2, "tenant_id"@, JsonView::Str(x.tenant_id@), asked);
    let m3 = m2.push(("tenant_id"@, JsonView::Str(x.tenant_id@)));
    lemma_member_put(m3, "requester_agent_id"@, JsonView::Str(x.requester_agent_id@), asked);
    let m4 = m3.push(("requester_agent_id"@, JsonView::Str(x.requester_agent_id@)));
    lemma_member_put(m4, "peer_agent_id"@, JsonView::Str(x.peer_agent_id@), asked);
    let m5 = m4.push(("peer_agent_id"@, JsonView::Str(x.peer_agent_id@)));
    lemma_member_put(m5, "service"@, service_document(x.service), asked);
    let m6 = m5.push(("service"@, service_document(x.service)));
    lemma_member_put_some(m6, "price"@, some_money_document(x.price), asked);
    let m7 = with_some(m6, "price"@, some_money_document(x.price));
    lemma_member_put(m7, "created_at"@, instant_document(x.created_at), asked);
    let m8 = m7.push(("created_at"@, instant_document(x.created_at)));
    lemma_member_put(m8, "updated_at"@, instant_document(x.updated_at), asked);
    let m9 = m8.push(("updated_at"@, instant_document(x.updated_at)));
    lemma_member_put(m9, "expires_at"@, instant_document(x.expires_at), asked);
    let m10 = m9.push(("expires_at"@, instant_document(x.expires_at)));
    lemma_member_put_some(m10, "accepted_at"@, some_instant_document(x.accepted_at), asked);
    let m11 = with_some(m10, "accepted_at"@, some_instant_document(x.accepted_at));
    lemma_member_put_some(
        m11,
        "charge_transaction_id"@,
        some_str_view(opt_text(x.charge_transaction_id)),
        asked,
    );
    let m12 = with_some(
        m11,
        "charge_transaction_id"@,
        some_str_view(opt_text(x.charge_transaction_id)),
    );
    lemma_member_put_some(m12, "mandate_jti"@, some_str_view(opt_text(x.mandate_jti)), asked);
    let m13 = with_some(m12, "mandate_jti"@, some_str_view(opt_text(x.mandate_jti)));
    lemma_member_put_some(m13, "reference_id"@, some_str_view(opt_text(x.reference_id)), asked);
    let m14 = with_some(m13, "reference_id"@, some_str_view(opt_text(x.reference_id)));
    reveal_strlit("price");
    reveal_strlit("created_at");
    reveal_strlit("updated_at");
    reveal_strlit("expires_at");
    reveal_strlit("accepted_at");
    reveal_strlit("charge_transaction_id");
    reveal_strlit("mandate_jti");
    reveal_strlit("reference_id");
    assert("price"@.len() == 5 && "created_at"@.len() == 10);
    assert("price"@.len() == 5 && "updated_at"@.len() == 10);
    assert("price"@.len() == 5 && "expires_at"@.len() == 10);
    assert("price"@.len() == 5 && "accepted_at"@.len() == 11);
    assert("price"@.len() == 5 && "charge_transaction_id"@.len() == 21);
    assert("price"@.len() == 5 && "mandate_jti"@.len() == 11);
    assert("price"@.len() == 5 && "reference_id"@.len() == 12);
    assert("accepted_at"@.len() == 11 && "charge_transaction_id"@.len() == 21);
    assert("accepted_at"@[0] == 'a' && "mandate_jti"@[0] == 'm');
    assert("accepted_at"@.len() == 11 && "reference_id"@.len() == 12);
    assert("charge_transaction_id"@.len() == 21 && "mandate_jti"@.len() == 11);
    assert("charge_transaction_id"@.len() == 21 && "reference_id"@.len() == 12);
    assert("mandate_jti"@.len() == 11 && "reference_id"@.len() == 12);
    assert(peer_quote_document(x) == JsonView::Object(m14));
}

/// A receipt as a document has exactly these members, each with what
/// it stands for.
pub proof fn law_members_of_a_receipt_document(x: ReceiptStub, asked: Seq<char>)
    ensures
        receipt_document(x).member(asked) == (if asked == "jti"@ {
            Some(JsonView::Str(x.jti@))
        } else if asked == "kid"@ {
            Some(JsonView::Str(x.kid@))
        } else if asked == "jws"@ {
            Some(JsonView::Str(x.jws@))
        } else if asked == "body_digest"@ {
            Some(JsonView::Str(x.body_digest@))
        } else {
            None
        }),
{
    lemma_member_of_none(asked);
    let m0 = Seq::<(Seq<char>, JsonView)>::empty();
    lemma_member_put(m0, "jti"@, JsonView::Str(x.jti@), asked);
    let m1 = m0.push(("jti"@, JsonView::Str(x.jti@)));
    lemma_member_put(m1, "kid"@, JsonView::Str(x.kid@), asked);
    let m2 = m1.push(("kid"@, JsonView::Str(x.kid@)));
    lemma_member_put(m2, "jws"@, JsonView::Str(x.jws@), asked);
    let m3 = m2.push(("jws"@, JsonView::Str(x.jws@)));
    lemma_member_put(m3, "body_digest"@, JsonView::Str(x.body_digest@), asked);
    let m4 = m3.push(("body_digest"@, JsonView::Str(x.body_digest@)));
    assert(receipt_document(x) == JsonView::Object(m4));
}

/// The envelope of an answer as a document has exactly these members, each with what
/// it stands for.
pub proof fn law_members_of_an_envelope_document(x: ResponseEnvelope, asked: Seq<char>)
    ensures
        envelope_document(x).member(asked) == (if asked == "icp_version"@ {
            Some(JsonView::Str(x.icp_version@))
        } else if asked == "request_id"@ {
            Some(JsonView::Str(x.request_id@))
        } else if asked == "trace_id"@ {
            match x.trace_id {
                Some(t) => Some(JsonView::Str(t@)),
                None => None,
            }
        } else if asked == "issued_at"@ {
            Some(JsonView::Str(rfc3339_text(x.issued_at@, true)))
        } else {
            None
        }),
{
    lemma_member_of_none(asked);
    let m0 = Seq::<(Seq<char>, JsonView)>::empty();
    lemma_member_put(m0, "icp_version"@, JsonView::Str(x.icp_version@), asked);
    let m1 = m0.push(("icp_version"@, JsonView::Str(x.icp_version@)));
    lemma_member_put(m1, "request_id"@, JsonView::Str(x.request_id@), asked);
    let m2 = m1.push(("request_id"@, JsonView::Str(x.request_id@)));
    lemma_member_put_some(m2, "trace_id"@, some_str_view(opt_text(x.trace_id)), asked);
    let m3 = with_some(m2, "trace_id"@, some_str_view(opt_text(x.trace_id)));
    lemma_member_put(m3, "issued_at"@, instant_document(x.issued_at), asked);
    let m4 = m3.push(("issued_at"@, instant_document(x.issued_at)));
    reveal_strlit("trace_id");
    reveal_strlit("issued_at");
    assert("trace_id"@.len() == 8 && "issued_at"@.len() == 9);
    assert(envelope_document(x) == JsonView::Object(m4));
}

/// An answer as a document has exactly these members, each with what
/// it stands for.
pub proof fn law_members_of_an_answer_document(
    x: IntentResponseBody,
    receipt: JsonView,
    asked: Seq<char>,
)
    ensures
        answer_document(x, receipt).member(asked) == (if asked == "intent"@ {
            Some(JsonView::Str(x.intent@))
        } else if asked == "intent_id"@ {
            Some(JsonView::Str(x.intent_id@))
        } else if asked == "transaction"@ {
            Some(transaction_document(x.transaction))
        } else if asked == "order"@ {
            match x.order {
                Some(v) => Some(order_document(v)),
                None => None,
            }
        } else if asked == "subscription"@ {
            match x.subscription {
                Some(v) => Some(subscription_document(v)),
                None => None,
            }
        } else if asked == "peer_quote"@ {
            match x.peer_quote {
                Some(v) => Some(peer_quote_document(v)),
                None => None,
            }
        } else if asked == "receipt"@ {
            Some(receipt)
        } else if asked == "envelope"@ {
            Some(envelope_document(x.envelope))
        } else {
            None
        }),
{
    lemma_member_of_none(asked);
    let m0 = Seq::<(Seq<char>, JsonView)>::empty();
    lemma_member_put(m0, "intent"@, JsonView::Str(x.intent@), asked);
    let m1 = m0.push(("intent"@, JsonView::Str(x.intent@)));
    lemma_member_put(m1, "intent_id"@, JsonView::Str(x.intent_id@), asked);
    let m2 = m1.push(("intent_id"@, JsonView::Str(x.intent_id@)));
    lemma_member_put(m2, "transaction"@, transaction_document(x.transaction), asked);
    let m3 = m2.push(("transaction"@, transaction_document(x.transaction)));
    lemma_member_put_some(m3, "order"@, some_order_document(x.order), asked);
    let m4 = with_some(m3, "order"@, some_order_document(x.order));
    lemma_member_put_some(m4, "subscription"@, some_subscription_document(x.subscription), asked);
    let m5 = with_some(m4, "subscription"@, some_subscription_document(x.subscription));
    lemma_member_put_some(m5, "peer_quote"@, some_peer_quote_document(x.peer_quote), asked);
    let m6 = with_some(m5, "peer_quote"@, some_peer_quote_document(x.peer_quote));
    lemma_member_put(m6, "receipt"@, receipt, asked);
    let m7 = m6.push(("receipt"@, receipt));
    lemma_member_put(m7, "envelope"@, envelope_document(x.envelope), asked);
    let m8 = m7.push(("envelope"@, envelope_document(x.envelope)));
    reveal_strlit("order");
    reveal_strlit("subscription");
    reveal_strlit("peer_quote");
    reveal_strlit("receipt");
    reveal_strlit("envelope");
    assert("order"@.len() == 5 && "subscription"@.len() == 12);
    assert("order"@.len() == 5 && "peer_quote"@.len() == 10);
    assert("order"@.len() == 5 && "receipt"@.len() == 7);
    assert("order"@.len() == 5 && "envelope"@.len() == 8);
    assert("subscription"@.len() == 12 && "peer_quote"@.len() == 10);
    assert("subscription"@.len() == 12 && "receipt"@.len() == 7);
    assert("subscription"@.len() == 12 && "envelope"@.len() == 8);
    assert("peer_quote"@.len() == 10 && "receipt"@.len() == 7);
    assert("peer_quote"@.len() == 10 && "envelope"@.len() == 8);
    assert(answer_document(x, receipt) == JsonView::Object(m8));
}

/// What a receipt says of the intent as a document has exactly these members, each with what
/// it stands for.
pub proof fn law_members_of_receipt_icp_document(x: ReceiptIcp, asked: Seq<char>)
    ensures
        receipt_icp_document(x).member(asked) == (if asked == "version"@ {
            Some(JsonView::Str(x.version@))
        } else if asked == "intent"@ {
            Some(JsonView::Str(x.intent@))
        } else if asked == "transaction_id"@ {
            Some(JsonView::Str(x.transaction_id@))
        } else if asked == "order_id"@ {
            match x.order_id {
                Some(t) => Some(JsonView::Str(t@)),
                None => None,
            }
        } else if asked == "mandate_jti"@ {
            match x.mandate_jti {
                Some(t) => Some(JsonView::Str(t@)),
                None => None,
            }
        } else if asked == "body_digest"@ {
            Some(JsonView::Str(x.body_digest@))
        } else if asked == "body_canonicalization"@ {
            Some(JsonView::Str(x.body_canonicalization@))
        } else {
            None
        }),
{
    lemma_member_of_none(asked);
    let m0 = Seq::<(Seq<char>, JsonView)>::empty();
    lemma_member_put(m0, "version"@, JsonView::Str(x.version@), asked);
    let m1 = m0.push(("version"@, JsonView::Str(x.version@)));
    lemma_member_put(m1, "intent"@, JsonView::Str(x.intent@), asked);
    let m2 = m1.push(("intent"@, JsonView::Str(x.intent@)));
    lemma_member_put(m2, "transaction_id"@, JsonView::Str(x.transaction_id@), asked);
    let m3 = m2.push(("transaction_id"@, JsonView::Str(x.transaction_id@)));
    lemma_member_put_some(m3, "order_id"@, some_str_view(opt_text(x.order_id)), asked);
    let m4 = with_some(m3, "order_id"@, some_str_view(opt_text(x.order_id)));
    lemma_member_put_some(m4, "mandate_jti"@, some_str_view(opt_text(x.mandate_jti)), asked);
    let m5 = with_some(m4, "mandate_jti"@, some_str_view(opt_text(x.mandate_jti)));
    lemma_member_put(m5, "body_digest"@, JsonView::Str(x.body_digest@), asked);
    let m6 = m5.push(("body_digest"@, JsonView::Str(x.body_digest@)));
    lemma_member_put(m6, "body_canonicalization"@, JsonView::Str(x.body_canonicalization@), asked);
    let m7 = m6.push(("body_canonicalization"@, JsonView::Str(x.body_canonicalization@)));
    reveal_strlit("order_id");
    reveal_strlit("mandate_jti");
    reveal_strlit("body_digest");
    reveal_strlit("body_canonicalization");
    assert("order_id"@.len() == 8 && "mandate_jti"@.len() == 11);
    assert("order_id"@.len() == 8 && "body_digest"@.len() == 11);
    assert("order_id"@.len() == 8 && "body_canonicalization"@.len() == 21);
    assert("mandate_jti"@[0] == 'm' && "body_digest"@[0] == 'b');
    assert("mandate_jti"@.len() == 11 && "body_canonicalization"@.len() == 21);
    assert(receipt_icp_document(x) == JsonView::Object(m7));
}

/// The claims of a receipt as a document has exactly these members, each with what
/// it stands for.
pub proof fn law_members_of_claims_document(x: ReceiptClaims, asked: Seq<char>)
    ensures
        claims_document(x).member(asked) == (if asked == "iss"@ {
            Some(JsonView::Str(x.iss@))
        } else if asked == "aud"@ {
            Some(JsonView::Str(x.aud@))
        } else if asked == "iat"@ {
            Some(JsonView::Int(x.iat as int))
        } else if asked == "jti"@ {
            Some(JsonView::Str(x.jti@))
        } else if asked == "icp"@ {
            Some(receipt_icp_document(x.icp))
        } else {
            None
        }),
{
    lemma_member_of_none(asked);
    let m0 = Seq::<(Seq<char>, JsonView)>::empty();
    lemma_member_put(m0, "iss"@, JsonView::Str(x.iss@), asked);
    let m1 = m0.push(("iss"@, JsonView::Str(x.iss@)));
    lemma_member_put(m1, "aud"@, JsonView::Str(x.aud@), asked);
    let m2 = m1.push(("aud"@, JsonView::Str(x.aud@)));
    lemma_member_put(m2, "iat"@, JsonView::Int(x.iat as int), asked);
    let m3 = m2.push(("iat"@, JsonView::Int(x.iat as int)));
    lemma_member_put(m3, "jti"@, JsonView::Str(x.jti@), asked);
    let m4 = m3.push(("jti"@, JsonView::Str(x.jti@)));
    lemma_member_put(m4, "icp"@, receipt_icp_document(x.icp), asked);
    let m5 = m4.push(("icp"@, receipt_icp_document(x.icp)));
    assert(claims_document(x) == JsonView::Object(m5));
}

/// An event as a document has exactly these members, each with what
/// it stands for.
pub proof fn law_members_of_an_event_document(e: Event, asked: Seq<char>)
    ensures
        event_document(e).member(asked) == (if asked == "id"@ {
            Some(JsonView::Str(e.id@))
        } else if asked == "type"@ {
            Some(JsonView::Str(e.event_type@))
        } else if asked == "transaction_id"@ {
            Some(
                match e.transaction_id {
                    Some(t) => JsonView::Str(t@),
                    None => JsonView::Null,
                },
            )
        } else if asked == "order_id"@ {
            Some(
                match e.order_id {
                    Some(t) => JsonView::Str(t@),
                    None => JsonView::Null,
                },
            )
        } else if asked == "agent_id"@ {
            Some(
                match e.agent_id {
                    Some(t) => JsonView::Str(t@),
                    None => JsonView::Null,
                },
            )
        } else if asked == "occurred_at"@ {
            Some(JsonView::Str(rfc3339_text(e.occurred_at@, true)))
        } else if asked == "payload"@ {
            Some(e.payload@)
        } else {
            None
        }),
{
    lemma_member_of_none(asked);
    let m0 = Seq::<(Seq<char>, JsonView)>::empty();
    lemma_member_put(m0, "id"@, JsonView::Str(e.id@), asked);
    let m1 = m0.push(("id"@, JsonView::Str(e.id@)));
    lemma_member_put(m1, "type"@, JsonView::Str(e.event_type@), asked);
    let m2 = m1.push(("type"@, JsonView::Str(e.event_type@)));
    lemma_member_put(m2, "transaction_id"@, opt_str_view(opt_text(e.transaction_id)), asked);
    let m3 = m2.push(("transaction_id"@, opt_str_view(opt_text(e.transaction_id))));
    lemma_member_put(m3, "order_id"@, opt_str_view(opt_text(e.order_id)), asked);
    let m4 = m3.push(("order_id"@, opt_str_view(opt_text(e.order_id))));
    lemma_member_put(m4, "agent_id"@, opt_str_view(opt_text(e.agent_id)), asked);
    let m5 = m4.push(("agent_id"@, opt_str_view(opt_text(e.agent_id))));
    lemma_member_put(m5, "occurred_at"@, instant_document(e.occurred_at), asked);
    let m6 = m5.push(("occurred_at"@, instant_document(e.occurred_at)));
    lemma_member_put(m6, "payload"@, e.payload@, asked);
    let m7 = m6.push(("payload"@, e.payload@));
    assert(event_document(e) == JsonView::Object(m7));
}

/// The references of a transaction are members of one object, each under its own name.
pub proof fn law_references_are_members(t: Table<String>, i: int)
    requires
        0 <= i < t.seq().len(),
        forall|j: int| 0 <= j < i ==> (#[trigger] t.seq()[j]).key@ != t.seq()[i].key@,
    ensures
        refs_document(t).member(t.seq()[i].key@) == Some(JsonView::Str(t.seq()[i].value@)),
{
    let m = refs_document(t)->Object_0;
    assert forall|j: int| 0 <= j < i implies (#[trigger] m[j]).0 != t.seq()[i].key@ by {
        assert(m[j].0 == t.seq()[j].key@);
    }
    lemma_member_found(m, t.seq()[i].key@, 0, i);
}

/// An instrument as a document says which one it is, and holds what it needs.
pub proof fn law_instruments_say_what_they_are(x: PaymentInstrument)
    ensures
        match x {
            PaymentInstrument::Card { token, last_digits, brand } => {
                &&& payment_document(x).member("method"@) == Some(JsonView::Str("card"@))
                &&& token matches Some(t) ==> payment_document(x).member("token"@) == Some(
                    JsonView::Str(t@),
                )
            },
            PaymentInstrument::DelegatedVault { token, provider } => {
                &&& payment_document(x).member("method"@) == Some(
                    JsonView::Str("delegated_vault"@),
                )
                &&& payment_document(x).member("token"@) == Some(JsonView::Str(token@))
            },
            PaymentInstrument::Stablecoin { asset, chain, from, network_memo } => {
                &&& payment_document(x).member("method"@) == Some(JsonView::Str("stablecoin"@))
                &&& payment_document(x).member("asset"@) == Some(JsonView::Str(asset@))
                &&& payment_document(x).member("chain"@) == Some(JsonView::Str(chain@))
                &&& payment_document(x).member("from"@) == Some(JsonView::Str(from@))
            },
            PaymentInstrument::A2A { peer_agent_id, memo } => {
                &&& payment_document(x).member("method"@) == Some(JsonView::Str("a2a"@))
                &&& payment_document(x).member("peer_agent_id"@) == Some(
                    JsonView::Str(peer_agent_id@),
                )
            },
            PaymentInstrument::ExternalAuthorization {
                provider,
                authorization_id,
                instrument_hint,
            } => {
                &&& payment_document(x).member("method"@) == Some(
                    JsonView::Str("external_authorization"@),
                )
                &&& payment_document(x).member("provider"@) == Some(JsonView::Str(provider@))
                &&& payment_document(x).member("authorization_id"@) == Some(
                    JsonView::Str(authorization_id@),
                )
            },
        },
{
    let m = payment_document(x)->Object_0;
    reveal_strlit("method");
    reveal_strlit("token");
    reveal_strlit("asset");
    reveal_strlit("chain");
    reveal_strlit("from");
    reveal_strlit("peer_agent_id");
    reveal_strlit("provider");
    reveal_strlit("authorization_id");
    assert("method"@.len() == 6 && "token"@.len() == 5 && "asset"@.len() == 5 && "chain"@.len() == 5
        && "from"@.len() == 4 && "peer_agent_id"@.len() == 13 && "provider"@.len() == 8
        && "authorization_id"@.len() == 16);
    assert("asset"@[0] == 'a' && "chain"@[0] == 'c');
    lemma_member_found(m, "method"@, 0, 0);
    match x {
        PaymentInstrument::Card { .. } => {
            lemma_member_found(m, "token"@, 0, 1);
        },
        PaymentInstrument::DelegatedVault { .. } => {
            lemma_member_found(m, "token"@, 0, 1);
        },
        PaymentInstrument::Stablecoin { .. } => {
            assert(m[1].0 == "asset"@ && m[2].0 == "chain"@);
            lemma_member_found(m, "asset"@, 0, 1);
            lemma_member_found(m, "chain"@, 0, 2);
            lemma_member_found(m, "from"@, 0, 3);
        },
        PaymentInstrument::A2A { .. } => {
            lemma_member_found(m, "peer_agent_id"@, 0, 1);
        },
        PaymentInstrument::ExternalAuthorization { .. } => {
            lemma_member_found(m, "provider"@, 0, 1);
            lemma_member_found(m, "authorization_id"@, 0, 2);
        },
    }
}

/// What a receipt is signed over holds a receipt that names the key and nothing else.
pub proof fn law_unsigned_receipts_name_only_the_key(kid: Seq<char>, asked: Seq<char>)
    ensures
        unsigned_receipt(kid).member(asked) == (if asked == "jti"@ {
            Some(JsonView::Str(""@))
        } else if asked == "kid"@ {
            Some(JsonView::Str(kid))
        } else if asked == "jws"@ {
            Some(JsonView::Str(""@))
        } else if asked == "body_digest"@ {
            Some(JsonView::Str(""@))
        } else {
            None
        }),
{
    lemma_member_of_none(asked);
    let m0 = Seq::<(Seq<char>, JsonView)>::empty();
    lemma_member_put(m0, "jti"@, JsonView::Str(""@), asked);
    let m1 = m0.push(("jti"@, JsonView::Str(""@)));
    lemma_member_put(m1, "kid"@, JsonView::Str(kid), asked);
    let m2 = m1.push(("kid"@, JsonView::Str(kid)));
    lemma_member_put(m2, "jws"@, JsonView::Str(""@), asked);
    let m3 = m2.push(("jws"@, JsonView::Str(""@)));
    lemma_member_put(m3, "body_digest"@, JsonView::Str(""@), asked);
    let m4 = m3.push(("body_digest"@, JsonView::Str(""@)));
    assert(unsigned_receipt(kid) == JsonView::Object(m4));
}

} // verus!
