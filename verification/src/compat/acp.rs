//! The Agentic Commerce Protocol: checkout sessions on top of transactions.
//!
//! Creating a session quotes, updating it authorizes, completing it buys, and
//! canceling it returns.

use vstd::prelude::*;

use crate::agent::ApiKeyStore;
use crate::compat::{context_for, context_of, key_error, tenant_of, CompatContext, CompatHeaders};
use crate::errors::{ApiError, ErrorView};
use crate::handlers::bearer_of;
use crate::json::{lemma_member_found, ArrayBuilder, Json, JsonView, ObjectBuilder};
use crate::models::{
    Address, AuthorizeParams, Buyer, BuyParams, LineItem, OrderSummary, PaymentInstrument,
    QuoteParams, RequestItem, Totals, Transaction, TransactionState,
};
use crate::service::helpers::blank_buyer;
use crate::service::IcpService;
use crate::text::{join5, opt_text, str_eq};

verus! {

/// The version of the protocol that is spoken.
pub const ACP_API_VERSION: &'static str = "2025-09-29";

// ---------------------------------------------------------------------------
// Requests
// ---------------------------------------------------------------------------

/// The party that buys.
#[derive(Debug)]
pub struct AcpBuyer {
    pub first_name: Option<String>,
    pub last_name: Option<String>,
    pub email: Option<String>,
    pub phone_number: Option<String>,
}

/// A postal address.
#[derive(Debug)]
pub struct AcpAddress {
    pub name: Option<String>,
    pub line_one: Option<String>,
    pub line_two: Option<String>,
    pub city: Option<String>,
    pub state: Option<String>,
    pub postal_code: Option<String>,
    pub country: Option<String>,
}

/// The same party in the data model.
pub open spec fn as_buyer(b: AcpBuyer) -> Buyer {
    Buyer {
        first_name: b.first_name,
        last_name: b.last_name,
        email: b.email,
        phone_number: b.phone_number,
        principal_did: None,
    }
}

/// The same party in the data model.
pub fn map_buyer(b: AcpBuyer) -> (r: Buyer)
    ensures
        r == as_buyer(b),
{
    Buyer {
        first_name: b.first_name,
        last_name: b.last_name,
        email: b.email,
        phone_number: b.phone_number,
        principal_did: None,
    }
}

/// The same address in the data model.
pub open spec fn as_address(a: AcpAddress) -> Address {
    Address {
        name: a.name,
        line_one: a.line_one,
        line_two: a.line_two,
        city: a.city,
        state: a.state,
        postal_code: a.postal_code,
        country: a.country,
        phone_number: None,
        email: None,
    }
}

/// The same address in the data model.
pub fn map_address(a: AcpAddress) -> (r: Address)
    ensures
        r == as_address(a),
{
    Address {
        name: a.name,
        line_one: a.line_one,
        line_two: a.line_two,
        city: a.city,
        state: a.state,
        postal_code: a.postal_code,
        country: a.country,
        phone_number: None,
        email: None,
    }
}

/// One requested position.
#[derive(Debug)]
pub struct AcpItem {
    pub id: String,
    pub quantity: i64,
}

/// A session that is to be created.
#[derive(Debug)]
pub struct CreateSessionBody {
    pub buyer: Option<AcpBuyer>,
    pub items: Vec<AcpItem>,
    pub fulfillment_address: Option<AcpAddress>,
}

/// Changes to a session.
#[derive(Debug)]
pub struct UpdateSessionBody {
    pub buyer: Option<AcpBuyer>,
    pub items: Option<Vec<AcpItem>>,
    pub fulfillment_address: Option<AcpAddress>,
}

/// A session that is to be completed.
#[derive(Debug)]
pub struct CompleteSessionBody {
    pub buyer: Option<AcpBuyer>,
    pub payment_data: Option<AcpPaymentData>,
}

/// A delegated payment.
#[derive(Debug)]
pub struct AcpPaymentData {
    pub token: String,
    pub provider: Option<String>,
    pub billing_address: Option<AcpAddress>,
}

/// Why a caller is refused.
pub open spec fn context_error(
    keys: Map<Seq<char>, crate::agent::ApiKeyInfo>,
    h: CompatHeaders,
) -> Option<ErrorView> {
    if key_error(keys, opt_text(h.authorization)) is Some {
        key_error(keys, opt_text(h.authorization))
    } else if h.version matches Some(v) && v@ != ACP_API_VERSION@ {
        Some(
            ErrorView::InvalidRequest(
                "API-Version `"@ + h.version->0@ + "` not supported by ACP compat; expected `"@
                    + ACP_API_VERSION@ + "`"@,
            ),
        )
    } else {
        None
    }
}

/// The context of a caller. A version is optional, and checked when it is there.
pub fn build_context(headers: CompatHeaders, keys: &ApiKeyStore, fresh_request_id: String) -> (r:
    Result<CompatContext, ApiError>)
    ensures
        match r {
            Ok(c) => context_error(keys@, headers) is None && context_of(
                c,
                keys@[bearer_of(opt_text(headers.authorization))->0],
                "did:stateset:agent:acp-"@,
                headers,
                fresh_request_id,
            ),
            Err(e) => context_error(keys@, headers) == Some(e@),
        },
{
    let tenant = match tenant_of(&headers, keys) {
        Ok(t) => t,
        Err(e) => {
            return Err(e);
        },
    };
    match &headers.version {
        Some(v) => {
            if !str_eq(v.as_str(), ACP_API_VERSION) {
                return Err(
                    ApiError::InvalidRequest(
                        join5(
                            "API-Version `",
                            v.as_str(),
                            "` not supported by ACP compat; expected `",
                            ACP_API_VERSION,
                            "`",
                        ),
                    ),
                );
            }
        },
        None => {},
    }
    Ok(context_for(tenant, "did:stateset:agent:acp-", headers, fresh_request_id))
}

/// Whether the item is the requested position, without a price: the shop prices.
pub open spec fn requests(r: RequestItem, item: AcpItem) -> bool {
    r.sku == item.id && r.quantity == item.quantity && r.unit_price_hint is None
}

/// Whether these are the parameters of the quote for a new session.
pub open spec fn quotes_session(p: QuoteParams, body: CreateSessionBody) -> bool {
    &&& p.items@.len() == body.items@.len()
    &&& forall|i: int|
        0 <= i < body.items@.len() ==> requests(#[trigger] p.items@[i], body.items@[i])
    &&& p.buyer matches Some(b) && match body.buyer {
        Some(given) => b == as_buyer(given),
        None => blank_buyer(b),
    }
    &&& p.ship_to == (match body.fulfillment_address {
        Some(a) => Some(as_address(a)),
        None => None,
    })
    &&& p.discount_codes@.len() == 0
}

/// The parameters of the quote for a new session.
pub fn create_params(body: CreateSessionBody) -> (r: Result<QuoteParams, ApiError>)
    ensures
        match r {
            Ok(p) => body.items@.len() > 0 && quotes_session(p, body),
            Err(e) => body.items@.len() == 0 && e@ == ErrorView::InvalidRequest(
                "checkout_sessions: items required"@,
            ),
        },
{
    if body.items.len() == 0 {
        return Err(
            ApiError::InvalidRequest(String::from_str("checkout_sessions: items required")),
        );
    }
    let mut items: Vec<RequestItem> = Vec::new();
    let mut i: usize = 0;
    while i < body.items.len()
        invariant
            i <= body.items@.len(),
            items@.len() == i,
            forall|j: int| 0 <= j < i ==> requests(#[trigger] items@[j], body.items@[j]),
        decreases body.items@.len() - i,
    {
        items.push(
            RequestItem {
                sku: body.items[i].id.clone(),
                quantity: body.items[i].quantity,
                unit_price_hint: None,
            },
        );
        i += 1;
    }
    let buyer = match body.buyer {
        Some(b) => map_buyer(b),
        None => Buyer::default(),
    };
    let ship_to = match body.fulfillment_address {
        Some(a) => Some(map_address(a)),
        None => None,
    };
    Ok(QuoteParams { items, buyer: Some(buyer), ship_to, discount_codes: Vec::new() })
}

/// The parameters of the authorization that an update of a session stands for.
pub fn update_params(id: String, body: UpdateSessionBody) -> (p: AuthorizeParams)
    ensures
        p.transaction_id == id,
        p.buyer == (match body.buyer {
            Some(b) => Some(as_buyer(b)),
            None => None,
        }),
        p.ship_to == (match body.fulfillment_address {
            Some(a) => Some(as_address(a)),
            None => None,
        }),
        p.bill_to is None,
{
    let buyer = match body.buyer {
        Some(b) => Some(map_buyer(b)),
        None => None,
    };
    let ship_to = match body.fulfillment_address {
        Some(a) => Some(map_address(a)),
        None => None,
    };
    AuthorizeParams { transaction_id: id, buyer, ship_to, bill_to: None }
}

/// The parameters of the purchase that completes a session: the caller hands over
/// a token of a vault.
pub fn complete_params(id: String, body: CompleteSessionBody) -> (p: BuyParams)
    ensures
        p.transaction_id == id,
        match body.payment_data {
            Some(d) => p.payment == (PaymentInstrument::DelegatedVault {
                token: d.token,
                provider: d.provider,
            }),
            None => p.payment matches PaymentInstrument::DelegatedVault { token, provider } && token@
                == "acp_unknown"@ && provider is None,
        },
{
    let payment = match body.payment_data {
        Some(d) => PaymentInstrument::DelegatedVault { token: d.token, provider: d.provider },
        None => PaymentInstrument::DelegatedVault {
            token: String::from_str("acp_unknown"),
            provider: None,
        },
    };
    BuyParams { transaction_id: id, payment }
}

// ---------------------------------------------------------------------------
// Responses
// ---------------------------------------------------------------------------

/// A session.
#[derive(Debug)]
pub struct SessionView {
    pub id: String,
    pub status: &'static str,
    pub currency: String,
    pub buyer: Buyer,
    pub line_items: Vec<SessionLineItem>,
    pub fulfillment_address: Option<Address>,
    pub totals: Vec<SessionTotal>,
    pub messages: Vec<Json>,
    pub payment_provider: Json,
    pub order: Option<OrderSummary>,
    pub links: Vec<Json>,
}

/// One position of a session.
#[derive(Debug)]
pub struct SessionLineItem {
    pub id: String,
    /// The item and its quantity.
    pub item: Json,
    pub base_amount: i64,
    pub discount: i64,
    pub subtotal: i64,
    pub tax: i64,
    pub total: i64,
}

/// One sum of a session.
#[derive(Debug)]
pub struct SessionTotal {
    pub type_: &'static str,
    pub display_text: &'static str,
    pub amount: i64,
}

/// The status of a session for the state of its transaction.
pub open spec fn session_status(state: TransactionState) -> Seq<char> {
    match state {
        TransactionState::Draft | TransactionState::Quoted => "not_ready_for_payment"@,
        TransactionState::Authorized => "ready_for_payment"@,
        TransactionState::Completed
        | TransactionState::Captured
        | TransactionState::Fulfilled => "completed"@,
        TransactionState::Reversed
        | TransactionState::Canceled
        | TransactionState::Expired => "canceled"@,
    }
}

/// The status of a session for the state of its transaction.
pub fn status_for(state: TransactionState) -> (r: &'static str)
    ensures
        r@ == session_status(state),
{
    match state {
        TransactionState::Draft | TransactionState::Quoted => "not_ready_for_payment",
        TransactionState::Authorized => "ready_for_payment",
        TransactionState::Completed
        | TransactionState::Captured
        | TransactionState::Fulfilled => "completed",
        TransactionState::Reversed
        | TransactionState::Canceled
        | TransactionState::Expired => "canceled",
    }
}

/// An item with its quantity.
pub open spec fn item_view(sku: Seq<char>, quantity: int) -> JsonView {
    JsonView::Object(
        Seq::empty().push(("id"@, JsonView::Str(sku))).push(("quantity"@, JsonView::Int(quantity))),
    )
}

/// Whether the position shows the line of the transaction.
pub open spec fn shows_line(s: SessionLineItem, li: LineItem) -> bool {
    &&& s.id == li.id
    &&& s.item@ == item_view(li.sku@, li.quantity as int)
    &&& s.base_amount == li.unit_price.amount_minor
    &&& s.discount == 0
    &&& s.subtotal == li.subtotal.amount_minor
    &&& s.tax == (match li.tax {
        Some(m) => m.amount_minor,
        None => 0,
    })
    &&& s.total == li.total.amount_minor
}

/// The position that shows a line of a transaction.
pub fn map_line_item(li: &LineItem) -> (r: SessionLineItem)
    ensures
        shows_line(r, *li),
{
    let item = ObjectBuilder::new().put_str("id", li.sku.as_str()).put(
        "quantity",
        Json::Int(li.quantity),
    ).build();
    SessionLineItem {
        id: li.id.clone(),
        item,
        base_amount: li.unit_price.amount_minor,
        discount: 0,
        subtotal: li.subtotal.amount_minor,
        tax: match &li.tax {
            Some(m) => m.amount_minor,
            None => 0,
        },
        total: li.total.amount_minor,
    }
}

/// A sum, as its type, its text and its amount.
pub open spec fn total_view(t: SessionTotal) -> (Seq<char>, Seq<char>, int) {
    (t.type_@, t.display_text@, t.amount as int)
}

/// The sums of a session: the subtotal, the tax and the total, as far as they are
/// there.
pub open spec fn session_totals(t: Totals) -> Seq<(Seq<char>, Seq<char>, int)> {
    let a = match t.subtotal {
        Some(m) => Seq::empty().push(("items_base_amount"@, "Subtotal"@, m.amount_minor as int)),
        None => Seq::empty(),
    };
    let b = match t.tax {
        Some(m) => a.push(("tax"@, "Tax"@, m.amount_minor as int)),
        None => a,
    };
    match t.total {
        Some(m) => b.push(("total"@, "Total"@, m.amount_minor as int)),
        None => b,
    }
}

/// The models of the sums.
pub open spec fn total_views(s: Seq<SessionTotal>) -> Seq<(Seq<char>, Seq<char>, int)> {
    s.map_values(|t: SessionTotal| total_view(t))
}

fn put_total(
    s: Vec<SessionTotal>,
    type_: &'static str,
    display_text: &'static str,
    amount: i64,
) -> (r: Vec<SessionTotal>)
    ensures
        total_views(r@) == total_views(s@).push((type_@, display_text@, amount as int)),
{
    let mut r = s;
    r.push(SessionTotal { type_, display_text, amount });
    assert(total_views(r@) =~= total_views(s@).push((type_@, display_text@, amount as int)));
    r
}

/// The sums of a session.
pub fn build_totals(totals: &Totals) -> (r: Vec<SessionTotal>)
    ensures
        total_views(r@) == session_totals(*totals),
{
    let mut out: Vec<SessionTotal> = Vec::new();
    assert(total_views(out@) =~= Seq::<(Seq<char>, Seq<char>, int)>::empty());
    match &totals.subtotal {
        Some(m) => {
            out = put_total(out, "items_base_amount", "Subtotal", m.amount_minor);
        },
        None => {},
    }
    match &totals.tax {
        Some(m) => {
            out = put_total(out, "tax", "Tax", m.amount_minor);
        },
        None => {},
    }
    match &totals.total {
        Some(m) => {
            out = put_total(out, "total", "Total", m.amount_minor);
        },
        None => {},
    }
    out
}

/// How sessions are paid.
pub open spec fn payment_provider_view() -> JsonView {
    JsonView::Object(
        Seq::empty().push(
            ("provider"@, JsonView::Str("stateset"@)),
        ).push(
            ("supported_payment_methods"@, JsonView::Array(
                Seq::empty().push(JsonView::Str("card"@)).push(JsonView::Str("delegated_vault"@)),
            )),
        ),
    )
}

/// How sessions are paid.
fn payment_provider() -> (r: Json)
    ensures
        r@ == payment_provider_view(),
{
    ObjectBuilder::new().put_str(
        "provider",
        "stateset",
    ).put(
        "supported_payment_methods",
        ArrayBuilder::new().put_str("card").put_str("delegated_vault").build(),
    ).build()
}

/// Whether the session shows the transaction.
pub open spec fn shows_session(v: SessionView, t: Transaction, order: Option<OrderSummary>) -> bool {
    &&& v.id == t.id
    &&& v.status@ == session_status(t.state)
    &&& v.currency == t.currency
    &&& v.buyer == t.buyer
    &&& v.line_items@.len() == t.line_items@.len()
    &&& forall|i: int|
        0 <= i < t.line_items@.len() ==> shows_line(#[trigger] v.line_items@[i], t.line_items@[i])
    &&& v.fulfillment_address == t.ship_to
    &&& total_views(v.totals@) == session_totals(t.totals)
    &&& v.messages@.len() == 0
    &&& v.payment_provider@ == payment_provider_view()
    &&& v.order == order
    &&& v.links@.len() == 0
}

/// The session that shows a transaction, with its order when there is one.
pub fn session_view(txn: &Transaction, order: Option<OrderSummary>) -> (v: SessionView)
    ensures
        shows_session(v, *txn, order),
{
    let mut line_items: Vec<SessionLineItem> = Vec::new();
    let mut i: usize = 0;
    while i < txn.line_items.len()
        invariant
            i <= txn.line_items@.len(),
            line_items@.len() == i,
            forall|j: int|
                0 <= j < i ==> shows_line(#[trigger] line_items@[j], txn.line_items@[j]),
        decreases txn.line_items@.len() - i,
    {
        line_items.push(map_line_item(&txn.line_items[i]));
        i += 1;
    }
    SessionView {
        id: txn.id.clone(),
        status: status_for(txn.state),
        currency: txn.currency.clone(),
        buyer: txn.buyer.clone(),
        line_items,
        fulfillment_address: txn.ship_to.clone(),
        totals: build_totals(&txn.totals),
        messages: Vec::new(),
        payment_provider: payment_provider(),
        order,
        links: Vec::new(),
    }
}

impl IcpService {
    /// The session with this id.
    pub fn acp_session(&self, id: &str) -> (r: Result<SessionView, ApiError>)
        ensures
            match r {
                Ok(v) => self.transactions@.contains_key(id@) && shows_session(
                    v,
                    self.transactions@[id@],
                    None,
                ),
                Err(e) => !self.transactions@.contains_key(id@) && e@
                    == ErrorView::ResourceNotFound("checkout_session "@ + id@),
            },
    {
        match self.session_transaction(id, "checkout_session ") {
            Ok(t) => Ok(session_view(&t, None)),
            Err(e) => Err(e),
        }
    }
}

// ---------------------------------------------------------------------------
// Laws
// ---------------------------------------------------------------------------

/// A session counts as completed exactly when its transaction was paid, and as
/// canceled exactly when it ended otherwise.
pub proof fn law_session_status_follows_the_transaction(state: TransactionState)
    ensures
        session_status(state) == "completed"@ <==> (state is Captured || state is Fulfilled
            || state is Completed),
        session_status(state) == "canceled"@ <==> (state is Reversed || state is Canceled
            || state is Expired),
{
    reveal_strlit("not_ready_for_payment");
    reveal_strlit("ready_for_payment");
    reveal_strlit("completed");
    reveal_strlit("canceled");
    assert("not_ready_for_payment"@.len() == 21 && "ready_for_payment"@.len() == 17);
    assert("completed"@.len() == 9 && "canceled"@.len() == 8);
}

/// A session asks for exactly its items, in order and at the prices of the shop, for the buyer
/// and the address that it gives.
pub proof fn law_sessions_ask_for_their_items(p: QuoteParams, body: CreateSessionBody, i: int)
    requires
        quotes_session(p, body),
        0 <= i < body.items@.len(),
    ensures
        p.items@.len() == body.items@.len(),
        p.items@[i].sku == body.items@[i].id && p.items@[i].quantity
            == body.items@[i].quantity && p.items@[i].unit_price_hint is None,
        body.buyer matches Some(b) ==> (p.buyer matches Some(x) && x.first_name == b.first_name
            && x.last_name == b.last_name && x.email == b.email && x.phone_number
            == b.phone_number),
        body.buyer is None ==> (p.buyer matches Some(x) && x.first_name is None && x.email is None),
        body.fulfillment_address matches Some(a) ==> p.ship_to == Some(as_address(a)),
        body.fulfillment_address is None ==> p.ship_to is None,
        p.discount_codes@.len() == 0,
{
    assert(requests(p.items@[i], body.items@[i]));
}

/// Parties are taken over field by field.
pub proof fn law_session_parties_are_taken_over(b: AcpBuyer, a: AcpAddress)
    ensures
        as_buyer(b).first_name == b.first_name && as_buyer(b).last_name == b.last_name && as_buyer(
            b,
        ).email == b.email && as_buyer(b).phone_number == b.phone_number && as_buyer(
            b,
        ).principal_did is None,
        as_address(a).name == a.name && as_address(a).line_one == a.line_one && as_address(
            a,
        ).line_two == a.line_two && as_address(a).city == a.city && as_address(a).state == a.state
            && as_address(a).postal_code == a.postal_code && as_address(a).country == a.country,
        as_address(a).phone_number is None && as_address(a).email is None,
{
}

/// A session can be paid exactly once its transaction is authorized, and not before it is.
pub proof fn law_authorized_sessions_can_be_paid(state: TransactionState)
    ensures
        session_status(state) == "ready_for_payment"@ <==> state is Authorized,
        session_status(state) == "not_ready_for_payment"@ <==> state is Draft || state is Quoted,
{
    reveal_strlit("ready_for_payment");
    reveal_strlit("not_ready_for_payment");
    reveal_strlit("completed");
    reveal_strlit("canceled");
    assert("ready_for_payment"@.len() == 17 && "not_ready_for_payment"@.len() == 21
        && "completed"@.len() == 9 && "canceled"@.len() == 8);
}

/// A session shows its transaction as it is: the lines with their amounts, the sums that it
/// has, its parties and its order.
pub proof fn law_sessions_show_their_transaction(
    v: SessionView,
    t: Transaction,
    order: Option<OrderSummary>,
    i: int,
)
    requires
        shows_session(v, t, order),
        0 <= i < t.line_items@.len(),
    ensures
        v.id == t.id && v.currency == t.currency && v.buyer == t.buyer && v.fulfillment_address
            == t.ship_to && v.order == order,
        v.status@ == session_status(t.state),
        total_views(v.totals@) == session_totals(t.totals),
        v.messages@.len() == 0 && v.links@.len() == 0,
        v.line_items@.len() == t.line_items@.len(),
        ({
            let s = v.line_items@[i];
            let li = t.line_items@[i];
            &&& s.id == li.id && s.base_amount == li.unit_price.amount_minor && s.subtotal
                == li.subtotal.amount_minor && s.total == li.total.amount_minor && s.discount == 0
            &&& li.tax matches Some(m) ==> s.tax == m.amount_minor
            &&& li.tax is None ==> s.tax == 0
            &&& s.item@.member("id"@) == Some(JsonView::Str(li.sku@))
            &&& s.item@.member("quantity"@) == Some(JsonView::Int(li.quantity as int))
        }),
        t.totals.total matches Some(m) ==> session_totals(t.totals).contains(
            ("total"@, "Total"@, m.amount_minor as int),
        ),
        t.totals.tax matches Some(m) ==> session_totals(t.totals).contains(
            ("tax"@, "Tax"@, m.amount_minor as int),
        ),
        t.totals.subtotal matches Some(m) ==> session_totals(t.totals).contains(
            ("items_base_amount"@, "Subtotal"@, m.amount_minor as int),
        ),
{
    assert(shows_line(v.line_items@[i], t.line_items@[i]));
    let li = t.line_items@[i];
    let m = item_view(li.sku@, li.quantity as int)->Object_0;
    reveal_strlit("id");
    reveal_strlit("quantity");
    assert("id"@.len() == 2 && "quantity"@.len() == 8);
    lemma_member_found(m, "id"@, 0, 0);
    lemma_member_found(m, "quantity"@, 0, 1);
    let all = session_totals(t.totals);
    let a: int = if t.totals.subtotal is Some {
        1
    } else {
        0
    };
    let b: int = if t.totals.tax is Some {
        a + 1
    } else {
        a
    };
    if t.totals.subtotal is Some {
        assert(all[0] == ("items_base_amount"@, "Subtotal"@, t.totals.subtotal->0.amount_minor
            as int));
    }
    if t.totals.tax is Some {
        assert(all[a] == ("tax"@, "Tax"@, t.totals.tax->0.amount_minor as int));
    }
    if t.totals.total is Some {
        assert(all[b] == ("total"@, "Total"@, t.totals.total->0.amount_minor as int));
    }
}

} // verus!
