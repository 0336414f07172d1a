//! The intents that leave a trail on a transaction without moving money:
//! `negotiate` and `confirm_receipt`.

use vstd::prelude::*;

use crate::errors::{ApiError, ErrorView};
use crate::json::{json_text, lemma_member_found, opt_str_view, Json, JsonView, ObjectBuilder};
use crate::models::{
    ConfirmReceiptParams, DiscountRequest, Money, NegotiateParams, Totals, Transaction,
    TransactionState,
};
use crate::numerals::{
    digits_value, is_digits, lemma_nat_text_round_trip, nat_text, nat_to_padded, padded_text,
};
use crate::pricing::{total_amount_minor, total_of};
use crate::service::helpers::{
    missing, outcome_of, owns_transaction, transaction_for_tenant, transaction_only,
};
use crate::service::{IcpService, IntentInput, Outcome};
use crate::table::{distinct_keys, key_at, lemma_map_of_keys, map_of, Entry, Table};
use crate::text::{has_prefix, join2, join3, opt_text, starts_with};
use crate::time::{rfc3339, rfc3339_text, Timestamp};

verus! {

// ---------------------------------------------------------------------------
// The trail of offers
// ---------------------------------------------------------------------------

/// The keys under which offers are kept.
pub open spec fn offer_keys(refs: Map<Seq<char>, String>) -> Set<Seq<char>> {
    refs.dom().filter(|k: Seq<char>| has_prefix(k, "negotiation_"@))
}

/// The key of the offer with this number.
pub open spec fn offer_key(n: nat) -> Seq<char> {
    "negotiation_"@ + padded_text(n, 3)
}

/// How many of the entries are offers.
spec fn count_offers(s: Seq<Entry<String>>, n: int) -> nat
    decreases n,
{
    if n <= 0 {
        0
    } else {
        count_offers(s, n - 1) + if has_prefix(s[n - 1].key@, "negotiation_"@) {
            1nat
        } else {
            0nat
        }
    }
}

proof fn lemma_count_prefix(s: Seq<Entry<String>>, t: Seq<Entry<String>>, n: int)
    requires
        0 <= n <= s.len(),
        n <= t.len(),
        s.take(n) == t.take(n),
    ensures
        count_offers(s, n) == count_offers(t, n),
    decreases n,
{
    if n > 0 {
        assert(s[n - 1] == s.take(n)[n - 1]);
        assert(t[n - 1] == t.take(n)[n - 1]);
        assert(s.take(n - 1) =~= s.take(n).take(n - 1));
        assert(t.take(n - 1) =~= t.take(n).take(n - 1));
        lemma_count_prefix(s, t, n - 1);
    }
}

proof fn lemma_count_offers(s: Seq<Entry<String>>)
    requires
        distinct_keys(s),
    ensures
        offer_keys(map_of(s)).finite(),
        count_offers(s, s.len() as int) == offer_keys(map_of(s)).len(),
    decreases s.len(),
{
    if s.len() == 0 {
        assert(offer_keys(map_of(s)) =~= Set::<Seq<char>>::empty());
    } else {
        let rest = s.drop_last();
        let k = s.last().key@;
        lemma_count_offers(rest);
        lemma_map_of_keys(rest, k);
        assert(!map_of(rest).contains_key(k)) by {
            if exists|i: int| key_at(rest, i, k) {
                let i = choose|i: int| key_at(rest, i, k);
                assert(s[i].key@ == s[s.len() - 1].key@);
            }
        }
        assert(s.take(rest.len() as int) =~= rest.take(rest.len() as int));
        lemma_count_prefix(s, rest, rest.len() as int);
        if has_prefix(k, "negotiation_"@) {
            assert(offer_keys(map_of(s)) =~= offer_keys(map_of(rest)).insert(k));
        } else {
            assert(offer_keys(map_of(s)) =~= offer_keys(map_of(rest)));
        }
    }
}

/// How many offers are on the trail.
fn offers_made(refs: &Table<String>) -> (r: usize)
    ensures
        r == offer_keys(refs@).len(),
{
    let n: usize = refs.len();
    let mut count: usize = 0;
    let mut i: usize = 0;
    while i < n
        invariant
            i <= n == refs.seq().len(),
            count <= i,
            count == count_offers(refs.seq(), i as int),
        decreases n - i,
    {
        if starts_with(refs.entry_at(i).key.as_str(), "negotiation_") {
            count += 1;
        }
        i += 1;
    }
    proof {
        lemma_count_offers(refs.seq());
    }
    count
}

// ---------------------------------------------------------------------------
// negotiate
// ---------------------------------------------------------------------------

/// A part of an amount in ten-thousandths, rounded to the nearest whole, and up in the
/// middle between two.
pub open spec fn part_of(amount: int, basis_points: int) -> int {
    (amount * basis_points + 5_000) / 10_000
}

/// The total that is offered: the proposed one, or what the discount leaves.
pub open spec fn offered_total(t: Transaction, params: NegotiateParams) -> int {
    match params.proposed_total {
        Some(m) => m.amount_minor as int,
        None => match params.discount {
            Some(d) => part_of(total_of(t.totals), d.kept_basis_points as int),
            None => total_of(t.totals),
        },
    }
}

/// Why an offer cannot be made.
pub open spec fn negotiate_error(
    m: Map<Seq<char>, Transaction>,
    params: NegotiateParams,
    tenant: Seq<char>,
) -> Option<ErrorView> {
    let id = params.transaction_id@;
    if params.proposed_total is None && params.discount is None {
        Some(
            ErrorView::InvalidRequest(
                "negotiate: either `proposed_total` or `discount_pct` is required"@,
            ),
        )
    } else if params.discount matches Some(d) && !d.within_bounds {
        Some(
            ErrorView::InvalidRequest(
                "negotiate.discount_pct must be in [0.0, 90.0], got "@ + params.discount->0.shown@,
            ),
        )
    } else if !owns_transaction(m, id, tenant) {
        Some(missing("transaction"@, id))
    } else if !(m[id].state is Quoted) {
        Some(
            ErrorView::PreconditionFailed(
                "negotiate: transaction in state "@ + m[id].state.label()
                    + " cannot be re-negotiated; only `quoted` is open to counter-offers"@,
            ),
        )
    } else if params.proposed_total matches Some(p) && p.amount_minor < 0 {
        Some(
            ErrorView::InvalidRequest(
                "negotiate.proposed_total.amount_minor must be non-negative"@,
            ),
        )
    } else {
        None
    }
}

/// The percentage of an offer, or null.
pub open spec fn percent_view(discount: Option<DiscountRequest>) -> JsonView {
    match discount {
        Some(d) => JsonView::Decimal(d.percent@),
        None => JsonView::Null,
    }
}

/// The record of an offer.
pub open spec fn offer_record(
    t: Transaction,
    params: NegotiateParams,
    now: int,
    agent: Seq<char>,
) -> JsonView {
    JsonView::Object(
        Seq::empty().push(("from_minor"@, JsonView::Int(total_of(t.totals)))).push(
            ("to_minor"@, JsonView::Int(offered_total(t, params))),
        ).push(("currency"@, JsonView::Str(t.currency@))).push(
            ("discount_pct"@, percent_view(params.discount)),
        ).push(("message"@, opt_str_view(opt_text(params.message)))).push(
            ("at"@, JsonView::Str(rfc3339_text(now, false))),
        ).push(("agent_id"@, JsonView::Str(agent))),
    )
}

/// Whether `t` is the transaction after the offer: with the new total, and with
/// one more record on its trail.
pub open spec fn renegotiated(
    before: Transaction,
    t: Transaction,
    params: NegotiateParams,
    now: Timestamp,
    agent: Seq<char>,
) -> bool {
    &&& t == (Transaction {
        totals: Totals { total: t.totals.total, ..before.totals },
        external_refs: t.external_refs,
        updated_at: now,
        ..before
    })
    &&& t.totals.total matches Some(m) && m.is_plain(offered_total(before, params), before.currency@)
    &&& {
        let key = offer_key(offer_keys(before.external_refs@).len());
        &&& t.external_refs@ == before.external_refs@.insert(key, t.external_refs@[key])
        &&& t.external_refs@[key]@ == json_text(offer_record(before, params, now@, agent))
    }
}

fn part(amount: i64, basis_points: i64) -> (r: i64)
    requires
        0 <= basis_points <= 10_000,
    ensures
        r == part_of(amount as int, basis_points as int),
{
    proof {
        let a = amount as int;
        let b = basis_points as int;
        assert(0 <= a ==> 0 <= a * b <= a * 10_000) by (nonlinear_arith)
            requires
                0 <= b <= 10_000,
        ;
        assert(a <= 0 ==> a * 10_000 <= a * b <= 0) by (nonlinear_arith)
            requires
                0 <= b <= 10_000,
        ;
    }
    let scaled: i128 = amount as i128 * basis_points as i128 + 5_000;
    if scaled >= 0 {
        (scaled as u128 / 10_000) as i64
    } else {
        let below: u128 = (-scaled) as u128;
        let up: u128 = (below + 9_999) / 10_000;
        (-(up as i128)) as i64
    }
}

fn write_offer(
    from: i64,
    to: i64,
    currency: &str,
    params: &NegotiateParams,
    now: Timestamp,
    agent: &str,
) -> (r: String)
    ensures
        r@ == json_text(
            JsonView::Object(
                Seq::empty().push(("from_minor"@, JsonView::Int(from as int))).push(
                    ("to_minor"@, JsonView::Int(to as int)),
                ).push(("currency"@, JsonView::Str(currency@))).push(
                    ("discount_pct"@, percent_view(params.discount)),
                ).push(("message"@, opt_str_view(opt_text(params.message)))).push(
                    ("at"@, JsonView::Str(rfc3339_text(now@, false))),
                ).push(("agent_id"@, JsonView::Str(agent@))),
            ),
        ),
{
    let percent = match &params.discount {
        Some(d) => Json::Decimal(d.percent.clone()),
        None => Json::Null,
    };
    let at = rfc3339(now, false);
    let record = ObjectBuilder::new().put("from_minor", Json::Int(from)).put(
        "to_minor",
        Json::Int(to),
    ).put_str("currency", currency).put("discount_pct", percent).put_opt_str(
        "message",
        &params.message,
    ).put_str("at", at.as_str()).put_str("agent_id", agent).build();
    record.to_text()
}

/// What a counter-offer does.
pub open spec fn negotiate_done(
    before: IcpService,
    after: IcpService,
    input: IntentInput,
    params: NegotiateParams,
    now: Timestamp,
    r: Result<Outcome, ApiError>,
) -> bool {
    &&& after.wf()
    &&& after == (IcpService { transactions: after.transactions, ..before })
    &&& {
        let m = before.transactions@;
        let id = params.transaction_id@;
        let error = negotiate_error(m, params, input.tenant.tenant_id@);
        match r {
            Ok(o) => {
                &&& error is None
                &&& after.transactions@ == m.insert(id, after.transactions@[id])
                &&& renegotiated(
                    m[id],
                    after.transactions@[id],
                    params,
                    now,
                    input.agent.raw@,
                )
                &&& o.transaction.same_as(after.transactions@[id])
                &&& transaction_only(o)
            },
            Err(e) => error == Some(e@) && after.transactions@ == m,
        }
    }
}

impl IcpService {
    /// Puts a counter-offer on a quoted transaction and records it on its trail.
    pub fn do_negotiate(&mut self, input: &IntentInput, params: NegotiateParams, now: Timestamp) -> (r:
        Result<Outcome, ApiError>)
        requires
            old(self).wf(),
            params.discount matches Some(d) ==> d.wf(),
        ensures
            negotiate_done(*old(self), *final(self), *input, params, now, r),
    {
        let ghost m = self.transactions@;
        if params.proposed_total.is_none() && params.discount.is_none() {
            return Err(
                ApiError::InvalidRequest(
                    String::from_str(
                        "negotiate: either `proposed_total` or `discount_pct` is required",
                    ),
                ),
            );
        }
        match &params.discount {
            Some(d) => {
                if !d.within_bounds {
                    return Err(
                        ApiError::InvalidRequest(
                            join2(
                                "negotiate.discount_pct must be in [0.0, 90.0], got ",
                                d.shown.as_str(),
                            ),
                        ),
                    );
                }
            },
            None => {},
        }
        let id = params.transaction_id.as_str();
        let from: i64 = match transaction_for_tenant(
            &self.transactions,
            id,
            input.tenant.tenant_id.as_str(),
        ) {
            Ok(t) => {
                if t.state != TransactionState::Quoted {
                    return Err(
                        ApiError::PreconditionFailed(
                            join3(
                                "negotiate: transaction in state ",
                                t.state.debug_name(),
                                " cannot be re-negotiated; only `quoted` is open to counter-offers",
                            ),
                        ),
                    );
                }
                total_amount_minor(&t.totals)
            },
            Err(e) => {
                return Err(e);
            },
        };
        let to: i64 = match &params.proposed_total {
            Some(p) => {
                if p.amount_minor < 0 {
                    return Err(
                        ApiError::InvalidRequest(
                            String::from_str(
                                "negotiate.proposed_total.amount_minor must be non-negative",
                            ),
                        ),
                    );
                }
                p.amount_minor
            },
            None => match &params.discount {
                Some(d) => part(from, d.kept_basis_points),
                None => from,
            },
        };
        match self.take_transaction(id) {
            Some(mut t) => {
                let ghost before = t;
                let entry = write_offer(
                    from,
                    to,
                    t.currency.as_str(),
                    &params,
                    now,
                    input.agent.raw.as_str(),
                );
                let number = nat_to_padded(offers_made(&t.external_refs) as u128, 3);
                let key = join2("negotiation_", number.as_str());
                t.totals.total = Some(Money::new(to, t.currency.as_str()));
                t.external_refs.insert(key, entry);
                t.updated_at = now;
                assert(t.external_refs@ =~= before.external_refs@.insert(
                    key@,
                    t.external_refs@[key@],
                ));
                let shown = self.keep_transaction(t);
                assert(self.transactions@ =~= m.insert(id@, t));
                Ok(outcome_of(shown))
            },
            None => Err(ApiError::ResourceNotFound(join3("transaction", " ", id))),
        }
    }
}

// ---------------------------------------------------------------------------
// confirm_receipt
// ---------------------------------------------------------------------------

/// Why the receipt of a transaction cannot be confirmed.
pub open spec fn confirm_error(
    m: Map<Seq<char>, Transaction>,
    id: Seq<char>,
    tenant: Seq<char>,
) -> Option<ErrorView> {
    if !owns_transaction(m, id, tenant) {
        Some(missing("transaction"@, id))
    } else if !(m[id].state is Captured || m[id].state is Fulfilled || m[id].state is Completed) {
        Some(
            ErrorView::PreconditionFailed(
                "confirm_receipt: transaction in state "@ + m[id].state.label()
                    + " cannot be confirmed; payment must complete first"@,
            ),
        )
    } else if m[id].external_refs@.contains_key("receipt_confirmed_at"@) {
        Some(
            ErrorView::PreconditionFailed(
                "confirm_receipt: this transaction's receipt has already been confirmed"@,
            ),
        )
    } else {
        None
    }
}

/// Whether the two hold the same texts.
pub open spec fn same_texts(a: Map<Seq<char>, String>, b: Map<Seq<char>, Seq<char>>) -> bool {
    a.map_values(|s: String| s@) == b
}

/// The texts of the references once the receipt is confirmed: when, by whom, and
/// the note when there is one.
pub open spec fn confirmed_refs(
    refs: Map<Seq<char>, String>,
    note: Option<String>,
    now: int,
    agent: Seq<char>,
) -> Map<Seq<char>, Seq<char>> {
    let stamped = refs.map_values(|s: String| s@).insert(
        "receipt_confirmed_at"@,
        rfc3339_text(now, false),
    ).insert("receipt_confirmed_by"@, agent);
    match note {
        Some(n) => stamped.insert("receipt_note"@, n@),
        None => stamped,
    }
}

/// Whether `t` is the transaction after its receipt was confirmed.
pub open spec fn receipt_confirmed(
    before: Transaction,
    t: Transaction,
    note: Option<String>,
    now: Timestamp,
    agent: Seq<char>,
) -> bool {
    &&& t == (Transaction { external_refs: t.external_refs, updated_at: now, ..before })
    &&& same_texts(t.external_refs@, confirmed_refs(before.external_refs@, note, now@, agent))
}

/// What the confirmation of a receipt does.
pub open spec fn confirm_done(
    before: IcpService,
    after: IcpService,
    input: IntentInput,
    params: ConfirmReceiptParams,
    now: Timestamp,
    r: Result<Outcome, ApiError>,
) -> bool {
    &&& after.wf()
    &&& after == (IcpService { transactions: after.transactions, ..before })
    &&& {
        let m = before.transactions@;
        let id = params.transaction_id@;
        let error = confirm_error(m, id, input.tenant.tenant_id@);
        match r {
            Ok(o) => {
                &&& error is None
                &&& after.transactions@ == m.insert(id, after.transactions@[id])
                &&& receipt_confirmed(
                    m[id],
                    after.transactions@[id],
                    params.note,
                    now,
                    input.agent.raw@,
                )
                &&& o.transaction.same_as(after.transactions@[id])
                &&& transaction_only(o)
            },
            Err(e) => error == Some(e@) && after.transactions@ == m,
        }
    }
}

impl IcpService {
    /// Confirms the receipt of a paid transaction, once.
    pub fn do_confirm_receipt(
        &mut self,
        input: &IntentInput,
        params: ConfirmReceiptParams,
        now: Timestamp,
    ) -> (r: Result<Outcome, ApiError>)
        requires
            old(self).wf(),
        ensures
            confirm_done(*old(self), *final(self), *input, params, now, r),
    {
        let ghost m = self.transactions@;
        let id = params.transaction_id.as_str();
        match transaction_for_tenant(&self.transactions, id, input.tenant.tenant_id.as_str()) {
            Ok(t) => {
                match t.state {
                    TransactionState::Captured
                    | TransactionState::Fulfilled
                    | TransactionState::Completed => {},
                    other => {
                        return Err(
                            ApiError::PreconditionFailed(
                                join3(
                                    "confirm_receipt: transaction in state ",
                                    other.debug_name(),
                                    " cannot be confirmed; payment must complete first",
                                ),
                            ),
                        );
                    },
                }
                if t.external_refs.contains_key("receipt_confirmed_at") {
                    return Err(
                        ApiError::PreconditionFailed(
                            String::from_str(
                                "confirm_receipt: this transaction's receipt has already been confirmed",
                            ),
                        ),
                    );
                }
            },
            Err(e) => {
                return Err(e);
            },
        }
        match self.take_transaction(id) {
            Some(mut t) => {
                let ghost before = t;
                t.external_refs.insert(
                    String::from_str("receipt_confirmed_at"),
                    rfc3339(now, false),
                );
                t.external_refs.insert(
                    String::from_str("receipt_confirmed_by"),
                    input.agent.raw.clone(),
                );
                match &params.note {
                    Some(note) => {
                        t.external_refs.insert(String::from_str("receipt_note"), note.clone());
                    },
                    None => {},
                }
                t.updated_at = now;
                assert(t.external_refs@.map_values(|s: String| s@) =~= confirmed_refs(
                    before.external_refs@,
                    params.note,
                    now@,
                    input.agent.raw@,
                ));
                let shown = self.keep_transaction(t);
                assert(self.transactions@ =~= m.insert(id@, t));
                Ok(outcome_of(shown))
            },
            None => Err(ApiError::ResourceNotFound(join3("transaction", " ", id))),
        }
    }
}

// ---------------------------------------------------------------------------
// Laws
// ---------------------------------------------------------------------------

/// Whether the trail holds exactly the first `n` offers.
pub open spec fn trail_of(refs: Map<Seq<char>, String>, n: nat) -> bool {
    forall|k: Seq<char>| #[trigger]
        offer_keys(refs).contains(k) <==> exists|i: nat| i < n && k == #[trigger] offer_key(i)
}

proof fn lemma_zeros_then_digits(k: nat, s: Seq<char>)
    requires
        is_digits(s),
    ensures
        is_digits(crate::numerals::zeros(k) + s),
        digits_value(crate::numerals::zeros(k) + s) == digits_value(s),
    decreases s.len(), k,
{
    let z = crate::numerals::zeros(k);
    let t = z + s;
    assert(t.last() == s.last());
    if s.len() > 1 {
        assert(t.drop_last() =~= z + s.drop_last());
        assert(is_digits(s.drop_last())) by {
            assert forall|i: int| 0 <= i < s.drop_last().len() implies '0' <= #[trigger]
                s.drop_last()[i] <= '9' by {
                assert(s[i] == s.drop_last()[i]);
            }
        }
        lemma_zeros_then_digits(k, s.drop_last());
    } else {
        assert(t.drop_last() =~= z);
        assert(digits_value(s.drop_last()) == 0);
        lemma_zeros_value(k);
    }
}

proof fn lemma_zeros_value(k: nat)
    ensures
        digits_value(crate::numerals::zeros(k)) == 0,
    decreases k,
{
    let z = crate::numerals::zeros(k);
    if k > 0 {
        assert(z.drop_last() =~= crate::numerals::zeros((k - 1) as nat));
        lemma_zeros_value((k - 1) as nat);
    }
}

proof fn lemma_offer_key_value(n: nat)
    ensures
        has_prefix(offer_key(n), "negotiation_"@),
        digits_value(offer_key(n).skip("negotiation_"@.len() as int)) == n,
{
    let t = nat_text(n);
    lemma_nat_text_round_trip(n);
    if t.len() < 3 {
        lemma_zeros_then_digits((3 - t.len()) as nat, t);
    }
    assert(offer_key(n).take("negotiation_"@.len() as int) =~= "negotiation_"@);
    assert(offer_key(n).skip("negotiation_"@.len() as int) =~= padded_text(n, 3));
}

proof fn lemma_trail_len(keys: Set<Seq<char>>, n: nat)
    requires
        forall|k: Seq<char>| #[trigger]
            keys.contains(k) <==> exists|i: nat| i < n && k == #[trigger] offer_key(i),
    ensures
        keys.finite(),
        keys.len() == n,
    decreases n,
{
    if n == 0 {
        assert(keys =~= Set::<Seq<char>>::empty());
    } else {
        let last = (n - 1) as nat;
        let k = offer_key(last);
        let rest = keys.remove(k);
        assert(keys.contains(k));
        assert forall|x: Seq<char>| #[trigger] rest.contains(x) <==> exists|i: nat|
            i < last && x == #[trigger] offer_key(i) by {
            if rest.contains(x) {
                assert(keys.contains(x));
                let i = choose|i: nat| i < n && x == #[trigger] offer_key(i);
                assert(i < last && x == offer_key(i));
            }
            if exists|i: nat| i < last && x == #[trigger] offer_key(i) {
                let i = choose|i: nat| i < last && x == #[trigger] offer_key(i);
                assert(i < n && x == offer_key(i));
                assert(keys.contains(x));
                lemma_offer_key_value(i);
                lemma_offer_key_value(last);
            }
        }
        lemma_trail_len(rest, last);
        assert(keys =~= rest.insert(k));
    }
}

/// An offer never overwrites an earlier one: on a trail of `n` offers the next
/// one gets a key that is not taken, and the trail then holds `n + 1`.
pub proof fn law_offers_are_never_overwritten(
    refs: Map<Seq<char>, String>,
    n: nat,
    record: String,
)
    requires
        trail_of(refs, n),
    ensures
        offer_keys(refs).len() == n,
        !refs.contains_key(offer_key(n)),
        trail_of(refs.insert(offer_key(offer_keys(refs).len()), record), n + 1),
{
    lemma_trail_len(offer_keys(refs), n);
    let key = offer_key(n);
    lemma_offer_key_value(n);
    assert(!refs.contains_key(key)) by {
        if refs.contains_key(key) {
            assert(offer_keys(refs).contains(key));
            let i = choose|i: nat| i < n && key == #[trigger] offer_key(i);
            lemma_offer_key_value(i);
        }
    }
    let after = refs.insert(key, record);
    assert forall|k: Seq<char>| #[trigger] offer_keys(after).contains(k) <==> exists|i: nat|
        i < n + 1 && k == #[trigger] offer_key(i) by {
        if offer_keys(after).contains(k) {
            if k == key {
                assert(n < n + 1 && k == offer_key(n));
            } else {
                assert(offer_keys(refs).contains(k));
                let i = choose|i: nat| i < n && k == #[trigger] offer_key(i);
                assert(i < n + 1 && k == offer_key(i));
            }
        }
        if exists|i: nat| i < n + 1 && k == #[trigger] offer_key(i) {
            let i = choose|i: nat| i < n + 1 && k == #[trigger] offer_key(i);
            lemma_offer_key_value(i);
            if i < n {
                assert(i < n && k == offer_key(i));
                assert(offer_keys(refs).contains(k));
            }
        }
    }
}

/// A discount within its bounds never raises a total and never takes more than
/// nine tenths of it.
pub proof fn law_discounts_are_bounded(total: int, kept: int)
    requires
        total >= 0,
        1_000 <= kept <= 10_000,
    ensures
        total / 10 <= part_of(total, kept) <= total,
{
    assert(total * 1_000 <= total * kept <= total * 10_000) by (nonlinear_arith)
        requires
            total >= 0,
            1_000 <= kept <= 10_000,
    ;
}

/// A receipt is confirmed at most once: after a confirmation every further one
/// is refused, by whichever tenant.
pub proof fn law_receipts_are_confirmed_once(
    m: Map<Seq<char>, Transaction>,
    id: Seq<char>,
    after: Transaction,
    note: Option<String>,
    now: Timestamp,
    agent: Seq<char>,
    tenant: Seq<char>,
)
    requires
        m.contains_key(id),
        receipt_confirmed(m[id], after, note, now, agent),
    ensures
        confirm_error(m.insert(id, after), id, tenant) is Some,
{
    let refs = after.external_refs@;
    assert(refs.map_values(|s: String| s@).contains_key("receipt_confirmed_at"@));
    assert(refs.contains_key("receipt_confirmed_at"@));
}

/// Neither intent changes the state, the parties or the positions of a
/// transaction.
pub proof fn law_trail_intents_move_nothing(
    before: Transaction,
    offer: Transaction,
    params: NegotiateParams,
    confirmed: Transaction,
    note: Option<String>,
    now: Timestamp,
    agent: Seq<char>,
)
    requires
        renegotiated(before, offer, params, now, agent),
        receipt_confirmed(before, confirmed, note, now, agent),
    ensures
        offer.state == before.state && confirmed.state == before.state,
        offer.buyer == before.buyer && confirmed.buyer == before.buyer,
        offer.line_items == before.line_items && confirmed.line_items == before.line_items,
        confirmed.totals == before.totals,
        offer.order_id == before.order_id && confirmed.order_id == before.order_id,
{
}

/// A counter-offer sets the total: a proposed total becomes the total, with or without a
/// percentage beside it, and a percentage alone leaves that part of the earlier total,
/// within half a unit. Everything else that was quoted stays.
pub proof fn law_offers_set_the_total(
    before: IcpService,
    after: IcpService,
    input: IntentInput,
    params: NegotiateParams,
    now: Timestamp,
    o: Outcome,
)
    requires
        negotiate_done(before, after, input, params, now, Ok(o)),
    ensures
        ({
            let id = params.transaction_id@;
            let was = before.transactions@[id];
            let kept = after.transactions@[id];
            let total = match was.totals.total {
                Some(m) => m.amount_minor as int,
                None => 0,
            };
            &&& kept.totals.total matches Some(m) && m.currency@ == was.currency@
                && m.amount_display is None && (params.proposed_total matches Some(p) ==> m.amount_minor
                == p.amount_minor) && (params.proposed_total is None ==> {
                let scaled = total * params.discount->0.kept_basis_points;
                -5_000 <= scaled - m.amount_minor * 10_000 < 5_000
            })
            &&& o.transaction.totals == kept.totals
            &&& kept.totals.subtotal == was.totals.subtotal && kept.totals.tax == was.totals.tax
                && kept.totals.discount == was.totals.discount && kept.totals.shipping
                == was.totals.shipping
            &&& kept.state is Quoted && o.transaction.state is Quoted
            &&& kept.quote_expires_at == was.quote_expires_at && kept.currency == was.currency
            &&& kept.buyer == was.buyer && kept.ship_to == was.ship_to && kept.bill_to
                == was.bill_to
            &&& kept.line_items@ == was.line_items@ && kept.order_id == was.order_id
            &&& kept.tenant_id == was.tenant_id && kept.agent_id == was.agent_id
            &&& kept.created_at == was.created_at && kept.updated_at == now
            &&& after.mandates == before.mandates
            &&& forall|k: Seq<char>|
                k != id ==> (after.transactions@.contains_key(k)
                    <==> before.transactions@.contains_key(k)) && #[trigger] after.transactions@[k]
                    == before.transactions@[k]
        }),
{
}

/// Two percentages on one total: the one that keeps more never leaves less, none taken off
/// leaves it all, and everything taken off leaves nothing.
pub proof fn law_smaller_discounts_leave_more(total: int, kept: int, more: int)
    requires
        total >= 0,
        0 <= kept <= more,
    ensures
        part_of(total, kept) <= part_of(total, more),
        part_of(total, 10_000) == total,
        part_of(total, 0) == 0,
{
    assert(total * kept <= total * more) by (nonlinear_arith)
        requires
            total >= 0,
            0 <= kept <= more,
    ;
}

/// What a document says of a counter-offer.
pub open spec fn tells_offer(
    record: JsonView,
    from: int,
    to: int,
    currency: Seq<char>,
    percent: Option<Seq<char>>,
    agent: Seq<char>,
    message: Option<Seq<char>>,
    at: int,
) -> bool {
    &&& record.member("from_minor"@) == Some(JsonView::Int(from))
    &&& record.member("to_minor"@) == Some(JsonView::Int(to))
    &&& record.member("currency"@) == Some(JsonView::Str(currency))
    &&& record.member("discount_pct"@) == Some(
        match percent {
            Some(p) => JsonView::Decimal(p),
            None => JsonView::Null,
        },
    )
    &&& record.member("agent_id"@) == Some(JsonView::Str(agent))
    &&& record.member("message"@) == Some(
        match message {
            Some(m) => JsonView::Str(m),
            None => JsonView::Null,
        },
    )
    &&& record.member("at"@) == Some(JsonView::Str(rfc3339_text(at, false)))
}

/// Whether the text is that of a document which tells of a counter-offer.
pub open spec fn records_offer(
    text: Seq<char>,
    from: int,
    to: int,
    currency: Seq<char>,
    percent: Option<Seq<char>>,
    agent: Seq<char>,
    message: Option<Seq<char>>,
    at: int,
) -> bool {
    exists|record: JsonView| #[trigger]
        tells_offer(record, from, to, currency, percent, agent, message, at) && text == json_text(record)
}

/// Every counter-offer leaves one new record on the trail, which tells the total before and
/// after, who made it and when, and every earlier reference stays.
pub proof fn law_offers_are_recorded(
    before: IcpService,
    after: IcpService,
    input: IntentInput,
    params: NegotiateParams,
    now: Timestamp,
    o: Outcome,
    n: nat,
)
    requires
        negotiate_done(before, after, input, params, now, Ok(o)),
        trail_of(before.transactions@[params.transaction_id@].external_refs@, n),
    ensures
        ({
            let id = params.transaction_id@;
            let was = before.transactions@[id];
            let kept = after.transactions@[id];
            let total = match was.totals.total {
                Some(m) => m.amount_minor as int,
                None => 0,
            };
            &&& !was.external_refs@.contains_key(offer_key(n))
            &&& kept.external_refs@.dom() == was.external_refs@.dom().insert(offer_key(n))
            &&& forall|k: Seq<char>| #[trigger]
                was.external_refs@.contains_key(k) ==> kept.external_refs@[k]
                    == was.external_refs@[k]
            &&& records_offer(
                kept.external_refs@[offer_key(n)]@,
                total,
                kept.totals.total->0.amount_minor as int,
                was.currency@,
                match params.discount {
                    Some(d) => Some(d.percent@),
                    None => None,
                },
                input.agent.raw@,
                opt_text(params.message),
                now@,
            )
            &&& trail_of(kept.external_refs@, n + 1)
        }),
{
    let id = params.transaction_id@;
    let was = before.transactions@[id];
    let kept = after.transactions@[id];
    law_offers_are_never_overwritten(was.external_refs@, n, kept.external_refs@[offer_key(n)]);
    assert(kept.external_refs@.dom() =~= was.external_refs@.dom().insert(offer_key(n)));
    assert(kept.external_refs@ == was.external_refs@.insert(
        offer_key(n),
        kept.external_refs@[offer_key(n)],
    ));
    let record = offer_record(was, params, now@, input.agent.raw@);
    let total = match was.totals.total {
        Some(m) => m.amount_minor as int,
        None => 0,
    };
    assert(kept.external_refs@[offer_key(n)]@ == json_text(record));
    reveal_strlit("from_minor");
    reveal_strlit("to_minor");
    reveal_strlit("currency");
    reveal_strlit("agent_id");
    reveal_strlit("message");
    reveal_strlit("discount_pct");
    reveal_strlit("at");
    assert("to_minor"@[0] == 't' && "currency"@[0] == 'c' && "agent_id"@[0] == 'a');
    let m = record->Object_0;
    assert(m.len() == 7);
    assert(m[0].0.len() == 10 && m[3].0.len() == 12 && m[4].0.len() == 7 && m[5].0.len() == 2);
    assert(m[1].0 == "to_minor"@ && m[2].0 == "currency"@ && m[6].0 == "agent_id"@);
    lemma_member_found(m, "from_minor"@, 0, 0);
    lemma_member_found(m, "to_minor"@, 0, 1);
    lemma_member_found(m, "currency"@, 0, 2);
    lemma_member_found(m, "discount_pct"@, 0, 3);
    lemma_member_found(m, "message"@, 0, 4);
    lemma_member_found(m, "at"@, 0, 5);
    lemma_member_found(m, "agent_id"@, 0, 6);
    assert(tells_offer(
        record,
        total,
        kept.totals.total->0.amount_minor as int,
        was.currency@,
        match params.discount {
            Some(d) => Some(d.percent@),
            None => None,
        },
        input.agent.raw@,
        opt_text(params.message),
        now@,
    ));
}

/// A counter-offer is taken exactly when it offers something, its percentage is within
/// bounds, its amount is not negative, and its own tenant makes it on a quoted transaction.
pub proof fn law_quoted_transactions_are_negotiable(
    before: IcpService,
    after: IcpService,
    input: IntentInput,
    params: NegotiateParams,
    now: Timestamp,
    r: Result<Outcome, ApiError>,
)
    requires
        negotiate_done(before, after, input, params, now, r),
    ensures
        ({
            let id = params.transaction_id@;
            let t = before.transactions@[id];
            let own = before.transactions@.contains_key(id) && t.tenant_id@
                == input.tenant.tenant_id@;
            let sound = (params.proposed_total is Some || params.discount is Some)
                && (params.discount matches Some(d) ==> d.within_bounds);
            let paid = params.proposed_total matches Some(p) ==> p.amount_minor >= 0;
            &&& r is Ok <==> sound && own && t.state is Quoted && paid
            &&& r matches Err(e) ==> {
                &&& after.transactions@ == before.transactions@
                &&& !sound ==> e@ is InvalidRequest
                &&& sound && !own ==> e@ is ResourceNotFound
                &&& sound && own && !(t.state is Quoted) ==> e@ is PreconditionFailed
                &&& sound && own && t.state is Quoted ==> e@ is InvalidRequest
            }
        }),
{
}

/// A confirmed receipt says when and by whom, with the note that was given; the state, the
/// sums and every other reference stay.
pub proof fn law_confirmations_say_who_and_when(
    before: IcpService,
    after: IcpService,
    input: IntentInput,
    params: ConfirmReceiptParams,
    now: Timestamp,
    o: Outcome,
)
    requires
        confirm_done(before, after, input, params, now, Ok(o)),
    ensures
        ({
            let id = params.transaction_id@;
            let was = before.transactions@[id];
            let refs = after.transactions@[id].external_refs@;
            let kept = after.transactions@[id];
            &&& refs.contains_key("receipt_confirmed_at"@) && refs["receipt_confirmed_at"@]@
                == rfc3339_text(now@, false)
            &&& refs.contains_key("receipt_confirmed_by"@) && refs["receipt_confirmed_by"@]@
                == input.agent.raw@
            &&& params.note matches Some(n) ==> refs.contains_key("receipt_note"@)
                && refs["receipt_note"@]@ == n@
            &&& forall|k: Seq<char>|
                k != "receipt_confirmed_at"@ && k != "receipt_confirmed_by"@ && k
                    != "receipt_note"@ ==> (#[trigger] refs.contains_key(k)
                    <==> was.external_refs@.contains_key(k)) && (refs.contains_key(k) ==> refs[k]@
                    == was.external_refs@[k]@)
            &&& kept.state == was.state && kept.totals == was.totals && kept.buyer == was.buyer
                && kept.order_id == was.order_id && kept.line_items@ == was.line_items@
            &&& kept.updated_at == now && kept.created_at == was.created_at
            &&& o.transaction.id == kept.id && o.transaction.external_refs@ == refs
            &&& forall|k: Seq<char>|
                k != id ==> (after.transactions@.contains_key(k)
                    <==> before.transactions@.contains_key(k)) && #[trigger] after.transactions@[k]
                    == before.transactions@[k]
        }),
{
    let id = params.transaction_id@;
    let was = before.transactions@[id].external_refs@;
    let refs = after.transactions@[id].external_refs@;
    let texts = refs.map_values(|s: String| s@);
    let expected = confirmed_refs(was, params.note, now@, input.agent.raw@);
    reveal_strlit("receipt_confirmed_at");
    reveal_strlit("receipt_confirmed_by");
    reveal_strlit("receipt_note");
    assert("receipt_confirmed_at"@ != "receipt_confirmed_by"@ && "receipt_confirmed_at"@
        != "receipt_note"@ && "receipt_confirmed_by"@ != "receipt_note"@) by {
        assert("receipt_confirmed_at"@[18] != "receipt_confirmed_by"@[18]);
        assert("receipt_confirmed_at"@.len() == 20 && "receipt_note"@.len() == 12);
    }
    assert(texts == expected);
    assert forall|k: Seq<char>| #[trigger] refs.contains_key(k) implies texts[k] == refs[k]@ by {
        assert(texts.contains_key(k));
    }
    assert(texts.contains_key("receipt_confirmed_at"@));
    assert(texts.contains_key("receipt_confirmed_by"@));
    assert(refs.contains_key("receipt_confirmed_at"@));
    assert(refs.contains_key("receipt_confirmed_by"@));
    if params.note is Some {
        assert(texts.contains_key("receipt_note"@));
        assert(refs.contains_key("receipt_note"@));
    }
    assert forall|k: Seq<char>|
        k != "receipt_confirmed_at"@ && k != "receipt_confirmed_by"@ && k
            != "receipt_note"@ implies (#[trigger] refs.contains_key(k) <==> was.contains_key(k)) && (
    refs.contains_key(k) ==> refs[k]@ == was[k]@) by {
        assert(texts.contains_key(k) == refs.contains_key(k));
        assert(expected.contains_key(k) == was.map_values(|s: String| s@).contains_key(k));
    }
}

/// A receipt is confirmed exactly when its own tenant asks, the transaction is paid, and it
/// was not confirmed before.
pub proof fn law_paid_transactions_are_confirmed(
    before: IcpService,
    after: IcpService,
    input: IntentInput,
    params: ConfirmReceiptParams,
    now: Timestamp,
    r: Result<Outcome, ApiError>,
)
    requires
        confirm_done(before, after, input, params, now, r),
    ensures
        ({
            let id = params.transaction_id@;
            let t = before.transactions@[id];
            let own = before.transactions@.contains_key(id) && t.tenant_id@
                == input.tenant.tenant_id@;
            &&& r is Ok <==> own && (t.state is Captured || t.state is Fulfilled || t.state
                is Completed) && !t.external_refs@.contains_key("receipt_confirmed_at"@)
            &&& r matches Err(e) ==> after.transactions@ == before.transactions@ && (own ==> e@
                is PreconditionFailed) && (!own ==> e@ is ResourceNotFound)
        }),
{
}

} // verus!
