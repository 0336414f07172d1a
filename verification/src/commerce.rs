//! What is handed to the commerce engine: baskets for its promotions, and orders
//! with their customers and products.

use vstd::prelude::*;

use crate::decimal::{
    checked_multiply, checked_sum, decimal_product, decimal_quotient, decimal_sum,
    minor_to_decimal, try_decimal_to_minor, DecimalParts,
};
use crate::models::{scale_of, Buyer, LineItem, Money, RequestItem, Totals};
use crate::numerals::{nat_to_padded, padded_text};
use crate::pricing::unit_price;
use crate::text::{
    find_from, has_prefix, join2, lemma_find_from, opt_text, opt_view, split_at_first, split_once,
    starts_with, trim, trimmed, uppercase,
};

verus! {

/// Whether a database is a PostgreSQL one.
pub open spec fn names_postgres(s: Seq<char>) -> bool {
    has_prefix(s, "postgres://"@) || has_prefix(s, "postgresql://"@)
}

/// Whether a database is a PostgreSQL one.
pub fn is_postgres_url(s: &str) -> (r: bool)
    ensures
        r == names_postgres(s@),
{
    starts_with(s, "postgres://") || starts_with(s, "postgresql://")
}

/// A text without surrounding white space, when something is left of it.
pub open spec fn filled(s: Option<Seq<char>>) -> Option<Seq<char>> {
    match s {
        Some(t) => if trimmed(t).len() > 0 {
            Some(trimmed(t))
        } else {
            None
        },
        None => None,
    }
}

/// A text without surrounding white space, when something is left of it.
pub fn non_empty(s: Option<&str>) -> (r: Option<String>)
    ensures
        opt_text(r) == filled(opt_view(s)),
{
    match s {
        Some(t) => {
            let u = trim(t);
            if u.is_empty() {
                None
            } else {
                Some(String::from_str(u))
            }
        },
        None => None,
    }
}

/// What stands before the `@` of an address, when something does.
pub open spec fn before_at(email: Seq<char>) -> Option<Seq<char>> {
    match split_at_first(email, '@') {
        Some((local, _)) => if local.len() > 0 {
            Some(local)
        } else {
            None
        },
        None => None,
    }
}

/// What stands before the `@` of an address, when something does.
pub fn local_part<'a>(email: &'a str) -> (r: Option<&'a str>)
    ensures
        opt_view(r) == before_at(email@),
{
    match split_once(email, '@') {
        Some((local, _)) => if local.is_empty() {
            None
        } else {
            Some(local)
        },
        None => None,
    }
}

// ---------------------------------------------------------------------------
// Promotions
// ---------------------------------------------------------------------------

/// One position of a basket, as the promotions see it.
#[derive(Debug)]
pub struct PromotionLine {
    pub id: String,
    pub sku: String,
    pub quantity: i32,
    pub unit_price: DecimalParts,
    pub line_total: DecimalParts,
}

/// A basket, as the promotions see it.
#[derive(Debug)]
pub struct PromotionBasket {
    pub lines: Vec<PromotionLine>,
    pub subtotal: DecimalParts,
}

/// How many of an item are bought; never less than none.
pub open spec fn counted_quantity(item: RequestItem) -> int {
    if item.quantity > 0 {
        item.quantity as int
    } else {
        0
    }
}

/// The price of one unit, as a decimal number.
pub open spec fn unit_decimal(item: RequestItem, currency: Seq<char>) -> (int, nat) {
    decimal_quotient(unit_price(item), scale_of(uppercase(currency)))
}

/// The price of one position, as a decimal number; nothing when it is too large.
pub open spec fn line_decimal(item: RequestItem, currency: Seq<char>) -> Option<(int, nat)> {
    let u = unit_decimal(item, currency);
    decimal_product(u.0, u.1, counted_quantity(item))
}

/// The sum of the first `n` positions; nothing when it is too large.
pub open spec fn decimal_subtotal(items: Seq<RequestItem>, currency: Seq<char>, n: int) -> Option<
    (int, nat),
>
    decreases n,
{
    if n <= 0 {
        Some((0, 0))
    } else {
        match (
            decimal_subtotal(items, currency, n - 1),
            line_decimal(items[n - 1], currency),
        ) {
            (Some(before), Some(line)) => decimal_sum(before.0, before.1, line.0, line.1),
            _ => None,
        }
    }
}

proof fn lemma_too_large_stays(items: Seq<RequestItem>, currency: Seq<char>, n: int, m: int)
    requires
        0 < n <= m,
        decimal_subtotal(items, currency, n) is None,
    ensures
        decimal_subtotal(items, currency, m) is None,
    decreases m - n,
{
    if n < m {
        lemma_too_large_stays(items, currency, n, m - 1);
    }
}

/// Whether the line is the item at position `i`, as the promotions see it.
pub open spec fn promotes(line: PromotionLine, item: RequestItem, i: int, currency: Seq<char>) -> bool {
    &&& line.id@ == "li_"@ + padded_text(i as nat, 6)
    &&& line.sku == item.sku
    &&& line.quantity == (if counted_quantity(item) <= i32::MAX {
        counted_quantity(item)
    } else {
        i32::MAX as int
    })
    &&& (line.unit_price.mantissa as int, line.unit_price.scale as nat) == unit_decimal(
        item,
        currency,
    )
    &&& line_decimal(item, currency) == Some(
        (line.line_total.mantissa as int, line.line_total.scale as nat),
    )
}

/// The basket as the promotions see it. A basket that is too large to be counted
/// gets no promotion.
pub fn promotion_basket(items: &Vec<RequestItem>, currency: &str) -> (r: Option<PromotionBasket>)
    ensures
        match r {
            Some(b) => {
                &&& decimal_subtotal(items@, currency@, items@.len() as int) == Some(
                    (b.subtotal.mantissa as int, b.subtotal.scale as nat),
                )
                &&& b.subtotal.wf()
                &&& b.lines@.len() == items@.len()
                &&& forall|i: int|
                    0 <= i < items@.len() ==> promotes(
                        #[trigger] b.lines@[i],
                        items@[i],
                        i,
                        currency@,
                    )
            },
            None => decimal_subtotal(items@, currency@, items@.len() as int) is None,
        },
{
    let mut lines: Vec<PromotionLine> = Vec::new();
    let mut subtotal = DecimalParts { mantissa: 0, scale: 0 };
    let mut idx: usize = 0;
    while idx < items.len()
        invariant
            idx <= items@.len(),
            lines@.len() == idx,
            subtotal.wf(),
            decimal_subtotal(items@, currency@, idx as int) == Some(
                (subtotal.mantissa as int, subtotal.scale as nat),
            ),
            forall|i: int|
                0 <= i < idx ==> promotes(#[trigger] lines@[i], items@[i], i, currency@),
        decreases items@.len() - idx,
    {
        let item = &items[idx];
        let unit_minor: i64 = match &item.unit_price_hint {
            Some(m) => m.amount_minor,
            None => 1_000,
        };
        let unit = minor_to_decimal(unit_minor, currency);
        let quantity: i64 = if item.quantity > 0 {
            item.quantity
        } else {
            0
        };
        let line_total = match checked_multiply(unit, quantity) {
            Some(t) => t,
            None => {
                proof {
                    lemma_too_large_stays(items@, currency@, idx as int + 1, items@.len() as int);
                }
                return None;
            },
        };
        subtotal = match checked_sum(subtotal, line_total) {
            Some(s) => s,
            None => {
                proof {
                    lemma_too_large_stays(items@, currency@, idx as int + 1, items@.len() as int);
                }
                return None;
            },
        };
        let number = nat_to_padded(idx as u128, 6);
        let shown: i32 = if quantity <= i32::MAX as i64 {
            quantity as i32
        } else {
            i32::MAX
        };
        lines.push(
            PromotionLine {
                id: join2("li_", number.as_str()),
                sku: item.sku.clone(),
                quantity: shown,
                unit_price: unit,
                line_total,
            },
        );
        idx += 1;
    }
    Some(PromotionBasket { lines, subtotal })
}

/// The discount in minor units for what the promotions took off: never less than
/// nothing, and nothing when it is too large to be counted.
pub fn discount_minor(total_discount: DecimalParts, currency: &str) -> (r: i64)
    requires
        total_discount.wf(),
    ensures
        r >= 0,
        match decimal_product(
            total_discount.mantissa as int,
            total_discount.scale as nat,
            scale_of(uppercase(currency@)),
        ) {
            Some(p) => ({
                let n = crate::decimal::minor_amount(
                    DecimalParts { mantissa: p.0 as i128, scale: p.1 as u32 },
                );
                r == (if n > 0 {
                    n
                } else {
                    0
                })
            }),
            None => r == 0,
        },
{
    match try_decimal_to_minor(total_discount, currency) {
        Some(n) => if n > 0 {
            n
        } else {
            0
        },
        None => 0,
    }
}

// ---------------------------------------------------------------------------
// Orders
// ---------------------------------------------------------------------------

/// A customer, as the engine creates one.
#[derive(Debug)]
pub struct CustomerFields {
    pub email: String,
    pub first_name: String,
    pub last_name: String,
    pub phone: Option<String>,
}

/// The first name of a customer, which the engine insists on: that of the buyer,
/// or what stands before the `@` of the address, or a stand-in.
pub open spec fn customer_first_name(buyer: Buyer, email: Seq<char>) -> Seq<char> {
    match filled(opt_text(buyer.first_name)) {
        Some(n) => n,
        None => match before_at(email) {
            Some(local) => local,
            None => "ICP Buyer"@,
        },
    }
}

/// The customer for a buyer; nothing without an address.
pub fn customer_for(buyer: &Buyer) -> (r: Option<CustomerFields>)
    ensures
        match r {
            Some(c) => {
                &&& buyer.email == Some(c.email)
                &&& c.email@.len() > 0
                &&& c.first_name@ == customer_first_name(*buyer, c.email@)
                &&& c.last_name@ == (match buyer.last_name {
                    Some(n) => n@,
                    None => Seq::empty(),
                })
                &&& c.phone == buyer.phone_number
            },
            None => buyer.email is None || buyer.email->0@.len() == 0,
        },
{
    let email = match &buyer.email {
        Some(e) => e,
        None => {
            return None;
        },
    };
    if email.as_str().is_empty() {
        return None;
    }
    let given = match &buyer.first_name {
        Some(n) => Some(n.as_str()),
        None => None,
    };
    let first_name = match non_empty(given) {
        Some(n) => n,
        None => match local_part(email.as_str()) {
            Some(local) => String::from_str(local),
            None => String::from_str("ICP Buyer"),
        },
    };
    let last_name = match &buyer.last_name {
        Some(n) => n.clone(),
        None => String::new(),
    };
    Some(
        CustomerFields {
            email: email.clone(),
            first_name,
            last_name,
            phone: buyer.phone_number.clone(),
        },
    )
}

/// One position of an order, as the engine takes it.
#[derive(Debug)]
pub struct OrderLine {
    pub sku: String,
    pub name: String,
    pub quantity: i32,
    pub unit_price: DecimalParts,
}

/// Whether the line is the position of a transaction, as the engine takes it.
pub open spec fn orders(line: OrderLine, item: LineItem, currency: Seq<char>) -> bool {
    &&& line.sku == item.sku
    &&& line.name == item.name
    &&& line.quantity == (if item.quantity < 1 {
        1
    } else if item.quantity > i32::MAX {
        i32::MAX as int
    } else {
        item.quantity as int
    })
    &&& (line.unit_price.mantissa as int, line.unit_price.scale as nat) == decimal_quotient(
        item.unit_price.amount_minor as int,
        scale_of(uppercase(currency)),
    )
}

/// The positions of a transaction, as the engine takes them.
pub fn order_lines(items: &Vec<LineItem>, currency: &str) -> (r: Vec<OrderLine>)
    ensures
        r@.len() == items@.len(),
        forall|i: int| 0 <= i < items@.len() ==> orders(#[trigger] r@[i], items@[i], currency@),
{
    let mut out: Vec<OrderLine> = Vec::new();
    let mut i: usize = 0;
    while i < items.len()
        invariant
            i <= items@.len(),
            out@.len() == i,
            forall|j: int| 0 <= j < i ==> orders(#[trigger] out@[j], items@[j], currency@),
        decreases items@.len() - i,
    {
        let li = &items[i];
        let quantity: i32 = if li.quantity < 1 {
            1
        } else if li.quantity > i32::MAX as i64 {
            i32::MAX
        } else {
            li.quantity as i32
        };
        out.push(
            OrderLine {
                sku: li.sku.clone(),
                name: li.name.clone(),
                quantity,
                unit_price: minor_to_decimal(li.unit_price.amount_minor, currency),
            },
        );
        i += 1;
    }
    out
}

/// The total of a persisted order: that of the transaction, or nothing at all.
pub fn persisted_total(totals: &Totals, currency: &str) -> (r: Money)
    ensures
        match totals.total {
            Some(m) => r == m,
            None => r.is_plain(0, currency@),
        },
{
    match &totals.total {
        Some(m) => m.clone(),
        None => Money::new(0, currency),
    }
}

/// The name and the description of a product that the catalog does not know yet.
pub fn product_texts(sku: &str, name: &str) -> (r: (String, String))
    ensures
        r.0@ == (match filled(Some(name@)) {
            Some(n) => n,
            None => sku@,
        }),
        r.1@ == "Auto-created by ICP handler for SKU "@ + sku@,
{
    let display = match non_empty(Some(name)) {
        Some(n) => n,
        None => String::from_str(sku),
    };
    (display, join2("Auto-created by ICP handler for SKU ", sku))
}

// ---------------------------------------------------------------------------
// Laws
// ---------------------------------------------------------------------------

/// Rounding never moves an amount by more than half a unit, and whole amounts
/// not at all.
pub proof fn law_rounding_is_to_the_nearest(m: int, d: int)
    requires
        m >= 0,
        d > 0,
    ensures
        2 * (crate::decimal::half_even(m, d) * d - m) <= d,
        2 * (m - crate::decimal::half_even(m, d) * d) <= d,
        m % d == 0 ==> crate::decimal::half_even(m, d) == m / d,
{
    let q = m / d;
    let r = m % d;
    assert(m == q * d + r && 0 <= r < d) by (nonlinear_arith)
        requires
            d > 0,
            q == m / d,
            r == m % d,
    ;
    assert((q + 1) * d == q * d + d) by (nonlinear_arith);
}

/// The customer of an order goes by the first name that was given, without white space
/// around it, or else by what stands before the first `@` of the address, or else by a name
/// that stands for any buyer.
pub proof fn law_customers_have_a_first_name(
    buyer: Buyer,
    local: Seq<char>,
    domain: Seq<char>,
)
    requires
        !local.contains('@'),
    ensures
        ({
            let email = local + seq!['@'] + domain;
            let given = buyer.first_name matches Some(n) && trimmed(n@).len() > 0;
            &&& given ==> customer_first_name(buyer, email) == trimmed(buyer.first_name->0@)
            &&& !given && local.len() > 0 ==> customer_first_name(buyer, email) == local
            &&& !given && local.len() == 0 ==> customer_first_name(buyer, email) == "ICP Buyer"@
            &&& !given ==> customer_first_name(buyer, local) == "ICP Buyer"@
        }),
{
    let email = local + seq!['@'] + domain;
    assert(email[local.len() as int] == '@');
    lemma_find_from(email, '@', 0);
    let i = find_from(email, '@', 0)->0;
    assert(i == local.len()) by {
        if i < local.len() {
            assert(local[i] == email[i]);
        }
    }
    assert(email.take(i) =~= local);
    lemma_find_from(local, '@', 0);
    if find_from(local, '@', 0) is Some {
        assert(local[find_from(local, '@', 0)->0] == '@');
    }
}

/// An order line is for its item: the same product, as many of it as an order can hold but at
/// least one, at its price.
pub proof fn law_order_lines_are_for_their_item(
    line: OrderLine,
    item: LineItem,
    currency: Seq<char>,
)
    requires
        orders(line, item, currency),
    ensures
        line.sku == item.sku && line.name == item.name,
        1 <= item.quantity <= i32::MAX ==> line.quantity == item.quantity,
        item.quantity < 1 ==> line.quantity == 1,
        item.quantity > i32::MAX ==> line.quantity == i32::MAX,
        (line.unit_price.mantissa as int, line.unit_price.scale as nat) == decimal_quotient(
            item.unit_price.amount_minor as int,
            scale_of(uppercase(currency)),
        ),
{
}

/// A line of a basket that promotions are computed for is for its item: the same product, as
/// many of it, at the price that the item hints or the default one.
pub proof fn law_promoted_lines_are_for_their_item(
    line: PromotionLine,
    item: RequestItem,
    i: int,
    currency: Seq<char>,
)
    requires
        promotes(line, item, i, currency),
    ensures
        line.sku == item.sku,
        0 <= item.quantity <= i32::MAX ==> line.quantity == item.quantity,
        item.quantity < 0 ==> line.quantity == 0,
        ({
            let minor = match item.unit_price_hint {
                Some(m) => m.amount_minor as int,
                None => 1_000,
            };
            let unit = decimal_quotient(minor, scale_of(uppercase(currency)));
            &&& (line.unit_price.mantissa as int, line.unit_price.scale as nat) == unit
            &&& item.quantity >= 0 ==> decimal_product(unit.0, unit.1, item.quantity as int)
                == Some((line.line_total.mantissa as int, line.line_total.scale as nat))
        }),
{
}

/// A blank text counts as none, and any other without the white space around it.
pub proof fn law_blank_texts_count_as_none(text: Seq<char>)
    ensures
        filled(None) is None,
        trimmed(text).len() == 0 ==> filled(Some(text)) is None,
        trimmed(text).len() > 0 ==> filled(Some(text)) == Some(trimmed(text)),
{
}

/// The sum of a basket grows by quantity times price with each position, as the engine counts,
/// and cannot be had once one of these cannot.
pub proof fn law_engine_sums_add_up(items: Seq<RequestItem>, item: RequestItem, currency: Seq<char>)
    requires
        item.quantity >= 0,
    ensures
        ({
            let all = items.push(item);
            let minor = match item.unit_price_hint {
                Some(m) => m.amount_minor as int,
                None => 1_000,
            };
            let unit = decimal_quotient(minor, scale_of(uppercase(currency)));
            let line = decimal_product(unit.0, unit.1, item.quantity as int);
            let before = decimal_subtotal(items, currency, items.len() as int);
            let (sum, sum_scale) = before->0;
            let (more, more_scale) = line->0;
            &&& before is Some && line is Some ==> decimal_subtotal(
                all,
                currency,
                items.len() as int + 1,
            ) == decimal_sum(sum, sum_scale, more, more_scale)
            &&& before is None || line is None ==> decimal_subtotal(
                all,
                currency,
                items.len() as int + 1,
            ) is None
            &&& decimal_subtotal(Seq::empty(), currency, 0) == Some((0int, 0nat))
        }),
{
    let all = items.push(item);
    lemma_subtotal_prefix(items, all, currency, items.len() as int);
    assert(all[items.len() as int] == item);
}

proof fn lemma_subtotal_prefix(
    a: Seq<RequestItem>,
    b: Seq<RequestItem>,
    currency: Seq<char>,
    n: int,
)
    requires
        0 <= n <= a.len() <= b.len(),
        forall|i: int| 0 <= i < a.len() ==> a[i] == b[i],
    ensures
        decimal_subtotal(a, currency, n) == decimal_subtotal(b, currency, n),
    decreases n,
{
    if n > 0 {
        lemma_subtotal_prefix(a, b, currency, n - 1);
    }
}

/// A database is one of Postgres exactly when its address says so.
pub proof fn law_postgres_is_told_by_its_address(rest: Seq<char>)
    ensures
        names_postgres("postgres://"@ + rest) && names_postgres("postgresql://"@ + rest),
        !has_prefix(rest, "postgres://"@) && !has_prefix(rest, "postgresql://"@)
            ==> !names_postgres(rest),
{
    let a = "postgres://"@ + rest;
    let b = "postgresql://"@ + rest;
    assert(a.take("postgres://"@.len() as int) =~= "postgres://"@);
    assert(b.take("postgresql://"@.len() as int) =~= "postgresql://"@);
}

} // verus!
