//! Mandates: what a principal allows an agent to do, and how much it has spent.
//!
//! A mandate is a compact JWS whose payload names scopes, merchants,
//! jurisdictions, policies and a budget per window of time. [`evaluate`] holds
//! an intent against these terms; [`MandateLedger`] keeps what was spent.

use vstd::prelude::*;
use vstd::utf8::encode_utf8;

use crate::arith::{clamp64, sat_minus, sat_plus};
use crate::crypto::{base64url_bytes, base64url_decode, signature_accepted};
use crate::errors::{ApiError, ErrorView};
use crate::jws::{jws_segments, segments, signing_input, signing_text, SegmentError};
use crate::numerals::{
    in_bounds, int_text, int_to_text, lemma_nat_text_round_trip, nat_text, nat_to_text, parse_i64, parsed_int,
};
use crate::resolver::{ResolveError, VerifyingKeyEntry};
use crate::table::Table;
use crate::text::{
    after_prefix, ascii_lower, before_suffix, eq_ignore_ascii_case, eq_ignoring_case, find_from,
    has_suffix, has_text, join2, join3, join4, lemma_find_from, opt_str_eq, opt_text, opt_view, seq_has_text,
    split_at_first, split_once, str_eq, strip_prefix, strip_suffix,
};
use crate::time::{spannable, Span, Timestamp};

verus! {

// ---------------------------------------------------------------------------
// Terms
// ---------------------------------------------------------------------------

/// The payload of a mandate.
#[derive(Debug)]
pub struct MandatePayload {
    pub iss: String,
    pub sub: String,
    pub iat: i64,
    pub nbf: i64,
    pub exp: i64,
    pub jti: String,
    pub icp: MandateTerms,
}

/// What the mandate allows.
#[derive(Debug)]
pub struct MandateTerms {
    pub version: String,
    pub scope: Vec<String>,
    pub budget: MandateBudget,
    pub merchants: Vec<String>,
    pub categories: Vec<String>,
    pub jurisdictions: Vec<String>,
    pub policies: MandatePolicies,
    pub linked_payment_methods: Vec<String>,
}

/// How much may be spent.
#[derive(Debug)]
pub struct MandateBudget {
    pub currency: String,
    pub amount_minor: i64,
    pub per_transaction: Option<i64>,
    /// ISO 8601 duration; `P1D` means 24 hours.
    pub period: Option<String>,
}

/// Conditions on how the mandate is used.
#[derive(Debug, Clone, Copy)]
pub struct MandatePolicies {
    pub require_receipt: bool,
    pub require_shipping_address_confirmation: bool,
    pub prohibit_subscriptions: bool,
}

impl Default for MandatePolicies {
    fn default() -> (r: Self)
        ensures
            r == (MandatePolicies {
                require_receipt: false,
                require_shipping_address_confirmation: false,
                prohibit_subscriptions: false,
            }),
    {
        MandatePolicies {
            require_receipt: false,
            require_shipping_address_confirmation: false,
            prohibit_subscriptions: false,
        }
    }
}

/// A mandate that was found to allow an intent.
#[derive(Debug)]
pub struct MandateEvaluation {
    pub payload: MandatePayload,
    pub compact_jws: String,
    pub spend_room_minor: i64,
    /// Whether the signature was checked against the principal's keys.
    pub signature_verified: bool,
}

// ---------------------------------------------------------------------------
// Usage
// ---------------------------------------------------------------------------

/// What was spent under a mandate in the current window.
#[derive(Debug)]
pub struct MandateUsage {
    pub spent_minor: i64,
    pub window_start: Option<Timestamp>,
    /// Tenant that first spent; it alone may read the tally.
    pub tenant_id: String,
}

/// The model of a [`MandateUsage`].
pub struct UsageView {
    pub spent: int,
    pub window_start: Option<int>,
    pub tenant: Seq<char>,
}

impl View for MandateUsage {
    type V = UsageView;

    open spec fn view(&self) -> UsageView {
        UsageView {
            spent: self.spent_minor as int,
            window_start: match self.window_start {
                Some(t) => Some(t@),
                None => None,
            },
            tenant: self.tenant_id@,
        }
    }
}

impl Clone for MandateUsage {
    fn clone(&self) -> (r: Self)
        ensures
            r == *self,
    {
        MandateUsage {
            spent_minor: self.spent_minor,
            window_start: self.window_start,
            tenant_id: self.tenant_id.clone(),
        }
    }
}

/// Nothing spent, by nobody.
pub open spec fn unused() -> UsageView {
    UsageView { spent: 0, window_start: None, tenant: Seq::empty() }
}

impl Default for MandateUsage {
    fn default() -> (r: Self)
        ensures
            r@ == unused(),
    {
        MandateUsage { spent_minor: 0, window_start: None, tenant_id: String::new() }
    }
}

/// The bounds that a spend is held against.
#[derive(Debug, Clone, Copy)]
pub struct MandateSpendLimits {
    pub budget_minor: i64,
    pub per_transaction: Option<i64>,
    pub window: Span,
}

/// The model of [`MandateSpendLimits`].
pub struct LimitsView {
    pub budget: int,
    pub cap: Option<int>,
    pub window: int,
}

impl View for MandateSpendLimits {
    type V = LimitsView;

    open spec fn view(&self) -> LimitsView {
        LimitsView {
            budget: self.budget_minor as int,
            cap: match self.per_transaction {
                Some(c) => Some(c as int),
                None => None,
            },
            window: self.window@,
        }
    }
}

/// Whether the window that began at `start` is over at `now`.
pub open spec fn window_over(start: int, now: int, window: int) -> bool {
    now - start > window
}

impl UsageView {
    /// The usage of the window that is open at `now`: a new one when none was
    /// opened or the last is over.
    pub open spec fn at(self, now: int, window: int) -> UsageView {
        if self.window_start matches Some(s) && !window_over(s, now, window) {
            self
        } else {
            UsageView { spent: 0, window_start: Some(now), ..self }
        }
    }

    /// The usage with `tenant` as its owner, unless it has one.
    pub open spec fn owned_by(self, tenant: Seq<char>) -> UsageView {
        if self.tenant.len() == 0 {
            UsageView { tenant, ..self }
        } else {
            self
        }
    }

    /// What is left of `budget`.
    pub open spec fn remaining(self, budget: int) -> int {
        clamp64(budget - self.spent)
    }

    /// The usage after a spend of `amount`.
    pub open spec fn plus(self, amount: int) -> UsageView {
        UsageView { spent: clamp64(self.spent + amount), ..self }
    }
}

/// Why a spend is refused before any usage is looked at.
pub open spec fn limit_error(amount: int, limits: LimitsView) -> Option<ErrorView> {
    if limits.budget < 0 {
        Some(
            ErrorView::MandateBudgetExceeded(
                "mandate budget "@ + int_text(limits.budget) + " is negative"@,
            ),
        )
    } else if limits.cap matches Some(cap) && amount > cap {
        Some(cap_error(amount, limits.cap->0))
    } else {
        None
    }
}

/// The amount is over the cap per transaction.
pub open spec fn cap_error(amount: int, cap: int) -> ErrorView {
    ErrorView::MandateBudgetExceeded(
        "intent amount "@ + int_text(amount) + " exceeds per-transaction cap "@ + int_text(cap),
    )
}

/// The amount is over what is left of the budget.
pub open spec fn budget_error(amount: int, remaining: int) -> ErrorView {
    ErrorView::MandateBudgetExceeded(
        "intent amount "@ + int_text(amount) + " would exceed remaining budget "@ + int_text(
            remaining,
        ),
    )
}

fn cap_exceeded(amount: i64, cap: i64) -> (e: ApiError)
    ensures
        e@ == cap_error(amount as int, cap as int),
{
    let a = int_to_text(amount);
    let c = int_to_text(cap);
    ApiError::MandateBudgetExceeded(
        join4("intent amount ", a.as_str(), " exceeds per-transaction cap ", c.as_str()),
    )
}

fn budget_exceeded(amount: i64, remaining: i64) -> (e: ApiError)
    ensures
        e@ == budget_error(amount as int, remaining as int),
{
    let a = int_to_text(amount);
    let c = int_to_text(remaining);
    ApiError::MandateBudgetExceeded(
        join4("intent amount ", a.as_str(), " would exceed remaining budget ", c.as_str()),
    )
}

/// The outcome of a positive spend that is within the fixed limits: the usage
/// afterwards, and the error when the budget is too small. A refused spend leaves
/// the usage as it was.
pub open spec fn spend(
    u: UsageView,
    tenant: Seq<char>,
    amount: int,
    now: int,
    budget: int,
    window: int,
) -> (UsageView, Option<ErrorView>) {
    let open = u.at(now, window).owned_by(tenant);
    if amount > open.remaining(budget) {
        (u, Some(budget_error(amount, open.remaining(budget))))
    } else {
        (open.plus(amount), None)
    }
}

impl MandateUsage {
    /// Holds a positive spend that is within the fixed limits against what is
    /// left of the budget, and records it when it fits: the window is rolled over
    /// and the owner is set. A refused spend changes nothing.
    pub fn charge(
        &mut self,
        tenant_id: &str,
        amount_minor: i64,
        now: Timestamp,
        budget_minor: i64,
        window: Span,
    ) -> (r: Result<(), ApiError>)
        ensures
            final(self)@ == spend(
                old(self)@,
                tenant_id@,
                amount_minor as int,
                now@,
                budget_minor as int,
                window@,
            ).0,
            match r {
                Ok(()) => spend(
                    old(self)@,
                    tenant_id@,
                    amount_minor as int,
                    now@,
                    budget_minor as int,
                    window@,
                ).1 is None,
                Err(e) => spend(
                    old(self)@,
                    tenant_id@,
                    amount_minor as int,
                    now@,
                    budget_minor as int,
                    window@,
                ).1 == Some(e@),
            },
    {
        let fresh = match &self.window_start {
            Some(start) => now.since(start).longer_than(window),
            None => true,
        };
        let spent: i64 = if fresh {
            0
        } else {
            self.spent_minor
        };
        let remaining: i64 = sat_minus(budget_minor, spent);
        if amount_minor > remaining {
            return Err(budget_exceeded(amount_minor, remaining));
        }
        if fresh {
            self.window_start = Some(now);
        }
        if self.tenant_id.as_str().is_empty() {
            self.tenant_id = String::from_str(tenant_id);
        }
        self.spent_minor = sat_plus(spent, amount_minor);
        Ok(())
    }
}

// ---------------------------------------------------------------------------
// Ledger
// ---------------------------------------------------------------------------

/// What was spent under each mandate, kept in this process.
///
/// A restart forgets it, so a deployment that must not overspend keeps the same
/// rows in a database and applies [`MandateUsage::charge`] to them in one
/// transaction.
#[derive(Debug)]
pub struct MandateLedger {
    usage: Table<MandateUsage>,
}

impl View for MandateLedger {
    type V = Map<Seq<char>, UsageView>;

    closed spec fn view(&self) -> Map<Seq<char>, UsageView> {
        self.usage@.map_values(|u: MandateUsage| u@)
    }
}

/// The usage of the mandate `jti`; nothing when it is not in the ledger.
pub open spec fn usage_of(ledger: Map<Seq<char>, UsageView>, jti: Seq<char>) -> UsageView {
    if ledger.contains_key(jti) {
        ledger[jti]
    } else {
        unused()
    }
}

/// The usage after an unchecked spend.
pub open spec fn recorded(u: UsageView, tenant: Seq<char>, amount: int, now: int) -> UsageView {
    let opened = if u.window_start is None {
        UsageView { window_start: Some(now), ..u }
    } else {
        u
    };
    opened.owned_by(tenant).plus(amount)
}

impl Default for MandateLedger {
    fn default() -> (r: Self)
        ensures
            r@ == Map::<Seq<char>, UsageView>::empty(),
    {
        MandateLedger::new()
    }
}

impl MandateLedger {
    /// An empty ledger.
    pub fn new() -> (r: MandateLedger)
        ensures
            r@ == Map::<Seq<char>, UsageView>::empty(),
    {
        let r = MandateLedger { usage: Table::new() };
        assert(r@ =~= Map::<Seq<char>, UsageView>::empty());
        r
    }

    /// An empty ledger.
    pub fn in_memory() -> (r: MandateLedger)
        ensures
            r@ == Map::<Seq<char>, UsageView>::empty(),
    {
        MandateLedger::new()
    }

    /// What was spent under the mandate.
    pub fn usage(&self, jti: &str) -> (r: MandateUsage)
        ensures
            r@ == usage_of(self@, jti@),
    {
        match self.usage.get(jti) {
            Some(u) => u.clone(),
            None => MandateUsage::default(),
        }
    }

    /// What was spent under the mandate.
    pub fn try_usage(&self, jti: &str) -> (r: Result<MandateUsage, ApiError>)
        ensures
            r matches Ok(u) && u@ == usage_of(self@, jti@),
    {
        Ok(self.usage(jti))
    }

    /// What was spent under the mandate, for the tenant that first spent.
    pub fn usage_for_tenant(&self, jti: &str, tenant_id: &str) -> (r: Option<MandateUsage>)
        ensures
            match r {
                Some(u) => readable_by(usage_of(self@, jti@), tenant_id@) && u@ == usage_of(
                    self@,
                    jti@,
                ),
                None => !readable_by(usage_of(self@, jti@), tenant_id@),
            },
    {
        usage_if_owned(self.usage(jti), tenant_id)
    }

    /// What was spent under the mandate, for the tenant that first spent.
    pub fn try_usage_for_tenant(&self, jti: &str, tenant_id: &str) -> (r: Result<
        Option<MandateUsage>,
        ApiError,
    >)
        ensures
            match r {
                Ok(Some(u)) => readable_by(usage_of(self@, jti@), tenant_id@) && u@ == usage_of(
                    self@,
                    jti@,
                ),
                Ok(None) => !readable_by(usage_of(self@, jti@), tenant_id@),
                Err(_) => false,
            },
    {
        Ok(self.usage_for_tenant(jti, tenant_id))
    }

    fn take(&mut self, jti: &str) -> (u: MandateUsage)
        ensures
            u@ == usage_of(old(self)@, jti@),
            final(self)@ == old(self)@.remove(jti@),
    {
        let taken = self.usage.remove(jti);
        assert(self@ =~= old(self)@.remove(jti@));
        match taken {
            Some(u) => u,
            None => MandateUsage::default(),
        }
    }

    fn put(&mut self, jti: &str, u: MandateUsage)
        ensures
            final(self)@ == old(self)@.insert(jti@, u@),
    {
        self.usage.insert(String::from_str(jti), u);
        assert(self@ =~= old(self)@.insert(jti@, u@));
    }

    /// Adds a spend to the tally without holding it against a budget.
    pub fn record_spend(&mut self, jti: &str, tenant_id: &str, amount_minor: i64, now: Timestamp)
        ensures
            final(self)@ == old(self)@.insert(
                jti@,
                recorded(usage_of(old(self)@, jti@), tenant_id@, amount_minor as int, now@),
            ),
    {
        let mut u = self.take(jti);
        if u.window_start.is_none() {
            u.window_start = Some(now);
        }
        if u.tenant_id.as_str().is_empty() {
            u.tenant_id = String::from_str(tenant_id);
        }
        u.spent_minor = sat_plus(u.spent_minor, amount_minor);
        self.put(jti, u);
        assert(self@ =~= old(self)@.insert(jti@, u@));
    }

    /// Adds a spend to the tally without holding it against a budget.
    pub fn try_record_spend(
        &mut self,
        jti: &str,
        tenant_id: &str,
        amount_minor: i64,
        now: Timestamp,
    ) -> (r: Result<(), ApiError>)
        ensures
            r is Ok,
            final(self)@ == old(self)@.insert(
                jti@,
                recorded(usage_of(old(self)@, jti@), tenant_id@, amount_minor as int, now@),
            ),
    {
        self.record_spend(jti, tenant_id, amount_minor, now);
        Ok(())
    }

    /// Holds a spend against the limits of the mandate and records it when it
    /// fits; a refused one leaves the ledger as it was. An amount of zero or less
    /// is no spend.
    pub fn try_record_spend_checked(
        &mut self,
        jti: &str,
        tenant_id: &str,
        amount_minor: i64,
        now: Timestamp,
        limits: MandateSpendLimits,
    ) -> (r: Result<(), ApiError>)
        ensures
            final(self)@ == checked_ledger(
                old(self)@,
                jti@,
                tenant_id@,
                amount_minor as int,
                now@,
                limits@,
            ),
            match r {
                Ok(()) => checked_error(
                    old(self)@,
                    jti@,
                    tenant_id@,
                    amount_minor as int,
                    now@,
                    limits@,
                ) is None,
                Err(e) => checked_error(
                    old(self)@,
                    jti@,
                    tenant_id@,
                    amount_minor as int,
                    now@,
                    limits@,
                ) == Some(e@),
            },
    {
        if amount_minor <= 0 {
            return Ok(());
        }
        match check_limits(amount_minor, limits) {
            Ok(()) => {},
            Err(e) => {
                return Err(e);
            },
        }
        let mut u = self.usage(jti);
        match u.charge(tenant_id, amount_minor, now, limits.budget_minor, limits.window) {
            Ok(()) => {
                self.put(jti, u);
                assert(self@ =~= old(self)@.insert(jti@, u@));
                Ok(())
            },
            Err(e) => Err(e),
        }
    }
}

/// Whether the tenant may read the tally: it first spent under the mandate, and
/// something was spent.
pub open spec fn readable_by(u: UsageView, tenant: Seq<char>) -> bool {
    u != unused() && u.tenant == tenant
}

/// The usage when the tenant may read it.
pub fn usage_if_owned(usage: MandateUsage, tenant_id: &str) -> (r: Option<MandateUsage>)
    ensures
        match r {
            Some(u) => u == usage && readable_by(usage@, tenant_id@),
            None => !readable_by(usage@, tenant_id@),
        },
{
    if usage.window_start.is_none() && usage.spent_minor == 0
        && usage.tenant_id.as_str().is_empty() {
        assert(usage@.tenant =~= Seq::<char>::empty());
        return None;
    }
    if str_eq(usage.tenant_id.as_str(), tenant_id) {
        Some(usage)
    } else {
        None
    }
}

/// Holds the amount of a positive spend against the fixed limits.
pub fn check_limits(amount_minor: i64, limits: MandateSpendLimits) -> (r: Result<(), ApiError>)
    ensures
        match r {
            Ok(()) => limit_error(amount_minor as int, limits@) is None,
            Err(e) => limit_error(amount_minor as int, limits@) == Some(e@),
        },
{
    if limits.budget_minor < 0 {
        let b = int_to_text(limits.budget_minor);
        return Err(
            ApiError::MandateBudgetExceeded(join3("mandate budget ", b.as_str(), " is negative")),
        );
    }
    match limits.per_transaction {
        Some(cap) => {
            if amount_minor > cap {
                return Err(cap_exceeded(amount_minor, cap));
            }
        },
        None => {},
    }
    Ok(())
}

/// Why a checked spend is refused.
pub open spec fn checked_error(
    ledger: Map<Seq<char>, UsageView>,
    jti: Seq<char>,
    tenant: Seq<char>,
    amount: int,
    now: int,
    limits: LimitsView,
) -> Option<ErrorView> {
    if amount <= 0 {
        None
    } else if limit_error(amount, limits) is Some {
        limit_error(amount, limits)
    } else {
        spend(
            usage_of(ledger, jti),
            tenant,
            amount,
            now,
            limits.budget,
            limits.window,
        ).1
    }
}

/// The ledger after a checked spend: as it was, when the spend is refused.
pub open spec fn checked_ledger(
    ledger: Map<Seq<char>, UsageView>,
    jti: Seq<char>,
    tenant: Seq<char>,
    amount: int,
    now: int,
    limits: LimitsView,
) -> Map<Seq<char>, UsageView> {
    if amount <= 0 || checked_error(ledger, jti, tenant, amount, now, limits) is Some {
        ledger
    } else {
        ledger.insert(
            jti,
            spend(
                usage_of(ledger, jti),
                tenant,
                amount,
                now,
                limits.budget,
                limits.window,
            ).0,
        )
    }
}

// ---------------------------------------------------------------------------
// Periods and jurisdictions
// ---------------------------------------------------------------------------

/// The span that a count of units stands for, in nanoseconds.
pub open spec fn counted(count: Seq<char>, unit_nanos: int) -> Option<int> {
    match in_bounds(parsed_int(count), i64::MIN as int, i64::MAX as int) {
        Some(n) => Some(n * unit_nanos),
        None => None,
    }
}

/// The span that a period stands for, in nanoseconds: `PT<n>H` hours, `P<n>D`
/// days, `P<n>W` weeks, `P<n>M` months of thirty days.
pub open spec fn period_nanos(s: Seq<char>) -> Option<int> {
    match after_prefix(s, "P"@) {
        None => None,
        Some(inner) => match after_prefix(inner, "T"@) {
            Some(rest) => match before_suffix(rest, "H"@) {
                Some(n) => counted(n, 3_600_000_000_000),
                None => None,
            },
            None => if let Some(n) = before_suffix(inner, "D"@) {
                counted(n, 86_400_000_000_000)
            } else if let Some(n) = before_suffix(inner, "W"@) {
                counted(n, 604_800_000_000_000)
            } else if let Some(n) = before_suffix(inner, "M"@) {
                counted(n, 2_592_000_000_000_000)
            } else {
                None
            },
        },
    }
}

/// Whether the period, if it is one, fits a [`Span`].
pub open spec fn period_fits(s: Option<Seq<char>>) -> bool {
    s matches Some(t) ==> (period_nanos(t) matches Some(n) ==> spannable(n))
}

/// The span of an optional period.
pub open spec fn opt_period(s: Option<Seq<char>>) -> Option<int> {
    match s {
        Some(t) => period_nanos(t),
        None => None,
    }
}

fn count_units(count: &str, unit_nanos: i64) -> (r: Option<i128>)
    requires
        0 <= unit_nanos <= 2_592_000_000_000_000,
    ensures
        match r {
            Some(n) => counted(count@, unit_nanos as int) == Some(n as int),
            None => counted(count@, unit_nanos as int) is None,
        },
{
    match parse_i64(count) {
        Some(n) => {
            assert(-0x100_0000_0000_0000_0000_0000_0000_0000 <= n * unit_nanos
                <= 0x100_0000_0000_0000_0000_0000_0000_0000) by (nonlinear_arith)
                requires
                    -0x8000_0000_0000_0000 <= n <= 0x7fff_ffff_ffff_ffff,
                    0 <= unit_nanos <= 2_592_000_000_000_000,
            ;
            Some(n as i128 * unit_nanos as i128)
        },
        None => None,
    }
}

fn read_period(s: &str) -> (r: Option<i128>)
    ensures
        match r {
            Some(n) => period_nanos(s@) == Some(n as int),
            None => period_nanos(s@) is None,
        },
{
    let inner = match strip_prefix(s, "P") {
        Some(inner) => inner,
        None => {
            return None;
        },
    };
    match strip_prefix(inner, "T") {
        Some(rest) => {
            return match strip_suffix(rest, "H") {
                Some(n) => count_units(n, 3_600_000_000_000),
                None => None,
            };
        },
        None => {},
    }
    match strip_suffix(inner, "D") {
        Some(n) => {
            return count_units(n, 86_400_000_000_000);
        },
        None => {},
    }
    match strip_suffix(inner, "W") {
        Some(n) => {
            return count_units(n, 604_800_000_000_000);
        },
        None => {},
    }
    match strip_suffix(inner, "M") {
        Some(n) => count_units(n, 2_592_000_000_000_000),
        None => None,
    }
}

/// Reads a period. Only the common forms of ISO 8601 durations are known; a
/// month counts as thirty days.
pub fn parse_period(s: Option<&str>) -> (r: Option<Span>)
    requires
        period_fits(opt_view(s)),
    ensures
        match r {
            Some(span) => opt_period(opt_view(s)) == Some(span@),
            None => opt_period(opt_view(s)) is None,
        },
{
    match s {
        Some(t) => match read_period(t) {
            Some(n) => Some(Span::nanoseconds(n)),
            None => None,
        },
        None => None,
    }
}

/// Whether the period, if it is one, is short enough for [`parse_period`].
pub fn period_is_representable(s: Option<&str>) -> (r: bool)
    ensures
        r == period_fits(opt_view(s)),
{
    match s {
        Some(t) => match read_period(t) {
            Some(n) => -9_223_372_036_854_775_807_000_000 <= n && n
                <= 9_223_372_036_854_775_807_000_000,
            None => true,
        },
        None => true,
    }
}

/// Whether a listed jurisdiction covers an actual one: they are the same, or
/// the listed one is the country of the actual subdivision. Case does not
/// matter.
pub open spec fn covers(allowed: Seq<char>, actual: Seq<char>) -> bool {
    eq_ignoring_case(allowed, actual) || (split_at_first(actual, '-') matches Some((country, _))
        && eq_ignoring_case(allowed, country))
}

/// Whether a mandate's `allowed` jurisdiction authorizes an intent's `actual`
/// one: `US` covers `US-CA`, but `US-CA` does not cover `US`.
pub fn jurisdiction_authorizes(allowed: &str, actual: &str) -> (r: bool)
    ensures
        r == covers(allowed@, actual@),
{
    if eq_ignore_ascii_case(allowed, actual) {
        return true;
    }
    match split_once(actual, '-') {
        Some((country, _)) => eq_ignore_ascii_case(allowed, country),
        None => false,
    }
}

/// Whether some listed jurisdiction covers the actual one.
pub open spec fn any_covers(list: Seq<String>, actual: Seq<char>) -> bool {
    exists|i: int| 0 <= i < list.len() && covers((#[trigger] list[i])@, actual)
}

fn any_authorizes(list: &Vec<String>, actual: &str) -> (r: bool)
    ensures
        r == any_covers(list@, actual@),
{
    let mut i: usize = 0;
    while i < list.len()
        invariant
            i <= list@.len(),
            forall|j: int| 0 <= j < i ==> !covers((#[trigger] list@[j])@, actual@),
        decreases list@.len() - i,
    {
        if jurisdiction_authorizes(list[i].as_str(), actual) {
            return true;
        }
        i += 1;
    }
    false
}

// ---------------------------------------------------------------------------
// Evaluation
// ---------------------------------------------------------------------------

/// The window of a budget: its period, or a day.
pub open spec fn budget_window(period: Option<Seq<char>>) -> int {
    match opt_period(period) {
        Some(n) => n,
        None => 86_400_000_000_000,
    }
}

impl UsageView {
    /// What counts as spent at `now` when an intent is evaluated.
    pub open spec fn counted_at(self, now: int, window: int) -> int {
        if self.window_start matches Some(s) && window_over(s, now, window) {
            0
        } else {
            self.spent
        }
    }
}

impl MandatePayload {
    /// The bounds that a spend under this mandate is held against.
    pub open spec fn limits(self) -> LimitsView {
        LimitsView {
            budget: self.icp.budget.amount_minor as int,
            cap: match self.icp.budget.per_transaction {
                Some(c) => Some(c as int),
                None => None,
            },
            window: budget_window(opt_text(self.icp.budget.period)),
        }
    }

    /// What is left of the budget at `now`.
    pub open spec fn room(self, usage: UsageView, now: int) -> int {
        clamp64(
            self.icp.budget.amount_minor - usage.counted_at(
                now,
                budget_window(opt_text(self.icp.budget.period)),
            ),
        )
    }

    /// Why the mandate is not in force at `now`.
    pub open spec fn validity_error(self, now: int) -> Option<ErrorView> {
        if !(crate::time::MIN_SECS <= self.nbf <= crate::time::MAX_SECS) {
            Some(ErrorView::MandateInvalid("mandate: invalid `nbf`"@))
        } else if !(crate::time::MIN_SECS <= self.exp <= crate::time::MAX_SECS) {
            Some(ErrorView::MandateInvalid("mandate: invalid `exp`"@))
        } else if now < self.nbf * 1_000_000_000 {
            Some(ErrorView::MandateInvalid("mandate not yet valid"@))
        } else if now > self.exp * 1_000_000_000 {
            Some(ErrorView::MandateInvalid("mandate expired"@))
        } else if self.icp.version@.len() == 0 {
            Some(ErrorView::MandateInvalid("mandate: missing icp.version"@))
        } else {
            None
        }
    }

    /// Why the mandate does not extend to an intent of this scope, at this
    /// merchant, in this jurisdiction.
    pub open spec fn scope_error(
        self,
        scope: Seq<char>,
        tenant: Seq<char>,
        jurisdiction: Option<Seq<char>>,
    ) -> Option<ErrorView> {
        if !seq_has_text(self.icp.scope@, scope) {
            Some(ErrorView::MandateOutOfScope("mandate does not authorize scope `"@ + scope + "`"@))
        } else if self.icp.merchants@.len() > 0 && !seq_has_text(self.icp.merchants@, "*"@)
            && !seq_has_text(self.icp.merchants@, tenant) {
            Some(
                ErrorView::MandateOutOfScope(
                    "mandate does not authorize merchant `"@ + tenant + "`"@,
                ),
            )
        } else if self.icp.jurisdictions@.len() > 0 && !seq_has_text(self.icp.jurisdictions@, "*"@)
            && jurisdiction is None {
            Some(
                ErrorView::MandateOutOfScope(
                    "mandate constrains jurisdictions but the intent declares none"@,
                ),
            )
        } else if self.icp.jurisdictions@.len() > 0 && !seq_has_text(self.icp.jurisdictions@, "*"@)
            && !any_covers(self.icp.jurisdictions@, jurisdiction->0) {
            Some(
                ErrorView::MandateOutOfScope(
                    "mandate does not authorize jurisdiction `"@ + jurisdiction->0 + "`"@,
                ),
            )
        } else if self.icp.policies.prohibit_subscriptions && scope == "subscribe"@ {
            Some(ErrorView::MandateOutOfScope("mandate policy prohibits subscriptions"@))
        } else {
            None
        }
    }

    /// Why the amount is over the budget.
    pub open spec fn amount_error(self, amount: int, now: int, usage: UsageView) -> Option<
        ErrorView,
    > {
        if self.icp.budget.per_transaction matches Some(cap) && amount > cap {
            Some(cap_error(amount, self.icp.budget.per_transaction->0 as int))
        } else if amount > self.room(usage, now) {
            Some(budget_error(amount, self.room(usage, now)))
        } else {
            None
        }
    }

    /// Whether every check before that of the budget passes, so that its window
    /// is looked at.
    pub open spec fn reaches_budget(
        self,
        scope: Seq<char>,
        amount: int,
        now: int,
        tenant: Seq<char>,
        jurisdiction: Option<Seq<char>>,
    ) -> bool {
        &&& self.validity_error(now) is None
        &&& self.scope_error(scope, tenant, jurisdiction) is None
        &&& self.icp.budget.per_transaction matches Some(cap) ==> amount <= cap
    }

    /// Why the mandate does not allow an intent, in the order of the checks.
    pub open spec fn refusal(
        self,
        scope: Seq<char>,
        amount: int,
        now: int,
        tenant: Seq<char>,
        jurisdiction: Option<Seq<char>>,
        usage: UsageView,
    ) -> Option<ErrorView> {
        if self.validity_error(now) is Some {
            self.validity_error(now)
        } else if self.scope_error(scope, tenant, jurisdiction) is Some {
            self.scope_error(scope, tenant, jurisdiction)
        } else {
            self.amount_error(amount, now, usage)
        }
    }

    fn check_validity(&self, now: Timestamp) -> (r: Result<(), ApiError>)
        ensures
            match r {
                Ok(()) => self.validity_error(now@) is None,
                Err(e) => self.validity_error(now@) == Some(e@),
            },
    {
        let nbf = match Timestamp::from_unix(self.nbf) {
            Some(t) => t,
            None => {
                return Err(ApiError::MandateInvalid(String::from_str("mandate: invalid `nbf`")));
            },
        };
        let exp = match Timestamp::from_unix(self.exp) {
            Some(t) => t,
            None => {
                return Err(ApiError::MandateInvalid(String::from_str("mandate: invalid `exp`")));
            },
        };
        if now.before(&nbf) {
            return Err(ApiError::MandateInvalid(String::from_str("mandate not yet valid")));
        }
        if exp.before(&now) {
            return Err(ApiError::MandateInvalid(String::from_str("mandate expired")));
        }
        if self.icp.version.as_str().is_empty() {
            return Err(ApiError::MandateInvalid(String::from_str("mandate: missing icp.version")));
        }
        Ok(())
    }

    fn check_scope(&self, scope: &str, tenant_id: &str, jurisdiction: Option<&str>) -> (r: Result<
        (),
        ApiError,
    >)
        ensures
            match r {
                Ok(()) => self.scope_error(scope@, tenant_id@, opt_view(jurisdiction)) is None,
                Err(e) => self.scope_error(scope@, tenant_id@, opt_view(jurisdiction)) == Some(e@),
            },
    {
        if !has_text(&self.icp.scope, scope) {
            return Err(
                ApiError::MandateOutOfScope(join3("mandate does not authorize scope `", scope, "`")),
            );
        }
        if self.icp.merchants.len() > 0 && !has_text(&self.icp.merchants, "*") && !has_text(
            &self.icp.merchants,
            tenant_id,
        ) {
            return Err(
                ApiError::MandateOutOfScope(
                    join3("mandate does not authorize merchant `", tenant_id, "`"),
                ),
            );
        }
        if self.icp.jurisdictions.len() > 0 && !has_text(&self.icp.jurisdictions, "*") {
            match jurisdiction {
                Some(j) => {
                    if !any_authorizes(&self.icp.jurisdictions, j) {
                        return Err(
                            ApiError::MandateOutOfScope(
                                join3("mandate does not authorize jurisdiction `", j, "`"),
                            ),
                        );
                    }
                },
                None => {
                    return Err(
                        ApiError::MandateOutOfScope(
                            String::from_str(
                                "mandate constrains jurisdictions but the intent declares none",
                            ),
                        ),
                    );
                },
            }
        }
        if self.icp.policies.prohibit_subscriptions && str_eq(scope, "subscribe") {
            return Err(
                ApiError::MandateOutOfScope(
                    String::from_str("mandate policy prohibits subscriptions"),
                ),
            );
        }
        Ok(())
    }

    fn check_amount(&self, amount_minor: i64, now: Timestamp, usage: &MandateUsage) -> (r: Result<
        i64,
        ApiError,
    >)
        requires
            (self.icp.budget.per_transaction matches Some(cap) ==> amount_minor <= cap)
                ==> period_fits(opt_text(self.icp.budget.period)),
        ensures
            match r {
                Ok(room) => self.amount_error(amount_minor as int, now@, usage@) is None && room
                    == self.room(usage@, now@),
                Err(e) => self.amount_error(amount_minor as int, now@, usage@) == Some(e@),
            },
    {
        match self.icp.budget.per_transaction {
            Some(cap) => {
                if amount_minor > cap {
                    return Err(cap_exceeded(amount_minor, cap));
                }
            },
            None => {},
        }
        let window = self.icp.budget.window();
        let over = match &usage.window_start {
            Some(start) => now.since(start).longer_than(window),
            None => false,
        };
        let spent: i64 = if over {
            0
        } else {
            usage.spent_minor
        };
        let remaining: i64 = sat_minus(self.icp.budget.amount_minor, spent);
        if amount_minor > remaining {
            return Err(budget_exceeded(amount_minor, remaining));
        }
        Ok(remaining)
    }
}

impl MandateBudget {
    /// The window of the budget: its period, or a day.
    pub fn window(&self) -> (r: Span)
        requires
            period_fits(opt_text(self.period)),
        ensures
            r@ == budget_window(opt_text(self.period)),
    {
        let period = match &self.period {
            Some(p) => Some(p.as_str()),
            None => None,
        };
        match parse_period(period) {
            Some(span) => span,
            None => Span::days(1),
        }
    }
}

/// What holding an intent against the terms of a mandate comes to.
pub open spec fn judged(
    payload: MandatePayload,
    compact_jws: Seq<char>,
    scope: Seq<char>,
    amount: int,
    now: int,
    tenant: Seq<char>,
    jurisdiction: Option<Seq<char>>,
    ledger: Map<Seq<char>, UsageView>,
    r: Result<MandateEvaluation, ApiError>,
) -> bool {
    let usage = usage_of(ledger, payload.jti@);
    let refusal = payload.refusal(scope, amount, now, tenant, jurisdiction, usage);
    match r {
        Ok(ev) => {
            &&& refusal is None
            &&& ev.payload == payload
            &&& ev.compact_jws@ == compact_jws
            &&& ev.spend_room_minor == payload.room(usage, now)
            &&& !ev.signature_verified
        },
        Err(e) => refusal == Some(e@),
    }
}

/// Holds an intent against the terms of a mandate.
///
/// `intent_scope` is the scope that the intent needs and
/// `candidate_amount_minor` the most that it would spend. The signature is not
/// looked at: the evaluation says so, and
/// [`MandateEvaluation::with_signature`] turns it into one that was checked.
pub fn evaluate(
    payload: MandatePayload,
    compact_jws: &str,
    intent_scope: &str,
    candidate_amount_minor: i64,
    now: Timestamp,
    tenant_id: &str,
    jurisdiction: Option<&str>,
    ledger: &MandateLedger,
) -> (r: Result<MandateEvaluation, ApiError>)
    requires
        payload.reaches_budget(
            intent_scope@,
            candidate_amount_minor as int,
            now@,
            tenant_id@,
            opt_view(jurisdiction),
        ) ==> period_fits(opt_text(payload.icp.budget.period)),
    ensures
        judged(
            payload,
            compact_jws@,
            intent_scope@,
            candidate_amount_minor as int,
            now@,
            tenant_id@,
            opt_view(jurisdiction),
            ledger@,
            r,
        ),
{
    match payload.check_validity(now) {
        Ok(()) => {},
        Err(e) => {
            return Err(e);
        },
    }
    match payload.check_scope(intent_scope, tenant_id, jurisdiction) {
        Ok(()) => {},
        Err(e) => {
            return Err(e);
        },
    }
    let usage = ledger.usage(payload.jti.as_str());
    match payload.check_amount(candidate_amount_minor, now, &usage) {
        Ok(remaining) => Ok(
            MandateEvaluation {
                payload,
                compact_jws: String::from_str(compact_jws),
                spend_room_minor: remaining,
                signature_verified: false,
            },
        ),
        Err(e) => Err(e),
    }
}

impl MandateEvaluation {
    /// The evaluation after the signature was checked: marked as verified when
    /// the check passed, and the error of the check otherwise.
    pub fn with_signature(self, checked: Result<(), ApiError>) -> (r: Result<
        MandateEvaluation,
        ApiError,
    >)
        ensures
            match checked {
                Ok(()) => r == Ok::<MandateEvaluation, ApiError>(
                    MandateEvaluation { signature_verified: true, ..self },
                ),
                Err(e) => r == Err::<MandateEvaluation, ApiError>(e),
            },
    {
        match checked {
            Ok(()) => Ok(
                MandateEvaluation {
                    payload: self.payload,
                    compact_jws: self.compact_jws,
                    spend_room_minor: self.spend_room_minor,
                    signature_verified: true,
                },
            ),
            Err(e) => Err(e),
        }
    }
}

// ---------------------------------------------------------------------------
// Framing and signature
// ---------------------------------------------------------------------------

/// The header of a mandate, as far as it matters.
#[derive(Debug)]
pub struct MandateHeader {
    /// Algorithm name; empty when absent.
    pub alg: String,
    pub kid: Option<String>,
}

/// The three segments of a mandate, or what is wrong with the framing.
pub open spec fn mandate_segments(jws: Seq<char>) -> Result<
    (Seq<char>, Seq<char>, Seq<char>),
    ErrorView,
> {
    match jws_segments(jws) {
        Ok(t) => Ok(t),
        Err(SegmentError::MissingPayload) => Err(
            ErrorView::MandateInvalid("mandate: missing payload segment"@),
        ),
        Err(SegmentError::MissingSignature) => Err(
            ErrorView::MandateInvalid("mandate: missing signature segment"@),
        ),
        Err(SegmentError::ExtraSegments) => Err(
            ErrorView::MandateInvalid("mandate: unexpected extra segments"@),
        ),
    }
}

/// The three base64url segments of a mandate.
pub fn split_compact<'a>(compact_jws: &'a str) -> (r: Result<(&'a str, &'a str, &'a str), ApiError>)
    ensures
        match r {
            Ok((h, p, s)) => mandate_segments(compact_jws@) matches Ok(t) && t == (h@, p@, s@),
            Err(e) => mandate_segments(compact_jws@) matches Err(x) && x == e@,
        },
{
    match segments(compact_jws) {
        Ok(t) => Ok(t),
        Err(SegmentError::MissingPayload) => Err(
            ApiError::MandateInvalid(String::from_str("mandate: missing payload segment")),
        ),
        Err(SegmentError::MissingSignature) => Err(
            ApiError::MandateInvalid(String::from_str("mandate: missing signature segment")),
        ),
        Err(SegmentError::ExtraSegments) => Err(
            ApiError::MandateInvalid(String::from_str("mandate: unexpected extra segments")),
        ),
    }
}

/// The bytes of the payload of a mandate, or what is wrong with it.
pub open spec fn payload_of(jws: Seq<char>) -> Result<Seq<u8>, ErrorView> {
    match mandate_segments(jws) {
        Err(e) => Err(e),
        Ok((_, p, _)) => match base64url_bytes(p) {
            Ok(bytes) => Ok(bytes),
            Err(_) => Err(ErrorView::MandateInvalid("mandate: payload not base64url"@)),
        },
    }
}

/// The bytes of the header of a mandate, or what is wrong with it.
pub open spec fn header_of(jws: Seq<char>) -> Result<Seq<u8>, ErrorView> {
    match mandate_segments(jws) {
        Err(e) => Err(e),
        Ok((h, _, _)) => match base64url_bytes(h) {
            Ok(bytes) => Ok(bytes),
            Err(_) => Err(ErrorView::MandateInvalid("mandate: header not base64url"@)),
        },
    }
}

/// The JSON text of the payload of a mandate.
pub fn payload_bytes(compact_jws: &str) -> (r: Result<Vec<u8>, ApiError>)
    ensures
        match r {
            Ok(b) => payload_of(compact_jws@) == Ok::<Seq<u8>, ErrorView>(b@),
            Err(e) => payload_of(compact_jws@) == Err::<Seq<u8>, ErrorView>(e@),
        },
{
    match split_compact(compact_jws) {
        Err(e) => Err(e),
        Ok((_, p, _)) => match base64url_decode(p) {
            Ok(b) => Ok(b),
            Err(_) => Err(
                ApiError::MandateInvalid(String::from_str("mandate: payload not base64url")),
            ),
        },
    }
}

/// The JSON text of the header of a mandate.
pub fn header_bytes(compact_jws: &str) -> (r: Result<Vec<u8>, ApiError>)
    ensures
        match r {
            Ok(b) => header_of(compact_jws@) == Ok::<Seq<u8>, ErrorView>(b@),
            Err(e) => header_of(compact_jws@) == Err::<Seq<u8>, ErrorView>(e@),
        },
{
    match split_compact(compact_jws) {
        Err(e) => Err(e),
        Ok((h, _, _)) => match base64url_decode(h) {
            Ok(b) => Ok(b),
            Err(_) => Err(
                ApiError::MandateInvalid(String::from_str("mandate: header not base64url")),
            ),
        },
    }
}

/// The payload of a mandate whose signature was not looked at. `parsed` is what
/// the JSON reader made of [`payload_bytes`]; it counts only when the framing is
/// sound.
pub fn decode_unverified(compact_jws: &str, parsed: Result<MandatePayload, String>) -> (r: Result<
    MandatePayload,
    ApiError,
>)
    ensures
        match payload_of(compact_jws@) {
            Err(x) => r matches Err(e) && e@ == x,
            Ok(_) => match parsed {
                Ok(p) => r == Ok::<MandatePayload, ApiError>(p),
                Err(m) => r matches Err(e) && e@ == ErrorView::MandateInvalid("mandate: "@ + m@),
            },
        },
{
    match payload_bytes(compact_jws) {
        Err(e) => Err(e),
        Ok(_) => match parsed {
            Ok(p) => Ok(p),
            Err(m) => Err(ApiError::MandateInvalid(join2("mandate: ", m.as_str()))),
        },
    }
}

/// A signature that is to be held against the keys of the issuer.
#[derive(Debug)]
pub struct SignatureRequest {
    signing_input: String,
    signature: Vec<u8>,
    kid: Option<String>,
}

impl SignatureRequest {
    #[verifier::type_invariant]
    spec fn inv(self) -> bool {
        self.signature@.len() == 64
    }

    /// The text that was signed.
    pub closed spec fn text(self) -> Seq<char> {
        self.signing_input@
    }

    /// The signature.
    pub closed spec fn bytes(self) -> Seq<u8> {
        self.signature@
    }

    /// The key that the header names.
    pub closed spec fn key_id(self) -> Option<Seq<char>> {
        opt_text(self.kid)
    }
}

/// Why the signature of a mandate cannot be checked at all, in the order of the
/// checks.
pub open spec fn request_error(
    jws: Seq<char>,
    header: Result<MandateHeader, String>,
) -> Option<ErrorView> {
    match header_of(jws) {
        Err(e) => Some(e),
        Ok(_) => match header {
            Err(m) => Some(ErrorView::MandateInvalid("mandate: header JSON: "@ + m@)),
            Ok(h) => if h.alg@ == "none"@ {
                Some(
                    ErrorView::MandateInvalid(
                        "mandate: `alg:none` rejected when signature verification is enabled"@,
                    ),
                )
            } else if h.alg@ != "EdDSA"@ {
                Some(
                    ErrorView::MandateInvalid(
                        "mandate: unsupported alg `"@ + h.alg@ + "` (only EdDSA accepted)"@,
                    ),
                )
            } else {
                match base64url_bytes(mandate_segments(jws)->Ok_0.2) {
                    Err(_) => Some(ErrorView::MandateInvalid("mandate: signature not base64url"@)),
                    Ok(sig) => if sig.len() != 64 {
                        Some(
                            ErrorView::MandateInvalid(
                                "mandate: Ed25519 signature must be 64 bytes, got "@ + nat_text(
                                    sig.len(),
                                ),
                            ),
                        )
                    } else {
                        None
                    },
                }
            },
        },
    }
}

/// What the preparation of a signature check comes to.
pub open spec fn requested(
    jws: Seq<char>,
    header: Result<MandateHeader, String>,
    r: Result<SignatureRequest, ApiError>,
) -> bool {
    match r {
        Ok(q) => {
            &&& request_error(jws, header) is None
            &&& mandate_segments(jws) matches Ok((h, p, s)) && q.text() == signing_text(h, p)
                && base64url_bytes(s) == Ok::<Seq<u8>, Seq<char>>(q.bytes())
            &&& header matches Ok(hd) && q.key_id() == opt_text(hd.kid)
        },
        Err(e) => request_error(jws, header) == Some(e@),
    }
}

/// Prepares the check of a mandate's signature. `header` is what the JSON reader
/// made of [`header_bytes`]. Only `EdDSA` is accepted; `none` is refused
/// outright.
pub fn signature_request(compact_jws: &str, header: Result<MandateHeader, String>) -> (r: Result<
    SignatureRequest,
    ApiError,
>)
    ensures
        requested(compact_jws@, header, r),
{
    match header_bytes(compact_jws) {
        Err(e) => {
            return Err(e);
        },
        Ok(_) => {},
    }
    let header = match header {
        Ok(h) => h,
        Err(m) => {
            return Err(ApiError::MandateInvalid(join2("mandate: header JSON: ", m.as_str())));
        },
    };
    if str_eq(header.alg.as_str(), "none") {
        return Err(
            ApiError::MandateInvalid(
                String::from_str(
                    "mandate: `alg:none` rejected when signature verification is enabled",
                ),
            ),
        );
    }
    if !str_eq(header.alg.as_str(), "EdDSA") {
        return Err(
            ApiError::MandateInvalid(
                join3(
                    "mandate: unsupported alg `",
                    header.alg.as_str(),
                    "` (only EdDSA accepted)",
                ),
            ),
        );
    }
    match split_compact(compact_jws) {
        Err(e) => Err(e),
        Ok((h, p, s)) => match base64url_decode(s) {
            Err(_) => Err(
                ApiError::MandateInvalid(String::from_str("mandate: signature not base64url")),
            ),
            Ok(signature) => {
                if signature.len() != 64 {
                    let n = nat_to_text(signature.len() as u128);
                    return Err(
                        ApiError::MandateInvalid(
                            join2("mandate: Ed25519 signature must be 64 bytes, got ", n.as_str()),
                        ),
                    );
                }
                let text = signing_input(h, p);
                Ok(SignatureRequest { signing_input: text, signature, kid: header.kid })
            },
        },
    }
}

/// Whether the key is one that the header names.
pub open spec fn named(key: VerifyingKeyEntry, kid: Option<Seq<char>>) -> bool {
    kid is Some && opt_text(key.kid) == kid
}

/// Whether some key of the list is one that the header names.
pub open spec fn some_named(keys: Seq<VerifyingKeyEntry>, kid: Option<Seq<char>>) -> bool {
    exists|i: int| 0 <= i < keys.len() && named(#[trigger] keys[i], kid)
}

/// Whether the key is one to try: one that the header names, and any key when the
/// header names none of the list.
pub open spec fn candidate(
    key: VerifyingKeyEntry,
    keys: Seq<VerifyingKeyEntry>,
    kid: Option<Seq<char>>,
) -> bool {
    named(key, kid) || !some_named(keys, kid)
}

/// Whether some key to try accepts the signature over the text.
pub open spec fn some_key_accepts(
    keys: Seq<VerifyingKeyEntry>,
    kid: Option<Seq<char>>,
    text: Seq<char>,
    signature: Seq<u8>,
) -> bool {
    exists|i: int|
        0 <= i < keys.len() && candidate(#[trigger] keys[i], keys, kid) && signature_accepted(
            keys[i].key@,
            encode_utf8(text),
            signature,
        )
}

fn key_is_named(key: &VerifyingKeyEntry, kid: Option<&str>) -> (r: bool)
    ensures
        r == named(*key, opt_view(kid)),
{
    match kid {
        Some(k) => opt_str_eq(&key.kid, k),
        None => false,
    }
}

fn any_named(keys: &Vec<VerifyingKeyEntry>, kid: Option<&str>) -> (r: bool)
    ensures
        r == some_named(keys@, opt_view(kid)),
{
    let mut i: usize = 0;
    while i < keys.len()
        invariant
            i <= keys@.len(),
            forall|j: int| 0 <= j < i ==> !named(#[trigger] keys@[j], opt_view(kid)),
        decreases keys@.len() - i,
    {
        if key_is_named(&keys[i], kid) {
            assert(named(keys@[i as int], opt_view(kid)));
            return true;
        }
        i += 1;
    }
    false
}

fn try_keys(keys: &Vec<VerifyingKeyEntry>, request: &SignatureRequest) -> (r: bool)
    ensures
        r == some_key_accepts(keys@, request.key_id(), request.text(), request.bytes()),
{
    proof {
        use_type_invariant(request);
    }
    let kid = match &request.kid {
        Some(k) => Some(k.as_str()),
        None => None,
    };
    let located = any_named(keys, kid);
    let message = request.signing_input.as_str().as_bytes();
    let mut i: usize = 0;
    while i < keys.len()
        invariant
            i <= keys@.len(),
            request.signature@.len() == 64,
            message@ == encode_utf8(request.text()),
            opt_view(kid) == request.key_id(),
            located == some_named(keys@, opt_view(kid)),
            forall|j: int|
                0 <= j < i && candidate(#[trigger] keys@[j], keys@, opt_view(kid))
                    ==> !signature_accepted(
                    keys@[j].key@,
                    encode_utf8(request.text()),
                    request.bytes(),
                ),
        decreases keys@.len() - i,
    {
        let wanted = !located || key_is_named(&keys[i], kid);
        assert(wanted == candidate(keys@[i as int], keys@, opt_view(kid)));
        if wanted && keys[i].key.accepts(message, &request.signature) {
            return true;
        }
        i += 1;
    }
    false
}

/// What the check of a signature against the keys of the issuer comes to.
pub open spec fn checked_against(
    request: SignatureRequest,
    keys: Result<Vec<VerifyingKeyEntry>, ResolveError>,
    r: Result<(), ApiError>,
) -> bool {
    match keys {
        Err(e) => r matches Err(x) && x@ == ErrorView::MandateInvalid(
            "principal resolve: "@ + e@.text(),
        ),
        Ok(keys) => if keys@.len() == 0 {
            r matches Err(x) && x@ == ErrorView::MandateInvalid(
                "principal advertises no verifying keys"@,
            )
        } else if some_key_accepts(keys@, request.key_id(), request.text(), request.bytes()) {
            r is Ok
        } else {
            r matches Err(x) && x@ == ErrorView::MandateInvalid(
                "mandate: signature did not verify against principal keyset"@,
            )
        },
    }
}

/// Checks the signature of a mandate against the keys of its issuer, given as
/// the resolver found them. Where the header names a key of the list, only that key is
/// tried; otherwise all are.
pub fn verify_signature(
    request: &SignatureRequest,
    keys: Result<Vec<VerifyingKeyEntry>, ResolveError>,
) -> (r: Result<(), ApiError>)
    ensures
        checked_against(*request, keys, r),
{
    let keys = match keys {
        Ok(k) => k,
        Err(e) => {
            let m = e.to_text();
            return Err(ApiError::MandateInvalid(join2("principal resolve: ", m.as_str())));
        },
    };
    if keys.len() == 0 {
        return Err(
            ApiError::MandateInvalid(String::from_str("principal advertises no verifying keys")),
        );
    }
    if try_keys(&keys, request) {
        Ok(())
    } else {
        Err(
            ApiError::MandateInvalid(
                String::from_str("mandate: signature did not verify against principal keyset"),
            ),
        )
    }
}

// ---------------------------------------------------------------------------
// Laws
// ---------------------------------------------------------------------------

/// A spend that was accepted never takes the tally over the budget.
pub proof fn law_spend_stays_within_budget(
    u: UsageView,
    tenant: Seq<char>,
    amount: int,
    now: int,
    budget: int,
    window: int,
)
    requires
        0 < amount <= i64::MAX,
        0 <= budget <= i64::MAX,
        i64::MIN <= u.spent <= i64::MAX,
    ensures
        spend(u, tenant, amount, now, budget, window).1 is None ==> spend(
            u,
            tenant,
            amount,
            now,
            budget,
            window,
        ).0.spent <= budget,
{
}

/// A refused spend changes nothing: neither the tally of its mandate nor any other, and
/// where none was recorded before there is still none to read.
pub proof fn law_refused_spend_changes_nothing(
    ledger: Map<Seq<char>, UsageView>,
    jti: Seq<char>,
    tenant: Seq<char>,
    amount: int,
    now: int,
    limits: LimitsView,
    reader: Seq<char>,
)
    requires
        checked_error(ledger, jti, tenant, amount, now, limits) is Some,
    ensures
        checked_ledger(ledger, jti, tenant, amount, now, limits) == ledger,
        !ledger.contains_key(jti) ==> !readable_by(
            usage_of(checked_ledger(ledger, jti, tenant, amount, now, limits), jti),
            reader,
        ),
{
}

/// One attempt to spend under a mandate.
pub struct SpendAttempt {
    pub tenant: Seq<char>,
    pub amount: int,
    pub now: int,
}

/// The usage after a run of attempts, and the sum of those that were accepted.
pub open spec fn run_of_spends(
    u: UsageView,
    attempts: Seq<SpendAttempt>,
    budget: int,
    window: int,
) -> (UsageView, int)
    decreases attempts.len(),
{
    if attempts.len() == 0 {
        (u, 0)
    } else {
        let (v, total) = run_of_spends(u, attempts.drop_last(), budget, window);
        let a = attempts.last();
        let (w, refused) = spend(v, a.tenant, a.amount, a.now, budget, window);
        (w, if refused is None {
            total + a.amount
        } else {
            total
        })
    }
}

/// However many attempts are made in one window, and by whomever, what is
/// accepted in all never exceeds the budget.
pub proof fn law_window_total_within_budget(
    u: UsageView,
    attempts: Seq<SpendAttempt>,
    budget: int,
    window: int,
)
    requires
        u.window_start is Some,
        0 <= u.spent <= budget <= i64::MAX,
        forall|i: int|
            0 <= i < attempts.len() ==> 0 < (#[trigger] attempts[i]).amount <= i64::MAX
                && !window_over(u.window_start->0, attempts[i].now, window),
    ensures
        run_of_spends(u, attempts, budget, window).0.window_start == u.window_start,
        run_of_spends(u, attempts, budget, window).0.spent == u.spent + run_of_spends(
            u,
            attempts,
            budget,
            window,
        ).1,
        run_of_spends(u, attempts, budget, window).0.spent <= budget,
        run_of_spends(u, attempts, budget, window).1 >= 0,
    decreases attempts.len(),
{
    if attempts.len() > 0 {
        let before = attempts.drop_last();
        assert forall|i: int| 0 <= i < before.len() implies 0 < (#[trigger] before[i]).amount
            <= i64::MAX && !window_over(u.window_start->0, before[i].now, window) by {
            assert(before[i] == attempts[i]);
        }
        law_window_total_within_budget(u, before, budget, window);
        assert(attempts.last() == attempts[attempts.len() - 1]);
    }
}

/// Once the window is over the whole budget can be spent again.
pub proof fn law_new_window_has_whole_budget(
    u: UsageView,
    tenant: Seq<char>,
    amount: int,
    now: int,
    budget: int,
    window: int,
)
    requires
        u.window_start matches Some(s) && window_over(s, now, window),
        0 < amount <= budget <= i64::MAX,
    ensures
        spend(u, tenant, amount, now, budget, window).1 is None,
        spend(u, tenant, amount, now, budget, window).0.spent == amount,
{
}

/// The tenant that first spent under a mandate stays its owner, and no other
/// tenant can read the tally.
pub proof fn law_first_spender_owns(
    u: UsageView,
    tenant: Seq<char>,
    other: Seq<char>,
    amount: int,
    now: int,
    budget: int,
    window: int,
)
    requires
        u.tenant.len() > 0,
        other != u.tenant,
    ensures
        spend(u, tenant, amount, now, budget, window).0.tenant == u.tenant,
        recorded(u, tenant, amount, now).tenant == u.tenant,
        !readable_by(spend(u, tenant, amount, now, budget, window).0, other),
{
}

/// A spend under one mandate leaves every other mandate as it was.
pub proof fn law_mandates_are_independent(
    ledger: Map<Seq<char>, UsageView>,
    jti: Seq<char>,
    other: Seq<char>,
    tenant: Seq<char>,
    amount: int,
    now: int,
    limits: LimitsView,
)
    requires
        jti != other,
    ensures
        usage_of(checked_ledger(ledger, jti, tenant, amount, now, limits), other) == usage_of(
            ledger,
            other,
        ),
{
}

/// A positive amount that passes the evaluation of a mandate is accepted by the
/// ledger at the same instant.
pub proof fn law_evaluated_spend_is_accepted(
    payload: MandatePayload,
    ledger: Map<Seq<char>, UsageView>,
    tenant: Seq<char>,
    amount: int,
    now: int,
    limits: LimitsView,
)
    requires
        limits == payload.limits(),
        0 < amount <= i64::MAX,
        limits.budget >= 0,
        usage_of(ledger, payload.jti@).spent >= 0,
        payload.amount_error(amount, now, usage_of(ledger, payload.jti@)) is None,
    ensures
        checked_error(ledger, payload.jti@, tenant, amount, now, limits) is None,
{
}

/// A country covers each of its subdivisions.
pub proof fn law_country_covers_its_subdivisions(country: Seq<char>, subdivision: Seq<char>)
    requires
        forall|i: int| 0 <= i < country.len() ==> country[i] != '-',
    ensures
        covers(country, country + seq!['-'] + subdivision),
{
    let actual = country + seq!['-'] + subdivision;
    assert(actual[country.len() as int] == '-');
    lemma_find_from(actual, '-', 0);
    let i = find_from(actual, '-', 0)->0;
    assert(i == country.len()) by {
        if i < country.len() {
            assert(actual[i] == country[i]);
        }
    }
    assert(actual.take(i) =~= country);
}

/// A subdivision never covers a whole country.
pub proof fn law_subdivision_does_not_cover_country(subdivision: Seq<char>, country: Seq<char>)
    requires
        exists|i: int| 0 <= i < subdivision.len() && subdivision[i] == '-',
        forall|i: int| 0 <= i < country.len() ==> country[i] != '-',
    ensures
        !covers(subdivision, country),
{
    lemma_find_from(country, '-', 0);
    let i = choose|i: int| 0 <= i < subdivision.len() && subdivision[i] == '-';
    if eq_ignoring_case(subdivision, country) {
        assert(ascii_lower(subdivision[i]) == ascii_lower(country[i]));
        lemma_dash_has_no_other_case(country[i]);
    }
}

proof fn lemma_dash_has_no_other_case(c: char)
    requires
        ascii_lower(c) == '-',
    ensures
        c == '-',
{
}

/// With signatures checked, a mandate whose header says `none` is always
/// refused.
pub proof fn law_unsigned_mandate_is_refused(jws: Seq<char>, header: MandateHeader)
    requires
        header.alg@ == "none"@,
    ensures
        request_error(jws, Ok::<MandateHeader, String>(header)) is Some,
{
}

/// A key that the header does not name is never relied on where the header names one:
/// a signature that no named key accepts is refused, whatever the other keys say.
pub proof fn law_named_keys_decide(
    request: SignatureRequest,
    keys: Vec<VerifyingKeyEntry>,
    r: Result<(), ApiError>,
)
    requires
        some_named(keys@, request.key_id()),
        forall|i: int|
            0 <= i < keys@.len() && named(#[trigger] keys@[i], request.key_id())
                ==> !signature_accepted(
                keys@[i].key@,
                encode_utf8(request.text()),
                request.bytes(),
            ),
        checked_against(request, Ok(keys), r),
    ensures
        r is Err,
{
}

/// Whether the list names the text.
pub open spec fn names(list: Seq<String>, text: Seq<char>) -> bool {
    exists|i: int| 0 <= i < list.len() && (#[trigger] list[i])@ == text
}

/// Whether the mandate is in force: between its two dates, both included, and of some
/// version.
pub open spec fn in_force(payload: MandatePayload, now: int) -> bool {
    &&& crate::time::MIN_SECS <= payload.nbf <= crate::time::MAX_SECS
    &&& crate::time::MIN_SECS <= payload.exp <= crate::time::MAX_SECS
    &&& payload.nbf * 1_000_000_000 <= now <= payload.exp * 1_000_000_000
    &&& payload.icp.version@.len() > 0
}

/// Whether the mandate is for this merchant: it names no merchant, or every one, or this
/// one.
pub open spec fn for_merchant(payload: MandatePayload, tenant: Seq<char>) -> bool {
    payload.icp.merchants@.len() == 0 || names(payload.icp.merchants@, "*"@) || names(
        payload.icp.merchants@,
        tenant,
    )
}

/// Whether the mandate is for this place: it names no jurisdiction, or every one, or the
/// intent declares one that is covered by a named one.
pub open spec fn for_place(payload: MandatePayload, jurisdiction: Option<Seq<char>>) -> bool {
    let named = payload.icp.jurisdictions@;
    named.len() == 0 || names(named, "*"@) || (jurisdiction matches Some(place) && exists|i: int|
        0 <= i < named.len() && covers((#[trigger] named[i])@, place))
}

/// What was spent under the mandate in the window that is open at `now`.
pub open spec fn spent_so_far(payload: MandatePayload, usage: UsageView, now: int) -> int {
    match usage.window_start {
        Some(start) => if now - start > budget_window(opt_text(payload.icp.budget.period)) {
            0
        } else {
            usage.spent
        },
        None => usage.spent,
    }
}

/// An intent is allowed exactly when the mandate is in force, names its scope, is for the
/// merchant and the place, does not forbid subscriptions to a `subscribe`, and has room for
/// the amount: within the cap per transaction and what is left of the budget. What is left
/// is what the evaluation says.
pub proof fn law_mandates_allow_what_they_name(
    payload: MandatePayload,
    compact_jws: Seq<char>,
    scope: Seq<char>,
    amount: int,
    now: int,
    tenant: Seq<char>,
    jurisdiction: Option<Seq<char>>,
    ledger: Map<Seq<char>, UsageView>,
    r: Result<MandateEvaluation, ApiError>,
)
    requires
        judged(payload, compact_jws, scope, amount, now, tenant, jurisdiction, ledger, r),
        i64::MIN <= amount <= i64::MAX,
        ledger.contains_key(payload.jti@) ==> 0 <= ledger[payload.jti@].spent <= i64::MAX,
    ensures
        ({
            let usage = if ledger.contains_key(payload.jti@) {
                ledger[payload.jti@]
            } else {
                unused()
            };
            let left = payload.icp.budget.amount_minor - spent_so_far(payload, usage, now);
            let in_scope = names(payload.icp.scope@, scope) && for_merchant(payload, tenant)
                && for_place(payload, jurisdiction) && !(
            payload.icp.policies.prohibit_subscriptions && scope == "subscribe"@);
            let affordable = (payload.icp.budget.per_transaction matches Some(cap) ==> amount
                <= cap) && amount <= left;
            &&& r is Ok <==> in_force(payload, now) && in_scope && (affordable || (left
                < i64::MIN && amount == i64::MIN && (
            payload.icp.budget.per_transaction matches Some(cap) ==> amount <= cap)))
            &&& r matches Err(e) ==> {
                &&& !in_force(payload, now) ==> e@ is MandateInvalid
                &&& in_force(payload, now) && !in_scope ==> e@ is MandateOutOfScope
                &&& in_force(payload, now) && in_scope ==> e@ is MandateBudgetExceeded
            }
            &&& r matches Ok(ev) ==> {
                &&& left >= i64::MIN ==> ev.spend_room_minor == left
                &&& ev.payload == payload && ev.compact_jws@ == compact_jws
                    && !ev.signature_verified
            }
        }),
{
    let list = payload.icp.merchants@;
    assert(seq_has_text(list, "*"@) == names(list, "*"@));
    assert(seq_has_text(list, tenant) == names(list, tenant));
    assert(seq_has_text(payload.icp.scope@, scope) == names(payload.icp.scope@, scope));
    let places = payload.icp.jurisdictions@;
    assert(seq_has_text(places, "*"@) == names(places, "*"@));
}

/// A listed jurisdiction covers exactly the places that it names, whatever the case, and the
/// subdivisions of the country that it names: what stands before the first dash.
pub proof fn law_jurisdictions_cover_their_subdivisions(
    allowed: Seq<char>,
    country: Seq<char>,
    subdivision: Seq<char>,
    place: Seq<char>,
)
    requires
        !country.contains('-'),
        !place.contains('-'),
    ensures
        covers(allowed, place) <==> eq_ignoring_case(allowed, place),
        covers(allowed, country + seq!['-'] + subdivision) <==> eq_ignoring_case(allowed, country)
            || eq_ignoring_case(allowed, country + seq!['-'] + subdivision),
{
    let actual = country + seq!['-'] + subdivision;
    assert(actual[country.len() as int] == '-');
    lemma_find_from(actual, '-', 0);
    let i = find_from(actual, '-', 0)->0;
    assert(i == country.len()) by {
        if i < country.len() {
            assert(actual[i] == country[i]);
            assert(country.contains('-'));
        }
    }
    assert(actual.take(i) =~= country);
    lemma_find_from(place, '-', 0);
    if find_from(place, '-', 0) is Some {
        assert(place[find_from(place, '-', 0)->0] == '-');
    }
}

/// A budget is per hour, day, week or month of thirty days, as many as its period says, and
/// per day where it says nothing.
pub proof fn law_periods_count_their_units(n: nat)
    requires
        n <= i64::MAX,
    ensures
        period_nanos("PT"@ + nat_text(n) + "H"@) == Some(n * 3_600 * 1_000_000_000int),
        period_nanos("P"@ + nat_text(n) + "D"@) == Some(n * 24 * 3_600 * 1_000_000_000int),
        period_nanos("P"@ + nat_text(n) + "W"@) == Some(n * 7 * 24 * 3_600 * 1_000_000_000int),
        period_nanos("P"@ + nat_text(n) + "M"@) == Some(n * 30 * 24 * 3_600 * 1_000_000_000int),
        budget_window(None) == 24 * 3_600 * 1_000_000_000int,
{
    lemma_nat_text_round_trip(n);
    let t = nat_text(n);
    assert('0' <= t[0] <= '9');
    reveal_strlit("P");
    reveal_strlit("PT");
    reveal_strlit("T");
    reveal_strlit("H");
    reveal_strlit("D");
    reveal_strlit("W");
    reveal_strlit("M");
    lemma_unit_is_read(t, "H"@);
    lemma_unit_is_read(t, "D"@);
    lemma_unit_is_read(t, "W"@);
    lemma_unit_is_read(t, "M"@);
    let hours = "PT"@ + t + "H"@;
    assert(hours.take(1) =~= "P"@);
    let inner = hours.skip(1);
    assert(inner =~= "T"@ + (t + "H"@));
    assert(inner.take(1) =~= "T"@);
    assert(inner.skip(1) =~= t + "H"@);
    assert(counted(t, 3_600_000_000_000) == Some(n * 3_600_000_000_000int));
    lemma_days_are_read(t, "D"@);
    lemma_days_are_read(t, "W"@);
    lemma_days_are_read(t, "M"@);
    assert((t + "W"@).last() == 'W' && (t + "M"@).last() == 'M');
    assert(!has_suffix(t + "W"@, "D"@)) by {
        assert((t + "W"@).skip((t + "W"@).len() - 1)[0] == 'W');
        assert("D"@[0] == 'D');
    }
    assert(!has_suffix(t + "M"@, "D"@) && !has_suffix(t + "M"@, "W"@)) by {
        assert((t + "M"@).skip((t + "M"@).len() - 1)[0] == 'M');
        assert("D"@[0] == 'D' && "W"@[0] == 'W');
    }
}

proof fn lemma_unit_is_read(t: Seq<char>, unit: Seq<char>)
    requires
        unit.len() == 1,
    ensures
        before_suffix(t + unit, unit) == Some(t),
{
    assert((t + unit).skip(t.len() as int) =~= unit);
    assert((t + unit).take(t.len() as int) =~= t);
}

proof fn lemma_days_are_read(t: Seq<char>, unit: Seq<char>)
    requires
        t.len() > 0,
        '0' <= t[0] <= '9',
        unit.len() == 1,
    ensures
        after_prefix("P"@ + t + unit, "P"@) == Some(t + unit),
        after_prefix(t + unit, "T"@) is None,
{
    reveal_strlit("P");
    reveal_strlit("T");
    let s = "P"@ + t + unit;
    assert(s.take(1) =~= "P"@);
    assert(s.skip(1) =~= t + unit);
    assert((t + unit).take(1)[0] == t[0]);
    assert("T"@[0] == 'T');
}

/// A spend is accepted exactly when the budget is not negative, the amount is within the cap
/// per transaction, and what was spent in the open window and the amount together are
/// within the budget. It then adds exactly the amount to the tally, which goes on in an
/// open window and starts anew at `now` where the last window is over or there was none.
pub proof fn law_spends_are_held_against_the_window(
    ledger: Map<Seq<char>, UsageView>,
    jti: Seq<char>,
    tenant: Seq<char>,
    amount: int,
    now: int,
    limits: LimitsView,
)
    requires
        0 < amount <= i64::MAX,
        limits.budget <= i64::MAX,
        ledger.contains_key(jti) ==> 0 <= ledger[jti].spent <= i64::MAX,
    ensures
        ({
            let was = if ledger.contains_key(jti) {
                ledger[jti]
            } else {
                unused()
            };
            let open = was.window_start matches Some(start) && now - start <= limits.window;
            let spent = if open {
                was.spent
            } else {
                0
            };
            let after = checked_ledger(ledger, jti, tenant, amount, now, limits);
            let error = checked_error(ledger, jti, tenant, amount, now, limits);
            &&& error is None <==> limits.budget >= 0 && (limits.cap matches Some(cap) ==> amount
                <= cap) && spent + amount <= limits.budget
            &&& error matches Some(e) ==> e is MandateBudgetExceeded
            &&& error is None ==> {
                &&& after.contains_key(jti)
                &&& after[jti].spent == spent + amount
                &&& after[jti].window_start == (if open {
                    was.window_start
                } else {
                    Some(now)
                })
                &&& was.tenant.len() == 0 ==> after[jti].tenant == tenant
                &&& was.tenant.len() > 0 ==> after[jti].tenant == was.tenant
            }
            &&& forall|k: Seq<char>|
                k != jti ==> (after.contains_key(k) <==> ledger.contains_key(k))
                    && #[trigger] after[k] == ledger[k]
        }),
{
}

/// An amount of zero or less is no spend.
pub proof fn law_nothing_is_spent_for_nothing(
    ledger: Map<Seq<char>, UsageView>,
    jti: Seq<char>,
    tenant: Seq<char>,
    amount: int,
    now: int,
    limits: LimitsView,
)
    requires
        amount <= 0,
    ensures
        checked_ledger(ledger, jti, tenant, amount, now, limits) == ledger,
        checked_error(ledger, jti, tenant, amount, now, limits) is None,
{
}

/// A spend that is recorded without a check adds exactly its amount, up to what a tally can
/// hold, and opens the window only where there was none.
pub proof fn law_recorded_spends_add_up(
    u: UsageView,
    tenant: Seq<char>,
    amount: int,
    now: int,
)
    requires
        i64::MIN <= u.spent + amount <= i64::MAX,
    ensures
        recorded(u, tenant, amount, now).spent == u.spent + amount,
        u.window_start is Some ==> recorded(u, tenant, amount, now).window_start
            == u.window_start,
        u.window_start is None ==> recorded(u, tenant, amount, now).window_start == Some(now),
        u.tenant.len() == 0 ==> recorded(u, tenant, amount, now).tenant == tenant,
{
}

/// The bounds of a spend are those of the mandate: its budget, its cap and its period.
pub proof fn law_limits_are_those_of_the_mandate(payload: MandatePayload)
    ensures
        payload.limits().budget == payload.icp.budget.amount_minor,
        payload.icp.budget.per_transaction matches Some(cap) ==> payload.limits().cap == Some(
            cap as int,
        ),
        payload.icp.budget.per_transaction is None ==> payload.limits().cap is None,
        payload.limits().window == budget_window(opt_text(payload.icp.budget.period)),
        payload.icp.budget.period matches Some(p) ==> (period_nanos(p@) matches Some(n)
            ==> payload.limits().window == n),
{
}

/// A tally is read by the tenant that owns it and by no other, once something was spent.
pub proof fn law_tallies_are_read_by_their_owner(u: UsageView, tenant: Seq<char>)
    ensures
        readable_by(u, tenant) <==> u.tenant == tenant && !(u.spent == 0 && u.window_start is None
            && u.tenant.len() == 0),
{
    if u.tenant.len() == 0 {
        assert(u.tenant =~= Seq::<char>::empty());
    }
}

/// A mandate can be checked exactly when it has three segments, a header that can be read
/// and says `EdDSA`, and a signature of 64 bytes; what is checked is the signature over the
/// first two segments, with the key that the header names.
pub proof fn law_signatures_cover_header_and_payload(
    jws: Seq<char>,
    header: Result<MandateHeader, String>,
    r: Result<SignatureRequest, ApiError>,
    h: Seq<char>,
    p: Seq<char>,
    s: Seq<char>,
)
    requires
        requested(jws, header, r),
        mandate_segments(jws) == Ok::<(Seq<char>, Seq<char>, Seq<char>), ErrorView>((h, p, s)),
    ensures
        r is Ok <==> base64url_bytes(h) is Ok && (header matches Ok(hd) && hd.alg@ == "EdDSA"@)
            && (base64url_bytes(s) matches Ok(sig) && sig.len() == 64),
        r matches Ok(q) ==> {
            &&& q.text() == h + "."@ + p
            &&& base64url_bytes(s) == Ok::<Seq<u8>, Seq<char>>(q.bytes())
            &&& header->Ok_0.kid matches Some(k) ==> q.key_id() == Some(k@)
            &&& header->Ok_0.kid is None ==> q.key_id() is None
        },
        r matches Err(e) ==> e@ is MandateInvalid,
{
    reveal_strlit("none");
    reveal_strlit("EdDSA");
    assert("none"@.len() == 4 && "EdDSA"@.len() == 5);
}

/// A signature is accepted exactly when a key of the issuer that may be tried accepts it:
/// one that the header names, and any of them where it names none.
pub proof fn law_some_key_of_the_issuer_accepts(
    request: SignatureRequest,
    keys: Vec<VerifyingKeyEntry>,
    r: Result<(), ApiError>,
)
    requires
        checked_against(request, Ok(keys), r),
    ensures
        ({
            let kid = request.key_id();
            let is_named = |i: int| kid is Some && opt_text(keys@[i].kid) == kid;
            let accepts = |i: int|
                signature_accepted(keys@[i].key@, encode_utf8(request.text()), request.bytes());
            let some_are_named = exists|i: int| 0 <= i < keys@.len() && #[trigger] is_named(i);
            &&& r is Ok <==> exists|i: int|
                0 <= i < keys@.len() && #[trigger] accepts(i) && (some_are_named ==> is_named(i))
            &&& r matches Err(e) ==> e@ is MandateInvalid
        }),
{
    let kid = request.key_id();
    let is_named = |i: int| kid is Some && opt_text(keys@[i].kid) == kid;
    let accepts = |i: int|
        signature_accepted(keys@[i].key@, encode_utf8(request.text()), request.bytes());
    if some_named(keys@, kid) {
        let i = choose|i: int| 0 <= i < keys@.len() && named(#[trigger] keys@[i], kid);
        assert(is_named(i));
    }
    if exists|i: int| 0 <= i < keys@.len() && #[trigger] is_named(i) {
        let i = choose|i: int| 0 <= i < keys@.len() && #[trigger] is_named(i);
        assert(named(keys@[i], kid));
    }
    if r is Ok {
        let i = choose|i: int|
            0 <= i < keys@.len() && candidate(#[trigger] keys@[i], keys@, kid)
                && signature_accepted(keys@[i].key@, encode_utf8(request.text()), request.bytes());
        assert(accepts(i));
    } else if exists|i: int|
        0 <= i < keys@.len() && #[trigger] accepts(i) && (some_named(keys@, kid) ==> is_named(i)) {
        let i = choose|i: int|
            0 <= i < keys@.len() && #[trigger] accepts(i) && (some_named(keys@, kid) ==> is_named(
                i,
            ));
        assert(candidate(keys@[i], keys@, kid));
    }
}

/// Without keys, or where they cannot be found, no mandate is accepted.
pub proof fn law_unknown_issuers_are_refused(
    request: SignatureRequest,
    keys: Result<Vec<VerifyingKeyEntry>, ResolveError>,
    r: Result<(), ApiError>,
)
    requires
        checked_against(request, keys, r),
        keys matches Ok(k) ==> k@.len() == 0,
    ensures
        r matches Err(e) && e@ is MandateInvalid,
{
}

} // verus!
