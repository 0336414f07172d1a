//! The stages of an intent: admission, mandate, execution, receipt and event.
//!
//! The caller drives the stages and does between them what needs the outside
//! world: reading JSON, resolving keys, calling the engine and writing canonical
//! JSON.

use vstd::prelude::*;

use crate::agent::AgentIdentifier;
use crate::documents::{
    answer_document, answer_json, claims_document, receipt_document, unsigned_receipt,
};
use crate::errors::{ApiError, ErrorView};
use crate::events::Event;
use crate::intent::{law_names_are_distinct, lemma_name_has_prefix, Intent};
use crate::json::{canonical_bytes, Json, JsonView};
use crate::mandate::{evaluate, judged, period_fits, usage_of, MandateEvaluation, MandatePayload};
use crate::models::{
    A2aPayParams, A2aQuoteParams, AuthorizeParams, BuyParams, ConfirmReceiptParams,
    IntentResponseBody, NegotiateParams, QuoteParams, ReceiptStub, RenewParams, ResponseEnvelope,
    SubscribeParams, SubscriptionRefParams, Transaction,
};
use crate::pricing::{estimate_intent_amount_minor, estimated_amount};
use crate::receipts::StoredReceipt;
use crate::service::a2a::{a2a_pay_done, a2a_quote_done, lifetime_seconds, quote_lifetime};
use crate::service::catalog::{draft_opened, quote_done, quote_nanos};
use crate::service::helpers::{
    enqueued, jti_of, mandate_id, mandate_usable, order_id, order_id_of, owns_peer_quote,
    owns_subscription, owns_transaction,
};
use crate::service::negotiate::{confirm_done, negotiate_done};
use crate::service::orders::{return_done, track_done};
use crate::service::purchase::{authorize_done, buy_begun};
use crate::service::subscriptions::{
    cancel_done, first_period_fits, first_period_is_representable, pause_done, renew_begun,
    subscribe_begun, subscribe_error, subscribe_reservation, PendingSubscription, SubscribeStep,
};
use crate::service::{IcpService, IntentInput, Outcome};
use crate::signing::{attests, digest_claim, receipt_claims, ReceiptClaims};
use crate::text::{join2, join3, join5, opt_text, opt_view, str_eq};
use crate::time::{representable, Span, Timestamp};

verus! {

// ---------------------------------------------------------------------------
// Admission
// ---------------------------------------------------------------------------

/// What a mandate has to cover.
#[derive(Debug)]
pub struct MandateCheck {
    pub scope: &'static str,
    /// The most that the intent would spend, as far as its parameters show.
    pub amount_minor: i64,
}

/// An intent that may go on.
#[derive(Debug)]
pub struct Admission {
    pub intent: Intent,
    /// Set when the mandate of the intent is to be evaluated.
    pub check: Option<MandateCheck>,
}

/// Whether the intent runs under a mandate when there is one.
pub open spec fn mandate_applies(intent: Intent, input: IntentInput) -> bool {
    intent.required_scope() is Some && !input.skip_mandate_check
}

/// The error for an agent that speaks in the name of another.
pub open spec fn agent_mismatch(input: IntentInput) -> ErrorView {
    ErrorView::AuthenticationFailed(
        "envelope.agent_id `"@ + input.envelope.agent_id@ + "` does not match ICP-Agent-Id `"@
            + input.agent.raw@ + "`"@,
    )
}

/// What admission says of an intent: the agent must be the one that
/// authenticated, the intent must exist, and a mandate must be there when the
/// deployment requires one.
pub open spec fn admitted(
    service: IcpService,
    input: IntentInput,
    r: Result<Admission, ApiError>,
) -> bool {
    let same_agent = input.envelope.agent_id@ == input.agent.raw@;
    let key = Intent::key_of(input.envelope.intent@);
    match r {
        Ok(a) => {
            &&& same_agent
            &&& key == a.intent.short_name()
            &&& match a.check {
                Some(c) => {
                    &&& mandate_applies(a.intent, input)
                    &&& input.mandate_jws is Some
                    &&& a.intent.required_scope() == Some(c.scope@)
                    &&& c.amount_minor == estimated_amount(input.envelope.params@)
                },
                None => !mandate_applies(a.intent, input) || (input.mandate_jws is None
                    && !service.config.require_mandate),
            }
        },
        Err(e) => if !same_agent {
            e@ == agent_mismatch(input)
        } else {
            ||| {
                &&& forall|i: Intent| key != #[trigger] i.short_name()
                &&& e@ == ErrorView::IntentNotSupported("unknown intent `intent."@ + key + "`"@)
            }
            ||| exists|i: Intent|
                {
                    &&& key == #[trigger] i.short_name()
                    &&& mandate_applies(i, input)
                    &&& input.mandate_jws is None
                    &&& service.config.require_mandate
                    &&& e@ == ErrorView::MandateInvalid(
                        "ICP-Mandate header required for this intent scope"@,
                    )
                }
        },
    }
}

/// What the evaluation of a mandate comes to.
pub open spec fn evaluated(
    service: IcpService,
    input: IntentInput,
    check: MandateCheck,
    payload: MandatePayload,
    compact_jws: Seq<char>,
    now: Timestamp,
    r: Result<MandateEvaluation, ApiError>,
) -> bool {
    let refusal = mandate_refusal(service, input, check, payload, now);
    match r {
        Ok(ev) => {
            &&& refusal is None
            &&& ev.payload == payload
            &&& ev.compact_jws@ == compact_jws
            &&& ev.spend_room_minor == payload.room(
                usage_of(service.mandates@, payload.jti@),
                now@,
            )
            &&& !ev.signature_verified
        },
        Err(e) => refusal == Some(e@),
    }
}

/// Whether the evaluation can measure the window of the budget, where it comes
/// to that.
pub open spec fn evaluable(
    input: IntentInput,
    check: MandateCheck,
    payload: MandatePayload,
    now: Timestamp,
) -> bool {
    payload.reaches_budget(
        check.scope@,
        check.amount_minor as int,
        now@,
        input.tenant.tenant_id@,
        opt_text(input.envelope.context.jurisdiction),
    ) ==> period_fits(opt_text(payload.icp.budget.period))
}

/// Why a mandate does not allow the intent.
pub open spec fn mandate_refusal(
    service: IcpService,
    input: IntentInput,
    check: MandateCheck,
    payload: MandatePayload,
    now: Timestamp,
) -> Option<ErrorView> {
    payload.refusal(
        check.scope@,
        check.amount_minor as int,
        now@,
        input.tenant.tenant_id@,
        opt_text(input.envelope.context.jurisdiction),
        usage_of(service.mandates@, payload.jti@),
    )
}

/// Why a mandate does not speak of the agent.
pub open spec fn subject_error(payload: MandatePayload, agent: AgentIdentifier) -> Option<
    ErrorView,
> {
    if payload.sub@ == agent.raw@ {
        None
    } else {
        Some(
            ErrorView::MandateOutOfScope(
                "mandate subject `"@ + payload.sub@ + "` does not authorize agent `"@ + agent.raw@
                    + "`"@,
            ),
        )
    }
}

/// What becomes of an evaluation once the result of its signature check is
/// there, if one was made.
pub open spec fn accepted_for(
    ev: MandateEvaluation,
    signature: Option<Result<(), ApiError>>,
    agent: AgentIdentifier,
    r: Result<MandateEvaluation, ApiError>,
) -> bool {
    match signature {
        Some(Err(x)) => r == Err::<MandateEvaluation, ApiError>(x),
        _ => match r {
            Ok(accepted) => {
                &&& subject_error(ev.payload, agent) is None
                &&& accepted == (MandateEvaluation {
                    signature_verified: ev.signature_verified || signature is Some,
                    ..ev
                })
            },
            Err(e) => subject_error(ev.payload, agent) == Some(e@),
        },
    }
}

impl IcpService {
    /// First stage: the agent must be the one that authenticated, the intent
    /// must exist, and a mandate must be there when the deployment requires one.
    pub fn accept_intent(&self, input: &IntentInput) -> (r: Result<Admission, ApiError>)
        ensures
            admitted(*self, *input, r),
    {
        if !str_eq(input.envelope.agent_id.as_str(), input.agent.raw.as_str()) {
            return Err(
                ApiError::AuthenticationFailed(
                    join5(
                        "envelope.agent_id `",
                        input.envelope.agent_id.as_str(),
                        "` does not match ICP-Agent-Id `",
                        input.agent.raw.as_str(),
                        "`",
                    ),
                ),
            );
        }
        let intent = match Intent::parse(input.envelope.intent.as_str()) {
            Ok(i) => i,
            Err(e) => {
                return Err(e);
            },
        };
        let scope = match intent.scope() {
            Some(s) => s,
            None => {
                return Ok(Admission { intent, check: None });
            },
        };
        if input.skip_mandate_check {
            return Ok(Admission { intent, check: None });
        }
        match &input.mandate_jws {
            Some(_) => {
                let amount_minor: i64 = estimate_intent_amount_minor(&input.envelope);
                Ok(Admission { intent, check: Some(MandateCheck { scope, amount_minor }) })
            },
            None => if self.config.require_mandate {
                assert(Intent::key_of(input.envelope.intent@) == intent.short_name());
                Err(
                    ApiError::MandateInvalid(
                        String::from_str("ICP-Mandate header required for this intent scope"),
                    ),
                )
            } else {
                Ok(Admission { intent, check: None })
            },
        }
    }

    /// Second stage: evaluates the payload of the mandate against what it has to
    /// cover. The signature is not looked at yet.
    pub fn evaluate_mandate(
        &self,
        input: &IntentInput,
        check: &MandateCheck,
        payload: MandatePayload,
        compact_jws: &str,
        now: Timestamp,
    ) -> (r: Result<MandateEvaluation, ApiError>)
        requires
            evaluable(*input, *check, payload, now),
        ensures
            evaluated(*self, *input, *check, payload, compact_jws@, now, r),
    {
        let jurisdiction = match &input.envelope.context.jurisdiction {
            Some(j) => Some(j.as_str()),
            None => None,
        };
        evaluate(
            payload,
            compact_jws,
            check.scope,
            check.amount_minor,
            now,
            input.tenant.tenant_id.as_str(),
            jurisdiction,
            &self.mandates,
        )
    }

    /// Third stage: takes the result of the signature check, where one was made,
    /// and holds the subject of the mandate against the agent.
    pub fn accept_mandate(
        &self,
        ev: MandateEvaluation,
        signature: Option<Result<(), ApiError>>,
        agent: &AgentIdentifier,
    ) -> (r: Result<MandateEvaluation, ApiError>)
        ensures
            accepted_for(ev, signature, *agent, r),
    {
        let ev = match signature {
            Some(checked) => match ev.with_signature(checked) {
                Ok(ev) => ev,
                Err(e) => {
                    return Err(e);
                },
            },
            None => ev,
        };
        if !str_eq(ev.payload.sub.as_str(), agent.raw.as_str()) {
            return Err(
                ApiError::MandateOutOfScope(
                    join5(
                        "mandate subject `",
                        ev.payload.sub.as_str(),
                        "` does not authorize agent `",
                        agent.raw.as_str(),
                        "`",
                    ),
                ),
            );
        }
        Ok(ev)
    }
}

// ---------------------------------------------------------------------------
// Execution
// ---------------------------------------------------------------------------

/// The parameters of an intent, as read from its envelope.
#[derive(Debug)]
pub enum IntentParams {
    /// The intent takes its parameters from the envelope directly.
    Direct,
    Quote(QuoteParams),
    Authorize(AuthorizeParams),
    /// Of `buy` and of `pay`.
    Buy(BuyParams),
    Subscribe(SubscribeParams),
    Renew(RenewParams),
    /// Of `pause` and of `cancel_subscription`.
    SubscriptionRef(SubscriptionRefParams),
    A2aQuote(A2aQuoteParams),
    A2aPay(A2aPayParams),
    Negotiate(NegotiateParams),
    ConfirmReceipt(ConfirmReceiptParams),
}

/// Fresh ids for what an intent may bring about.
#[derive(Debug)]
pub struct FreshIds {
    pub transaction: String,
    pub subscription: String,
    pub peer_quote: String,
    pub intent: String,
    pub receipt: String,
    pub event: String,
}

/// What the execution of an intent came to.
#[derive(Debug)]
pub enum Step {
    /// The intent is executed.
    Done(Outcome),
    /// A purchase waits for the engine to persist this transaction.
    Buy(Transaction),
    /// A subscription waits for the engine to persist its first charge.
    Subscribe(PendingSubscription),
    /// A renewal waits for the engine to persist its charge.
    Renew(Transaction, RenewParams),
}

/// The parameters that an intent reads; `Direct` takes none from here.
pub open spec fn params_fit(intent: Intent, params: IntentParams) -> bool {
    match intent {
        Intent::Search
        | Intent::Describe
        | Intent::Track
        | Intent::Return
        | Intent::RefundRequest => true,
        Intent::Quote => params is Quote,
        Intent::Authorize => params is Authorize,
        Intent::Buy | Intent::Pay => params is Buy,
        Intent::Subscribe => params is Subscribe,
        Intent::Renew => params is Renew,
        Intent::Pause | Intent::CancelSubscription => params is SubscriptionRef,
        Intent::A2aQuote => params is A2aQuote,
        Intent::A2aPay => params is A2aPay,
        Intent::Negotiate => params is Negotiate,
        Intent::ConfirmReceipt => params is ConfirmReceipt,
    }
}

/// The name under which an intent complains about its parameters; nothing when
/// it takes them from the envelope directly.
pub open spec fn params_name(intent: Intent) -> Option<Seq<char>> {
    match intent {
        Intent::Search
        | Intent::Describe
        | Intent::Track
        | Intent::Return
        | Intent::RefundRequest => None,
        Intent::Pay => Some("buy"@),
        _ => Some(intent.short_name()),
    }
}

/// The same, for execution.
fn complaint_name(intent: Intent) -> (r: Option<&'static str>)
    ensures
        opt_view(r) == params_name(intent),
{
    match intent {
        Intent::Search
        | Intent::Describe
        | Intent::Track
        | Intent::Return
        | Intent::RefundRequest => None,
        Intent::Pay => Some("buy"),
        _ => Some(intent.short_wire_name()),
    }
}

/// Whether the execution can stay on the calendar, and the parameters are those
/// of the intent.
pub open spec fn executable(
    service: IcpService,
    intent: Intent,
    input: IntentInput,
    params: Result<IntentParams, String>,
    mandate: Option<&MandateEvaluation>,
    now: Timestamp,
) -> bool {
    &&& service.wf()
    &&& mandate_usable(mandate)
    &&& params matches Ok(p) ==> {
        &&& params_fit(intent, p)
        &&& intent is Quote ==> representable(now@ + quote_nanos())
        &&& intent is A2aQuote ==> representable(
            now@ + quote_lifetime(p->A2aQuote_0) * 1_000_000_000,
        )
        &&& intent is Negotiate ==> (p->Negotiate_0.discount matches Some(d) ==> d.wf())
        &&& intent is Subscribe ==> (subscribe_error(
            p->Subscribe_0,
            service.config.payment_execution_mode@,
        ) is None && subscribe_reservation(
            service.mandates@,
            mandate,
            input,
            p->Subscribe_0,
            now@,
        ).1 is None ==> first_period_fits(p->Subscribe_0, now@))
    }
}

/// Whether what the parameters ask for stays on the calendar.
pub open spec fn on_calendar(params: IntentParams, now: int) -> bool {
    match params {
        IntentParams::Quote(_) => representable(now + quote_nanos()),
        IntentParams::A2aQuote(p) => representable(now + quote_lifetime(p) * 1_000_000_000),
        IntentParams::Subscribe(p) => first_period_fits(p, now),
        IntentParams::Negotiate(p) => p.discount matches Some(d) ==> d.wf(),
        _ => true,
    }
}

/// Whether the parameters are those of the intent, and what they ask for stays on the
/// calendar.
pub fn can_execute(intent: Intent, params: &IntentParams, now: Timestamp) -> (r: bool)
    ensures
        r == (params_fit(intent, *params) && on_calendar(*params, now@)),
{
    let fits = match (intent, params) {
        (Intent::Search, _)
        | (Intent::Describe, _)
        | (Intent::Track, _)
        | (Intent::Return, _)
        | (Intent::RefundRequest, _) => true,
        (Intent::Quote, IntentParams::Quote(_)) => true,
        (Intent::Authorize, IntentParams::Authorize(_)) => true,
        (Intent::Buy, IntentParams::Buy(_)) | (Intent::Pay, IntentParams::Buy(_)) => true,
        (Intent::Subscribe, IntentParams::Subscribe(_)) => true,
        (Intent::Renew, IntentParams::Renew(_)) => true,
        (Intent::Pause, IntentParams::SubscriptionRef(_)) => true,
        (Intent::CancelSubscription, IntentParams::SubscriptionRef(_)) => true,
        (Intent::A2aQuote, IntentParams::A2aQuote(_)) => true,
        (Intent::A2aPay, IntentParams::A2aPay(_)) => true,
        (Intent::Negotiate, IntentParams::Negotiate(_)) => true,
        (Intent::ConfirmReceipt, IntentParams::ConfirmReceipt(_)) => true,
        _ => false,
    };
    if !fits {
        return false;
    }
    match params {
        IntentParams::Quote(_) => now.checked_add(Span::seconds(900)).is_some(),
        IntentParams::A2aQuote(p) => now.checked_add(
            Span::seconds(lifetime_seconds(p)),
        ).is_some(),
        IntentParams::Subscribe(p) => first_period_is_representable(p, now),
        IntentParams::Negotiate(p) => match &p.discount {
            Some(d) => !d.within_bounds || (1_000 <= d.kept_basis_points && d.kept_basis_points
                <= 10_000),
            None => true,
        },
        _ => true,
    }
}

/// The outcome of an execution that does not wait for the engine.
pub open spec fn outcome_result(r: Result<Step, ApiError>) -> Result<Outcome, ApiError> {
    match r {
        Ok(s) => Ok(s->Done_0),
        Err(e) => Err(e),
    }
}

/// The charge that waits for the engine.
pub open spec fn charge_result(r: Result<Step, ApiError>) -> Result<Transaction, ApiError> {
    match r {
        Ok(Step::Renew(t, _)) => Ok(t),
        Ok(s) => Ok(s->Buy_0),
        Err(e) => Err(e),
    }
}

/// What the first half of a `subscribe` came to.
pub open spec fn subscribe_result(r: Result<Step, ApiError>) -> Result<SubscribeStep, ApiError> {
    match r {
        Ok(Step::Subscribe(p)) => Ok(SubscribeStep::Charge(p)),
        Ok(s) => Ok(SubscribeStep::Enrolled(s->Done_0)),
        Err(e) => Err(e),
    }
}

/// What the execution of an intent does: what the intent of that name does.
pub open spec fn executed(
    before: IcpService,
    after: IcpService,
    intent: Intent,
    input: IntentInput,
    params: Result<IntentParams, String>,
    engine_discount: Option<i64>,
    mandate: Option<&MandateEvaluation>,
    now: Timestamp,
    ids: FreshIds,
    r: Result<Step, ApiError>,
) -> bool {
    if params is Err && params_name(intent) is Some {
        &&& r matches Err(e) && e@ == ErrorView::InvalidRequest(
            params_name(intent)->0 + ".params: "@ + params->Err_0@,
        )
        &&& after == before
    } else {
        let p = params->Ok_0;
        let o = outcome_result(r);
        let done = r matches Ok(s) ==> s is Done;
        match intent {
            Intent::Search | Intent::Describe => r matches Ok(Step::Done(out)) && draft_opened(
                before,
                after,
                input,
                now,
                ids.transaction,
                out,
            ),
            Intent::Quote => done && quote_done(
                before,
                after,
                input,
                p->Quote_0,
                engine_discount,
                now,
                ids.transaction,
                o,
            ),
            Intent::Authorize => done && authorize_done(
                before,
                after,
                input,
                p->Authorize_0,
                now,
                o,
            ),
            Intent::Buy | Intent::Pay => (r matches Ok(s) ==> s is Buy) && buy_begun(
                before,
                after,
                input,
                p->Buy_0,
                mandate,
                now,
                charge_result(r),
            ),
            Intent::Track => done && after == before && track_done(before, input, o),
            Intent::Return | Intent::RefundRequest => done && return_done(
                before,
                after,
                input,
                now,
                o,
            ),
            Intent::Subscribe => (r matches Ok(s) ==> s is Subscribe || s is Done)
                && subscribe_begun(
                before,
                after,
                input,
                p->Subscribe_0,
                mandate,
                now,
                ids.subscription,
                ids.transaction,
                subscribe_result(r),
            ),
            Intent::Renew => (r matches Ok(s) ==> s matches Step::Renew(_, rp) && rp
                == p->Renew_0) && renew_begun(
                before,
                after,
                input,
                p->Renew_0,
                mandate,
                now,
                ids.transaction,
                charge_result(r),
            ),
            Intent::Pause => done && pause_done(
                before,
                after,
                input,
                p->SubscriptionRef_0,
                now,
                ids.transaction,
                o,
            ),
            Intent::CancelSubscription => done && cancel_done(
                before,
                after,
                input,
                p->SubscriptionRef_0,
                now,
                ids.transaction,
                o,
            ),
            Intent::A2aQuote => done && a2a_quote_done(
                before,
                after,
                input,
                p->A2aQuote_0,
                mandate,
                now,
                ids.peer_quote,
                ids.transaction,
                o,
            ),
            Intent::A2aPay => done && a2a_pay_done(
                before,
                after,
                input,
                p->A2aPay_0,
                mandate,
                now,
                ids.transaction,
                o,
            ),
            Intent::Negotiate => done && negotiate_done(
                before,
                after,
                input,
                p->Negotiate_0,
                now,
                o,
            ),
            Intent::ConfirmReceipt => done && confirm_done(
                before,
                after,
                input,
                p->ConfirmReceipt_0,
                now,
                o,
            ),
        }
    }
}

fn done(r: Result<Outcome, ApiError>) -> (s: Result<Step, ApiError>)
    ensures
        outcome_result(s) == r,
        s matches Ok(step) ==> step is Done,
{
    match r {
        Ok(o) => Ok(Step::Done(o)),
        Err(e) => Err(e),
    }
}

impl IcpService {
    /// Executes an intent. Unreadable parameters are refused by the intents that
    /// read them. `engine_discount` is what the engine computed for the codes of
    /// a quote.
    pub fn execute(
        &mut self,
        intent: Intent,
        input: &IntentInput,
        params: Result<IntentParams, String>,
        engine_discount: Option<i64>,
        mandate: Option<&MandateEvaluation>,
        now: Timestamp,
        ids: FreshIds,
    ) -> (r: Result<Step, ApiError>)
        requires
            executable(*old(self), intent, *input, params, mandate, now),
        ensures
            executed(
                *old(self),
                *final(self),
                intent,
                *input,
                params,
                engine_discount,
                mandate,
                now,
                ids,
                r,
            ),
    {
        let params = match params {
            Ok(p) => p,
            Err(m) => match complaint_name(intent) {
                Some(name) => {
                    return Err(ApiError::InvalidRequest(join3(name, ".params: ", m.as_str())));
                },
                None => IntentParams::Direct,
            },
        };
        match (intent, params) {
            (Intent::Search, _) => Ok(Step::Done(self.do_search(input, now, ids.transaction))),
            (Intent::Describe, _) => Ok(Step::Done(self.do_describe(input, now, ids.transaction))),
            (Intent::Quote, IntentParams::Quote(p)) => done(
                self.do_quote(input, p, engine_discount, now, ids.transaction),
            ),
            (Intent::Authorize, IntentParams::Authorize(p)) => done(
                self.do_authorize(input, p, now),
            ),
            (Intent::Buy, IntentParams::Buy(p)) => match self.begin_buy(input, &p, mandate, now) {
                Ok(t) => Ok(Step::Buy(t)),
                Err(e) => Err(e),
            },
            (Intent::Pay, IntentParams::Buy(p)) => match self.begin_buy(input, &p, mandate, now) {
                Ok(t) => Ok(Step::Buy(t)),
                Err(e) => Err(e),
            },
            (Intent::Track, _) => done(self.do_track(input)),
            (Intent::Return, _) => done(self.do_return(input, now)),
            (Intent::RefundRequest, _) => done(self.do_refund_request(input, now)),
            (Intent::Subscribe, IntentParams::Subscribe(p)) => match self.begin_subscribe(
                input,
                p,
                mandate,
                now,
                ids.subscription,
                ids.transaction,
            ) {
                Ok(SubscribeStep::Enrolled(o)) => Ok(Step::Done(o)),
                Ok(SubscribeStep::Charge(pending)) => Ok(Step::Subscribe(pending)),
                Err(e) => Err(e),
            },
            (Intent::Renew, IntentParams::Renew(p)) => match self.begin_renew(
                input,
                &p,
                mandate,
                now,
                ids.transaction,
            ) {
                Ok(t) => Ok(Step::Renew(t, p)),
                Err(e) => Err(e),
            },
            (Intent::Pause, IntentParams::SubscriptionRef(p)) => done(
                self.do_pause(input, p, now, ids.transaction),
            ),
            (Intent::CancelSubscription, IntentParams::SubscriptionRef(p)) => done(
                self.do_cancel_subscription(input, p, now, ids.transaction),
            ),
            (Intent::A2aQuote, IntentParams::A2aQuote(p)) => done(
                self.do_a2a_quote(input, p, mandate, now, ids.peer_quote, ids.transaction),
            ),
            (Intent::A2aPay, IntentParams::A2aPay(p)) => done(
                self.do_a2a_pay(input, p, mandate, now, ids.transaction),
            ),
            (Intent::Negotiate, IntentParams::Negotiate(p)) => done(
                self.do_negotiate(input, p, now),
            ),
            (Intent::ConfirmReceipt, IntentParams::ConfirmReceipt(p)) => done(
                self.do_confirm_receipt(input, p, now),
            ),
            _ => Err(ApiError::ProcessingError(String::new())),
        }
    }
}

// ---------------------------------------------------------------------------
// The response and its receipt
// ---------------------------------------------------------------------------

/// Whether the stub stands for no receipt.
pub open spec fn blank_receipt(r: ReceiptStub, kid: Seq<char>) -> bool {
    &&& r.jti@ == Seq::<char>::empty()
    &&& r.kid@ == kid
    &&& r.jws@ == Seq::<char>::empty()
    &&& r.body_digest@ == Seq::<char>::empty()
}

/// Whether this is the response to an intent, whatever its receipt.
pub open spec fn responds(
    b: IntentResponseBody,
    service: IcpService,
    intent: Intent,
    input: IntentInput,
    o: Outcome,
    now: Timestamp,
    fresh_id: String,
) -> bool {
    &&& b.intent@ == intent.name()
    &&& b.intent_id == (match input.envelope.intent_id {
        Some(id) => id,
        None => fresh_id,
    })
    &&& b.transaction == o.transaction
    &&& b.order == o.order
    &&& b.subscription == o.subscription
    &&& b.peer_quote == o.peer_quote
    &&& b.envelope.icp_version == service.config.icp_version
    &&& b.envelope.request_id == input.request_id
    &&& b.envelope.trace_id == input.trace_id
    &&& b.envelope.issued_at == now
}

/// Whether these are the claims of the receipt over a response.
pub open spec fn claims_over(
    c: ReceiptClaims,
    service: IcpService,
    intent: Intent,
    input: IntentInput,
    b: IntentResponseBody,
    mandate: Option<&MandateEvaluation>,
    body_bytes: Seq<u8>,
    now: Timestamp,
    jti: String,
) -> bool {
    &&& c.iss@ == service.config.public_base_url@
    &&& c.aud@ == input.agent.raw@
    &&& c.iat == now@ / 1_000_000_000
    &&& c.jti == jti
    &&& c.icp.version@ == crate::constants::ICP_VERSION@
    &&& c.icp.intent@ == intent.name()
    &&& c.icp.transaction_id@ == b.transaction.id@
    &&& opt_text(c.icp.order_id) == opt_text(order_id_of(b.order))
    &&& opt_text(c.icp.mandate_jti) == opt_text(mandate_id(mandate))
    &&& c.icp.body_digest@ == digest_claim(body_bytes)
    &&& c.icp.body_canonicalization@ == "jcs"@
}

/// The receipt of signed claims, as it is stored and as it stands in the
/// response.
pub open spec fn carries_receipt(stub: ReceiptStub, stored: StoredReceipt, claims: ReceiptClaims) -> bool {
    &&& stored.claims == claims
    &&& stored.jti == claims.jti
    &&& stored.body_digest == claims.icp.body_digest
    &&& stub == (ReceiptStub {
        jti: stored.jti,
        kid: stored.kid,
        jws: stored.jws,
        body_digest: stored.body_digest,
    })
}

/// Whether the response was given a receipt over these claims, which is kept and
/// passes the verification of the signer.
pub open spec fn sealed(
    before: IcpService,
    after: IcpService,
    body: IntentResponseBody,
    claims: ReceiptClaims,
    b: IntentResponseBody,
) -> bool {
    &&& after == (IcpService { receipts: after.receipts, ..before })
    &&& b == (IntentResponseBody { receipt: b.receipt, ..body })
    &&& after.receipts@ == before.receipts@.insert(claims.jti@, after.receipts@[claims.jti@])
    &&& carries_receipt(b.receipt, after.receipts@[claims.jti@], claims)
    &&& b.receipt.kid == before.signer.kid
    &&& attests(before.signer.kid@, before.signer.secret(), claims, b.receipt.jws@)
}

/// The error for claims that have no canonical form.
pub open spec fn signing_failure(claims: ReceiptClaims) -> Option<ErrorView> {
    match canonical_bytes(claims_document(claims)) {
        Ok(_) => None,
        Err(m) => Some(
            ErrorView::ProcessingError("sign: "@ + ("canonicalization failed: "@ + m)),
        ),
    }
}

impl IcpService {
    /// The response to an executed intent, with a blank receipt. Its canonical form is
    /// what the receipt is signed over; for an intent that changes nothing the blank
    /// receipt stays.
    pub fn unsigned_body(
        &self,
        intent: Intent,
        input: &IntentInput,
        outcome: Outcome,
        now: Timestamp,
        fresh_id: String,
    ) -> (b: IntentResponseBody)
        ensures
            responds(b, *self, intent, *input, outcome, now, fresh_id),
            blank_receipt(b.receipt, self.signer.kid@),
    {
        let intent_id = match &input.envelope.intent_id {
            Some(id) => id.clone(),
            None => fresh_id,
        };
        proof {
            reveal_strlit("");
            assert(""@ =~= Seq::<char>::empty());
        }
        IntentResponseBody {
            intent: String::from_str(intent.wire_name()),
            intent_id,
            transaction: outcome.transaction,
            order: outcome.order,
            subscription: outcome.subscription,
            peer_quote: outcome.peer_quote,
            receipt: ReceiptStub {
                jti: String::from_str(""),
                kid: self.signer.kid.clone(),
                jws: String::from_str(""),
                body_digest: String::from_str(""),
            },
            envelope: ResponseEnvelope {
                icp_version: self.config.icp_version.clone(),
                request_id: input.request_id.clone(),
                trace_id: input.trace_id.clone(),
                issued_at: now,
            },
        }
    }

    /// The claims of the receipt over a response with the given canonical bytes.
    pub fn claims_for(
        &self,
        intent: Intent,
        input: &IntentInput,
        body: &IntentResponseBody,
        mandate: Option<&MandateEvaluation>,
        body_bytes: &[u8],
        now: Timestamp,
        jti: String,
    ) -> (c: ReceiptClaims)
        ensures
            claims_over(c, *self, intent, *input, *body, mandate, body_bytes@, now, jti),
    {
        let order = order_id(&body.order);
        let order_ref = match &order {
            Some(o) => Some(o.as_str()),
            None => None,
        };
        let mandate_jti = jti_of(mandate);
        let mandate_ref = match &mandate_jti {
            Some(m) => Some(m.as_str()),
            None => None,
        };
        receipt_claims(
            input.agent.raw.as_str(),
            self.config.public_base_url.as_str(),
            intent.wire_name(),
            body.transaction.id.as_str(),
            order_ref,
            mandate_ref,
            body_bytes,
            now,
            jti,
        )
    }

    /// Signs the receipt of a response, keeps it, and puts it into the response.
    pub fn seal(&mut self, body: IntentResponseBody, claims: ReceiptClaims) -> (r: Result<
        IntentResponseBody,
        ApiError,
    >)
        ensures
            match r {
                Ok(b) => {
                    &&& signing_failure(claims) is None
                    &&& sealed(*old(self), *final(self), body, claims, b)
                },
                Err(e) => signing_failure(claims) == Some(e@) && *final(self) == *old(self),
            },
    {
        let signed = match self.signer.sign_receipt(claims) {
            Ok(x) => x,
            Err(e) => {
                let m = e.to_text();
                return Err(ApiError::ProcessingError(join2("sign: ", m.as_str())));
            },
        };
        let stub = ReceiptStub {
            jti: signed.jti.clone(),
            kid: signed.kid.clone(),
            jws: signed.jws.clone(),
            body_digest: signed.body_digest.clone(),
        };
        self.receipts.insert(
            StoredReceipt {
                jti: signed.jti,
                kid: signed.kid,
                jws: signed.jws,
                body_digest: signed.body_digest,
                claims: signed.claims,
            },
        );
        Ok(
            IntentResponseBody {
                intent: body.intent,
                intent_id: body.intent_id,
                transaction: body.transaction,
                order: body.order,
                subscription: body.subscription,
                peer_quote: body.peer_quote,
                receipt: stub,
                envelope: body.envelope,
            },
        )
    }
}

// ---------------------------------------------------------------------------
// Events
// ---------------------------------------------------------------------------

/// The type of the event for an executed intent: it follows the quote between
/// agents or the subscription that the intent is about, and else the
/// transaction. The two intents that leave the state alone have types of their
/// own.
pub open spec fn event_type_of(intent: Intent, b: IntentResponseBody) -> Seq<char> {
    match b.peer_quote {
        Some(q) => "peer_quote."@ + q.status.name(),
        None => match b.subscription {
            Some(s) => "subscription."@ + s.status.name(),
            None => match intent {
                Intent::Negotiate => "transaction.renegotiated"@,
                Intent::ConfirmReceipt => "transaction.receipt_confirmed"@,
                _ => "transaction."@ + b.transaction.state.name(),
            },
        },
    }
}

/// Whether this is the event for an executed intent.
pub open spec fn tells_intent(
    e: Event,
    intent: Intent,
    agent: String,
    b: IntentResponseBody,
    payload: JsonView,
    now: Timestamp,
    id: String,
) -> bool {
    &&& e.id == id
    &&& e.event_type@ == event_type_of(intent, b)
    &&& e.transaction_id == Some(b.transaction.id)
    &&& e.order_id == order_id_of(b.order)
    &&& e.agent_id == Some(agent)
    &&& e.occurred_at == now
    &&& e.payload@ == payload
}

/// The event for an executed intent. `payload` is the response as a document.
pub fn intent_event(
    intent: Intent,
    agent: &AgentIdentifier,
    body: &IntentResponseBody,
    payload: Json,
    now: Timestamp,
    id: String,
) -> (e: Event)
    ensures
        tells_intent(e, intent, agent.raw, *body, payload@, now, id),
{
    let event_type = match &body.peer_quote {
        Some(q) => join2("peer_quote.", q.status.wire_name()),
        None => match &body.subscription {
            Some(s) => join2("subscription.", s.status.wire_name()),
            None => match intent {
                Intent::Negotiate => String::from_str("transaction.renegotiated"),
                Intent::ConfirmReceipt => String::from_str("transaction.receipt_confirmed"),
                _ => join2("transaction.", body.transaction.state.wire_name()),
            },
        },
    };
    Event {
        id,
        event_type,
        transaction_id: Some(body.transaction.id.clone()),
        order_id: order_id(&body.order),
        agent_id: Some(agent.raw.clone()),
        occurred_at: now,
        payload,
    }
}

/// Whether an event is one of the tenant's: it is about a transaction, or else a
/// subscription, or else a quote between agents that the tenant owns.
pub open spec fn belongs_to(service: IcpService, e: Event, tenant: Seq<char>) -> bool {
    match e.transaction_id {
        Some(id) => owns_transaction(
            service.transactions@,
            id@,
            tenant,
        ),
        None => match e.payload@.text_member("subscription_id"@) {
            Some(id) => owns_subscription(
                service.subscriptions@,
                id,
                tenant,
            ),
            None => match e.payload@.text_member("peer_quote_id"@) {
                Some(id) => owns_peer_quote(
                    service.peer_quotes@,
                    id,
                    tenant,
                ),
                None => false,
            },
        },
    }
}

/// Whether the event was published, and put on its way to the webhooks when they
/// are to hear of it.
pub open spec fn published(
    before: IcpService,
    after: IcpService,
    event: Event,
    tenant: Option<Seq<char>>,
    to_webhooks: bool,
    now: Timestamp,
) -> bool {
    &&& after == (IcpService {
        webhook_outbox: after.webhook_outbox,
        events: after.events,
        ..before
    })
    &&& after.events@ == before.events@.push(event)
    &&& if to_webhooks {
        enqueued(
            before.webhook_outbox@,
            after.webhook_outbox@,
            before.event_destinations(tenant),
            event,
            now,
            tenant,
            before.webhook_max_attempts,
        )
    } else {
        after.webhook_outbox@ == before.webhook_outbox@
    }
}

impl IcpService {
    /// Publishes an event, and puts it on its way to the webhooks when they are
    /// to hear of it.
    pub fn publish(
        &mut self,
        event: Event,
        tenant_id: Option<&str>,
        to_webhooks: bool,
        now: Timestamp,
    )
        ensures
            published(
                *old(self),
                *final(self),
                event,
                opt_view(tenant_id),
                to_webhooks,
                now,
            ),
    {
        if to_webhooks {
            self.enqueue_webhook(&event, tenant_id, now);
        }
        self.events.push(event);
    }

    /// Whether an event is one of the tenant's. Streams of events are shared, so
    /// every reader is shown only its own.
    pub fn event_belongs_to_tenant(&self, event: &Event, tenant_id: &str) -> (r: bool)
        ensures
            r == belongs_to(*self, *event, tenant_id@),
    {
        match &event.transaction_id {
            Some(id) => match self.transactions.get(id.as_str()) {
                Some(t) => str_eq(t.tenant_id.as_str(), tenant_id),
                None => false,
            },
            None => match event.payload.get_str("subscription_id") {
                Some(id) => match self.subscriptions.get(id) {
                    Some(s) => str_eq(s.tenant_id.as_str(), tenant_id),
                    None => false,
                },
                None => match event.payload.get_str("peer_quote_id") {
                    Some(id) => match self.peer_quotes.get(id) {
                        Some(q) => str_eq(q.tenant_id.as_str(), tenant_id),
                        None => false,
                    },
                    None => false,
                },
            },
        }
    }
}

// ---------------------------------------------------------------------------
// The answer
// ---------------------------------------------------------------------------

/// What the receipt of a response is signed over: its canonical form while the receipt is
/// still blank, or the message of the writer.
pub open spec fn signed_form(b: IntentResponseBody, kid: Seq<char>) -> Result<Seq<u8>, Seq<char>> {
    canonical_bytes(answer_document(b, unsigned_receipt(kid)))
}

/// The claims of the receipt of a response, as it is kept.
pub open spec fn kept_claims(service: IcpService, b: IntentResponseBody) -> ReceiptClaims {
    service.receipts@[b.receipt.jti@].claims
}

/// Whether the response has the receipt that it should have: one over its canonical form,
/// which is kept and which the signer accepts, when the intent changes something, and a
/// blank one otherwise.
pub open spec fn receipt_given(
    before: IcpService,
    after: IcpService,
    intent: Intent,
    input: IntentInput,
    b: IntentResponseBody,
    mandate: Option<&MandateEvaluation>,
    now: Timestamp,
    jti: String,
) -> bool {
    let kid = before.signer.kid@;
    let claims = kept_claims(after, b);
    if intent.changes_state() {
        &&& signed_form(b, kid) is Ok
        &&& claims_over(
            claims,
            before,
            intent,
            input,
            b,
            mandate,
            signed_form(b, kid)->Ok_0,
            now,
            jti,
        )
        &&& after.receipts@ == before.receipts@.insert(jti@, after.receipts@[jti@])
        &&& carries_receipt(b.receipt, after.receipts@[jti@], claims)
        &&& b.receipt.kid == before.signer.kid
        &&& attests(kid, before.signer.secret(), claims, b.receipt.jws@)
    } else {
        &&& blank_receipt(b.receipt, kid)
        &&& after.receipts == before.receipts
    }
}

/// Whether the event of the response was published: it carries the response as a document,
/// and the webhooks hear of it when the intent changes something.
pub open spec fn event_told(
    before: IcpService,
    after: IcpService,
    intent: Intent,
    input: IntentInput,
    b: IntentResponseBody,
    now: Timestamp,
    id: String,
) -> bool {
    let e = after.events@.last();
    &&& after.events@ == before.events@.push(e)
    &&& tells_intent(
        e,
        intent,
        input.agent.raw,
        b,
        answer_document(b, receipt_document(b.receipt)),
        now,
        id,
    )
    &&& if intent.changes_state() {
        enqueued(
            before.webhook_outbox@,
            after.webhook_outbox@,
            before.event_destinations(Some(input.tenant.tenant_id@)),
            e,
            now,
            Some(input.tenant.tenant_id@),
            before.webhook_max_attempts,
        )
    } else {
        after.webhook_outbox@ == before.webhook_outbox@
    }
}

/// Whether writing the response failed with this error.
pub open spec fn writing_failed(
    service: IcpService,
    intent: Intent,
    input: IntentInput,
    b: IntentResponseBody,
    mandate: Option<&MandateEvaluation>,
    now: Timestamp,
    jti: String,
    e: ErrorView,
) -> bool {
    let form = signed_form(b, service.signer.kid@);
    if form is Ok {
        exists|claims: ReceiptClaims| #[trigger]
            claims_over(claims, service, intent, input, b, mandate, form->Ok_0, now, jti)
                && signing_failure(claims) == Some(e)
    } else {
        e == ErrorView::ProcessingError("jcs: "@ + form->Err_0)
    }
}

/// What an executed intent is answered: the response with its receipt, once the event is
/// published. A response that cannot be written changes nothing more.
pub open spec fn answered(
    before: IcpService,
    after: IcpService,
    intent: Intent,
    input: IntentInput,
    o: Outcome,
    mandate: Option<&MandateEvaluation>,
    now: Timestamp,
    ids: FreshIds,
    r: Result<IntentResponseBody, ApiError>,
) -> bool {
    match r {
        Ok(b) => {
            &&& responds(b, before, intent, input, o, now, ids.intent)
            &&& after == (IcpService {
                receipts: after.receipts,
                webhook_outbox: after.webhook_outbox,
                events: after.events,
                ..before
            })
            &&& receipt_given(before, after, intent, input, b, mandate, now, ids.receipt)
            &&& event_told(before, after, intent, input, b, now, ids.event)
        },
        Err(e) => {
            &&& intent.changes_state()
            &&& after == before
            &&& exists|b: IntentResponseBody| #[trigger]
                responds(b, before, intent, input, o, now, ids.intent) && writing_failed(
                    before,
                    intent,
                    input,
                    b,
                    mandate,
                    now,
                    ids.receipt,
                    e@,
                )
        },
    }
}

impl IcpService {
    /// Last stage: the response to an executed intent, with its receipt, and its event.
    pub fn answer(
        &mut self,
        intent: Intent,
        input: &IntentInput,
        outcome: Outcome,
        mandate: Option<&MandateEvaluation>,
        now: Timestamp,
        ids: FreshIds,
    ) -> (r: Result<IntentResponseBody, ApiError>)
        ensures
            answered(*old(self), *final(self), intent, *input, outcome, mandate, now, ids, r),
    {
        let body = self.unsigned_body(intent, input, outcome, now, ids.intent);
        let ghost draft = body;
        let body = if intent.is_state_change() {
            proof {
                reveal_strlit("");
                assert(""@ =~= Seq::<char>::empty());
                assert(receipt_document(body.receipt) == unsigned_receipt(self.signer.kid@));
            }
            let bytes = match answer_json(&body).to_canonical() {
                Ok(b) => b,
                Err(m) => {
                    return Err(ApiError::ProcessingError(join2("jcs: ", m.as_str())));
                },
            };
            let claims = self.claims_for(
                intent,
                input,
                &body,
                mandate,
                bytes.as_slice(),
                now,
                ids.receipt,
            );
            match self.seal(body, claims) {
                Ok(b) => b,
                Err(e) => {
                    assert(claims_over(
                        claims,
                        *self,
                        intent,
                        *input,
                        draft,
                        mandate,
                        signed_form(draft, self.signer.kid@)->Ok_0,
                        now,
                        ids.receipt,
                    ));
                    return Err(e);
                },
            }
        } else {
            body
        };
        let ghost signed = *self;
        let document = answer_json(&body);
        let event = intent_event(intent, &input.agent, &body, document, now, ids.event);
        self.publish(
            event,
            Some(input.tenant.tenant_id.as_str()),
            intent.is_state_change(),
            now,
        );
        assert(self.events@.last() == event);
        Ok(body)
    }
}

// ---------------------------------------------------------------------------
// Laws
// ---------------------------------------------------------------------------

/// No event is shown to two tenants.
pub proof fn law_events_have_one_tenant(
    service: IcpService,
    e: Event,
    a: Seq<char>,
    b: Seq<char>,
)
    requires
        belongs_to(service, e, a),
        belongs_to(service, e, b),
    ensures
        a == b,
{
}

/// Whatever an intent does, it stays among transactions, subscriptions, quotes
/// between agents and the ledger: receipts, keys, limits, webhooks and
/// configuration are left alone, and every row stays under its own id.
pub proof fn law_execution_is_confined(
    before: IcpService,
    after: IcpService,
    intent: Intent,
    input: IntentInput,
    params: Result<IntentParams, String>,
    engine_discount: Option<i64>,
    mandate: Option<&MandateEvaluation>,
    now: Timestamp,
    ids: FreshIds,
    r: Result<Step, ApiError>,
)
    requires
        before.wf(),
        executed(before, after, intent, input, params, engine_discount, mandate, now, ids, r),
    ensures
        after.wf(),
        after == (IcpService {
            transactions: after.transactions,
            subscriptions: after.subscriptions,
            peer_quotes: after.peer_quotes,
            mandates: after.mandates,
            ..before
        }),
{
}

/// Only the intents that charge touch the ledger of mandates.
pub proof fn law_only_charges_touch_the_ledger(
    before: IcpService,
    after: IcpService,
    intent: Intent,
    input: IntentInput,
    params: Result<IntentParams, String>,
    engine_discount: Option<i64>,
    mandate: Option<&MandateEvaluation>,
    now: Timestamp,
    ids: FreshIds,
    r: Result<Step, ApiError>,
)
    requires
        executed(before, after, intent, input, params, engine_discount, mandate, now, ids, r),
        !(intent is Buy || intent is Pay || intent is Subscribe || intent is Renew
            || intent is A2aPay),
    ensures
        after.mandates == before.mandates,
{
}

/// Whether the request opens a transaction under this id.
pub open spec fn opens_transaction(input: IntentInput, ids: FreshIds, id: Seq<char>) -> bool {
    id == ids.transaction@ || opt_text(input.envelope.transaction_id) == Some(id)
}

/// An intent leaves alone what other tenants own: their transactions, their
/// subscriptions and their quotes between agents are as they were, except where the
/// request opens a row under an id that was taken.
pub proof fn law_tenants_are_isolated(
    before: IcpService,
    after: IcpService,
    intent: Intent,
    input: IntentInput,
    params: Result<IntentParams, String>,
    engine_discount: Option<i64>,
    mandate: Option<&MandateEvaluation>,
    now: Timestamp,
    ids: FreshIds,
    r: Result<Step, ApiError>,
    id: Seq<char>,
)
    requires
        before.wf(),
        executed(before, after, intent, input, params, engine_discount, mandate, now, ids, r),
    ensures
        before.transactions@.contains_key(id) && before.transactions@[id].tenant_id@
            != input.tenant.tenant_id@ && !opens_transaction(input, ids, id)
            ==> after.transactions@.contains_key(id) && after.transactions@[id]
            == before.transactions@[id],
        before.subscriptions@.contains_key(id) && before.subscriptions@[id].tenant_id@
            != input.tenant.tenant_id@ && id != ids.subscription@
            ==> after.subscriptions@.contains_key(id) && after.subscriptions@[id]
            == before.subscriptions@[id],
        before.peer_quotes@.contains_key(id) && before.peer_quotes@[id].tenant_id@
            != input.tenant.tenant_id@ && id != ids.peer_quote@
            ==> after.peer_quotes@.contains_key(id) && after.peer_quotes@[id]
            == before.peer_quotes@[id],
{
}

/// A transaction that has ended stays as it ended: no intent but a return or a request
/// for a refund changes its state.
pub proof fn law_closed_transactions_stay_closed(
    before: IcpService,
    after: IcpService,
    intent: Intent,
    input: IntentInput,
    params: Result<IntentParams, String>,
    engine_discount: Option<i64>,
    mandate: Option<&MandateEvaluation>,
    now: Timestamp,
    ids: FreshIds,
    r: Result<Step, ApiError>,
    id: Seq<char>,
)
    requires
        before.wf(),
        executed(before, after, intent, input, params, engine_discount, mandate, now, ids, r),
        before.transactions@.contains_key(id),
        before.transactions@[id].state.terminal(),
        !opens_transaction(input, ids, id),
        !(intent is Return || intent is RefundRequest),
    ensures
        after.transactions@.contains_key(id),
        after.transactions@[id].state == before.transactions@[id].state,
{
}

/// What an intent answers can be read back: the tenant finds the transaction of the answer
/// under its id, as it was answered.
pub proof fn law_answers_can_be_read_back(
    before: IcpService,
    after: IcpService,
    intent: Intent,
    input: IntentInput,
    params: Result<IntentParams, String>,
    engine_discount: Option<i64>,
    mandate: Option<&MandateEvaluation>,
    now: Timestamp,
    ids: FreshIds,
    o: Outcome,
)
    requires
        before.wf(),
        executed(
            before,
            after,
            intent,
            input,
            params,
            engine_discount,
            mandate,
            now,
            ids,
            Ok(Step::Done(o)),
        ),
    ensures
        owns_transaction(after.transactions@, o.transaction.id@, input.tenant.tenant_id@),
        o.transaction.same_as(after.transactions@[o.transaction.id@]),
{
}

/// An intent is admitted exactly when it comes from the agent that authenticated, it exists,
/// and it has a mandate where the deployment requires one for it. The mandate is then to be
/// held against the scope of the intent and what its items would cost.
pub proof fn law_admission_needs_agent_intent_and_mandate(
    service: IcpService,
    input: IntentInput,
    intent: Intent,
    r: Result<Admission, ApiError>,
)
    requires
        admitted(service, input, r),
        Intent::key_of(input.envelope.intent@) == intent.short_name(),
    ensures
        ({
            let own = input.envelope.agent_id@ == input.agent.raw@;
            let needs = !(intent is Search || intent is Describe) && !input.skip_mandate_check;
            &&& r is Ok <==> own && !(needs && service.config.require_mandate && input.mandate_jws
                is None)
            &&& r matches Ok(a) ==> {
                &&& a.intent == intent
                &&& a.check is Some <==> needs && input.mandate_jws is Some
                &&& a.check matches Some(c) ==> intent.required_scope() == Some(c.scope@)
                    && c.amount_minor == estimated_amount(input.envelope.params@)
            }
            &&& r matches Err(e) ==> (!own ==> e@ is AuthenticationFailed) && (own ==> e@
                is MandateInvalid)
        }),
{
    if r is Ok {
        law_names_are_distinct(r->Ok_0.intent, intent);
    } else if input.envelope.agent_id@ == input.agent.raw@ {
        if exists|i: Intent|
            {
                &&& Intent::key_of(input.envelope.intent@) == #[trigger] i.short_name()
                &&& mandate_applies(i, input)
                &&& input.mandate_jws is None
                &&& service.config.require_mandate
                &&& r->Err_0@ == ErrorView::MandateInvalid(
                    "ICP-Mandate header required for this intent scope"@,
                )
            } {
            let i = choose|i: Intent|
                {
                    &&& Intent::key_of(input.envelope.intent@) == #[trigger] i.short_name()
                    &&& mandate_applies(i, input)
                    &&& input.mandate_jws is None
                    &&& service.config.require_mandate
                    &&& r->Err_0@ == ErrorView::MandateInvalid(
                        "ICP-Mandate header required for this intent scope"@,
                    )
                };
            law_names_are_distinct(i, intent);
        } else {
            assert(Intent::key_of(input.envelope.intent@) != intent.short_name());
        }
    }
}

/// An intent of an unknown name is not supported.
pub proof fn law_unknown_intents_are_refused(
    service: IcpService,
    input: IntentInput,
    r: Result<Admission, ApiError>,
)
    requires
        admitted(service, input, r),
        forall|i: Intent| Intent::key_of(input.envelope.intent@) != #[trigger] i.short_name(),
    ensures
        r matches Err(e) && (input.envelope.agent_id@ == input.agent.raw@ ==> e@
            is IntentNotSupported),
{
}

/// The mandate of an intent is judged by its own terms, against the scope and the amount that
/// it is to cover, the tenant as the merchant, the place that the intent declares, and what
/// was spent under it.
pub proof fn law_mandates_are_judged_for_the_intent(
    service: IcpService,
    input: IntentInput,
    check: MandateCheck,
    payload: MandatePayload,
    compact_jws: Seq<char>,
    now: Timestamp,
    r: Result<MandateEvaluation, ApiError>,
)
    requires
        evaluated(service, input, check, payload, compact_jws, now, r),
    ensures
        judged(
            payload,
            compact_jws,
            check.scope@,
            check.amount_minor as int,
            now@,
            input.tenant.tenant_id@,
            opt_text(input.envelope.context.jurisdiction),
            service.mandates@,
            r,
        ),
{
}

/// A mandate is accepted exactly when its signature, where it was checked, is right, and its
/// subject is the agent. It then counts as verified only if its signature was checked.
pub proof fn law_mandates_are_accepted_for_their_subject(
    ev: MandateEvaluation,
    signature: Option<Result<(), ApiError>>,
    agent: AgentIdentifier,
    r: Result<MandateEvaluation, ApiError>,
)
    requires
        accepted_for(ev, signature, agent, r),
    ensures
        r is Ok <==> ev.payload.sub@ == agent.raw@ && !(signature matches Some(Err(_))),
        r matches Ok(accepted) ==> {
            &&& accepted.payload == ev.payload && accepted.spend_room_minor == ev.spend_room_minor
                && accepted.compact_jws == ev.compact_jws
            &&& signature is Some ==> accepted.signature_verified
            &&& signature is None ==> accepted.signature_verified == ev.signature_verified
        },
        r matches Err(e) ==> (signature matches Some(Err(x)) ==> e == x) && (!(
        signature matches Some(Err(_))) ==> e@ is MandateOutOfScope),
{
}

/// Each intent does what its name says, with the parameters that were read for it.
pub proof fn law_intents_do_what_they_say(
    before: IcpService,
    after: IcpService,
    input: IntentInput,
    params: IntentParams,
    discount: Option<i64>,
    mandate: Option<&MandateEvaluation>,
    now: Timestamp,
    ids: FreshIds,
    r: Result<Step, ApiError>,
    intent: Intent,
)
    requires
        executed(before, after, intent, input, Ok(params), discount, mandate, now, ids, r),
        params_fit(intent, params),
    ensures
        ({
            let o = match r {
                Ok(s) => Ok(s->Done_0),
                Err(e) => Err(e),
            };
            &&& intent is Authorize ==> authorize_done(
                before,
                after,
                input,
                params->Authorize_0,
                now,
                o,
            )
            &&& intent is Quote ==> quote_done(
                before,
                after,
                input,
                params->Quote_0,
                discount,
                now,
                ids.transaction,
                o,
            )
            &&& (intent is Search || intent is Describe) ==> r is Ok && draft_opened(
                before,
                after,
                input,
                now,
                ids.transaction,
                r->Ok_0->Done_0,
            )
            &&& (intent is Buy || intent is Pay) ==> buy_begun(
                before,
                after,
                input,
                params->Buy_0,
                mandate,
                now,
                match r {
                    Ok(s) => Ok(s->Buy_0),
                    Err(e) => Err(e),
                },
            )
            &&& intent is Track ==> track_done(before, input, o) && after == before
            &&& (intent is Return || intent is RefundRequest) ==> return_done(
                before,
                after,
                input,
                now,
                o,
            )
            &&& intent is Negotiate ==> negotiate_done(
                before,
                after,
                input,
                params->Negotiate_0,
                now,
                o,
            )
            &&& intent is ConfirmReceipt ==> confirm_done(
                before,
                after,
                input,
                params->ConfirmReceipt_0,
                now,
                o,
            )
            &&& intent is Pause ==> pause_done(
                before,
                after,
                input,
                params->SubscriptionRef_0,
                now,
                ids.transaction,
                o,
            )
            &&& intent is CancelSubscription ==> cancel_done(
                before,
                after,
                input,
                params->SubscriptionRef_0,
                now,
                ids.transaction,
                o,
            )
            &&& intent is A2aQuote ==> a2a_quote_done(
                before,
                after,
                input,
                params->A2aQuote_0,
                mandate,
                now,
                ids.peer_quote,
                ids.transaction,
                o,
            )
            &&& intent is A2aPay ==> a2a_pay_done(
                before,
                after,
                input,
                params->A2aPay_0,
                mandate,
                now,
                ids.transaction,
                o,
            )
            &&& intent is Subscribe ==> subscribe_begun(
                before,
                after,
                input,
                params->Subscribe_0,
                mandate,
                now,
                ids.subscription,
                ids.transaction,
                match r {
                    Ok(Step::Subscribe(p)) => Ok(SubscribeStep::Charge(p)),
                    Ok(s) => Ok(SubscribeStep::Enrolled(s->Done_0)),
                    Err(e) => Err(e),
                },
            )
            &&& intent is Renew ==> renew_begun(
                before,
                after,
                input,
                params->Renew_0,
                mandate,
                now,
                ids.transaction,
                match r {
                    Ok(s) => Ok(s->Renew_0),
                    Err(e) => Err(e),
                },
            )
        }),
{
}

/// Parameters that cannot be read are refused by each intent that reads them, and change
/// nothing.
pub proof fn law_unreadable_parameters_are_refused(
    before: IcpService,
    after: IcpService,
    intent: Intent,
    input: IntentInput,
    message: String,
    discount: Option<i64>,
    mandate: Option<&MandateEvaluation>,
    now: Timestamp,
    ids: FreshIds,
    r: Result<Step, ApiError>,
)
    requires
        executed(
            before,
            after,
            intent,
            input,
            Err::<IntentParams, String>(message),
            discount,
            mandate,
            now,
            ids,
            r,
        ),
        !(intent is Search || intent is Describe || intent is Track || intent is Return || intent
            is RefundRequest),
    ensures
        after == before,
        r matches Err(e) && e@ is InvalidRequest,
{
}

/// What is answered is what was done: the response carries the outcome as it is, the name and
/// the id of the intent, and the request that it answers.
pub proof fn law_answers_carry_the_outcome(
    before: IcpService,
    after: IcpService,
    intent: Intent,
    input: IntentInput,
    o: Outcome,
    mandate: Option<&MandateEvaluation>,
    now: Timestamp,
    ids: FreshIds,
    b: IntentResponseBody,
)
    requires
        answered(before, after, intent, input, o, mandate, now, ids, Ok(b)),
    ensures
        b.transaction == o.transaction && b.order == o.order && b.subscription == o.subscription
            && b.peer_quote == o.peer_quote,
        b.intent@ == "intent."@ + intent.short_name(),
        input.envelope.intent_id matches Some(id) ==> b.intent_id == id,
        input.envelope.intent_id is None ==> b.intent_id == ids.intent,
        b.envelope.request_id == input.request_id && b.envelope.trace_id == input.trace_id
            && b.envelope.icp_version == before.config.icp_version && b.envelope.issued_at == now,
        after.transactions == before.transactions && after.subscriptions == before.subscriptions
            && after.peer_quotes == before.peer_quotes && after.mandates == before.mandates,
        b.receipt.kid@ == before.signer.kid@,
        !intent.changes_state() ==> b.receipt.jti@.len() == 0 && b.receipt.jws@.len() == 0
            && b.receipt.body_digest@.len() == 0 && after.receipts == before.receipts,
        intent.changes_state() ==> {
            let claims = kept_claims(after, b);
            &&& claims.iss@ == before.config.public_base_url@ && claims.aud@ == input.agent.raw@
            &&& claims.iat == now@ / 1_000_000_000 && claims.jti == ids.receipt
            &&& o.order matches Some(order) ==> claims.icp.order_id matches Some(id) && id@
                == order.id@
            &&& o.order is None ==> claims.icp.order_id is None
            &&& mandate matches Some(ev) ==> claims.icp.mandate_jti matches Some(id) && id@
                == ev.payload.jti@
            &&& mandate is None ==> claims.icp.mandate_jti is None
            &&& claims.icp.body_canonicalization@ == "jcs"@ && claims.icp.version@
                == crate::constants::ICP_VERSION@
            &&& b.receipt.jti == ids.receipt && after.receipts@.contains_key(ids.receipt@)
                && after.receipts@[ids.receipt@].jws == b.receipt.jws
        },
{
    lemma_name_has_prefix(intent);
}

/// Every answer is told: one event is published, about the transaction, by the agent, with
/// the answer as it is; the webhooks of the tenant hear of it exactly when something changed.
pub proof fn law_answers_are_published(
    before: IcpService,
    after: IcpService,
    intent: Intent,
    input: IntentInput,
    o: Outcome,
    mandate: Option<&MandateEvaluation>,
    now: Timestamp,
    ids: FreshIds,
    b: IntentResponseBody,
)
    requires
        answered(before, after, intent, input, o, mandate, now, ids, Ok(b)),
    ensures
        ({
            let e = after.events@.last();
            &&& after.events@ == before.events@.push(e)
            &&& e.id == ids.event && e.transaction_id == Some(o.transaction.id) && e.agent_id
                == Some(input.agent.raw) && e.occurred_at == now
            &&& o.order matches Some(order) ==> e.order_id == Some(order.id)
            &&& e.payload@ == answer_document(b, receipt_document(b.receipt))
            &&& o.peer_quote matches Some(q) ==> e.event_type@ == "peer_quote."@ + q.status.name()
            &&& o.peer_quote is None ==> (o.subscription matches Some(s) ==> e.event_type@
                == "subscription."@ + s.status.name())
            &&& o.peer_quote is None && o.subscription is None && !(intent is Negotiate) && !(
            intent is ConfirmReceipt) ==> e.event_type@ == "transaction."@
                + o.transaction.state.name()
            &&& o.peer_quote is None && o.subscription is None && intent is Negotiate
                ==> e.event_type@ == "transaction.renegotiated"@
            &&& o.peer_quote is None && o.subscription is None && intent is ConfirmReceipt
                ==> e.event_type@ == "transaction.receipt_confirmed"@
            &&& !intent.changes_state() ==> after.webhook_outbox@ == before.webhook_outbox@
            &&& intent.changes_state() ==> enqueued(
                before.webhook_outbox@,
                after.webhook_outbox@,
                before.event_destinations(Some(input.tenant.tenant_id@)),
                e,
                now,
                Some(input.tenant.tenant_id@),
                before.webhook_max_attempts,
            )
        }),
{
}

/// An event belongs to the tenant that owns the transaction it is about, or the subscription
/// or the quote between agents where it is about no transaction, and to no other.
pub proof fn law_events_belong_to_the_owner(service: IcpService, e: Event, tenant: Seq<char>)
    ensures
        e.transaction_id matches Some(id) ==> (belongs_to(service, e, tenant)
            <==> service.transactions@.contains_key(id@) && service.transactions@[id@].tenant_id@
            == tenant),
        e.transaction_id is None ==> (e.payload@.text_member("subscription_id"@) matches Some(id)
            ==> (belongs_to(service, e, tenant) <==> service.subscriptions@.contains_key(id)
            && service.subscriptions@[id].tenant_id@ == tenant)),
        e.transaction_id is None && e.payload@.text_member("subscription_id"@) is None ==> (
        e.payload@.text_member("peer_quote_id"@) matches Some(id) ==> (belongs_to(
            service,
            e,
            tenant,
        ) <==> service.peer_quotes@.contains_key(id) && service.peer_quotes@[id].tenant_id@
            == tenant)),
        e.transaction_id is None && e.payload@.text_member("subscription_id"@) is None
            && e.payload@.text_member("peer_quote_id"@) is None ==> !belongs_to(service, e, tenant),
{
}

} // verus!
