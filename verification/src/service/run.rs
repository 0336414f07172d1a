//! The run of an intent, from admission to its answer.
//!
//! A run stops wherever it needs the outside world: to read JSON, to find the keys of a
//! principal, or to have the engine persist an order. It says what it waits for, and
//! [`IcpService::handle_intent`] takes it on with the reply.

use vstd::prelude::*;
use vstd::utf8::encode_utf8;

use crate::crypto::public_key;
use crate::documents::claims_document;
use crate::errors::{ApiError, ErrorView};
use crate::intent::Intent;
use crate::json::canonical_bytes;
use crate::mandate::{
    checked_against, decode_unverified, judged, payload_of, period_fits, period_is_representable,
    requested, signature_request, verify_signature, MandateEvaluation, MandateHeader,
    MandatePayload, SignatureRequest,
};
use crate::models::IntentResponseBody;
use crate::pricing::period_can_start;
use crate::resolver::{ResolveError, VerifyingKeyEntry};
use crate::service::dispatch::{
    admitted, answered, can_execute, evaluable, evaluated, executable, executed, kept_claims,
    law_execution_is_confined, mandate_applies, mandate_refusal, on_calendar, params_fit,
    signed_form, subject_error, Admission, FreshIds, IntentParams, MandateCheck, Step,
};
use crate::service::helpers::EngineReply;
use crate::service::purchase::buy_finished;
use crate::service::subscriptions::{renew_finished, subscribe_finished};
use crate::service::{IcpService, IntentInput, Outcome};
use crate::signing::{
    attests, digest_claim, header_text, receipt_refusal, signed_text, JwsHeader, ReceiptClaims,
};
use crate::text::opt_text;
use crate::time::Timestamp;

verus! {

/// What a run waits for.
#[derive(Debug)]
pub enum Waiting {
    /// The payload of the mandate, read as JSON.
    Mandate(MandateCheck),
    /// The header of the mandate, read as JSON.
    MandateHeader(MandateEvaluation),
    /// The keys of the issuer of the mandate.
    MandateKeys(MandateEvaluation, SignatureRequest),
    /// The parameters of the intent, and what discount the engine gives for the
    /// codes of a quote.
    Params,
    /// The engine, which is to persist a charge.
    Engine(Step),
}

/// A reply to what a run waits for, in the same order. Where the reader failed, its
/// message.
#[derive(Debug)]
pub enum Reply {
    Mandate(Result<MandatePayload, String>),
    MandateHeader(Result<MandateHeader, String>),
    MandateKeys(Result<Vec<VerifyingKeyEntry>, ResolveError>),
    Params(Result<IntentParams, String>, Option<i64>),
    Engine(EngineReply),
}

#[derive(Debug)]
struct Caller {
    input: IntentInput,
    intent: Intent,
    needs_mandate: bool,
    checks_signatures: bool,
    mandate: Option<MandateEvaluation>,
}

/// An intent on its way.
#[derive(Debug)]
pub struct IntentRun {
    caller: Caller,
    waiting: Waiting,
}

/// The model of an [`IntentRun`].
pub struct RunView {
    pub input: IntentInput,
    pub intent: Intent,
    /// Whether the deployment demands a mandate for the intent.
    pub needs_mandate: bool,
    /// Whether signatures of mandates are checked.
    pub checks_signatures: bool,
    /// The mandate, once it is accepted.
    pub mandate: Option<MandateEvaluation>,
    pub waiting: Waiting,
}

/// How far a run came.
#[derive(Debug)]
pub enum Progress {
    Waiting(IntentRun),
    Answered(IntentResponseBody),
    Refused(ApiError),
}

/// Whether the mandate may stand behind the intent.
pub open spec fn stands_behind(ev: MandateEvaluation, v: RunView) -> bool {
    &&& ev.payload.sub@ == v.input.agent.raw@
    &&& period_fits(opt_text(ev.payload.icp.budget.period))
    &&& v.checks_signatures ==> ev.signature_verified
}

/// Whether the response has a receipt exactly when the intent changes something.
pub open spec fn receipted(b: IntentResponseBody, intent: Intent) -> bool {
    if intent.changes_state() {
        b.receipt.jws@.len() > 0
    } else {
        b.receipt.jws@.len() == 0
    }
}

/// What holds of every run: the caller speaks for itself, and no intent gets past its
/// mandate when one is demanded.
pub open spec fn sound(v: RunView) -> bool {
    &&& v.input.envelope.agent_id@ == v.input.agent.raw@
    &&& Intent::key_of(v.input.envelope.intent@) == v.intent.short_name()
    &&& v.mandate matches Some(ev) ==> stands_behind(ev, v) && mandate_applies(v.intent, v.input)
    &&& match v.waiting {
        Waiting::Mandate(check) => {
            &&& v.mandate is None
            &&& mandate_applies(v.intent, v.input)
            &&& v.input.mandate_jws is Some
            &&& v.intent.required_scope() == Some(check.scope@)
        },
        Waiting::MandateHeader(ev) => {
            &&& v.mandate is None
            &&& mandate_applies(v.intent, v.input)
            &&& v.checks_signatures
            &&& period_fits(opt_text(ev.payload.icp.budget.period))
        },
        Waiting::MandateKeys(ev, _) => {
            &&& v.mandate is None
            &&& mandate_applies(v.intent, v.input)
            &&& v.checks_signatures
            &&& period_fits(opt_text(ev.payload.icp.budget.period))
        },
        Waiting::Params => v.needs_mandate ==> v.mandate is Some,
        Waiting::Engine(step) => {
            &&& v.needs_mandate ==> v.mandate is Some
            &&& !(step is Done)
        },
    }
}

impl View for IntentRun {
    type V = RunView;

    closed spec fn view(&self) -> RunView {
        self.caller.at(self.waiting)
    }
}

impl Caller {
    spec fn at(self, waiting: Waiting) -> RunView {
        RunView {
            input: self.input,
            intent: self.intent,
            needs_mandate: self.needs_mandate,
            checks_signatures: self.checks_signatures,
            mandate: self.mandate,
            waiting,
        }
    }

    fn on(self, waiting: Waiting) -> (r: IntentRun)
        requires
            sound(self.at(waiting)),
        ensures
            r@ == self.at(waiting),
    {
        IntentRun { caller: self, waiting }
    }

    fn under(self, ev: MandateEvaluation) -> (r: IntentRun)
        requires
            self.mandate is None,
            sound((RunView { mandate: Some(ev), ..self.at(Waiting::Params) })),
        ensures
            r@ == (RunView { mandate: Some(ev), ..self.at(Waiting::Params) }),
    {
        IntentRun {
            caller: Caller {
                input: self.input,
                intent: self.intent,
                needs_mandate: self.needs_mandate,
                checks_signatures: self.checks_signatures,
                mandate: Some(ev),
            },
            waiting: Waiting::Params,
        }
    }

    fn behind(&self) -> (m: Option<&MandateEvaluation>)
        ensures
            m == mandate_in(&self.mandate),
    {
        match &self.mandate {
            Some(ev) => Some(ev),
            None => None,
        }
    }
}

impl IntentRun {
    #[verifier::type_invariant]
    spec fn inv(self) -> bool {
        sound(self@)
    }

    /// What the run waits for.
    pub fn waiting(&self) -> (w: &Waiting)
        ensures
            *w == self@.waiting,
            sound(self@),
    {
        proof {
            use_type_invariant(self);
        }
        &self.waiting
    }

    /// The intent with its caller.
    pub fn input(&self) -> (i: &IntentInput)
        ensures
            *i == self@.input,
    {
        &self.caller.input
    }

    /// The intent that runs.
    pub fn intent(&self) -> (i: Intent)
        ensures
            i == self@.intent,
    {
        self.caller.intent
    }

    /// The mandate that stands behind the intent.
    pub fn mandate(&self) -> (m: Option<&MandateEvaluation>)
        ensures
            m == mandate_in(&self@.mandate),
            sound(self@),
    {
        proof {
            use_type_invariant(self);
        }
        self.caller.behind()
    }
}

/// The mandate, by reference.
pub open spec fn mandate_in(m: &Option<MandateEvaluation>) -> Option<&MandateEvaluation> {
    match m {
        Some(ev) => Some(ev),
        None => None,
    }
}

// ---------------------------------------------------------------------------
// Admission
// ---------------------------------------------------------------------------

/// What the admission of an intent comes to.
pub open spec fn started(
    service: IcpService,
    input: IntentInput,
    r: Result<IntentRun, ApiError>,
) -> bool {
    match r {
        Ok(run) => {
            let v = run@;
            &&& sound(v)
            &&& v.input == input
            &&& v.needs_mandate == (mandate_applies(v.intent, input)
                && service.config.require_mandate)
            &&& v.checks_signatures == service.config.verify_mandate_signatures
            &&& v.mandate is None
            &&& match v.waiting {
                Waiting::Mandate(c) => admitted(
                    service,
                    input,
                    Ok(Admission { intent: v.intent, check: Some(c) }),
                ),
                Waiting::Params => admitted(
                    service,
                    input,
                    Ok(Admission { intent: v.intent, check: None }),
                ),
                _ => false,
            }
        },
        Err(e) => admitted(service, input, Err(e)),
    }
}

impl IcpService {
    /// Starts the run of an intent.
    pub fn start_intent(&self, input: IntentInput) -> (r: Result<IntentRun, ApiError>)
        ensures
            started(*self, input, r),
    {
        let admission = match self.accept_intent(&input) {
            Ok(a) => a,
            Err(e) => {
                return Err(e);
            },
        };
        let intent = admission.intent;
        let applies = match intent.scope() {
            Some(_) => !input.skip_mandate_check,
            None => false,
        };
        let waiting = match admission.check {
            Some(c) => Waiting::Mandate(c),
            None => Waiting::Params,
        };
        let caller = Caller {
            input,
            intent,
            needs_mandate: applies && self.config.require_mandate,
            checks_signatures: self.config.verify_mandate_signatures,
            mandate: None,
        };
        Ok(caller.on(waiting))
    }
}

// ---------------------------------------------------------------------------
// The mandate
// ---------------------------------------------------------------------------

/// What becomes of a run once the payload of its mandate is read.
pub open spec fn mandate_read(
    service: IcpService,
    v: RunView,
    check: MandateCheck,
    parsed: Result<MandatePayload, String>,
    now: Timestamp,
    p: Progress,
) -> bool {
    let jws = v.input.mandate_jws->0@;
    let framing = payload_of(jws);
    let refusal = mandate_refusal(service, v.input, check, parsed->Ok_0, now);
    let subject = subject_error(parsed->Ok_0, v.input.agent);
    if framing is Err {
        p matches Progress::Refused(e) && e@ == framing->Err_0
    } else if parsed is Err {
        p matches Progress::Refused(e) && e@ == ErrorView::MandateInvalid(
            "mandate: "@ + parsed->Err_0@,
        )
    } else if refusal is Some {
        p matches Progress::Refused(e) && refusal == Some(e@)
    } else if v.checks_signatures {
        &&& p matches Progress::Waiting(run)
        &&& run@.waiting matches Waiting::MandateHeader(ev)
        &&& evaluated(service, v.input, check, parsed->Ok_0, jws, now, Ok(ev))
        &&& run@ == (RunView { waiting: Waiting::MandateHeader(ev), ..v })
    } else if subject is Some {
        p matches Progress::Refused(e) && subject == Some(e@)
    } else {
        &&& p matches Progress::Waiting(run)
        &&& run@.mandate matches Some(ev)
        &&& evaluated(service, v.input, check, parsed->Ok_0, jws, now, Ok(ev))
        &&& run@ == (RunView { mandate: Some(ev), waiting: Waiting::Params, ..v })
    }
}

/// What becomes of a run once the header of its mandate is read.
pub open spec fn header_read(
    v: RunView,
    ev: MandateEvaluation,
    header: Result<MandateHeader, String>,
    p: Progress,
) -> bool {
    match p {
        Progress::Waiting(run) => match run@.waiting {
            Waiting::MandateKeys(e, q) => {
                &&& e == ev
                &&& requested(ev.compact_jws@, header, Ok(q))
                &&& run@ == (RunView { waiting: Waiting::MandateKeys(e, q), ..v })
            },
            _ => false,
        },
        Progress::Answered(_) => false,
        Progress::Refused(e) => requested(ev.compact_jws@, header, Err(e)),
    }
}

/// What becomes of a run once the keys of the issuer are there.
pub open spec fn keys_found(
    v: RunView,
    ev: MandateEvaluation,
    request: SignatureRequest,
    keys: Result<Vec<VerifyingKeyEntry>, ResolveError>,
    p: Progress,
) -> bool {
    let subject = subject_error(ev.payload, v.input.agent);
    match p {
        Progress::Waiting(run) => {
            &&& checked_against(request, keys, Ok(()))
            &&& subject is None
            &&& run@ == (RunView {
                mandate: Some(MandateEvaluation { signature_verified: true, ..ev }),
                waiting: Waiting::Params,
                ..v
            })
        },
        Progress::Answered(_) => false,
        Progress::Refused(e) => {
            ||| checked_against(request, keys, Err(e))
            ||| checked_against(request, keys, Ok(())) && subject == Some(e@)
        },
    }
}

impl IcpService {
    fn read_mandate(
        &self,
        caller: Caller,
        check: MandateCheck,
        parsed: Result<MandatePayload, String>,
        now: Timestamp,
    ) -> (p: Progress)
        requires
            sound(caller.at(Waiting::Mandate(check))),
            parsed matches Ok(payload) ==> evaluable(caller.input, check, payload, now),
        ensures
            mandate_read(*self, caller.at(Waiting::Mandate(check)), check, parsed, now, p),
    {
        let jws = match &caller.input.mandate_jws {
            Some(j) => j.clone(),
            None => String::new(),
        };
        let payload = match decode_unverified(jws.as_str(), parsed) {
            Ok(p) => p,
            Err(e) => {
                return Progress::Refused(e);
            },
        };
        let ev = match self.evaluate_mandate(&caller.input, &check, payload, jws.as_str(), now) {
            Ok(ev) => ev,
            Err(e) => {
                return Progress::Refused(e);
            },
        };
        if caller.checks_signatures {
            return Progress::Waiting(caller.on(Waiting::MandateHeader(ev)));
        }
        match self.accept_mandate(ev, None, &caller.input.agent) {
            Ok(ev) => Progress::Waiting(caller.under(ev)),
            Err(e) => Progress::Refused(e),
        }
    }

    fn check_keys(
        &self,
        caller: Caller,
        ev: MandateEvaluation,
        request: SignatureRequest,
        keys: Result<Vec<VerifyingKeyEntry>, ResolveError>,
    ) -> (p: Progress)
        requires
            sound(caller.at(Waiting::MandateKeys(ev, request))),
        ensures
            keys_found(caller.at(Waiting::MandateKeys(ev, request)), ev, request, keys, p),
    {
        let verdict = verify_signature(&request, keys);
        match self.accept_mandate(ev, Some(verdict), &caller.input.agent) {
            Ok(ev) => Progress::Waiting(caller.under(ev)),
            Err(e) => Progress::Refused(e),
        }
    }
}

// ---------------------------------------------------------------------------
// Execution
// ---------------------------------------------------------------------------

/// The outcome that a response was made from.
pub open spec fn outcome_in(b: IntentResponseBody) -> Outcome {
    Outcome {
        transaction: b.transaction,
        order: b.order,
        subscription: b.subscription,
        peer_quote: b.peer_quote,
    }
}

/// The service between the execution of an intent and its answer.
pub open spec fn executed_state(before: IcpService, after: IcpService) -> IcpService {
    IcpService {
        receipts: before.receipts,
        webhook_outbox: before.webhook_outbox,
        events: before.events,
        ..after
    }
}

/// What becomes of a run once its parameters are read: the intent is executed, and answered
/// unless it waits for the engine.
pub open spec fn params_read(
    before: IcpService,
    after: IcpService,
    v: RunView,
    params: Result<IntentParams, String>,
    engine_discount: Option<i64>,
    now: Timestamp,
    ids: FreshIds,
    p: Progress,
) -> bool {
    let mandate = mandate_in(&v.mandate);
    match p {
        Progress::Answered(b) => {
            let between = executed_state(before, after);
            let o = outcome_in(b);
            &&& executed(
                before,
                between,
                v.intent,
                v.input,
                params,
                engine_discount,
                mandate,
                now,
                ids,
                Ok(Step::Done(o)),
            )
            &&& answered(between, after, v.intent, v.input, o, mandate, now, ids, Ok(b))
        },
        Progress::Waiting(run) => {
            &&& run@.waiting matches Waiting::Engine(step)
            &&& executed(
                before,
                after,
                v.intent,
                v.input,
                params,
                engine_discount,
                mandate,
                now,
                ids,
                Ok(step),
            )
            &&& run@ == (RunView { waiting: Waiting::Engine(step), ..v })
        },
        Progress::Refused(e) => {
            ||| executed(
                before,
                after,
                v.intent,
                v.input,
                params,
                engine_discount,
                mandate,
                now,
                ids,
                Err(e),
            )
            ||| exists|o: Outcome|
                #[trigger]
                executed(
                    before,
                    after,
                    v.intent,
                    v.input,
                    params,
                    engine_discount,
                    mandate,
                    now,
                    ids,
                    Ok(Step::Done(o)),
                ) && answered(after, after, v.intent, v.input, o, mandate, now, ids, Err(e))
        },
    }
}

/// What working in the engine's reply does.
pub open spec fn charge_finished(
    before: IcpService,
    after: IcpService,
    v: RunView,
    step: Step,
    reply: EngineReply,
    now: Timestamp,
    r: Result<Outcome, ApiError>,
) -> bool {
    match step {
        Step::Buy(t) => buy_finished(before, after, t.id@, reply, now, r),
        Step::Subscribe(pending) => subscribe_finished(before, after, pending, reply, r),
        Step::Renew(t, params) => renew_finished(
            before,
            after,
            params,
            t,
            mandate_in(&v.mandate),
            reply,
            now,
            r,
        ),
        Step::Done(_) => false,
    }
}

/// What becomes of a run once the engine has replied: the charge is finished, and the
/// intent is answered.
pub open spec fn engine_replied(
    before: IcpService,
    after: IcpService,
    v: RunView,
    step: Step,
    reply: EngineReply,
    now: Timestamp,
    ids: FreshIds,
    p: Progress,
) -> bool {
    let mandate = mandate_in(&v.mandate);
    match p {
        Progress::Answered(b) => {
            let between = executed_state(before, after);
            let o = outcome_in(b);
            &&& charge_finished(before, between, v, step, reply, now, Ok(o))
            &&& answered(between, after, v.intent, v.input, o, mandate, now, ids, Ok(b))
        },
        Progress::Waiting(_) => false,
        Progress::Refused(e) => {
            ||| charge_finished(before, after, v, step, reply, now, Err(e))
            ||| exists|o: Outcome|
                #[trigger]
                charge_finished(before, after, v, step, reply, now, Ok(o)) && answered(
                    after,
                    after,
                    v.intent,
                    v.input,
                    o,
                    mandate,
                    now,
                    ids,
                    Err(e),
                )
        },
    }
}

/// Whether the engine's reply can be worked in: a renewal needs its subscription,
/// and a next period on the calendar.
pub open spec fn finishable(service: IcpService, step: Step) -> bool {
    &&& service.wf()
    &&& step matches Step::Renew(_, params) ==> {
        let m = service.subscriptions@;
        &&& m.contains_key(params.subscription_id@)
        &&& period_can_start(
            m[params.subscription_id@].current_period_end@,
            m[params.subscription_id@].cadence,
        )
    }
}

proof fn lemma_receipts_are_not_empty(secret: Seq<u8>, header_json: Seq<u8>, claims_json: Seq<u8>)
    ensures
        signed_text(secret, header_json, claims_json).len() > 0,
{
    reveal_strlit(".");
}

proof fn lemma_answers_are_receipted(
    before: IcpService,
    after: IcpService,
    v: RunView,
    o: Outcome,
    now: Timestamp,
    ids: FreshIds,
    b: IntentResponseBody,
)
    requires
        answered(
            before,
            after,
            v.intent,
            v.input,
            o,
            mandate_in(&v.mandate),
            now,
            ids,
            Ok(b),
        ),
    ensures
        receipted(b, v.intent),
{
    if v.intent.changes_state() {
        lemma_receipts_are_not_empty(
            before.signer.secret(),
            encode_utf8(header_text(before.signer.kid@)),
            canonical_bytes(claims_document(kept_claims(after, b)))->Ok_0,
        );
    }
}

fn copy_ids(ids: &FreshIds) -> (r: FreshIds)
    ensures
        r == *ids,
{
    FreshIds {
        transaction: ids.transaction.clone(),
        subscription: ids.subscription.clone(),
        peer_quote: ids.peer_quote.clone(),
        intent: ids.intent.clone(),
        receipt: ids.receipt.clone(),
        event: ids.event.clone(),
    }
}

impl IcpService {
    fn respond(
        &mut self,
        caller: &Caller,
        outcome: Outcome,
        now: Timestamp,
        ids: FreshIds,
    ) -> (p: Progress)
        ensures
            match p {
                Progress::Answered(b) => answered(
                    *old(self),
                    *final(self),
                    caller.intent,
                    caller.input,
                    outcome,
                    mandate_in(&caller.mandate),
                    now,
                    ids,
                    Ok(b),
                ) && outcome_in(b) == outcome,
                Progress::Refused(e) => answered(
                    *old(self),
                    *final(self),
                    caller.intent,
                    caller.input,
                    outcome,
                    mandate_in(&caller.mandate),
                    now,
                    ids,
                    Err(e),
                ),
                Progress::Waiting(_) => false,
            },
    {
        match self.answer(caller.intent, &caller.input, outcome, caller.behind(), now, ids) {
            Ok(b) => {
                assert(outcome_in(b) == outcome);
                Progress::Answered(b)
            },
            Err(e) => Progress::Refused(e),
        }
    }

    fn run_params(
        &mut self,
        caller: Caller,
        params: Result<IntentParams, String>,
        engine_discount: Option<i64>,
        now: Timestamp,
        ids: FreshIds,
    ) -> (p: Progress)
        requires
            sound(caller.at(Waiting::Params)),
            executable(
                *old(self),
                caller.intent,
                caller.input,
                params,
                mandate_in(&caller.mandate),
                now,
            ),
        ensures
            params_read(
                *old(self),
                *final(self),
                caller.at(Waiting::Params),
                params,
                engine_discount,
                now,
                ids,
                p,
            ),
            final(self).wf(),
    {
        let ghost before = *self;
        let step = self.execute(
            caller.intent,
            &caller.input,
            params,
            engine_discount,
            caller.behind(),
            now,
            copy_ids(&ids),
        );
        let ghost between = *self;
        proof {
            law_execution_is_confined(
                before,
                between,
                caller.intent,
                caller.input,
                params,
                engine_discount,
                mandate_in(&caller.mandate),
                now,
                ids,
                step,
            );
        }
        match step {
            Err(e) => Progress::Refused(e),
            Ok(Step::Done(o)) => {
                let p = self.respond(&caller, o, now, ids);
                assert(p is Answered ==> executed_state(before, *self) == between);
                p
            },
            Ok(step) => Progress::Waiting(caller.on(Waiting::Engine(step))),
        }
    }

    fn run_engine(
        &mut self,
        caller: Caller,
        step: Step,
        reply: EngineReply,
        now: Timestamp,
        ids: FreshIds,
    ) -> (p: Progress)
        requires
            sound(caller.at(Waiting::Engine(step))),
            finishable(*old(self), step),
        ensures
            engine_replied(
                *old(self),
                *final(self),
                caller.at(Waiting::Engine(step)),
                step,
                reply,
                now,
                ids,
                p,
            ),
            final(self).wf(),
    {
        let ghost before = *self;
        let ghost v = caller.at(Waiting::Engine(step));
        let ghost whole = step;
        let outcome = match step {
            Step::Buy(t) => self.finish_buy(t.id.as_str(), reply, now),
            Step::Subscribe(pending) => self.finish_subscribe(pending, reply),
            Step::Renew(t, params) => self.finish_renew(params, t, caller.behind(), reply, now),
            Step::Done(o) => Ok(o),
        };
        let ghost between = *self;
        assert(charge_finished(before, between, v, whole, reply, now, outcome));
        match outcome {
            Err(e) => Progress::Refused(e),
            Ok(o) => {
                let p = self.respond(&caller, o, now, ids);
                assert(p is Answered ==> executed_state(before, *self) == between);
                p
            },
        }
    }
}

// ---------------------------------------------------------------------------
// The run
// ---------------------------------------------------------------------------

/// Whether the reply is to what the run waits for, and can be worked in.
pub open spec fn answers(service: IcpService, v: RunView, reply: Reply, now: Timestamp) -> bool {
    match (v.waiting, reply) {
        (Waiting::Mandate(check), Reply::Mandate(parsed)) => parsed matches Ok(payload)
            ==> evaluable(v.input, check, payload, now),
        (Waiting::MandateHeader(_), Reply::MandateHeader(_)) => true,
        (Waiting::MandateKeys(_, _), Reply::MandateKeys(_)) => true,
        (Waiting::Params, Reply::Params(params, _)) => executable(
            service,
            v.intent,
            v.input,
            params,
            mandate_in(&v.mandate),
            now,
        ),
        (Waiting::Engine(step), Reply::Engine(_)) => finishable(service, step),
        _ => false,
    }
}

/// What a reply makes of a run.
pub open spec fn handled(
    before: IcpService,
    after: IcpService,
    v: RunView,
    reply: Reply,
    now: Timestamp,
    ids: FreshIds,
    p: Progress,
) -> bool {
    match (v.waiting, reply) {
        (Waiting::Mandate(check), Reply::Mandate(parsed)) => after == before && mandate_read(
            before,
            v,
            check,
            parsed,
            now,
            p,
        ),
        (Waiting::MandateHeader(ev), Reply::MandateHeader(header)) => after == before
            && header_read(v, ev, header, p),
        (Waiting::MandateKeys(ev, request), Reply::MandateKeys(keys)) => after == before
            && keys_found(v, ev, request, keys, p),
        (Waiting::Params, Reply::Params(params, engine_discount)) => params_read(
            before,
            after,
            v,
            params,
            engine_discount,
            now,
            ids,
            p,
        ),
        (Waiting::Engine(step), Reply::Engine(engine)) => engine_replied(
            before,
            after,
            v,
            step,
            engine,
            now,
            ids,
            p,
        ),
        _ => false,
    }
}

impl IcpService {
    /// Takes a run on with the reply to what it waits for.
    pub fn handle_intent(
        &mut self,
        run: IntentRun,
        reply: Reply,
        now: Timestamp,
        ids: FreshIds,
    ) -> (p: Progress)
        requires
            answers(*old(self), run@, reply, now),
        ensures
            handled(*old(self), *final(self), run@, reply, now, ids, p),
            p matches Progress::Answered(b) ==> receipted(b, run@.intent),
            old(self).wf() ==> final(self).wf(),
    {
        proof {
            use_type_invariant(&run);
        }
        let ghost before = *self;
        let ghost v = run@;
        let caller = run.caller;
        let p = match (run.waiting, reply) {
            (Waiting::Mandate(check), Reply::Mandate(parsed)) => self.read_mandate(
                caller,
                check,
                parsed,
                now,
            ),
            (Waiting::MandateHeader(ev), Reply::MandateHeader(header)) => match signature_request(
                ev.compact_jws.as_str(),
                header,
            ) {
                Ok(request) => Progress::Waiting(caller.on(Waiting::MandateKeys(ev, request))),
                Err(e) => Progress::Refused(e),
            },
            (Waiting::MandateKeys(ev, request), Reply::MandateKeys(keys)) => self.check_keys(
                caller,
                ev,
                request,
                keys,
            ),
            (Waiting::Params, Reply::Params(params, engine_discount)) => self.run_params(
                caller,
                params,
                engine_discount,
                now,
                ids,
            ),
            (Waiting::Engine(step), Reply::Engine(engine)) => self.run_engine(
                caller,
                step,
                engine,
                now,
                ids,
            ),
            _ => Progress::Refused(ApiError::ProcessingError(String::new())),
        };
        proof {
            if p is Answered {
                lemma_answers_are_receipted(
                    executed_state(before, *self),
                    *self,
                    v,
                    outcome_in(p->Answered_0),
                    now,
                    ids,
                    p->Answered_0,
                );
            }
        }
        p
    }
}

/// Whether the reply is to what the run waits for, and stays on the calendar.
pub open spec fn fits(service: IcpService, v: RunView, reply: Reply, now: Timestamp) -> bool {
    match (v.waiting, reply) {
        (Waiting::Mandate(_), Reply::Mandate(parsed)) => parsed matches Ok(payload) ==> period_fits(
            opt_text(payload.icp.budget.period),
        ),
        (Waiting::MandateHeader(_), Reply::MandateHeader(_)) => true,
        (Waiting::MandateKeys(_, _), Reply::MandateKeys(_)) => true,
        (Waiting::Params, Reply::Params(params, _)) => params matches Ok(p) ==> params_fit(
            v.intent,
            p,
        ) && on_calendar(p, now@),
        (Waiting::Engine(step), Reply::Engine(_)) => step matches Step::Renew(_, params) ==> {
            let m = service.subscriptions@;
            &&& m.contains_key(params.subscription_id@)
            &&& period_can_start(
                m[params.subscription_id@].current_period_end@,
                m[params.subscription_id@].cadence,
            )
        },
        _ => false,
    }
}

impl IcpService {
    fn reply_fits(&self, run: &IntentRun, reply: &Reply, now: Timestamp) -> (r: bool)
        ensures
            r == fits(*self, run@, *reply, now),
    {
        match (&run.waiting, reply) {
            (Waiting::Mandate(_), Reply::Mandate(parsed)) => match parsed {
                Ok(payload) => match &payload.icp.budget.period {
                    Some(p) => period_is_representable(Some(p.as_str())),
                    None => period_is_representable(None),
                },
                Err(_) => true,
            },
            (Waiting::MandateHeader(_), Reply::MandateHeader(_)) => true,
            (Waiting::MandateKeys(_, _), Reply::MandateKeys(_)) => true,
            (Waiting::Params, Reply::Params(params, _)) => match params {
                Ok(p) => can_execute(run.caller.intent, p, now),
                Err(_) => true,
            },
            (Waiting::Engine(step), Reply::Engine(_)) => match step {
                Step::Renew(_, params) => match self.subscriptions.get(
                    params.subscription_id.as_str(),
                ) {
                    Some(s) => crate::pricing::period_is_representable(
                        s.current_period_end,
                        s.cadence,
                    ),
                    None => false,
                },
                _ => true,
            },
            _ => false,
        }
    }

    /// Takes a run on with a reply, where the reply is to what the run waits for and
    /// leads to no date that the calendar lacks. Nothing otherwise.
    pub fn try_handle_intent(
        &mut self,
        run: IntentRun,
        reply: Reply,
        now: Timestamp,
        ids: FreshIds,
    ) -> (r: Option<Progress>)
        requires
            old(self).wf(),
        ensures
            final(self).wf(),
            match r {
                Some(p) => {
                    &&& fits(*old(self), run@, reply, now)
                    &&& handled(*old(self), *final(self), run@, reply, now, ids, p)
                    &&& p matches Progress::Answered(b) ==> receipted(b, run@.intent)
                },
                None => !fits(*old(self), run@, reply, now) && *final(self) == *old(self),
            },
    {
        if !self.reply_fits(&run, &reply, now) {
            return None;
        }
        proof {
            use_type_invariant(&run);
        }
        Some(self.handle_intent(run, reply, now, ids))
    }
}

// ---------------------------------------------------------------------------
// Laws
// ---------------------------------------------------------------------------

/// Whether the run is past its mandate.
pub open spec fn past_mandate(v: RunView) -> bool {
    !(v.waiting is Mandate || v.waiting is MandateHeader || v.waiting is MandateKeys)
}

/// Where the deployment demands a mandate, nothing runs without one: it speaks of
/// the agent that calls, and its signature was checked where that is demanded.
pub proof fn law_nothing_runs_without_its_mandate(v: RunView)
    requires
        sound(v),
        past_mandate(v),
        v.needs_mandate,
    ensures
        v.mandate matches Some(ev) && ev.payload.sub@ == v.input.agent.raw@ && (v.checks_signatures
            ==> ev.signature_verified),
{
}

/// The compatibility paths, which take the tenant's key as authority, run without a
/// mandate: what they charge is charged to none.
pub proof fn law_compat_runs_have_no_mandate(v: RunView)
    requires
        sound(v),
        v.input.skip_mandate_check,
    ensures
        v.mandate is None,
        past_mandate(v),
{
}

/// Until the parameters are read nothing has changed, whatever the replies were.
pub proof fn law_mandates_are_judged_without_effect(
    before: IcpService,
    after: IcpService,
    v: RunView,
    reply: Reply,
    now: Timestamp,
    ids: FreshIds,
    p: Progress,
)
    requires
        !past_mandate(v),
        handled(before, after, v, reply, now, ids, p),
    ensures
        after == before,
{
}

/// A run stays the run of one caller and one intent.
pub proof fn law_runs_keep_their_caller(
    before: IcpService,
    after: IcpService,
    v: RunView,
    reply: Reply,
    now: Timestamp,
    ids: FreshIds,
    next: IntentRun,
)
    requires
        sound(v),
        handled(before, after, v, reply, now, ids, Progress::Waiting(next)),
    ensures
        next@.input == v.input,
        next@.intent == v.intent,
        next@.needs_mandate == v.needs_mandate,
        next@.checks_signatures == v.checks_signatures,
        v.mandate is Some ==> next@.mandate == v.mandate,
{
}

/// Every state-changing answer carries a receipt that can be verified, and no other answer
/// does: it is signed over the canonical form of the answer, names the caller, the intent
/// and the transaction, and the signer accepts it over that form.
pub proof fn law_answers_carry_their_receipts(
    before: IcpService,
    after: IcpService,
    v: RunView,
    reply: Reply,
    now: Timestamp,
    ids: FreshIds,
    b: IntentResponseBody,
    header: JwsHeader,
)
    requires
        sound(v),
        handled(before, after, v, reply, now, ids, Progress::Answered(b)),
        header.alg@ == "EdDSA"@,
        header.kid@ == before.signer.kid@,
    ensures
        Intent::key_of(v.input.envelope.intent@) == v.intent.short_name(),
        b.intent@ == v.intent.name(),
        b.receipt.jws@.len() > 0 <==> v.intent.changes_state(),
        v.intent.changes_state() ==> {
            let kid = before.signer.kid@;
            let claims = kept_claims(after, b);
            let over = signed_form(b, kid);
            &&& over is Ok
            &&& claims.aud@ == v.input.agent.raw@
            &&& claims.icp.intent@ == b.intent@
            &&& claims.icp.transaction_id@ == b.transaction.id@
            &&& claims.jti@ == b.receipt.jti@
            &&& claims.icp.body_digest@ == digest_claim(over->Ok_0)
            &&& b.receipt.body_digest@ == digest_claim(over->Ok_0)
            &&& attests(kid, before.signer.secret(), claims, b.receipt.jws@)
            &&& receipt_refusal(
                kid,
                public_key(before.signer.secret()),
                b.receipt.jws@,
                Ok::<JwsHeader, String>(header),
                Ok::<ReceiptClaims, String>(claims),
                Some(over->Ok_0),
            ) is None
        },
{
    lemma_answers_are_receipted(
        executed_state(before, after),
        after,
        v,
        outcome_in(b),
        now,
        ids,
        b,
    );
}

/// A run starts where its mandate is to be read, when one was sent for an intent that runs
/// under one, and with its parameters otherwise. Whether it needs a mandate and whether
/// signatures are checked is what the deployment says.
pub proof fn law_runs_start_as_the_deployment_says(
    service: IcpService,
    input: IntentInput,
    run: IntentRun,
)
    requires
        started(service, input, Ok(run)),
    ensures
        ({
            let v = run@;
            let under_mandate = !(v.intent is Search || v.intent is Describe)
                && !input.skip_mandate_check;
            &&& v.input == input && v.mandate is None
            &&& Intent::key_of(input.envelope.intent@) == v.intent.short_name()
            &&& v.needs_mandate <==> under_mandate && service.config.require_mandate
            &&& v.checks_signatures == service.config.verify_mandate_signatures
            &&& v.waiting is Mandate <==> under_mandate && input.mandate_jws is Some
            &&& v.waiting is Params <==> !(under_mandate && input.mandate_jws is Some)
            &&& v.waiting matches Waiting::Mandate(c) ==> v.intent.required_scope() == Some(
                c.scope@,
            )
        }),
{
}

/// A mandate that can be read takes its run on exactly when its terms allow the intent and,
/// where no signature is to be checked, its subject is the agent; where signatures are
/// checked the header comes next.
pub proof fn law_allowed_mandates_take_the_run_on(
    before: IcpService,
    after: IcpService,
    v: RunView,
    check: MandateCheck,
    payload: MandatePayload,
    now: Timestamp,
    ids: FreshIds,
    p: Progress,
    r: Result<MandateEvaluation, ApiError>,
)
    requires
        v.waiting == Waiting::Mandate(check),
        v.input.mandate_jws is Some,
        payload_of(v.input.mandate_jws->0@) is Ok,
        handled(before, after, v, Reply::Mandate(Ok(payload)), now, ids, p),
        judged(
            payload,
            v.input.mandate_jws->0@,
            check.scope@,
            check.amount_minor as int,
            now@,
            v.input.tenant.tenant_id@,
            opt_text(v.input.envelope.context.jurisdiction),
            before.mandates@,
            r,
        ),
    ensures
        p is Waiting <==> r is Ok && (v.checks_signatures || payload.sub@ == v.input.agent.raw@),
        p is Waiting || p is Refused,
        p matches Progress::Waiting(run) ==> {
            &&& v.checks_signatures ==> run@.mandate == v.mandate && (
            run@.waiting matches Waiting::MandateHeader(ev) && ev.payload == payload
                && !ev.signature_verified)
            &&& !v.checks_signatures ==> run@.waiting is Params && (run@.mandate matches Some(ev)
                && ev.payload == payload && !ev.signature_verified)
        },
        p matches Progress::Refused(e) ==> (r matches Err(x) ==> e@ == x@) && (r is Ok ==> e@
            is MandateOutOfScope),
{
}

/// With signatures checked, a mandate takes its run on exactly when the keys of its issuer
/// accept its signature and its subject is the agent; it then counts as verified.
pub proof fn law_verified_mandates_take_the_run_on(
    before: IcpService,
    after: IcpService,
    v: RunView,
    ev: MandateEvaluation,
    request: SignatureRequest,
    keys: Result<Vec<VerifyingKeyEntry>, ResolveError>,
    now: Timestamp,
    ids: FreshIds,
    p: Progress,
    verdict: Result<(), ApiError>,
)
    requires
        v.waiting == Waiting::MandateKeys(ev, request),
        handled(before, after, v, Reply::MandateKeys(keys), now, ids, p),
        checked_against(request, keys, verdict),
    ensures
        p is Waiting <==> verdict is Ok && ev.payload.sub@ == v.input.agent.raw@,
        p is Waiting || p is Refused,
        p matches Progress::Waiting(run) ==> run@.waiting is Params && (run@.mandate matches Some(m)
            && m.signature_verified && m.payload == ev.payload),
        p matches Progress::Refused(e) ==> (verdict is Err ==> e@ is MandateInvalid) && (verdict
            is Ok ==> e@ is MandateOutOfScope),
        after == before,
{
}

/// A run answers what it did: what was executed or finished is what the answer shows, and no
/// row changes between the two.
pub proof fn law_runs_answer_what_was_done(
    before: IcpService,
    after: IcpService,
    v: RunView,
    reply: Reply,
    now: Timestamp,
    ids: FreshIds,
    b: IntentResponseBody,
)
    requires
        handled(before, after, v, reply, now, ids, Progress::Answered(b)),
    ensures
        ({
            let o = Outcome {
                transaction: b.transaction,
                order: b.order,
                subscription: b.subscription,
                peer_quote: b.peer_quote,
            };
            let done = IcpService {
                receipts: before.receipts,
                webhook_outbox: before.webhook_outbox,
                events: before.events,
                ..after
            };
            &&& v.waiting is Params || v.waiting is Engine
            &&& (v.waiting, reply) matches (Waiting::Params, Reply::Params(params, discount))
                ==> executed(
                before,
                done,
                v.intent,
                v.input,
                params,
                discount,
                match &v.mandate {
                    Some(ev) => Some(ev),
                    None => None,
                },
                now,
                ids,
                Ok(Step::Done(o)),
            )
            &&& (v.waiting, reply) matches (Waiting::Engine(Step::Buy(t)), Reply::Engine(engine))
                ==> buy_finished(before, done, t.id@, engine, now, Ok(o))
            &&& (v.waiting, reply) matches (
                Waiting::Engine(Step::Subscribe(pending)),
                Reply::Engine(engine),
            ) ==> subscribe_finished(before, done, pending, engine, Ok(o))
            &&& (v.waiting, reply) matches (
                Waiting::Engine(Step::Renew(t, params)),
                Reply::Engine(engine),
            ) ==> renew_finished(
                before,
                done,
                params,
                t,
                match &v.mandate {
                    Some(ev) => Some(ev),
                    None => None,
                },
                engine,
                now,
                Ok(o),
            )
        }),
{
}

} // verus!
