//! The intents that follow an order: `track`, `return` and its alias
//! `refund_request`.

use vstd::prelude::*;

use crate::errors::{ApiError, ErrorView};
use crate::models::{Transaction, TransactionState};
use crate::service::helpers::{
    changed, missing, outcome_of, owns_transaction, transaction_for_tenant, transaction_only,
};
use crate::service::{IcpService, IntentInput, Outcome};
use crate::text::{join3, opt_text};
use crate::time::Timestamp;

verus! {

/// The transaction that a `track` names: in its parameters, or in the envelope.
pub open spec fn tracked_id(input: IntentInput) -> Option<Seq<char>> {
    match input.envelope.params@.text_member("transaction_id"@) {
        Some(id) => Some(id),
        None => opt_text(input.envelope.transaction_id),
    }
}

/// The transaction that a `return` names: in the envelope, or in its parameters.
pub open spec fn returned_id(input: IntentInput) -> Option<Seq<char>> {
    match input.envelope.transaction_id {
        Some(id) => Some(id@),
        None => input.envelope.params@.text_member("transaction_id"@),
    }
}

/// Why a transaction cannot be looked up by its tenant.
pub open spec fn lookup_error(
    m: Map<Seq<char>, Transaction>,
    id: Option<Seq<char>>,
    tenant: Seq<char>,
    unnamed: Seq<char>,
) -> Option<ErrorView> {
    match id {
        None => Some(ErrorView::InvalidRequest(unnamed)),
        Some(id) => if owns_transaction(m, id, tenant) {
            None
        } else {
            Some(missing("transaction"@, id))
        },
    }
}

/// The transaction once it is reversed.
pub open spec fn reversed(t: Transaction, now: Timestamp) -> Transaction {
    Transaction { state: TransactionState::Reversed, updated_at: now, ..t }
}

/// What a return does.
pub open spec fn return_done(
    before: IcpService,
    after: IcpService,
    input: IntentInput,
    now: Timestamp,
    r: Result<Outcome, ApiError>,
) -> bool {
    &&& after.wf()
    &&& after == (IcpService { transactions: after.transactions, ..before })
    &&& {
        let m = before.transactions@;
        let id = returned_id(input);
        let error = lookup_error(
            m,
            id,
            input.tenant.tenant_id@,
            "return: transaction_id required"@,
        );
        match r {
            Ok(o) => {
                &&& error is None
                &&& changed(
                    m,
                    after.transactions@,
                    id->0,
                    reversed(m[id->0], now),
                    o.transaction,
                )
                &&& transaction_only(o)
            },
            Err(e) => error == Some(e@) && after.transactions@ == m,
        }
    }
}

/// What showing a transaction does.
pub open spec fn track_done(
    service: IcpService,
    input: IntentInput,
    r: Result<Outcome, ApiError>,
) -> bool {
    let m = service.transactions@;
    let id = tracked_id(input);
    let error = lookup_error(m, id, input.tenant.tenant_id@, "track: transaction_id required"@);
    match r {
        Ok(o) => error is None && o.transaction.same_as(m[id->0]) && transaction_only(o),
        Err(e) => error == Some(e@),
    }
}

impl IcpService {
    /// Shows a transaction.
    pub fn do_track(&self, input: &IntentInput) -> (r: Result<Outcome, ApiError>)
        ensures
            track_done(*self, *input, r),
    {
        let id = match input.envelope.params.get_str("transaction_id") {
            Some(id) => id,
            None => match &input.envelope.transaction_id {
                Some(id) => id.as_str(),
                None => {
                    return Err(
                        ApiError::InvalidRequest(String::from_str("track: transaction_id required")),
                    );
                },
            },
        };
        match transaction_for_tenant(&self.transactions, id, input.tenant.tenant_id.as_str()) {
            Ok(t) => Ok(outcome_of(t.clone())),
            Err(e) => Err(e),
        }
    }

    /// Reverses a transaction.
    pub fn do_return(&mut self, input: &IntentInput, now: Timestamp) -> (r: Result<Outcome, ApiError>)
        requires
            old(self).wf(),
        ensures
            return_done(*old(self), *final(self), *input, now, r),
    {
        let ghost m = self.transactions@;
        let id = match &input.envelope.transaction_id {
            Some(id) => id.as_str(),
            None => match input.envelope.params.get_str("transaction_id") {
                Some(id) => id,
                None => {
                    return Err(
                        ApiError::InvalidRequest(String::from_str("return: transaction_id required")),
                    );
                },
            },
        };
        match transaction_for_tenant(&self.transactions, id, input.tenant.tenant_id.as_str()) {
            Ok(_) => {},
            Err(e) => {
                return Err(e);
            },
        }
        match self.take_transaction(id) {
            Some(mut t) => {
                t.state = TransactionState::Reversed;
                t.updated_at = now;
                let shown = self.keep_transaction(t);
                assert(self.transactions@ =~= m.insert(id@, t));
                Ok(outcome_of(shown))
            },
            None => Err(ApiError::ResourceNotFound(join3("transaction", " ", id))),
        }
    }

    /// Reverses a transaction, as a `return` does.
    pub fn do_refund_request(&mut self, input: &IntentInput, now: Timestamp) -> (r: Result<
        Outcome,
        ApiError,
    >)
        requires
            old(self).wf(),
        ensures
            return_done(*old(self), *final(self), *input, now, r),
    {
        self.do_return(input, now)
    }
}

// ---------------------------------------------------------------------------
// Laws
// ---------------------------------------------------------------------------

/// A return reverses the transaction that it names, in the envelope or else in its
/// parameters, for the tenant that owns it, and changes nothing else.
pub proof fn law_returns_reverse_the_named_transaction(
    before: IcpService,
    after: IcpService,
    input: IntentInput,
    now: Timestamp,
    r: Result<Outcome, ApiError>,
)
    requires
        return_done(before, after, input, now, r),
    ensures
        ({
            let by_params = input.envelope.params@.text_member("transaction_id"@);
            let id = match input.envelope.transaction_id {
                Some(id) => id@,
                None => by_params->0,
            };
            let named = input.envelope.transaction_id is Some || by_params is Some;
            let was = before.transactions@[id];
            let own = before.transactions@.contains_key(id) && was.tenant_id@
                == input.tenant.tenant_id@;
            &&& r is Ok <==> named && own
            &&& r matches Ok(o) ==> {
                let kept = after.transactions@[id];
                &&& kept.state is Reversed && o.transaction.state is Reversed
                &&& o.transaction.id == kept.id && kept.id == was.id
                &&& kept.totals == was.totals && kept.line_items@ == was.line_items@ && kept.buyer
                    == was.buyer && kept.order_id == was.order_id && kept.external_refs@
                    == was.external_refs@ && kept.tenant_id == was.tenant_id
                &&& kept.updated_at == now && kept.created_at == was.created_at
                &&& forall|k: Seq<char>|
                    k != id ==> (after.transactions@.contains_key(k)
                        <==> before.transactions@.contains_key(k))
                        && #[trigger] after.transactions@[k] == before.transactions@[k]
            }
            &&& r matches Err(e) ==> after.transactions@ == before.transactions@ && (named ==> e@
                is ResourceNotFound) && (!named ==> e@ is InvalidRequest)
            &&& after.mandates == before.mandates && after.subscriptions == before.subscriptions
        }),
{
}

/// Tracking shows the transaction that is named, in the parameters or else in the envelope,
/// to the tenant that owns it and to no other.
pub proof fn law_tracking_shows_the_named_transaction(
    service: IcpService,
    input: IntentInput,
    r: Result<Outcome, ApiError>,
)
    requires
        track_done(service, input, r),
    ensures
        ({
            let by_params = input.envelope.params@.text_member("transaction_id"@);
            let id = match by_params {
                Some(id) => id,
                None => input.envelope.transaction_id->0@,
            };
            let named = input.envelope.transaction_id is Some || by_params is Some;
            let kept = service.transactions@[id];
            let own = service.transactions@.contains_key(id) && kept.tenant_id@
                == input.tenant.tenant_id@;
            &&& r is Ok <==> named && own
            &&& r matches Ok(o) ==> o.transaction.same_as(kept) && o.transaction.state
                == kept.state && o.transaction.id == kept.id && o.transaction.totals == kept.totals
            &&& r matches Err(e) ==> (named ==> e@ is ResourceNotFound) && (!named ==> e@
                is InvalidRequest)
        }),
{
}

} // verus!
