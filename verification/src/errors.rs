//! The error taxonomy of the protocol.
//!
//! Every rejected request is an [`ApiError`]; [`ApiError::into_body`] gives the
//! HTTP status and the flat JSON structure that clients see.

use vstd::prelude::*;

use crate::text::{join2, join3, opt_text};

verus! {

/// The JSON document of an error response.
#[derive(Debug)]
pub struct ApiErrorBody {
    pub error: ApiErrorPayload,
}

/// The content of an error response.
#[derive(Debug)]
pub struct ApiErrorPayload {
    /// High-level category.
    pub type_: String,
    /// Machine-readable short code.
    pub code: String,
    /// Human-readable message, safe to surface to operators.
    pub message: String,
    /// JSONPath of the offending field, if applicable.
    pub param: Option<String>,
    pub intent_id: Option<String>,
    /// Whether the caller can retry without changes.
    pub retriable: bool,
    /// Documentation URL for this error code.
    pub docs_url: Option<String>,
}

/// A rejected request, with the message that explains it.
#[derive(Debug)]
pub enum ApiError {
    InvalidRequest(String),
    AuthenticationFailed(String),
    MandateInvalid(String),
    MandateOutOfScope(String),
    MandateBudgetExceeded(String),
    IntentNotSupported(String),
    ResourceNotFound(String),
    Conflict(String),
    IdempotencyConflict(String),
    PreconditionFailed(String),
    RateLimited,
    EngineUnavailable(String),
    ProcessingError(String),
}

/// The model of an [`ApiError`]: the same variants over character sequences.
pub enum ErrorView {
    InvalidRequest(Seq<char>),
    AuthenticationFailed(Seq<char>),
    MandateInvalid(Seq<char>),
    MandateOutOfScope(Seq<char>),
    MandateBudgetExceeded(Seq<char>),
    IntentNotSupported(Seq<char>),
    ResourceNotFound(Seq<char>),
    Conflict(Seq<char>),
    IdempotencyConflict(Seq<char>),
    PreconditionFailed(Seq<char>),
    RateLimited,
    EngineUnavailable(Seq<char>),
    ProcessingError(Seq<char>),
}

impl View for ApiError {
    type V = ErrorView;

    open spec fn view(&self) -> ErrorView {
        match self {
            ApiError::InvalidRequest(m) => ErrorView::InvalidRequest(m@),
            ApiError::AuthenticationFailed(m) => ErrorView::AuthenticationFailed(m@),
            ApiError::MandateInvalid(m) => ErrorView::MandateInvalid(m@),
            ApiError::MandateOutOfScope(m) => ErrorView::MandateOutOfScope(m@),
            ApiError::MandateBudgetExceeded(m) => ErrorView::MandateBudgetExceeded(m@),
            ApiError::IntentNotSupported(m) => ErrorView::IntentNotSupported(m@),
            ApiError::ResourceNotFound(m) => ErrorView::ResourceNotFound(m@),
            ApiError::Conflict(m) => ErrorView::Conflict(m@),
            ApiError::IdempotencyConflict(m) => ErrorView::IdempotencyConflict(m@),
            ApiError::PreconditionFailed(m) => ErrorView::PreconditionFailed(m@),
            ApiError::RateLimited => ErrorView::RateLimited,
            ApiError::EngineUnavailable(m) => ErrorView::EngineUnavailable(m@),
            ApiError::ProcessingError(m) => ErrorView::ProcessingError(m@),
        }
    }
}

impl ErrorView {
    /// The machine-readable code.
    pub open spec fn code(self) -> Seq<char> {
        match self {
            ErrorView::InvalidRequest(_) => "invalid_request"@,
            ErrorView::AuthenticationFailed(_) => "authentication_failed"@,
            ErrorView::MandateInvalid(_) => "mandate_invalid"@,
            ErrorView::MandateOutOfScope(_) => "mandate_out_of_scope"@,
            ErrorView::MandateBudgetExceeded(_) => "mandate_budget_exceeded"@,
            ErrorView::IntentNotSupported(_) => "intent_not_supported"@,
            ErrorView::ResourceNotFound(_) => "resource_not_found"@,
            ErrorView::Conflict(_) => "conflict"@,
            ErrorView::IdempotencyConflict(_) => "idempotency_conflict"@,
            ErrorView::PreconditionFailed(_) => "precondition_failed"@,
            ErrorView::RateLimited => "rate_limited"@,
            ErrorView::EngineUnavailable(_) => "engine_unavailable"@,
            ErrorView::ProcessingError(_) => "processing_error"@,
        }
    }

    /// The category: the code, but for idempotency conflicts, which are
    /// conflicts.
    pub open spec fn category(self) -> Seq<char> {
        match self {
            ErrorView::IdempotencyConflict(_) => "conflict"@,
            _ => self.code(),
        }
    }

    /// The HTTP status.
    pub open spec fn status(self) -> u16 {
        match self {
            ErrorView::InvalidRequest(_) => 400,
            ErrorView::AuthenticationFailed(_) => 401,
            ErrorView::MandateInvalid(_) => 401,
            ErrorView::MandateOutOfScope(_) => 403,
            ErrorView::MandateBudgetExceeded(_) => 402,
            ErrorView::IntentNotSupported(_) => 404,
            ErrorView::ResourceNotFound(_) => 404,
            ErrorView::Conflict(_) => 409,
            ErrorView::IdempotencyConflict(_) => 409,
            ErrorView::PreconditionFailed(_) => 412,
            ErrorView::RateLimited => 429,
            ErrorView::EngineUnavailable(_) => 503,
            ErrorView::ProcessingError(_) => 500,
        }
    }

    /// The human-readable message.
    pub open spec fn message(self) -> Seq<char> {
        match self {
            ErrorView::InvalidRequest(m) => m,
            ErrorView::AuthenticationFailed(m) => m,
            ErrorView::MandateInvalid(m) => m,
            ErrorView::MandateOutOfScope(m) => m,
            ErrorView::MandateBudgetExceeded(m) => m,
            ErrorView::IntentNotSupported(m) => m,
            ErrorView::ResourceNotFound(m) => m,
            ErrorView::Conflict(m) => m,
            ErrorView::IdempotencyConflict(m) => m,
            ErrorView::PreconditionFailed(m) => m,
            ErrorView::RateLimited => "Rate limit exceeded."@,
            ErrorView::EngineUnavailable(m) => m,
            ErrorView::ProcessingError(m) => m,
        }
    }

    /// Whether the caller can retry without changes.
    pub open spec fn retriable(self) -> bool {
        self is RateLimited || self is EngineUnavailable
    }

    /// The one-line description: the code, and the message where the error
    /// carries one.
    pub open spec fn text(self) -> Seq<char> {
        match self {
            ErrorView::RateLimited => self.code(),
            _ => self.code() + ": "@ + self.message(),
        }
    }
}

impl ApiErrorPayload {
    /// Whether this is what clients see of the error `e`, raised for the
    /// intent `intent_id`.
    pub open spec fn reports(self, e: ErrorView, intent_id: Option<Seq<char>>) -> bool {
        &&& self.type_@ == e.category()
        &&& self.code@ == e.code()
        &&& self.message@ == e.message()
        &&& self.param is None
        &&& opt_text(self.intent_id) == intent_id
        &&& self.retriable == e.retriable()
        &&& opt_text(self.docs_url) == Some("https://docs.stateset.com/icp/errors/"@ + e.code())
    }
}

impl ApiError {
    /// Category, code and HTTP status.
    pub fn code_and_status(&self) -> (r: (&'static str, &'static str, u16))
        ensures
            r.0@ == self@.category(),
            r.1@ == self@.code(),
            r.2 == self@.status(),
    {
        match self {
            ApiError::InvalidRequest(_) => ("invalid_request", "invalid_request", 400),
            ApiError::AuthenticationFailed(_) => (
                "authentication_failed",
                "authentication_failed",
                401,
            ),
            ApiError::MandateInvalid(_) => ("mandate_invalid", "mandate_invalid", 401),
            ApiError::MandateOutOfScope(_) => ("mandate_out_of_scope", "mandate_out_of_scope", 403),
            ApiError::MandateBudgetExceeded(_) => (
                "mandate_budget_exceeded",
                "mandate_budget_exceeded",
                402,
            ),
            ApiError::IntentNotSupported(_) => ("intent_not_supported", "intent_not_supported", 404),
            ApiError::ResourceNotFound(_) => ("resource_not_found", "resource_not_found", 404),
            ApiError::Conflict(_) => ("conflict", "conflict", 409),
            ApiError::IdempotencyConflict(_) => ("conflict", "idempotency_conflict", 409),
            ApiError::PreconditionFailed(_) => ("precondition_failed", "precondition_failed", 412),
            ApiError::RateLimited => ("rate_limited", "rate_limited", 429),
            ApiError::EngineUnavailable(_) => ("engine_unavailable", "engine_unavailable", 503),
            ApiError::ProcessingError(_) => ("processing_error", "processing_error", 500),
        }
    }

    /// The human-readable message.
    pub fn message(&self) -> (r: String)
        ensures
            r@ == self@.message(),
    {
        match self {
            ApiError::InvalidRequest(m) => m.clone(),
            ApiError::AuthenticationFailed(m) => m.clone(),
            ApiError::MandateInvalid(m) => m.clone(),
            ApiError::MandateOutOfScope(m) => m.clone(),
            ApiError::MandateBudgetExceeded(m) => m.clone(),
            ApiError::IntentNotSupported(m) => m.clone(),
            ApiError::ResourceNotFound(m) => m.clone(),
            ApiError::Conflict(m) => m.clone(),
            ApiError::IdempotencyConflict(m) => m.clone(),
            ApiError::PreconditionFailed(m) => m.clone(),
            ApiError::RateLimited => String::from_str("Rate limit exceeded."),
            ApiError::EngineUnavailable(m) => m.clone(),
            ApiError::ProcessingError(m) => m.clone(),
        }
    }

    /// Whether the caller can retry without changes.
    pub fn retriable(&self) -> (r: bool)
        ensures
            r == self@.retriable(),
    {
        match self {
            ApiError::RateLimited => true,
            ApiError::EngineUnavailable(_) => true,
            _ => false,
        }
    }

    /// The one-line description used in logs and event payloads.
    pub fn to_text(&self) -> (r: String)
        ensures
            r@ == self@.text(),
    {
        let (_, code, _) = self.code_and_status();
        match self {
            ApiError::RateLimited => String::from_str(code),
            _ => {
                let message = self.message();
                join3(code, ": ", message.as_str())
            },
        }
    }

    /// The HTTP status and the JSON document of the response.
    pub fn into_body(self) -> (r: (u16, ApiErrorBody))
        ensures
            r.0 == self@.status(),
            r.1.error.reports(self@, None),
    {
        self.into_body_with_intent_id(None)
    }

    /// The HTTP status and the JSON document of the response, naming the
    /// intent that was rejected.
    pub fn into_body_with_intent_id(self, intent_id: Option<String>) -> (r: (u16, ApiErrorBody))
        ensures
            r.0 == self@.status(),
            r.1.error.reports(self@, opt_text(intent_id)),
    {
        let (type_, code, status) = self.code_and_status();
        let message = self.message();
        let retriable = self.retriable();
        (
            status,
            ApiErrorBody {
                error: ApiErrorPayload {
                    type_: String::from_str(type_),
                    code: String::from_str(code),
                    message,
                    param: None,
                    intent_id,
                    retriable,
                    docs_url: Some(join2("https://docs.stateset.com/icp/errors/", code)),
                },
            },
        )
    }
}

/// Each error is answered with the status that says whose fault it is and what to do.
pub proof fn law_errors_have_their_status(e: ErrorView)
    ensures
        e is InvalidRequest <==> e.status() == 400,
        e is AuthenticationFailed || e is MandateInvalid <==> e.status() == 401,
        e is MandateBudgetExceeded <==> e.status() == 402,
        e is MandateOutOfScope <==> e.status() == 403,
        e is IntentNotSupported || e is ResourceNotFound <==> e.status() == 404,
        e is Conflict || e is IdempotencyConflict <==> e.status() == 409,
        e is PreconditionFailed <==> e.status() == 412,
        e is RateLimited <==> e.status() == 429,
        e is ProcessingError <==> e.status() == 500,
        e is EngineUnavailable <==> e.status() == 503,
        e.retriable() <==> e.status() == 429 || e.status() == 503,
{
}

/// A message is told as it is, behind the code of its error.
pub proof fn law_messages_are_told_as_they_are(m: Seq<char>)
    ensures
        ErrorView::InvalidRequest(m).message() == m && ErrorView::InvalidRequest(m).text()
            == "invalid_request: "@ + m,
        ErrorView::AuthenticationFailed(m).message() == m && ErrorView::AuthenticationFailed(
            m,
        ).code() == "authentication_failed"@,
        ErrorView::MandateInvalid(m).message() == m && ErrorView::MandateInvalid(m).code()
            == "mandate_invalid"@,
        ErrorView::MandateOutOfScope(m).message() == m && ErrorView::MandateOutOfScope(m).code()
            == "mandate_out_of_scope"@,
        ErrorView::MandateBudgetExceeded(m).message() == m && ErrorView::MandateBudgetExceeded(
            m,
        ).code() == "mandate_budget_exceeded"@,
        ErrorView::IntentNotSupported(m).message() == m && ErrorView::IntentNotSupported(m).code()
            == "intent_not_supported"@,
        ErrorView::ResourceNotFound(m).message() == m && ErrorView::ResourceNotFound(m).code()
            == "resource_not_found"@,
        ErrorView::Conflict(m).message() == m && ErrorView::Conflict(m).code() == "conflict"@,
        ErrorView::IdempotencyConflict(m).message() == m && ErrorView::IdempotencyConflict(m).code()
            == "idempotency_conflict"@ && ErrorView::IdempotencyConflict(m).category()
            == "conflict"@,
        ErrorView::PreconditionFailed(m).message() == m && ErrorView::PreconditionFailed(m).code()
            == "precondition_failed"@,
        ErrorView::EngineUnavailable(m).message() == m && ErrorView::EngineUnavailable(m).code()
            == "engine_unavailable"@,
        ErrorView::ProcessingError(m).message() == m && ErrorView::ProcessingError(m).code()
            == "processing_error"@,
        ErrorView::RateLimited.code() == "rate_limited"@,
{
    reveal_strlit("invalid_request: ");
    reveal_strlit("invalid_request");
    reveal_strlit(": ");
    assert("invalid_request"@ + ": "@ =~= "invalid_request: "@);
}

/// The body of an error says which error it is, in the words of the error, and for which
/// intent.
pub proof fn law_error_bodies_report_the_error(
    p: ApiErrorPayload,
    e: ErrorView,
    intent_id: Option<Seq<char>>,
)
    requires
        p.reports(e, intent_id),
    ensures
        p.code@ == e.code() && p.message@ == e.message() && p.retriable == (e is RateLimited || e
            is EngineUnavailable),
        intent_id matches Some(id) ==> (p.intent_id matches Some(t) && t@ == id),
        intent_id is None ==> p.intent_id is None,
        p.docs_url matches Some(u) && u@ == "https://docs.stateset.com/icp/errors/"@ + e.code(),
        p.param is None,
{
}

} // verus!
