//! Request and response bodies of the HTTP API.
use vstd::prelude::*;
use crate::model::QuestionInfo;
use crate::text::{concat, owned};

verus! {

// ── Requests ─────────────────────────────────────────────────────────────────

/// One submitted answer: a field id and the player's value for it.
pub struct VerifyItem {
    pub field_id: String,
    pub field_value: String,
}

/// A submitted answer and whether the player says the field is bound.
pub struct VerifyDataItem {
    pub item: VerifyItem,
    pub bind: bool,
}

/// The body of a verification-materials submission.
pub struct SubmitVerifyRequest {
    pub customer_name: String,
    pub data: Vec<VerifyDataItem>,
}

/// The query of a question-list request.
pub struct GetQuestionListParams {
    pub customer_name: String,
}

// ── Responses ────────────────────────────────────────────────────────────────

/// An empty body (`{}`).
pub struct EmptyResp {}

/// A body holding only a success flag.
pub struct SuccessResp {
    pub success: bool,
}

impl SuccessResp {
    /// `{"success": true}`.
    pub fn ok() -> (r: SuccessResp)
        ensures
            r.success,
    {
        SuccessResp { success: true }
    }
}

/// A login answer with a raw payload.
pub struct LoginWithInfoResp {
    pub success: bool,
    pub message: Option<String>,
    pub payload: Option<Vec<u8>>,
}

/// A typed `{success, value}` envelope.
pub struct BaseResponseT<T> {
    pub success: bool,
    pub value: Option<T>,
}

impl<T> BaseResponseT<T> {
    /// A successful envelope around `value`.
    pub fn ok(value: T) -> (r: BaseResponseT<T>)
        ensures
            r.success,
            r.value == Some(value),
    {
        BaseResponseT { success: true, value: Some(value) }
    }

    /// A failed envelope without a value.
    pub fn fail() -> (r: BaseResponseT<T>)
        ensures
            !r.success,
            r.value is None,
    {
        BaseResponseT { success: false, value: None }
    }
}

/// The question list of a merchant.
pub struct MerchantRuleResponse {
    pub merchant_code: String,
    pub questions: Vec<QuestionInfo>,
}

/// The error body of the verification handlers.
pub struct ErrResponse {
    pub success: bool,
    pub error_code: String,
    pub message: String,
}

impl ErrResponse {
    /// An error body with the given code and message.
    pub fn new(error_code: &str, message: &str) -> (r: ErrResponse)
        ensures
            !r.success,
            r.error_code@ == error_code@,
            r.message@ == message@,
    {
        ErrResponse { success: false, error_code: owned(error_code), message: owned(message) }
    }
}

/// A missing parameter (400).
pub struct ErrMissingParam {
    pub code: String,
    pub message: String,
}

impl ErrMissingParam {
    /// `MISSING_PARAM`, "`<field>` is required".
    pub fn new(field: &str) -> (r: ErrMissingParam)
        ensures
            r.code@ == "MISSING_PARAM"@,
            r.message@ == field@ + " is required"@,
    {
        ErrMissingParam { code: owned("MISSING_PARAM"), message: concat(field, " is required") }
    }
}

/// A missing resource (404).
pub struct ErrNotFound {
    pub code: String,
    pub message: String,
}

impl ErrNotFound {
    /// `NOT_FOUND`, "`<resource>` not found".
    pub fn new(resource: &str) -> (r: ErrNotFound)
        ensures
            r.code@ == "NOT_FOUND"@,
            r.message@ == resource@ + " not found"@,
    {
        ErrNotFound { code: owned("NOT_FOUND"), message: concat(resource, " not found") }
    }
}

/// An internal failure (500).
pub struct ErrInternalServer {
    pub code: String,
    pub message: String,
}

impl ErrInternalServer {
    /// `INTERNAL_ERROR` with the given message.
    pub fn new(msg: &str) -> (r: ErrInternalServer)
        ensures
            r.code@ == "INTERNAL_ERROR"@,
            r.message@ == msg@,
    {
        ErrInternalServer { code: owned("INTERNAL_ERROR"), message: owned(msg) }
    }
}

/// Submission result when the score did not pass.
pub struct SubmitVerifyDataScoreNotChecked {
    pub score_checked: bool,
}

/// Submission result when the score passed: how to bind, and the token.
pub struct SubmitVerifyDataScoreChecked {
    pub bind_type: String,
    pub one_time_password: String,
}

/// The envelope of a failed submission.
pub struct SubmitVerifyResponseScoreNotChecked {
    pub success: bool,
    pub value: SubmitVerifyInnerNotChecked,
}

/// The inner value of a failed submission.
pub struct SubmitVerifyInnerNotChecked {
    pub message: String,
    pub code: i32,
    pub data: SubmitVerifyDataScoreNotChecked,
}

/// The envelope of a passed submission.
pub struct SubmitVerifyResponseScoreChecked {
    pub success: bool,
    pub value: SubmitVerifyInnerChecked,
}

/// The inner value of a passed submission.
pub struct SubmitVerifyInnerChecked {
    pub data: SubmitVerifyDataScoreChecked,
    pub message: String,
    pub code: i32,
}

/// The result of a submission: whether the score passed and, when it did,
/// how to bind and the one-time password.
pub struct SubmitVerifyData {
    pub score_checked: bool,
    pub bind_type: Option<String>,
    pub one_time_password: Option<String>,
}

} // verus!
