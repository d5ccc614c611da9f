//! What the verification endpoints answer: parameter checks (400), business
//! failures (500 with a handler code), and the two reset channels that are
//! answered with 200.
use vstd::prelude::*;
use crate::error::{app_error_message, app_error_module_code, error_code_text, AppError, ErrorResponse};
use crate::types::ErrResponse;
use crate::wps::{ResetPasswordStatusResponse, ResetPasswordStatusValue};

verus! {

/// An endpoint's answer, before it is written as JSON.
pub enum Reply {
    /// An error body under an HTTP status.
    Error { status: u16, body: ErrResponse },
    /// A 200 telling which reset channel the customer can use.
    ResetStatus(ResetPasswordStatusResponse),
    /// A 500 describing a domain error.
    Internal(ErrorResponse),
}

/// An error reply.
pub open spec fn is_error_reply(r: Reply, status: u16, code: Seq<char>, message: Seq<char>) -> bool {
    r matches Reply::Error { status: s, body } && s == status && !body.success && body.error_code@
        == code && body.message@ == message
}

fn error_reply(status: u16, error_code: &str, message: &str) -> (r: Reply)
    ensures
        is_error_reply(r, status, error_code@, message@),
{
    Reply::Error { status, body: ErrResponse::new(error_code, message) }
}

/// The 500 reply describing a domain error.
pub open spec fn is_internal_reply(r: Reply, e: AppError) -> bool {
    r matches Reply::Internal(body) && !body.success && body.error_code@ == error_code_text(
        app_error_module_code(e).0,
        app_error_module_code(e).1,
    ) && body.message@ == app_error_message(e)
}

/// The 200 reply naming the open channel.
pub open spec fn is_channel_reply(r: Reply, email: bool, sms: bool) -> bool {
    r matches Reply::ResetStatus(s) && s.success && s.value.is_email_reset_enabled == email
        && s.value.is_sms_reset_enabled == sms && !s.value.is_personal_info_reset_enabled
}

fn channel_reply(email: bool, sms: bool) -> (r: Reply)
    ensures
        is_channel_reply(r, email, sms),
{
    Reply::ResetStatus(
        ResetPasswordStatusResponse {
            success: true,
            value: ResetPasswordStatusValue {
                is_email_reset_enabled: email,
                is_sms_reset_enabled: sms,
                is_personal_info_reset_enabled: false,
            },
        },
    )
}

/// The 400 reply for a question-list request missing a parameter, checked
/// in the order merchant, customer IP, language, customer name.
pub fn question_list_param_error(
    merchant_code: &str,
    customer_ip: &str,
    language: &str,
    customer_name: &str,
) -> (r: Option<Reply>)
    ensures
        merchant_code@.len() == 0 ==> (r matches Some(x) && is_error_reply(
            x,
            400,
            "ucsfe.questions.merchant_param_missing"@,
            "merchant header is required"@,
        )),
        merchant_code@.len() > 0 && customer_ip@.len() == 0 ==> (r matches Some(x)
            && is_error_reply(
            x,
            400,
            "ucsfe.questions.customerip_param_missing"@,
            "CustomerIP header is required"@,
        )),
        merchant_code@.len() > 0 && customer_ip@.len() > 0 && language@.len() == 0 ==> (r matches Some(
            x,
        ) && is_error_reply(
            x,
            400,
            "ucsfe.questions.language_param_missing"@,
            "Language header is required"@,
        )),
        merchant_code@.len() > 0 && customer_ip@.len() > 0 && language@.len() > 0
            && customer_name@.len() == 0 ==> (r matches Some(x) && is_error_reply(
            x,
            400,
            "ucsfe.questions.customer_name_param_missing"@,
            "customerName is required"@,
        )),
        merchant_code@.len() > 0 && customer_ip@.len() > 0 && language@.len() > 0
            && customer_name@.len() > 0 ==> r is None,
{
    if merchant_code.is_empty() {
        return Some(
            error_reply(
                400,
                "ucsfe.questions.merchant_param_missing",
                "merchant header is required",
            ),
        );
    }
    if customer_ip.is_empty() {
        return Some(
            error_reply(
                400,
                "ucsfe.questions.customerip_param_missing",
                "CustomerIP header is required",
            ),
        );
    }
    if language.is_empty() {
        return Some(
            error_reply(
                400,
                "ucsfe.questions.language_param_missing",
                "Language header is required",
            ),
        );
    }
    if customer_name.is_empty() {
        return Some(
            error_reply(
                400,
                "ucsfe.questions.customer_name_param_missing",
                "customerName is required",
            ),
        );
    }
    None
}

/// The reply to a failed question-list request.
pub fn question_list_failure(err: &AppError) -> (r: Reply)
    ensures
        err is MerchantNotFound ==> is_error_reply(
            r,
            500,
            "ucsfe.questions.merchant_rule_not_found"@,
            "Merchant rule not found"@,
        ),
        err is QuestionLimitExceeded ==> is_error_reply(
            r,
            500,
            "ucsfe.questions.retry_limit_exhausted"@,
            "Retry limit reached. Please try again tomorrow."@,
        ),
        err is RedisNotFound ==> is_error_reply(
            r,
            500,
            "ucsfe.questions.redis_unavailable"@,
            "Service temporarily unavailable, please try again later"@,
        ),
        err is ParseJsonFailed ==> is_error_reply(
            r,
            500,
            "ucsfe.questions.rule_config_invalid"@,
            "Invalid merchant rule configuration"@,
        ),
        err is WpsApiFailed ==> is_error_reply(
            r,
            500,
            "ucsfe.questions.wps_service_unavailable"@,
            "Service temporarily unavailable, please try again later"@,
        ),
        err is CustomerFetchFailed ==> is_error_reply(
            r,
            500,
            "ucsfe.questions.customer_not_exists"@,
            "Service temporarily unavailable, please try again later"@,
        ),
        err is PhoneAlreadyBound ==> is_channel_reply(r, false, true),
        err is EmailAlreadyBound ==> is_channel_reply(r, true, false),
        !(err is MerchantNotFound || err is QuestionLimitExceeded || err is RedisNotFound
            || err is ParseJsonFailed || err is WpsApiFailed || err is CustomerFetchFailed
            || err is PhoneAlreadyBound || err is EmailAlreadyBound) ==> is_internal_reply(r, *err),
{
    match err {
        AppError::MerchantNotFound(_) => error_reply(
            500,
            "ucsfe.questions.merchant_rule_not_found",
            "Merchant rule not found",
        ),
        AppError::QuestionLimitExceeded => error_reply(
            500,
            "ucsfe.questions.retry_limit_exhausted",
            "Retry limit reached. Please try again tomorrow.",
        ),
        AppError::RedisNotFound => error_reply(
            500,
            "ucsfe.questions.redis_unavailable",
            "Service temporarily unavailable, please try again later",
        ),
        AppError::ParseJsonFailed(_) => error_reply(
            500,
            "ucsfe.questions.rule_config_invalid",
            "Invalid merchant rule configuration",
        ),
        AppError::WpsApiFailed(_) => error_reply(
            500,
            "ucsfe.questions.wps_service_unavailable",
            "Service temporarily unavailable, please try again later",
        ),
        AppError::CustomerFetchFailed(_) => error_reply(
            500,
            "ucsfe.questions.customer_not_exists",
            "Service temporarily unavailable, please try again later",
        ),
        AppError::PhoneAlreadyBound => channel_reply(false, true),
        AppError::EmailAlreadyBound => channel_reply(true, false),
        _ => Reply::Internal(err.to_error_response()),
    }
}

/// The reply to a submission whose body cannot be read.
pub fn materials_body_invalid() -> (r: Reply)
    ensures
        is_error_reply(r, 500, "ucsfe.materials.param_invalid"@, "invalid request body"@),
{
    error_reply(500, "ucsfe.materials.param_invalid", "invalid request body")
}

/// The reply to a submission without answers, if it has none.
pub fn materials_data_missing(answer_count: usize) -> (r: Option<Reply>)
    ensures
        answer_count == 0 ==> (r matches Some(x) && is_error_reply(
            x,
            500,
            "ucsfe.materials.param_missing"@,
            "data array is required"@,
        )),
        answer_count > 0 ==> r is None,
{
    if answer_count == 0 {
        Some(error_reply(500, "ucsfe.materials.param_missing", "data array is required"))
    } else {
        None
    }
}

/// The reply to a failed submission.
pub fn materials_failure(err: &AppError) -> (r: Reply)
    ensures
        err is MerchantNotFound ==> is_error_reply(
            r,
            500,
            "ucsfe.materials.merchant_rule_not_found"@,
            "Merchant rule not found"@,
        ),
        err is ParseJsonFailed ==> is_error_reply(
            r,
            500,
            "ucsfe.materials.rule_config_invalid"@,
            "Invalid merchant rule configuration"@,
        ),
        err is CustomerFetchFailed || err is CustomerPersonalInfoFetchFailed ==> is_error_reply(
            r,
            500,
            "ucsfe.materials.customer_not_exists"@,
            "Internal server error"@,
        ),
        err is PasswordResetFailed ==> is_error_reply(
            r,
            500,
            "ucsfe.materials.password_reset_failed"@,
            "failed to generate reset token"@,
        ),
        err is VerifyPlayerInfoFailed ==> is_error_reply(
            r,
            500,
            "ucsfe.materials.mcs_verify_failed"@,
            "MCS verification failed"@,
        ),
        !(err is MerchantNotFound || err is ParseJsonFailed || err is CustomerFetchFailed
            || err is CustomerPersonalInfoFetchFailed || err is PasswordResetFailed
            || err is VerifyPlayerInfoFailed) ==> is_internal_reply(r, *err),
{
    match err {
        AppError::MerchantNotFound(_) => error_reply(
            500,
            "ucsfe.materials.merchant_rule_not_found",
            "Merchant rule not found",
        ),
        AppError::ParseJsonFailed(_) => error_reply(
            500,
            "ucsfe.materials.rule_config_invalid",
            "Invalid merchant rule configuration",
        ),
        AppError::CustomerFetchFailed(_) | AppError::CustomerPersonalInfoFetchFailed(_) => error_reply(
            500,
            "ucsfe.materials.customer_not_exists",
            "Internal server error",
        ),
        AppError::PasswordResetFailed(_) => error_reply(
            500,
            "ucsfe.materials.password_reset_failed",
            "failed to generate reset token",
        ),
        AppError::VerifyPlayerInfoFailed(_) => error_reply(
            500,
            "ucsfe.materials.mcs_verify_failed",
            "MCS verification failed",
        ),
        _ => Reply::Internal(err.to_error_response()),
    }
}

} // verus!
