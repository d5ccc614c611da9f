//! Error codes, modules, the domain error, and the JSON error body.
//!
//! A code the clients see reads `ucs-fe.<module>.<code>`.
use vstd::prelude::*;
use crate::text::{concat, owned};

verus! {

/// The service's segment of every error code.
pub const SERVICE_PREFIX: &'static str = "ucs-fe";

/// The last segment of an error code.
pub struct ErrorCode(pub &'static str);

/// The known last segments.
impl ErrorCode {
    pub const SYS_ERR: &'static str = "unknown_err";
    pub const PARAM_ERR: &'static str = "param_err";
    pub const REQ_ERR: &'static str = "req_param_err";
    pub const FORMAT_ERROR: &'static str = "format_error";
    pub const UPLOAD_ERROR: &'static str = "upload_error";
    pub const JSON_ERR: &'static str = "json_err";
    pub const AUTH_ERR: &'static str = "auth_err";
    pub const SIGN_ERR: &'static str = "sign_err";
    pub const FREQUENCY_ERR: &'static str = "frequency_err";
    pub const NETWORK_TIMEOUT: &'static str = "network_timeout";
    pub const STATUS_ERR: &'static str = "status_err";
    pub const AMOUNT_INVALID: &'static str = "amount_invalid";
    pub const DATA_NOT_FOUND: &'static str = "data_not_found";
    pub const DATA_HAS_EXISTED: &'static str = "data_has_existed";
    pub const INSERT_FAILED: &'static str = "insert_failed";
    pub const UPDATE_FAILED: &'static str = "update_failed";
    pub const DELETE_FAILED: &'static str = "delete_failed";
    pub const NO_DATA_UPDATE: &'static str = "no_data_update";
    pub const DB_BIND_PARAM_ERROR: &'static str = "db_bind_param_error";
    pub const SQL_EXECUTION_FAIL: &'static str = "sql_execution_fail";
    pub const MERCHANT_NOT_FOUND: &'static str = "merchant_not_found";
    pub const MERCHANT_EXISTED: &'static str = "merchant_already_exist";
    pub const MERCHANT_IS_NULL: &'static str = "merchant_is_null";
    pub const MERCHANT_NOT_EXIST: &'static str = "merchant_not_exist";
    pub const FIELD_CONFIG_NOT_EXIST: &'static str = "field_config_not_exist";
    pub const VALIDATION_RECORD_NOT_EXIST: &'static str = "validation_record_not_exist";
    pub const EXCEED_LIMIT: &'static str = "exceed_limit";
    pub const TASK_SUBMIT_FAIL: &'static str = "task_submit_fail";
    pub const INVALID_PARAM: &'static str = "invalid_param";
    pub const INVALID_DATE_PARAM: &'static str = "invalid_date_param";
    pub const TIME_RANGE_ERROR: &'static str = "time_range_error";
    pub const NO_LOG_RECORD: &'static str = "no_log_record";
    pub const INVALID_OPERAND: &'static str = "invalid_operand";
    pub const UCS_CLIENT_ERR: &'static str = "ucs_client_err";
    pub const USS_CLIENT_ERR: &'static str = "uss_client_err";
    pub const TAC_CLIENT_ERR: &'static str = "tac_client_err";
    pub const PSS_CLIENT_ERR: &'static str = "pss_client_err";
    pub const WPS_CLIENT_ERR: &'static str = "wps_client_err";
    pub const MCS_CLIENT_ERR: &'static str = "mcs_client_err";
    pub const CUSTOMER_ILLEGAL_MERCHANT: &'static str = "customer_merchant_error";
    pub const INTERNAL_ERROR: &'static str = "internal_error";
    pub const PARAM_MISSING: &'static str = "param_missing";
    pub const RULE_CONFIG_INVALID: &'static str = "rule_config_invalid";
    pub const CUSTOMER_FETCH_FAILED: &'static str = "fetch_failed";
    pub const RETRY_LIMIT_EXHAUSTED: &'static str = "retry_limit_exhausted";
    pub const MCS_FAILED: &'static str = "mcs_failed";
    pub const PARSE_FAILED: &'static str = "parse_failed";
    pub const PASSWORD_RESET_FAILED: &'static str = "reset_failed";
    pub const RATE_LIMIT_EXCEEDED: &'static str = "rate_limit_exceeded";
    pub const UNAVAILABLE: &'static str = "unavailable";
}

/// The subsystem an error comes from: the middle segment of an error code.
pub enum Module {
    Oracle,
    Redis,
    Mongo,
    SecurityQuestion,
    Customer,
    Profile,
    NonBusiness,
    Merchant,
    Remember,
    Password,
    CustomerPermission,
    Sort,
    Mail,
    DynamicField,
    Relay,
    Register,
    Verification,
    Database,
    Wps,
    Uss,
    Mcs,
}

/// The middle segment for a module.
pub open spec fn module_text(m: Module) -> Seq<char> {
    match m {
        Module::Oracle => "oracle"@,
        Module::Redis => "redis"@,
        Module::Mongo => "mongo"@,
        Module::SecurityQuestion => "security_question"@,
        Module::Customer => "customer"@,
        Module::Profile => "profile"@,
        Module::NonBusiness => "non"@,
        Module::Merchant => "merchant"@,
        Module::Remember => "remember"@,
        Module::Password => "password"@,
        Module::CustomerPermission => "customer_permission"@,
        Module::Sort => "sort"@,
        Module::Mail => "mail"@,
        Module::DynamicField => "dynamic_field"@,
        Module::Relay => "relay"@,
        Module::Register => "register"@,
        Module::Verification => "verification"@,
        Module::Database => "db"@,
        Module::Wps => "wps"@,
        Module::Uss => "uss"@,
        Module::Mcs => "mcs"@,
    }
}

/// A short fingerprint of a name: its length, its first letter and its
/// third letter (a space when it has none).
pub open spec fn name_key(s: Seq<char>) -> (nat, char, char) {
    (s.len(), s[0], if s.len() > 2 { s[2] } else { ' ' })
}

/// The module whose name has the fingerprint `k`, if any.
pub open spec fn module_for_key(k: (nat, char, char)) -> Option<Module> {
    if k == (6nat, 'o', 'a') {
        Some(Module::Oracle)
    } else if k == (5nat, 'r', 'd') {
        Some(Module::Redis)
    } else if k == (5nat, 'm', 'n') {
        Some(Module::Mongo)
    } else if k == (17nat, 's', 'c') {
        Some(Module::SecurityQuestion)
    } else if k == (8nat, 'c', 's') {
        Some(Module::Customer)
    } else if k == (7nat, 'p', 'o') {
        Some(Module::Profile)
    } else if k == (3nat, 'n', 'n') {
        Some(Module::NonBusiness)
    } else if k == (8nat, 'm', 'r') {
        Some(Module::Merchant)
    } else if k == (8nat, 'r', 'm') {
        Some(Module::Remember)
    } else if k == (8nat, 'p', 's') {
        Some(Module::Password)
    } else if k == (19nat, 'c', 's') {
        Some(Module::CustomerPermission)
    } else if k == (4nat, 's', 'r') {
        Some(Module::Sort)
    } else if k == (4nat, 'm', 'i') {
        Some(Module::Mail)
    } else if k == (13nat, 'd', 'n') {
        Some(Module::DynamicField)
    } else if k == (5nat, 'r', 'l') {
        Some(Module::Relay)
    } else if k == (8nat, 'r', 'g') {
        Some(Module::Register)
    } else if k == (12nat, 'v', 'r') {
        Some(Module::Verification)
    } else if k == (2nat, 'd', ' ') {
        Some(Module::Database)
    } else if k == (3nat, 'w', 's') {
        Some(Module::Wps)
    } else if k == (3nat, 'u', 's') {
        Some(Module::Uss)
    } else if k == (3nat, 'm', 's') {
        Some(Module::Mcs)
    } else {
        None
    }
}

/// Each module's name has a fingerprint that leads back to the module.
proof fn lemma_module_key(m: Module)
    ensures
        module_for_key(name_key(module_text(m))) == Some(m),
{
    match m {
        Module::Oracle => {
            reveal_strlit("oracle");
        },
        Module::Redis => {
            reveal_strlit("redis");
        },
        Module::Mongo => {
            reveal_strlit("mongo");
        },
        Module::SecurityQuestion => {
            reveal_strlit("security_question");
        },
        Module::Customer => {
            reveal_strlit("customer");
        },
        Module::Profile => {
            reveal_strlit("profile");
        },
        Module::NonBusiness => {
            reveal_strlit("non");
        },
        Module::Merchant => {
            reveal_strlit("merchant");
        },
        Module::Remember => {
            reveal_strlit("remember");
        },
        Module::Password => {
            reveal_strlit("password");
        },
        Module::CustomerPermission => {
            reveal_strlit("customer_permission");
        },
        Module::Sort => {
            reveal_strlit("sort");
        },
        Module::Mail => {
            reveal_strlit("mail");
        },
        Module::DynamicField => {
            reveal_strlit("dynamic_field");
        },
        Module::Relay => {
            reveal_strlit("relay");
        },
        Module::Register => {
            reveal_strlit("register");
        },
        Module::Verification => {
            reveal_strlit("verification");
        },
        Module::Database => {
            reveal_strlit("db");
        },
        Module::Wps => {
            reveal_strlit("wps");
        },
        Module::Uss => {
            reveal_strlit("uss");
        },
        Module::Mcs => {
            reveal_strlit("mcs");
        },
    }
}

/// Distinct modules have distinct names, so no two modules share the
/// middle segment of an error code.
pub proof fn lemma_module_names_distinct(m1: Module, m2: Module)
    requires
        m1 != m2,
    ensures
        module_text(m1) != module_text(m2),
{
    lemma_module_key(m1);
    lemma_module_key(m2);
}

impl Module {
    /// The module's segment of an error code.
    pub fn as_str(&self) -> (r: &'static str)
        ensures
            r@ == module_text(*self),
    {
        match self {
            Module::Oracle => "oracle",
            Module::Redis => "redis",
            Module::Mongo => "mongo",
            Module::SecurityQuestion => "security_question",
            Module::Customer => "customer",
            Module::Profile => "profile",
            Module::NonBusiness => "non",
            Module::Merchant => "merchant",
            Module::Remember => "remember",
            Module::Password => "password",
            Module::CustomerPermission => "customer_permission",
            Module::Sort => "sort",
            Module::Mail => "mail",
            Module::DynamicField => "dynamic_field",
            Module::Relay => "relay",
            Module::Register => "register",
            Module::Verification => "verification",
            Module::Database => "db",
            Module::Wps => "wps",
            Module::Uss => "uss",
            Module::Mcs => "mcs",
        }
    }
}


/// The domain error of the service and repository layers.
pub enum AppError {
    /// No merchant rule for the merchant code.
    MerchantNotFound(String),
    /// USS could not give the customer.
    CustomerFetchFailed(String),
    /// USS could not give the customer's personal info.
    CustomerPersonalInfoFetchFailed(String),
    /// The IP or the account used up today's question lists.
    QuestionLimitExceeded,
    /// The rate-limit Redis database is not configured.
    RedisNotFound,
    /// WPS could not say which reset channels are open.
    WpsApiFailed(String),
    /// The customer can reset by e-mail.
    EmailAlreadyBound,
    /// The customer can reset by SMS.
    PhoneAlreadyBound,
    /// The merchant's question configuration cannot be read.
    ParseJsonFailed(String),
    /// MCS could not verify the financial answers.
    VerifyPlayerInfoFailed(String),
    /// USS gave no password-reset token.
    PasswordResetFailed(String),
    /// A database call failed, with its message.
    OracleError(String),
    /// A Redis call failed, with its message.
    RedisError(String),
    /// An HTTP call failed, with its message.
    HttpClientError(String),
    /// JSON could not be read or written, with the message.
    JsonError(String),
    /// Any other failure, with its message.
    Internal(String),
}

/// The text an error displays.
pub open spec fn app_error_message(e: AppError) -> Seq<char> {
    match e {
        AppError::MerchantNotFound(s) => "merchant not found: "@ + s@,
        AppError::CustomerFetchFailed(s) => "customer fetch failed: "@ + s@,
        AppError::CustomerPersonalInfoFetchFailed(s) => "customer personal info fetch failed: "@ + s@,
        AppError::QuestionLimitExceeded => "question retry limit exceeded"@,
        AppError::RedisNotFound => "redis instance not found"@,
        AppError::WpsApiFailed(s) => "WPS API failed: "@ + s@,
        AppError::EmailAlreadyBound => "email already verified (bound)"@,
        AppError::PhoneAlreadyBound => "phone already bound"@,
        AppError::ParseJsonFailed(s) => "parse JSON failed: "@ + s@,
        AppError::VerifyPlayerInfoFailed(s) => "verify player info (MCS) failed: "@ + s@,
        AppError::PasswordResetFailed(s) => "password reset failed: "@ + s@,
        AppError::OracleError(s) => "oracle error: "@ + s@,
        AppError::RedisError(s) => "redis error: "@ + s@,
        AppError::HttpClientError(s) => "http client error: "@ + s@,
        AppError::JsonError(s) => "json error: "@ + s@,
        AppError::Internal(s) => "internal error: "@ + s@,
    }
}

/// The module and code an error is reported under.
pub open spec fn app_error_module_code(e: AppError) -> (Module, Seq<char>) {
    match e {
        AppError::MerchantNotFound(_) => (Module::Merchant, "merchant_not_found"@),
        AppError::CustomerFetchFailed(_) => (Module::Uss, "uss_client_err"@),
        AppError::CustomerPersonalInfoFetchFailed(_) => (Module::Uss, "uss_client_err"@),
        AppError::QuestionLimitExceeded => (Module::Verification, "exceed_limit"@),
        AppError::RedisNotFound => (Module::Redis, "data_not_found"@),
        AppError::WpsApiFailed(_) => (Module::Wps, "wps_client_err"@),
        AppError::EmailAlreadyBound => (Module::Verification, "status_err"@),
        AppError::PhoneAlreadyBound => (Module::Verification, "status_err"@),
        AppError::ParseJsonFailed(_) => (Module::NonBusiness, "json_err"@),
        AppError::VerifyPlayerInfoFailed(_) => (Module::Mcs, "mcs_client_err"@),
        AppError::PasswordResetFailed(_) => (Module::Uss, "uss_client_err"@),
        AppError::OracleError(_) => (Module::Oracle, "sql_execution_fail"@),
        AppError::RedisError(_) => (Module::Redis, "unknown_err"@),
        AppError::HttpClientError(_) => (Module::NonBusiness, "network_timeout"@),
        AppError::JsonError(_) => (Module::NonBusiness, "json_err"@),
        AppError::Internal(_) => (Module::NonBusiness, "unknown_err"@),
    }
}

impl AppError {
    /// The text this error displays.
    pub fn message(&self) -> (r: String)
        ensures
            r@ == app_error_message(*self),
    {
        match self {
            AppError::MerchantNotFound(s) => concat("merchant not found: ", s.as_str()),
            AppError::CustomerFetchFailed(s) => concat("customer fetch failed: ", s.as_str()),
            AppError::CustomerPersonalInfoFetchFailed(s) => concat("customer personal info fetch failed: ", s.as_str()),
            AppError::QuestionLimitExceeded => owned("question retry limit exceeded"),
            AppError::RedisNotFound => owned("redis instance not found"),
            AppError::WpsApiFailed(s) => concat("WPS API failed: ", s.as_str()),
            AppError::EmailAlreadyBound => owned("email already verified (bound)"),
            AppError::PhoneAlreadyBound => owned("phone already bound"),
            AppError::ParseJsonFailed(s) => concat("parse JSON failed: ", s.as_str()),
            AppError::VerifyPlayerInfoFailed(s) => concat("verify player info (MCS) failed: ", s.as_str()),
            AppError::PasswordResetFailed(s) => concat("password reset failed: ", s.as_str()),
            AppError::OracleError(s) => concat("oracle error: ", s.as_str()),
            AppError::RedisError(s) => concat("redis error: ", s.as_str()),
            AppError::HttpClientError(s) => concat("http client error: ", s.as_str()),
            AppError::JsonError(s) => concat("json error: ", s.as_str()),
            AppError::Internal(s) => concat("internal error: ", s.as_str()),
        }
    }

    /// The module and code this error is reported under.
    pub fn module_and_code(&self) -> (r: (Module, ErrorCode))
        ensures
            r.0 == app_error_module_code(*self).0,
            r.1.0@ == app_error_module_code(*self).1,
    {
        match self {
            AppError::MerchantNotFound(_) => (Module::Merchant, ErrorCode(ErrorCode::MERCHANT_NOT_FOUND)),
            AppError::CustomerFetchFailed(_) => (Module::Uss, ErrorCode(ErrorCode::USS_CLIENT_ERR)),
            AppError::CustomerPersonalInfoFetchFailed(_) => (Module::Uss, ErrorCode(ErrorCode::USS_CLIENT_ERR)),
            AppError::QuestionLimitExceeded => (Module::Verification, ErrorCode(ErrorCode::EXCEED_LIMIT)),
            AppError::RedisNotFound => (Module::Redis, ErrorCode(ErrorCode::DATA_NOT_FOUND)),
            AppError::WpsApiFailed(_) => (Module::Wps, ErrorCode(ErrorCode::WPS_CLIENT_ERR)),
            AppError::EmailAlreadyBound => (Module::Verification, ErrorCode(ErrorCode::STATUS_ERR)),
            AppError::PhoneAlreadyBound => (Module::Verification, ErrorCode(ErrorCode::STATUS_ERR)),
            AppError::ParseJsonFailed(_) => (Module::NonBusiness, ErrorCode(ErrorCode::JSON_ERR)),
            AppError::VerifyPlayerInfoFailed(_) => (Module::Mcs, ErrorCode(ErrorCode::MCS_CLIENT_ERR)),
            AppError::PasswordResetFailed(_) => (Module::Uss, ErrorCode(ErrorCode::USS_CLIENT_ERR)),
            AppError::OracleError(_) => (Module::Oracle, ErrorCode(ErrorCode::SQL_EXECUTION_FAIL)),
            AppError::RedisError(_) => (Module::Redis, ErrorCode(ErrorCode::SYS_ERR)),
            AppError::HttpClientError(_) => (Module::NonBusiness, ErrorCode(ErrorCode::NETWORK_TIMEOUT)),
            AppError::JsonError(_) => (Module::NonBusiness, ErrorCode(ErrorCode::JSON_ERR)),
            AppError::Internal(_) => (Module::NonBusiness, ErrorCode(ErrorCode::SYS_ERR)),
        }
    }

    /// The body of the 500 answer for this error.
    pub fn to_error_response(&self) -> (r: ErrorResponse)
        ensures
            !r.success,
            r.error_code@ == error_code_text(
                app_error_module_code(*self).0,
                app_error_module_code(*self).1,
            ),
            r.message@ == app_error_message(*self),
    {
        let (module, code) = self.module_and_code();
        let message = self.message();
        ErrorResponse::new(&module, &code, message.as_str())
    }
}

/// The JSON body of an error answer.
pub struct ErrorResponse {
    pub success: bool,
    pub error_code: String,
    pub message: String,
}

/// The full code `ucs-fe.<module>.<code>`.
pub open spec fn error_code_text(m: Module, code: Seq<char>) -> Seq<char> {
    "ucs-fe"@ + seq!['.'] + module_text(m) + seq!['.'] + code
}

impl ErrorResponse {
    /// An error body whose code is assembled from the module and the code.
    pub fn new(module: &Module, code: &ErrorCode, message: &str) -> (r: ErrorResponse)
        ensures
            !r.success,
            r.error_code@ == error_code_text(*module, code.0@),
            r.message@ == message@,
    {
        let mut error_code = concat(SERVICE_PREFIX, ".");
        error_code.append(module.as_str());
        error_code.append(".");
        error_code.append(code.0);
        proof {
            reveal_strlit(".");
            assert(error_code@ =~= error_code_text(*module, code.0@));
        }
        ErrorResponse { success: false, error_code, message: owned(message) }
    }

    /// An error body with a code given whole.
    pub fn raw(error_code: &str, message: &str) -> (r: ErrorResponse)
        ensures
            !r.success,
            r.error_code@ == error_code@,
            r.message@ == message@,
    {
        ErrorResponse { success: false, error_code: owned(error_code), message: owned(message) }
    }
}

/// A flat `{success, value}` answer.
pub struct SuccessResponse<T> {
    pub success: bool,
    pub value: T,
}

impl<T> SuccessResponse<T> {
    /// A successful answer carrying `value`.
    pub fn new(value: T) -> (r: SuccessResponse<T>)
        ensures
            r.success,
            r.value == value,
    {
        SuccessResponse { success: true, value }
    }
}

/// A `{success, message}` answer with no value.
pub struct BaseResponse {
    pub success: bool,
    pub message: Option<String>,
}

impl BaseResponse {
    /// A successful answer without a message.
    pub fn ok() -> (r: BaseResponse)
        ensures
            r.success,
            r.message is None,
    {
        BaseResponse { success: true, message: None }
    }

    /// A successful answer with the message `msg`.
    pub fn ok_with_message(msg: &str) -> (r: BaseResponse)
        ensures
            r.success,
            r.message matches Some(m) && m@ == msg@,
    {
        BaseResponse { success: true, message: Some(owned(msg)) }
    }
}

} // verus!
