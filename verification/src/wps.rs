//! The wallet and payment service (WPS): which password-reset channels a
//! merchant has open.
use vstd::prelude::*;

verus! {

/// A non-200 answer of WPS.
pub struct WpsHttpError {
    pub body: String,
    pub status: u16,
}

/// Why a WPS call failed.
pub enum WpsError {
    /// WPS answered with a status other than 200.
    Http(WpsHttpError),
    /// The call failed otherwise, with its message.
    Other(String),
}

/// The reset channels of a merchant.
pub struct ResetPasswordStatusValue {
    pub is_email_reset_enabled: bool,
    pub is_sms_reset_enabled: bool,
    pub is_personal_info_reset_enabled: bool,
}

/// WPS's answer on the reset channels.
pub struct ResetPasswordStatusResponse {
    pub success: bool,
    pub value: ResetPasswordStatusValue,
}

/// Whether the failure is a non-200 answer of WPS.
pub fn is_http_error(err: &WpsError) -> (r: bool)
    ensures
        r == (err is Http),
{
    match err {
        WpsError::Http(_) => true,
        WpsError::Other(_) => false,
    }
}

} // verus!
