//! The merchant credit service (MCS): the financial and history request it
//! verifies, and its per-field verdicts.
use vstd::prelude::*;

verus! {

/// Financial bindings sent to MCS.
pub struct VerifyPlayerFinanceInfo {
    pub bc_number: String,
    pub bc_holder_name: String,
    pub ew_account: String,
    pub ew_holder_name: String,
    pub vw_address: String,
    pub vw_holder_name: String,
    pub is_case_sensitive: bool,
}

/// Last deposit and withdrawal sent to MCS.
pub struct VerifyPlayerHistoryInfo {
    pub last_deposit_amount: String,
    pub last_deposit_amount_range: String,
    pub last_deposit_method: String,
    pub last_deposit_time: String,
    pub last_withdraw_amount: String,
    pub last_withdraw_amount_range: String,
    pub last_withdraw_method: String,
    pub last_withdraw_time: String,
    pub last_deposit_time_range_in_day: i32,
    pub last_withdraw_time_range_in_day: i32,
}

/// The body of `POST player/verifyPlayerInfo`.
pub struct VerifyFinanceHistoryReq {
    pub verify_player_finance_info: VerifyPlayerFinanceInfo,
    pub verify_player_history_info: VerifyPlayerHistoryInfo,
}

/// MCS verdicts on history fields: 3 matched, 2 both empty, else not matched.
pub struct VerifyPlayerHistoryResult {
    pub last_deposit_amount: i32,
    pub last_deposit_method: i32,
    pub last_deposit_time: i32,
    pub last_withdraw_amount: i32,
    pub last_withdraw_method: i32,
    pub last_withdraw_time: i32,
}

/// MCS verdicts on financial fields: 3 matched, 2 both empty, else not matched.
pub struct VerifyPlayerFinanceInfoResult {
    pub bc_number: i32,
    pub bc_holder_name: i32,
    pub bc_bank_code: i32,
    pub bc_sub_branch: i32,
    pub bc_city: i32,
    pub bc_province: i32,
    pub vw_address: i32,
    pub vw_holder_name: i32,
    pub vw_bank_code: i32,
    pub ew_account: i32,
    pub ew_holder_name: i32,
    pub ew_bank_code: i32,
}

/// The `value` of MCS's answer.
pub struct VerifyFinanceHistoryResult {
    pub verify_player_finance_info: VerifyPlayerFinanceInfoResult,
    pub verify_player_history_info: VerifyPlayerHistoryResult,
}

/// MCS's answer to `verifyPlayerInfo`.
pub struct VerifyFinanceHistoryResp {
    pub success: bool,
    pub value: VerifyFinanceHistoryResult,
}

/// The identity headers of every MCS player call.
pub struct PlayerHeaders {
    pub customer_id: String,
    pub customer_name: String,
    pub merchant: String,
    pub customer_ip: String,
}

impl VerifyPlayerFinanceInfo {
    /// All fields empty, case-insensitive.
    pub fn empty() -> (r: VerifyPlayerFinanceInfo)
        ensures
            r.bc_number@.len() == 0,
            r.bc_holder_name@.len() == 0,
            r.ew_account@.len() == 0,
            r.ew_holder_name@.len() == 0,
            r.vw_address@.len() == 0,
            r.vw_holder_name@.len() == 0,
            !r.is_case_sensitive,
    {
        VerifyPlayerFinanceInfo {
            bc_number: String::new(),
            bc_holder_name: String::new(),
            ew_account: String::new(),
            ew_holder_name: String::new(),
            vw_address: String::new(),
            vw_holder_name: String::new(),
            is_case_sensitive: false,
        }
    }
}

impl VerifyPlayerHistoryInfo {
    /// All fields empty, ranges zero.
    pub fn empty() -> (r: VerifyPlayerHistoryInfo)
        ensures
            r.last_deposit_amount@.len() == 0,
            r.last_deposit_amount_range@.len() == 0,
            r.last_deposit_method@.len() == 0,
            r.last_deposit_time@.len() == 0,
            r.last_withdraw_amount@.len() == 0,
            r.last_withdraw_amount_range@.len() == 0,
            r.last_withdraw_method@.len() == 0,
            r.last_withdraw_time@.len() == 0,
            r.last_deposit_time_range_in_day == 0,
            r.last_withdraw_time_range_in_day == 0,
    {
        VerifyPlayerHistoryInfo {
            last_deposit_amount: String::new(),
            last_deposit_amount_range: String::new(),
            last_deposit_method: String::new(),
            last_deposit_time: String::new(),
            last_withdraw_amount: String::new(),
            last_withdraw_amount_range: String::new(),
            last_withdraw_method: String::new(),
            last_withdraw_time: String::new(),
            last_deposit_time_range_in_day: 0,
            last_withdraw_time_range_in_day: 0,
        }
    }
}

impl VerifyFinanceHistoryReq {
    /// A request with every field empty.
    pub fn empty() -> (r: VerifyFinanceHistoryReq)
        ensures
            r.verify_player_finance_info.bc_number@.len() == 0,
            r.verify_player_finance_info.bc_holder_name@.len() == 0,
            r.verify_player_finance_info.ew_account@.len() == 0,
            r.verify_player_finance_info.ew_holder_name@.len() == 0,
            r.verify_player_finance_info.vw_address@.len() == 0,
            r.verify_player_finance_info.vw_holder_name@.len() == 0,
            !r.verify_player_finance_info.is_case_sensitive,
            r.verify_player_history_info.last_deposit_amount@.len() == 0,
            r.verify_player_history_info.last_deposit_amount_range@.len() == 0,
            r.verify_player_history_info.last_deposit_method@.len() == 0,
            r.verify_player_history_info.last_deposit_time@.len() == 0,
            r.verify_player_history_info.last_withdraw_amount@.len() == 0,
            r.verify_player_history_info.last_withdraw_amount_range@.len() == 0,
            r.verify_player_history_info.last_withdraw_method@.len() == 0,
            r.verify_player_history_info.last_withdraw_time@.len() == 0,
            r.verify_player_history_info.last_deposit_time_range_in_day == 0,
            r.verify_player_history_info.last_withdraw_time_range_in_day == 0,
    {
        VerifyFinanceHistoryReq {
            verify_player_finance_info: VerifyPlayerFinanceInfo::empty(),
            verify_player_history_info: VerifyPlayerHistoryInfo::empty(),
        }
    }
}

} // verus!
