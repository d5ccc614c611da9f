//! The user service (USS): nullable scalars of its JSON, its HTTP error, and
//! the customer facts that verification answers are scored against.
use vstd::prelude::*;
use crate::text::{chars_contains, chars_of, i64_text, int_text, lower, lower_chars, owned, str_eq, contains};

verus! {

/// A string that USS may send as `null`; empty and `"null"` count as null.
pub struct NullString {
    pub val: String,
    pub valid: bool,
}

/// An `i32` that USS may send as `null`.
pub struct NullInt32 {
    pub val: i32,
    pub valid: bool,
}

/// A `bool` that USS may send as `null`.
pub struct NullBool {
    pub val: bool,
    pub valid: bool,
}

/// An `i64` that USS may send as `null`.
pub struct NullInt {
    pub val: i64,
    pub valid: bool,
}

/// A non-200 answer of USS.
pub struct UssHttpError {
    pub body: String,
    pub status: u16,
}

/// Why a USS call failed.
pub enum UssError {
    /// USS answered with a status other than 200.
    Http(UssHttpError),
    /// The call failed otherwise (transport, timeout, decoding), with its message.
    Other(String),
}

/// A merchant as USS describes it.
pub struct Merchant {
    pub merchant_desc: NullString,
    pub currency_code: NullString,
    pub merchant_time_zone: NullString,
    pub creator: NullString,
    pub delete_flag: NullString,
    pub customer_id: NullInt,
    pub parent_id: NullInt,
    pub group_id: NullInt,
    pub dept_id: NullInt,
    pub status: NullInt32,
    pub merchant_type: NullInt32,
}

/// The body of a password-reset token request.
pub struct PasswordResetTokenRequest {
    pub customer_name: String,
    pub merchant_code: String,
}

/// USS's answer to a password-reset token request.
pub struct PasswordResetTokenResponse {
    pub success: bool,
    pub value: String,
}

/// The "is null" text: `"null"` in any ASCII case.
pub open spec fn is_null_text(s: Seq<char>) -> bool {
    lower(s) == seq!['n', 'u', 'l', 'l']
}

impl NullString {
    /// The null value: empty and not valid.
    pub fn null() -> (r: NullString)
        ensures
            r.val@ == Seq::<char>::empty(),
            !r.valid,
    {
        NullString { val: String::new(), valid: false }
    }

    /// The value USS means by the JSON string `s`: null when `s` is empty or
    /// reads `null` in any case, else `s` itself.
    pub fn from_json_str(s: &str) -> (r: NullString)
        ensures
            (s@.len() == 0 || is_null_text(s@)) ==> (r.val@ == Seq::<char>::empty() && !r.valid),
            !(s@.len() == 0 || is_null_text(s@)) ==> (r.val@ == s@ && r.valid),
    {
        if s.is_empty() {
            return NullString::null();
        }
        let v = chars_of(s);
        let l = lower_chars(&v);
        let n = chars_of("null");
        proof {
            reveal_strlit("null");
        }
        let is_null = crate::text::chars_eq(&l, &n);
        assert(n@ =~= seq!['n', 'u', 'l', 'l']);
        if is_null {
            NullString::null()
        } else {
            NullString { val: owned(s), valid: true }
        }
    }

    /// The value USS means by the JSON integer `v`.
    pub fn from_i64(v: i64) -> (r: NullString)
        ensures
            r.val@ == int_text(v as int),
            r.valid,
    {
        NullString { val: i64_text(v), valid: true }
    }

    /// The value USS means by the JSON boolean `v`.
    pub fn from_bool(v: bool) -> (r: NullString)
        ensures
            r.val@ == (if v { seq!['t', 'r', 'u', 'e'] } else { seq!['f', 'a', 'l', 's', 'e'] }),
            r.valid,
    {
        let t = if v { owned("true") } else { owned("false") };
        proof {
            reveal_strlit("true");
            reveal_strlit("false");
        }
        assert(t@ =~= (if v { seq!['t', 'r', 'u', 'e'] } else { seq!['f', 'a', 'l', 's', 'e'] }));
        NullString { val: t, valid: true }
    }

    /// The text, whether valid or not.
    pub fn as_str(&self) -> (r: &str)
        ensures
            r@ == self.val@,
    {
        self.val.as_str()
    }
}

impl NullInt32 {
    /// What an explicit JSON `null` decodes to: `-1`, not valid.
    pub fn null() -> (r: NullInt32)
        ensures
            r.val == -1,
            !r.valid,
    {
        NullInt32 { val: -1, valid: false }
    }

    /// What a JSON integer decodes to.
    pub fn from_value(v: i32) -> (r: NullInt32)
        ensures
            r.val == v,
            r.valid,
    {
        NullInt32 { val: v, valid: true }
    }
}

impl NullBool {
    /// What an explicit JSON `null` decodes to: `false`, not valid.
    pub fn null() -> (r: NullBool)
        ensures
            !r.val,
            !r.valid,
    {
        NullBool { val: false, valid: false }
    }

    /// What a JSON boolean decodes to.
    pub fn from_value(v: bool) -> (r: NullBool)
        ensures
            r.val == v,
            r.valid,
    {
        NullBool { val: v, valid: true }
    }
}

impl NullInt {
    /// What an explicit JSON `null` decodes to: `0`, not valid.
    pub fn null() -> (r: NullInt)
        ensures
            r.val == 0,
            !r.valid,
    {
        NullInt { val: 0, valid: false }
    }

    /// What a JSON integer decodes to.
    pub fn from_value(v: i64) -> (r: NullInt)
        ensures
            r.val == v,
            r.valid,
    {
        NullInt { val: v, valid: true }
    }
}

/// The state of a customer whose additional info lacks one: `-1`, not valid.
pub fn default_us_state() -> (r: NullInt32)
    ensures
        r.val == -1,
        !r.valid,
{
    NullInt32 { val: -1, valid: false }
}

/// Whether the failure is a non-200 answer of USS.
pub fn is_http_error(err: &UssError) -> (r: bool)
    ensures
        r == (err is Http),
{
    match err {
        UssError::Http(_) => true,
        UssError::Other(_) => false,
    }
}

/// Whether USS answered that the profile does not exist: a non-200 answer
/// whose body mentions `profile.data_not_found` (the namespaced
/// `uss-ae.profile.data_not_found` holds it too).
pub fn is_profile_not_found(err: &UssError) -> (r: bool)
    ensures
        r == (match err {
            UssError::Http(e) => contains(e.body@, "uss-ae.profile.data_not_found"@) || contains(
                e.body@,
                "profile.data_not_found"@,
            ),
            UssError::Other(_) => false,
        }),
{
    match err {
        UssError::Http(e) => {
            let body = chars_of(e.body.as_str());
            let a = chars_of("uss-ae.profile.data_not_found");
            let b = chars_of("profile.data_not_found");
            chars_contains(&body, &a) || chars_contains(&body, &b)
        },
        UssError::Other(_) => false,
    }
}

// ── The facts verification answers are scored against ───────────────────────

/// What USS knows of a customer, as far as verification questions ask it.
/// Dates are held as the `YYYY-MM-DD` text USS dates format to (empty when
/// USS has none).
pub struct ScoringProfile {
    pub email: NullString,
    pub nickname: NullString,
    pub qq_no: NullString,
    pub wechat: NullString,
    pub line_id: NullString,
    pub face_book_id: NullString,
    pub whats_app_id: NullString,
    pub zalo: NullString,
    pub telegram: NullString,
    pub viber: NullString,
    pub twitter: NullString,
    pub mobile_no: NullString,
    pub address: NullString,
    pub payee_name: NullString,
    pub id_number: NullString,
    pub zip_code: NullString,
    pub apple_id: NullString,
    pub marital_status: NullInt32,
    pub gender: NullInt32,
    pub occupation: NullInt32,
    pub source_of_income: NullInt32,
    pub id_type: NullInt32,
    pub birthday: String,
    pub last_login_time: String,
    pub reg_date: String,
    pub place_of_birth: NullString,
    pub region: NullString,
    pub permanent_address: NullString,
    pub nationality: NullString,
    pub us_state: NullInt32,
    pub google: NullString,
    pub kakao: NullString,
}

/// The customer's value for a question's field id; empty for an unknown id.
pub open spec fn profile_value(p: ScoringProfile, field_id: Seq<char>) -> Seq<char> {
    if field_id == "PLACE_OF_BIRTH"@ {
        p.place_of_birth.val@
    } else if field_id == "MARITAL_STATUS"@ {
        int_text(p.marital_status.val as int)
    } else if field_id == "NICKNAME"@ {
        p.nickname.val@
    } else if field_id == "TAG_REGION"@ {
        p.region.val@
    } else if field_id == "QQ"@ {
        p.qq_no.val@
    } else if field_id == "WECHAT_ID"@ {
        p.wechat.val@
    } else if field_id == "LINE_ID"@ {
        p.line_id.val@
    } else if field_id == "FB_ID"@ {
        p.face_book_id.val@
    } else if field_id == "WHATSAPP"@ {
        p.whats_app_id.val@
    } else if field_id == "ZALO"@ {
        p.zalo.val@
    } else if field_id == "TELEGRAM"@ {
        p.telegram.val@
    } else if field_id == "VIBER"@ {
        p.viber.val@
    } else if field_id == "TWITTER"@ {
        p.twitter.val@
    } else if field_id == "EMAIL"@ {
        p.email.val@
    } else if field_id == "MOBILE_NUMBER"@ {
        p.mobile_no.val@
    } else if field_id == "FIXED_ADDRESS"@ {
        p.permanent_address.val@
    } else if field_id == "ADDRESS"@ {
        p.address.val@
    } else if field_id == "WITHDRAWER_NAME"@ {
        p.payee_name.val@
    } else if field_id == "DATE_OF_BIRTH"@ {
        p.birthday@
    } else if field_id == "NATIONALITY"@ {
        p.nationality.val@
    } else if field_id == "STATE"@ {
        int_text(p.us_state.val as int)
    } else if field_id == "ID"@ {
        p.id_number.val@
    } else if field_id == "GENDER"@ {
        int_text(p.gender.val as int)
    } else if field_id == "JOB"@ {
        int_text(p.occupation.val as int)
    } else if field_id == "SOURCE_OF_INCOME"@ {
        int_text(p.source_of_income.val as int)
    } else if field_id == "ID_TYPE"@ {
        int_text(p.id_type.val as int)
    } else if field_id == "ZIP_CODE"@ {
        p.zip_code.val@
    } else if field_id == "APPLE_ID"@ {
        p.apple_id.val@
    } else if field_id == "KAKAO"@ {
        p.kakao.val@
    } else if field_id == "GOOGLE"@ {
        p.google.val@
    } else if field_id == "LAST_LOGIN_TIME"@ {
        p.last_login_time@
    } else if field_id == "REGISTRATION_TIME"@ {
        p.reg_date@
    } else {
        Seq::empty()
    }
}

/// A short fingerprint of a text: its length and its first, second and
/// last characters.
pub open spec fn text_sig(s: Seq<char>) -> (nat, char, char, char) {
    (s.len(), s[0], s[1], s[s.len() - 1])
}

/// Each question's expected value is the USS field named for it: the
/// address for `ADDRESS`, the permanent address for `FIXED_ADDRESS`, the
/// payee name for `WITHDRAWER_NAME`, the birthday for `DATE_OF_BIRTH`, and
/// so on for every field id scoring knows; coded fields give their number.
#[verifier::rlimit(50)]
pub proof fn lemma_profile_value_fields(p: ScoringProfile)
    ensures
        profile_value(p, "PLACE_OF_BIRTH"@) == p.place_of_birth.val@,
        profile_value(p, "MARITAL_STATUS"@) == int_text(p.marital_status.val as int),
        profile_value(p, "NICKNAME"@) == p.nickname.val@,
        profile_value(p, "TAG_REGION"@) == p.region.val@,
        profile_value(p, "QQ"@) == p.qq_no.val@,
        profile_value(p, "WECHAT_ID"@) == p.wechat.val@,
        profile_value(p, "LINE_ID"@) == p.line_id.val@,
        profile_value(p, "FB_ID"@) == p.face_book_id.val@,
        profile_value(p, "WHATSAPP"@) == p.whats_app_id.val@,
        profile_value(p, "ZALO"@) == p.zalo.val@,
        profile_value(p, "TELEGRAM"@) == p.telegram.val@,
        profile_value(p, "VIBER"@) == p.viber.val@,
        profile_value(p, "TWITTER"@) == p.twitter.val@,
        profile_value(p, "EMAIL"@) == p.email.val@,
        profile_value(p, "MOBILE_NUMBER"@) == p.mobile_no.val@,
        profile_value(p, "FIXED_ADDRESS"@) == p.permanent_address.val@,
        profile_value(p, "ADDRESS"@) == p.address.val@,
        profile_value(p, "WITHDRAWER_NAME"@) == p.payee_name.val@,
        profile_value(p, "DATE_OF_BIRTH"@) == p.birthday@,
        profile_value(p, "NATIONALITY"@) == p.nationality.val@,
        profile_value(p, "STATE"@) == int_text(p.us_state.val as int),
        profile_value(p, "ID"@) == p.id_number.val@,
        profile_value(p, "GENDER"@) == int_text(p.gender.val as int),
        profile_value(p, "JOB"@) == int_text(p.occupation.val as int),
        profile_value(p, "SOURCE_OF_INCOME"@) == int_text(p.source_of_income.val as int),
        profile_value(p, "ID_TYPE"@) == int_text(p.id_type.val as int),
        profile_value(p, "ZIP_CODE"@) == p.zip_code.val@,
        profile_value(p, "APPLE_ID"@) == p.apple_id.val@,
        profile_value(p, "KAKAO"@) == p.kakao.val@,
        profile_value(p, "GOOGLE"@) == p.google.val@,
        profile_value(p, "LAST_LOGIN_TIME"@) == p.last_login_time@,
        profile_value(p, "REGISTRATION_TIME"@) == p.reg_date@,
{
    reveal_strlit("PLACE_OF_BIRTH");
    assert(text_sig("PLACE_OF_BIRTH"@) == (14nat, 'P', 'L', 'H'));
    reveal_strlit("MARITAL_STATUS");
    assert(text_sig("MARITAL_STATUS"@) == (14nat, 'M', 'A', 'S'));
    reveal_strlit("NICKNAME");
    assert(text_sig("NICKNAME"@) == (8nat, 'N', 'I', 'E'));
    reveal_strlit("TAG_REGION");
    assert(text_sig("TAG_REGION"@) == (10nat, 'T', 'A', 'N'));
    reveal_strlit("QQ");
    assert(text_sig("QQ"@) == (2nat, 'Q', 'Q', 'Q'));
    reveal_strlit("WECHAT_ID");
    assert(text_sig("WECHAT_ID"@) == (9nat, 'W', 'E', 'D'));
    reveal_strlit("LINE_ID");
    assert(text_sig("LINE_ID"@) == (7nat, 'L', 'I', 'D'));
    reveal_strlit("FB_ID");
    assert(text_sig("FB_ID"@) == (5nat, 'F', 'B', 'D'));
    reveal_strlit("WHATSAPP");
    assert(text_sig("WHATSAPP"@) == (8nat, 'W', 'H', 'P'));
    reveal_strlit("ZALO");
    assert(text_sig("ZALO"@) == (4nat, 'Z', 'A', 'O'));
    reveal_strlit("TELEGRAM");
    assert(text_sig("TELEGRAM"@) == (8nat, 'T', 'E', 'M'));
    reveal_strlit("VIBER");
    assert(text_sig("VIBER"@) == (5nat, 'V', 'I', 'R'));
    reveal_strlit("TWITTER");
    assert(text_sig("TWITTER"@) == (7nat, 'T', 'W', 'R'));
    reveal_strlit("EMAIL");
    assert(text_sig("EMAIL"@) == (5nat, 'E', 'M', 'L'));
    reveal_strlit("MOBILE_NUMBER");
    assert(text_sig("MOBILE_NUMBER"@) == (13nat, 'M', 'O', 'R'));
    reveal_strlit("FIXED_ADDRESS");
    assert(text_sig("FIXED_ADDRESS"@) == (13nat, 'F', 'I', 'S'));
    reveal_strlit("ADDRESS");
    assert(text_sig("ADDRESS"@) == (7nat, 'A', 'D', 'S'));
    reveal_strlit("WITHDRAWER_NAME");
    assert(text_sig("WITHDRAWER_NAME"@) == (15nat, 'W', 'I', 'E'));
    reveal_strlit("DATE_OF_BIRTH");
    assert(text_sig("DATE_OF_BIRTH"@) == (13nat, 'D', 'A', 'H'));
    reveal_strlit("NATIONALITY");
    assert(text_sig("NATIONALITY"@) == (11nat, 'N', 'A', 'Y'));
    reveal_strlit("STATE");
    assert(text_sig("STATE"@) == (5nat, 'S', 'T', 'E'));
    reveal_strlit("ID");
    assert(text_sig("ID"@) == (2nat, 'I', 'D', 'D'));
    reveal_strlit("GENDER");
    assert(text_sig("GENDER"@) == (6nat, 'G', 'E', 'R'));
    reveal_strlit("JOB");
    assert(text_sig("JOB"@) == (3nat, 'J', 'O', 'B'));
    reveal_strlit("SOURCE_OF_INCOME");
    assert(text_sig("SOURCE_OF_INCOME"@) == (16nat, 'S', 'O', 'E'));
    reveal_strlit("ID_TYPE");
    assert(text_sig("ID_TYPE"@) == (7nat, 'I', 'D', 'E'));
    reveal_strlit("ZIP_CODE");
    assert(text_sig("ZIP_CODE"@) == (8nat, 'Z', 'I', 'E'));
    reveal_strlit("APPLE_ID");
    assert(text_sig("APPLE_ID"@) == (8nat, 'A', 'P', 'D'));
    reveal_strlit("KAKAO");
    assert(text_sig("KAKAO"@) == (5nat, 'K', 'A', 'O'));
    reveal_strlit("GOOGLE");
    assert(text_sig("GOOGLE"@) == (6nat, 'G', 'O', 'E'));
    reveal_strlit("LAST_LOGIN_TIME");
    assert(text_sig("LAST_LOGIN_TIME"@) == (15nat, 'L', 'A', 'E'));
    reveal_strlit("REGISTRATION_TIME");
    assert(text_sig("REGISTRATION_TIME"@) == (17nat, 'R', 'E', 'E'));
}

impl ScoringProfile {
    /// The customer's value for `field_id` (empty for an unknown id).
    pub fn lookup_field(&self, field_id: &str) -> (r: String)
        ensures
            r@ == profile_value(*self, field_id@),
    {
        if str_eq(field_id, "PLACE_OF_BIRTH") {
            self.place_of_birth.val.clone()
        } else if str_eq(field_id, "MARITAL_STATUS") {
            i64_text(self.marital_status.val as i64)
        } else if str_eq(field_id, "NICKNAME") {
            self.nickname.val.clone()
        } else if str_eq(field_id, "TAG_REGION") {
            self.region.val.clone()
        } else if str_eq(field_id, "QQ") {
            self.qq_no.val.clone()
        } else if str_eq(field_id, "WECHAT_ID") {
            self.wechat.val.clone()
        } else if str_eq(field_id, "LINE_ID") {
            self.line_id.val.clone()
        } else if str_eq(field_id, "FB_ID") {
            self.face_book_id.val.clone()
        } else if str_eq(field_id, "WHATSAPP") {
            self.whats_app_id.val.clone()
        } else if str_eq(field_id, "ZALO") {
            self.zalo.val.clone()
        } else if str_eq(field_id, "TELEGRAM") {
            self.telegram.val.clone()
        } else if str_eq(field_id, "VIBER") {
            self.viber.val.clone()
        } else if str_eq(field_id, "TWITTER") {
            self.twitter.val.clone()
        } else if str_eq(field_id, "EMAIL") {
            self.email.val.clone()
        } else if str_eq(field_id, "MOBILE_NUMBER") {
            self.mobile_no.val.clone()
        } else if str_eq(field_id, "FIXED_ADDRESS") {
            self.permanent_address.val.clone()
        } else if str_eq(field_id, "ADDRESS") {
            self.address.val.clone()
        } else if str_eq(field_id, "WITHDRAWER_NAME") {
            self.payee_name.val.clone()
        } else if str_eq(field_id, "DATE_OF_BIRTH") {
            self.birthday.clone()
        } else if str_eq(field_id, "NATIONALITY") {
            self.nationality.val.clone()
        } else if str_eq(field_id, "STATE") {
            i64_text(self.us_state.val as i64)
        } else if str_eq(field_id, "ID") {
            self.id_number.val.clone()
        } else if str_eq(field_id, "GENDER") {
            i64_text(self.gender.val as i64)
        } else if str_eq(field_id, "JOB") {
            i64_text(self.occupation.val as i64)
        } else if str_eq(field_id, "SOURCE_OF_INCOME") {
            i64_text(self.source_of_income.val as i64)
        } else if str_eq(field_id, "ID_TYPE") {
            i64_text(self.id_type.val as i64)
        } else if str_eq(field_id, "ZIP_CODE") {
            self.zip_code.val.clone()
        } else if str_eq(field_id, "APPLE_ID") {
            self.apple_id.val.clone()
        } else if str_eq(field_id, "KAKAO") {
            self.kakao.val.clone()
        } else if str_eq(field_id, "GOOGLE") {
            self.google.val.clone()
        } else if str_eq(field_id, "LAST_LOGIN_TIME") {
            self.last_login_time.clone()
        } else if str_eq(field_id, "REGISTRATION_TIME") {
            self.reg_date.clone()
        } else {
            String::new()
        }
    }
}

} // verus!
