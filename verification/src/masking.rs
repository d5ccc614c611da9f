//! Masking of sensitive answers before they are logged.
use vstd::prelude::*;
use crate::text::{chars_of, owned, push_char, str_eq};
use crate::types::SubmitVerifyRequest;

verus! {

/// Field ids whose values are personal or financial.
pub open spec fn is_sensitive_id(f: Seq<char>) -> bool {
    ||| f == "ID"@
    ||| f == "BANK_ACCOUNT"@
    ||| f == "CARD_HOLDER_NAME"@
    ||| f == "VIRTUAL_WALLET_ADDRESS"@
    ||| f == "VIRTUAL_WALLET_NAME"@
    ||| f == "E_WALLET_ACCOUNT"@
    ||| f == "E_WALLET_NAME"@
    ||| f == "QQ"@
    ||| f == "WECHAT_ID"@
    ||| f == "LINE_ID"@
    ||| f == "FB_ID"@
    ||| f == "WHATSAPP"@
    ||| f == "ZALO"@
    ||| f == "TELEGRAM"@
    ||| f == "VIBER"@
    ||| f == "TWITTER"@
    ||| f == "EMAIL"@
    ||| f == "MOBILE_NUMBER"@
    ||| f == "WITHDRAWER_NAME"@
    ||| f == "APPLE_ID"@
    ||| f == "KAKAO"@
    ||| f == "GOOGLE"@
}

/// Whether values of `field_id` are masked in logs.
pub fn is_sensitive(field_id: &str) -> (r: bool)
    ensures
        r == is_sensitive_id(field_id@),
{
    str_eq(field_id, "ID") || str_eq(field_id, "BANK_ACCOUNT") || str_eq(field_id, "CARD_HOLDER_NAME") || str_eq(field_id, "VIRTUAL_WALLET_ADDRESS") || str_eq(field_id, "VIRTUAL_WALLET_NAME") || str_eq(field_id, "E_WALLET_ACCOUNT") || str_eq(field_id, "E_WALLET_NAME") || str_eq(field_id, "QQ") || str_eq(field_id, "WECHAT_ID") || str_eq(field_id, "LINE_ID") || str_eq(field_id, "FB_ID") || str_eq(field_id, "WHATSAPP") || str_eq(field_id, "ZALO") || str_eq(field_id, "TELEGRAM") || str_eq(field_id, "VIBER") || str_eq(field_id, "TWITTER") || str_eq(field_id, "EMAIL") || str_eq(field_id, "MOBILE_NUMBER") || str_eq(field_id, "WITHDRAWER_NAME") || str_eq(field_id, "APPLE_ID") || str_eq(field_id, "KAKAO") || str_eq(field_id, "GOOGLE")
}

/// How many leading characters of a sensitive value stay readable.
pub open spec fn visible_prefix() -> int {
    5
}

/// A value as logged: a sensitive value longer than five characters keeps
/// its first five and has every further character replaced by `*`.
pub open spec fn masked(field_id: Seq<char>, value: Seq<char>) -> Seq<char> {
    if !is_sensitive_id(field_id) || value.len() <= visible_prefix() {
        value
    } else {
        Seq::new(value.len(), |i: int| if i < visible_prefix() { value[i] } else { '*' })
    }
}

/// Masking keeps a value's length and its first five characters, and every
/// later character of a masked sensitive value is `*`; a value that is not
/// sensitive, or has at most five characters, is kept whole.
pub proof fn lemma_masked_shape(field_id: Seq<char>, value: Seq<char>)
    ensures
        masked(field_id, value).len() == value.len(),
        forall|i: int| 0 <= i < value.len() && i < visible_prefix() ==> #[trigger] masked(field_id, value)[i] == value[i],
        is_sensitive_id(field_id) && value.len() > visible_prefix() ==> forall|i: int|
            visible_prefix() <= i < value.len() ==> #[trigger] masked(field_id, value)[i] == '*',
        !is_sensitive_id(field_id) || value.len() <= visible_prefix() ==> masked(field_id, value) == value,
{
}

/// Values of the personal and financial field ids (the ID number, bank and
/// wallet accounts and names, messenger and social ids, email, mobile
/// number, withdrawer name) are logged with only their first five
/// characters readable: every later character is `*`.
pub proof fn lemma_listed_ids_are_masked(field_id: Seq<char>, value: Seq<char>)
    requires
        field_id == "ID"@ ||
            field_id == "BANK_ACCOUNT"@ ||
            field_id == "CARD_HOLDER_NAME"@ ||
            field_id == "VIRTUAL_WALLET_ADDRESS"@ ||
            field_id == "VIRTUAL_WALLET_NAME"@ ||
            field_id == "E_WALLET_ACCOUNT"@ ||
            field_id == "E_WALLET_NAME"@ ||
            field_id == "QQ"@ ||
            field_id == "WECHAT_ID"@ ||
            field_id == "LINE_ID"@ ||
            field_id == "FB_ID"@ ||
            field_id == "WHATSAPP"@ ||
            field_id == "ZALO"@ ||
            field_id == "TELEGRAM"@ ||
            field_id == "VIBER"@ ||
            field_id == "TWITTER"@ ||
            field_id == "EMAIL"@ ||
            field_id == "MOBILE_NUMBER"@ ||
            field_id == "WITHDRAWER_NAME"@ ||
            field_id == "APPLE_ID"@ ||
            field_id == "KAKAO"@ ||
            field_id == "GOOGLE"@,
        value.len() > 5,
    ensures
        masked(field_id, value).len() == value.len(),
        masked(field_id, value).subrange(0, 5) == value.subrange(0, 5),
        forall|i: int| 5 <= i < value.len() ==> #[trigger] masked(field_id, value)[i] == '*',
{
    assert(masked(field_id, value).subrange(0, 5) =~= value.subrange(0, 5));
}

/// The value of any other field id is logged as it is.
pub proof fn lemma_other_ids_are_kept(field_id: Seq<char>, value: Seq<char>)
    requires
        !(field_id == "ID"@ ||
            field_id == "BANK_ACCOUNT"@ ||
            field_id == "CARD_HOLDER_NAME"@ ||
            field_id == "VIRTUAL_WALLET_ADDRESS"@ ||
            field_id == "VIRTUAL_WALLET_NAME"@ ||
            field_id == "E_WALLET_ACCOUNT"@ ||
            field_id == "E_WALLET_NAME"@ ||
            field_id == "QQ"@ ||
            field_id == "WECHAT_ID"@ ||
            field_id == "LINE_ID"@ ||
            field_id == "FB_ID"@ ||
            field_id == "WHATSAPP"@ ||
            field_id == "ZALO"@ ||
            field_id == "TELEGRAM"@ ||
            field_id == "VIBER"@ ||
            field_id == "TWITTER"@ ||
            field_id == "EMAIL"@ ||
            field_id == "MOBILE_NUMBER"@ ||
            field_id == "WITHDRAWER_NAME"@ ||
            field_id == "APPLE_ID"@ ||
            field_id == "KAKAO"@ ||
            field_id == "GOOGLE"@),
    ensures
        masked(field_id, value) == value,
{
}

/// The value as it may be logged.
pub fn mask_value(field_id: &str, value: &str) -> (r: String)
    ensures
        r@ == masked(field_id@, value@),
{
    if !is_sensitive(field_id) {
        return owned(value);
    }
    let chars = chars_of(value);
    if chars.len() <= 5 {
        return owned(value);
    }
    let mut out = String::new();
    let mut i: usize = 0;
    while i < chars.len()
        invariant
            chars.len() > 5,
            i <= chars.len(),
            chars@ == value@,
            out@ == Seq::new(i as nat, |k: int| if k < 5 { value@[k] } else { '*' }),
        decreases chars.len() - i,
    {
        if i < 5 {
            push_char(&mut out, chars[i]);
        } else {
            push_char(&mut out, '*');
        }
        i = i + 1;
        assert(out@ =~= Seq::new(i as nat, |k: int| if k < 5 { value@[k] } else { '*' }));
    }
    assert(out@ =~= masked(field_id@, value@));
    out
}

/// Masks, in place, the sensitive answers of a submission.
pub fn mask_request(req: &mut SubmitVerifyRequest)
    ensures
        final(req).customer_name == old(req).customer_name,
        final(req).data@.len() == old(req).data@.len(),
        forall|i: int| 0 <= i < final(req).data@.len() ==> {
            &&& #[trigger] final(req).data@[i].item.field_id == old(req).data@[i].item.field_id
            &&& final(req).data@[i].bind == old(req).data@[i].bind
            &&& final(req).data@[i].item.field_value@ == masked(
                old(req).data@[i].item.field_id@,
                old(req).data@[i].item.field_value@,
            )
        },
{
    let mut i: usize = 0;
    while i < req.data.len()
        invariant
            i <= req.data.len(),
            req.customer_name == old(req).customer_name,
            req.data@.len() == old(req).data@.len(),
            forall|k: int| i <= k < req.data@.len() ==> #[trigger] req.data@[k] == old(req).data@[k],
            forall|k: int| 0 <= k < i ==> {
                &&& #[trigger] req.data@[k].item.field_id == old(req).data@[k].item.field_id
                &&& req.data@[k].bind == old(req).data@[k].bind
                &&& req.data@[k].item.field_value@ == masked(
                    old(req).data@[k].item.field_id@,
                    old(req).data@[k].item.field_value@,
                )
            },
        decreases req.data.len() - i,
    {
        let ghost prev = req.data@;
        let v = mask_value(req.data[i].item.field_id.as_str(), req.data[i].item.field_value.as_str());
        let mut d = req.data.remove(i);
        d.item.field_value = v;
        let ghost dd = d;
        req.data.insert(i, d);
        proof {
            assert(req.data@ =~= prev.update(i as int, dd));
            assert(prev[i as int] == old(req).data@[i as int]);
            assert forall|k: int| 0 <= k < i + 1 implies {
                &&& #[trigger] req.data@[k].item.field_id == old(req).data@[k].item.field_id
                &&& req.data@[k].bind == old(req).data@[k].bind
                &&& req.data@[k].item.field_value@ == masked(
                    old(req).data@[k].item.field_id@,
                    old(req).data@[k].item.field_value@,
                )
            } by {
                if k < i {
                    assert(req.data@[k] == prev[k]);
                } else {
                    assert(req.data@[k] == dd);
                }
            }
        }
        i = i + 1;
    }
}

} // verus!
