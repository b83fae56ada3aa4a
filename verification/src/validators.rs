//! Phone-number format validation and sender authorization.
//!
//! A sender identity is numeric when it begins with `+`; a numeric sender
//! must satisfy the E.164 format and appear among the verified own numbers
//! or the dedicated numbers. Any other identity is an alpha tag and must
//! appear verbatim (case-sensitive) among the registered alpha tags.

use vstd::prelude::*;

use crate::error::{AppError, AppResult};

verus! {

/// `c` is one of the decimal digits `0` through `9`.
pub open spec fn is_ascii_digit(c: char) -> bool {
    '0' as u32 <= c as u32 && c as u32 <= '9' as u32
}

/// The E.164 numbering format: `+`, one digit in `1..=9`, then 1 to 14
/// further digits (2 to 15 digits in all).
pub open spec fn is_e164(s: Seq<char>) -> bool {
    &&& 3 <= s.len() <= 16
    &&& s[0] == '+'
    &&& '1' as u32 <= s[1] as u32 && s[1] as u32 <= '9' as u32
    &&& forall|i: int| 2 <= i < s.len() ==> is_ascii_digit(#[trigger] s[i])
}

/// A sender identity is treated as a phone number exactly when it begins
/// with `+`; otherwise it is treated as an alpha tag.
pub open spec fn is_numeric_sender(s: Seq<char>) -> bool {
    s.len() > 0 && s[0] == '+'
}

/// The views of a sequence of owned strings.
pub open spec fn str_views(v: Seq<String>) -> Seq<Seq<char>> {
    v.map_values(|s: String| s@)
}

/// The sender is allowed to originate traffic against the given directory
/// contents: a numeric sender must be E.164 and listed among the verified or
/// dedicated numbers; an alpha tag must be listed verbatim.
pub open spec fn sender_authorized(
    sender: Seq<char>,
    verified: Seq<Seq<char>>,
    dedicated: Seq<Seq<char>>,
    alpha: Seq<Seq<char>>,
) -> bool {
    if is_numeric_sender(sender) {
        is_e164(sender) && (verified.contains(sender) || dedicated.contains(sender))
    } else {
        alpha.contains(sender)
    }
}

/// Accepts exactly the strings in E.164 format; any other shape fails with
/// `InvalidPhoneNumber` carrying the rejected string.
pub fn validate_e164(phone_number: &str) -> (r: AppResult<()>)
    ensures
        r is Ok <==> is_e164(phone_number@),
        r matches Err(e) ==> (e matches AppError::InvalidPhoneNumber(v) && v@ == phone_number@),
{
    let n = phone_number.unicode_len();
    if n < 3 || n > 16 {
        return Err(AppError::InvalidPhoneNumber(String::from_str(phone_number)));
    }
    if phone_number.get_char(0) != '+' {
        return Err(AppError::InvalidPhoneNumber(String::from_str(phone_number)));
    }
    let first = phone_number.get_char(1) as u32;
    if first < '1' as u32 || first > '9' as u32 {
        return Err(AppError::InvalidPhoneNumber(String::from_str(phone_number)));
    }
    let mut i: usize = 2;
    while i < n
        invariant
            2 <= i <= n,
            n == phone_number@.len(),
            forall|j: int| 2 <= j < i ==> is_ascii_digit(#[trigger] phone_number@[j]),
        decreases n - i,
    {
        let c = phone_number.get_char(i) as u32;
        if c < '0' as u32 || c > '9' as u32 {
            return Err(AppError::InvalidPhoneNumber(String::from_str(phone_number)));
        }
        i = i + 1;
    }
    Ok(())
}

/// `true` exactly when the identity begins with `+` and is therefore checked
/// as a phone number rather than as an alpha tag.
pub fn sender_is_numeric(sender: &str) -> (b: bool)
    ensures
        b == is_numeric_sender(sender@),
{
    sender.unicode_len() > 0 && sender.get_char(0) == '+'
}

/// Whether one of the owned strings in `v` equals `s`, by exact,
/// case-sensitive comparison.
fn vec_contains_str(v: &Vec<String>, s: &str) -> (b: bool)
    ensures
        b == str_views(v@).contains(s@),
{
    let needle = String::from_str(s);
    let mut i: usize = 0;
    while i < v.len()
        invariant
            0 <= i <= v.len(),
            needle@ == s@,
            forall|j: int| 0 <= j < i ==> v@[j]@ != s@,
        decreases v.len() - i,
    {
        if v[i] == needle {
            assert(str_views(v@)[i as int] == s@);
            return true;
        }
        i = i + 1;
    }
    assert(forall|j: int| 0 <= j < str_views(v@).len() ==> str_views(v@)[j] != s@);
    false
}

/// Decides whether `sender` may originate a message, given the directory
/// contents already fetched: success exactly when the sender is authorized;
/// a numeric sender in bad E.164 shape fails with `InvalidPhoneNumber`, and
/// every other rejection is `InvalidSender`, each carrying the sender.
pub fn validate_sender_logic(
    sender: &str,
    verified_numbers: &Vec<String>,
    dedicated_numbers: &Vec<String>,
    alpha_tags: &Vec<String>,
) -> (r: AppResult<()>)
    ensures
        r is Ok <==> sender_authorized(
            sender@,
            str_views(verified_numbers@),
            str_views(dedicated_numbers@),
            str_views(alpha_tags@),
        ),
        r matches Err(e) ==> if is_numeric_sender(sender@) && !is_e164(sender@) {
            e matches AppError::InvalidPhoneNumber(v) && v@ == sender@
        } else {
            e matches AppError::InvalidSender(v) && v@ == sender@
        },
{
    if sender_is_numeric(sender) {
        match validate_e164(sender) {
            Ok(()) => {},
            Err(e) => {
                return Err(e);
            },
        }
        let in_verified = vec_contains_str(verified_numbers, sender);
        let in_dedicated = vec_contains_str(dedicated_numbers, sender);
        if !in_verified && !in_dedicated {
            return Err(AppError::InvalidSender(String::from_str(sender)));
        }
        Ok(())
    } else {
        if !vec_contains_str(alpha_tags, sender) {
            return Err(AppError::InvalidSender(String::from_str(sender)));
        }
        Ok(())
    }
}

} // verus!
