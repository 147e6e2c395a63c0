//! The stable device identifier sent with every login.

use vstd::prelude::*;

verus! {

/// An upper-case hexadecimal digit.
pub open spec fn is_upper_hex(c: char) -> bool {
    ('0' <= c && c <= '9') || ('A' <= c && c <= 'F')
}

/// Hyphenated UUID text: 36 characters, hyphens at 8, 13, 18 and 23, upper
/// case hexadecimal digits elsewhere.
pub open spec fn is_uuid_text(t: Seq<char>) -> bool {
    &&& t.len() == 36
    &&& forall|i: int|
        0 <= i < 36 ==> if i == 8 || i == 13 || i == 18 || i == 23 {
            t[i] == '-'
        } else {
            is_upper_hex(#[trigger] t[i])
        }
}

/// Relies on uuid's `Uuid::new_v4` and its `UpperHex` format, which writes
/// the hyphenated form in upper case.
#[verifier::external_body]
fn random_uuid_text() -> (r: String)
    ensures
        is_uuid_text(r@),
{
    format!("{:X}", uuid::Uuid::new_v4())
}

/// The device identifier to use: the stored one where there is one, else a
/// fresh random one, with `true` when it is fresh and must be stored.
pub fn device_id(stored: Option<String>) -> (r: (String, bool))
    ensures
        match stored {
            Some(s) => r.0 == s && !r.1,
            None => is_uuid_text(r.0@) && r.1,
        },
{
    match stored {
        Some(s) => (s, false),
        None => (random_uuid_text(), true),
    }
}

} // verus!
