//! Fresh ids and the time of day.
use vstd::prelude::*;

verus! {

/// A digit of an id.
pub open spec fn is_hex_digit(c: char) -> bool {
    ('0' <= c && c <= '9') || ('a' <= c && c <= 'f')
}

/// A random id, written out: five groups of small hexadecimal digits with
/// hyphens between them, marked as random by the digit that begins the third
/// group and by the one that begins the fourth.
pub open spec fn is_fresh_id(s: Seq<char>) -> bool {
    &&& s.len() == 36
    &&& forall|i: int|
        0 <= i < 36 ==> if i == 8 || i == 13 || i == 18 || i == 23 {
            #[trigger] s[i] == '-'
        } else {
            is_hex_digit(s[i])
        }
    &&& s[14] == '4'
    &&& s[19] == '8' || s[19] == '9' || s[19] == 'a' || s[19] == 'b'
}

/// `uuid::Uuid::new_v4`, written out with hyphens. Which digits it holds is left
/// to chance, but for those that mark it as random.
#[verifier::external_body]
pub(crate) fn mint_id() -> (id: String)
    ensures
        is_fresh_id(id@),
{
    uuid::Uuid::new_v4().to_string()
}

/// `chrono::Utc::now`, in microseconds since the epoch. Nothing is said of the
/// time.
#[verifier::external_body]
pub(crate) fn utc_now() -> (now: i64) {
    chrono::Utc::now().timestamp_micros()
}

}
