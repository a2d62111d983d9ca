//! The calls this library makes into other crates. Each function here is
//! believed, not proved: its contract restates what the called crate's source
//! shows.

use sha2::Digest;
use vstd::prelude::*;

verus! {

/// The SHA-256 digest of a byte string, as `sha2` computes it.
pub uninterp spec fn sha256(data: Seq<u8>) -> Seq<u8>;

/// The lower-case hexadecimal digit for a value below sixteen.
pub open spec fn hex_digit(nibble: int) -> char {
    seq!['0', '1', '2', '3', '4', '5', '6', '7', '8', '9', 'a', 'b', 'c', 'd', 'e', 'f'][nibble]
}

/// Two lower-case hexadecimal digits per byte, high nibble first.
pub open spec fn hex_lower(data: Seq<u8>) -> Seq<char> {
    Seq::new(
        2 * data.len(),
        |i: int|
            hex_digit(
                if i % 2 == 0 {
                    data[i / 2] as int / 16
                } else {
                    data[i / 2] as int % 16
                },
            ),
    )
}

/// Whether `c` is one of `0`-`9`, `a`-`f`.
pub open spec fn is_lower_hex(c: char) -> bool {
    ('0' <= c && c <= '9') || ('a' <= c && c <= 'f')
}

/// The shape of a version-4 UUID in hyphenated lower-case text:
/// `xxxxxxxx-xxxx-4xxx-yxxx-xxxxxxxxxxxx` with `y` one of `8`, `9`, `a`, `b`.
pub open spec fn is_uuid_v4_text(s: Seq<char>) -> bool {
    &&& s.len() == 36
    &&& forall|i: int| 0 <= i < 36 ==> if i == 8 || i == 13 || i == 18 || i == 23 {
            #[trigger] s[i] == '-'
        } else {
            is_lower_hex(s[i])
        }
    &&& s[14] == '4'
    &&& (s[19] == '8' || s[19] == '9' || s[19] == 'a' || s[19] == 'b')
}

/// Calls `sha2::Sha256::digest`. Trusted: the bytes returned are the SHA-256
/// digest of `data`, a function of `data` alone.
#[verifier::external_body]
pub(crate) fn sha256_digest(data: &[u8]) -> (out: Vec<u8>)
    ensures
        out@ == sha256(data@),
{
    sha2::Sha256::digest(data).to_vec()
}

/// Calls `hex::encode`. Trusted: each byte becomes two characters from
/// `0123456789abcdef`, the high four bits first.
#[verifier::external_body]
pub(crate) fn hex_encode(data: &[u8]) -> (out: String)
    ensures
        out@ == hex_lower(data@),
{
    hex::encode(data)
}

/// Calls `uuid::Uuid::new_v4` and renders the value with its `Display`.
/// Trusted: the text has the hyphenated lower-case shape of a version-4 UUID.
/// Which UUID comes back is random, so nothing more is claimed, and two calls
/// may differ. The call panics if the system's random source fails.
#[verifier::external_body]
pub(crate) fn random_uuid() -> (out: String)
    ensures
        is_uuid_v4_text(out@),
{
    uuid::Uuid::new_v4().to_string()
}

/// Calls `chrono::Utc::now` and `DateTime::to_rfc3339`. The text depends on
/// the clock, so nothing is claimed of it. The call panics if the system
/// clock is set before 1970.
#[verifier::external_body]
pub(crate) fn utc_now_rfc3339() -> (out: String) {
    chrono::Utc::now().to_rfc3339()
}

} // verus!
