//! Message authentication: HMAC-SHA256 tags and their hex encoding.

use vstd::prelude::*;
use hmac::Mac;

verus! {

/// The HMAC-SHA256 authentication tag over `data` keyed by `key`.
///
/// The tag is a function of key and data alone; its value is not restated
/// here, only named, so contracts can say that equal inputs sign equally.
pub uninterp spec fn hmac_sha256_tag(key: Seq<u8>, data: Seq<u8>) -> Seq<u8>;

/// The lowercase hex digit for a nibble.
pub open spec fn spec_hex_digit(v: u8) -> u8
    recommends
        v < 16,
{
    if v < 10 {
        (48 + v) as u8
    } else {
        (87 + v) as u8
    }
}

/// True for the bytes of lowercase hex digits, `0`-`9` and `a`-`f`.
pub open spec fn is_hex_digit_byte(b: u8) -> bool {
    (48 <= b <= 57) || (97 <= b <= 102)
}

/// Lowercase hex encoding: two digits per byte, high nibble first.
pub open spec fn spec_hex(b: Seq<u8>) -> Seq<u8> {
    Seq::new(
        b.len() * 2,
        |i: int|
            if i % 2 == 0 {
                spec_hex_digit(b[i / 2] / 16)
            } else {
                spec_hex_digit(b[i / 2] % 16)
            },
    )
}

/// Every byte of a hex encoding is a lowercase hex digit.
pub proof fn lemma_hex_digits(b: Seq<u8>)
    ensures
        spec_hex(b).len() == 2 * b.len(),
        forall|i: int| 0 <= i < spec_hex(b).len() ==> is_hex_digit_byte(#[trigger] spec_hex(b)[i]),
{
    assert forall|i: int| 0 <= i < spec_hex(b).len() implies is_hex_digit_byte(
        #[trigger] spec_hex(b)[i],
    ) by {
        let v = if i % 2 == 0 {
            b[i / 2] / 16
        } else {
            b[i / 2] % 16
        };
        assert(v < 16);
    }
}

/// Relies on `hmac::Hmac<sha2::Sha256>`: `new_from_slice` accepts keys of any
/// length (HMAC hashes or pads the key, it never fails), `update` absorbs the
/// data, and `finalize` produces the 32-byte SHA-256-sized tag, a function of
/// key and data alone.
#[verifier::external_body]
pub(crate) fn hmac_sha256(key: &Vec<u8>, data: &Vec<u8>) -> (r: Vec<u8>)
    ensures
        r@ == hmac_sha256_tag(key@, data@),
        r@.len() == 32,
{
    let mut mac = <hmac::Hmac<sha2::Sha256> as hmac::KeyInit>::new_from_slice(key.as_slice())
        .expect("HMAC accepts keys of any length");
    mac.update(data.as_slice());
    mac.finalize().into_bytes().to_vec()
}

/// Relies on `hex::encode`: lowercase hex, exactly two digits per input byte,
/// high nibble first.
#[verifier::external_body]
pub(crate) fn hex_encode(b: &Vec<u8>) -> (r: Vec<u8>)
    ensures
        r@ == spec_hex(b@),
{
    hex::encode(b.as_slice()).into_bytes()
}

} // verus!
