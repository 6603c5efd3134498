//! Hashing and hex encoding used by the request signature.

use sha2::Digest;
use vstd::prelude::*;

verus! {

/// The SHA-512 digest of the UTF-8 encoding of a text.
pub uninterp spec fn sha512_of(message: Seq<char>) -> Seq<u8>;

/// Relies on `sha2::Sha512` through `digest::Digest::digest`: the SHA-512
/// digest of the UTF-8 bytes of `message`, which is 64 bytes long.
#[verifier::external_body]
pub(crate) fn sha512_digest(message: &str) -> (r: Vec<u8>)
    ensures
        r@ == sha512_of(message@),
        r@.len() == 64,
{
    sha2::Sha512::digest(message.as_bytes()).to_vec()
}

/// The lowercase hexadecimal digit for a value below 16.
pub open spec fn hex_digit(n: int) -> char {
    seq!['0', '1', '2', '3', '4', '5', '6', '7', '8', '9', 'a', 'b', 'c', 'd', 'e', 'f'][n]
}

/// Two lowercase hexadecimal digits per byte, high nibble first, in order.
pub open spec fn hex_lower(bytes: Seq<u8>) -> Seq<char>
    decreases bytes.len(),
{
    if bytes.len() == 0 {
        Seq::empty()
    } else {
        seq![hex_digit(bytes[0] as int / 16), hex_digit(bytes[0] as int % 16)] + hex_lower(
            bytes.drop_first(),
        )
    }
}

/// Relies on `hex::encode`: two lowercase hexadecimal digits for each byte,
/// high nibble first, in the order of the bytes.
#[verifier::external_body]
pub(crate) fn hex_encode(bytes: &[u8]) -> (r: String)
    ensures
        r@ == hex_lower(bytes@),
{
    hex::encode(bytes)
}

} // verus!
