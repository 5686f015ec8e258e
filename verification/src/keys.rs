use vstd::prelude::*;
use vstd::string::*;
use crate::codec::{decode_hex, hex_bytes, reports_hex_error, HexError};

verus! {

/// The unsigned number that `b` spells in big-endian byte order.
pub open spec fn big_endian(b: Seq<u8>) -> nat
    decreases b.len(),
{
    if b.len() == 0 {
        0
    } else {
        big_endian(b.drop_last()) * 256 + (b.last() as nat)
    }
}

/// The order of the secp256k1 group.
pub open spec fn secp256k1_order() -> nat {
    0xFFFFFFFFFFFFFFFFFFFFFFFFFFFFFFFEBAAEDCE6AF48A03BBFD25E8CD0364141nat
}

/// Bytes that encode a secp256k1 secret scalar: 24 to 32 bytes, big-endian,
/// shorter ones read as if zero-padded on the left, the value in `1 .. order`.
pub open spec fn valid_secret_key_bytes(b: Seq<u8>) -> bool {
    &&& 24 <= b.len() <= 32
    &&& 0 < big_endian(b)
    &&& big_endian(b) < secp256k1_order()
}

/// Whether `k256::ecdsa::SigningKey::from_slice` accepts `bytes`: it does
/// exactly when they are 24 to 32 bytes long and, read big-endian, a nonzero
/// number below the secp256k1 group order.
#[verifier::external_body]
fn signing_key_accepts(bytes: &[u8]) -> (r: bool)
    ensures
        r == valid_secret_key_bytes(bytes@),
{
    k256::ecdsa::SigningKey::from_slice(bytes).is_ok()
}

/// Why a node's private key could not be recovered.
#[derive(Clone, Copy, Debug, PartialEq, Eq, Structural)]
pub enum KeyError {
    /// The key text is not hexadecimal.
    InvalidHex(HexError),
    /// The decoded bytes are not a secp256k1 secret key.
    InvalidKey,
}

/// Recovers the secret key bytes of a node from their hexadecimal text,
/// checking that they make a secp256k1 signing key.
pub fn signing_key_bytes(pk: &str) -> (r: Result<Vec<u8>, KeyError>)
    ensures
        r matches Err(KeyError::InvalidHex(_)) <==> hex_bytes(pk.spec_bytes()) is None,
        r matches Err(KeyError::InvalidHex(e)) ==> reports_hex_error(pk.spec_bytes(), e),
        r matches Err(KeyError::InvalidKey) <==> (hex_bytes(pk.spec_bytes()) matches Some(b)
            && !valid_secret_key_bytes(b)),
        r matches Ok(v) ==> hex_bytes(pk.spec_bytes()) == Some(v@) && valid_secret_key_bytes(v@),
{
    match decode_hex(pk) {
        Err(e) => Err(KeyError::InvalidHex(e)),
        Ok(bytes) => {
            if signing_key_accepts(bytes.as_slice()) {
                Ok(bytes)
            } else {
                Err(KeyError::InvalidKey)
            }
        },
    }
}

} // verus!
