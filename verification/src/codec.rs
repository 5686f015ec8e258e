use vstd::prelude::*;
use vstd::string::*;

verus! {

/// The lowercase hexadecimal digit for `d`, which is below 16.
pub open spec fn hex_digit(d: int) -> char {
    if d < 10 {
        (48 + d) as char
    } else {
        (87 + d) as char
    }
}

/// Lowercase hexadecimal text of `b`: two digits per byte, high half first.
pub open spec fn hex_text(b: Seq<u8>) -> Seq<char> {
    Seq::new(
        2 * b.len(),
        |i: int|
            if i % 2 == 0 {
                hex_digit((b[i / 2] / 16) as int)
            } else {
                hex_digit((b[i / 2] % 16) as int)
            },
    )
}

/// The value of one hexadecimal digit, of either case.
pub open spec fn hex_value(c: u8) -> Option<u8> {
    if 48 <= c <= 57 {
        Some((c - 48) as u8)
    } else if 65 <= c <= 70 {
        Some((c - 55) as u8)
    } else if 97 <= c <= 102 {
        Some((c - 87) as u8)
    } else {
        None
    }
}

/// Every byte of `s` is a hexadecimal digit.
pub open spec fn all_hex(s: Seq<u8>) -> bool {
    forall|i: int| 0 <= i < s.len() ==> (#[trigger] hex_value(s[i])) is Some
}

/// The bytes that hexadecimal text `s` spells, when it spells any.
pub open spec fn hex_bytes(s: Seq<u8>) -> Option<Seq<u8>> {
    if s.len() % 2 == 0 && all_hex(s) {
        Some(
            Seq::new(
                s.len() / 2,
                |i: int| (hex_value(s[2 * i])->0 * 16 + hex_value(s[2 * i + 1])->0) as u8,
            ),
        )
    } else {
        None
    }
}

/// `e` is the error that decoding `text` reports: an odd length before
/// anything else, otherwise the first byte that is not a hexadecimal digit.
pub open spec fn reports_hex_error(text: Seq<u8>, e: HexError) -> bool {
    match e {
        HexError::OddLength => text.len() % 2 == 1,
        HexError::InvalidHexCharacter { c, index } => {
            &&& text.len() % 2 == 0
            &&& index < text.len()
            &&& hex_value(text[index as int]) is None
            &&& c as int == text[index as int] as int
            &&& forall|j: int| 0 <= j < index ==> (#[trigger] hex_value(text[j])) is Some
        },
        HexError::InvalidStringLength => false,
    }
}

/// Why text is not hexadecimal.
#[derive(Clone, Copy, Debug, PartialEq, Eq, Structural)]
pub enum HexError {
    /// Byte `index`, read as `c`, is not a hexadecimal digit.
    InvalidHexCharacter { c: char, index: usize },
    /// The text has an odd number of bytes.
    OddLength,
    /// The decoded length does not fit the destination.
    InvalidStringLength,
}

/// `hex::encode`: the data as lowercase hexadecimal text, two digits per byte,
/// high half first.
#[verifier::external_body]
pub(crate) fn hex_encode(data: &[u8]) -> (r: String)
    ensures
        r@ == hex_text(data@),
{
    hex::encode(data)
}

/// `hex::decode`: the bytes that the hexadecimal text spells (digits of either
/// case); an odd length is reported before any bad digit, and a bad digit is
/// reported at the first position where one stands.
#[verifier::external_body]
pub(crate) fn hex_decode(text: &[u8]) -> (r: Result<Vec<u8>, HexError>)
    ensures
        match r {
            Ok(v) => hex_bytes(text@) == Some(v@),
            Err(e) => reports_hex_error(text@, e),
        },
{
    match hex::decode(text) {
        Ok(v) => Ok(v),
        Err(hex::FromHexError::InvalidHexCharacter { c, index }) => Err(HexError::InvalidHexCharacter { c, index }),
        Err(hex::FromHexError::OddLength) => Err(HexError::OddLength),
        Err(hex::FromHexError::InvalidStringLength) => Err(HexError::InvalidStringLength),
    }
}

/// Decodes hexadecimal text.
pub fn decode_hex(text: &str) -> (r: Result<Vec<u8>, HexError>)
    ensures
        r is Ok <==> hex_bytes(text.spec_bytes()) is Some,
        r matches Ok(v) ==> hex_bytes(text.spec_bytes()) == Some(v@),
        r matches Err(e) ==> reports_hex_error(text.spec_bytes(), e),
{
    let r = hex_decode(text.as_bytes());
    proof {
        if let Err(HexError::InvalidHexCharacter { c, index }) = r {
            assert(!all_hex(text.spec_bytes()));
        }
    }
    r
}

/// Encodes bytes as lowercase hexadecimal text.
pub fn encode_hex(data: &[u8]) -> (r: String)
    ensures
        r@ == hex_text(data@),
{
    hex_encode(data)
}


/// The bytes of text whose characters are all below 256.
pub open spec fn latin_bytes(t: Seq<char>) -> Seq<u8> {
    t.map_values(|c: char| c as u8)
}

/// Decoding the text that encoding writes gives back the encoded bytes.
pub proof fn law_hex_round_trip(b: Seq<u8>)
    ensures
        hex_bytes(latin_bytes(hex_text(b))) == Some(b),
{
    let t = latin_bytes(hex_text(b));
    assert forall|i: int| 0 <= i < t.len() implies (#[trigger] hex_value(t[i])) is Some by {
        let d: int = if i % 2 == 0 { (b[i / 2] / 16) as int } else { (b[i / 2] % 16) as int };
        assert(t[i] as int == if d < 10 { 48 + d } else { 87 + d });
    }
    assert(t.len() % 2 == 0);
    let decoded = hex_bytes(t)->0;
    assert forall|k: int| 0 <= k < b.len() implies decoded[k] == b[k] by {
        let hi = (b[k] / 16) as int;
        let lo = (b[k] % 16) as int;
        assert(t[2 * k] as int == if hi < 10 { 48 + hi } else { 87 + hi });
        assert(t[2 * k + 1] as int == if lo < 10 { 48 + lo } else { 87 + lo });
        assert(hex_value(t[2 * k])->0 == hi);
        assert(hex_value(t[2 * k + 1])->0 == lo);
    }
    assert(decoded =~= b);
}

} // verus!
