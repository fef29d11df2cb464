//! Hexadecimal text for byte strings (file hashes and session ids), as the
//! `hex` crate writes and reads it.
use vstd::prelude::*;
use vstd::string::StringSliceAdditionalSpecFns;
use crate::errors::Errors;
use vstd::utf8::{encode_utf8, is_ascii_chars, is_ascii_chars_encode_utf8};

verus! {

/// Why a text is not a hexadecimal byte string; the same cases as
/// `hex::FromHexError`.
#[derive(Debug, Clone, Copy, PartialEq, Eq)]
pub enum HexError {
    /// The byte at `index` of the text is not a hexadecimal digit; `c` is that
    /// byte read as a character.
    InvalidHexCharacter { c: char, index: usize },
    /// The text has an odd number of bytes.
    OddLength,
    /// The text does not fit a container of fixed size.
    InvalidStringLength,
}

/// The lower-case hexadecimal digit of a value below 16.
pub open spec fn hex_digit(v: int) -> char {
    if v < 10 {
        (48 + v) as char
    } else {
        (87 + v) as char
    }
}

/// Lower-case hexadecimal text of a byte string: two digits per byte, high
/// nibble first.
pub open spec fn hex_lower(bytes: Seq<u8>) -> Seq<char> {
    Seq::new(
        2 * bytes.len(),
        |i: int|
            if i % 2 == 0 {
                hex_digit((bytes[i / 2] / 16) as int)
            } else {
                hex_digit((bytes[i / 2] % 16) as int)
            },
    )
}

/// The value of one hexadecimal digit byte (either case), if it is one.
pub open spec fn hex_value(b: u8) -> Option<u8> {
    if 48 <= b <= 57 {
        Some((b - 48) as u8)
    } else if 65 <= b <= 70 {
        Some((b - 55) as u8)
    } else if 97 <= b <= 102 {
        Some((b - 87) as u8)
    } else {
        None
    }
}

pub open spec fn is_hex_byte(b: u8) -> bool {
    hex_value(b) is Some
}

/// `i` is the position of the first byte of `bytes` that is not a digit.
pub open spec fn first_non_hex(bytes: Seq<u8>, i: int) -> bool {
    &&& 0 <= i < bytes.len()
    &&& !is_hex_byte(bytes[i])
    &&& forall|j: int| 0 <= j < i ==> is_hex_byte(#[trigger] bytes[j])
}

/// The bytes that a hexadecimal text of even length and only digits spells.
pub open spec fn hex_pairs(bytes: Seq<u8>) -> Seq<u8> {
    Seq::new(
        bytes.len() / 2,
        |k: int|
            (hex_value(bytes[2 * k]).unwrap() * 16 + hex_value(bytes[2 * k + 1]).unwrap()) as u8,
    )
}

/// Decoding of the bytes of a hexadecimal text: an odd length is refused
/// first, then the first byte that is not a digit, else the pairs of digits.
pub open spec fn hex_decode_bytes(bytes: Seq<u8>) -> Result<Seq<u8>, HexError> {
    if bytes.len() % 2 != 0 {
        Err(HexError::OddLength)
    } else if exists|i: int| 0 <= i < bytes.len() && !is_hex_byte(#[trigger] bytes[i]) {
        let i = choose|i: int| first_non_hex(bytes, i);
        Err(HexError::InvalidHexCharacter { c: bytes[i] as char, index: i as usize })
    } else {
        Ok(hex_pairs(bytes))
    }
}

/// What a decoding result says, with the bytes taken as a sequence.
pub open spec fn decoded_view(r: Result<Vec<u8>, HexError>) -> Result<Seq<u8>, HexError> {
    match r {
        Ok(v) => Ok(v@),
        Err(e) => Err(e),
    }
}

/// Calls `hex::encode`, which writes each byte as two lower-case hexadecimal
/// digits, high nibble first (as its documentation and source say).
#[verifier::external_body]
pub(crate) fn hex_encode(bytes: &[u8]) -> (text: String)
    ensures
        text@ == hex_lower(bytes@),
{
    hex::encode(bytes)
}

/// Calls `hex::decode` on the UTF-8 bytes of `text`. Its source refuses an odd
/// number of bytes, then the first byte that is not a digit of either case
/// (reporting that byte as a character and its position), and otherwise
/// combines each pair of digits into one byte.
#[verifier::external_body]
pub(crate) fn hex_decode(text: &str) -> (r: Result<Vec<u8>, HexError>)
    ensures
        decoded_view(r) == hex_decode_bytes(text.spec_bytes()),
{
    match hex::decode(text) {
        Ok(bytes) => Ok(bytes),
        Err(hex::FromHexError::InvalidHexCharacter { c, index }) => Err(
            HexError::InvalidHexCharacter { c, index },
        ),
        Err(hex::FromHexError::OddLength) => Err(HexError::OddLength),
        Err(hex::FromHexError::InvalidStringLength) => Err(HexError::InvalidStringLength),
    }
}

/// Hexadecimal text is plain ASCII, so its UTF-8 bytes are its characters.
pub proof fn lemma_hex_text_is_ascii(bytes: Seq<u8>)
    ensures
        is_ascii_chars(hex_lower(bytes)),
        encode_utf8(hex_lower(bytes)).len() == hex_lower(bytes).len(),
        forall|i: int|
            0 <= i < hex_lower(bytes).len() ==> #[trigger] encode_utf8(hex_lower(bytes))[i]
                == hex_lower(bytes)[i] as u8,
{
    let t = hex_lower(bytes);
    assert forall|i: int| 0 <= i < t.len() implies '\0' <= #[trigger] t[i] <= '\u{7f}' by {
        let b = bytes[i / 2];
        assert(0 <= b / 16 < 16 && 0 <= b % 16 < 16);
    }
    is_ascii_chars_encode_utf8(t);
}

/// Law: hexadecimal text read back gives the bytes it was written from, so a
/// file hash or session id that travels as hex text comes back unchanged.
pub proof fn lemma_hex_roundtrip(bytes: Seq<u8>)
    ensures
        hex_decode_bytes(encode_utf8(hex_lower(bytes))) == Ok::<Seq<u8>, HexError>(bytes),
{
    let t = hex_lower(bytes);
    lemma_hex_text_is_ascii(bytes);
    let e = encode_utf8(t);
    assert forall|i: int| 0 <= i < e.len() implies is_hex_byte(#[trigger] e[i]) by {
        let b = bytes[i / 2];
        assert(e[i] == t[i] as u8);
    }
    assert forall|k: int| 0 <= k < bytes.len() implies #[trigger] hex_pairs(e)[k] == bytes[k] by {
        assert(e[2 * k] == t[2 * k] as u8);
        assert(e[2 * k + 1] == t[2 * k + 1] as u8);
        assert((2 * k) / 2 == k);
        assert((2 * k + 1) / 2 == k);
        assert((2 * k) % 2 == 0);
        assert((2 * k + 1) % 2 == 1);
        assert(hex_value(e[2 * k]).unwrap() == bytes[k] / 16);
        assert(hex_value(e[2 * k + 1]).unwrap() == bytes[k] % 16);
    }
    assert(hex_pairs(e) =~= bytes);
}

/// Decoding of a list of hexadecimal texts, in order, stopping at the first
/// text that does not decode.
pub open spec fn decode_all(texts: Seq<Seq<char>>) -> Result<Seq<Seq<u8>>, HexError>
    decreases texts.len(),
{
    if texts.len() == 0 {
        Ok(Seq::empty())
    } else {
        match decode_all(texts.drop_last()) {
            Err(e) => Err(e),
            Ok(prev) => match hex_decode_bytes(encode_utf8(texts.last())) {
                Err(e) => Err(e),
                Ok(b) => Ok(prev.push(b)),
            },
        }
    }
}

/// The texts of a list of strings.
pub open spec fn string_views(v: Seq<String>) -> Seq<Seq<char>> {
    v.map_values(|s: String| s@)
}

/// The byte strings of a list of byte vectors.
pub open spec fn bytes_views(v: Seq<Vec<u8>>) -> Seq<Seq<u8>> {
    v.map_values(|b: Vec<u8>| b@)
}

/// Decodes each text of `texts` in order; the first that is not hexadecimal
/// decides the error.
pub fn decode_hex_list(texts: &Vec<String>) -> (r: Result<Vec<Vec<u8>>, HexError>)
    ensures
        match r {
            Ok(v) => decode_all(string_views(texts@)) == Ok::<Seq<Seq<u8>>, HexError>(
                bytes_views(v@),
            ),
            Err(e) => decode_all(string_views(texts@)) == Err::<Seq<Seq<u8>>, HexError>(e),
        },
{
    let mut out: Vec<Vec<u8>> = Vec::new();
    let mut i: usize = 0;
    assert(string_views(texts@).take(0) =~= Seq::<Seq<char>>::empty());
    assert(bytes_views(out@) =~= Seq::<Seq<u8>>::empty());
    while i < texts.len()
        invariant
            i <= texts@.len(),
            decode_all(string_views(texts@).take(i as int)) == Ok::<Seq<Seq<u8>>, HexError>(
                bytes_views(out@),
            ),
        decreases texts@.len() - i,
    {
        let ghost done = string_views(texts@).take(i as int);
        let ghost next = string_views(texts@).take(i + 1);
        proof {
            assert(next.drop_last() =~= done);
            assert(next.last() == texts@[i as int]@);
        }
        match hex_decode(texts[i].as_str()) {
            Ok(bytes) => {
                let ghost before = out@;
                out.push(bytes);
                proof {
                    assert(bytes_views(out@) =~= bytes_views(before).push(out@.last()@));
                }
            },
            Err(e) => {
                proof {
                    lemma_decode_all_stops(string_views(texts@), i + 1);
                }
                return Err(e);
            },
        }
        i = i + 1;
    }
    proof {
        assert(string_views(texts@).take(i as int) =~= string_views(texts@));
    }
    Ok(out)
}

/// Decodes the hashes a form sends in hex; malformed hex is the client's
/// error.
pub fn decode_hashes(hashes: &Vec<String>) -> (r: Result<Vec<Vec<u8>>, Errors>)
    ensures
        match r {
            Ok(v) => decode_all(string_views(hashes@)) == Ok::<Seq<Seq<u8>>, HexError>(
                bytes_views(v@),
            ),
            Err(e) => decode_all(string_views(hashes@)) matches Err(h) && e == Errors::Hex(h),
        },
{
    match decode_hex_list(hashes) {
        Ok(v) => Ok(v),
        Err(h) => Err(Errors::Hex(h)),
    }
}

/// Once decoding a prefix of the list fails, decoding the whole list fails
/// the same way.
proof fn lemma_decode_all_stops(texts: Seq<Seq<char>>, k: int)
    requires
        0 <= k <= texts.len(),
        decode_all(texts.take(k)) is Err,
    ensures
        decode_all(texts) == decode_all(texts.take(k)),
    decreases texts.len() - k,
{
    if k < texts.len() {
        let next = texts.take(k + 1);
        assert(next.drop_last() =~= texts.take(k));
        lemma_decode_all_stops(texts, k + 1);
    } else {
        assert(texts.take(k) =~= texts);
    }
}

/// Law: the hex texts of a list of byte strings decode, as a list, back to
/// those byte strings (as the hashes a page shows come back in a form).
pub proof fn lemma_hex_list_roundtrip(values: Seq<Seq<u8>>)
    ensures
        decode_all(values.map_values(|b: Seq<u8>| hex_lower(b))) == Ok::<Seq<Seq<u8>>, HexError>(
            values,
        ),
    decreases values.len(),
{
    let texts = values.map_values(|b: Seq<u8>| hex_lower(b));
    if values.len() > 0 {
        let front = values.drop_last();
        lemma_hex_list_roundtrip(front);
        assert(texts.drop_last() =~= front.map_values(|b: Seq<u8>| hex_lower(b)));
        lemma_hex_roundtrip(values.last());
        assert(front.push(values.last()) =~= values);
    } else {
        assert(values =~= Seq::<Seq<u8>>::empty());
    }
}

} // verus!
