//! Hexadecimal text to bytes, and back.

use vstd::prelude::*;

use vstd::string::StringSliceAdditionalSpecFns;

use crate::error::PatchError;

verus! {

/// The value of an ASCII hex digit (`0-9`, `a-f`, `A-F`), or `None` for any
/// other byte.
pub open spec fn hex_digit_value(c: u8) -> Option<u8> {
    if 0x30 <= c <= 0x39 {
        Some((c - 0x30) as u8)
    } else if 0x41 <= c <= 0x46 {
        Some((c - 0x41 + 10) as u8)
    } else if 0x61 <= c <= 0x66 {
        Some((c - 0x61 + 10) as u8)
    } else {
        None
    }
}

/// The bytes of a text, as it is stored: its UTF-8 encoding. For ASCII text
/// that is one byte for each character.
pub open spec fn text_bytes(text: Seq<char>) -> Seq<u8> {
    vstd::utf8::encode_utf8(text)
}

/// Hex text that can be decoded: an even number of hex digits.
pub open spec fn is_hex_text(text: Seq<u8>) -> bool {
    &&& text.len() % 2 == 0
    &&& forall|i: int| 0 <= i < text.len() ==> (#[trigger] hex_digit_value(text[i])).is_some()
}

/// The byte written as the two hex digits `high` and `low`.
pub open spec fn byte_of_digits(high: u8, low: u8) -> u8 {
    (hex_digit_value(high).unwrap() * 16 + hex_digit_value(low).unwrap()) as u8
}

/// The bytes that hex text stands for: one byte for each pair of digits.
pub open spec fn decoded(text: Seq<u8>) -> Seq<u8> {
    Seq::new((text.len() / 2) as nat, |i: int| byte_of_digits(text[2 * i], text[2 * i + 1]))
}

/// The upper-case hex digit for a value below 16.
pub open spec fn hex_digit_of(v: u8) -> u8 {
    if v < 10 {
        (0x30 + v) as u8
    } else {
        (0x41 + (v - 10)) as u8
    }
}

/// The hex text of a byte sequence: two upper-case digits for each byte, high
/// nibble first.
pub open spec fn encoded(bytes: Seq<u8>) -> Seq<u8> {
    Seq::new(
        2 * bytes.len(),
        |i: int| if i % 2 == 0 {
            hex_digit_of(bytes[i / 2] / 16)
        } else {
            hex_digit_of(bytes[i / 2] % 16)
        },
    )
}

fn digit_value(c: u8) -> (r: Option<u8>)
    ensures
        r == hex_digit_value(c),
        r matches Some(v) ==> v < 16,
{
    if 0x30 <= c && c <= 0x39 {
        Some(c - 0x30)
    } else if 0x41 <= c && c <= 0x46 {
        Some(c - 0x41 + 10)
    } else if 0x61 <= c && c <= 0x66 {
        Some(c - 0x61 + 10)
    } else {
        None
    }
}

fn digit_of(v: u8) -> (r: u8)
    requires
        v < 16,
    ensures
        r == hex_digit_of(v),
{
    if v < 10 {
        0x30 + v
    } else {
        0x41 + (v - 10)
    }
}

/// Decodes hex text given as bytes. Succeeds exactly on an even number of hex
/// digits; nothing is returned for text that fails.
pub fn decode_hex_bytes(text: &[u8]) -> (r: Result<Vec<u8>, PatchError>)
    ensures
        match r {
            Ok(bytes) => is_hex_text(text@) && bytes@ == decoded(text@),
            Err(e) => !is_hex_text(text@) && e == PatchError::MalformedHex,
        },
{
    let n: usize = text.len();
    if n % 2 != 0 {
        return Err(PatchError::MalformedHex);
    }
    let mut bytes: Vec<u8> = Vec::with_capacity(n / 2);
    let mut i: usize = 0;
    while i < n
        invariant
            n == text@.len(),
            n % 2 == 0,
            i % 2 == 0,
            i <= n,
            bytes@.len() == i / 2,
            forall|j: int| 0 <= j < i ==> (#[trigger] hex_digit_value(text@[j])).is_some(),
            forall|k: int|
                0 <= k < bytes@.len() ==> #[trigger] bytes@[k] == byte_of_digits(
                    text@[2 * k],
                    text@[2 * k + 1],
                ),
        decreases n - i,
    {
        let high = match digit_value(text[i]) {
            Some(v) => v,
            None => {
                return Err(PatchError::MalformedHex);
            },
        };
        let low = match digit_value(text[i + 1]) {
            Some(v) => v,
            None => {
                return Err(PatchError::MalformedHex);
            },
        };
        bytes.push(high * 16 + low);
        i += 2;
    }
    assert(bytes@ =~= decoded(text@));
    Ok(bytes)
}

/// Decodes a hex string, read byte by byte as `decode_hex_bytes` reads it.
pub fn decode_hex(hexa: &str) -> (r: Result<Vec<u8>, PatchError>)
    ensures
        match r {
            Ok(bytes) => is_hex_text(text_bytes(hexa@)) && bytes@ == decoded(text_bytes(hexa@)),
            Err(e) => !is_hex_text(text_bytes(hexa@)) && e == PatchError::MalformedHex,
        },
{
    decode_hex_bytes(hexa.as_bytes())
}

/// Writes bytes as hex text, two upper-case digits for each byte.
pub fn encode_hex(bytes: &[u8]) -> (text: Vec<u8>)
    requires
        2 * bytes@.len() <= usize::MAX,
    ensures
        text@ == encoded(bytes@),
{
    let n: usize = bytes.len();
    let mut text: Vec<u8> = Vec::with_capacity(2 * n);
    let mut i: usize = 0;
    while i < n
        invariant
            n == bytes@.len(),
            i <= n,
            text@.len() == 2 * i,
            forall|k: int| 0 <= k < text@.len() ==> #[trigger] text@[k] == encoded(bytes@)[k],
        decreases n - i,
    {
        let b: u8 = bytes[i];
        text.push(digit_of(b / 16));
        text.push(digit_of(b % 16));
        i += 1;
    }
    assert(text@ =~= encoded(bytes@));
    text
}

/// Decoding undoes encoding: the hex text of any byte sequence is accepted
/// and decodes to that sequence.
pub proof fn hex_round_trip(bytes: Seq<u8>)
    ensures
        is_hex_text(encoded(bytes)),
        decoded(encoded(bytes)) == bytes,
{
    let text = encoded(bytes);
    assert forall|v: u8| v < 16 implies hex_digit_value(hex_digit_of(v)) == Some(v) by {}
    assert forall|i: int| 0 <= i < text.len() implies (#[trigger] hex_digit_value(
        text[i],
    )).is_some() by {
        let b = bytes[i / 2];
        assert(b / 16 < 16 && b % 16 < 16);
    }
    assert forall|k: int| 0 <= k < bytes.len() implies #[trigger] decoded(text)[k] == bytes[k] by {
        let b = bytes[k];
        assert((2 * k) / 2 == k && (2 * k + 1) / 2 == k);
        assert((2 * k) % 2 == 0 && (2 * k + 1) % 2 == 1);
        assert(b / 16 < 16 && b % 16 < 16);
        assert(hex_digit_value(hex_digit_of(b / 16)) == Some((b / 16) as u8));
        assert(hex_digit_value(hex_digit_of(b % 16)) == Some((b % 16) as u8));
        assert((b / 16) * 16 + b % 16 == b);
    }
    assert(decoded(text) =~= bytes);
}

} // verus!
