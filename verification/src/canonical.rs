//! The canonical text form of a measurement: standard base64 with padding.

use vstd::prelude::*;
use vstd::utf8::encode_utf8;

verus! {

/// Bytes in a measurement.
pub const MEASUREMENT_LEN: usize = 32;

/// Characters in the canonical form of a measurement.
pub const CANONICAL_LEN: usize = 44;

/// The character of the standard alphabet that stands for a six-bit value:
/// `A` to `Z`, `a` to `z`, `0` to `9`, `+`, `/`.
pub open spec fn symbol(v: int) -> char {
    if v < 26 {
        ('A' as u8 + v) as u8 as char
    } else if v < 52 {
        ('a' as u8 + (v - 26)) as u8 as char
    } else if v < 62 {
        ('0' as u8 + (v - 52)) as u8 as char
    } else if v == 62 {
        '+'
    } else {
        '/'
    }
}

/// The byte at `i`, or zero past the end.
pub open spec fn byte_or_zero(bytes: Seq<u8>, i: int) -> int {
    if 0 <= i < bytes.len() {
        bytes[i] as int
    } else {
        0
    }
}

/// The character at position `j` of the base64 text of `bytes`. Each group
/// of three bytes gives four characters of six bits each; where the last
/// group lacks a byte, `=` stands in place of the character that would hold
/// none of its bits.
pub open spec fn base64_char(bytes: Seq<u8>, j: int) -> char {
    let g = j / 4;
    let b0 = byte_or_zero(bytes, 3 * g);
    let b1 = byte_or_zero(bytes, 3 * g + 1);
    let b2 = byte_or_zero(bytes, 3 * g + 2);
    if j % 4 == 0 {
        symbol(b0 / 4)
    } else if j % 4 == 1 {
        symbol((b0 % 4) * 16 + b1 / 16)
    } else if j % 4 == 2 {
        if 3 * g + 1 < bytes.len() {
            symbol((b1 % 16) * 4 + b2 / 64)
        } else {
            '='
        }
    } else {
        if 3 * g + 2 < bytes.len() {
            symbol(b2 % 64)
        } else {
            '='
        }
    }
}

/// The standard base64 text of `bytes`, padded to a multiple of four characters.
pub open spec fn base64_text(bytes: Seq<u8>) -> Seq<char> {
    Seq::new(4 * ((bytes.len() + 2) / 3) as nat, |j: int| base64_char(bytes, j))
}

/// Distinct six-bit values have distinct characters, and none of them is the padding character.
pub proof fn lemma_symbol_injective(u: int, v: int)
    requires
        0 <= u < 64,
        0 <= v < 64,
    ensures
        symbol(u) != '=',
        symbol(u) == symbol(v) ==> u == v,
{
}

/// Texts of equal length with the same padding come from equally many bytes.
proof fn lemma_same_len(a: Seq<u8>, b: Seq<u8>)
    requires
        base64_text(a) == base64_text(b),
    ensures
        a.len() == b.len(),
{
    let ta = base64_text(a);
    let tb = base64_text(b);
    let n = ta.len() as int;
    assert(tb.len() == n);
    if n > 0 {
        assert(ta[n - 1] == base64_char(a, n - 1));
        assert(tb[n - 1] == base64_char(b, n - 1));
        assert(ta[n - 2] == base64_char(a, n - 2));
        assert(tb[n - 2] == base64_char(b, n - 2));
        let g = (n - 1) / 4;
        assert((n - 1) % 4 == 3 && (n - 2) % 4 == 2 && (n - 2) / 4 == g);
        lemma_symbol_injective(byte_or_zero(a, 3 * g + 2) % 64, 0);
        lemma_symbol_injective(byte_or_zero(b, 3 * g + 2) % 64, 0);
        lemma_symbol_injective(
            (byte_or_zero(a, 3 * g + 1) % 16) * 4 + byte_or_zero(a, 3 * g + 2) / 64,
            0,
        );
        lemma_symbol_injective(
            (byte_or_zero(b, 3 * g + 1) % 16) * 4 + byte_or_zero(b, 3 * g + 2) / 64,
            0,
        );
    }
}

/// The base64 text tells the bytes: two byte strings with the same text are the same.
pub proof fn lemma_text_injective(a: Seq<u8>, b: Seq<u8>)
    requires
        base64_text(a) == base64_text(b),
    ensures
        a == b,
{
    lemma_same_len(a, b);
    let ta = base64_text(a);
    let tb = base64_text(b);
    assert forall|i: int| 0 <= i < a.len() implies a[i] == b[i] by {
        let g = i / 3;
        let a0 = byte_or_zero(a, 3 * g);
        let a1 = byte_or_zero(a, 3 * g + 1);
        let a2 = byte_or_zero(a, 3 * g + 2);
        let b0 = byte_or_zero(b, 3 * g);
        let b1 = byte_or_zero(b, 3 * g + 1);
        let b2 = byte_or_zero(b, 3 * g + 2);
        assert(4 * g + 3 < ta.len());
        assert(ta[4 * g] == base64_char(a, 4 * g) && tb[4 * g] == base64_char(b, 4 * g));
        assert(ta[4 * g + 1] == base64_char(a, 4 * g + 1) && tb[4 * g + 1] == base64_char(
            b,
            4 * g + 1,
        ));
        assert(ta[4 * g + 2] == base64_char(a, 4 * g + 2) && tb[4 * g + 2] == base64_char(
            b,
            4 * g + 2,
        ));
        assert(ta[4 * g + 3] == base64_char(a, 4 * g + 3) && tb[4 * g + 3] == base64_char(
            b,
            4 * g + 3,
        ));
        assert((4 * g) / 4 == g && (4 * g + 1) / 4 == g && (4 * g + 2) / 4 == g && (4 * g + 3) / 4
            == g);
        lemma_symbol_injective(a0 / 4, b0 / 4);
        lemma_symbol_injective((a0 % 4) * 16 + a1 / 16, (b0 % 4) * 16 + b1 / 16);
        lemma_symbol_injective((a1 % 16) * 4 + a2 / 64, (b1 % 16) * 4 + b2 / 64);
        lemma_symbol_injective(a2 % 64, b2 % 64);
    }
    assert(a =~= b);
}

/// The base64 text of any bytes is ASCII, so it has as many bytes as characters.
pub proof fn lemma_text_is_ascii(bytes: Seq<u8>)
    ensures
        vstd::utf8::is_ascii_chars(base64_text(bytes)),
        encode_utf8(base64_text(bytes)).len() == base64_text(bytes).len(),
{
    let t = base64_text(bytes);
    assert forall|j: int| 0 <= j < t.len() implies '\0' <= #[trigger] t[j] <= '\u{7f}' by {
        assert(t[j] == base64_char(bytes, j));
    }
    vstd::utf8::is_ascii_chars_encode_utf8(t);
}

/// The measurement, if there is one, of which `text` is the canonical form.
pub open spec fn parse_canonical(text: Seq<char>) -> Option<Seq<u8>> {
    if exists|b: Seq<u8>| b.len() == MEASUREMENT_LEN && #[trigger] base64_text(b) == text {
        Some(choose|b: Seq<u8>| b.len() == MEASUREMENT_LEN && #[trigger] base64_text(b) == text)
    } else {
        None
    }
}

/// Reading back the canonical form of a measurement gives the measurement.
pub proof fn lemma_canonical_round_trip(bytes: Seq<u8>)
    requires
        bytes.len() == MEASUREMENT_LEN,
    ensures
        parse_canonical(base64_text(bytes)) == Some(bytes),
{
    let text = base64_text(bytes);
    let found = choose|b: Seq<u8>| b.len() == MEASUREMENT_LEN && #[trigger] base64_text(b) == text;
    lemma_text_injective(found, bytes);
}

/// `base64::DecodeError`, the error of `base64::decode`. Nothing is read from it.
#[verifier::external_type_specification]
#[verifier::external_body]
pub struct ExDecodeError(base64::DecodeError);

/// Calls `base64::encode`, which writes its input in the standard alphabet
/// with padding. Believed, not proved: the text is `base64_text` of the
/// bytes. The call panics where the length of the text does not fit `usize`;
/// `requires` leaves those inputs out.
#[verifier::external_body]
fn encode_standard(bytes: &[u8]) -> (text: String)
    requires
        4 * (bytes@.len() / 3) + 4 <= usize::MAX,
    ensures
        text@ == base64_text(bytes@),
{
    base64::encode(bytes)
}

/// Calls `base64::decode`, which reads text in the standard alphabet.
/// Believed, not proved: on the padded base64 text of some bytes it returns
/// those bytes. Nothing is claimed of any other text. The call panics where
/// the length of the text, rounded up to its chunks, does not fit `usize`;
/// `requires` leaves those inputs out.
#[verifier::external_body]
fn decode_standard(text: &str) -> (r: Result<Vec<u8>, base64::DecodeError>)
    requires
        encode_utf8(text@).len() + 7 <= usize::MAX,
    ensures
        forall|b: Seq<u8>| #[trigger] base64_text(b) == text@ ==> r.is_ok() && r.unwrap()@ == b,
{
    base64::decode(text)
}

/// A measurement of an execution environment: thirty-two bytes.
#[derive(Clone, Copy, Debug, PartialEq, Eq)]
pub struct Measurement {
    pub bytes: [u8; MEASUREMENT_LEN],
}

impl View for Measurement {
    type V = Seq<u8>;

    open spec fn view(&self) -> Seq<u8> {
        self.bytes@
    }
}

impl Measurement {
    /// The measurement with these bytes.
    pub fn new(bytes: [u8; MEASUREMENT_LEN]) -> (m: Measurement)
        ensures
            m@ == bytes@,
    {
        Measurement { bytes }
    }

    /// The measurement held by a slice, if the slice has the length of one.
    pub fn from_slice(bytes: &[u8]) -> (r: Option<Measurement>)
        ensures
            bytes@.len() == MEASUREMENT_LEN ==> r.is_some() && r.unwrap()@ == bytes@,
            bytes@.len() != MEASUREMENT_LEN ==> r.is_none(),
    {
        if bytes.len() != MEASUREMENT_LEN {
            return None;
        }
        let mut buf = [0u8; MEASUREMENT_LEN];
        let mut i: usize = 0;
        while i < MEASUREMENT_LEN
            invariant
                bytes@.len() == MEASUREMENT_LEN,
                buf@.len() == MEASUREMENT_LEN,
                i <= MEASUREMENT_LEN,
                forall|k: int| 0 <= k < i ==> buf@[k] == bytes@[k],
            decreases MEASUREMENT_LEN - i,
        {
            buf[i] = bytes[i];
            i += 1;
        }
        let m = Measurement { bytes: buf };
        assert(m@ =~= bytes@);
        Some(m)
    }

    /// The bytes of the measurement.
    pub fn as_bytes(&self) -> (r: &[u8; MEASUREMENT_LEN])
        ensures
            r@ == self@,
    {
        &self.bytes
    }

    /// The canonical form of the measurement: the base64 text of its bytes.
    pub open spec fn canonical(self) -> Seq<char> {
        base64_text(self@)
    }

    /// Writes the measurement in its canonical form.
    pub fn to_canonical(&self) -> (text: String)
        ensures
            text@ == self.canonical(),
    {
        encode_standard(self.bytes.as_slice())
    }

    /// Reads a measurement from its canonical form. Any text that is not the
    /// canonical form of a measurement is refused.
    pub fn from_canonical(text: &str) -> (r: Option<Measurement>)
        ensures
            match r {
                Some(m) => parse_canonical(text@) == Some(m@),
                None => parse_canonical(text@).is_none(),
            },
    {
        proof {
            assert forall|b: Seq<u8>|
                b.len() == MEASUREMENT_LEN && #[trigger] base64_text(b) == text@ implies encode_utf8(
                text@,
            ).len() == CANONICAL_LEN by {
                lemma_text_is_ascii(b);
            }
        }
        if text.as_bytes().len() != CANONICAL_LEN {
            return None;
        }
        let decoded = match decode_standard(text) {
            Ok(v) => v,
            Err(_) => { return None; },
        };
        let m = match Measurement::from_slice(decoded.as_slice()) {
            Some(m) => m,
            None => { return None; },
        };
        let again = m.to_canonical();
        if again != text.to_owned() {
            return None;
        }
        proof {
            lemma_canonical_round_trip(m@);
        }
        Some(m)
    }
}

} // verus!
