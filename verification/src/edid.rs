//! The EDID of a display: its Base64 text, by which displays are told apart,
//! and the serial number it holds.
use crate::text::is_base64_char;
use base64::Engine;
use vstd::arithmetic::div_mod::lemma_fundamental_div_mod_converse;
use vstd::prelude::*;

verus! {

/// The character of the standard Base64 alphabet for a value below 64.
pub open spec fn base64_digit(value: int) -> char {
    if value < 26 {
        ('A' as int + value) as char
    } else if value < 52 {
        ('a' as int + value - 26) as char
    } else if value < 62 {
        ('0' as int + value - 52) as char
    } else if value == 62 {
        '+'
    } else {
        '/'
    }
}

/// The six bits of a byte string that begin at bit `6 * i`; bits beyond the end
/// are zero.
pub open spec fn sextet(bytes: Seq<u8>, i: int) -> int {
    let at = 6 * i / 8;
    let next = if at + 1 < bytes.len() { bytes[at + 1] as int } else { 0 };
    let pair = bytes[at] as int * 256 + next;
    let bit = 6 * i % 8;
    if bit == 0 {
        pair / 1024
    } else if bit == 2 {
        pair / 256 % 64
    } else if bit == 4 {
        pair / 64 % 64
    } else {
        pair / 16 % 64
    }
}

/// The Base64 text of a byte string: the standard alphabet, padded with `=` to
/// a multiple of four characters.
pub open spec fn base64_text(bytes: Seq<u8>) -> Seq<char> {
    Seq::new(
        4 * ((bytes.len() + 2) / 3),
        |i: int|
            if 6 * i < 8 * bytes.len() {
                base64_digit(sextet(bytes, i))
            } else {
                '='
            },
    )
}

/// `base64::engine::general_purpose::STANDARD.encode` gives the Base64 text of
/// its input with the standard alphabet and padding.
#[verifier::external_body]
pub(crate) fn encode_base64(bytes: &[u8; 128]) -> (res: String)
    ensures
        res@ == base64_text(bytes@),
{
    base64::engine::general_purpose::STANDARD.encode(bytes)
}

/// The 32-bit serial number of an EDID: bytes 12 to 15, least significant byte
/// first.
pub open spec fn serial_number(edid: Seq<u8>) -> int {
    edid[12] + 0x100 * edid[13] + 0x1_0000 * edid[14] + 0x100_0000 * edid[15]
}

/// Reads the serial number out of an EDID.
pub fn edid_serial_number(edid: &[u8; 128]) -> (res: u32)
    ensures
        res == serial_number(edid@),
{
    edid[12] as u32 + 0x100 * edid[13] as u32 + 0x1_0000 * edid[14] as u32 + 0x100_0000
        * edid[15] as u32
}

/// Base64 text holds characters of the Base64 alphabet only.
pub proof fn base64_text_is_plain(bytes: Seq<u8>)
    ensures
        forall|i: int|
            0 <= i < base64_text(bytes).len() ==> is_base64_char(
                #[trigger] base64_text(bytes)[i],
            ),
{
    assert forall|i: int| 0 <= i < base64_text(bytes).len() implies is_base64_char(
        #[trigger] base64_text(bytes)[i],
    ) by {
        if 6 * i < 8 * bytes.len() {
            sextet_range(bytes, i);
        }
    }
}

proof fn sextet_range(bytes: Seq<u8>, i: int)
    requires
        0 <= i,
        6 * i < 8 * bytes.len(),
    ensures
        0 <= sextet(bytes, i) < 64,
{
}

proof fn base64_digit_is_injective(a: int, b: int)
    requires
        0 <= a < 64,
        0 <= b < 64,
        base64_digit(a) == base64_digit(b),
    ensures
        a == b,
{
}

/// What the groups of six bits within two bytes hold of either byte.
proof fn pair_bits(first: int, second: int)
    requires
        0 <= first < 256,
        0 <= second < 256,
    ensures
        (first * 256 + second) / 1024 == first / 4,
        (first * 256 + second) / 16 % 64 == (first % 4) * 16 + second / 16,
        (first * 256 + second) / 64 % 64 == (first % 16) * 4 + second / 64,
        (first * 256 + second) / 256 % 64 == first % 64,
{
    let pair = first * 256 + second;
    let (high2, low2) = (first / 4, first % 4);
    let (high4, low4) = (first / 16, first % 16);
    let (upper4, lower4) = (second / 16, second % 16);
    let (upper2, lower6) = (second / 64, second % 64);
    lemma_fundamental_div_mod_converse(pair, 1024, high2, low2 * 256 + second);
    lemma_fundamental_div_mod_converse(pair, 16, first * 16 + upper4, lower4);
    lemma_fundamental_div_mod_converse(first * 16 + upper4, 64, high2, low2 * 16 + upper4);
    lemma_fundamental_div_mod_converse(pair, 64, first * 4 + upper2, lower6);
    lemma_fundamental_div_mod_converse(first * 4 + upper2, 64, high4, low4 * 4 + upper2);
    lemma_fundamental_div_mod_converse(pair, 256, first, second);
}

/// The byte at a position, zero beyond the end.
spec fn byte_or_zero(bytes: Seq<u8>, k: int) -> int {
    if k < bytes.len() {
        bytes[k] as int
    } else {
        0
    }
}

/// The four groups of six bits that three bytes make.
proof fn sextets_of_group(bytes: Seq<u8>, q: int)
    requires
        0 <= q,
        3 * q < bytes.len(),
    ensures
        sextet(bytes, 4 * q) == bytes[3 * q] as int / 4,
        sextet(bytes, 4 * q + 1) == (bytes[3 * q] as int % 4) * 16 + byte_or_zero(bytes, 3 * q + 1)
            / 16,
        3 * q + 1 < bytes.len() ==> sextet(bytes, 4 * q + 2) == (bytes[3 * q + 1] as int % 16) * 4
            + byte_or_zero(bytes, 3 * q + 2) / 64,
        3 * q + 2 < bytes.len() ==> sextet(bytes, 4 * q + 3) == bytes[3 * q + 2] as int % 64,
{
    let b0 = bytes[3 * q] as int;
    let b1 = byte_or_zero(bytes, 3 * q + 1);
    let b2 = byte_or_zero(bytes, 3 * q + 2);
    let b3 = byte_or_zero(bytes, 3 * q + 3);
    pair_bits(b0, b1);
    pair_bits(b1, b2);
    pair_bits(b2, b3);
    assert(6 * (4 * q) / 8 == 3 * q && 6 * (4 * q) % 8 == 0);
    assert(6 * (4 * q + 1) / 8 == 3 * q && 6 * (4 * q + 1) % 8 == 6);
    assert(6 * (4 * q + 2) / 8 == 3 * q + 1 && 6 * (4 * q + 2) % 8 == 4);
    assert(6 * (4 * q + 3) / 8 == 3 * q + 2 && 6 * (4 * q + 3) % 8 == 2);
}

/// A digit of the text that is not padding tells its six bits.
proof fn same_digit_same_sextet(a: Seq<u8>, b: Seq<u8>, i: int)
    requires
        a.len() == b.len(),
        base64_text(a) == base64_text(b),
        0 <= i,
        6 * i < 8 * a.len(),
    ensures
        sextet(a, i) == sextet(b, i),
{
    assert(i < 4 * ((a.len() + 2) / 3));
    assert(base64_text(a)[i] == base64_digit(sextet(a, i)));
    assert(base64_text(b)[i] == base64_digit(sextet(b, i)));
    sextet_range(a, i);
    sextet_range(b, i);
    base64_digit_is_injective(sextet(a, i), sextet(b, i));
}

/// Two EDIDs, or any two byte strings of one length, with the same Base64 text
/// are equal: the text identifies a display as well as the EDID does.
pub proof fn base64_text_is_injective(a: Seq<u8>, b: Seq<u8>)
    requires
        a.len() == b.len(),
        base64_text(a) == base64_text(b),
    ensures
        a == b,
{
    assert forall|k: int| 0 <= k < a.len() implies a[k] == b[k] by {
        let q = k / 3;
        let r = k % 3;
        same_digit_same_sextet(a, b, 4 * q + r);
        same_digit_same_sextet(a, b, 4 * q + r + 1);
        sextets_of_group(a, q);
        sextets_of_group(b, q);
        if r == 0 {
            let (low_a, low_b) = (byte_or_zero(a, k + 1) / 16, byte_or_zero(b, k + 1) / 16);
            assert(a[k] as int % 4 * 16 + low_a == b[k] as int % 4 * 16 + low_b);
            assert(0 <= low_a < 16 && 0 <= low_b < 16);
            assert(a[k] as int / 4 == b[k] as int / 4);
        } else if r == 1 {
            let (low_a, low_b) = (byte_or_zero(a, k + 1) / 64, byte_or_zero(b, k + 1) / 64);
            let (high_a, high_b) = (a[k - 1] as int % 4, b[k - 1] as int % 4);
            assert(high_a * 16 + a[k] as int / 16 == high_b * 16 + b[k] as int / 16);
            assert(a[k] as int % 16 * 4 + low_a == b[k] as int % 16 * 4 + low_b);
            assert(0 <= low_a < 4 && 0 <= low_b < 4);
        } else {
            let (high_a, high_b) = (a[k - 1] as int % 16, b[k - 1] as int % 16);
            assert(high_a * 4 + a[k] as int / 64 == high_b * 4 + b[k] as int / 64);
            assert(a[k] as int % 64 == b[k] as int % 64);
        }
    }
    assert(a =~= b);
}

} // verus!
