//! Text building blocks: decimal and hexadecimal numerals, and the conversion
//! of bytes that come from C strings.
use vstd::prelude::*;
use vstd::string::*;
use vstd::utf8::{decode_utf8, valid_utf8};

verus! {

/// `String::push` appends the given character to the end of the string.
pub assume_specification[ String::push ](s: &mut String, ch: char)
    ensures
        final(s)@ == old(s)@.push(ch),
;

/// The numeral of one digit, `0` to `9`, then `a` to `f`.
pub open spec fn digit(d: int) -> char {
    if d < 10 {
        ('0' as int + d) as char
    } else {
        ('a' as int + d - 10) as char
    }
}

/// The numeral of one digit, `0` to `9`, then `A` to `F`.
pub open spec fn upper_digit(d: int) -> char {
    if d < 10 {
        ('0' as int + d) as char
    } else {
        ('A' as int + d - 10) as char
    }
}

/// The decimal numeral of a natural number, without leading zeros.
pub open spec fn decimal_nat(n: nat) -> Seq<char>
    decreases n,
{
    if n < 10 {
        seq![digit(n as int)]
    } else {
        decimal_nat(n / 10).push(digit((n % 10) as int))
    }
}

/// The decimal numeral of an integer, with a minus sign where it is negative.
pub open spec fn decimal(n: int) -> Seq<char> {
    if n < 0 {
        seq!['-'] + decimal_nat((-n) as nat)
    } else {
        decimal_nat(n as nat)
    }
}

/// The two hexadecimal digits of a byte in lower case.
pub open spec fn hex(code: u8) -> Seq<char> {
    seq![digit(code as int / 16), digit(code as int % 16)]
}

/// The two hexadecimal digits of a byte in upper case.
pub open spec fn upper_hex(code: u8) -> Seq<char> {
    seq![upper_digit(code as int / 16), upper_digit(code as int % 16)]
}

fn digit_char(d: u8) -> (c: char)
    requires
        d < 16,
    ensures
        c == digit(d as int),
{
    if d < 10 {
        (48 + d) as char
    } else {
        (87 + d) as char
    }
}

fn upper_digit_char(d: u8) -> (c: char)
    requires
        d < 16,
    ensures
        c == upper_digit(d as int),
{
    if d < 10 {
        (48 + d) as char
    } else {
        (55 + d) as char
    }
}

fn push_decimal_nat(out: &mut String, n: u64)
    ensures
        final(out)@ == old(out)@ + decimal_nat(n as nat),
    decreases n,
{
    if n >= 10 {
        push_decimal_nat(out, n / 10);
    }
    out.push(digit_char((n % 10) as u8));
}

/// Formats an integer in decimal.
pub fn decimal_text(n: i64) -> (res: String)
    ensures
        res@ == decimal(n as int),
{
    let mut out = String::new();
    if n < 0 {
        out.push('-');
        let magnitude: u64 = (-(n + 1)) as u64 + 1;
        push_decimal_nat(&mut out, magnitude);
    } else {
        push_decimal_nat(&mut out, n as u64);
    }
    out
}

/// Formats a byte as two hexadecimal digits in lower case.
pub fn hex_text(code: u8) -> (res: String)
    ensures
        res@ == hex(code),
{
    let mut out = String::new();
    out.push(digit_char(code / 16));
    out.push(digit_char(code % 16));
    out
}

/// Formats a byte as two hexadecimal digits in upper case.
pub fn upper_hex_text(code: u8) -> (res: String)
    ensures
        res@ == upper_hex(code),
{
    let mut out = String::new();
    out.push(upper_digit_char(code / 16));
    out.push(upper_digit_char(code % 16));
    out
}

/// Two bytes with the same hexadecimal digits are the same byte.
pub proof fn upper_hex_is_injective(a: u8, b: u8)
    ensures
        upper_hex(a) == upper_hex(b) ==> a == b,
{
    if upper_hex(a) == upper_hex(b) {
        assert(upper_hex(a)[0] == upper_hex(b)[0]);
        assert(upper_hex(a)[1] == upper_hex(b)[1]);
    }
}

/// Collects the characters of a string.
pub fn chars_of(s: &str) -> (res: Vec<char>)
    ensures
        res@ == s@,
{
    let mut out: Vec<char> = Vec::new();
    for c in it: s.chars()
        invariant
            out@ == it.seq().take(it.index() as int),
            it.seq() == s@,
    {
        out.push(c);
    }
    out
}

/// Tells whether `text` begins with `prefix`, character by character.
pub fn has_prefix(text: &str, prefix: &str) -> (res: bool)
    ensures
        res == prefix@.is_prefix_of(text@),
{
    let t = chars_of(text);
    let p = chars_of(prefix);
    if p.len() > t.len() {
        return false;
    }
    for i in 0..p.len()
        invariant
            p.len() <= t.len(),
            p@ == prefix@,
            t@ == text@,
            forall|j: int| 0 <= j < i ==> p@[j] == t@[j],
    {
        if p[i] != t[i] {
            return false;
        }
    }
    assert(prefix@ =~= text@.subrange(0, prefix@.len() as int));
    true
}

/// The text of a byte string in which what is no valid UTF-8 is replaced.
pub uninterp spec fn utf8_lossy(bytes: Seq<u8>) -> Seq<char>;

/// `String::from_utf8_lossy` decodes bytes that are valid UTF-8 as they stand;
/// of others the result is named only (each invalid sequence is replaced by
/// U+FFFD).
#[verifier::external_body]
pub(crate) fn lossy_text(bytes: &[u8]) -> (res: String)
    ensures
        res@ == utf8_lossy(bytes@),
        valid_utf8(bytes@) ==> res@ == decode_utf8(bytes@),
{
    String::from_utf8_lossy(bytes).into_owned()
}

/// `std::str::from_utf8` succeeds exactly on valid UTF-8, and then gives the
/// decoded text.
#[verifier::external_body]
pub(crate) fn strict_text(bytes: &[u8]) -> (res: Option<String>)
    ensures
        res is Some <==> valid_utf8(bytes@),
        res matches Some(text) ==> text@ == decode_utf8(bytes@),
{
    std::str::from_utf8(bytes).ok().map(|text| text.to_owned())
}

/// The text of a string in Rust's `Debug` notation.
pub uninterp spec fn debug_notation(s: Seq<char>) -> Seq<char>;

/// A character of the Base64 alphabet, or its padding character.
pub open spec fn is_base64_char(c: char) -> bool {
    ||| 'A' <= c <= 'Z'
    ||| 'a' <= c <= 'z'
    ||| '0' <= c <= '9'
    ||| c == '+'
    ||| c == '/'
    ||| c == '='
}

/// Formatting with `{:?}` puts a string between double quotes; Base64 text has
/// nothing to escape. Of other text the result is named only.
#[verifier::external_body]
pub(crate) fn debug_text(s: &str) -> (res: String)
    ensures
        res@ == debug_notation(s@),
        (forall|i: int| 0 <= i < s@.len() ==> is_base64_char(s@[i])) ==> res@ == seq!['"'] + s@
            + seq!['"'],
{
    format!("{:?}", s)
}

/// The lower case equivalent of a text.
pub uninterp spec fn lowercase(s: Seq<char>) -> Seq<char>;

/// `str::to_lowercase` maps the ASCII capitals to the small letters and keeps
/// all other ASCII characters. Of other text the result is named only.
#[verifier::external_body]
pub(crate) fn lowercase_text(s: &str) -> (res: String)
    ensures
        res@ == lowercase(s@),
        s.is_ascii() ==> res@ == s@.map_values(|c: char| ascii_lower(c)),
{
    s.to_lowercase()
}

/// The small letter of an ASCII capital; any other character as it is.
pub open spec fn ascii_lower(c: char) -> char {
    if 'A' <= c <= 'Z' {
        (c as int + 32) as char
    } else {
        c
    }
}

/// An optional text as what it holds.
pub open spec fn opt_view(s: Option<String>) -> Option<Seq<char>> {
    match s {
        Some(s) => Some(s@),
        None => None,
    }
}

/// What stands before the first zero byte; the whole where there is none.
pub open spec fn until_nul(bytes: Seq<u8>) -> Seq<u8> {
    match bytes.index_of_first(0u8) {
        Some(end) => bytes.take(end),
        None => bytes,
    }
}

/// The text of a C string that fills a field of fixed size.
pub open spec fn field_text(bytes: Seq<u8>) -> Seq<char> {
    utf8_lossy(until_nul(bytes)).map_values(|c: char| visible(c))
}

/// A question mark in place of the zero character.
pub open spec fn visible(c: char) -> char {
    if c == '\0' {
        '?'
    } else {
        c
    }
}

/// The text of a C string; the default where the pointer was null.
pub open spec fn c_text(bytes: Option<Vec<u8>>, default: Seq<char>) -> Seq<char> {
    match bytes {
        Some(bytes) => utf8_lossy(bytes@),
        None => default,
    }
}

/// Converts the bytes of a nullable C string, without the terminating zero, to
/// text. A null pointer, `None`, gives the default.
pub fn c_ptr_to_string(bytes: &Option<Vec<u8>>, default: &str) -> (res: String)
    ensures
        res@ == c_text(*bytes, default@),
        *bytes matches Some(b) ==> valid_utf8(b@) ==> res@ == decode_utf8(b@),
{
    match bytes {
        Some(bytes) => lossy_text(bytes.as_slice()),
        None => default.to_owned(),
    }
}

/// Converts a field of fixed size that holds a C string to text. The string
/// ends before the first zero byte, or with the field.
pub fn cstr_from_fixed_array<const N: usize>(arr: &[u8; N]) -> (res: String)
    ensures
        res@ == field_text(arr@),
        valid_utf8(until_nul(arr@)) ==> res@ == decode_utf8(until_nul(arr@)).map_values(
            |c: char| visible(c),
        ),
{
    let mut bytes: Vec<u8> = Vec::new();
    let mut len: usize = 0;
    while len < N && arr[len] != 0
        invariant
            len <= N,
            bytes@ == arr@.take(len as int),
            forall|j: int| 0 <= j < len ==> arr@[j] != 0,
        decreases N - len,
    {
        bytes.push(arr[len]);
        len += 1;
    }
    proof {
        let found = arr@.index_of_first(0u8);
        arr@.index_of_first_ensures(0u8);
        if len < N {
            assert(arr@.contains(arr@[len as int]));
            assert(found == Some(len as int));
        } else {
            assert(found is None);
            assert(arr@.take(len as int) =~= arr@);
        }
        assert(bytes@ == until_nul(arr@));
    }
    let chars = chars_of(lossy_text(bytes.as_slice()).as_str());
    let mut out = String::new();
    for i in 0..chars.len()
        invariant
            out@ == chars@.take(i as int).map_values(|c: char| visible(c)),
    {
        let c = chars[i];
        out.push(if c == '\0' { '?' } else { c });
        assert(out@ =~= chars@.take(i + 1).map_values(|c: char| visible(c)));
    }
    assert(chars@.take(chars@.len() as int) =~= chars@);
    out
}

} // verus!
