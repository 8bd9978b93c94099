//! Text helpers: hexadecimal, UTF-8, decimal digits and searching.

use vstd::prelude::*;
use vstd::string::StringExecFns;

verus! {

/// The value of a hexadecimal digit of either case.
pub open spec fn hex_value(c: char) -> Option<int> {
    if '0' <= c <= '9' {
        Some(c as int - '0' as int)
    } else if 'a' <= c <= 'f' {
        Some(c as int - 'a' as int + 10)
    } else if 'A' <= c <= 'F' {
        Some(c as int - 'A' as int + 10)
    } else {
        None
    }
}

/// The lower case hexadecimal digit of a value below sixteen.
pub open spec fn hex_digit(v: int) -> char {
    if v < 10 {
        ('0' as int + v) as char
    } else {
        ('a' as int + v - 10) as char
    }
}

/// The text that writes each byte as two lower case digits, the high one first.
pub open spec fn hex_encoded(bytes: Seq<u8>) -> Seq<char> {
    Seq::new(
        2 * bytes.len(),
        |i: int|
            if i % 2 == 0 {
                hex_digit(bytes[i / 2] as int / 16)
            } else {
                hex_digit(bytes[i / 2] as int % 16)
            },
    )
}

/// The bytes that a hexadecimal text writes, two digits a byte; `None` where the number of
/// characters is odd or one of them is no digit.
pub open spec fn hex_decoded(text: Seq<char>) -> Option<Seq<u8>> {
    if text.len() % 2 == 0 && (forall|i: int|
        0 <= i < text.len() ==> hex_value(#[trigger] text[i]) is Some) {
        Some(
            Seq::new(
                text.len() / 2,
                |i: int| (16 * hex_value(text[2 * i])->0 + hex_value(text[2 * i + 1])->0) as u8,
            ),
        )
    } else {
        None
    }
}

/// The text whose UTF-8 bytes a hexadecimal text writes.
pub open spec fn hex_text(text: Seq<char>) -> Option<Seq<char>> {
    match hex_decoded(text) {
        Some(bytes) => if vstd::utf8::valid_utf8(bytes) {
            Some(vstd::utf8::decode_utf8(bytes))
        } else {
            None
        },
        None => None,
    }
}

/// The decimal digits of a number, without leading zeros.
pub open spec fn decimal_text(n: nat) -> Seq<char>
    decreases n,
{
    if n < 10 {
        seq![hex_digit(n as int)]
    } else {
        decimal_text(n / 10).push(hex_digit((n % 10) as int))
    }
}

/// Whether `part` stands somewhere in `text`.
pub open spec fn occurs_in(part: Seq<char>, text: Seq<char>) -> bool {
    exists|i: int|
        0 <= i <= text.len() - part.len() && #[trigger] text.subrange(i, i + part.len()) == part
}

/// `hex::encode`: two lower case digits for every byte, in the bytes' order.
#[verifier::external_body]
pub(crate) fn hex_encode(bytes: &[u8]) -> (r: String)
    ensures
        r@ == hex_encoded(bytes@),
{
    hex::encode(bytes)
}

/// `hex::decode`, with its error dropped: the bytes that the digits, of either case, write;
/// `None` for an odd number of characters or a character that is no digit. A character
/// outside ASCII is no digit either: none of its bytes is one.
#[verifier::external_body]
pub(crate) fn hex_decode(text: &str) -> (r: Option<Vec<u8>>)
    ensures
        match r {
            Some(bytes) => hex_decoded(text@) == Some(bytes@),
            None => hex_decoded(text@) is None,
        },
{
    hex::decode(text).ok()
}

/// `String::from_utf8`, with its error dropped: the text that valid UTF-8 encodes, `None` for
/// bytes that are not valid UTF-8.
#[verifier::external_body]
fn utf8_to_string(bytes: Vec<u8>) -> (r: Option<String>)
    ensures
        match r {
            Some(s) => vstd::utf8::valid_utf8(bytes@) && s@ == vstd::utf8::decode_utf8(bytes@),
            None => !vstd::utf8::valid_utf8(bytes@),
        },
{
    String::from_utf8(bytes).ok()
}

/// `str::contains` with a text as the pattern: whether the pattern matches a part of the text.
#[verifier::external_body]
pub(crate) fn contains(text: &str, part: &str) -> (r: bool)
    ensures
        r == occurs_in(part@, text@),
{
    text.contains(part)
}

/// Reads hexadecimal digits as the UTF-8 bytes of a text.
pub fn str_hex_to_utf8(s: &str) -> (r: Option<String>)
    ensures
        r.deep_view() == hex_text(s@),
{
    match hex_decode(s) {
        Some(bytes) => utf8_to_string(bytes),
        None => None,
    }
}

/// Whether two texts are the same.
pub(crate) fn same(a: &str, b: &str) -> (r: bool)
    ensures
        r == (a@ == b@),
{
    a.to_owned() == b.to_owned()
}

/// `a` and `b`, one behind the other.
pub(crate) fn join(a: &str, b: &str) -> (r: String)
    ensures
        r@ == a@ + b@,
{
    let mut s: String = a.to_owned();
    s.append(b);
    s
}

/// `a`, `b` and `c`, one behind the other.
pub(crate) fn join3(a: &str, b: &str, c: &str) -> (r: String)
    ensures
        r@ == a@ + b@ + c@,
{
    let mut s: String = join(a, b);
    s.append(c);
    s
}

fn digit_str(d: u8) -> (r: &'static str)
    requires
        d < 10,
    ensures
        r@ == seq![hex_digit(d as int)],
{
    proof {
        reveal_strlit("0");
        reveal_strlit("1");
        reveal_strlit("2");
        reveal_strlit("3");
        reveal_strlit("4");
        reveal_strlit("5");
        reveal_strlit("6");
        reveal_strlit("7");
        reveal_strlit("8");
        reveal_strlit("9");
    }
    match d {
        0 => "0",
        1 => "1",
        2 => "2",
        3 => "3",
        4 => "4",
        5 => "5",
        6 => "6",
        7 => "7",
        8 => "8",
        _ => "9",
    }
}

/// Writes a number in decimal.
pub(crate) fn decimal(n: u8) -> (r: String)
    ensures
        r@ == decimal_text(n as nat),
    decreases n,
{
    if n < 10 {
        digit_str(n).to_owned()
    } else {
        let mut s: String = decimal(n / 10);
        s.append(digit_str(n % 10));
        assert(s@ =~= decimal_text(n as nat));
        s
    }
}

/// Decoding gives back the bytes that were encoded.
pub proof fn hex_round_trip(bytes: Seq<u8>)
    ensures
        hex_decoded(hex_encoded(bytes)) == Some(bytes),
{
    let text = hex_encoded(bytes);
    assert forall|i: int| 0 <= i < text.len() implies hex_value(#[trigger] text[i]) == Some(
        if i % 2 == 0 {
            bytes[i / 2] as int / 16
        } else {
            bytes[i / 2] as int % 16
        },
    ) by {}
    assert(hex_decoded(text)->0 =~= bytes) by {
        assert forall|i: int| 0 <= i < bytes.len() implies (16 * hex_value(text[2 * i])->0
            + hex_value(text[2 * i + 1])->0) as u8 == bytes[i] by {
            assert((2 * i) % 2 == 0 && (2 * i) / 2 == i);
            assert((2 * i + 1) % 2 == 1 && (2 * i + 1) / 2 == i);
        }
    }
}

/// A text sent as the hexadecimal digits of its UTF-8 bytes is read back as the same text.
pub proof fn hex_text_round_trip(text: Seq<char>)
    ensures
        hex_text(hex_encoded(vstd::utf8::encode_utf8(text))) == Some(text),
{
    hex_round_trip(vstd::utf8::encode_utf8(text));
    vstd::utf8::encode_utf8_valid_utf8(text);
    vstd::utf8::encode_utf8_decode_utf8(text);
}

/// The number that decimal digits write, the highest first.
pub open spec fn digits_value(digits: Seq<char>) -> nat
    decreases digits.len(),
{
    if digits.len() == 0 {
        0
    } else {
        10 * digits_value(digits.drop_last()) + (digits.last() as nat - '0' as nat) as nat
    }
}

/// The decimal text of a number is made of digits, writes that number, and begins with zero only
/// where the number is zero.
pub proof fn decimal_reads_back(n: nat)
    ensures
        decimal_text(n).len() > 0,
        forall|i: int|
            0 <= i < decimal_text(n).len() ==> '0' <= #[trigger] decimal_text(n)[i] <= '9',
        digits_value(decimal_text(n)) == n,
        n > 0 ==> decimal_text(n)[0] != '0',
        n == 0 ==> decimal_text(n).len() == 1,
    decreases n,
{
    let text = decimal_text(n);
    if n < 10 {
        assert(text.drop_last() =~= Seq::empty());
        assert(digits_value(Seq::empty()) == 0);
    } else {
        let high = decimal_text(n / 10);
        decimal_reads_back(n / 10);
        assert(text.drop_last() =~= high);
        assert forall|i: int| 0 <= i < text.len() implies '0' <= #[trigger] text[i] <= '9' by {
            if i < high.len() {
                assert(text[i] == high[i]);
            }
        }
        assert(text[0] == high[0]);
    }
}

/// Hexadecimal digits give a text exactly where they write bytes that are UTF-8, and then it is the
/// text of these bytes.
pub proof fn hex_text_of_utf8(digits: Seq<char>, bytes: Seq<u8>)
    ensures
        hex_decoded(digits) is None ==> hex_text(digits) is None,
        hex_decoded(digits) == Some(bytes) ==> hex_text(digits) == if vstd::utf8::valid_utf8(
            bytes,
        ) {
            Some(vstd::utf8::decode_utf8(bytes))
        } else {
            None
        },
{
}

} // verus!
