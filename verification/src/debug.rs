//! Texts for diagnostics, in which key material stands in hexadecimal.
use vstd::prelude::*;
use vstd::string::{StrSliceExecFns, StringExecFns};

verus! {

/// The hexadecimal digit for `n`, in lower case.
pub open spec fn hex_digit(n: int) -> char {
    if n < 10 {
        ('0' as int + n) as char
    } else {
        ('a' as int + (n - 10)) as char
    }
}

/// Two hexadecimal digits for each byte, the more significant one first.
pub open spec fn hex_text(bytes: Seq<u8>) -> Seq<char> {
    Seq::new(
        2 * bytes.len(),
        |i: int|
            if i % 2 == 0 {
                hex_digit(bytes[i / 2] as int / 16)
            } else {
                hex_digit(bytes[i / 2] as int % 16)
            },
    )
}

/// A value with one unnamed field, which is a byte string.
pub open spec fn tuple_text(name: Seq<char>, bytes: Seq<u8>) -> Seq<char> {
    name + "(\""@ + hex_text(bytes) + "\")"@
}

/// A value with two named fields, which are byte strings.
pub open spec fn pair_text(
    name: Seq<char>,
    first_name: Seq<char>,
    first: Seq<u8>,
    second_name: Seq<char>,
    second: Seq<u8>,
) -> Seq<char> {
    name + " { "@ + first_name + ": \""@ + hex_text(first) + "\", "@ + second_name + ": \""@
        + hex_text(second) + "\" }"@
}

/// The decimal digit for `n`.
pub open spec fn decimal_digit(n: int) -> char {
    ('0' as int + n) as char
}

/// A byte in decimal, without leading zeros.
pub open spec fn decimal_text(byte: u8) -> Seq<char> {
    let n = byte as int;
    if n < 10 {
        seq![decimal_digit(n)]
    } else if n < 100 {
        seq![decimal_digit(n / 10), decimal_digit(n % 10)]
    } else {
        seq![decimal_digit(n / 100), decimal_digit(n / 10 % 10), decimal_digit(n % 10)]
    }
}

/// Bytes in decimal, with a comma and a space between two of them.
pub open spec fn items_text(bytes: Seq<u8>) -> Seq<char>
    decreases bytes.len(),
{
    if bytes.len() == 0 {
        Seq::empty()
    } else if bytes.len() == 1 {
        decimal_text(bytes[0])
    } else {
        items_text(bytes.drop_last()) + ", "@ + decimal_text(bytes.last())
    }
}

/// A list of bytes in decimal.
pub open spec fn list_text(bytes: Seq<u8>) -> Seq<char> {
    "["@ + items_text(bytes) + "]"@
}

/// Each byte has two characters of its own, which are the digits of its quotient
/// and its remainder by sixteen; and the texts of two byte strings put together
/// are the text of the two.
pub proof fn law_hex_text(byte: u8, a: Seq<u8>, b: Seq<u8>)
    ensures
        hex_text(seq![byte]).len() == 2,
        hex_text(seq![byte])[0] == "0123456789abcdef"@[byte as int / 16],
        hex_text(seq![byte])[1] == "0123456789abcdef"@[byte as int % 16],
        hex_text(a + b) == hex_text(a) + hex_text(b),
{
    reveal_strlit("0123456789abcdef");
    let n = byte as int;
    assert(0 <= n / 16 < 16 && 0 <= n % 16 < 16);
    assert(hex_text(a + b) =~= hex_text(a) + hex_text(b));
}

/// The decimal text of a byte consists of one to three digits, does not start
/// with a superfluous zero, and has the byte for its value.
pub proof fn law_decimal_text(byte: u8)
    ensures
        1 <= decimal_text(byte).len() <= 3,
        forall|i: int|
            0 <= i < decimal_text(byte).len() ==> '0' <= #[trigger] decimal_text(byte)[i] <= '9',
        decimal_text(byte).len() > 1 ==> decimal_text(byte)[0] != '0',
        decimal_text(byte).len() == 1 ==> decimal_text(byte)[0] as int - '0' as int == byte,
        decimal_text(byte).len() == 2 ==> 10 * (decimal_text(byte)[0] as int - '0' as int) + (
        decimal_text(byte)[1] as int - '0' as int) == byte,
        decimal_text(byte).len() == 3 ==> 100 * (decimal_text(byte)[0] as int - '0' as int) + 10 * (
        decimal_text(byte)[1] as int - '0' as int) + (decimal_text(byte)[2] as int - '0' as int)
            == byte,
{
}

/// A single byte is written in decimal, and between the items of two byte strings
/// stand a comma and a space.
pub proof fn law_items_text(byte: u8, a: Seq<u8>, b: Seq<u8>)
    requires
        a.len() > 0,
        b.len() > 0,
    ensures
        items_text(Seq::empty()) == Seq::<char>::empty(),
        items_text(seq![byte]) == decimal_text(byte),
        items_text(a + b) == items_text(a) + ", "@ + items_text(b),
    decreases b.len(),
{
    if b.len() == 1 {
        assert((a + b).drop_last() =~= a);
        assert((a + b).last() == b[0]);
    } else {
        law_items_text(byte, a, b.drop_last());
        assert((a + b).drop_last() =~= a + b.drop_last());
        assert(items_text(a + b) =~= items_text(a) + ", "@ + items_text(b));
    }
}

/// Writes bytes in hexadecimal.
///
/// Calls `hex::encode`. Claimed: the text has two lower-case digits for each
/// byte, the more significant one first.
#[verifier::external_body]
fn hex_encode(bytes: &[u8]) -> (text: String)
    ensures
        text@ == hex_text(bytes@),
{
    hex::encode(bytes)
}

/// Writes a value with one unnamed field.
pub fn debug_tuple(name: &str, bytes: &[u8]) -> (text: String)
    ensures
        text@ == tuple_text(name@, bytes@),
        text@ == name@ + "(\""@ + hex_text(bytes@) + "\")"@,
{
    let mut text = name.to_owned();
    text.append("(\"");
    text.append(hex_encode(bytes).as_str());
    text.append("\")");
    text
}

/// Writes a value with two named fields.
pub fn debug_pair(
    name: &str,
    first_name: &str,
    first: &[u8],
    second_name: &str,
    second: &[u8],
) -> (text: String)
    ensures
        text@ == pair_text(name@, first_name@, first@, second_name@, second@),
        text@ == name@ + " { "@ + first_name@ + ": \""@ + hex_text(first@) + "\", "@
            + second_name@ + ": \""@ + hex_text(second@) + "\" }"@,
{
    let mut text = name.to_owned();
    text.append(" { ");
    text.append(first_name);
    text.append(": \"");
    text.append(hex_encode(first).as_str());
    text.append("\", ");
    text.append(second_name);
    text.append(": \"");
    text.append(hex_encode(second).as_str());
    text.append("\" }");
    text
}

/// Appends a decimal digit.
fn append_digit(text: &mut String, digit: u8)
    requires
        digit < 10,
    ensures
        final(text)@ == old(text)@.push(decimal_digit(digit as int)),
{
    proof {
        reveal_strlit("0123456789");
    }
    let start: usize = digit as usize;
    text.append("0123456789".substring_ascii(start, start + 1));
    assert(text@ =~= old(text)@.push(decimal_digit(digit as int)));
}

/// Appends a byte in decimal.
fn append_decimal(text: &mut String, byte: u8)
    ensures
        final(text)@ == old(text)@ + decimal_text(byte),
{
    if byte >= 100 {
        append_digit(text, byte / 100);
    }
    if byte >= 10 {
        append_digit(text, byte / 10 % 10);
    }
    append_digit(text, byte % 10);
    assert(text@ =~= old(text)@ + decimal_text(byte));
}

/// Writes a list of bytes in decimal.
pub fn debug_list(bytes: &[u8]) -> (text: String)
    ensures
        text@ == list_text(bytes@),
        text@ == "["@ + items_text(bytes@) + "]"@,
{
    let mut text = "[".to_owned();
    let mut i: usize = 0;
    assert(text@ =~= "["@ + items_text(bytes@.take(0)));
    while i < bytes.len()
        invariant
            i <= bytes@.len(),
            text@ == "["@ + items_text(bytes@.take(i as int)),
        decreases bytes@.len() - i,
    {
        if i > 0 {
            text.append(", ");
        }
        append_decimal(&mut text, bytes[i]);
        proof {
            let next = bytes@.take(i + 1);
            assert(next.drop_last() =~= bytes@.take(i as int));
            assert(text@ =~= "["@ + items_text(next));
        }
        i = i + 1;
    }
    assert(bytes@.take(i as int) =~= bytes@);
    text.append("]");
    text
}

} // verus!
