//! Base 32: byte strings regrouped into five-bit digits, and back.
//!
//! The regrouping is that of the `bech32` crate. Bits are counted from the most
//! significant bit of the first element.
use bech32::{CheckBase32, FromBase32, ToBase32};
use vstd::prelude::*;

verus! {

/// Whether every element of `digits` fits in five bits.
pub open spec fn are_digits(digits: Seq<u8>) -> bool {
    forall|k: int| 0 <= k < digits.len() ==> #[trigger] digits[k] < 32
}

/// Bit `i` of a byte string, which is zero past its end.
#[verifier::opaque]
pub open spec fn byte_bit(bytes: Seq<u8>, i: int) -> u8 {
    if 0 <= i < 8 * bytes.len() {
        (bytes[i / 8] >> ((7 - i % 8) as u8)) & 1
    } else {
        0
    }
}

/// Bit `i` of a string of five-bit digits.
#[verifier::opaque]
pub open spec fn digit_bit(digits: Seq<u8>, i: int) -> u8 {
    (digits[i / 5] >> ((4 - i % 5) as u8)) & 1
}

/// The digit made of five bits, most significant first.
pub open spec fn digit_of_bits(b0: u8, b1: u8, b2: u8, b3: u8, b4: u8) -> u8 {
    (b0 << 4) | (b1 << 3) | (b2 << 2) | (b3 << 1) | b4
}

/// The byte made of eight bits, most significant first.
pub open spec fn byte_of_bits(
    b0: u8,
    b1: u8,
    b2: u8,
    b3: u8,
    b4: u8,
    b5: u8,
    b6: u8,
    b7: u8,
) -> u8 {
    (b0 << 7) | (b1 << 6) | (b2 << 5) | (b3 << 4) | (b4 << 3) | (b5 << 2) | (b6 << 1) | b7
}

/// Digit `k` of a byte string in base 32.
pub open spec fn base32_digit(bytes: Seq<u8>, k: int) -> u8 {
    digit_of_bits(
        byte_bit(bytes, 5 * k),
        byte_bit(bytes, 5 * k + 1),
        byte_bit(bytes, 5 * k + 2),
        byte_bit(bytes, 5 * k + 3),
        byte_bit(bytes, 5 * k + 4),
    )
}

/// Byte `k` of what a string of digits stands for.
pub open spec fn base32_byte(digits: Seq<u8>, k: int) -> u8 {
    byte_of_bits(
        digit_bit(digits, 8 * k),
        digit_bit(digits, 8 * k + 1),
        digit_bit(digits, 8 * k + 2),
        digit_bit(digits, 8 * k + 3),
        digit_bit(digits, 8 * k + 4),
        digit_bit(digits, 8 * k + 5),
        digit_bit(digits, 8 * k + 6),
        digit_bit(digits, 8 * k + 7),
    )
}

/// A byte string in base 32: as many digits as its bits need, the last one
/// filled up with zeros.
#[verifier::opaque]
pub open spec fn base32_digits(bytes: Seq<u8>) -> Seq<u8> {
    Seq::new(((8 * bytes.len() + 4) / 5) as nat, |k: int| base32_digit(bytes, k))
}

/// Whether the bits after the last whole byte are a filling: less than a digit,
/// and all zero.
pub open spec fn has_valid_padding(digits: Seq<u8>) -> bool {
    let bits = 5 * digits.len();
    &&& bits % 8 < 5
    &&& forall|i: int| bits - bits % 8 <= i < bits ==> #[trigger] digit_bit(digits, i) == 0
}

/// The byte string that a string of digits stands for, if its padding is valid.
pub open spec fn base32_bytes(digits: Seq<u8>) -> Option<Seq<u8>> {
    if has_valid_padding(digits) {
        Some(Seq::new(((5 * digits.len()) / 8) as nat, |k: int| base32_byte(digits, k)))
    } else {
        None
    }
}

proof fn lemma_bits_of_digit(b0: u8, b1: u8, b2: u8, b3: u8, b4: u8)
    requires
        b0 <= 1,
        b1 <= 1,
        b2 <= 1,
        b3 <= 1,
        b4 <= 1,
    ensures
        digit_of_bits(b0, b1, b2, b3, b4) < 32,
        (digit_of_bits(b0, b1, b2, b3, b4) >> 4u8) & 1 == b0,
        (digit_of_bits(b0, b1, b2, b3, b4) >> 3u8) & 1 == b1,
        (digit_of_bits(b0, b1, b2, b3, b4) >> 2u8) & 1 == b2,
        (digit_of_bits(b0, b1, b2, b3, b4) >> 1u8) & 1 == b3,
        (digit_of_bits(b0, b1, b2, b3, b4) >> 0u8) & 1 == b4,
{
    let d = digit_of_bits(b0, b1, b2, b3, b4);
    assert(d < 32 && (d >> 4u8) & 1 == b0 && (d >> 3u8) & 1 == b1 && (d >> 2u8) & 1 == b2 && (d
        >> 1u8) & 1 == b3 && (d >> 0u8) & 1 == b4) by (bit_vector)
        requires
            b0 <= 1,
            b1 <= 1,
            b2 <= 1,
            b3 <= 1,
            b4 <= 1,
            d == (b0 << 4) | (b1 << 3) | (b2 << 2) | (b3 << 1) | b4,
    ;
}

proof fn lemma_byte_of_its_bits(b: u8)
    ensures
        b == byte_of_bits(
            (b >> 7u8) & 1,
            (b >> 6u8) & 1,
            (b >> 5u8) & 1,
            (b >> 4u8) & 1,
            (b >> 3u8) & 1,
            (b >> 2u8) & 1,
            (b >> 1u8) & 1,
            (b >> 0u8) & 1,
        ),
{
    assert(b == (((b >> 7u8) & 1) << 7) | (((b >> 6u8) & 1) << 6) | (((b >> 5u8) & 1) << 5) | (((b
        >> 4u8) & 1) << 4) | (((b >> 3u8) & 1) << 3) | (((b >> 2u8) & 1) << 2) | (((b >> 1u8) & 1)
        << 1) | ((b >> 0u8) & 1)) by (bit_vector);
}

proof fn lemma_bit_is_small(bytes: Seq<u8>, i: int)
    ensures
        byte_bit(bytes, i) <= 1,
{
    reveal(byte_bit);
    if 0 <= i < 8 * bytes.len() {
        let shifted = bytes[i / 8] >> ((7 - i % 8) as u8);
        assert(shifted & 1 <= 1) by (bit_vector);
    }
}

/// Regrouping keeps every bit where it was, and the digits fit in five bits.
pub proof fn lemma_digits_keep_bits(bytes: Seq<u8>, i: int)
    requires
        0 <= i < 5 * base32_digits(bytes).len(),
    ensures
        digit_bit(base32_digits(bytes), i) == byte_bit(bytes, i),
        base32_digits(bytes)[i / 5] < 32,
{
    reveal(digit_bit);
    reveal(base32_digits);
    let k = i / 5;
    lemma_bit_is_small(bytes, 5 * k);
    lemma_bit_is_small(bytes, 5 * k + 1);
    lemma_bit_is_small(bytes, 5 * k + 2);
    lemma_bit_is_small(bytes, 5 * k + 3);
    lemma_bit_is_small(bytes, 5 * k + 4);
    lemma_bits_of_digit(
        byte_bit(bytes, 5 * k),
        byte_bit(bytes, 5 * k + 1),
        byte_bit(bytes, 5 * k + 2),
        byte_bit(bytes, 5 * k + 3),
        byte_bit(bytes, 5 * k + 4),
    );
    assert(base32_digits(bytes)[k] == base32_digit(bytes, k));
    assert(i == 5 * k || i == 5 * k + 1 || i == 5 * k + 2 || i == 5 * k + 3 || i == 5 * k + 4);
}

/// The digits of a byte string fit in five bits.
pub proof fn lemma_are_digits(bytes: Seq<u8>)
    ensures
        are_digits(base32_digits(bytes)),
{
    let digits = base32_digits(bytes);
    assert forall|k: int| 0 <= k < digits.len() implies #[trigger] digits[k] < 32 by {
        lemma_digits_keep_bits(bytes, 5 * k);
    }
}

/// Bits are counted from the most significant bit of the first byte.
pub proof fn lemma_bit_of_byte(bytes: Seq<u8>, k: int, j: int)
    requires
        0 <= k < bytes.len(),
        0 <= j < 8,
    ensures
        byte_bit(bytes, 8 * k + j) == (bytes[k] >> ((7 - j) as u8)) & 1,
{
    reveal(byte_bit);
}

/// A byte string has as many digits as its bits need.
pub proof fn lemma_digits_len(bytes: Seq<u8>)
    ensures
        8 * bytes.len() <= 5 * base32_digits(bytes).len() < 8 * bytes.len() + 5,
{
    reveal(base32_digits);
}

proof fn lemma_byte_read_back(bytes: Seq<u8>, k: int)
    requires
        0 <= k < bytes.len(),
    ensures
        base32_byte(base32_digits(bytes), k) == bytes[k],
{
    lemma_digits_len(bytes);
    lemma_digits_keep_bits(bytes, 8 * k);
    lemma_bit_of_byte(bytes, k, 0);
    lemma_digits_keep_bits(bytes, 8 * k + 1);
    lemma_bit_of_byte(bytes, k, 1);
    lemma_digits_keep_bits(bytes, 8 * k + 2);
    lemma_bit_of_byte(bytes, k, 2);
    lemma_digits_keep_bits(bytes, 8 * k + 3);
    lemma_bit_of_byte(bytes, k, 3);
    lemma_digits_keep_bits(bytes, 8 * k + 4);
    lemma_bit_of_byte(bytes, k, 4);
    lemma_digits_keep_bits(bytes, 8 * k + 5);
    lemma_bit_of_byte(bytes, k, 5);
    lemma_digits_keep_bits(bytes, 8 * k + 6);
    lemma_bit_of_byte(bytes, k, 6);
    lemma_digits_keep_bits(bytes, 8 * k + 7);
    lemma_bit_of_byte(bytes, k, 7);
    lemma_byte_of_its_bits(bytes[k]);
}

/// Reading back the digits of a byte string gives the byte string.
pub proof fn lemma_base32_round_trip(bytes: Seq<u8>)
    ensures
        base32_bytes(base32_digits(bytes)) == Some(bytes),
{
    let digits = base32_digits(bytes);
    let bits = 5 * digits.len();
    lemma_digits_len(bytes);
    assert forall|i: int| bits - bits % 8 <= i < bits implies #[trigger] digit_bit(digits, i)
        == 0 by {
        lemma_digits_keep_bits(bytes, i);
        reveal(byte_bit);
    }
    let read = Seq::new(((5 * digits.len()) / 8) as nat, |k: int| base32_byte(digits, k));
    assert forall|k: int| 0 <= k < bytes.len() implies read[k] == bytes[k] by {
        lemma_byte_read_back(bytes, k);
    }
    assert(read =~= bytes);
}

proof fn lemma_bits_of_byte(b0: u8, b1: u8, b2: u8, b3: u8, b4: u8, b5: u8, b6: u8, b7: u8)
    requires
        b0 <= 1,
        b1 <= 1,
        b2 <= 1,
        b3 <= 1,
        b4 <= 1,
        b5 <= 1,
        b6 <= 1,
        b7 <= 1,
    ensures
        (byte_of_bits(b0, b1, b2, b3, b4, b5, b6, b7) >> 7u8) & 1 == b0,
        (byte_of_bits(b0, b1, b2, b3, b4, b5, b6, b7) >> 6u8) & 1 == b1,
        (byte_of_bits(b0, b1, b2, b3, b4, b5, b6, b7) >> 5u8) & 1 == b2,
        (byte_of_bits(b0, b1, b2, b3, b4, b5, b6, b7) >> 4u8) & 1 == b3,
        (byte_of_bits(b0, b1, b2, b3, b4, b5, b6, b7) >> 3u8) & 1 == b4,
        (byte_of_bits(b0, b1, b2, b3, b4, b5, b6, b7) >> 2u8) & 1 == b5,
        (byte_of_bits(b0, b1, b2, b3, b4, b5, b6, b7) >> 1u8) & 1 == b6,
        (byte_of_bits(b0, b1, b2, b3, b4, b5, b6, b7) >> 0u8) & 1 == b7,
{
    let b = byte_of_bits(b0, b1, b2, b3, b4, b5, b6, b7);
    assert((b >> 7u8) & 1 == b0 && (b >> 6u8) & 1 == b1 && (b >> 5u8) & 1 == b2 && (b >> 4u8) & 1
        == b3 && (b >> 3u8) & 1 == b4 && (b >> 2u8) & 1 == b5 && (b >> 1u8) & 1 == b6 && (b >> 0u8)
        & 1 == b7) by (bit_vector)
        requires
            b0 <= 1,
            b1 <= 1,
            b2 <= 1,
            b3 <= 1,
            b4 <= 1,
            b5 <= 1,
            b6 <= 1,
            b7 <= 1,
            b == (b0 << 7) | (b1 << 6) | (b2 << 5) | (b3 << 4) | (b4 << 3) | (b5 << 2) | (b6 << 1)
                | b7,
    ;
}

proof fn lemma_digit_of_its_bits(d: u8)
    requires
        d < 32,
    ensures
        d == digit_of_bits(
            (d >> 4u8) & 1,
            (d >> 3u8) & 1,
            (d >> 2u8) & 1,
            (d >> 1u8) & 1,
            (d >> 0u8) & 1,
        ),
{
    assert(d == (((d >> 4u8) & 1) << 4) | (((d >> 3u8) & 1) << 3) | (((d >> 2u8) & 1) << 2) | (((d
        >> 1u8) & 1) << 1) | ((d >> 0u8) & 1)) by (bit_vector)
        requires
            d < 32,
    ;
}

proof fn lemma_digit_bit_is_small(digits: Seq<u8>, i: int)
    ensures
        digit_bit(digits, i) <= 1,
{
    reveal(digit_bit);
    let shifted = digits[i / 5] >> ((4 - i % 5) as u8);
    assert(shifted & 1 <= 1) by (bit_vector);
}

/// Bits are counted from the most significant bit of the first digit.
pub proof fn lemma_bit_of_digit(digits: Seq<u8>, k: int, j: int)
    requires
        0 <= k < digits.len(),
        0 <= j < 5,
    ensures
        digit_bit(digits, 5 * k + j) == (digits[k] >> ((4 - j) as u8)) & 1,
{
    reveal(digit_bit);
}

/// Regrouping back keeps every bit of the digits where it was, and what it drops
/// is zero.
pub proof fn lemma_bytes_keep_bits(digits: Seq<u8>, i: int)
    requires
        base32_bytes(digits) is Some,
        0 <= i < 5 * digits.len(),
    ensures
        byte_bit(base32_bytes(digits)->0, i) == digit_bit(digits, i),
{
    reveal(byte_bit);
    let bytes = base32_bytes(digits)->0;
    if i < 8 * bytes.len() {
        let k = i / 8;
        lemma_digit_bit_is_small(digits, 8 * k);
        lemma_digit_bit_is_small(digits, 8 * k + 1);
        lemma_digit_bit_is_small(digits, 8 * k + 2);
        lemma_digit_bit_is_small(digits, 8 * k + 3);
        lemma_digit_bit_is_small(digits, 8 * k + 4);
        lemma_digit_bit_is_small(digits, 8 * k + 5);
        lemma_digit_bit_is_small(digits, 8 * k + 6);
        lemma_digit_bit_is_small(digits, 8 * k + 7);
        lemma_bits_of_byte(
            digit_bit(digits, 8 * k),
            digit_bit(digits, 8 * k + 1),
            digit_bit(digits, 8 * k + 2),
            digit_bit(digits, 8 * k + 3),
            digit_bit(digits, 8 * k + 4),
            digit_bit(digits, 8 * k + 5),
            digit_bit(digits, 8 * k + 6),
            digit_bit(digits, 8 * k + 7),
        );
        assert(bytes[k] == base32_byte(digits, k));
        assert(i == 8 * k || i == 8 * k + 1 || i == 8 * k + 2 || i == 8 * k + 3 || i == 8 * k + 4
            || i == 8 * k + 5 || i == 8 * k + 6 || i == 8 * k + 7);
    }
}

proof fn lemma_digit_read_back(digits: Seq<u8>, k: int)
    requires
        are_digits(digits),
        base32_bytes(digits) is Some,
        0 <= k < digits.len(),
    ensures
        base32_digit(base32_bytes(digits)->0, k) == digits[k],
{
    lemma_bytes_keep_bits(digits, 5 * k);
    lemma_bit_of_digit(digits, k, 0);
    lemma_bytes_keep_bits(digits, 5 * k + 1);
    lemma_bit_of_digit(digits, k, 1);
    lemma_bytes_keep_bits(digits, 5 * k + 2);
    lemma_bit_of_digit(digits, k, 2);
    lemma_bytes_keep_bits(digits, 5 * k + 3);
    lemma_bit_of_digit(digits, k, 3);
    lemma_bytes_keep_bits(digits, 5 * k + 4);
    lemma_bit_of_digit(digits, k, 4);
    lemma_digit_of_its_bits(digits[k]);
}

/// No other digits stand for the byte string that some digits stand for.
pub proof fn lemma_base32_canonical(digits: Seq<u8>)
    requires
        are_digits(digits),
        base32_bytes(digits) is Some,
    ensures
        base32_digits(base32_bytes(digits)->0) == digits,
{
    reveal(base32_digits);
    let bytes = base32_bytes(digits)->0;
    let again = base32_digits(bytes);
    assert forall|k: int| 0 <= k < digits.len() implies again[k] == digits[k] by {
        lemma_digit_read_back(digits, k);
    }
    assert(again =~= digits);
}

/// Regroups a byte string into five-bit digits.
///
/// Calls `ToBase32::to_base32` on the bytes. Claimed: the digits are the bits of
/// the bytes in groups of five, the last group filled up with zeros.
#[verifier::external_body]
pub(crate) fn to_base32(bytes: &[u8]) -> (digits: Vec<u8>)
    ensures
        digits@ == base32_digits(bytes@),
{
    bytes.to_base32().iter().map(|digit| digit.to_u8()).collect()
}

/// Regroups five-bit digits into a byte string.
///
/// Calls `Vec::<u8>::from_base32`. Claimed: it succeeds exactly where what is left
/// over after the last whole byte is less than five bits and all zero, and the
/// bytes are then the bits of the digits in groups of eight.
#[verifier::external_body]
pub(crate) fn from_base32(digits: &[u8]) -> (bytes: Option<Vec<u8>>)
    requires
        are_digits(digits@),
    ensures
        bytes is Some <==> base32_bytes(digits@) is Some,
        bytes matches Some(b) ==> base32_bytes(digits@) == Some(b@),
{
    Vec::<u8>::from_base32(&digits.check_base32().unwrap()).ok()
}

} // verus!
