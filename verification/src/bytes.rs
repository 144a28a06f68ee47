//! Byte strings: their value as little-endian integers, comparison and slicing.
use vstd::arithmetic::power::{lemma_pow0, pow};
use vstd::prelude::*;

verus! {

/// The integer that `bytes` encodes, least significant byte first.
pub open spec fn le_value(bytes: Seq<u8>) -> nat
    decreases bytes.len(),
{
    if bytes.len() == 0 {
        0
    } else {
        bytes[0] as nat + 256 * le_value(bytes.drop_first())
    }
}

/// Two byte strings of one length that encode the same integer are the same.
pub proof fn lemma_le_value_injective(a: Seq<u8>, b: Seq<u8>)
    requires
        a.len() == b.len(),
        le_value(a) == le_value(b),
    ensures
        a == b,
    decreases a.len(),
{
    if a.len() > 0 {
        lemma_le_value_injective(a.drop_first(), b.drop_first());
        assert(a =~= seq![a[0]] + a.drop_first());
        assert(b =~= seq![b[0]] + b.drop_first());
    } else {
        assert(a =~= b);
    }
}

/// A byte encodes itself, and what follows the bytes of `a` weighs as much more as
/// they have positions.
pub proof fn law_le_value_is_positional(byte: u8, a: Seq<u8>, b: Seq<u8>)
    ensures
        le_value(Seq::empty()) == 0,
        le_value(seq![byte]) == byte,
        le_value(a + b) == le_value(a) + pow(256, a.len()) * le_value(b),
    decreases a.len(),
{
    let one = seq![byte];
    assert(one.drop_first() =~= Seq::empty());
    assert(le_value(one) == byte + 256 * le_value(one.drop_first()));
    if a.len() == 0 {
        assert(a + b =~= b);
        lemma_pow0(256);
    } else {
        let rest = a.drop_first();
        law_le_value_is_positional(byte, rest, b);
        assert((a + b).drop_first() =~= rest + b);
        reveal(pow);
        assert(pow(256, a.len()) == 256 * pow(256, rest.len()));
        let weight = pow(256, rest.len());
        let tail = le_value(b) as int;
        assert(256 * (weight * tail) == (256 * weight) * tail) by (nonlinear_arith);
    }
}

/// A byte string of zeros encodes zero, and no other does.
pub proof fn lemma_le_value_zero(bytes: Seq<u8>)
    ensures
        le_value(bytes) == 0 <==> (forall|i: int| 0 <= i < bytes.len() ==> bytes[i] == 0),
    decreases bytes.len(),
{
    if bytes.len() > 0 {
        let rest = bytes.drop_first();
        lemma_le_value_zero(rest);
        if le_value(bytes) == 0 {
            assert forall|i: int| 0 <= i < bytes.len() implies bytes[i] == 0 by {
                if i > 0 {
                    assert(rest[i - 1] == bytes[i]);
                }
            }
        }
        if forall|i: int| 0 <= i < bytes.len() ==> bytes[i] == 0 {
            assert forall|i: int| 0 <= i < rest.len() implies rest[i] == 0 by {
                assert(rest[i] == bytes[i + 1]);
            }
        }
    }
}

/// An array is determined by its elements.
pub proof fn lemma_array_from_view<const N: usize>(a: [u8; N], b: [u8; N])
    requires
        a@ == b@,
    ensures
        a == b,
{
    assert forall|i: int| 0 <= i < N implies a[i] == b[i] by {
        assert(a@[i] == b@[i]);
    }
    assert(a =~= b);
}

/// The array with the given elements.
pub open spec fn array_of<const N: usize>(bytes: Seq<u8>) -> [u8; N] {
    choose|array: [u8; N]| array@ == bytes
}

/// An array is the one with its elements.
pub proof fn lemma_array_of<const N: usize>(array: [u8; N])
    ensures
        array_of::<N>(array@) == array,
{
    let chosen = array_of::<N>(array@);
    assert(chosen@ == array@);
    lemma_array_from_view(chosen, array);
}

/// Whether two byte strings are the same.
pub fn bytes_eq(a: &[u8], b: &[u8]) -> (same: bool)
    ensures
        same == (a@ == b@),
{
    if a.len() != b.len() {
        return false;
    }
    let mut i: usize = 0;
    while i < a.len()
        invariant
            i <= a@.len(),
            a@.len() == b@.len(),
            forall|j: int| 0 <= j < i ==> a@[j] == b@[j],
        decreases a@.len() - i,
    {
        if a[i] != b[i] {
            return false;
        }
        i = i + 1;
    }
    assert(a@ =~= b@);
    true
}

/// The thirty-two bytes of `source` that start at `start`.
pub fn array_at(source: &[u8], start: usize) -> (array: [u8; 32])
    requires
        start + 32 <= source@.len(),
    ensures
        array@ == source@.subrange(start as int, start + 32),
{
    let mut array = [0u8; 32];
    let mut i: usize = 0;
    while i < 32
        invariant
            i <= 32,
            start + 32 <= source.len(),
            forall|j: int| 0 <= j < i ==> array@[j] == source@[start + j],
        decreases 32 - i,
    {
        array[i] = source[start + i];
        i = i + 1;
    }
    assert(array@ =~= source@.subrange(start as int, start + 32));
    array
}

/// All sixty-four bytes of `source`.
pub fn wide_array(source: &[u8]) -> (array: [u8; 64])
    requires
        source@.len() == 64,
    ensures
        array@ == source@,
{
    let mut array = [0u8; 64];
    let mut i: usize = 0;
    while i < 64
        invariant
            i <= 64,
            source@.len() == 64,
            forall|j: int| 0 <= j < i ==> array@[j] == source@[j],
        decreases 64 - i,
    {
        array[i] = source[i];
        i = i + 1;
    }
    assert(array@ =~= source@);
    array
}

} // verus!
