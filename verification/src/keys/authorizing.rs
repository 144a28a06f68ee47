//! Spend authorizing keys (_ask_).
use vstd::prelude::*;

use super::spending::SpendingKey;
use crate::bytes::{array_of, bytes_eq, le_value, lemma_array_of};
use crate::debug::{debug_tuple, tuple_text};
use crate::pallas::{is_scalar_encoding, scalar_modulus, Scalar};
use crate::prf::{blake2b_digest, expanded, prf_expand};

verus! {

/// A spend authorizing key (_ask_).
///
/// Used to generate _spend authorization randomizers_ to sign each _Spend
/// Description_, proving ownership of notes.
#[derive(Copy, Clone)]
pub struct SpendAuthorizingKey(pub Scalar);

impl View for SpendAuthorizingKey {
    type V = Seq<u8>;

    /// The encoding of the key.
    open spec fn view(&self) -> Seq<u8> {
        self.0@
    }
}

impl SpendAuthorizingKey {
    /// The text of the key for diagnostics.
    pub fn debug_text(&self) -> (text: String)
        ensures
            text@ == tuple_text("SpendAuthorizingKey"@, self@),
    {
        debug_tuple("SpendAuthorizingKey", &<[u8; 32]>::from(*self))
    }
}

impl From<SpendAuthorizingKey> for [u8; 32] {
    fn from(sk: SpendAuthorizingKey) -> (bytes: [u8; 32])
        ensures
            bytes@ == sk@,
            bytes@ == sk.0@,
            is_scalar_encoding(bytes@),
    {
        let bytes = sk.0.to_bytes();
        proof {
            lemma_array_of(bytes);
        }
        bytes
    }
}

impl vstd::std_specs::convert::FromSpecImpl<SpendAuthorizingKey> for [u8; 32] {
    open spec fn obeys_from_spec() -> bool {
        true
    }

    open spec fn from_spec(sk: SpendAuthorizingKey) -> [u8; 32] {
        array_of(sk@)
    }
}

impl From<SpendingKey> for SpendAuthorizingKey {
    /// Invokes BLAKE2b-512 as _PRF^expand_, t=6, to derive a
    /// `SpendAuthorizingKey` from a `SpendingKey`.
    ///
    /// `ask := ToScalar(PRF^expand(sk, [6]))`
    fn from(spending_key: SpendingKey) -> (ask: SpendAuthorizingKey)
        ensures
            ask.0.is_remainder_of(expanded(spending_key@.1, seq![6])),
            is_scalar_encoding(ask.0@),
            le_value(ask.0@) == le_value(
                blake2b_digest(64, "Zcash_ExpandSeed"@, spending_key@.1 + seq![6u8]),
            ) % scalar_modulus(),
    {
        let hash_bytes = prf_expand(spending_key.to_bytes(), &[6]);
        assert([6u8]@ =~= seq![6u8]);
        let scalar = Scalar::from_bytes_wide(&hash_bytes);
        proof {
            Scalar::lemma_of_wide(scalar, hash_bytes@);
        }
        SpendAuthorizingKey(scalar)
    }
}

impl vstd::std_specs::convert::FromSpecImpl<SpendingKey> for SpendAuthorizingKey {
    open spec fn obeys_from_spec() -> bool {
        true
    }

    open spec fn from_spec(spending_key: SpendingKey) -> SpendAuthorizingKey {
        SpendAuthorizingKey(Scalar::of_wide(expanded(spending_key@.1, seq![6])))
    }
}

impl PartialEq for SpendAuthorizingKey {
    fn eq(&self, other: &Self) -> (same: bool) {
        self.0 == other.0
    }
}

impl vstd::std_specs::cmp::PartialEqSpecImpl for SpendAuthorizingKey {
    open spec fn obeys_eq_spec() -> bool {
        true
    }

    open spec fn eq_spec(&self, other: &Self) -> bool {
        *self == *other
    }
}

impl Eq for SpendAuthorizingKey {

}

impl PartialEq<[u8; 32]> for SpendAuthorizingKey {
    fn eq(&self, other: &[u8; 32]) -> (same: bool) {
        bytes_eq(&self.0.to_bytes(), other)
    }
}

impl vstd::std_specs::cmp::PartialEqSpecImpl<[u8; 32]> for SpendAuthorizingKey {
    open spec fn obeys_eq_spec() -> bool {
        true
    }

    /// Whether the bytes are the encoding of the key.
    open spec fn eq_spec(&self, other: &[u8; 32]) -> bool {
        self@ == other@
    }
}

} // verus!
