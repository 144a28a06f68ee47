//! Nullifier deriving keys (_nk_).
use vstd::prelude::*;

use crate::bytes::{array_of, bytes_eq, lemma_array_of};
use crate::debug::{debug_tuple, tuple_text};
use crate::pallas::{is_base_encoding, Base};

verus! {

/// An Orchard nullifier deriving key (_nk_).
///
/// Used to create a _Nullifier_ per note.
#[derive(Copy, Clone)]
pub struct NullifierDerivingKey(pub Base);

impl View for NullifierDerivingKey {
    type V = Seq<u8>;

    /// The encoding of the key.
    open spec fn view(&self) -> Seq<u8> {
        self.0@
    }
}

impl NullifierDerivingKey {
    /// The key with the given encoding.
    pub fn from_bytes(bytes: [u8; 32]) -> (nk: NullifierDerivingKey)
        requires
            is_base_encoding(bytes@),
        ensures
            nk@ == bytes@,
            nk.0@ == bytes@,
    {
        NullifierDerivingKey(Base::from_bytes(&bytes).unwrap())
    }

    /// The text of the key for diagnostics. A base field element has no
    /// coordinates, so the text shows its encoding.
    pub fn debug_text(&self) -> (text: String)
        ensures
            text@ == tuple_text("NullifierDerivingKey"@, self@),
    {
        debug_tuple("NullifierDerivingKey", &self.0.to_bytes())
    }
}

impl From<NullifierDerivingKey> for [u8; 32] {
    fn from(nk: NullifierDerivingKey) -> (bytes: [u8; 32])
        ensures
            bytes@ == nk@,
            bytes@ == nk.0@,
            is_base_encoding(bytes@),
    {
        let bytes = nk.0.to_bytes();
        proof {
            lemma_array_of(bytes);
        }
        bytes
    }
}

impl vstd::std_specs::convert::FromSpecImpl<NullifierDerivingKey> for [u8; 32] {
    open spec fn obeys_from_spec() -> bool {
        true
    }

    open spec fn from_spec(nk: NullifierDerivingKey) -> [u8; 32] {
        array_of(nk@)
    }
}

impl From<&NullifierDerivingKey> for [u8; 32] {
    fn from(nk: &NullifierDerivingKey) -> (bytes: [u8; 32])
        ensures
            bytes@ == nk@,
            bytes@ == nk.0@,
            is_base_encoding(bytes@),
    {
        let bytes = nk.0.to_bytes();
        proof {
            lemma_array_of(bytes);
        }
        bytes
    }
}

impl vstd::std_specs::convert::FromSpecImpl<&NullifierDerivingKey> for [u8; 32] {
    open spec fn obeys_from_spec() -> bool {
        true
    }

    open spec fn from_spec(nk: &NullifierDerivingKey) -> [u8; 32] {
        array_of(nk@)
    }
}

impl PartialEq for NullifierDerivingKey {
    fn eq(&self, other: &Self) -> (same: bool) {
        self.0 == other.0
    }
}

impl vstd::std_specs::cmp::PartialEqSpecImpl for NullifierDerivingKey {
    open spec fn obeys_eq_spec() -> bool {
        true
    }

    open spec fn eq_spec(&self, other: &Self) -> bool {
        *self == *other
    }
}

impl Eq for NullifierDerivingKey {

}

impl PartialEq<[u8; 32]> for NullifierDerivingKey {
    fn eq(&self, other: &[u8; 32]) -> (same: bool) {
        bytes_eq(&self.0.to_bytes(), other)
    }
}

impl vstd::std_specs::cmp::PartialEqSpecImpl<[u8; 32]> for NullifierDerivingKey {
    open spec fn obeys_eq_spec() -> bool {
        true
    }

    /// Whether the bytes are the encoding of the key.
    open spec fn eq_spec(&self, other: &[u8; 32]) -> bool {
        self@ == other@
    }
}

} // verus!
