//! The randomness of the commitment that an incoming viewing key is (_rivk_).
use vstd::prelude::*;

use crate::bytes::{array_of, lemma_array_of};
use crate::debug::{debug_tuple, tuple_text};
use crate::pallas::{is_scalar_encoding, Scalar};

verus! {

/// The randomness of the commitment to an incoming viewing key (_rivk_).
#[derive(Copy, Clone)]
pub struct IvkCommitRandomness(Scalar);

impl View for IvkCommitRandomness {
    type V = Seq<u8>;

    /// The encoding of the scalar.
    closed spec fn view(&self) -> Seq<u8> {
        self.0@
    }
}

impl IvkCommitRandomness {
    /// It is determined by its encoding.
    pub proof fn lemma_view_injective(a: IvkCommitRandomness, b: IvkCommitRandomness)
        requires
            a@ == b@,
        ensures
            a == b,
    {
        Scalar::lemma_view_injective(a.0, b.0);
    }

    /// Its encoding has thirty-two bytes.
    pub proof fn lemma_encoding(v: IvkCommitRandomness)
        ensures
            array_of::<32>(v@)@ == v@,
    {
        Scalar::lemma_of(v.0);
    }

    /// The one with the given encoding.
    pub fn from_bytes(bytes: [u8; 32]) -> (rivk: IvkCommitRandomness)
        requires
            is_scalar_encoding(bytes@),
        ensures
            rivk@ == bytes@,
    {
        IvkCommitRandomness(Scalar::from_bytes(&bytes).unwrap())
    }

    /// The text for diagnostics.
    pub fn debug_text(&self) -> (text: String)
        ensures
            text@ == tuple_text("IvkCommitRandomness"@, self@),
    {
        debug_tuple("IvkCommitRandomness", &self.0.to_bytes())
    }
}

impl From<IvkCommitRandomness> for [u8; 32] {
    fn from(rivk: IvkCommitRandomness) -> (bytes: [u8; 32])
        ensures
            bytes@ == rivk@,
            is_scalar_encoding(bytes@),
    {
        let bytes = rivk.0.to_bytes();
        proof {
            lemma_array_of(bytes);
        }
        bytes
    }
}

impl vstd::std_specs::convert::FromSpecImpl<IvkCommitRandomness> for [u8; 32] {
    open spec fn obeys_from_spec() -> bool {
        true
    }

    open spec fn from_spec(rivk: IvkCommitRandomness) -> [u8; 32] {
        array_of(rivk@)
    }
}

impl PartialEq for IvkCommitRandomness {
    fn eq(&self, other: &Self) -> (same: bool) {
        self.0 == other.0
    }
}

impl vstd::std_specs::cmp::PartialEqSpecImpl for IvkCommitRandomness {
    open spec fn obeys_eq_spec() -> bool {
        true
    }

    open spec fn eq_spec(&self, other: &Self) -> bool {
        *self == *other
    }
}

impl Eq for IvkCommitRandomness {

}

} // verus!
