//! Outgoing viewing keys (_ovk_).
use vstd::prelude::*;

use super::full::FullViewingKey;
use crate::bytes::{array_at, array_of, bytes_eq, lemma_array_from_view, lemma_array_of};
use crate::debug::{debug_tuple, tuple_text};
use crate::prf::blake2b_digest;

verus! {

/// An outgoing viewing key.
///
/// Used to decrypt outgoing notes without spending them.
#[derive(Copy, Clone)]
pub struct OutgoingViewingKey(pub [u8; 32]);

impl View for OutgoingViewingKey {
    type V = Seq<u8>;

    /// The bytes of the key.
    open spec fn view(&self) -> Seq<u8> {
        self.0@
    }
}

impl OutgoingViewingKey {
    /// The key within what a full viewing key expands to: all but the first
    /// thirty-two bytes.
    pub fn from_expanded(r: &[u8; 64]) -> (ovk: OutgoingViewingKey)
        ensures
            ovk@ == r@.subrange(32, 64),
            forall|i: int| 0 <= i < 32 ==> #[trigger] ovk.0@[i] == r@[32 + i],
    {
        OutgoingViewingKey(array_at(r, 32))
    }

    /// The text of the key for diagnostics.
    pub fn debug_text(&self) -> (text: String)
        ensures
            text@ == tuple_text("OutgoingViewingKey"@, self@),
    {
        debug_tuple("OutgoingViewingKey", &self.0)
    }
}

impl From<[u8; 32]> for OutgoingViewingKey {
    /// Generate an `OutgoingViewingKey` from existing bytes.
    fn from(bytes: [u8; 32]) -> (ovk: OutgoingViewingKey)
        ensures
            ovk@ == bytes@,
            ovk.0 == bytes,
    {
        OutgoingViewingKey(bytes)
    }
}

impl vstd::std_specs::convert::FromSpecImpl<[u8; 32]> for OutgoingViewingKey {
    open spec fn obeys_from_spec() -> bool {
        true
    }

    open spec fn from_spec(bytes: [u8; 32]) -> OutgoingViewingKey {
        OutgoingViewingKey(bytes)
    }
}

impl From<OutgoingViewingKey> for [u8; 32] {
    fn from(ovk: OutgoingViewingKey) -> (bytes: [u8; 32])
        ensures
            bytes@ == ovk@,
            bytes == ovk.0,
    {
        ovk.0
    }
}

impl vstd::std_specs::convert::FromSpecImpl<OutgoingViewingKey> for [u8; 32] {
    open spec fn obeys_from_spec() -> bool {
        true
    }

    open spec fn from_spec(ovk: OutgoingViewingKey) -> [u8; 32] {
        ovk.0
    }
}

impl From<FullViewingKey> for OutgoingViewingKey {
    /// Derive an `OutgoingViewingKey` from a `FullViewingKey`.
    ///
    /// Let `K` be _rivk_, `B` be _ak_ || _nk_ and `R` be _PRF^expand_ of `K` with
    /// t = [0x82] || `B`. The first thirty-two bytes of `R` are the diversifier
    /// key, and the remaining ones are the outgoing viewing key.
    fn from(fvk: FullViewingKey) -> (ovk: OutgoingViewingKey)
        ensures
            ovk@ == FullViewingKey::expanded(fvk@).subrange(32, 64),
            ovk.0@ == blake2b_digest(
                64,
                "Zcash_ExpandSeed"@,
                fvk@.rivk + seq![0x82u8] + fvk@.ak + fvk@.nk,
            ).subrange(32, 64),
    {
        let ovk = OutgoingViewingKey::from_expanded(&fvk.expand());
        proof {
            lemma_array_of(ovk.0);
        }
        ovk
    }
}

impl vstd::std_specs::convert::FromSpecImpl<FullViewingKey> for OutgoingViewingKey {
    open spec fn obeys_from_spec() -> bool {
        true
    }

    open spec fn from_spec(fvk: FullViewingKey) -> OutgoingViewingKey {
        OutgoingViewingKey(array_of(FullViewingKey::expanded(fvk@).subrange(32, 64)))
    }
}

impl PartialEq for OutgoingViewingKey {
    fn eq(&self, other: &Self) -> (same: bool) {
        proof {
            if self@ == other@ {
                lemma_array_from_view(self.0, other.0);
            }
        }
        bytes_eq(&self.0, &other.0)
    }
}

impl vstd::std_specs::cmp::PartialEqSpecImpl for OutgoingViewingKey {
    open spec fn obeys_eq_spec() -> bool {
        true
    }

    open spec fn eq_spec(&self, other: &Self) -> bool {
        *self == *other
    }
}

impl Eq for OutgoingViewingKey {

}

impl PartialEq<[u8; 32]> for OutgoingViewingKey {
    fn eq(&self, other: &[u8; 32]) -> (same: bool) {
        bytes_eq(&self.0, other)
    }
}

impl vstd::std_specs::cmp::PartialEqSpecImpl<[u8; 32]> for OutgoingViewingKey {
    open spec fn obeys_eq_spec() -> bool {
        true
    }

    /// Whether the bytes are those of the key.
    open spec fn eq_spec(&self, other: &[u8; 32]) -> bool {
        self@ == other@
    }
}

} // verus!
