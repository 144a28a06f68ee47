//! Transmission keys (_pk_d_).
use vstd::prelude::*;

use super::diversifier::{diversified_base, Diversifier};
use super::incoming::IncomingViewingKey;
use crate::bytes::{array_of, bytes_eq, lemma_array_of};
use crate::debug::{debug_pair, hex_text, pair_text};
use crate::pallas::{
    are_coordinates, group_hash, is_multiple, is_point_encoding, is_scalar_encoding, point_multiple, Affine,
    Point,
};

verus! {

/// A (diversified) transmission key
///
/// In Orchard, secrets need to be transmitted to a recipient of funds in order
/// for them to be later spent. To transmit these secrets securely to a
/// recipient without requiring an out-of-band communication channel, the
/// transmission key is used to encrypt them.
///
/// Derived by multiplying a Pallas point derived from a `Diversifier` by
/// the `IncomingViewingKey` scalar.
#[derive(Copy, Clone)]
pub struct TransmissionKey(pub Affine);

impl View for TransmissionKey {
    type V = Seq<u8>;

    /// The encoding of the key.
    open spec fn view(&self) -> Seq<u8> {
        self.0@
    }
}

impl TransmissionKey {
    /// The key with the given encoding, which is that of a point of the curve.
    pub fn from_bytes(bytes: [u8; 32]) -> (pk_d: TransmissionKey)
        requires
            is_point_encoding(bytes@),
        ensures
            pk_d@ == bytes@,
            pk_d.0@ == bytes@,
    {
        TransmissionKey(Affine::from_bytes(&bytes).unwrap())
    }

    /// The text of the key for diagnostics, with the coordinates of its point.
    pub fn debug_text(&self) -> (text: String)
        ensures
            exists|x: Seq<u8>, y: Seq<u8>| #[trigger]
                are_coordinates(self@, x, y) && text@ == pair_text("TransmissionKey"@, "x"@, x, "y"@, y),
            exists|x: Seq<u8>, y: Seq<u8>| #[trigger]
                are_coordinates(self.0@, x, y) && text@ == "TransmissionKey"@ + " { "@ + "x"@ + ": \""@
                    + hex_text(x) + "\", "@ + "y"@ + ": \""@ + hex_text(y) + "\" }"@,
    {
        let x = self.0.get_x().to_bytes();
        let y = self.0.get_y().to_bytes();
        assert(are_coordinates(self@, x@, y@));
        debug_pair("TransmissionKey", "x", &x, "y", &y)
    }
}

impl From<TransmissionKey> for [u8; 32] {
    fn from(pk_d: TransmissionKey) -> (bytes: [u8; 32])
        ensures
            bytes@ == pk_d@,
            bytes@ == pk_d.0@,
            is_point_encoding(bytes@),
    {
        let bytes = pk_d.0.to_bytes();
        proof {
            lemma_array_of(bytes);
        }
        bytes
    }
}

impl vstd::std_specs::convert::FromSpecImpl<TransmissionKey> for [u8; 32] {
    open spec fn obeys_from_spec() -> bool {
        true
    }

    open spec fn from_spec(pk_d: TransmissionKey) -> [u8; 32] {
        array_of(pk_d@)
    }
}

impl From<(IncomingViewingKey, Diversifier)> for TransmissionKey {
    /// The public key of key agreement, which is the scalar multiplication
    /// _\[ivk\] g_d_.
    ///
    /// For one diversifier, where the scalar of an incoming viewing key is the sum
    /// of those of two others, the point of its transmission key is the sum of the
    /// points of theirs, whatever the networks of the three.
    fn from(pair: (IncomingViewingKey, Diversifier)) -> (pk_d: TransmissionKey)
        ensures
            pk_d@ == point_multiple(diversified_base(pair.1@), pair.0@.1),
            pk_d.0@ == point_multiple(group_hash("z.cash:Orchard-gd"@, pair.1.0@), pair.0@.1),
            is_point_encoding(pk_d@),
            is_scalar_encoding(pair.0@.1),
            is_multiple(diversified_base(pair.1@), pair.0@.1, pk_d@),
    {
        let (ivk, d) = pair;
        TransmissionKey(Affine::from(Point::from(d).scale(&ivk.to_scalar())))
    }
}

impl vstd::std_specs::convert::FromSpecImpl<(IncomingViewingKey, Diversifier)> for TransmissionKey {
    open spec fn obeys_from_spec() -> bool {
        true
    }

    open spec fn from_spec(pair: (IncomingViewingKey, Diversifier)) -> TransmissionKey {
        TransmissionKey(Affine::of(point_multiple(diversified_base(pair.1@), pair.0@.1)))
    }
}

impl PartialEq for TransmissionKey {
    fn eq(&self, other: &Self) -> (same: bool) {
        self.0 == other.0
    }
}

impl vstd::std_specs::cmp::PartialEqSpecImpl for TransmissionKey {
    open spec fn obeys_eq_spec() -> bool {
        true
    }

    open spec fn eq_spec(&self, other: &Self) -> bool {
        *self == *other
    }
}

impl Eq for TransmissionKey {

}

impl PartialEq<[u8; 32]> for TransmissionKey {
    fn eq(&self, other: &[u8; 32]) -> (same: bool) {
        bytes_eq(&self.0.to_bytes(), other)
    }
}

impl vstd::std_specs::cmp::PartialEqSpecImpl<[u8; 32]> for TransmissionKey {
    open spec fn obeys_eq_spec() -> bool {
        true
    }

    /// Whether the bytes are the encoding of the key.
    open spec fn eq_spec(&self, other: &[u8; 32]) -> bool {
        self@ == other@
    }
}

} // verus!
