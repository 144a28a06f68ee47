//! Diversifiers, and the base points that they stand for.
use vstd::prelude::*;

use crate::bytes::{bytes_eq, lemma_array_from_view};
use crate::debug::{debug_tuple, tuple_text};
use crate::pallas::{group_hash, is_point_encoding, pallas_group_hash, Affine, Point};

verus! {

/// `DiversifyHash(d) := GroupHash("z.cash:Orchard-gd", d)`
pub open spec fn diversified_base(d: Seq<u8>) -> Seq<u8> {
    group_hash("z.cash:Orchard-gd"@, d)
}

/// Used to derive a diversified base point from a diversifier value.
pub fn diversify_hash(d: &[u8]) -> (g_d: Point)
    ensures
        g_d@ == diversified_base(d@),
        g_d@ == group_hash("z.cash:Orchard-gd"@, d@),
        is_point_encoding(g_d@),
{
    proof {
        reveal_strlit("z.cash:Orchard-gd");
    }
    pallas_group_hash("z.cash:Orchard-gd", d)
}

/// A diversifier key (_dk_).
#[derive(Copy, Clone, PartialEq, Structural)]
pub struct DiversifierKey();

/// A _Diversifier_.
///
/// Combined with an _IncomingViewingKey_, produces a _diversified
/// payment address_.
#[derive(Copy, Clone)]
pub struct Diversifier(pub [u8; 11]);

impl View for Diversifier {
    type V = Seq<u8>;

    /// The bytes of the diversifier.
    open spec fn view(&self) -> Seq<u8> {
        self.0@
    }
}

impl Diversifier {
    /// Generates a new `Diversifier` from random bytes.
    pub fn new(random: [u8; 11]) -> (d: Diversifier)
        ensures
            d@ == random@,
            d.0 == random,
    {
        Diversifier::from(random)
    }

    /// The text of the diversifier for diagnostics.
    pub fn debug_text(&self) -> (text: String)
        ensures
            text@ == tuple_text("Diversifier"@, self@),
    {
        debug_tuple("Diversifier", &self.0)
    }
}

impl From<[u8; 11]> for Diversifier {
    fn from(bytes: [u8; 11]) -> (d: Diversifier)
        ensures
            d@ == bytes@,
            d.0 == bytes,
    {
        Diversifier(bytes)
    }
}

impl vstd::std_specs::convert::FromSpecImpl<[u8; 11]> for Diversifier {
    open spec fn obeys_from_spec() -> bool {
        true
    }

    open spec fn from_spec(bytes: [u8; 11]) -> Diversifier {
        Diversifier(bytes)
    }
}

impl From<Diversifier> for [u8; 11] {
    fn from(d: Diversifier) -> (bytes: [u8; 11])
        ensures
            bytes@ == d@,
            bytes == d.0,
    {
        d.0
    }
}

impl vstd::std_specs::convert::FromSpecImpl<Diversifier> for [u8; 11] {
    open spec fn obeys_from_spec() -> bool {
        true
    }

    open spec fn from_spec(d: Diversifier) -> [u8; 11] {
        d.0
    }
}

impl From<Diversifier> for Point {
    /// `g_d := DiversifyHash(d)`
    fn from(d: Diversifier) -> (g_d: Point)
        ensures
            g_d@ == diversified_base(d@),
            g_d@ == group_hash("z.cash:Orchard-gd"@, d.0@),
            is_point_encoding(g_d@),
    {
        let g_d = diversify_hash(&d.0);
        proof {
            Point::lemma_of(g_d);
        }
        g_d
    }
}

impl vstd::std_specs::convert::FromSpecImpl<Diversifier> for Point {
    open spec fn obeys_from_spec() -> bool {
        true
    }

    open spec fn from_spec(d: Diversifier) -> Point {
        Point::of(diversified_base(d@))
    }
}

impl TryFrom<Diversifier> for Affine {
    type Error = &'static str;

    /// Get a diversified base point from a diversifier value in affine
    /// representation.
    ///
    /// Every diversifier has one.
    fn try_from(d: Diversifier) -> (g_d: Result<Affine, &'static str>)
        ensures
            g_d matches Ok(point) && point@ == diversified_base(d@),
            g_d matches Ok(point) && point@ == group_hash("z.cash:Orchard-gd"@, d.0@),
    {
        let projective_point = Point::from(d);
        Ok(Affine::from(projective_point))
    }
}

impl vstd::std_specs::convert::TryFromSpecImpl<Diversifier> for Affine {
    open spec fn obeys_try_from_spec() -> bool {
        true
    }

    open spec fn try_from_spec(d: Diversifier) -> Result<Affine, &'static str> {
        Ok(Affine::of(diversified_base(d@)))
    }
}

impl PartialEq for Diversifier {
    fn eq(&self, other: &Self) -> (same: bool) {
        proof {
            if self@ == other@ {
                lemma_array_from_view(self.0, other.0);
            }
        }
        bytes_eq(&self.0, &other.0)
    }
}

impl vstd::std_specs::cmp::PartialEqSpecImpl for Diversifier {
    open spec fn obeys_eq_spec() -> bool {
        true
    }

    open spec fn eq_spec(&self, other: &Self) -> bool {
        *self == *other
    }
}

impl Eq for Diversifier {

}

impl PartialEq<[u8; 11]> for Diversifier {
    fn eq(&self, other: &[u8; 11]) -> (same: bool) {
        bytes_eq(&self.0, other)
    }
}

impl vstd::std_specs::cmp::PartialEqSpecImpl<[u8; 11]> for Diversifier {
    open spec fn obeys_eq_spec() -> bool {
        true
    }

    /// Whether the bytes are those of the diversifier.
    open spec fn eq_spec(&self, other: &[u8; 11]) -> bool {
        self@ == other@
    }
}

} // verus!
