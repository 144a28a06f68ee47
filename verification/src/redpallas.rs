//! RedPallas verification keys for spend authorization signatures.
use vstd::prelude::*;
use vstd::std_specs::cmp::PartialEqSpec;

use crate::bytes::{array_of, bytes_eq, lemma_array_from_view, lemma_array_of};
use crate::pallas::{
    group_hash, is_multiple, is_point_encoding, is_scalar_encoding, pallas_group_hash,
    point_multiple, Affine, Point, Scalar,
};

verus! {

/// The encoding of the base point of Orchard spend authorization signatures:
/// what the letter `G` hashes to.
pub open spec fn spend_auth_basepoint() -> Seq<u8> {
    group_hash("z.cash:Orchard"@, seq![0x47u8])
}

/// The base point of Orchard spend authorization signatures.
fn basepoint() -> (point: Point)
    ensures
        point@ == spend_auth_basepoint(),
{
    proof {
        reveal_strlit("z.cash:Orchard");
    }
    let letter = [0x47u8];
    assert(letter@ =~= seq![0x47u8]);
    pallas_group_hash("z.cash:Orchard", &letter)
}

/// A verification key for spend authorization signatures.
#[derive(Copy, Clone, Debug)]
pub struct VerificationKey {
    bytes: [u8; 32],
}

impl View for VerificationKey {
    type V = Seq<u8>;

    /// The encoding of the key.
    closed spec fn view(&self) -> Seq<u8> {
        self.bytes@
    }
}

impl VerificationKey {
    #[verifier::type_invariant]
    spec fn on_curve(self) -> bool {
        is_point_encoding(self.bytes@)
    }

    /// The key with the given encoding.
    pub open spec fn of(bytes: Seq<u8>) -> VerificationKey {
        choose|v: VerificationKey| v@ == bytes
    }

    /// A key is determined by its encoding.
    pub proof fn lemma_view_injective(a: VerificationKey, b: VerificationKey)
        requires
            a@ == b@,
        ensures
            a == b,
    {
        lemma_array_from_view(a.bytes, b.bytes);
    }

    /// A key is the one with its encoding, which has thirty-two bytes.
    pub proof fn lemma_of(v: VerificationKey)
        ensures
            VerificationKey::of(v@) == v,
            array_of::<32>(v@)@ == v@,
    {
        lemma_array_of(v.bytes);
        let w = VerificationKey::of(v@);
        assert(w@ == v@);
        VerificationKey::lemma_view_injective(w, v);
    }

    /// Decodes a key, failing if the bytes are not the encoding of a point.
    pub fn from_bytes(bytes: &[u8; 32]) -> (decoded: Option<VerificationKey>)
        ensures
            decoded is Some <==> is_point_encoding(bytes@),
            decoded matches Some(key) ==> key@ == bytes@,
    {
        match Affine::from_bytes(bytes) {
            Some(point) => Some(VerificationKey { bytes: point.to_bytes() }),
            None => None,
        }
    }

    /// The key that verifies what is signed with `signing_key`: the base point
    /// multiplied by it.
    pub fn from_signing_key(signing_key: &Scalar) -> (key: VerificationKey)
        ensures
            key@ == point_multiple(spend_auth_basepoint(), signing_key@),
            key@ == point_multiple(group_hash("z.cash:Orchard"@, seq![0x47u8]), signing_key@),
            is_point_encoding(key@),
            is_scalar_encoding(signing_key@),
            is_multiple(spend_auth_basepoint(), signing_key@, key@),
    {
        VerificationKey { bytes: basepoint().scale(signing_key).to_bytes() }
    }

    /// The encoding of the key.
    pub fn to_bytes(&self) -> (bytes: [u8; 32])
        ensures
            bytes@ == self@,
            is_point_encoding(bytes@),
    {
        proof {
            use_type_invariant(self);
        }
        self.bytes
    }
}

impl PartialEq for VerificationKey {
    fn eq(&self, other: &Self) -> (same: bool) {
        proof {
            if self@ == other@ {
                VerificationKey::lemma_view_injective(*self, *other);
            }
        }
        bytes_eq(&self.bytes, &other.bytes)
    }
}

impl vstd::std_specs::cmp::PartialEqSpecImpl for VerificationKey {
    open spec fn obeys_eq_spec() -> bool {
        true
    }

    open spec fn eq_spec(&self, other: &Self) -> bool {
        *self == *other
    }
}

impl Eq for VerificationKey {

}

/// Two verification keys are equal if and only if their encodings are.
pub proof fn law_verification_key_equality(a: VerificationKey, b: VerificationKey)
    ensures
        a.eq_spec(&b) <==> a@ == b@,
{
    if a@ == b@ {
        VerificationKey::lemma_view_injective(a, b);
    }
}

} // verus!
