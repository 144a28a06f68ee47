//! The Pallas curve `y^2 = x^3 + 5`, its scalar field and its base field.
//!
//! Field elements and points are held as their canonical thirty-two byte
//! encodings. Decoding, reduction and group arithmetic are those of the
//! `pasta_curves` crate, reached through `halo2_proofs::pasta`.
use halo2_proofs::arithmetic::{CurveAffine, CurveExt};
use halo2_proofs::pasta::group::ff::{FromUniformBytes, PrimeField};
use halo2_proofs::pasta::group::{Curve, GroupEncoding};
use halo2_proofs::pasta::pallas;
use vstd::prelude::*;
use vstd::std_specs::cmp::PartialEqSpec;

use crate::bytes::{
    array_of, bytes_eq, lemma_array_from_view, lemma_array_of, lemma_le_value_injective, lemma_le_value_zero, le_value,
};

verus! {

/// The order of the Pallas group, which is the modulus of its scalar field.
pub open spec fn scalar_modulus() -> nat {
    0x40000000000000000000000000000000224698fc0994a8dd8c46eb2100000001nat
}

/// The modulus of the field that the coordinates of Pallas points lie in.
pub open spec fn base_modulus() -> nat {
    0x40000000000000000000000000000000224698fc094cf91b992d30ed00000001nat
}

/// The weight of the top bit of a thirty-two byte string.
pub open spec fn sign_weight() -> nat {
    0x8000000000000000000000000000000000000000000000000000000000000000nat
}

/// Whether `bytes` is the encoding of a scalar: a reduced integer.
pub open spec fn is_scalar_encoding(bytes: Seq<u8>) -> bool {
    bytes.len() == 32 && le_value(bytes) < scalar_modulus()
}

/// Whether `bytes` is the encoding of a base field element: a reduced integer.
pub open spec fn is_base_encoding(bytes: Seq<u8>) -> bool {
    bytes.len() == 32 && le_value(bytes) < base_modulus()
}

/// Whether `bytes` is the encoding of the point at infinity.
pub open spec fn is_identity_encoding(bytes: Seq<u8>) -> bool {
    bytes.len() == 32 && le_value(bytes) == 0
}

/// The x-coordinate in the encoding of a point: all bits but the top one.
pub open spec fn encoded_x(bytes: Seq<u8>) -> nat {
    le_value(bytes) % sign_weight()
}

/// Whether `y` is the y-coordinate of the finite point that `bytes` encodes.
///
/// The curve equation leaves `y` or its negation; the top bit of the encoding
/// is the parity of the one that is meant.
pub open spec fn is_encoded_y(bytes: Seq<u8>, y: nat) -> bool {
    let x = encoded_x(bytes);
    &&& x < base_modulus()
    &&& y < base_modulus()
    &&& (y * y) % base_modulus() == (x * x * x + 5) % base_modulus()
    &&& y % 2 == le_value(bytes) / sign_weight()
}

/// Whether `bytes` is the encoding of a point of the curve.
pub open spec fn is_point_encoding(bytes: Seq<u8>) -> bool {
    &&& bytes.len() == 32
    &&& is_identity_encoding(bytes) || exists|y: nat| is_encoded_y(bytes, y)
}

/// Whether `x` and `y` are the encoded coordinates of an encoded point, which are
/// both zero for the point at infinity.
pub open spec fn are_coordinates(bytes: Seq<u8>, x: Seq<u8>, y: Seq<u8>) -> bool {
    &&& x.len() == 32
    &&& y.len() == 32
    &&& le_value(x) == encoded_x(bytes)
    &&& if is_identity_encoding(bytes) {
        le_value(y) == 0
    } else {
        is_encoded_y(bytes, le_value(y))
    }
}

/// A scalar or a base field element has thirty-two bytes whose integer is below
/// the modulus, and the point at infinity has thirty-two bytes that are zero.
pub proof fn law_field_encodings(bytes: Seq<u8>)
    ensures
        is_scalar_encoding(bytes) <==> bytes.len() == 32 && le_value(bytes)
            < 0x40000000000000000000000000000000224698fc0994a8dd8c46eb2100000001nat,
        is_base_encoding(bytes) <==> bytes.len() == 32 && le_value(bytes)
            < 0x40000000000000000000000000000000224698fc094cf91b992d30ed00000001nat,
        is_identity_encoding(bytes) <==> bytes.len() == 32 && forall|i: int|
            0 <= i < 32 ==> bytes[i] == 0,
{
    lemma_le_value_zero(bytes);
}

/// A finite point `(x, y)` of `y^2 = x^3 + 5` is encoded as `x`, plus the weight of
/// the top bit if `y` is odd; and nothing but such an encoding, or that of the point
/// at infinity, is the encoding of a point.
pub proof fn law_point_encoding(bytes: Seq<u8>, x: nat, y: nat)
    requires
        bytes.len() == 32,
        x < base_modulus(),
        y < base_modulus(),
        (y * y) % base_modulus() == (x * x * x + 5) % base_modulus(),
        le_value(bytes) == x + (if y % 2 == 1 {
            0x8000000000000000000000000000000000000000000000000000000000000000nat
        } else {
            0
        }),
    ensures
        is_point_encoding(bytes),
        encoded_x(bytes) == x,
        is_encoded_y(bytes, y),
        !is_identity_encoding(bytes) ==> forall|a: Seq<u8>, b: Seq<u8>| #[trigger]
            are_coordinates(bytes, a, b) ==> le_value(a) == x && is_encoded_y(bytes, le_value(b)),
{
    assert(is_encoded_y(bytes, y));
}

/// Coordinates have thirty-two bytes each. Those of the point at infinity are
/// zero; those of another point are the `x` of its encoding and the `y` that goes
/// with it.
pub proof fn law_coordinates(bytes: Seq<u8>, x: Seq<u8>, y: Seq<u8>)
    ensures
        is_identity_encoding(bytes) ==> (are_coordinates(bytes, x, y) <==> is_identity_encoding(x)
            && is_identity_encoding(y)),
        !is_identity_encoding(bytes) ==> (are_coordinates(bytes, x, y) <==> x.len() == 32
            && y.len() == 32 && le_value(x) == encoded_x(bytes) && is_encoded_y(
            bytes,
            le_value(y),
        )),
{
}

/// What a finite encoded point stands for is a point of the curve: its
/// coordinates are reduced, meet the equation of the curve and give the encoding.
pub proof fn law_point_decoding(bytes: Seq<u8>)
    requires
        is_point_encoding(bytes),
        !is_identity_encoding(bytes),
    ensures
        exists|y: nat|
            {
                &&& #[trigger] is_encoded_y(bytes, y)
                &&& encoded_x(bytes) < base_modulus()
                &&& y < base_modulus()
                &&& (y * y) % base_modulus() == (encoded_x(bytes) * encoded_x(bytes) * encoded_x(
                    bytes,
                ) + 5) % base_modulus()
                &&& le_value(bytes) == encoded_x(bytes) + (if y % 2 == 1 {
                    0x8000000000000000000000000000000000000000000000000000000000000000nat
                } else {
                    0
                })
            },
{
    let y = choose|y: nat| is_encoded_y(bytes, y);
    let n = le_value(bytes);
    assert(n == sign_weight() * (n / sign_weight()) + n % sign_weight());
    assert(is_encoded_y(bytes, y));
}

/// The encoding of a point, multiplied by an encoded scalar.
pub uninterp spec fn point_multiple(point: Seq<u8>, scalar: Seq<u8>) -> Seq<u8>;

/// The encoding of the sum of two encoded points.
pub uninterp spec fn point_sum(a: Seq<u8>, b: Seq<u8>) -> Seq<u8>;

/// Whether the integer of `scalar` is the sum of those of `a` and `b`, reduced.
pub open spec fn is_scalar_sum(a: Seq<u8>, b: Seq<u8>, scalar: Seq<u8>) -> bool {
    &&& is_scalar_encoding(a)
    &&& is_scalar_encoding(b)
    &&& le_value(scalar) == (le_value(a) + le_value(b)) % scalar_modulus()
}

/// Whether `product` stands to `point` and `scalar` as a multiple does: the
/// multiple by zero is the point at infinity, that by one is the point, and that
/// by a sum is the sum of the multiples.
pub open spec fn is_multiple(point: Seq<u8>, scalar: Seq<u8>, product: Seq<u8>) -> bool {
    &&& le_value(scalar) == 0 ==> is_identity_encoding(product)
    &&& le_value(scalar) == 1 ==> product == point
    &&& forall|a: Seq<u8>, b: Seq<u8>|
        is_scalar_sum(a, b, scalar) ==> product == point_sum(
            #[trigger] point_multiple(point, a),
            #[trigger] point_multiple(point, b),
        )
}

/// The encoding of the point that a message hashes to under a domain prefix.
pub uninterp spec fn group_hash(domain: Seq<char>, message: Seq<u8>) -> Seq<u8>;

/// Decodes a scalar and encodes it again.
///
/// Calls `Fq::from_repr` and `Fq::to_repr`. Claimed: decoding succeeds exactly
/// on the encodings of integers below the modulus, and encoding gives the bytes
/// back.
#[verifier::external_body]
fn scalar_from_repr(bytes: &[u8; 32]) -> (decoded: Option<[u8; 32]>)
    ensures
        decoded is Some <==> is_scalar_encoding(bytes@),
        decoded matches Some(repr) ==> repr@ == bytes@,
{
    Option::<pallas::Scalar>::from(pallas::Scalar::from_repr(*bytes)).map(|s| s.to_repr())
}

/// Reduces a sixty-four byte integer to a scalar.
///
/// Calls `Fq::from_uniform_bytes` and encodes its result. Claimed: the result
/// encodes the remainder of the little-endian input by the modulus.
#[verifier::external_body]
fn scalar_from_uniform_bytes(bytes: &[u8; 64]) -> (repr: [u8; 32])
    ensures
        le_value(repr@) == le_value(bytes@) % scalar_modulus(),
{
    pallas::Scalar::from_uniform_bytes(bytes).to_repr()
}

/// Decodes a base field element and encodes it again.
///
/// Calls `Fp::from_repr` and `Fp::to_repr`. Claimed: decoding succeeds exactly
/// on the encodings of integers below the modulus, and encoding gives the bytes
/// back.
#[verifier::external_body]
fn base_from_repr(bytes: &[u8; 32]) -> (decoded: Option<[u8; 32]>)
    ensures
        decoded is Some <==> is_base_encoding(bytes@),
        decoded matches Some(repr) ==> repr@ == bytes@,
{
    Option::<pallas::Base>::from(pallas::Base::from_repr(*bytes)).map(|b| b.to_repr())
}

/// Decodes a point and encodes it again.
///
/// Calls `EpAffine::from_bytes` and `EpAffine::to_bytes`. Claimed: decoding
/// succeeds exactly on all zeros (the point at infinity) and on a reduced
/// x-coordinate of a curve point with the parity of y in the top bit, and
/// encoding gives the bytes back.
#[verifier::external_body]
fn affine_from_bytes(bytes: &[u8; 32]) -> (decoded: Option<[u8; 32]>)
    ensures
        decoded is Some <==> is_point_encoding(bytes@),
        decoded matches Some(repr) ==> repr@ == bytes@,
{
    Option::<pallas::Affine>::from(pallas::Affine::from_bytes(bytes)).map(|p| p.to_bytes())
}

/// The encoded coordinates of an encoded point.
///
/// Calls `EpAffine::coordinates`. Claimed: the point at infinity has none; those
/// of another point are the x in its encoding and the y that goes with it.
#[verifier::external_body]
fn affine_coordinates(point: &[u8; 32]) -> (coordinates: Option<([u8; 32], [u8; 32])>)
    requires
        is_point_encoding(point@),
    ensures
        coordinates is None <==> is_identity_encoding(point@),
        coordinates matches Some((x, y)) ==> {
            &&& le_value(x@) == encoded_x(point@)
            &&& is_encoded_y(point@, le_value(y@))
        },
{
    Option::from(pallas::Affine::from_bytes(point).unwrap().coordinates())
        .map(|c: halo2_proofs::arithmetic::Coordinates<pallas::Affine>| {
            (c.x().to_repr(), c.y().to_repr())
        })
}

/// Multiplies an encoded point by an encoded scalar.
///
/// Calls the product of `Ep` and `Fq`, which doubles and adds along the bits of
/// the scalar. Claimed: the result, a point, is a function of the two encodings;
/// the multiple by zero is the point at infinity, that by one is the point itself,
/// and that by a sum of scalars is the sum of the multiples by them, since the
/// order of the group is the modulus of the scalars.
#[verifier::external_body]
fn point_times_scalar(point: &[u8; 32], scalar: &[u8; 32]) -> (product: [u8; 32])
    requires
        is_point_encoding(point@),
        is_scalar_encoding(scalar@),
    ensures
        product@ == point_multiple(point@, scalar@),
        is_point_encoding(product@),
        is_multiple(point@, scalar@, product@),
{
    let scalar = pallas::Scalar::from_repr(*scalar).unwrap();
    (pallas::Point::from_bytes(point).unwrap() * scalar).to_affine().to_bytes()
}

/// Adds two encoded points.
///
/// Calls the sum of two values of `Ep`. Claimed: the result, a point, is a
/// function of the two encodings, and adding the point at infinity changes
/// nothing.
#[verifier::external_body]
fn point_plus_point(a: &[u8; 32], b: &[u8; 32]) -> (sum: [u8; 32])
    requires
        is_point_encoding(a@),
        is_point_encoding(b@),
    ensures
        sum@ == point_sum(a@, b@),
        is_point_encoding(sum@),
        is_identity_encoding(a@) ==> sum@ == b@,
        is_identity_encoding(b@) ==> sum@ == a@,
{
    let sum = pallas::Point::from_bytes(a).unwrap() + pallas::Point::from_bytes(b).unwrap();
    sum.to_affine().to_bytes()
}

/// Hashes a message to a point under a domain prefix.
///
/// Calls the hasher that `Ep::hash_to_curve` returns for the prefix. Claimed:
/// the result, a point, is a function of prefix and message. A prefix of more
/// than 227 bytes makes the outside function panic; a character of the prefix
/// is a byte where it is ASCII.
#[verifier::external_body]
fn hash_to_curve(domain: &str, message: &[u8]) -> (point: [u8; 32])
    requires
        domain.is_ascii(),
        domain@.len() < 228,
    ensures
        point@ == group_hash(domain@, message@),
        is_point_encoding(point@),
{
    pallas::Point::hash_to_curve(domain)(message).to_affine().to_bytes()
}

/// An element of the scalar field.
#[derive(Copy, Clone)]
pub struct Scalar {
    bytes: [u8; 32],
}

impl View for Scalar {
    type V = Seq<u8>;

    /// The encoding of the scalar.
    closed spec fn view(&self) -> Seq<u8> {
        self.bytes@
    }
}

impl Scalar {
    #[verifier::type_invariant]
    spec fn reduced(self) -> bool {
        is_scalar_encoding(self.bytes@)
    }

    /// The scalar with the given encoding.
    pub open spec fn of(bytes: Seq<u8>) -> Scalar {
        choose|v: Scalar| v@ == bytes
    }

    /// A scalar is determined by its encoding.
    pub proof fn lemma_view_injective(a: Scalar, b: Scalar)
        requires
            a@ == b@,
        ensures
            a == b,
    {
        lemma_array_from_view(a.bytes, b.bytes);
    }

    /// A scalar is the one with its encoding, which has thirty-two bytes.
    pub proof fn lemma_of(v: Scalar)
        ensures
            Scalar::of(v@) == v,
            array_of::<32>(v@)@ == v@,
    {
        lemma_array_of(v.bytes);
        let w = Scalar::of(v@);
        assert(w@ == v@);
        Scalar::lemma_view_injective(w, v);
    }

    /// The scalar that an integer of any length, given in little-endian bytes,
    /// reduces to.
    pub open spec fn of_wide(bytes: Seq<u8>) -> Scalar {
        choose|v: Scalar| v.is_remainder_of(bytes)
    }

    /// Whether the scalar is what an integer reduces to.
    pub open spec fn is_remainder_of(self, bytes: Seq<u8>) -> bool {
        &&& is_scalar_encoding(self@)
        &&& le_value(self@) == le_value(bytes) % scalar_modulus()
    }

    /// No more than one scalar is what an integer reduces to.
    pub proof fn lemma_of_wide(v: Scalar, bytes: Seq<u8>)
        requires
            v.is_remainder_of(bytes),
        ensures
            Scalar::of_wide(bytes) == v,
    {
        let w = Scalar::of_wide(bytes);
        assert(w.is_remainder_of(bytes));
        lemma_le_value_injective(w@, v@);
        Scalar::lemma_view_injective(w, v);
    }

    /// Decodes a scalar, failing if the integer is not reduced.
    pub fn from_bytes(bytes: &[u8; 32]) -> (decoded: Option<Scalar>)
        ensures
            decoded is Some <==> is_scalar_encoding(bytes@),
            decoded matches Some(scalar) ==> scalar@ == bytes@,
    {
        match scalar_from_repr(bytes) {
            Some(repr) => Some(Scalar { bytes: repr }),
            None => None,
        }
    }

    /// Reduces a sixty-four byte little-endian integer to a scalar.
    pub fn from_bytes_wide(bytes: &[u8; 64]) -> (scalar: Scalar)
        ensures
            scalar.is_remainder_of(bytes@),
            is_scalar_encoding(scalar@),
            le_value(scalar@) == le_value(bytes@) % scalar_modulus(),
    {
        Scalar { bytes: scalar_from_uniform_bytes(bytes) }
    }

    /// The encoding of the scalar.
    pub fn to_bytes(&self) -> (bytes: [u8; 32])
        ensures
            bytes@ == self@,
            is_scalar_encoding(bytes@),
    {
        proof {
            use_type_invariant(self);
        }
        self.bytes
    }
}

impl PartialEq for Scalar {
    fn eq(&self, other: &Self) -> (same: bool) {
        proof {
            if self@ == other@ {
                Scalar::lemma_view_injective(*self, *other);
            }
        }
        bytes_eq(&self.bytes, &other.bytes)
    }
}

impl vstd::std_specs::cmp::PartialEqSpecImpl for Scalar {
    open spec fn obeys_eq_spec() -> bool {
        true
    }

    open spec fn eq_spec(&self, other: &Self) -> bool {
        *self == *other
    }
}

impl Eq for Scalar {

}

/// An element of the base field.
#[derive(Copy, Clone)]
pub struct Base {
    bytes: [u8; 32],
}

impl View for Base {
    type V = Seq<u8>;

    /// The encoding of the field element.
    closed spec fn view(&self) -> Seq<u8> {
        self.bytes@
    }
}

impl Base {
    #[verifier::type_invariant]
    spec fn reduced(self) -> bool {
        is_base_encoding(self.bytes@)
    }

    /// The field element with the given encoding.
    pub open spec fn of(bytes: Seq<u8>) -> Base {
        choose|v: Base| v@ == bytes
    }

    /// A field element is determined by its encoding.
    pub proof fn lemma_view_injective(a: Base, b: Base)
        requires
            a@ == b@,
        ensures
            a == b,
    {
        lemma_array_from_view(a.bytes, b.bytes);
    }

    /// A field element is the one with its encoding, which has thirty-two bytes.
    pub proof fn lemma_of(v: Base)
        ensures
            Base::of(v@) == v,
            array_of::<32>(v@)@ == v@,
    {
        lemma_array_of(v.bytes);
        let w = Base::of(v@);
        assert(w@ == v@);
        Base::lemma_view_injective(w, v);
    }

    /// Decodes a field element, failing if the integer is not reduced.
    pub fn from_bytes(bytes: &[u8; 32]) -> (decoded: Option<Base>)
        ensures
            decoded is Some <==> is_base_encoding(bytes@),
            decoded matches Some(element) ==> element@ == bytes@,
    {
        match base_from_repr(bytes) {
            Some(repr) => Some(Base { bytes: repr }),
            None => None,
        }
    }

    /// The encoding of the field element.
    pub fn to_bytes(&self) -> (bytes: [u8; 32])
        ensures
            bytes@ == self@,
            is_base_encoding(bytes@),
    {
        proof {
            use_type_invariant(self);
        }
        self.bytes
    }

    /// The zero of the field.
    fn zero() -> (zero: Base)
        ensures
            le_value(zero@) == 0,
    {
        let bytes = [0u8; 32];
        proof {
            lemma_le_value_zero(bytes@);
        }
        Base { bytes }
    }
}

impl PartialEq for Base {
    fn eq(&self, other: &Self) -> (same: bool) {
        proof {
            if self@ == other@ {
                Base::lemma_view_injective(*self, *other);
            }
        }
        bytes_eq(&self.bytes, &other.bytes)
    }
}

impl vstd::std_specs::cmp::PartialEqSpecImpl for Base {
    open spec fn obeys_eq_spec() -> bool {
        true
    }

    open spec fn eq_spec(&self, other: &Self) -> bool {
        *self == *other
    }
}

impl Eq for Base {

}

/// A point of the curve, as group arithmetic yields it.
#[derive(Copy, Clone)]
pub struct Point {
    bytes: [u8; 32],
}

impl View for Point {
    type V = Seq<u8>;

    /// The encoding of the point.
    closed spec fn view(&self) -> Seq<u8> {
        self.bytes@
    }
}

impl Point {
    #[verifier::type_invariant]
    spec fn on_curve(self) -> bool {
        is_point_encoding(self.bytes@)
    }

    /// The point with the given encoding.
    pub open spec fn of(bytes: Seq<u8>) -> Point {
        choose|v: Point| v@ == bytes
    }

    /// A point is determined by its encoding.
    pub proof fn lemma_view_injective(a: Point, b: Point)
        requires
            a@ == b@,
        ensures
            a == b,
    {
        lemma_array_from_view(a.bytes, b.bytes);
    }

    /// A point is the one with its encoding, which has thirty-two bytes.
    pub proof fn lemma_of(v: Point)
        ensures
            Point::of(v@) == v,
            array_of::<32>(v@)@ == v@,
    {
        lemma_array_of(v.bytes);
        let w = Point::of(v@);
        assert(w@ == v@);
        Point::lemma_view_injective(w, v);
    }

    /// The encoding of the point.
    pub fn to_bytes(&self) -> (bytes: [u8; 32])
        ensures
            bytes@ == self@,
            is_point_encoding(bytes@),
    {
        proof {
            use_type_invariant(self);
        }
        self.bytes
    }

    /// The point multiplied by a scalar.
    pub fn scale(&self, scalar: &Scalar) -> (product: Point)
        ensures
            product@ == point_multiple(self@, scalar@),
            is_point_encoding(product@),
            is_scalar_encoding(scalar@),
            is_multiple(self@, scalar@, product@),
    {
        proof {
            use_type_invariant(self);
            use_type_invariant(scalar);
        }
        Point { bytes: point_times_scalar(&self.bytes, &scalar.bytes) }
    }

    /// The sum of two points.
    pub fn plus(&self, other: &Point) -> (sum: Point)
        ensures
            sum@ == point_sum(self@, other@),
            is_point_encoding(sum@),
            is_identity_encoding(self@) ==> sum@ == other@,
            is_identity_encoding(other@) ==> sum@ == self@,
    {
        proof {
            use_type_invariant(self);
            use_type_invariant(other);
        }
        Point { bytes: point_plus_point(&self.bytes, &other.bytes) }
    }
}

impl PartialEq for Point {
    fn eq(&self, other: &Self) -> (same: bool) {
        proof {
            if self@ == other@ {
                Point::lemma_view_injective(*self, *other);
            }
        }
        bytes_eq(&self.bytes, &other.bytes)
    }
}

impl vstd::std_specs::cmp::PartialEqSpecImpl for Point {
    open spec fn obeys_eq_spec() -> bool {
        true
    }

    open spec fn eq_spec(&self, other: &Self) -> bool {
        *self == *other
    }
}

impl Eq for Point {

}

/// A point of the curve in its affine form.
#[derive(Copy, Clone)]
pub struct Affine {
    bytes: [u8; 32],
}

impl View for Affine {
    type V = Seq<u8>;

    /// The encoding of the point.
    closed spec fn view(&self) -> Seq<u8> {
        self.bytes@
    }
}

impl Affine {
    #[verifier::type_invariant]
    spec fn on_curve(self) -> bool {
        is_point_encoding(self.bytes@)
    }

    /// The point with the given encoding.
    pub open spec fn of(bytes: Seq<u8>) -> Affine {
        choose|v: Affine| v@ == bytes
    }

    /// A point is determined by its encoding.
    pub proof fn lemma_view_injective(a: Affine, b: Affine)
        requires
            a@ == b@,
        ensures
            a == b,
    {
        lemma_array_from_view(a.bytes, b.bytes);
    }

    /// A point is the one with its encoding, which has thirty-two bytes.
    pub proof fn lemma_of(v: Affine)
        ensures
            Affine::of(v@) == v,
            array_of::<32>(v@)@ == v@,
    {
        lemma_array_of(v.bytes);
        let w = Affine::of(v@);
        assert(w@ == v@);
        Affine::lemma_view_injective(w, v);
    }

    /// Decodes a point, failing if it is not on the curve or not canonical.
    pub fn from_bytes(bytes: &[u8; 32]) -> (decoded: Option<Affine>)
        ensures
            decoded is Some <==> is_point_encoding(bytes@),
            decoded matches Some(point) ==> point@ == bytes@,
    {
        match affine_from_bytes(bytes) {
            Some(repr) => Some(Affine { bytes: repr }),
            None => None,
        }
    }

    /// The encoding of the point.
    pub fn to_bytes(&self) -> (bytes: [u8; 32])
        ensures
            bytes@ == self@,
            is_point_encoding(bytes@),
    {
        proof {
            use_type_invariant(self);
        }
        self.bytes
    }

    /// The x-coordinate, which is zero for the point at infinity.
    pub fn get_x(&self) -> (x: Base)
        ensures
            le_value(x@) == encoded_x(self@),
    {
        proof {
            use_type_invariant(self);
        }
        match affine_coordinates(&self.bytes) {
            Some((x, y)) => Base { bytes: x },
            None => Base::zero(),
        }
    }

    /// The y-coordinate, which is zero for the point at infinity.
    pub fn get_y(&self) -> (y: Base)
        ensures
            is_identity_encoding(self@) ==> le_value(y@) == 0,
            !is_identity_encoding(self@) ==> is_encoded_y(self@, le_value(y@)),
    {
        proof {
            use_type_invariant(self);
        }
        match affine_coordinates(&self.bytes) {
            Some((x, y)) => Base { bytes: y },
            None => Base::zero(),
        }
    }
}

impl PartialEq for Affine {
    fn eq(&self, other: &Self) -> (same: bool) {
        proof {
            if self@ == other@ {
                Affine::lemma_view_injective(*self, *other);
            }
        }
        bytes_eq(&self.bytes, &other.bytes)
    }
}

impl vstd::std_specs::cmp::PartialEqSpecImpl for Affine {
    open spec fn obeys_eq_spec() -> bool {
        true
    }

    open spec fn eq_spec(&self, other: &Self) -> bool {
        *self == *other
    }
}

impl Eq for Affine {

}

impl From<Point> for Affine {
    fn from(point: Point) -> (affine: Affine)
        ensures
            affine@ == point@,
    {
        proof {
            use_type_invariant(&point);
        }
        let affine = Affine { bytes: point.bytes };
        proof {
            Affine::lemma_of(affine);
        }
        affine
    }
}

impl vstd::std_specs::convert::FromSpecImpl<Point> for Affine {
    open spec fn obeys_from_spec() -> bool {
        true
    }

    open spec fn from_spec(point: Point) -> Affine {
        Affine::of(point@)
    }
}

/// Hashes a message to a point of the curve, under a domain separator.
pub fn pallas_group_hash(domain: &str, message: &[u8]) -> (point: Point)
    requires
        domain.is_ascii(),
        domain@.len() < 228,
    ensures
        point@ == group_hash(domain@, message@),
        is_point_encoding(point@),
{
    Point { bytes: hash_to_curve(domain, message) }
}

/// Two values of `Scalar` are equal if and only if their encodings are.
pub proof fn law_scalar_equality(a: Scalar, b: Scalar)
    ensures
        a.eq_spec(&b) <==> a@ == b@,
{
    if a@ == b@ {
        Scalar::lemma_view_injective(a, b);
    }
}

/// Two values of `Base` are equal if and only if their encodings are.
pub proof fn law_base_equality(a: Base, b: Base)
    ensures
        a.eq_spec(&b) <==> a@ == b@,
{
    if a@ == b@ {
        Base::lemma_view_injective(a, b);
    }
}

/// Two values of `Point` are equal if and only if their encodings are.
pub proof fn law_point_equality(a: Point, b: Point)
    ensures
        a.eq_spec(&b) <==> a@ == b@,
{
    if a@ == b@ {
        Point::lemma_view_injective(a, b);
    }
}

/// Two values of `Affine` are equal if and only if their encodings are.
pub proof fn law_affine_equality(a: Affine, b: Affine)
    ensures
        a.eq_spec(&b) <==> a@ == b@,
{
    if a@ == b@ {
        Affine::lemma_view_injective(a, b);
    }
}

} // verus!
