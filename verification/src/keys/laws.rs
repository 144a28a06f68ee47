//! What holds of the keys as a whole: when two are the same, and what
//! converting, comparing, serializing and deriving have to do with each other.
use vstd::prelude::*;
use vstd::std_specs::cmp::PartialEqSpec;
use vstd::std_specs::convert::{FromSpec, TryFromSpec};

use super::authorizing::SpendAuthorizingKey;
use super::commitment::IvkCommitRandomness;
use super::diversifier::{diversified_base, Diversifier};
use super::ephemeral::EphemeralPublicKey;
use super::full::{FullViewingKey, FullViewingKeyParts};
use super::hrp::{
    FVK_MAINNET, FVK_TESTNET, IVK_MAINNET, IVK_TESTNET, SK_MAINNET, SK_TESTNET,
};
use super::incoming::IncomingViewingKey;
use super::nullifier::NullifierDerivingKey;
use super::outgoing::OutgoingViewingKey;
use super::spending::SpendingKey;
use super::transmission::TransmissionKey;
use super::validating::SpendValidatingKey;
use crate::base32::{are_digits, base32_bytes, lemma_base32_canonical};
use crate::bytes::{le_value, lemma_array_from_view, lemma_array_of};
use crate::network::Network;
use crate::pallas::{
    group_hash, is_base_encoding, is_point_encoding, is_scalar_encoding, point_multiple,
    scalar_modulus, Affine, Base, Point, Scalar,
};
use crate::prf::blake2b_digest;
use crate::redpallas::VerificationKey;
use crate::serialization::SerializationError;
use crate::text::{encoded_text, Variant};

verus! {

/// Two spend authorizing keys are equal if and only if their encodings are; a key
/// equals bytes if and only if it converts to them; and no other key converts to
/// the bytes that it converts to.
pub proof fn law_spend_authorizing_key_is_its_encoding(
    a: SpendAuthorizingKey,
    b: SpendAuthorizingKey,
    bytes: [u8; 32],
)
    ensures
        a.eq_spec(&b) <==> a@ == b@,
        a.eq_spec(&bytes) <==> <[u8; 32] as FromSpec<_>>::from_spec(a) == bytes,
        <[u8; 32] as FromSpec<_>>::from_spec(a) == <[u8; 32] as FromSpec<_>>::from_spec(b) ==> a
            == b,
{
    Scalar::lemma_of(a.0);
    Scalar::lemma_of(b.0);
    lemma_array_of(bytes);
    if a@ == b@ {
        Scalar::lemma_view_injective(a.0, b.0);
    }
}

/// Two spend validating keys are equal if and only if their encodings are; a key
/// equals bytes if and only if it converts to them; and no other key converts to
/// the bytes that it converts to.
pub proof fn law_spend_validating_key_is_its_encoding(
    a: SpendValidatingKey,
    b: SpendValidatingKey,
    bytes: [u8; 32],
)
    ensures
        a.eq_spec(&b) <==> a@ == b@,
        a.eq_spec(&bytes) <==> <[u8; 32] as FromSpec<_>>::from_spec(a) == bytes,
        <[u8; 32] as FromSpec<_>>::from_spec(a) == <[u8; 32] as FromSpec<_>>::from_spec(b) ==> a
            == b,
{
    VerificationKey::lemma_of(a.0);
    VerificationKey::lemma_of(b.0);
    lemma_array_of(bytes);
    if a@ == b@ {
        VerificationKey::lemma_view_injective(a.0, b.0);
    }
}

/// Two nullifier deriving keys are equal if and only if their encodings are; a
/// key equals bytes if and only if it converts to them; and no other key converts
/// to the bytes that it converts to.
pub proof fn law_nullifier_deriving_key_is_its_encoding(
    a: NullifierDerivingKey,
    b: NullifierDerivingKey,
    bytes: [u8; 32],
)
    ensures
        a.eq_spec(&b) <==> a@ == b@,
        a.eq_spec(&bytes) <==> <[u8; 32] as FromSpec<_>>::from_spec(a) == bytes,
        <[u8; 32] as FromSpec<_>>::from_spec(a) == <[u8; 32] as FromSpec<_>>::from_spec(b) ==> a
            == b,
{
    Base::lemma_of(a.0);
    Base::lemma_of(b.0);
    lemma_array_of(bytes);
    if a@ == b@ {
        Base::lemma_view_injective(a.0, b.0);
    }
}

/// Two transmission keys are equal if and only if their encodings are; a key
/// equals bytes if and only if it converts to them; and no other key converts to
/// the bytes that it converts to.
pub proof fn law_transmission_key_is_its_encoding(
    a: TransmissionKey,
    b: TransmissionKey,
    bytes: [u8; 32],
)
    ensures
        a.eq_spec(&b) <==> a@ == b@,
        a.eq_spec(&bytes) <==> <[u8; 32] as FromSpec<_>>::from_spec(a) == bytes,
        <[u8; 32] as FromSpec<_>>::from_spec(a) == <[u8; 32] as FromSpec<_>>::from_spec(b) ==> a
            == b,
{
    Affine::lemma_of(a.0);
    Affine::lemma_of(b.0);
    lemma_array_of(bytes);
    if a@ == b@ {
        Affine::lemma_view_injective(a.0, b.0);
    }
}

/// Two commitment randomnesses are equal if and only if their encodings are, and
/// no other converts to the bytes that one converts to.
pub proof fn law_ivk_commit_randomness_is_its_encoding(
    a: IvkCommitRandomness,
    b: IvkCommitRandomness,
)
    ensures
        a.eq_spec(&b) <==> a@ == b@,
        <[u8; 32] as FromSpec<_>>::from_spec(a) == <[u8; 32] as FromSpec<_>>::from_spec(b) ==> a
            == b,
{
    IvkCommitRandomness::lemma_encoding(a);
    IvkCommitRandomness::lemma_encoding(b);
    if a@ == b@ {
        IvkCommitRandomness::lemma_view_injective(a, b);
    }
}

/// Two spending keys are equal if and only if their networks and bytes are; the
/// key made from bytes is for the production network, and different bytes make
/// different keys.
pub proof fn law_spending_key_is_its_bytes(
    a: SpendingKey,
    b: SpendingKey,
    first: [u8; 32],
    second: [u8; 32],
)
    ensures
        a.eq_spec(&b) <==> a@ == b@,
        SpendingKey::from_spec(first)@ == (Network::Mainnet, first@),
        SpendingKey::from_spec(first) == SpendingKey::from_spec(second) ==> first == second,
{
    if a@ == b@ {
        SpendingKey::lemma_view_injective(a, b);
    }
    SpendingKey::lemma_from_bytes(first);
    SpendingKey::lemma_from_bytes(second);
    if SpendingKey::from_spec(first) == SpendingKey::from_spec(second) {
        lemma_array_from_view(first, second);
    }
}

/// Two incoming viewing keys are equal if and only if their networks and scalars
/// are. Comparing with bytes leaves the network out of account: keys with one
/// scalar equal the same bytes.
pub proof fn law_incoming_viewing_key_is_its_scalar(
    a: IncomingViewingKey,
    b: IncomingViewingKey,
    bytes: [u8; 32],
)
    ensures
        a.eq_spec(&b) <==> a@ == b@,
        a.eq_spec(&bytes) <==> a@.1 == bytes@,
        a@.1 == b@.1 ==> (a.eq_spec(&bytes) <==> b.eq_spec(&bytes)),
        a.eq_spec(&bytes) && b.eq_spec(&bytes) ==> a@.1 == b@.1,
{
    if a@ == b@ {
        IncomingViewingKey::lemma_view_injective(a, b);
    }
}

/// Two full viewing keys are equal if and only if they are made of the same.
pub proof fn law_full_viewing_key_is_its_parts(a: FullViewingKey, b: FullViewingKey)
    ensures
        a.eq_spec(&b) <==> a@ == b@,
{
    if a@ == b@ {
        FullViewingKey::lemma_view_injective(a, b);
    }
}

/// Outgoing viewing keys and byte arrays convert into each other without loss,
/// and a key equals bytes if and only if it converts to them.
pub proof fn law_outgoing_viewing_key_is_its_bytes(ovk: OutgoingViewingKey, bytes: [u8; 32])
    ensures
        OutgoingViewingKey::from_spec(<[u8; 32] as FromSpec<_>>::from_spec(ovk)) == ovk,
        <[u8; 32] as FromSpec<_>>::from_spec(OutgoingViewingKey::from_spec(bytes)) == bytes,
        ovk.eq_spec(&bytes) <==> <[u8; 32] as FromSpec<_>>::from_spec(ovk) == bytes,
{
    if ovk@ == bytes@ {
        lemma_array_from_view(ovk.0, bytes);
    }
}

/// Two outgoing viewing keys are equal if and only if all their bytes are.
pub proof fn law_outgoing_viewing_key_equality(a: OutgoingViewingKey, b: OutgoingViewingKey)
    ensures
        a.eq_spec(&b) <==> forall|i: int| 0 <= i < 32 ==> #[trigger] a.0@[i] == b.0@[i],
{
    if forall|i: int| 0 <= i < 32 ==> #[trigger] a.0@[i] == b.0@[i] {
        assert(a.0@ =~= b.0@);
        lemma_array_from_view(a.0, b.0);
    }
}

/// Two diversifiers are equal if and only if all their bytes are.
pub proof fn law_diversifier_equality(a: Diversifier, b: Diversifier)
    ensures
        a.eq_spec(&b) <==> forall|i: int| 0 <= i < 11 ==> #[trigger] a.0@[i] == b.0@[i],
{
    if forall|i: int| 0 <= i < 11 ==> #[trigger] a.0@[i] == b.0@[i] {
        assert(a.0@ =~= b.0@);
        lemma_array_from_view(a.0, b.0);
    }
}

/// Diversifiers and byte arrays convert into each other without loss, and a
/// diversifier equals bytes if and only if it converts to them.
pub proof fn law_diversifier_is_its_bytes(d: Diversifier, bytes: [u8; 11])
    ensures
        Diversifier::from_spec(<[u8; 11] as FromSpec<_>>::from_spec(d)) == d,
        <[u8; 11] as FromSpec<_>>::from_spec(Diversifier::from_spec(bytes)) == bytes,
        d.eq_spec(&bytes) <==> <[u8; 11] as FromSpec<_>>::from_spec(d) == bytes,
{
    if d@ == bytes@ {
        lemma_array_from_view(d.0, bytes);
    }
}

/// Two ephemeral public keys are equal if and only if their encodings are; a key
/// equals bytes if and only if it converts to them; and it is the key that the
/// bytes it converts to convert back to.
pub proof fn law_ephemeral_public_key_is_its_encoding(
    a: EphemeralPublicKey,
    b: EphemeralPublicKey,
    bytes: [u8; 32],
)
    requires
        is_point_encoding(a@),
    ensures
        a.eq_spec(&b) <==> a@ == b@,
        a.eq_spec(&bytes) <==> <[u8; 32] as FromSpec<_>>::from_spec(&a) == bytes,
        EphemeralPublicKey::try_from_spec(<[u8; 32] as FromSpec<_>>::from_spec(&a)) == Ok::<
            _,
            &'static str,
        >(a),
{
    Affine::lemma_of(a.0);
    Affine::lemma_of(b.0);
    lemma_array_of(bytes);
    if a@ == b@ {
        Affine::lemma_view_injective(a.0, b.0);
    }
}

/// Deserializing what an ephemeral public key was serialized to, whatever follows
/// it, gives the key back.
pub proof fn law_ephemeral_public_key_round_trip(epk: EphemeralPublicKey, rest: Seq<u8>)
    requires
        is_point_encoding(epk@),
    ensures
        EphemeralPublicKey::read(epk@ + rest) == Ok::<_, SerializationError>(epk@),
{
    assert((epk@ + rest).subrange(0, 32) =~= epk@);
}

/// An input that an ephemeral public key was deserialized from starts with what
/// the key is serialized to: no two encodings stand for one key.
pub proof fn law_ephemeral_public_key_is_canonical(epk: EphemeralPublicKey, input: Seq<u8>)
    requires
        EphemeralPublicKey::read(input) == Ok::<_, SerializationError>(epk@),
    ensures
        epk@.is_prefix_of(input),
{
}

/// The spend authorizing key depends on the bytes of the spending key alone, not
/// on its network, and so does the spend validating key.
pub proof fn law_derivation_ignores_network(a: SpendingKey, b: SpendingKey)
    requires
        a@.1 == b@.1,
    ensures
        SpendAuthorizingKey::from_spec(a) == SpendAuthorizingKey::from_spec(b),
        SpendValidatingKey::from_spec(SpendAuthorizingKey::from_spec(a))
            == SpendValidatingKey::from_spec(SpendAuthorizingKey::from_spec(b)),
{
}

/// The outgoing viewing key does not depend on the network of the full viewing
/// key.
pub proof fn law_outgoing_viewing_key_ignores_network(a: FullViewingKey, b: FullViewingKey)
    requires
        a@.ak == b@.ak,
        a@.nk == b@.nk,
        a@.rivk == b@.rivk,
    ensures
        OutgoingViewingKey::from_spec(a) == OutgoingViewingKey::from_spec(b),
{
}

/// The transmission key depends on the scalar of the incoming viewing key and the
/// diversifier alone.
pub proof fn law_transmission_key_ignores_network(
    a: IncomingViewingKey,
    b: IncomingViewingKey,
    d: Diversifier,
)
    requires
        a@.1 == b@.1,
    ensures
        TransmissionKey::from_spec((a, d)) == TransmissionKey::from_spec((b, d)),
{
}

/// A diversifier stands for one base point, whichever form the point is asked for
/// in.
pub proof fn law_diversified_base_point(d: Diversifier, point: Point)
    requires
        point@ == diversified_base(d@),
    ensures
        Affine::try_from_spec(d) == Ok::<_, &'static str>(Affine::from_spec(point)),
{
}

/// Writing a spending key that was read from digits which hold nothing else,
/// under the human-readable part for its network, gives these digits again.
pub proof fn law_spending_key_text_is_canonical(
    hrp: Seq<char>,
    digits: Seq<u8>,
    key: (Network, Seq<u8>),
)
    requires
        are_digits(digits),
        base32_bytes(digits) matches Some(bytes) && bytes.len() == 32,
        SpendingKey::read(Some((hrp, digits, Variant::Bech32))) == Ok::<_, SerializationError>(key),
        hrp == SpendingKey::hrp(key.0),
    ensures
        SpendingKey::text(key) == encoded_text(hrp, digits, Variant::Bech32),
{
    let bytes = base32_bytes(digits)->0;
    lemma_base32_canonical(digits);
    assert(bytes.subrange(0, 32) =~= bytes);
}

/// Writing an incoming viewing key that was read from digits which hold nothing
/// else, under the human-readable part for its network, gives these digits again.
pub proof fn law_incoming_viewing_key_text_is_canonical(
    hrp: Seq<char>,
    digits: Seq<u8>,
    key: (Network, Seq<u8>),
)
    requires
        are_digits(digits),
        base32_bytes(digits) matches Some(bytes) && bytes.len() == 32,
        IncomingViewingKey::read(Some((hrp, digits, Variant::Bech32))) == Ok::<_, SerializationError>(key),
        hrp == IncomingViewingKey::hrp(key.0),
    ensures
        IncomingViewingKey::text(key) == encoded_text(hrp, digits, Variant::Bech32),
{
    let bytes = base32_bytes(digits)->0;
    lemma_base32_canonical(digits);
    assert(bytes.subrange(0, 32) =~= bytes);
}

/// Writing a full viewing key that was read from digits which hold nothing else,
/// under the human-readable part for its network, gives these digits again.
pub proof fn law_full_viewing_key_text_is_canonical(
    hrp: Seq<char>,
    digits: Seq<u8>,
    key: FullViewingKeyParts,
)
    requires
        are_digits(digits),
        base32_bytes(digits) matches Some(bytes) && bytes.len() == 96,
        FullViewingKey::read(Some((hrp, digits, Variant::Bech32))) == Ok::<_, SerializationError>(key),
        hrp == FullViewingKey::hrp(key.network),
    ensures
        FullViewingKey::text(key) == encoded_text(hrp, digits, Variant::Bech32),
{
    let bytes = base32_bytes(digits)->0;
    lemma_base32_canonical(digits);
    assert(bytes.subrange(0, 32) + bytes.subrange(32, 64) + bytes.subrange(64, 96) =~= bytes);
}

/// A key that wraps a value or an array is seen as what it wraps.
pub proof fn law_keys_are_seen_as_they_are(
    ask: SpendAuthorizingKey,
    ak: SpendValidatingKey,
    nk: NullifierDerivingKey,
    ovk: OutgoingViewingKey,
    d: Diversifier,
    pk_d: TransmissionKey,
    epk: EphemeralPublicKey,
)
    ensures
        ask@ == ask.0@,
        ak@ == ak.0@,
        nk@ == nk.0@,
        ovk@ == ovk.0@,
        d@ == d.0@,
        pk_d@ == pk_d.0@,
        epk@ == epk.0@,
{
}

/// The spend authorizing key is what the digest of every byte of the spending
/// key, each in its place, and then of the byte six reduces to.
pub proof fn law_spend_authorizing_key_derivation(
    sk: SpendingKey,
    input: Seq<u8>,
    ask: SpendAuthorizingKey,
)
    requires
        sk@.1.len() == 32,
        input.len() == 33,
        forall|i: int| 0 <= i < 32 ==> #[trigger] input[i] == sk@.1[i],
        input[32] == 6,
        is_scalar_encoding(ask.0@),
        le_value(ask.0@) == le_value(blake2b_digest(64, "Zcash_ExpandSeed"@, input))
            % scalar_modulus(),
    ensures
        ask == SpendAuthorizingKey::from_spec(sk),
{
    assert(input =~= sk@.1 + seq![6u8]);
    Scalar::lemma_of_wide(ask.0, blake2b_digest(64, "Zcash_ExpandSeed"@, input));
}

/// The spend validating key is the multiple of what the letter `G` hashes to by
/// the spend authorizing key.
pub proof fn law_spend_validating_key_derivation(ask: SpendAuthorizingKey, ak: SpendValidatingKey)
    requires
        ak.0@ == point_multiple(group_hash("z.cash:Orchard"@, seq!['G' as u8]), ask.0@),
    ensures
        ak == SpendValidatingKey::from_spec(ask),
{
    assert('G' as u8 == 0x47u8);
    VerificationKey::lemma_of(ak.0);
}

/// The outgoing viewing key is the last thirty-two bytes of the digest of all
/// bytes of the commitment randomness, then the byte 0x82, then all bytes of the
/// spend validating key and of the nullifier deriving key, each in its place.
pub proof fn law_outgoing_viewing_key_derivation(
    fvk: FullViewingKey,
    input: Seq<u8>,
    ovk: OutgoingViewingKey,
)
    requires
        fvk@.ak.len() == 32,
        fvk@.nk.len() == 32,
        fvk@.rivk.len() == 32,
        input.len() == 97,
        forall|i: int| 0 <= i < 32 ==> input[i] == #[trigger] fvk@.rivk[i],
        input[32] == 0x82,
        forall|i: int| 0 <= i < 32 ==> input[33 + i] == #[trigger] fvk@.ak[i],
        forall|i: int| 0 <= i < 32 ==> input[65 + i] == #[trigger] fvk@.nk[i],
        blake2b_digest(64, "Zcash_ExpandSeed"@, input).len() == 64,
        forall|i: int|
            0 <= i < 32 ==> #[trigger] ovk.0@[i] == blake2b_digest(
                64,
                "Zcash_ExpandSeed"@,
                input,
            )[32 + i],
    ensures
        ovk == OutgoingViewingKey::from_spec(fvk),
        FullViewingKey::expanded(fvk@) == blake2b_digest(64, "Zcash_ExpandSeed"@, input),
{
    assert(input =~= fvk@.rivk + (seq![0x82u8] + fvk@.ak + fvk@.nk));
    assert(ovk.0@ =~= blake2b_digest(64, "Zcash_ExpandSeed"@, input).subrange(32, 64));
    lemma_array_of(ovk.0);
}

/// The base point of a diversifier is the group hash of exactly its bytes, in
/// their order, in either form; and the transmission key is its multiple by the
/// scalar of the incoming viewing key.
pub proof fn law_transmission_key_derivation(
    ivk: IncomingViewingKey,
    d: Diversifier,
    message: Seq<u8>,
    g_d: Point,
    affine: Affine,
    pk_d: TransmissionKey,
)
    requires
        message.len() == 11,
        forall|i: int| 0 <= i < 11 ==> #[trigger] message[i] == d.0@[i],
        g_d@ == group_hash("z.cash:Orchard-gd"@, message),
        affine@ == group_hash("z.cash:Orchard-gd"@, message),
        pk_d.0@ == point_multiple(group_hash("z.cash:Orchard-gd"@, message), ivk@.1),
    ensures
        diversified_base(d.0@) == group_hash("z.cash:Orchard-gd"@, message),
        g_d == Point::from_spec(d),
        Affine::try_from_spec(d) == Ok::<_, &'static str>(affine),
        pk_d == TransmissionKey::from_spec((ivk, d)),
{
    assert(message =~= d.0@);
    Point::lemma_of(g_d);
    Affine::lemma_of(affine);
    Affine::lemma_of(pk_d.0);
}

/// The base point depends on nothing but the bytes of the diversifier, for byte
/// strings of any length.
pub proof fn law_diversified_base_is_the_group_hash(d: Seq<u8>)
    ensures
        diversified_base(d) == group_hash("z.cash:Orchard-gd"@, d),
{
}

/// Reading a spending key takes the first thirty-two bytes, each in its place, from a text
/// whose digits stand for as many; the key is for the production
/// network exactly if the human-readable part says so.
pub proof fn law_spending_key_is_read_in_order(hrp: Seq<char>, digits: Seq<u8>, bytes: Seq<u8>)
    requires
        base32_bytes(digits) == Some(bytes),
        bytes.len() >= 32,
    ensures
        SpendingKey::read(Some((hrp, digits, Variant::Bech32))) matches Ok(key) && {
            &&& key.0 == Network::Mainnet <==> hrp == SK_MAINNET@
            &&& key.1.len() == 32
            &&& forall|i: int| 0 <= i < 32 ==> #[trigger] key.1[i] == bytes[i]
        },
{
}

/// A text is readable as a spending key if and only if it is not Bech32, and is then
/// refused, or its digits stand for at least thirty-two bytes.
pub proof fn law_spending_key_readable(parts: Option<(Seq<char>, Seq<u8>, Variant)>)
    ensures
        SpendingKey::is_readable(parts) <==> match parts {
            Some((hrp, digits, variant)) => variant == Variant::Bech32m || (base32_bytes(
                digits,
            ) matches Some(bytes) && bytes.len() >= 32),
            None => true,
        },
        !(parts matches Some((hrp, digits, Variant::Bech32))) ==> SpendingKey::read(parts) == Err::<
            (Network, Seq<u8>),
            _,
        >(SerializationError::Parse("bech32 decoding error")),
        SpendingKey::refuses(parts) <==> !(parts matches Some((hrp, digits, Variant::Bech32))),
{
}

/// The text of a spending key has the human-readable part for its network, and digits
/// that stand for exactly its bytes.
pub proof fn law_spending_key_is_written_in_order(
    key: (Network, Seq<u8>),
    digits: Seq<u8>,
)
    requires
        are_digits(digits),
        base32_bytes(digits) == Some(key.1),
    ensures
        key.0 == Network::Mainnet ==> SpendingKey::text(key) == encoded_text(
            SK_MAINNET@,
            digits,
            Variant::Bech32,
        ),
        key.0 == Network::Testnet ==> SpendingKey::text(key) == encoded_text(
            SK_TESTNET@,
            digits,
            Variant::Bech32,
        ),
        SpendingKey::hrp(Network::Mainnet) == SK_MAINNET@,
        SpendingKey::hrp(Network::Testnet) == SK_TESTNET@,
{
    lemma_base32_canonical(digits);
}

/// Reading an incoming viewing key takes the first thirty-two bytes, each in its place, from a text
/// whose digits stand for as many; the key is for the production
/// network exactly if the human-readable part says so.
pub proof fn law_incoming_viewing_key_is_read_in_order(hrp: Seq<char>, digits: Seq<u8>, bytes: Seq<u8>)
    requires
        base32_bytes(digits) == Some(bytes),
        bytes.len() >= 32,
    ensures
        IncomingViewingKey::read(Some((hrp, digits, Variant::Bech32))) matches Ok(key) && {
            &&& key.0 == Network::Mainnet <==> hrp == IVK_MAINNET@
            &&& key.1.len() == 32
            &&& forall|i: int| 0 <= i < 32 ==> #[trigger] key.1[i] == bytes[i]
        },
{
}

/// A text is readable as an incoming viewing key if and only if it is not Bech32, and is then
/// refused, or its digits stand for at least thirty-two bytes, of which the first encode a scalar.
pub proof fn law_incoming_viewing_key_readable(parts: Option<(Seq<char>, Seq<u8>, Variant)>)
    ensures
        IncomingViewingKey::is_readable(parts) <==> match parts {
            Some((hrp, digits, variant)) => variant == Variant::Bech32m || (base32_bytes(
                digits,
            ) matches Some(bytes) && bytes.len() >= 32 && is_scalar_encoding(
                bytes.subrange(0, 32),
            )),
            None => true,
        },
        !(parts matches Some((hrp, digits, Variant::Bech32))) ==> IncomingViewingKey::read(parts) == Err::<
            (Network, Seq<u8>),
            _,
        >(SerializationError::Parse("bech32 decoding error")),
        IncomingViewingKey::refuses(parts) <==> !(parts matches Some((hrp, digits, Variant::Bech32))),
{
}

/// The text of an incoming viewing key has the human-readable part for its network, and digits
/// that stand for exactly its bytes.
pub proof fn law_incoming_viewing_key_is_written_in_order(
    key: (Network, Seq<u8>),
    digits: Seq<u8>,
)
    requires
        are_digits(digits),
        base32_bytes(digits) == Some(key.1),
    ensures
        key.0 == Network::Mainnet ==> IncomingViewingKey::text(key) == encoded_text(
            IVK_MAINNET@,
            digits,
            Variant::Bech32,
        ),
        key.0 == Network::Testnet ==> IncomingViewingKey::text(key) == encoded_text(
            IVK_TESTNET@,
            digits,
            Variant::Bech32,
        ),
        IncomingViewingKey::hrp(Network::Mainnet) == IVK_MAINNET@,
        IncomingViewingKey::hrp(Network::Testnet) == IVK_TESTNET@,
{
    lemma_base32_canonical(digits);
}

/// Reading a full viewing key takes the spend validating key, the nullifier
/// deriving key and the commitment randomness from the first ninety-six bytes, in
/// this order and each byte in its place; where there are fewer, it fails.
pub proof fn law_full_viewing_key_is_read_in_order(
    hrp: Seq<char>,
    digits: Seq<u8>,
    bytes: Seq<u8>,
)
    requires
        base32_bytes(digits) == Some(bytes),
    ensures
        bytes.len() >= 96 ==> (FullViewingKey::read(
            Some((hrp, digits, Variant::Bech32)),
        ) matches Ok(key) && {
            &&& key.network == Network::Mainnet <==> hrp == FVK_MAINNET@
            &&& key.ak.len() == 32
            &&& key.nk.len() == 32
            &&& key.rivk.len() == 32
            &&& forall|i: int| 0 <= i < 32 ==> #[trigger] key.ak[i] == bytes[i]
            &&& forall|i: int| 0 <= i < 32 ==> #[trigger] key.nk[i] == bytes[32 + i]
            &&& forall|i: int| 0 <= i < 32 ==> #[trigger] key.rivk[i] == bytes[64 + i]
        }),
        bytes.len() < 96 ==> FullViewingKey::read(Some((hrp, digits, Variant::Bech32))) == Err::<
            FullViewingKeyParts,
            _,
        >(SerializationError::UnexpectedEof),
{
}

/// A text is readable as a full viewing key if and only if it is not Bech32, and is
/// then refused, or its digits stand for bytes that are too few or encode a point,
/// a base field element and a scalar.
pub proof fn law_full_viewing_key_readable(parts: Option<(Seq<char>, Seq<u8>, Variant)>)
    ensures
        FullViewingKey::is_readable(parts) <==> match parts {
            Some((hrp, digits, variant)) => variant == Variant::Bech32m || (base32_bytes(
                digits,
            ) matches Some(bytes) && (bytes.len() < 96 || (is_point_encoding(
                bytes.subrange(0, 32),
            ) && is_base_encoding(bytes.subrange(32, 64)) && is_scalar_encoding(
                bytes.subrange(64, 96),
            )))),
            None => true,
        },
        !(parts matches Some((hrp, digits, Variant::Bech32))) ==> FullViewingKey::read(parts)
            == Err::<FullViewingKeyParts, _>(SerializationError::Parse("bech32 decoding error")),
        FullViewingKey::refuses(parts) <==> !(parts matches Some((hrp, digits, Variant::Bech32))),
{
}

/// The text of a full viewing key has the human-readable part for its network, and
/// digits that stand for the bytes of the spend validating key, the nullifier
/// deriving key and the commitment randomness, in this order.
pub proof fn law_full_viewing_key_is_written_in_order(
    key: FullViewingKeyParts,
    digits: Seq<u8>,
    bytes: Seq<u8>,
)
    requires
        key.ak.len() == 32,
        key.nk.len() == 32,
        key.rivk.len() == 32,
        are_digits(digits),
        base32_bytes(digits) == Some(bytes),
        bytes.len() == 96,
        forall|i: int| 0 <= i < 32 ==> bytes[i] == #[trigger] key.ak[i],
        forall|i: int| 0 <= i < 32 ==> bytes[32 + i] == #[trigger] key.nk[i],
        forall|i: int| 0 <= i < 32 ==> bytes[64 + i] == #[trigger] key.rivk[i],
    ensures
        key.network == Network::Mainnet ==> FullViewingKey::text(key) == encoded_text(
            FVK_MAINNET@,
            digits,
            Variant::Bech32,
        ),
        key.network == Network::Testnet ==> FullViewingKey::text(key) == encoded_text(
            FVK_TESTNET@,
            digits,
            Variant::Bech32,
        ),
        FullViewingKey::hrp(Network::Mainnet) == FVK_MAINNET@,
        FullViewingKey::hrp(Network::Testnet) == FVK_TESTNET@,
{
    lemma_base32_canonical(digits);
    assert(bytes =~= key.ak + key.nk + key.rivk);
}

/// Deserializing an ephemeral public key fails for want of bytes exactly if there
/// are fewer than thirty-two, fails to parse exactly if the first thirty-two are
/// not a point, and otherwise takes these, each in its place.
pub proof fn law_ephemeral_public_key_is_read_in_order(input: Seq<u8>)
    ensures
        input.len() < 32 <==> EphemeralPublicKey::read(input) == Err::<Seq<u8>, _>(
            SerializationError::UnexpectedEof,
        ),
        input.len() >= 32 && !is_point_encoding(input.take(32)) <==> EphemeralPublicKey::read(input)
            == Err::<Seq<u8>, _>(SerializationError::Parse("Invalid pallas::Affine value")),
        EphemeralPublicKey::read(input) matches Ok(key) ==> {
            &&& key.len() == 32
            &&& forall|i: int| 0 <= i < 32 ==> #[trigger] key[i] == input[i]
        },
{
    if input.len() >= 32 {
        assert(input.take(32) =~= input.subrange(0, 32));
    }
}

} // verus!
