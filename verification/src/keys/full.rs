//! Full viewing keys.
use vstd::prelude::*;
use vstd::string::StringExecFns;

use super::commitment::IvkCommitRandomness;
use super::hrp::{lemma_hrps, network_of, read_network, FVK_MAINNET, FVK_TESTNET};
use super::nullifier::NullifierDerivingKey;
use super::validating::SpendValidatingKey;
use crate::base32::{
    base32_bytes, base32_digits, from_base32, lemma_are_digits, lemma_base32_round_trip,
    lemma_digits_len, to_base32,
};
use crate::bytes::array_at;
use crate::debug::{hex_text, items_text, tuple_text};
use crate::network::Network;
use crate::pallas::{is_base_encoding, is_point_encoding, is_scalar_encoding, Base, Scalar};
use crate::prf::{blake2b_digest, expanded, prf_expand};
use crate::redpallas::VerificationKey;
use crate::serialization::{read_32_bytes, SerializationError};
use crate::text::{
    are_readable_digits, decode, decoded_parts, encode, encoded_text, is_change, is_lower_case,
    lemma_lower_case, parts_view, upper_case, Parts, Variant,
};

verus! {

/// Full Viewing Keys
///
/// Allows recognizing both incoming and outgoing notes without having
/// spend authority.
///
/// For full viewing keys on the production network, the human-readable part is
/// "zviewo". For full viewing keys on the test network, the human-readable part
/// is "zviewtestorchard".
#[derive(Copy, Clone)]
pub struct FullViewingKey {
    network: Network,
    spend_validating_key: SpendValidatingKey,
    nullifier_deriving_key: NullifierDerivingKey,
    ivk_commit_randomness: IvkCommitRandomness,
}

/// What a full viewing key is made of.
pub struct FullViewingKeyParts {
    /// The network of the key.
    pub network: Network,
    /// The encoding of the spend validating key.
    pub ak: Seq<u8>,
    /// The encoding of the nullifier deriving key.
    pub nk: Seq<u8>,
    /// The encoding of the commitment randomness.
    pub rivk: Seq<u8>,
}

impl View for FullViewingKey {
    type V = FullViewingKeyParts;

    closed spec fn view(&self) -> FullViewingKeyParts {
        FullViewingKeyParts {
            network: self.network,
            ak: self.spend_validating_key@,
            nk: self.nullifier_deriving_key@,
            rivk: self.ivk_commit_randomness@,
        }
    }
}

impl FullViewingKey {
    /// A key is determined by what it is made of.
    pub proof fn lemma_view_injective(a: FullViewingKey, b: FullViewingKey)
        requires
            a@ == b@,
        ensures
            a == b,
    {
        VerificationKey::lemma_view_injective(a.spend_validating_key.0, b.spend_validating_key.0);
        Base::lemma_view_injective(a.nullifier_deriving_key.0, b.nullifier_deriving_key.0);
        IvkCommitRandomness::lemma_view_injective(
            a.ivk_commit_randomness,
            b.ivk_commit_randomness,
        );
    }

    /// The network of the key and the keys that it is made of.
    pub fn parts(&self) -> (parts: (
        Network,
        SpendValidatingKey,
        NullifierDerivingKey,
        IvkCommitRandomness,
    ))
        ensures
            self@ == (FullViewingKeyParts {
                network: parts.0,
                ak: parts.1@,
                nk: parts.2@,
                rivk: parts.3@,
            }),
    {
        (
            self.network,
            self.spend_validating_key,
            self.nullifier_deriving_key,
            self.ivk_commit_randomness,
        )
    }

    /// The human-readable part of keys for a network.
    pub open spec fn hrp(network: Network) -> Seq<char> {
        match network {
            Network::Mainnet => FVK_MAINNET@,
            Network::Testnet => FVK_TESTNET@,
        }
    }

    /// The text of a key.
    pub open spec fn text(key: FullViewingKeyParts) -> Seq<char> {
        encoded_text(
            FullViewingKey::hrp(key.network),
            base32_digits(key.ak + key.nk + key.rivk),
            Variant::Bech32,
        )
    }

    /// Whether a text that holds `parts` can be read: if its checksum is the one
    /// for keys, then its digits stand for bytes; and if these are enough for a
    /// key, they encode a point, a base field element and a scalar.
    pub open spec fn is_readable(parts: Option<(Seq<char>, Seq<u8>, Variant)>) -> bool {
        match parts {
            Some((_, digits, Variant::Bech32)) => {
                base32_bytes(digits) matches Some(bytes) && (bytes.len() >= 96 ==> {
                    &&& is_point_encoding(bytes.subrange(0, 32))
                    &&& is_base_encoding(bytes.subrange(32, 64))
                    &&& is_scalar_encoding(bytes.subrange(64, 96))
                })
            },
            _ => true,
        }
    }

    /// What reading a text that holds `parts` gives: its first ninety-six bytes,
    /// if it has as many, are the encodings of the parts of the key.
    pub open spec fn read(parts: Option<(Seq<char>, Seq<u8>, Variant)>) -> Result<
        FullViewingKeyParts,
        SerializationError,
    > {
        match parts {
            Some((hrp, digits, Variant::Bech32)) => {
                let bytes = base32_bytes(digits)->0;
                if bytes.len() >= 96 {
                    Ok(
                        FullViewingKeyParts {
                            network: network_of(hrp, FVK_MAINNET@),
                            ak: bytes.subrange(0, 32),
                            nk: bytes.subrange(32, 64),
                            rivk: bytes.subrange(64, 96),
                        },
                    )
                } else {
                    Err(SerializationError::UnexpectedEof)
                }
            },
            _ => Err(SerializationError::Parse("bech32 decoding error")),
        }
    }

    /// Whether reading a text that holds `parts` fails because it is not the text
    /// of a key.
    pub open spec fn refuses(parts: Option<(Seq<char>, Seq<u8>, Variant)>) -> bool {
        FullViewingKey::read(parts) == Err::<FullViewingKeyParts, _>(
            SerializationError::Parse("bech32 decoding error"),
        )
    }

    /// What the diversifier key and the outgoing viewing key are taken from:
    /// _PRF^expand_ of _rivk_ with t = [0x82] || _ak_ || _nk_.
    pub open spec fn expanded(key: FullViewingKeyParts) -> Seq<u8> {
        expanded(key.rivk, seq![0x82u8] + key.ak + key.nk)
    }

    /// What the diversifier key and the outgoing viewing key are taken from.
    pub(crate) fn expand(&self) -> (r: [u8; 64])
        ensures
            r@ == FullViewingKey::expanded(self@),
            r@ == blake2b_digest(
                64,
                "Zcash_ExpandSeed"@,
                self@.rivk + seq![0x82u8] + self@.ak + self@.nk,
            ),
    {
        let ak = <[u8; 32]>::from(self.spend_validating_key);
        let nk = <[u8; 32]>::from(self.nullifier_deriving_key);
        let mut t: Vec<u8> = Vec::new();
        t.push(0x82);
        t.extend_from_slice(&ak);
        t.extend_from_slice(&nk);
        assert(t@ =~= seq![0x82u8] + ak@ + nk@);
        let rivk = <[u8; 32]>::from(self.ivk_commit_randomness);
        assert(rivk@ + t@ =~= rivk@ + seq![0x82u8] + ak@ + nk@);
        prf_expand(rivk, t.as_slice())
    }

    /// The text of a key for diagnostics.
    pub open spec fn shown(key: FullViewingKeyParts) -> Seq<char> {
        "FullViewingKey { network: "@ + key.network.name() + ", spend_validating_key: "@
            + SpendValidatingKey::shown(key.ak) + ", nullifier_deriving_key: "@ + tuple_text(
            "NullifierDerivingKey"@,
            key.nk,
        ) + ", ivk_commit_randomness: "@ + tuple_text("IvkCommitRandomness"@, key.rivk) + " }"@
    }

    /// The text of the key for diagnostics.
    pub fn debug_text(&self) -> (text: String)
        ensures
            text@ == FullViewingKey::shown(self@),
            text@ == "FullViewingKey { network: "@ + self@.network.name()
                + ", spend_validating_key: "@ + "SpendValidatingKey(VerificationKey { bytes: "@
                + "["@ + items_text(self@.ak) + "]"@ + " })"@ + ", nullifier_deriving_key: "@
                + "NullifierDerivingKey"@ + "(\""@ + hex_text(self@.nk) + "\")"@
                + ", ivk_commit_randomness: "@ + "IvkCommitRandomness"@ + "(\""@ + hex_text(
                self@.rivk,
            ) + "\")"@ + " }"@,
    {
        let mut text = "FullViewingKey { network: ".to_owned();
        text.append(self.network.as_str());
        text.append(", spend_validating_key: ");
        text.append(self.spend_validating_key.debug_text().as_str());
        text.append(", nullifier_deriving_key: ");
        text.append(self.nullifier_deriving_key.debug_text().as_str());
        text.append(", ivk_commit_randomness: ");
        text.append(self.ivk_commit_randomness.debug_text().as_str());
        text.append(" }");
        text
    }

    /// The text of the key.
    ///
    /// Reading the text gives the key back, and so does reading it in capitals. A
    /// text in which one character behind the separator was replaced by another
    /// one that could stand there is refused.
    pub fn to_string(&self) -> (text: String)
        ensures
            text@ == FullViewingKey::text(self@),
            text@ == encoded_text(
                if self@.network == Network::Mainnet {
                    FVK_MAINNET@
                } else {
                    FVK_TESTNET@
                },
                base32_digits(self@.ak + self@.nk + self@.rivk),
                Variant::Bech32,
            ),
            decoded_parts(text@) matches Some((hrp, digits, variant)) && {
                &&& hrp == if self@.network == Network::Mainnet {
                    FVK_MAINNET@
                } else {
                    FVK_TESTNET@
                }
                &&& base32_bytes(digits) == Some(self@.ak + self@.nk + self@.rivk)
                &&& variant == Variant::Bech32
            },
            self@.ak.len() == 32,
            self@.nk.len() == 32,
            self@.rivk.len() == 32,
            (FullViewingKey::hrp(self@.network) + seq!['1']).is_prefix_of(text@),
            text@.len() == FullViewingKey::hrp(self@.network).len() + 161,
            is_lower_case(text@),
            FullViewingKey::is_readable(decoded_parts(text@)),
            FullViewingKey::read(decoded_parts(text@)) == Ok::<_, SerializationError>(self@),
            FullViewingKey::is_readable(decoded_parts(upper_case(text@))),
            FullViewingKey::read(decoded_parts(upper_case(text@))) == Ok::<_, SerializationError>(self@),
            forall|i: int, c: char|
                is_change(FullViewingKey::hrp(self@.network), text@, i, c) ==> {
                    &&& FullViewingKey::is_readable(decoded_parts(#[trigger] text@.update(i, c)))
                    &&& FullViewingKey::refuses(decoded_parts(text@.update(i, c)))
                },
    {
        let ak = <[u8; 32]>::from(self.spend_validating_key);
        let nk = <[u8; 32]>::from(self.nullifier_deriving_key);
        let rivk = <[u8; 32]>::from(self.ivk_commit_randomness);
        let mut bytes: Vec<u8> = Vec::new();
        bytes.extend_from_slice(&ak);
        bytes.extend_from_slice(&nk);
        bytes.extend_from_slice(&rivk);
        let hrp = match self.network {
            Network::Mainnet => FVK_MAINNET,
            Network::Testnet => FVK_TESTNET,
        };
        proof {
            assert(bytes@ =~= ak@ + nk@ + rivk@);
            assert(bytes@.subrange(0, 32) =~= ak@);
            assert(bytes@.subrange(32, 64) =~= nk@);
            assert(bytes@.subrange(64, 96) =~= rivk@);
            lemma_hrps();
            lemma_digits_len(bytes@);
            lemma_are_digits(bytes@);
            lemma_base32_round_trip(bytes@);
        }
        let text = encode(hrp, to_base32(bytes.as_slice()).as_slice(), Variant::Bech32);
        proof {
            lemma_lower_case(hrp@, text@);
        }
        text
    }

    /// Reads a key from what its text holds.
    pub fn from_parts(parts: Option<Parts>) -> (key: Result<FullViewingKey, SerializationError>)
        requires
            are_readable_digits(parts),
            FullViewingKey::is_readable(parts_view(parts)),
        ensures
            match key {
                Ok(k) => FullViewingKey::read(parts_view(parts)) == Ok::<_, SerializationError>(k@),
                Err(e) => FullViewingKey::read(parts_view(parts)) == Err::<
                    FullViewingKeyParts,
                    _,
                >(e),
            },
            match parts {
                Some(Parts { hrp, digits, variant: Variant::Bech32 }) => {
                    let bytes = base32_bytes(digits@)->0;
                    if bytes.len() >= 96 {
                        key matches Ok(k) && {
                            &&& k@.network == Network::Mainnet <==> hrp@ == FVK_MAINNET@
                            &&& k@.ak == bytes.subrange(0, 32)
                            &&& k@.nk == bytes.subrange(32, 64)
                            &&& k@.rivk == bytes.subrange(64, 96)
                        }
                    } else {
                        key == Err::<FullViewingKey, _>(SerializationError::UnexpectedEof)
                    }
                },
                _ => key == Err::<FullViewingKey, _>(SerializationError::Parse("bech32 decoding error")),
            },
    {
        match parts {
            Some(Parts { hrp, digits, variant: Variant::Bech32 }) => {
                let decoded = from_base32(digits.as_slice()).unwrap();
                let ak_bytes = read_32_bytes(decoded.as_slice(), 0)?;
                let nk_bytes = read_32_bytes(decoded.as_slice(), 32)?;
                let rivk_bytes = read_32_bytes(decoded.as_slice(), 64)?;
                Ok(
                    FullViewingKey {
                        network: read_network(&hrp, FVK_MAINNET),
                        spend_validating_key: SpendValidatingKey::from_bytes(ak_bytes),
                        nullifier_deriving_key: NullifierDerivingKey::from_bytes(nk_bytes),
                        ivk_commit_randomness: IvkCommitRandomness::from_bytes(rivk_bytes),
                    },
                )
            },
            _ => Err(SerializationError::Parse("bech32 decoding error")),
        }
    }

    /// Reads a key from its text.
    pub fn from_str(s: &str) -> (key: Result<FullViewingKey, SerializationError>)
        requires
            FullViewingKey::is_readable(decoded_parts(s@)),
        ensures
            match key {
                Ok(k) => FullViewingKey::read(decoded_parts(s@)) == Ok::<_, SerializationError>(k@),
                Err(e) => FullViewingKey::read(decoded_parts(s@)) == Err::<
                    FullViewingKeyParts,
                    _,
                >(e),
            },
            match decoded_parts(s@) {
                Some((hrp, digits, Variant::Bech32)) => {
                    let bytes = base32_bytes(digits)->0;
                    if bytes.len() >= 96 {
                        key matches Ok(k) && {
                            &&& k@.network == Network::Mainnet <==> hrp == FVK_MAINNET@
                            &&& k@.ak == bytes.subrange(0, 32)
                            &&& k@.nk == bytes.subrange(32, 64)
                            &&& k@.rivk == bytes.subrange(64, 96)
                        }
                    } else {
                        key == Err::<FullViewingKey, _>(SerializationError::UnexpectedEof)
                    }
                },
                _ => key == Err::<FullViewingKey, _>(SerializationError::Parse("bech32 decoding error")),
            },
    {
        FullViewingKey::from_parts(decode(s))
    }

    /// Reads a key from its text, if the text can be read.
    pub fn try_from_str(s: &str) -> (key: Option<Result<FullViewingKey, SerializationError>>)
        ensures
            key is Some <==> FullViewingKey::is_readable(decoded_parts(s@)),
            key matches Some(Ok(k)) ==> FullViewingKey::read(decoded_parts(s@)) == Ok::<
                _,
                SerializationError,
            >(k@),
            key matches Some(Err(e)) ==> FullViewingKey::read(decoded_parts(s@)) == Err::<
                FullViewingKeyParts,
                _,
            >(e),
            match decoded_parts(s@) {
                Some((hrp, digits, Variant::Bech32)) => match base32_bytes(digits) {
                    Some(bytes) => if bytes.len() < 96 {
                        key == Some(Err::<FullViewingKey, _>(SerializationError::UnexpectedEof))
                    } else if is_point_encoding(bytes.subrange(0, 32)) && is_base_encoding(
                        bytes.subrange(32, 64),
                    ) && is_scalar_encoding(bytes.subrange(64, 96)) {
                        key matches Some(Ok(k)) && {
                            &&& k@.network == Network::Mainnet <==> hrp == FVK_MAINNET@
                            &&& k@.ak == bytes.subrange(0, 32)
                            &&& k@.nk == bytes.subrange(32, 64)
                            &&& k@.rivk == bytes.subrange(64, 96)
                        }
                    } else {
                        key is None
                    },
                    None => key is None,
                },
                _ => key == Some(
                    Err::<FullViewingKey, _>(SerializationError::Parse("bech32 decoding error")),
                ),
            },
    {
        let readable = match decode(s) {
            Some(Parts { hrp: _, digits, variant: Variant::Bech32 }) => {
                match from_base32(digits.as_slice()) {
                    Some(decoded) => {
                        decoded.len() < 96 || {
                            let bytes = decoded.as_slice();
                            VerificationKey::from_bytes(&array_at(bytes, 0)).is_some()
                                && Base::from_bytes(&array_at(bytes, 32)).is_some()
                                && Scalar::from_bytes(&array_at(bytes, 64)).is_some()
                        }
                    },
                    None => false,
                }
            },
            _ => true,
        };
        if readable {
            Some(FullViewingKey::from_str(s))
        } else {
            None
        }
    }
}

impl PartialEq for FullViewingKey {
    fn eq(&self, other: &Self) -> (same: bool) {
        self.network == other.network && self.spend_validating_key == other.spend_validating_key
            && self.nullifier_deriving_key == other.nullifier_deriving_key
            && self.ivk_commit_randomness == other.ivk_commit_randomness
    }
}

impl vstd::std_specs::cmp::PartialEqSpecImpl for FullViewingKey {
    open spec fn obeys_eq_spec() -> bool {
        true
    }

    open spec fn eq_spec(&self, other: &Self) -> bool {
        *self == *other
    }
}

impl Eq for FullViewingKey {

}

} // verus!
