//! Incoming viewing keys (_ivk_).
use vstd::prelude::*;

use super::hrp::{lemma_hrps, network_of, read_network, IVK_MAINNET, IVK_TESTNET};
use crate::base32::{
    base32_bytes, base32_digits, from_base32, lemma_are_digits, lemma_base32_round_trip,
    lemma_digits_len, to_base32,
};
use crate::bytes::{array_at, bytes_eq};
use crate::debug::{debug_tuple, tuple_text};
use crate::network::Network;
use crate::pallas::{is_scalar_encoding, Scalar};
use crate::serialization::SerializationError;
use crate::text::{
    are_readable_digits, decode, decoded_parts, encode, encoded_text, is_change, is_lower_case,
    lemma_lower_case, parts_view, upper_case, Parts, Variant,
};

verus! {

/// An _Incoming Viewing Key_.
///
/// Used to decrypt incoming notes without spending them.
#[derive(Copy, Clone)]
pub struct IncomingViewingKey {
    network: Network,
    scalar: Scalar,
}

impl View for IncomingViewingKey {
    type V = (Network, Seq<u8>);

    /// The network of the key and the encoding of its scalar.
    closed spec fn view(&self) -> (Network, Seq<u8>) {
        (self.network, self.scalar@)
    }
}

impl IncomingViewingKey {
    /// A key is determined by its network and the encoding of its scalar.
    pub proof fn lemma_view_injective(a: IncomingViewingKey, b: IncomingViewingKey)
        requires
            a@ == b@,
        ensures
            a == b,
    {
        Scalar::lemma_view_injective(a.scalar, b.scalar);
    }

    /// The human-readable part of keys for a network.
    pub open spec fn hrp(network: Network) -> Seq<char> {
        match network {
            Network::Mainnet => IVK_MAINNET@,
            Network::Testnet => IVK_TESTNET@,
        }
    }

    /// The text of a key.
    pub open spec fn text(key: (Network, Seq<u8>)) -> Seq<char> {
        encoded_text(IncomingViewingKey::hrp(key.0), base32_digits(key.1), Variant::Bech32)
    }

    /// Whether a text that holds `parts` can be read: if its checksum is the one
    /// for keys, then its digits stand for at least thirty-two bytes, the first
    /// of which encode a scalar.
    pub open spec fn is_readable(parts: Option<(Seq<char>, Seq<u8>, Variant)>) -> bool {
        match parts {
            Some((_, digits, Variant::Bech32)) => {
                base32_bytes(digits) matches Some(bytes) && bytes.len() >= 32
                    && is_scalar_encoding(bytes.subrange(0, 32))
            },
            _ => true,
        }
    }

    /// What reading a text that holds `parts` gives: its first thirty-two bytes
    /// are the scalar.
    pub open spec fn read(parts: Option<(Seq<char>, Seq<u8>, Variant)>) -> Result<
        (Network, Seq<u8>),
        SerializationError,
    > {
        match parts {
            Some((hrp, digits, Variant::Bech32)) => Ok(
                (network_of(hrp, IVK_MAINNET@), base32_bytes(digits)->0.subrange(0, 32)),
            ),
            _ => Err(SerializationError::Parse("bech32 decoding error")),
        }
    }

    /// Whether reading a text that holds `parts` fails because it is not the text
    /// of a key.
    pub open spec fn refuses(parts: Option<(Seq<char>, Seq<u8>, Variant)>) -> bool {
        IncomingViewingKey::read(parts) == Err::<(Network, Seq<u8>), _>(
            SerializationError::Parse("bech32 decoding error"),
        )
    }

    /// Generate an _IncomingViewingKey_ from existing bytes.
    pub fn from_bytes(bytes: [u8; 32]) -> (ivk: IncomingViewingKey)
        requires
            is_scalar_encoding(bytes@),
        ensures
            ivk@ == (Network::Mainnet, bytes@),
    {
        IncomingViewingKey {
            network: Network::default(),
            scalar: Scalar::from_bytes(&bytes).unwrap(),
        }
    }

    /// The scalar of the key.
    pub fn to_scalar(&self) -> (scalar: Scalar)
        ensures
            scalar@ == self@.1,
    {
        self.scalar
    }

    /// The text of the key for diagnostics.
    pub fn debug_text(&self) -> (text: String)
        ensures
            text@ == tuple_text("IncomingViewingKey"@, self@.1),
    {
        debug_tuple("IncomingViewingKey", &self.scalar.to_bytes())
    }

    /// The text of the key.
    ///
    /// Reading the text gives the key back, and so does reading it in capitals. A
    /// text in which one character behind the separator was replaced by another
    /// one that could stand there is refused.
    pub fn to_string(&self) -> (text: String)
        ensures
            text@ == IncomingViewingKey::text(self@),
            text@ == encoded_text(
                if self@.0 == Network::Mainnet {
                    IVK_MAINNET@
                } else {
                    IVK_TESTNET@
                },
                base32_digits(self@.1),
                Variant::Bech32,
            ),
            decoded_parts(text@) matches Some((hrp, digits, variant)) && {
                &&& hrp == if self@.0 == Network::Mainnet {
                    IVK_MAINNET@
                } else {
                    IVK_TESTNET@
                }
                &&& base32_bytes(digits) == Some(self@.1)
                &&& variant == Variant::Bech32
            },
            self@.1.len() == 32,
            (IncomingViewingKey::hrp(self@.0) + seq!['1']).is_prefix_of(text@),
            text@.len() == IncomingViewingKey::hrp(self@.0).len() + 59,
            is_lower_case(text@),
            IncomingViewingKey::is_readable(decoded_parts(text@)),
            IncomingViewingKey::read(decoded_parts(text@)) == Ok::<_, SerializationError>(self@),
            IncomingViewingKey::is_readable(decoded_parts(upper_case(text@))),
            IncomingViewingKey::read(decoded_parts(upper_case(text@))) == Ok::<_, SerializationError>(self@),
            forall|i: int, c: char|
                is_change(IncomingViewingKey::hrp(self@.0), text@, i, c) ==> {
                    &&& IncomingViewingKey::is_readable(decoded_parts(#[trigger] text@.update(i, c)))
                    &&& IncomingViewingKey::refuses(decoded_parts(text@.update(i, c)))
                },
    {
        let hrp = match self.network {
            Network::Mainnet => IVK_MAINNET,
            Network::Testnet => IVK_TESTNET,
        };
        let bytes = self.scalar.to_bytes();
        proof {
            lemma_hrps();
            lemma_digits_len(bytes@);
            lemma_are_digits(bytes@);
            lemma_base32_round_trip(bytes@);
            assert(bytes@.subrange(0, 32) =~= bytes@);
        }
        let text = encode(hrp, to_base32(&bytes).as_slice(), Variant::Bech32);
        proof {
            lemma_lower_case(hrp@, text@);
        }
        text
    }

    /// Reads a key from what its text holds.
    pub fn from_parts(parts: Option<Parts>) -> (key: Result<IncomingViewingKey, SerializationError>)
        requires
            are_readable_digits(parts),
            IncomingViewingKey::is_readable(parts_view(parts)),
        ensures
            match key {
                Ok(k) => IncomingViewingKey::read(parts_view(parts)) == Ok::<_, SerializationError>(k@),
                Err(e) => IncomingViewingKey::read(parts_view(parts)) == Err::<(Network, Seq<u8>), _>(e),
            },
            match parts {
                Some(Parts { hrp, digits, variant: Variant::Bech32 }) => key matches Ok(k) && {
                    &&& k@.0 == Network::Mainnet <==> hrp@ == IVK_MAINNET@
                    &&& k@.1 == base32_bytes(digits@)->0.subrange(0, 32)
                },
                _ => key == Err::<IncomingViewingKey, _>(SerializationError::Parse("bech32 decoding error")),
            },
    {
        match parts {
            Some(Parts { hrp, digits, variant: Variant::Bech32 }) => {
                let decoded = from_base32(digits.as_slice()).unwrap();
                let scalar_bytes = array_at(decoded.as_slice(), 0);
                Ok(
                    IncomingViewingKey {
                        network: read_network(&hrp, IVK_MAINNET),
                        scalar: Scalar::from_bytes(&scalar_bytes).unwrap(),
                    },
                )
            },
            _ => Err(SerializationError::Parse("bech32 decoding error")),
        }
    }

    /// Reads a key from its text.
    pub fn from_str(s: &str) -> (key: Result<IncomingViewingKey, SerializationError>)
        requires
            IncomingViewingKey::is_readable(decoded_parts(s@)),
        ensures
            match key {
                Ok(k) => IncomingViewingKey::read(decoded_parts(s@)) == Ok::<_, SerializationError>(k@),
                Err(e) => IncomingViewingKey::read(decoded_parts(s@)) == Err::<(Network, Seq<u8>), _>(e),
            },
            match decoded_parts(s@) {
                Some((hrp, digits, Variant::Bech32)) => key matches Ok(k) && {
                    &&& k@.0 == Network::Mainnet <==> hrp == IVK_MAINNET@
                    &&& k@.1 == base32_bytes(digits)->0.subrange(0, 32)
                },
                _ => key == Err::<IncomingViewingKey, _>(SerializationError::Parse("bech32 decoding error")),
            },
    {
        IncomingViewingKey::from_parts(decode(s))
    }

    /// Reads a key from its text, if the text can be read.
    pub fn try_from_str(s: &str) -> (key: Option<Result<IncomingViewingKey, SerializationError>>)
        ensures
            key is Some <==> IncomingViewingKey::is_readable(decoded_parts(s@)),
            key matches Some(Ok(k)) ==> IncomingViewingKey::read(decoded_parts(s@)) == Ok::<
                _,
                SerializationError,
            >(k@),
            key matches Some(Err(e)) ==> IncomingViewingKey::read(decoded_parts(s@)) == Err::<
                (Network, Seq<u8>),
                _,
            >(e),
            match decoded_parts(s@) {
                Some((hrp, digits, Variant::Bech32)) => match base32_bytes(digits) {
                    Some(bytes) => if bytes.len() >= 32 && is_scalar_encoding(bytes.subrange(0, 32)) {
                        key matches Some(Ok(k)) && {
                            &&& k@.0 == Network::Mainnet <==> hrp == IVK_MAINNET@
                            &&& k@.1 == bytes.subrange(0, 32)
                        }
                    } else {
                        key is None
                    },
                    None => key is None,
                },
                _ => key == Some(
                    Err::<IncomingViewingKey, _>(SerializationError::Parse("bech32 decoding error")),
                ),
            },
    {
        let readable = match decode(s) {
            Some(Parts { hrp: _, digits, variant: Variant::Bech32 }) => {
                match from_base32(digits.as_slice()) {
                    Some(decoded) => decoded.len() >= 32 && Scalar::from_bytes(
                        &array_at(decoded.as_slice(), 0),
                    ).is_some(),
                    None => false,
                }
            },
            _ => true,
        };
        if readable {
            Some(IncomingViewingKey::from_str(s))
        } else {
            None
        }
    }
}

impl PartialEq for IncomingViewingKey {
    fn eq(&self, other: &Self) -> (same: bool) {
        self.network == other.network && self.scalar == other.scalar
    }
}

impl vstd::std_specs::cmp::PartialEqSpecImpl for IncomingViewingKey {
    open spec fn obeys_eq_spec() -> bool {
        true
    }

    open spec fn eq_spec(&self, other: &Self) -> bool {
        *self == *other
    }
}

impl Eq for IncomingViewingKey {

}

impl PartialEq<[u8; 32]> for IncomingViewingKey {
    fn eq(&self, other: &[u8; 32]) -> (same: bool) {
        bytes_eq(&self.scalar.to_bytes(), other)
    }
}

impl vstd::std_specs::cmp::PartialEqSpecImpl<[u8; 32]> for IncomingViewingKey {
    open spec fn obeys_eq_spec() -> bool {
        true
    }

    /// Whether the bytes are the encoding of the scalar of the key.
    open spec fn eq_spec(&self, other: &[u8; 32]) -> bool {
        self@.1 == other@
    }
}

} // verus!
