//! Spending keys, the roots of the key derivation tree.
use vstd::prelude::*;

use super::hrp::{lemma_hrps, network_of, read_network, SK_MAINNET, SK_TESTNET};
use crate::base32::{
    base32_bytes, base32_digits, from_base32, lemma_are_digits, lemma_base32_round_trip,
    lemma_digits_len, to_base32,
};
use crate::bytes::{array_at, bytes_eq, lemma_array_from_view};
use crate::network::Network;
use crate::serialization::SerializationError;
use crate::text::{
    are_readable_digits, decode, decoded_parts, encode, encoded_text, is_change, is_lower_case,
    lemma_lower_case, parts_view, upper_case, Parts, Variant,
};

verus! {

/// A spending key.
///
/// The root secret key of the Orchard key derivation tree. All other Orchard key
/// types derive from it.
#[derive(Copy, Clone, Debug)]
pub struct SpendingKey {
    network: Network,
    bytes: [u8; 32],
}

impl View for SpendingKey {
    type V = (Network, Seq<u8>);

    /// The network of the key and its bytes.
    closed spec fn view(&self) -> (Network, Seq<u8>) {
        (self.network, self.bytes@)
    }
}

impl SpendingKey {
    /// The key with the given network and bytes.
    pub open spec fn of(content: (Network, Seq<u8>)) -> SpendingKey {
        choose|v: SpendingKey| v@ == content
    }

    /// A key is determined by its network and its bytes.
    pub proof fn lemma_view_injective(a: SpendingKey, b: SpendingKey)
        requires
            a@ == b@,
        ensures
            a == b,
    {
        lemma_array_from_view(a.bytes, b.bytes);
    }

    /// A key is the one with its network and bytes.
    pub proof fn lemma_of(v: SpendingKey)
        ensures
            SpendingKey::of(v@) == v,
    {
        let w = SpendingKey::of(v@);
        assert(w@ == v@);
        SpendingKey::lemma_view_injective(w, v);
    }

    /// Any thirty-two bytes make a key for the production network.
    pub proof fn lemma_from_bytes(bytes: [u8; 32])
        ensures
            SpendingKey::of((Network::Mainnet, bytes@))@ == (Network::Mainnet, bytes@),
    {
        let key = SpendingKey { network: Network::Mainnet, bytes };
        SpendingKey::lemma_of(key);
    }

    /// The human-readable part of keys for a network.
    pub open spec fn hrp(network: Network) -> Seq<char> {
        match network {
            Network::Mainnet => SK_MAINNET@,
            Network::Testnet => SK_TESTNET@,
        }
    }

    /// The text of a key.
    pub open spec fn text(key: (Network, Seq<u8>)) -> Seq<char> {
        encoded_text(SpendingKey::hrp(key.0), base32_digits(key.1), Variant::Bech32)
    }

    /// Whether a text that holds `parts` can be read: if its checksum is the one
    /// for keys, then its digits stand for at least thirty-two bytes.
    pub open spec fn is_readable(parts: Option<(Seq<char>, Seq<u8>, Variant)>) -> bool {
        match parts {
            Some((_, digits, Variant::Bech32)) => {
                base32_bytes(digits) matches Some(bytes) && bytes.len() >= 32
            },
            _ => true,
        }
    }

    /// What reading a text that holds `parts` gives: its first thirty-two bytes
    /// are the key.
    pub open spec fn read(parts: Option<(Seq<char>, Seq<u8>, Variant)>) -> Result<
        (Network, Seq<u8>),
        SerializationError,
    > {
        match parts {
            Some((hrp, digits, Variant::Bech32)) => Ok(
                (network_of(hrp, SK_MAINNET@), base32_bytes(digits)->0.subrange(0, 32)),
            ),
            _ => Err(SerializationError::Parse("bech32 decoding error")),
        }
    }

    /// Whether reading a text that holds `parts` fails because it is not the text
    /// of a key.
    pub open spec fn refuses(parts: Option<(Seq<char>, Seq<u8>, Variant)>) -> bool {
        SpendingKey::read(parts) == Err::<(Network, Seq<u8>), _>(
            SerializationError::Parse("bech32 decoding error"),
        )
    }

    /// Generates a new key from random bytes.
    pub fn new(random: [u8; 32]) -> (key: SpendingKey)
        ensures
            key@ == (Network::Mainnet, random@),
    {
        SpendingKey::from(random)
    }

    /// The bytes of the key.
    pub(crate) fn to_bytes(&self) -> (bytes: [u8; 32])
        ensures
            bytes@ == self@.1,
    {
        self.bytes
    }

    /// The text of the key.
    ///
    /// Reading the text gives the key back, and so does reading it in capitals. A
    /// text in which one character behind the separator was replaced by another
    /// one that could stand there is refused.
    pub fn to_string(&self) -> (text: String)
        ensures
            text@ == SpendingKey::text(self@),
            text@ == encoded_text(
                if self@.0 == Network::Mainnet {
                    SK_MAINNET@
                } else {
                    SK_TESTNET@
                },
                base32_digits(self@.1),
                Variant::Bech32,
            ),
            decoded_parts(text@) matches Some((hrp, digits, variant)) && {
                &&& hrp == if self@.0 == Network::Mainnet {
                    SK_MAINNET@
                } else {
                    SK_TESTNET@
                }
                &&& base32_bytes(digits) == Some(self@.1)
                &&& variant == Variant::Bech32
            },
            self@.1.len() == 32,
            (SpendingKey::hrp(self@.0) + seq!['1']).is_prefix_of(text@),
            text@.len() == SpendingKey::hrp(self@.0).len() + 59,
            is_lower_case(text@),
            SpendingKey::is_readable(decoded_parts(text@)),
            SpendingKey::read(decoded_parts(text@)) == Ok::<_, SerializationError>(self@),
            SpendingKey::is_readable(decoded_parts(upper_case(text@))),
            SpendingKey::read(decoded_parts(upper_case(text@))) == Ok::<_, SerializationError>(self@),
            forall|i: int, c: char|
                is_change(SpendingKey::hrp(self@.0), text@, i, c) ==> {
                    &&& SpendingKey::is_readable(decoded_parts(#[trigger] text@.update(i, c)))
                    &&& SpendingKey::refuses(decoded_parts(text@.update(i, c)))
                },
    {
        let hrp = match self.network {
            Network::Mainnet => SK_MAINNET,
            Network::Testnet => SK_TESTNET,
        };
        proof {
            lemma_hrps();
            lemma_digits_len(self.bytes@);
            lemma_are_digits(self.bytes@);
            lemma_base32_round_trip(self.bytes@);
            assert(self.bytes@.subrange(0, 32) =~= self.bytes@);
        }
        let text = encode(hrp, to_base32(&self.bytes).as_slice(), Variant::Bech32);
        proof {
            lemma_lower_case(hrp@, text@);
        }
        text
    }

    /// Reads a key from what its text holds.
    pub fn from_parts(parts: Option<Parts>) -> (key: Result<SpendingKey, SerializationError>)
        requires
            are_readable_digits(parts),
            SpendingKey::is_readable(parts_view(parts)),
        ensures
            match key {
                Ok(k) => SpendingKey::read(parts_view(parts)) == Ok::<_, SerializationError>(k@),
                Err(e) => SpendingKey::read(parts_view(parts)) == Err::<(Network, Seq<u8>), _>(e),
            },
            match parts {
                Some(Parts { hrp, digits, variant: Variant::Bech32 }) => key matches Ok(k) && {
                    &&& k@.0 == Network::Mainnet <==> hrp@ == SK_MAINNET@
                    &&& k@.1 == base32_bytes(digits@)->0.subrange(0, 32)
                },
                _ => key == Err::<SpendingKey, _>(SerializationError::Parse("bech32 decoding error")),
            },
    {
        match parts {
            Some(Parts { hrp, digits, variant: Variant::Bech32 }) => {
                let decoded = from_base32(digits.as_slice()).unwrap();
                Ok(
                    SpendingKey {
                        network: read_network(&hrp, SK_MAINNET),
                        bytes: array_at(decoded.as_slice(), 0),
                    },
                )
            },
            _ => Err(SerializationError::Parse("bech32 decoding error")),
        }
    }

    /// Reads a key from its text.
    pub fn from_str(s: &str) -> (key: Result<SpendingKey, SerializationError>)
        requires
            SpendingKey::is_readable(decoded_parts(s@)),
        ensures
            match key {
                Ok(k) => SpendingKey::read(decoded_parts(s@)) == Ok::<_, SerializationError>(k@),
                Err(e) => SpendingKey::read(decoded_parts(s@)) == Err::<(Network, Seq<u8>), _>(e),
            },
            match decoded_parts(s@) {
                Some((hrp, digits, Variant::Bech32)) => key matches Ok(k) && {
                    &&& k@.0 == Network::Mainnet <==> hrp == SK_MAINNET@
                    &&& k@.1 == base32_bytes(digits)->0.subrange(0, 32)
                },
                _ => key == Err::<SpendingKey, _>(SerializationError::Parse("bech32 decoding error")),
            },
    {
        SpendingKey::from_parts(decode(s))
    }

    /// Reads a key from its text, if the text can be read.
    pub fn try_from_str(s: &str) -> (key: Option<Result<SpendingKey, SerializationError>>)
        ensures
            key is Some <==> SpendingKey::is_readable(decoded_parts(s@)),
            key matches Some(Ok(k)) ==> SpendingKey::read(decoded_parts(s@)) == Ok::<
                _,
                SerializationError,
            >(k@),
            key matches Some(Err(e)) ==> SpendingKey::read(decoded_parts(s@)) == Err::<
                (Network, Seq<u8>),
                _,
            >(e),
            match decoded_parts(s@) {
                Some((hrp, digits, Variant::Bech32)) => match base32_bytes(digits) {
                    Some(bytes) => if bytes.len() >= 32 {
                        key matches Some(Ok(k)) && {
                            &&& k@.0 == Network::Mainnet <==> hrp == SK_MAINNET@
                            &&& k@.1 == bytes.subrange(0, 32)
                        }
                    } else {
                        key is None
                    },
                    None => key is None,
                },
                _ => key == Some(
                    Err::<SpendingKey, _>(SerializationError::Parse("bech32 decoding error")),
                ),
            },
    {
        let readable = match decode(s) {
            Some(Parts { hrp: _, digits, variant: Variant::Bech32 }) => {
                match from_base32(digits.as_slice()) {
                    Some(decoded) => decoded.len() >= 32,
                    None => false,
                }
            },
            _ => true,
        };
        if readable {
            Some(SpendingKey::from_str(s))
        } else {
            None
        }
    }
}

impl From<[u8; 32]> for SpendingKey {
    /// Generate a _SpendingKey_ from existing bytes.
    fn from(bytes: [u8; 32]) -> (key: SpendingKey)
        ensures
            key@ == (Network::Mainnet, bytes@),
    {
        let key = SpendingKey { network: Network::default(), bytes };
        proof {
            SpendingKey::lemma_of(key);
        }
        key
    }
}

impl vstd::std_specs::convert::FromSpecImpl<[u8; 32]> for SpendingKey {
    open spec fn obeys_from_spec() -> bool {
        true
    }

    open spec fn from_spec(bytes: [u8; 32]) -> SpendingKey {
        SpendingKey::of((Network::Mainnet, bytes@))
    }
}

impl PartialEq for SpendingKey {
    fn eq(&self, other: &Self) -> (same: bool) {
        proof {
            if self@ == other@ {
                SpendingKey::lemma_view_injective(*self, *other);
            }
        }
        self.network == other.network && bytes_eq(&self.bytes, &other.bytes)
    }
}

impl vstd::std_specs::cmp::PartialEqSpecImpl for SpendingKey {
    open spec fn obeys_eq_spec() -> bool {
        true
    }

    open spec fn eq_spec(&self, other: &Self) -> bool {
        *self == *other
    }
}

impl Eq for SpendingKey {

}

} // verus!
