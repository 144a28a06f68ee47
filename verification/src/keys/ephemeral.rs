//! Ephemeral public keys (_epk_).
use vstd::prelude::*;

use crate::bytes::{array_of, bytes_eq, lemma_array_of};
use crate::debug::{debug_pair, hex_text, pair_text};
use crate::pallas::{are_coordinates, is_point_encoding, Affine};
use crate::serialization::{read_32_bytes, SerializationError};

verus! {

/// An ephemeral public key for Orchard key agreement.
#[derive(Copy, Clone)]
pub struct EphemeralPublicKey(pub Affine);

impl View for EphemeralPublicKey {
    type V = Seq<u8>;

    /// The encoding of the key.
    open spec fn view(&self) -> Seq<u8> {
        self.0@
    }
}

impl EphemeralPublicKey {
    /// What deserializing a key from `input` gives: the first thirty-two bytes,
    /// if there are as many and they encode a point.
    pub open spec fn read(input: Seq<u8>) -> Result<Seq<u8>, SerializationError> {
        if input.len() < 32 {
            Err(SerializationError::UnexpectedEof)
        } else if !is_point_encoding(input.subrange(0, 32)) {
            Err(SerializationError::Parse("Invalid pallas::Affine value"))
        } else {
            Ok(input.subrange(0, 32))
        }
    }

    /// The text of the key for diagnostics, with the coordinates of its point.
    pub fn debug_text(&self) -> (text: String)
        ensures
            exists|x: Seq<u8>, y: Seq<u8>| #[trigger]
                are_coordinates(self@, x, y) && text@ == pair_text("EphemeralPublicKey"@, "x"@, x, "y"@, y),
            exists|x: Seq<u8>, y: Seq<u8>| #[trigger]
                are_coordinates(self.0@, x, y) && text@ == "EphemeralPublicKey"@ + " { "@ + "x"@ + ": \""@
                    + hex_text(x) + "\", "@ + "y"@ + ": \""@ + hex_text(y) + "\" }"@,
    {
        let x = self.0.get_x().to_bytes();
        let y = self.0.get_y().to_bytes();
        assert(are_coordinates(self@, x@, y@));
        debug_pair("EphemeralPublicKey", "x", &x, "y", &y)
    }

    /// Appends the encoding of the key.
    pub fn zcash_serialize(&self, writer: &mut Vec<u8>)
        ensures
            final(writer)@ == old(writer)@ + self@,
            final(writer)@ == old(writer)@ + self.0@,
    {
        let bytes = <[u8; 32]>::from(self);
        writer.extend_from_slice(&bytes);
        assert(writer@ =~= old(writer)@ + bytes@);
    }

    /// Reads a key from the start of `input`.
    pub fn zcash_deserialize(input: &[u8]) -> (key: Result<EphemeralPublicKey, SerializationError>)
        ensures
            match key {
                Ok(k) => EphemeralPublicKey::read(input@) == Ok::<_, SerializationError>(k@),
                Err(e) => EphemeralPublicKey::read(input@) == Err::<Seq<u8>, _>(e),
            },
            match key {
                Ok(k) => {
                    &&& input@.len() >= 32
                    &&& is_point_encoding(input@.subrange(0, 32))
                    &&& k.0@ == input@.subrange(0, 32)
                },
                Err(SerializationError::UnexpectedEof) => input@.len() < 32,
                Err(SerializationError::Parse(reason)) => {
                    &&& input@.len() >= 32
                    &&& !is_point_encoding(input@.subrange(0, 32))
                    &&& reason == "Invalid pallas::Affine value"
                },
            },
    {
        let bytes = read_32_bytes(input, 0)?;
        match EphemeralPublicKey::try_from(bytes) {
            Ok(key) => Ok(key),
            Err(e) => Err(SerializationError::Parse(e)),
        }
    }
}

impl From<&EphemeralPublicKey> for [u8; 32] {
    fn from(epk: &EphemeralPublicKey) -> (bytes: [u8; 32])
        ensures
            bytes@ == epk@,
            bytes@ == epk.0@,
            is_point_encoding(bytes@),
    {
        let bytes = epk.0.to_bytes();
        proof {
            lemma_array_of(bytes);
        }
        bytes
    }
}

impl vstd::std_specs::convert::FromSpecImpl<&EphemeralPublicKey> for [u8; 32] {
    open spec fn obeys_from_spec() -> bool {
        true
    }

    open spec fn from_spec(epk: &EphemeralPublicKey) -> [u8; 32] {
        array_of(epk@)
    }
}

impl TryFrom<[u8; 32]> for EphemeralPublicKey {
    type Error = &'static str;

    fn try_from(bytes: [u8; 32]) -> (key: Result<EphemeralPublicKey, &'static str>)
        ensures
            match key {
                Ok(k) => is_point_encoding(bytes@) && k@ == bytes@ && k.0@ == bytes@,
                Err(e) => !is_point_encoding(bytes@) && e == "Invalid pallas::Affine value",
            },
    {
        match Affine::from_bytes(&bytes) {
            Some(point) => {
                proof {
                    Affine::lemma_of(point);
                }
                Ok(EphemeralPublicKey(point))
            },
            None => Err("Invalid pallas::Affine value"),
        }
    }
}

impl vstd::std_specs::convert::TryFromSpecImpl<[u8; 32]> for EphemeralPublicKey {
    open spec fn obeys_try_from_spec() -> bool {
        true
    }

    open spec fn try_from_spec(bytes: [u8; 32]) -> Result<EphemeralPublicKey, &'static str> {
        if is_point_encoding(bytes@) {
            Ok(EphemeralPublicKey(Affine::of(bytes@)))
        } else {
            Err("Invalid pallas::Affine value")
        }
    }
}

impl PartialEq for EphemeralPublicKey {
    fn eq(&self, other: &Self) -> (same: bool) {
        self.0 == other.0
    }
}

impl vstd::std_specs::cmp::PartialEqSpecImpl for EphemeralPublicKey {
    open spec fn obeys_eq_spec() -> bool {
        true
    }

    open spec fn eq_spec(&self, other: &Self) -> bool {
        *self == *other
    }
}

impl Eq for EphemeralPublicKey {

}

impl PartialEq<[u8; 32]> for EphemeralPublicKey {
    fn eq(&self, other: &[u8; 32]) -> (same: bool) {
        bytes_eq(&self.0.to_bytes(), other)
    }
}

impl vstd::std_specs::cmp::PartialEqSpecImpl<[u8; 32]> for EphemeralPublicKey {
    open spec fn obeys_eq_spec() -> bool {
        true
    }

    /// Whether the bytes are the encoding of the key.
    open spec fn eq_spec(&self, other: &[u8; 32]) -> bool {
        self@ == other@
    }
}

} // verus!
