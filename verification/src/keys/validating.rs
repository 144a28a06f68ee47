//! Spend validating keys (_ak_).
use vstd::prelude::*;
use vstd::string::StringExecFns;

use super::authorizing::SpendAuthorizingKey;
use crate::bytes::{array_of, bytes_eq, lemma_array_of};
use crate::debug::{debug_list, items_text, list_text};
use crate::pallas::{
    group_hash, is_multiple, is_point_encoding, is_scalar_encoding, point_multiple,
};
use crate::redpallas::{spend_auth_basepoint, VerificationKey};

verus! {

/// A spend validating key (_ak_).
///
/// Used to validate Orchard _Spend Authorization Signatures_, proving ownership
/// of notes.
#[derive(Copy, Clone, Debug)]
pub struct SpendValidatingKey(pub VerificationKey);

impl View for SpendValidatingKey {
    type V = Seq<u8>;

    /// The encoding of the key.
    open spec fn view(&self) -> Seq<u8> {
        self.0@
    }
}

impl SpendValidatingKey {
    /// The key with the given encoding.
    pub fn from_bytes(bytes: [u8; 32]) -> (ak: SpendValidatingKey)
        requires
            is_point_encoding(bytes@),
        ensures
            ak@ == bytes@,
            ak.0@ == bytes@,
    {
        SpendValidatingKey(VerificationKey::from_bytes(&bytes).unwrap())
    }

    /// The text of a key for diagnostics, as `Debug` writes it.
    pub open spec fn shown(ak: Seq<u8>) -> Seq<char> {
        "SpendValidatingKey(VerificationKey { bytes: "@ + list_text(ak) + " })"@
    }

    /// The text of the key for diagnostics, as `Debug` writes it.
    pub fn debug_text(&self) -> (text: String)
        ensures
            text@ == SpendValidatingKey::shown(self@),
            text@ == "SpendValidatingKey(VerificationKey { bytes: "@ + "["@ + items_text(self.0@)
                + "]"@ + " })"@,
    {
        let mut text = "SpendValidatingKey(VerificationKey { bytes: ".to_owned();
        text.append(debug_list(&self.0.to_bytes()).as_str());
        text.append(" })");
        assert(text@ =~= "SpendValidatingKey(VerificationKey { bytes: "@ + "["@ + items_text(self.0@)
            + "]"@ + " })"@);
        text
    }
}

impl From<SpendValidatingKey> for [u8; 32] {
    fn from(ak: SpendValidatingKey) -> (bytes: [u8; 32])
        ensures
            bytes@ == ak@,
            bytes@ == ak.0@,
            is_point_encoding(bytes@),
    {
        let bytes = ak.0.to_bytes();
        proof {
            lemma_array_of(bytes);
        }
        bytes
    }
}

impl vstd::std_specs::convert::FromSpecImpl<SpendValidatingKey> for [u8; 32] {
    open spec fn obeys_from_spec() -> bool {
        true
    }

    open spec fn from_spec(ak: SpendValidatingKey) -> [u8; 32] {
        array_of(ak@)
    }
}

impl From<SpendAuthorizingKey> for SpendValidatingKey {
    /// The base point multiplied by the spend authorizing key.
    ///
    /// The key for a sum of two spend authorizing keys is the sum of the points of
    /// the keys for these.
    fn from(ask: SpendAuthorizingKey) -> (ak: SpendValidatingKey)
        ensures
            ak@ == point_multiple(spend_auth_basepoint(), ask@),
            ak.0@ == point_multiple(group_hash("z.cash:Orchard"@, seq![0x47u8]), ask.0@),
            is_point_encoding(ak@),
            is_scalar_encoding(ask@),
            is_multiple(spend_auth_basepoint(), ask@, ak@),
    {
        let key = VerificationKey::from_signing_key(&ask.0);
        proof {
            VerificationKey::lemma_of(key);
        }
        SpendValidatingKey(key)
    }
}

impl vstd::std_specs::convert::FromSpecImpl<SpendAuthorizingKey> for SpendValidatingKey {
    open spec fn obeys_from_spec() -> bool {
        true
    }

    open spec fn from_spec(ask: SpendAuthorizingKey) -> SpendValidatingKey {
        SpendValidatingKey(VerificationKey::of(point_multiple(spend_auth_basepoint(), ask@)))
    }
}

impl PartialEq for SpendValidatingKey {
    fn eq(&self, other: &Self) -> (same: bool) {
        self.0 == other.0
    }
}

impl vstd::std_specs::cmp::PartialEqSpecImpl for SpendValidatingKey {
    open spec fn obeys_eq_spec() -> bool {
        true
    }

    open spec fn eq_spec(&self, other: &Self) -> bool {
        *self == *other
    }
}

impl Eq for SpendValidatingKey {

}

impl PartialEq<[u8; 32]> for SpendValidatingKey {
    fn eq(&self, other: &[u8; 32]) -> (same: bool) {
        bytes_eq(&self.0.to_bytes(), other)
    }
}

impl vstd::std_specs::cmp::PartialEqSpecImpl<[u8; 32]> for SpendValidatingKey {
    open spec fn obeys_eq_spec() -> bool {
        true
    }

    /// Whether the bytes are the encoding of the key.
    open spec fn eq_spec(&self, other: &[u8; 32]) -> bool {
        self@ == other@
    }
}

} // verus!
