//! The pseudorandom functions that keys are derived with.
//!
//! All are BLAKE2b with a personalization of their own, computed by the
//! `blake2b_simd` crate.
use vstd::prelude::*;

use crate::bytes::{array_at, wide_array};

verus! {

/// The BLAKE2b digest of `length` bytes of an input, under a personalization.
pub uninterp spec fn blake2b_digest(
    length: usize,
    personalization: Seq<char>,
    input: Seq<u8>,
) -> Seq<u8>;

/// `PRF^expand(sk, t) := BLAKE2b-512("Zcash_ExpandSeed", sk || t)`
pub open spec fn expanded(sk: Seq<u8>, t: Seq<u8>) -> Seq<u8> {
    blake2b_digest(64, "Zcash_ExpandSeed"@, sk + t)
}

/// `PRF^ock(ovk, cv, cm_x, ephemeralKey) :=
/// BLAKE2b-256("Zcash_Orchardock", ovk || cv || cm_x || ephemeralKey)`
pub open spec fn outgoing_cipher_key(
    ovk: Seq<u8>,
    cv: Seq<u8>,
    cm_x: Seq<u8>,
    ephemeral_key: Seq<u8>,
) -> Seq<u8> {
    blake2b_digest(32, "Zcash_Orchardock"@, ovk + cv + cm_x + ephemeral_key)
}

/// What _PRF^expand_ hashes is every byte of the key, each in its place, and then
/// every byte of the parameter, and nothing else.
pub proof fn law_expand_hashes_key_then_parameter(sk: Seq<u8>, t: Seq<u8>, input: Seq<u8>)
    requires
        input.len() == sk.len() + t.len(),
        forall|i: int| 0 <= i < sk.len() ==> input[i] == sk[i],
        forall|i: int| 0 <= i < t.len() ==> input[sk.len() + i] == #[trigger] t[i],
    ensures
        expanded(sk, t) == blake2b_digest(64, "Zcash_ExpandSeed"@, input),
{
    assert(input =~= sk + t);
}

/// What _PRF^ock_ hashes is every byte of the outgoing viewing key, the value
/// commitment, the note commitment and the ephemeral key, each in its place.
pub proof fn law_ock_hashes_its_arguments_in_order(
    ovk: Seq<u8>,
    cv: Seq<u8>,
    cm_x: Seq<u8>,
    ephemeral_key: Seq<u8>,
    input: Seq<u8>,
)
    requires
        ovk.len() == 32,
        cv.len() == 32,
        cm_x.len() == 32,
        ephemeral_key.len() == 32,
        input.len() == 128,
        forall|i: int| 0 <= i < 32 ==> input[i] == #[trigger] ovk[i],
        forall|i: int| 0 <= i < 32 ==> input[32 + i] == #[trigger] cv[i],
        forall|i: int| 0 <= i < 32 ==> input[64 + i] == #[trigger] cm_x[i],
        forall|i: int| 0 <= i < 32 ==> input[96 + i] == #[trigger] ephemeral_key[i],
    ensures
        outgoing_cipher_key(ovk, cv, cm_x, ephemeral_key) == blake2b_digest(
            32,
            "Zcash_Orchardock"@,
            input,
        ),
{
    assert(input =~= ovk + cv + cm_x + ephemeral_key);
}

/// Hashes an input with BLAKE2b.
///
/// Calls `blake2b_simd::Params` with the length and the personalization, and the
/// state that it builds with the whole input. Claimed: the digest has the length
/// asked for and is a function of the three arguments. A length outside 1 to 64
/// or a personalization of more than sixteen bytes makes the outside code panic.
#[verifier::external_body]
fn blake2b(length: usize, personalization: &str, input: &[u8]) -> (digest: Vec<u8>)
    requires
        1 <= length <= 64,
        personalization.is_ascii(),
        personalization@.len() <= 16,
    ensures
        digest@ == blake2b_digest(length, personalization@, input@),
        digest@.len() == length,
{
    blake2b_simd::Params::new()
        .hash_length(length)
        .personal(personalization.as_bytes())
        .to_state()
        .update(input)
        .finalize()
        .as_bytes()
        .to_vec()
}

/// Invokes BLAKE2b-512 as _PRF^expand_ with parameter t.
pub fn prf_expand(sk: [u8; 32], t: &[u8]) -> (hash: [u8; 64])
    ensures
        hash@ == expanded(sk@, t@),
        hash@ == blake2b_digest(64, "Zcash_ExpandSeed"@, sk@ + t@),
{
    let mut input: Vec<u8> = Vec::new();
    input.extend_from_slice(&sk);
    input.extend_from_slice(t);
    assert(input@ =~= sk@ + t@);
    proof {
        reveal_strlit("Zcash_ExpandSeed");
    }
    let hash = blake2b(64, "Zcash_ExpandSeed", input.as_slice());
    wide_array(hash.as_slice())
}

/// Used to derive the outgoing cipher key _ock_ used to encrypt an encrypted
/// output note from an Action.
pub fn prf_ock(ovk: [u8; 32], cv: [u8; 32], cm_x: [u8; 32], ephemeral_key: [u8; 32]) -> (ock: [u8;
    32])
    ensures
        ock@ == outgoing_cipher_key(ovk@, cv@, cm_x@, ephemeral_key@),
        ock@ == blake2b_digest(32, "Zcash_Orchardock"@, ovk@ + cv@ + cm_x@ + ephemeral_key@),
{
    let mut input: Vec<u8> = Vec::new();
    input.extend_from_slice(&ovk);
    input.extend_from_slice(&cv);
    input.extend_from_slice(&cm_x);
    input.extend_from_slice(&ephemeral_key);
    assert(input@ =~= ovk@ + cv@ + cm_x@ + ephemeral_key@);
    proof {
        reveal_strlit("Zcash_Orchardock");
    }
    let hash = blake2b(32, "Zcash_Orchardock", input.as_slice());
    let ock = array_at(hash.as_slice(), 0);
    assert(ock@ =~= hash@);
    ock
}

} // verus!
