//! Bech32 text: a human-readable part, a separator, five-bit digits and a checksum.
//!
//! Encoding and decoding are those of the `bech32` crate.
use bech32::CheckBase32;
use vstd::prelude::*;

use crate::base32::are_digits;

verus! {

/// The checksum that a text carries.
#[derive(Copy, Clone, Debug, PartialEq, Eq, Structural)]
pub enum Variant {
    Bech32,
    Bech32m,
}

/// What a text holds: the human-readable part, the digits and the kind of checksum.
pub struct Parts {
    pub hrp: String,
    pub digits: Vec<u8>,
    pub variant: Variant,
}

impl View for Parts {
    type V = (Seq<char>, Seq<u8>, Variant);

    open spec fn view(&self) -> (Seq<char>, Seq<u8>, Variant) {
        (self.hrp@, self.digits@, self.variant)
    }
}

/// The view of what may be absent.
pub open spec fn parts_view(parts: Option<Parts>) -> Option<(Seq<char>, Seq<u8>, Variant)> {
    match parts {
        Some(p) => Some(p@),
        None => None,
    }
}

/// What a text holds is seen as it is: its human-readable part, its digits in
/// their order and its kind of checksum.
pub proof fn law_parts_view(parts: Parts)
    ensures
        parts_view(Some(parts)) == Some((parts.hrp@, parts.digits@, parts.variant)),
        parts_view(None) is None,
        are_readable_digits(Some(parts)) <==> forall|i: int|
            0 <= i < parts.digits@.len() ==> #[trigger] parts.digits@[i] < 32,
        are_readable_digits(None),
{
}

/// Whether the digits, if any, fit in five bits.
pub open spec fn are_readable_digits(parts: Option<Parts>) -> bool {
    parts matches Some(p) ==> are_digits(p.digits@)
}

/// Whether `hrp` can be a human-readable part in lower case: 1 to 83 printable
/// ASCII characters without spaces and capitals.
pub open spec fn is_hrp(hrp: Seq<char>) -> bool {
    &&& 1 <= hrp.len() <= 83
    &&& forall|i: int|
        0 <= i < hrp.len() ==> '!' <= #[trigger] hrp[i] <= '~' && !('A' <= hrp[i] <= 'Z')
}

/// Whether `c` stands for a digit, in the data or in the checksum.
pub open spec fn is_data_char(c: char) -> bool {
    "qpzry9x8gf2tvdw0s3jn54khce6mua7l"@.contains(c)
}

/// Whether no character is a capital letter.
pub open spec fn is_lower_case(text: Seq<char>) -> bool {
    forall|i: int| 0 <= i < text.len() ==> !('A' <= #[trigger] text[i] <= 'Z')
}

/// The capital for a letter of ASCII, and any other character itself.
pub open spec fn capital(c: char) -> char {
    if 'a' <= c <= 'z' {
        (c as int - 32) as char
    } else {
        c
    }
}

/// A text of ASCII characters in capitals.
pub open spec fn upper_case(text: Seq<char>) -> Seq<char> {
    text.map_values(|c: char| capital(c))
}

/// Whether `i` is a position behind the separator, and `c` can stand there but
/// does not.
pub open spec fn is_change(hrp: Seq<char>, text: Seq<char>, i: int, c: char) -> bool {
    &&& hrp.len() < i < text.len()
    &&& is_data_char(c)
    &&& c != text[i]
}

/// A human-readable part in lower case makes a text in lower case.
pub proof fn lemma_lower_case(hrp: Seq<char>, text: Seq<char>)
    requires
        is_hrp(hrp),
        (hrp + seq!['1']).is_prefix_of(text),
        forall|i: int| hrp.len() < i < text.len() ==> is_data_char(#[trigger] text[i]),
    ensures
        is_lower_case(text),
{
    reveal_strlit("qpzry9x8gf2tvdw0s3jn54khce6mua7l");
    let start = hrp + seq!['1'];
    assert forall|i: int| 0 <= i < text.len() implies !('A' <= #[trigger] text[i] <= 'Z') by {
        if i <= hrp.len() {
            assert(start[i] == text[i]);
        } else {
            assert(is_data_char(text[i]));
        }
    }
}

/// The text of a human-readable part and digits, with a checksum.
pub uninterp spec fn encoded_text(hrp: Seq<char>, digits: Seq<u8>, variant: Variant) -> Seq<char>;

/// What a text holds, if it is well formed and its checksum is right.
pub uninterp spec fn decoded_parts(text: Seq<char>) -> Option<(Seq<char>, Seq<u8>, Variant)>;

/// Writes a text.
///
/// Calls `bech32::encode`, which writes what `bech32::encode_to_fmt` writes into a
/// string. Claimed: the text is a function of the arguments, starts with the
/// human-readable part and the separator `1`, goes on with one character of the
/// lower-case alphabet for each digit and six for the checksum, and decodes to
/// what was written, in capitals too. Where one character behind the separator is
/// replaced by another one of the alphabet, the remainder that the checksum code
/// computes changes, so that the text no longer decodes with the same kind of
/// checksum. It fails only on an ill-formed human-readable part.
#[verifier::external_body]
pub(crate) fn encode(hrp: &str, digits: &[u8], variant: Variant) -> (text: String)
    requires
        is_hrp(hrp@),
        are_digits(digits@),
    ensures
        text@ == encoded_text(hrp@, digits@, variant),
        text@.len() == hrp@.len() + digits@.len() + 7,
        (hrp@ + seq!['1']).is_prefix_of(text@),
        forall|i: int| hrp@.len() < i < text@.len() ==> is_data_char(#[trigger] text@[i]),
        decoded_parts(text@) == Some((hrp@, digits@, variant)),
        decoded_parts(upper_case(text@)) == Some((hrp@, digits@, variant)),
        forall|i: int, c: char|
            is_change(hrp@, text@, i, c) ==> (decoded_parts(#[trigger] text@.update(i, c)) matches Some(
                parts,
            ) ==> parts.2 != variant),
{
    let variant = match variant {
        Variant::Bech32 => bech32::Variant::Bech32,
        Variant::Bech32m => bech32::Variant::Bech32m,
    };
    bech32::encode(hrp, digits.check_base32().unwrap(), variant).unwrap()
}

/// Reads a text.
///
/// Calls `bech32::decode` and drops its error. Claimed: the outcome is a function
/// of the text, and the digits fit in five bits.
#[verifier::external_body]
pub(crate) fn decode(text: &str) -> (parts: Option<Parts>)
    ensures
        parts_view(parts) == decoded_parts(text@),
        are_readable_digits(parts),
{
    let (hrp, digits, variant) = bech32::decode(text).ok()?;
    let variant = match variant {
        bech32::Variant::Bech32 => Variant::Bech32,
        bech32::Variant::Bech32m => Variant::Bech32m,
    };
    Some(Parts { hrp, digits: digits.iter().map(|digit| digit.to_u8()).collect(), variant })
}

} // verus!
