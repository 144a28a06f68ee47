use halo2_proofs::arithmetic::CurveExt;
use halo2_proofs::pasta::group::GroupEncoding;
use orchard_keys::debug::{debug_list, debug_pair, debug_tuple};
use orchard_keys::keys::{
    diversify_hash, Diversifier, DiversifierKey, EphemeralPublicKey, FullViewingKey,
    IncomingViewingKey, IvkCommitRandomness, NullifierDerivingKey, OutgoingViewingKey,
    SpendAuthorizingKey, SpendValidatingKey, SpendingKey, TransmissionKey,
};
use orchard_keys::network::Network;
use orchard_keys::pallas::{Affine, Base, Point, Scalar};
use orchard_keys::serialization::SerializationError;
use orchard_keys::text::{Parts, Variant};

const BASEPOINT: &str = "63c975b884721a8d0ca1707be30c7f0c5f445f3e7c188d3b06d6f128b32355b7";
const BASEPOINT_X: &str = "63c975b884721a8d0ca1707be30c7f0c5f445f3e7c188d3b06d6f128b3235537";
const BASEPOINT_Y: &str = "c93b0c7b813ee34cd8bd05c0fe14c9dffb24d6fefcbc107bdb661adf7f35d01a";
const DECODING_ERROR: SerializationError = SerializationError::Parse("bech32 decoding error");

const SK_MAIN_DATA: &str = "qqqsyqcyq5rqwzqfpg9scrgwpugpzysnzs23v9ccrydpk8qarc0scfwpwr";
const SK_TEST_DATA: &str = "qqqsyqcyq5rqwzqfpg9scrgwpugpzysnzs23v9ccrydpk8qarc0szcn9mj";
const IVK_MAIN: &str = "zivko1qyqqqqqqqqqqqqqqqqqqqqqqqqqqqqqqqqqqqqqqqqqqqqqqqqqqfl838q";
const IVK_TEST: &str = "zivktestorchard1qyqqqqqqqqqqqqqqqqqqqqqqqqqqqqqqqqqqqqqqqqqqqqqqqqqq783xuq";
const FVK_MAIN: &str = "zviewo1v0yhtwyywgdg6r9pwpa7xrrlp305ghe70svg6wcx6mcj3ver2kmswqqqqqqqqqqqqqqqqqqqqqqqqqqqqqqqqqqqqqqqqqqqqqqqqqqfqqqqqqqqqqqqqqqqqqqqqqqqqqqqqqqqqqqqqqqqqqqqqqqqqq5lrmkc";
const FVK_TEST: &str = "zviewtestorchard1v0yhtwyywgdg6r9pwpa7xrrlp305ghe70svg6wcx6mcj3ver2kmswqqqqqqqqqqqqqqqqqqqqqqqqqqqqqqqqqqqqqqqqqqqqqqqqqqfqqqqqqqqqqqqqqqqqqqqqqqqqqqqqqqqqqqqqqqqqqqqqqqqqqfg3kgg";

fn bytes32(text: &str) -> [u8; 32] {
    hex::decode(text).unwrap().try_into().unwrap()
}

fn small(n: u8) -> [u8; 32] {
    let mut bytes = [0u8; 32];
    bytes[0] = n;
    bytes
}

fn counting() -> [u8; 32] {
    let mut bytes = [0u8; 32];
    for i in 0..32 {
        bytes[i] = i as u8;
    }
    bytes
}

/// The text of a spending key for the production network with the given data part.
fn sk_main(data: &str) -> String {
    format!("{}1{}", "secret-orchard-sk-main", data)
}

/// The text of a spending key for the test network with the given data part.
fn sk_test(data: &str) -> String {
    format!("{}1{}", "secret-orchard-sk-test", data)
}

fn scalar(n: u8) -> Scalar {
    Scalar::from_bytes(&small(n)).unwrap()
}

#[test]
fn spending_key_text() {
    let key = SpendingKey::from(counting());
    assert_eq!(key.to_string(), sk_main(SK_MAIN_DATA));
    assert_eq!(SpendingKey::from_str(&sk_main(SK_MAIN_DATA)), Ok(key));
    assert_eq!(SpendingKey::try_from_str(&sk_main(SK_MAIN_DATA)), Some(Ok(key)));
    let test_key = SpendingKey::from_str(&sk_test(SK_TEST_DATA)).unwrap();
    assert_ne!(test_key, key);
    assert_eq!(test_key.to_string(), sk_test(SK_TEST_DATA));
}

const ALPHABET: &str = "qpzry9x8gf2tvdw0s3jn54khce6mua7l";

/// All texts in which one character behind the separator is another one.
fn one_change(text: &str) -> Vec<String> {
    let chars: Vec<char> = text.chars().collect();
    let separator = text.rfind('1').unwrap();
    let mut changed = Vec::new();
    for i in separator + 1..chars.len() {
        for c in ALPHABET.chars() {
            if c != chars[i] {
                let mut copy = chars.clone();
                copy[i] = c;
                changed.push(copy.into_iter().collect());
            }
        }
    }
    changed
}

#[test]
fn one_changed_character_is_refused() {
    let spending = one_change(&sk_main(SK_MAIN_DATA));
    assert_eq!(spending.len(), 58 * 31);
    for text in spending {
        assert_eq!(SpendingKey::try_from_str(&text), Some(Err(DECODING_ERROR)));
    }
    for text in one_change(IVK_MAIN) {
        assert!(IncomingViewingKey::try_from_str(&text) == Some(Err(DECODING_ERROR)));
    }
    for text in one_change(FVK_TEST) {
        assert!(FullViewingKey::try_from_str(&text) == Some(Err(DECODING_ERROR)));
    }
}

#[test]
fn texts_are_in_lower_case_and_have_a_fixed_length() {
    let spending = SpendingKey::from(counting()).to_string();
    let incoming = IncomingViewingKey::from_bytes(small(1)).to_string();
    let full = FullViewingKey::from_str(FVK_MAIN).ok().unwrap().to_string();
    assert_eq!(spending.len(), 81);
    assert_eq!(incoming.len(), 64);
    assert_eq!(full.len(), 167);
    for text in [spending, incoming, full] {
        assert_eq!(text, text.to_lowercase());
        let separator = text.rfind('1').unwrap();
        assert!(text[separator + 1..].chars().all(|c| ALPHABET.contains(c)));
    }
}

#[test]
fn texts_in_capitals_are_read() {
    for text in [IVK_MAIN, IVK_TEST] {
        let key = IncomingViewingKey::from_str(&text.to_uppercase()).ok().unwrap();
        assert_eq!(key.to_string(), text);
    }
    for text in [FVK_MAIN, FVK_TEST] {
        let key = FullViewingKey::from_str(&text.to_uppercase()).ok().unwrap();
        assert_eq!(key.to_string(), text);
    }
    let text = sk_test(SK_TEST_DATA);
    assert_eq!(SpendingKey::from_str(&text.to_uppercase()).unwrap().to_string(), text);
}

#[test]
fn spending_key_with_another_prefix_is_for_the_test_network() {
    let text = "other1qqqsyqcyq5rqwzqfpg9scrgwpugpzysnzs23v9ccrydpk8qarc0sf7zjd4";
    assert_eq!(SpendingKey::from_str(text).unwrap().to_string(), sk_test(SK_TEST_DATA));
}

#[test]
fn spending_key_in_capitals() {
    assert_eq!(
        SpendingKey::from_str(&sk_main(SK_MAIN_DATA).to_uppercase()),
        Ok(SpendingKey::from(counting()))
    );
}

#[test]
fn spending_key_text_may_be_longer() {
    let text = sk_main("qqqsyqcyq5rqwzqfpg9scrgwpugpzysnzs23v9ccrydpk8qarc0424cju2p");
    assert_eq!(SpendingKey::from_str(&text), Ok(SpendingKey::from(counting())));
}

#[test]
fn spending_key_text_that_is_not_bech32() {
    let checksum_of_the_other_kind =
        sk_main("qqqsyqcyq5rqwzqfpg9scrgwpugpzysnzs23v9ccrydpk8qarc0sd47dtp");
    let wrong_checksum = sk_main("qqqsyqcyq5rqwzqfpg9scrgwpugpzysnzs23v9ccrydpk8qarc0scfwpwq");
    for text in ["", "1", "no separator", &checksum_of_the_other_kind, &wrong_checksum] {
        assert_eq!(SpendingKey::from_str(text), Err(DECODING_ERROR));
        assert_eq!(SpendingKey::try_from_str(text), Some(Err(DECODING_ERROR)));
    }
}

#[test]
fn spending_key_text_that_cannot_be_read() {
    let too_short = sk_main("qqqsyqcyq5rqwzqfpg9scrgwpugpzysnzs23v9ccrydpk8qarcaav8yu");
    let two_digits_too_many =
        sk_main("qqqsyqcyq5rqwzqfpg9scrgwpugpzysnzs23v9ccrydpk8qarc0sqqggm2av");
    let filling_not_zero = sk_main("qqqsyqcyq5rqwzqfpg9scrgwpugpzysnzs23v9ccrydpk8qarc039l65n3");
    for text in [too_short, two_digits_too_many, filling_not_zero] {
        assert_eq!(SpendingKey::try_from_str(&text), None);
    }
}

#[test]
fn spending_key_from_parts() {
    assert_eq!(SpendingKey::from_parts(None), Err(DECODING_ERROR));
    let parts = Parts {
        hrp: "secret-orchard-sk-main".to_string(),
        digits: vec![0; 52],
        variant: Variant::Bech32,
    };
    assert_eq!(SpendingKey::from_parts(Some(parts)), Ok(SpendingKey::from([0; 32])));
    let parts = Parts { hrp: "x".to_string(), digits: vec![0; 52], variant: Variant::Bech32m };
    assert_eq!(SpendingKey::from_parts(Some(parts)), Err(DECODING_ERROR));
}

#[test]
fn new_spending_key() {
    assert_eq!(SpendingKey::new(counting()), SpendingKey::from(counting()));
    assert_ne!(SpendingKey::new(counting()), SpendingKey::new([0; 32]));
}

#[test]
fn spend_authorizing_key_from_spending_key() {
    let ask = SpendAuthorizingKey::from(SpendingKey::from(counting()));
    let expected = bytes32("d19b6ee9c8cda90e3278237f1d9abfb2ceea24aaef29ed1258a0f5b57d23590f");
    assert_eq!(<[u8; 32]>::from(ask), expected);
    assert!(ask == expected);
    assert!(ask != counting());
    assert!(ask == SpendAuthorizingKey(Scalar::from_bytes(&expected).unwrap()));
    assert!(ask != SpendAuthorizingKey(scalar(1)));
    assert_eq!(
        ask.debug_text(),
        "SpendAuthorizingKey(\"d19b6ee9c8cda90e3278237f1d9abfb2ceea24aaef29ed1258a0f5b57d23590f\")"
    );
}

#[test]
fn derivation_ignores_the_network() {
    let main = SpendingKey::from_str(&sk_main(SK_MAIN_DATA)).unwrap();
    let test = SpendingKey::from_str(&sk_test(SK_TEST_DATA)).unwrap();
    assert!(SpendAuthorizingKey::from(main) == SpendAuthorizingKey::from(test));
    let main = FullViewingKey::from_str(FVK_MAIN).unwrap();
    let test = FullViewingKey::from_str(FVK_TEST).unwrap();
    assert!(OutgoingViewingKey::from(main) == OutgoingViewingKey::from(test));
    let main = IncomingViewingKey::from_str(IVK_MAIN).unwrap();
    let test = IncomingViewingKey::from_str(IVK_TEST).unwrap();
    let d = Diversifier([1; 11]);
    assert!(TransmissionKey::from((main, d)) == TransmissionKey::from((test, d)));
}

#[test]
fn spend_validating_key_from_spend_authorizing_key() {
    let ask = SpendAuthorizingKey::from(SpendingKey::from(counting()));
    let ak = SpendValidatingKey::from(ask);
    let expected = bytes32("a41cc0c3800ff89a88d7ae02ff336fdbd5bce89d9e8dd4eb278b4cd5c37ec720");
    assert_eq!(<[u8; 32]>::from(ak), expected);
    assert!(ak == expected);
    assert!(ak == SpendValidatingKey::from_bytes(expected));
    assert!(ak != SpendValidatingKey::from(SpendAuthorizingKey(scalar(1))));
    assert!(SpendValidatingKey::from(SpendAuthorizingKey(scalar(1))) == bytes32(BASEPOINT));
}

#[test]
fn debug_text_of_spend_validating_key_is_the_derived_one() {
    let ak = SpendValidatingKey::from_bytes(bytes32(BASEPOINT));
    assert_eq!(ak.debug_text(), format!("{:?}", ak));
    let ak = SpendValidatingKey::from_bytes([0; 32]);
    assert_eq!(ak.debug_text(), format!("{:?}", ak));
}

#[test]
fn nullifier_deriving_key_bytes() {
    let nk = NullifierDerivingKey::from_bytes(small(7));
    assert_eq!(<[u8; 32]>::from(nk), small(7));
    assert_eq!(<[u8; 32]>::from(&nk), small(7));
    assert!(nk == small(7));
    assert!(nk != small(8));
    assert!(nk == NullifierDerivingKey(Base::from_bytes(&small(7)).unwrap()));
    assert!(nk != NullifierDerivingKey::from_bytes(small(8)));
    assert_eq!(
        nk.debug_text(),
        format!("NullifierDerivingKey(\"{}\")", hex::encode(small(7)))
    );
}

#[test]
fn ivk_commit_randomness_bytes() {
    let rivk = IvkCommitRandomness::from_bytes(small(9));
    assert_eq!(<[u8; 32]>::from(rivk), small(9));
    assert!(rivk == IvkCommitRandomness::from_bytes(small(9)));
    assert!(rivk != IvkCommitRandomness::from_bytes(small(8)));
    assert_eq!(
        rivk.debug_text(),
        format!("IvkCommitRandomness(\"{}\")", hex::encode(small(9)))
    );
}

#[test]
fn incoming_viewing_key_text() {
    let ivk = IncomingViewingKey::from_bytes(small(1));
    assert_eq!(ivk.to_string(), IVK_MAIN);
    assert!(IncomingViewingKey::from_str(IVK_MAIN) == Ok(ivk));
    let test = IncomingViewingKey::from_str(IVK_TEST).unwrap();
    assert_eq!(test.to_string(), IVK_TEST);
    assert!(test != ivk);
    assert!(IncomingViewingKey::try_from_str(IVK_TEST) == Some(Ok(test)));
}

#[test]
fn incoming_viewing_key_equals_bytes_whatever_its_network() {
    assert!(IncomingViewingKey::from_str(IVK_MAIN).unwrap() == small(1));
    assert!(IncomingViewingKey::from_str(IVK_TEST).unwrap() == small(1));
    assert!(IncomingViewingKey::from_str(IVK_TEST).unwrap() != small(2));
}

#[test]
fn incoming_viewing_key_text_errors() {
    let checksum_of_the_other_kind =
        "zivko1qyqqqqqqqqqqqqqqqqqqqqqqqqqqqqqqqqqqqqqqqqqqqqqqqqqqurhazz";
    assert!(IncomingViewingKey::from_str(checksum_of_the_other_kind) == Err(DECODING_ERROR));
    assert!(IncomingViewingKey::try_from_str("zivko") == Some(Err(DECODING_ERROR)));
    assert!(IncomingViewingKey::from_parts(None) == Err(DECODING_ERROR));
    let too_short = "zivko1qyqqqqqqqqqqqqqqqqqqqqqqqqqqqqqqqqqqqqqqqqqqqqqqqqfjrcz7";
    let modulus = "zivko1qyqqqqppadrgehdgjsylexzxygqqqqqqqqqqqqqqqqqqqqqqqpqqw2y3n0";
    let unreduced = "zivko1lllllllllllllllllllllllllllllllllllllllllllllllllllsd85k5g";
    for text in [too_short, modulus, unreduced] {
        assert!(IncomingViewingKey::try_from_str(text).is_none());
    }
    let largest = "zivko1qqqqqqppadrgehdgjsylexzxygqqqqqqqqqqqqqqqqqqqqqqqpqqgv58fs";
    assert_eq!(IncomingViewingKey::from_str(largest).ok().unwrap().to_string(), largest);
}

#[test]
fn incoming_viewing_key_debug_text() {
    assert_eq!(
        IncomingViewingKey::from_bytes(small(0xab)).debug_text(),
        "IncomingViewingKey(\"ab00000000000000000000000000000000000000000000000000000000000000\")"
    );
}

#[test]
fn full_viewing_key_text() {
    let fvk = FullViewingKey::from_str(FVK_MAIN).ok().unwrap();
    assert_eq!(fvk.to_string(), FVK_MAIN);
    let test = FullViewingKey::from_str(FVK_TEST).ok().unwrap();
    assert_eq!(test.to_string(), FVK_TEST);
    assert!(fvk != test);
    assert!(FullViewingKey::try_from_str(FVK_MAIN) == Some(Ok(fvk)));
    let zeros = "zviewtestorchard1qqqqqqqqqqqqqqqqqqqqqqqqqqqqqqqqqqqqqqqqqqqqqqqqqqqqqqqqqqqqqqqqqqqqqqqqqqqqqqqqqqqqqqqqqqqqqqqqqqqqqqqqqqqqqqqqqqqqqqqqqqqqqqqqqqqqqqqqqqqqqqqqqqqqqqqqqqkv6h6w";
    assert_eq!(FullViewingKey::from_str(zeros).ok().unwrap().to_string(), zeros);
}

#[test]
fn full_viewing_key_text_errors() {
    let too_short = "zviewo1v0yhtwyywgdg6r9pwpa7xrrlp305ghe70svg6wcx6mcj3ver2kmswqqqqqqqqqqqqqqqqqqqqqqqqqqqqqqqqqqqqqqqqqqqqqqqqqqfqqqqqqqqqqqqqqqqqqqqqqqqqqqqqqqqqqqqqqqqqqqqqqqq3k5epr";
    assert!(FullViewingKey::from_str(too_short) == Err(SerializationError::UnexpectedEof));
    assert!(
        FullViewingKey::try_from_str(too_short) == Some(Err(SerializationError::UnexpectedEof))
    );
    let checksum_of_the_other_kind = "zviewo1v0yhtwyywgdg6r9pwpa7xrrlp305ghe70svg6wcx6mcj3ver2kmswqqqqqqqqqqqqqqqqqqqqqqqqqqqqqqqqqqqqqqqqqqqqqqqqqqfqqqqqqqqqqqqqqqqqqqqqqqqqqqqqqqqqqqqqqqqqqqqqqqqqqprnhn6";
    assert!(FullViewingKey::from_str(checksum_of_the_other_kind) == Err(DECODING_ERROR));
    assert!(FullViewingKey::from_str("zviewo1") == Err(DECODING_ERROR));
    assert!(FullViewingKey::from_parts(None) == Err(DECODING_ERROR));
    let parts = Parts { hrp: "zviewo".to_string(), digits: vec![], variant: Variant::Bech32 };
    assert!(FullViewingKey::from_parts(Some(parts)) == Err(SerializationError::UnexpectedEof));
}

#[test]
fn full_viewing_key_text_that_cannot_be_read() {
    let not_a_point = "zviewo1qgqqqqqqqqqqqqqqqqqqqqqqqqqqqqqqqqqqqqqqqqqqqqqqqqqqwqqqqqqqqqqqqqqqqqqqqqqqqqqqqqqqqqqqqqqqqqqqqqqqqqqfqqqqqqqqqqqqqqqqqqqqqqqqqqqqqqqqqqqqqqqqqqqqqqqqqq2tkqrw";
    let base_not_reduced = "zviewo1v0yhtwyywgdg6r9pwpa7xrrlp305ghe70svg6wcx6mcj3ver2kmlllllllllllllllllllllllllllllllllllllllllllllllllllcfqqqqqqqqqqqqqqqqqqqqqqqqqqqqqqqqqqqqqqqqqqqqqqqqqqchx00y";
    let scalar_not_reduced = "zviewo1v0yhtwyywgdg6r9pwpa7xrrlp305ghe70svg6wcx6mcj3ver2kmswqqqqqqqqqqqqqqqqqqqqqqqqqqqqqqqqqqqqqqqqqqqqqqqqq8lllllllllllllllllllllllllllllllllllllllllllllllllluskwyt0";
    for text in [not_a_point, base_not_reduced, scalar_not_reduced] {
        assert!(FullViewingKey::try_from_str(text).is_none());
    }
}

#[test]
fn full_viewing_key_debug_text() {
    let fvk = FullViewingKey::from_str(FVK_TEST).ok().unwrap();
    let expected = format!(
        "FullViewingKey {{ network: Testnet, spend_validating_key: {:?}, \
         nullifier_deriving_key: NullifierDerivingKey(\"{}\"), \
         ivk_commit_randomness: IvkCommitRandomness(\"{}\") }}",
        SpendValidatingKey::from_bytes(bytes32(BASEPOINT)),
        hex::encode(small(7)),
        hex::encode(small(9))
    );
    assert_eq!(fvk.debug_text(), expected);
}

#[test]
fn outgoing_viewing_key_from_full_viewing_key() {
    let fvk = FullViewingKey::from_str(FVK_MAIN).ok().unwrap();
    let expected = bytes32("ad1db0d0f45b46d94e857a737c9cf1de4548ae275fe150ec0bc4de2ad2b11b57");
    assert!(OutgoingViewingKey::from(fvk) == expected);
    let mut expanded = [1u8; 64];
    expanded[32..].copy_from_slice(&counting());
    assert!(OutgoingViewingKey::from_expanded(&expanded) == counting());
}

#[test]
fn outgoing_viewing_key_bytes() {
    let ovk = OutgoingViewingKey::from(counting());
    assert_eq!(<[u8; 32]>::from(ovk), counting());
    assert!(ovk == counting());
    assert!(ovk != [0; 32]);
    assert!(ovk == OutgoingViewingKey(counting()));
    assert!(ovk != OutgoingViewingKey([0; 32]));
    assert_eq!(
        ovk.debug_text(),
        "OutgoingViewingKey(\"000102030405060708090a0b0c0d0e0f101112131415161718191a1b1c1d1e1f\")"
    );
}

#[test]
fn diversifier_bytes() {
    let d = Diversifier::new([0xfe; 11]);
    assert!(d == Diversifier::from([0xfe; 11]));
    assert!(d != Diversifier([0; 11]));
    assert!(d == [0xfe; 11]);
    assert!(d != [0; 11]);
    assert_eq!(<[u8; 11]>::from(d), [0xfe; 11]);
    assert_eq!(d.debug_text(), "Diversifier(\"fefefefefefefefefefefe\")");
}

#[test]
fn diversifier_keys_are_equal() {
    assert!(DiversifierKey() == DiversifierKey());
}

#[test]
fn diversified_base_point() {
    let d = Diversifier([3; 11]);
    let expected =
        halo2_proofs::pasta::pallas::Point::hash_to_curve("z.cash:Orchard-gd")(&[3; 11]).to_bytes();
    assert_eq!(diversify_hash(&[3; 11]).to_bytes(), expected);
    assert_eq!(Point::from(d).to_bytes(), expected);
    assert_eq!(Affine::try_from(d).unwrap().to_bytes(), expected);
}

#[test]
fn transmission_key_is_a_multiple_of_the_base_point() {
    let d = Diversifier([3; 11]);
    let one = IncomingViewingKey::from_bytes(small(1));
    assert!(TransmissionKey::from((one, d)) == TransmissionKey(Affine::try_from(d).unwrap()));
    let five = IncomingViewingKey::from_bytes(small(5));
    let expected = Affine::from(Point::from(d).scale(&scalar(5)));
    assert!(TransmissionKey::from((five, d)) == TransmissionKey(expected));
    assert!(TransmissionKey::from((five, d)) == expected.to_bytes());
    assert!(TransmissionKey::from((five, d)) != TransmissionKey::from((one, d)));
}

#[test]
fn transmission_keys_add_up() {
    let d = Diversifier([8; 11]);
    let two = TransmissionKey::from((IncomingViewingKey::from_bytes(small(2)), d));
    let three = TransmissionKey::from((IncomingViewingKey::from_bytes(small(3)), d));
    let five = TransmissionKey::from((IncomingViewingKey::from_bytes(small(5)), d));
    let sum = Point::from(d).scale(&scalar(2)).plus(&Point::from(d).scale(&scalar(3)));
    assert!(five == sum.to_bytes());
    let outside = |key: TransmissionKey| {
        halo2_proofs::pasta::pallas::Point::from_bytes(&<[u8; 32]>::from(key)).unwrap()
    };
    assert!(outside(two) + outside(three) == outside(five));
    let minus_two = {
        let mut bytes =
            bytes32("0100000021eb468cdda89409fc98462200000000000000000000000000000040");
        bytes[0] = 0xff;
        bytes[1..4].copy_from_slice(&[0xff, 0xff, 0xff]);
        bytes[4] -= 1;
        TransmissionKey::from((IncomingViewingKey::from_bytes(bytes), d))
    };
    assert!(outside(two) + outside(minus_two) == outside(TransmissionKey::from_bytes([0; 32])));
    let zero = TransmissionKey::from((IncomingViewingKey::from_bytes([0; 32]), d));
    assert!(zero == [0; 32]);
}

#[test]
fn full_viewing_key_parts() {
    let (network, ak, nk, rivk) = FullViewingKey::from_str(FVK_TEST).ok().unwrap().parts();
    assert_eq!(network, Network::Testnet);
    assert!(ak == bytes32(BASEPOINT));
    assert!(nk == small(7));
    assert_eq!(<[u8; 32]>::from(rivk), small(9));
}

#[test]
fn transmission_key_bytes() {
    let pk_d = TransmissionKey::from_bytes(bytes32(BASEPOINT));
    assert_eq!(<[u8; 32]>::from(pk_d), bytes32(BASEPOINT));
    assert_eq!(
        pk_d.debug_text(),
        format!("TransmissionKey {{ x: \"{}\", y: \"{}\" }}", BASEPOINT_X, BASEPOINT_Y)
    );
    let zeros = hex::encode([0u8; 32]);
    assert_eq!(
        TransmissionKey::from_bytes([0; 32]).debug_text(),
        format!("TransmissionKey {{ x: \"{}\", y: \"{}\" }}", zeros, zeros)
    );
}

#[test]
fn ephemeral_public_key_bytes() {
    let epk = EphemeralPublicKey::try_from(bytes32(BASEPOINT)).ok().unwrap();
    assert_eq!(<[u8; 32]>::from(&epk), bytes32(BASEPOINT));
    assert!(epk == bytes32(BASEPOINT));
    assert!(epk != small(2));
    assert!(EphemeralPublicKey::try_from(small(2)).err() == Some("Invalid pallas::Affine value"));
    assert!(epk != EphemeralPublicKey::try_from([0; 32]).ok().unwrap());
    assert_eq!(
        epk.debug_text(),
        format!("EphemeralPublicKey {{ x: \"{}\", y: \"{}\" }}", BASEPOINT_X, BASEPOINT_Y)
    );
}

#[test]
fn ephemeral_public_key_serialization() {
    let epk = EphemeralPublicKey::try_from(bytes32(BASEPOINT)).ok().unwrap();
    let mut written = vec![1, 2];
    epk.zcash_serialize(&mut written);
    assert_eq!(written.len(), 34);
    assert_eq!(written[2..], bytes32(BASEPOINT));
    written.push(3);
    assert!(EphemeralPublicKey::zcash_deserialize(&written[2..]) == Ok(epk));
}

#[test]
fn ephemeral_public_key_deserialization_errors() {
    assert!(
        EphemeralPublicKey::zcash_deserialize(&[0; 31]) == Err(SerializationError::UnexpectedEof)
    );
    assert!(
        EphemeralPublicKey::zcash_deserialize(&[0xff; 32])
            == Err(SerializationError::Parse("Invalid pallas::Affine value"))
    );
}

#[test]
fn hexadecimal_and_decimal_lists() {
    assert_eq!(debug_list(&[]), "[]");
    assert_eq!(debug_list(&[0, 9, 10, 99, 100, 255]), "[0, 9, 10, 99, 100, 255]");
    assert_eq!(debug_tuple("T", &[0x0f, 0xa0]), "T(\"0fa0\")");
    assert_eq!(debug_pair("T", "a", &[1], "b", &[]), "T { a: \"01\", b: \"\" }");
}
