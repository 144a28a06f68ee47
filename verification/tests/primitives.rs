use halo2_proofs::arithmetic::CurveExt;
use halo2_proofs::pasta::group::GroupEncoding;
use orchard_keys::network::Network;
use orchard_keys::pallas::{pallas_group_hash, Affine, Base, Point, Scalar};
use orchard_keys::prf::{prf_expand, prf_ock};
use orchard_keys::redpallas::VerificationKey;
use orchard_keys::serialization::{read_32_bytes, SerializationError};

fn bytes32(text: &str) -> [u8; 32] {
    hex::decode(text).unwrap().try_into().unwrap()
}

fn small(n: u8) -> [u8; 32] {
    let mut bytes = [0u8; 32];
    bytes[0] = n;
    bytes
}

fn counting() -> [u8; 32] {
    let mut bytes = [0u8; 32];
    for i in 0..32 {
        bytes[i] = i as u8;
    }
    bytes
}

const BASEPOINT: &str = "63c975b884721a8d0ca1707be30c7f0c5f445f3e7c188d3b06d6f128b32355b7";
const SCALAR_MODULUS: &str = "0100000021eb468cdda89409fc98462200000000000000000000000000000040";
const BASE_MODULUS: &str = "01000000ed302d991bf94c09fc98462200000000000000000000000000000040";

#[test]
fn expand_is_personalized_blake2b_512() {
    assert_eq!(
        hex::encode(prf_expand(counting(), &[])),
        "4f057357a9f5b1d46f9e0f955c42c6b3d3cf1b48da80820bad4ae78eb0a39733\
         2ac6550eecf8ad0389a128492adc121699e22c7eadf5a5b9ae7f3a228237be80"
    );
    assert_eq!(
        hex::encode(prf_expand(counting(), &[6])),
        "85e4ab289d7c5a731ff6aabd0fd2f3dfd5b3d980c89a57239970af320aaf007f\
         3272cab8ffa6a0dbc474af1f90c0aa2317bea18f65ba3757688f3ebe4db2cc7f"
    );
}

#[test]
fn ock_is_personalized_blake2b_256() {
    assert_eq!(
        hex::encode(prf_ock([1; 32], [2; 32], [3; 32], [4; 32])),
        "4c636368fd708669acb5edac3a34cfd60c49120a721c4b936277095bd6e25623"
    );
    assert_ne!(
        prf_ock([1; 32], [2; 32], [3; 32], [4; 32]),
        prf_ock([2; 32], [1; 32], [3; 32], [4; 32])
    );
}

#[test]
fn scalars_below_the_modulus_decode() {
    let mut below = bytes32(SCALAR_MODULUS);
    below[0] = 0;
    assert_eq!(Scalar::from_bytes(&below).unwrap().to_bytes(), below);
    assert!(Scalar::from_bytes(&bytes32(SCALAR_MODULUS)).is_none());
    assert!(Scalar::from_bytes(&[0xff; 32]).is_none());
    assert_eq!(Scalar::from_bytes(&[0; 32]).unwrap().to_bytes(), [0; 32]);
}

#[test]
fn base_elements_below_the_modulus_decode() {
    let mut below = bytes32(BASE_MODULUS);
    below[0] = 0;
    assert_eq!(Base::from_bytes(&below).unwrap().to_bytes(), below);
    assert!(Base::from_bytes(&bytes32(BASE_MODULUS)).is_none());
    // The scalar field is the larger one.
    assert!(Scalar::from_bytes(&bytes32(BASE_MODULUS)).is_some());
}

#[test]
fn wide_integers_are_reduced() {
    let mut wide = [0u8; 64];
    wide[..32].copy_from_slice(&bytes32(SCALAR_MODULUS));
    wide[0] += 4;
    assert_eq!(Scalar::from_bytes_wide(&wide).to_bytes(), small(4));
    let wide = prf_expand(counting(), &[6]);
    assert_eq!(
        hex::encode(Scalar::from_bytes_wide(&wide).to_bytes()),
        "d19b6ee9c8cda90e3278237f1d9abfb2ceea24aaef29ed1258a0f5b57d23590f"
    );
}

#[test]
fn points_decode_if_they_are_on_the_curve() {
    assert_eq!(Affine::from_bytes(&bytes32(BASEPOINT)).unwrap().to_bytes(), bytes32(BASEPOINT));
    assert_eq!(Affine::from_bytes(&[0; 32]).unwrap().to_bytes(), [0; 32]);
    assert!(Affine::from_bytes(&small(2)).is_none());
    assert!(Affine::from_bytes(&[0xff; 32]).is_none());
    let mut signed_zero = [0u8; 32];
    signed_zero[31] = 0x80;
    assert!(Affine::from_bytes(&signed_zero).is_none());
}

#[test]
fn coordinates_of_a_point() {
    let point = Affine::from_bytes(&bytes32(BASEPOINT)).unwrap();
    assert_eq!(
        hex::encode(point.get_x().to_bytes()),
        "63c975b884721a8d0ca1707be30c7f0c5f445f3e7c188d3b06d6f128b3235537"
    );
    assert_eq!(
        hex::encode(point.get_y().to_bytes()),
        "c93b0c7b813ee34cd8bd05c0fe14c9dffb24d6fefcbc107bdb661adf7f35d01a"
    );
    let identity = Affine::from_bytes(&[0; 32]).unwrap();
    assert_eq!(identity.get_x().to_bytes(), [0; 32]);
    assert_eq!(identity.get_y().to_bytes(), [0; 32]);
}

#[test]
fn group_hash_of_a_letter_is_the_base_point() {
    let point = pallas_group_hash("z.cash:Orchard", b"G");
    assert_eq!(point.to_bytes(), bytes32(BASEPOINT));
    assert!(point == pallas_group_hash("z.cash:Orchard", b"G"));
    assert!(point != pallas_group_hash("z.cash:Orchard", b"H"));
    let message = [5u8; 300];
    assert_eq!(
        pallas_group_hash("some domain", &message).to_bytes(),
        halo2_proofs::pasta::pallas::Point::hash_to_curve("some domain")(&message).to_bytes()
    );
}

#[test]
fn points_are_multiplied_by_scalars() {
    let point: Point = pallas_group_hash("z.cash:Orchard", b"G");
    let two = Scalar::from_bytes(&small(2)).unwrap();
    assert_eq!(
        hex::encode(point.scale(&two).to_bytes()),
        "05ab49e47fb5617d6d96dd5ed73b9c41576ac815ca47f77f6a57c9ba5800ea88"
    );
    let mut minus_one = bytes32(SCALAR_MODULUS);
    minus_one[0] = 0;
    let minus_one = Scalar::from_bytes(&minus_one).unwrap();
    assert_eq!(
        hex::encode(point.scale(&minus_one).to_bytes()),
        "63c975b884721a8d0ca1707be30c7f0c5f445f3e7c188d3b06d6f128b3235537"
    );
    let zero = Scalar::from_bytes(&[0; 32]).unwrap();
    assert_eq!(point.scale(&zero).to_bytes(), [0; 32]);
    assert!(Affine::from(point.scale(&zero)) == Affine::from_bytes(&[0; 32]).unwrap());
}

#[test]
fn points_are_added() {
    let point = pallas_group_hash("z.cash:Orchard", b"G");
    let other = pallas_group_hash("z.cash:Orchard", b"H");
    let zero = point.scale(&Scalar::from_bytes(&[0; 32]).unwrap());
    assert!(point.plus(&zero) == point);
    assert!(zero.plus(&point) == point);
    assert_eq!(
        hex::encode(point.plus(&point).to_bytes()),
        "05ab49e47fb5617d6d96dd5ed73b9c41576ac815ca47f77f6a57c9ba5800ea88"
    );
    assert!(point.plus(&other) == other.plus(&point));
    let one = Scalar::from_bytes(&small(1)).unwrap();
    assert!(point.scale(&one) == point);
}

#[test]
fn field_elements_are_equal_if_their_encodings_are() {
    assert!(Scalar::from_bytes(&small(3)) == Scalar::from_bytes(&small(3)));
    assert!(Scalar::from_bytes(&small(3)) != Scalar::from_bytes(&small(4)));
    assert!(Base::from_bytes(&small(3)) == Base::from_bytes(&small(3)));
    assert!(Base::from_bytes(&small(3)) != Base::from_bytes(&small(4)));
}

#[test]
fn verification_keys_are_multiples_of_the_base_point() {
    let one = Scalar::from_bytes(&small(1)).unwrap();
    assert_eq!(VerificationKey::from_signing_key(&one).to_bytes(), bytes32(BASEPOINT));
    let two = Scalar::from_bytes(&small(2)).unwrap();
    assert_eq!(
        hex::encode(VerificationKey::from_signing_key(&two).to_bytes()),
        "05ab49e47fb5617d6d96dd5ed73b9c41576ac815ca47f77f6a57c9ba5800ea88"
    );
    let zero = Scalar::from_bytes(&[0; 32]).unwrap();
    assert_eq!(VerificationKey::from_signing_key(&zero).to_bytes(), [0; 32]);
    assert!(VerificationKey::from_bytes(&small(2)).is_none());
    assert_eq!(
        VerificationKey::from_bytes(&bytes32(BASEPOINT)),
        Some(VerificationKey::from_signing_key(&one))
    );
}

#[test]
fn thirty_two_bytes_are_read() {
    let mut input = vec![9u8];
    input.extend_from_slice(&counting());
    assert_eq!(read_32_bytes(&input, 1), Ok(counting()));
    assert_eq!(read_32_bytes(&input, 2), Err(SerializationError::UnexpectedEof));
    assert_eq!(read_32_bytes(&input, usize::MAX), Err(SerializationError::UnexpectedEof));
    assert_eq!(read_32_bytes(&[], 0), Err(SerializationError::UnexpectedEof));
}

#[test]
fn mainnet_is_the_default_network() {
    assert_eq!(Network::default(), Network::Mainnet);
    assert_eq!(Network::Mainnet.as_str(), "Mainnet");
    assert_eq!(Network::Testnet.as_str(), "Testnet");
}
