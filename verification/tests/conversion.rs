use ethers_core::k256::elliptic_curve::sec1::{FromEncodedPoint, ToEncodedPoint};
use ethers_core::k256::{AffinePoint, EncodedPoint};
use mpc_kdf::{
    get_mpc_address, near_public_key_to_affine, AccountId, CurveCheck, KeyDerivationError,
    MpcAddressError, PublicKeyConversionError,
};

const MASTER: &str = "9c0e823c86c14a5810d00c2d584c0b787337bff65a55465febfc15dbaba509f1\
                      e46ec19c2b85e8fb6df520df8234127617c94d302abeaed2d2ae1170562e87e9";
const G: &str = "79be667ef9dcbbac55a06295ce870b07029bfcdb2dce28d959f2815b16f81798\
                 483ada7726a3c4655da4fbfc0e1108a8fd17b448a68554199c47d08ffb10d4b8";
const P: &str = "fffffffffffffffffffffffffffffffffffffffffffffffffffffffefffffc2f";

fn unhex(text: &str) -> Vec<u8> {
    let digits: Vec<u8> = text
        .bytes()
        .filter(|b| !b.is_ascii_whitespace())
        .map(|b| (b as char).to_digit(16).unwrap() as u8)
        .collect();
    digits.chunks(2).map(|pair| pair[0] * 16 + pair[1]).collect()
}

fn account(name: &str) -> AccountId {
    AccountId::new(name).unwrap()
}

fn raw_key(tag: u8, body: &str) -> Vec<u8> {
    let mut raw = vec![tag];
    raw.extend(unhex(body));
    raw
}

#[test]
fn valid_key_converts_to_its_point() {
    for check in [CurveCheck::Strict, CurveCheck::Trusting] {
        let key = near_public_key_to_affine(raw_key(1, MASTER), check).unwrap();
        assert_eq!(key.as_bytes(), &raw_key(4, MASTER)[..]);
        let key = near_public_key_to_affine(raw_key(1, G), check).unwrap();
        assert_eq!(key.as_bytes(), &raw_key(4, G)[..]);
    }
}

#[test]
fn converted_key_is_what_k256_decodes() {
    let ours = near_public_key_to_affine(raw_key(1, MASTER), CurveCheck::Strict).unwrap();
    let theirs =
        AffinePoint::from_encoded_point(&EncodedPoint::from_bytes(raw_key(4, MASTER)).unwrap())
            .unwrap();
    assert_eq!(ours.as_bytes(), theirs.to_encoded_point(false).as_bytes());
}

#[test]
fn point_survives_the_raw_format() {
    let point = near_public_key_to_affine(raw_key(1, MASTER), CurveCheck::Strict).unwrap();
    let mut raw = point.as_bytes().to_vec();
    raw[0] = 1;
    for check in [CurveCheck::Strict, CurveCheck::Trusting] {
        assert_eq!(near_public_key_to_affine(raw.clone(), check).unwrap(), point);
    }
}

#[test]
fn truncated_key_does_not_decode() {
    let mut raw = raw_key(1, MASTER);
    raw.pop();
    for check in [CurveCheck::Strict, CurveCheck::Trusting] {
        assert_eq!(
            near_public_key_to_affine(raw.clone(), check),
            Err(PublicKeyConversionError::DecodingError)
        );
    }
}

#[test]
fn overlong_key_does_not_decode() {
    let mut raw = raw_key(1, MASTER);
    raw.push(0);
    for check in [CurveCheck::Strict, CurveCheck::Trusting] {
        assert_eq!(
            near_public_key_to_affine(raw.clone(), check),
            Err(PublicKeyConversionError::DecodingError)
        );
    }
}

#[test]
fn empty_key_does_not_decode() {
    for check in [CurveCheck::Strict, CurveCheck::Trusting] {
        assert_eq!(
            near_public_key_to_affine(Vec::new(), check),
            Err(PublicKeyConversionError::DecodingError)
        );
    }
    assert_eq!(
        near_public_key_to_affine(vec![1u8], CurveCheck::Strict),
        Err(PublicKeyConversionError::DecodingError)
    );
}

#[test]
fn other_curve_tag_is_refused_where_it_is_looked_at() {
    for tag in [0u8, 2, 4, 255] {
        assert_eq!(
            near_public_key_to_affine(raw_key(tag, MASTER), CurveCheck::Strict),
            Err(PublicKeyConversionError::WrongCurveType(tag))
        );
    }
    // the tag is looked at before the length
    assert_eq!(
        near_public_key_to_affine(vec![0u8; 33], CurveCheck::Strict),
        Err(PublicKeyConversionError::WrongCurveType(0))
    );
}

#[test]
fn other_curve_tag_passes_where_it_is_not_looked_at() {
    for tag in [0u8, 2, 4, 255] {
        let key = near_public_key_to_affine(raw_key(tag, MASTER), CurveCheck::Trusting).unwrap();
        assert_eq!(key.as_bytes(), &raw_key(4, MASTER)[..]);
    }
    assert_eq!(
        near_public_key_to_affine(vec![0u8; 33], CurveCheck::Trusting),
        Err(PublicKeyConversionError::DecodingError)
    );
}

#[test]
fn coordinates_off_the_curve_are_invalid() {
    let mut raw = raw_key(1, MASTER);
    raw[64] ^= 1;
    for check in [CurveCheck::Strict, CurveCheck::Trusting] {
        assert_eq!(
            near_public_key_to_affine(raw.clone(), check),
            Err(PublicKeyConversionError::InvalidKeyData)
        );
    }
    assert_eq!(
        near_public_key_to_affine(vec![1u8; 65], CurveCheck::Strict),
        Err(PublicKeyConversionError::InvalidKeyData)
    );
    let mut zero = vec![0u8; 65];
    zero[0] = 1;
    assert_eq!(
        near_public_key_to_affine(zero, CurveCheck::Strict),
        Err(PublicKeyConversionError::InvalidKeyData)
    );
}

#[test]
fn coordinates_not_below_the_prime_are_invalid() {
    // (1, y) is a point of the curve; 1 + p spells the same residue.
    let x = "0000000000000000000000000000000000000000000000000000000000000001";
    let x_plus_p = "fffffffffffffffffffffffffffffffffffffffffffffffffffffffefffffc30";
    let y = "4218f20ae6c646b363db68605822fb14264ca8d2587fdd6fbc750d587e76a7ee";
    let reduced = [x, y].concat();
    let key = near_public_key_to_affine(raw_key(1, &reduced), CurveCheck::Strict).unwrap();
    assert_eq!(key.as_bytes(), &raw_key(4, &reduced)[..]);

    let unreduced = [x_plus_p, y].concat();
    assert_eq!(
        near_public_key_to_affine(raw_key(1, &unreduced), CurveCheck::Strict),
        Err(PublicKeyConversionError::InvalidKeyData)
    );
    let at_the_prime = [P, y].concat();
    assert_eq!(
        near_public_key_to_affine(raw_key(1, &at_the_prime), CurveCheck::Trusting),
        Err(PublicKeyConversionError::InvalidKeyData)
    );
    let y_at_the_prime = [x, P].concat();
    assert_eq!(
        near_public_key_to_affine(raw_key(1, &y_at_the_prime), CurveCheck::Trusting),
        Err(PublicKeyConversionError::InvalidKeyData)
    );
}

#[test]
fn mpc_address_has_the_known_value() {
    for check in [CurveCheck::Strict, CurveCheck::Trusting] {
        let address =
            get_mpc_address(raw_key(1, MASTER), &account("canhazgas.testnet"), "hatchet.testnet", check)
                .unwrap();
        assert_eq!(address.bytes.to_vec(), unhex("c5acb93d901fb260359cd1e982998236cfac65e0"));
    }
}

#[test]
fn mpc_address_takes_the_first_name_as_owner() {
    let address = get_mpc_address(raw_key(1, MASTER), &account("alice.example"), "eth-1", CurveCheck::Strict)
        .unwrap();
    assert_eq!(address.bytes.to_vec(), unhex("ac5f081268a78ca56b7e103375cf0dc95511b6f6"));
    let swapped = get_mpc_address(raw_key(1, MASTER), &account("eth-1"), "alice.example", CurveCheck::Strict)
        .unwrap();
    assert_ne!(address, swapped);
}

#[test]
fn mpc_address_hands_on_the_conversion_error() {
    assert_eq!(
        get_mpc_address(raw_key(0, MASTER), &account("aa"), "b", CurveCheck::Strict),
        Err(MpcAddressError::Conversion(PublicKeyConversionError::WrongCurveType(0)))
    );
    assert_eq!(
        get_mpc_address(Vec::new(), &account("aa"), "b", CurveCheck::Trusting),
        Err(MpcAddressError::Conversion(PublicKeyConversionError::DecodingError))
    );
    assert_eq!(
        get_mpc_address(vec![1u8; 65], &account("aa"), "b", CurveCheck::Trusting),
        Err(MpcAddressError::Conversion(PublicKeyConversionError::InvalidKeyData))
    );
}

#[test]
fn derivation_fault_has_its_own_variant() {
    let fault = MpcAddressError::Derivation(KeyDerivationError::PointAtInfinity);
    assert_ne!(fault, MpcAddressError::Conversion(PublicKeyConversionError::InvalidKeyData));
    assert_eq!(format!("{:?}", fault), "Derivation(PointAtInfinity)");
}

#[test]
fn errors_say_what_went_wrong() {
    assert_eq!(
        PublicKeyConversionError::WrongCurveType(0).to_string(),
        "Can only convert from SECP256K1"
    );
    assert_eq!(PublicKeyConversionError::DecodingError.to_string(), "Decoding error");
    assert_eq!(PublicKeyConversionError::InvalidKeyData.to_string(), "Invalid key data");
    assert_eq!(
        KeyDerivationError::PointAtInfinity.to_string(),
        "Derived key is the point at infinity"
    );
    assert_eq!(
        MpcAddressError::Conversion(PublicKeyConversionError::InvalidKeyData).to_string(),
        "Invalid key data"
    );
    assert_eq!(
        MpcAddressError::Derivation(KeyDerivationError::PointAtInfinity).to_string(),
        "Derived key is the point at infinity"
    );
}
