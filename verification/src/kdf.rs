//! The derivation: from an owner and a path to a scalar offset, from the
//! offset and a master key to a child key, and from the child key to its
//! address; and the conversion of a raw tagged key into a master key.

use crate::account::AccountId;
use crate::curve::{
    curve_sum, decodes_to_point, encoded_x, encoded_y, generator_multiple, identity_encoding,
    is_uncompressed_point, on_curve, point_add, scalar_of_digest, sec1_decode, PublicKey, Scalar,
    ScalarExt, SEC1_UNCOMPRESSED, UNCOMPRESSED_LEN,
};
use crate::digest::{keccak256_digest, raw_public_key_to_address, sha256, sha256_digest, Address};
use vstd::prelude::*;
use vstd::slice::slice_subrange;
use vstd::string::StringSliceAdditionalSpecFns;

verus! {

/// What every derivation message starts with. It names the scheme and its
/// version: signer and caller have to agree on its bytes.
pub const EPSILON_DERIVATION_PREFIX: &'static str = "near-mpc-recovery v0.1.0 epsilon derivation:";

/// The byte that stands between the owner and the path in a derivation
/// message: a comma, which no account name holds.
pub const SEPARATOR: u8 = 0x2c;

/// The curve tag of a secp256k1 key in the raw key format.
pub const SECP256K1_CURVE_TAG: u8 = 1;

/// Whether the curve tag of a raw key is looked at before it is replaced.
#[derive(Clone, Copy, Debug, PartialEq, Eq, Structural)]
pub enum CurveCheck {
    /// The tag has to be that of secp256k1.
    Strict,
    /// The tag is not looked at: the caller has made sure of the curve.
    Trusting,
}

/// Why a raw key is no public key.
#[derive(Clone, Copy, Debug, PartialEq, Eq, Structural)]
pub enum PublicKeyConversionError {
    /// The key's curve tag, which it holds, is not that of secp256k1.
    WrongCurveType(u8),
    /// The bytes do not have the form of an encoded point.
    DecodingError,
    /// The coordinates are those of no point of the curve.
    InvalidKeyData,
}

/// The one fault of a derivation.
#[derive(Clone, Copy, Debug, PartialEq, Eq, Structural)]
pub enum KeyDerivationError {
    /// The offset point and the master key add up to the point at infinity,
    /// which is no key.
    PointAtInfinity,
}

/// Why no address came of a raw master key.
#[derive(Clone, Copy, Debug, PartialEq, Eq, Structural)]
pub enum MpcAddressError {
    /// The raw key is no public key.
    Conversion(PublicKeyConversionError),
    /// The derivation from the key failed.
    Derivation(KeyDerivationError),
}

impl PublicKeyConversionError {
    /// What the error says.
    pub open spec fn text(self) -> Seq<char> {
        match self {
            PublicKeyConversionError::WrongCurveType(_) => "Can only convert from SECP256K1"@,
            PublicKeyConversionError::DecodingError => "Decoding error"@,
            PublicKeyConversionError::InvalidKeyData => "Invalid key data"@,
        }
    }

    /// What the error says.
    pub fn to_string(&self) -> (text: String)
        ensures
            text@ == self.text(),
    {
        match self {
            PublicKeyConversionError::WrongCurveType(_) => "Can only convert from SECP256K1"
                .to_owned(),
            PublicKeyConversionError::DecodingError => "Decoding error".to_owned(),
            PublicKeyConversionError::InvalidKeyData => "Invalid key data".to_owned(),
        }
    }
}

impl KeyDerivationError {
    /// What the error says.
    pub open spec fn text(self) -> Seq<char> {
        "Derived key is the point at infinity"@
    }

    /// What the error says.
    pub fn to_string(&self) -> (text: String)
        ensures
            text@ == self.text(),
    {
        "Derived key is the point at infinity".to_owned()
    }
}

impl MpcAddressError {
    /// What the error says: what the error that it holds says.
    pub open spec fn text(self) -> Seq<char> {
        match self {
            MpcAddressError::Conversion(e) => e.text(),
            MpcAddressError::Derivation(e) => e.text(),
        }
    }

    /// What the error says.
    pub fn to_string(&self) -> (text: String)
        ensures
            text@ == self.text(),
    {
        match self {
            MpcAddressError::Conversion(e) => e.to_string(),
            MpcAddressError::Derivation(e) => e.to_string(),
        }
    }
}

/// The bytes of the prefix.
pub open spec fn prefix_bytes() -> Seq<u8> {
    EPSILON_DERIVATION_PREFIX.spec_bytes()
}

/// The message that is hashed for an owner and a path: the prefix, the
/// owner, the separator, the path.
pub open spec fn message_bytes(owner: Seq<u8>, path: Seq<u8>) -> Seq<u8> {
    prefix_bytes() + owner + seq![SEPARATOR] + path
}

/// The offset that belongs to an owner and a path: the SHA-256 digest of
/// their message, read least significant byte first and reduced modulo the
/// group order.
pub open spec fn epsilon_of(owner: Seq<u8>, path: Seq<u8>) -> nat {
    scalar_of_digest(sha256_digest(message_bytes(owner, path)))
}

/// The encoding of the point `epsilon * G + master`.
pub open spec fn child_point(master: Seq<u8>, epsilon: nat) -> Seq<u8> {
    curve_sum(generator_multiple(epsilon), master)
}

/// The address of the point with the uncompressed encoding `encoded`: the
/// tag is dropped, the 64 bytes X, Y are hashed with Keccak-256, and the
/// last 20 bytes of the digest are kept.
pub open spec fn address_of(encoded: Seq<u8>) -> Seq<u8> {
    keccak256_digest(encoded.subrange(1, 65)).subrange(12, 32)
}

/// What becomes of a raw key. An empty one has no form at all. One that is
/// held to the curve tag and bears another is refused with that tag. Else
/// the first byte gives way to the tag of an uncompressed point; what then
/// is not 65 bytes long does not decode, and what decodes has to lie on the
/// curve.
pub open spec fn converted_key(raw: Seq<u8>, check: CurveCheck) -> Result<
    Seq<u8>,
    PublicKeyConversionError,
> {
    if raw.len() == 0 {
        Err(PublicKeyConversionError::DecodingError)
    } else if check == CurveCheck::Strict && raw[0] != SECP256K1_CURVE_TAG {
        Err(PublicKeyConversionError::WrongCurveType(raw[0]))
    } else if raw.len() != 65 {
        Err(PublicKeyConversionError::DecodingError)
    } else {
        let encoded = raw.update(0, SEC1_UNCOMPRESSED);
        if on_curve(encoded_x(encoded), encoded_y(encoded)) {
            Ok(encoded)
        } else {
            Err(PublicKeyConversionError::InvalidKeyData)
        }
    }
}

/// The address derived from a master key for an owner and a path, or the
/// fault of the derivation.
pub open spec fn account_address(master: Seq<u8>, owner: Seq<u8>, path: Seq<u8>) -> Result<
    Seq<u8>,
    KeyDerivationError,
> {
    let child = child_point(master, epsilon_of(owner, path));
    if child == identity_encoding() {
        Err(KeyDerivationError::PointAtInfinity)
    } else {
        Ok(address_of(child))
    }
}

/// The address derived from a raw master key for an owner and a path, or
/// the first thing that stood in the way.
pub open spec fn mpc_address(raw: Seq<u8>, check: CurveCheck, owner: Seq<u8>, path: Seq<u8>) -> Result<
    Seq<u8>,
    MpcAddressError,
> {
    match converted_key(raw, check) {
        Err(e) => Err(MpcAddressError::Conversion(e)),
        Ok(master) => match account_address(master, owner, path) {
            Err(e) => Err(MpcAddressError::Derivation(e)),
            Ok(address) => Ok(address),
        },
    }
}

/// Builds the message that is hashed for `signer_id` and `path`.
pub fn epsilon_message(signer_id: &AccountId, path: &str) -> (message: Vec<u8>)
    ensures
        message@ == message_bytes(signer_id@, path.spec_bytes()),
{
    let mut message: Vec<u8> = Vec::new();
    message.extend_from_slice(EPSILON_DERIVATION_PREFIX.as_bytes());
    message.extend_from_slice(signer_id.as_bytes());
    message.push(SEPARATOR);
    message.extend_from_slice(path.as_bytes());
    assert(message@ =~= message_bytes(signer_id@, path.spec_bytes()));
    message
}

/// Derives the offset for `signer_id` and `path`.
#[must_use]
pub fn derive_epsilon(signer_id: &AccountId, path: &str) -> (epsilon: Scalar)
    ensures
        epsilon@ == epsilon_of(signer_id@, path.spec_bytes()),
{
    let message = epsilon_message(signer_id, path);
    let digest = sha256(message.as_slice());
    Scalar::from_bytes(digest.as_slice())
}

/// Derives the child key of `public_key` at the offset `epsilon`: the point
/// `epsilon * G + public_key`, unless that is the point at infinity.
#[must_use]
pub fn derive_key(public_key: PublicKey, epsilon: Scalar) -> (derived: Result<
    PublicKey,
    KeyDerivationError,
>)
    ensures
        match derived {
            Ok(child) => child@ == child_point(public_key@, epsilon@) && is_uncompressed_point(
                child@,
            ),
            Err(e) => e == KeyDerivationError::PointAtInfinity && child_point(
                public_key@,
                epsilon@,
            ) == identity_encoding(),
        },
{
    let offset = epsilon.mul_generator();
    let sum = point_add(offset.as_slice(), public_key.as_bytes());
    if sum.len() == UNCOMPRESSED_LEN {
        Ok(PublicKey::from_validated(sum))
    } else {
        Err(KeyDerivationError::PointAtInfinity)
    }
}

/// The address of a key.
#[must_use]
pub fn derive_address(child: &PublicKey) -> (address: Address)
    ensures
        address@ == address_of(child@),
{
    let encoded = child.as_bytes();
    let body = slice_subrange(encoded, 1, UNCOMPRESSED_LEN);
    Address { bytes: raw_public_key_to_address(body) }
}

/// Derives the address that belongs to `account_id` and `path` under the
/// master key `mpc_public_key`.
#[must_use]
pub fn derive_key_for_account(mpc_public_key: PublicKey, account_id: &AccountId, path: &str) -> (derived:
    Result<Address, KeyDerivationError>)
    ensures
        match derived {
            Ok(address) => account_address(
                mpc_public_key@,
                account_id@,
                path.spec_bytes(),
            ) == Ok::<Seq<u8>, KeyDerivationError>(address@),
            Err(e) => account_address(mpc_public_key@, account_id@, path.spec_bytes())
                == Err::<Seq<u8>, KeyDerivationError>(e),
        },
{
    let epsilon = derive_epsilon(account_id, path);
    match derive_key(mpc_public_key, epsilon) {
        Ok(child) => Ok(derive_address(&child)),
        Err(e) => Err(e),
    }
}

/// Converts a raw key, a curve tag followed by X and Y, into a public key.
pub fn near_public_key_to_affine(public_key: Vec<u8>, check: CurveCheck) -> (converted: Result<
    PublicKey,
    PublicKeyConversionError,
>)
    ensures
        match converted {
            Ok(key) => converted_key(public_key@, check) == Ok::<
                Seq<u8>,
                PublicKeyConversionError,
            >(key@) && is_uncompressed_point(key@),
            Err(e) => converted_key(public_key@, check) == Err::<
                Seq<u8>,
                PublicKeyConversionError,
            >(e),
        },
{
    let mut bytes = public_key;
    if bytes.len() == 0 {
        return Err(PublicKeyConversionError::DecodingError);
    }
    let tag: u8 = bytes[0];
    match check {
        CurveCheck::Strict => {
            if tag != SECP256K1_CURVE_TAG {
                return Err(PublicKeyConversionError::WrongCurveType(tag));
            }
        },
        CurveCheck::Trusting => {},
    }
    bytes.set(0, SEC1_UNCOMPRESSED);
    match sec1_decode(bytes.as_slice()) {
        Err(_) => {
            return Err(PublicKeyConversionError::DecodingError);
        },
        Ok(_) => {},
    }
    if !decodes_to_point(bytes.as_slice()) {
        return Err(PublicKeyConversionError::InvalidKeyData);
    }
    Ok(PublicKey::from_validated(bytes))
}

/// The address that belongs to `gas_station_account_id`, as owner, and
/// `caller_account_id`, as path, under the raw master key `mpc_public_key`.
pub fn get_mpc_address(
    mpc_public_key: Vec<u8>,
    gas_station_account_id: &AccountId,
    caller_account_id: &str,
    check: CurveCheck,
) -> (found: Result<Address, MpcAddressError>)
    ensures
        match found {
            Ok(address) => mpc_address(
                mpc_public_key@,
                check,
                gas_station_account_id@,
                caller_account_id.spec_bytes(),
            ) == Ok::<Seq<u8>, MpcAddressError>(address@),
            Err(e) => mpc_address(
                mpc_public_key@,
                check,
                gas_station_account_id@,
                caller_account_id.spec_bytes(),
            ) == Err::<Seq<u8>, MpcAddressError>(e),
        },
{
    let affine = match near_public_key_to_affine(mpc_public_key, check) {
        Ok(key) => key,
        Err(e) => {
            return Err(MpcAddressError::Conversion(e));
        },
    };
    match derive_key_for_account(affine, gas_station_account_id, caller_account_id) {
        Ok(address) => Ok(address),
        Err(e) => Err(MpcAddressError::Derivation(e)),
    }
}

} // verus!
