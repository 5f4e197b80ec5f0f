//! Non-interactive key derivation for a threshold signer on secp256k1.
//!
//! From one master public key and an (owner, path) pair the library derives a
//! scalar offset, the child public key at that offset, and the 20-byte
//! account address of the child key.

pub mod account;
pub mod curve;
pub mod digest;
pub mod encoding;
pub mod kdf;
pub mod laws;

pub use account::AccountId;
pub use curve::{PublicKey, Scalar, ScalarExt};
pub use digest::Address;
pub use kdf::{
    derive_address, derive_epsilon, derive_key, derive_key_for_account, epsilon_message,
    get_mpc_address, near_public_key_to_affine, CurveCheck, KeyDerivationError, MpcAddressError,
    PublicKeyConversionError, EPSILON_DERIVATION_PREFIX,
};
