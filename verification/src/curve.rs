//! The secp256k1 values that the derivation works on, held as plain bytes,
//! and the curve operations, which `k256` computes.

use crate::encoding::{
    be_value, le_value, lemma_be_value_injective, lemma_le_value_is_reversed_be_value,
};
use ethers_core::k256::elliptic_curve::ops::Reduce;
use ethers_core::k256::elliptic_curve::sec1::{FromEncodedPoint, ToEncodedPoint};
use ethers_core::k256::elliptic_curve::PrimeField;
use vstd::arithmetic::div_mod::lemma_small_mod;
use vstd::prelude::*;

verus! {

/// Length in bytes of an uncompressed SEC1 point: the tag, then X, then Y.
pub const UNCOMPRESSED_LEN: usize = 65;

/// SEC1 tag of the point at infinity.
pub const SEC1_IDENTITY: u8 = 0;

/// SEC1 tag of an uncompressed point.
pub const SEC1_UNCOMPRESSED: u8 = 4;

/// The prime `p` of the field that the curve is defined over.
pub open spec fn field_modulus() -> nat {
    0xFFFFFFFF_FFFFFFFF_FFFFFFFF_FFFFFFFF_FFFFFFFF_FFFFFFFF_FFFFFFFE_FFFFFC2Fnat
}

/// The prime order `n` of the curve's group, which is the modulus of scalars.
pub open spec fn group_order() -> nat {
    0xFFFFFFFF_FFFFFFFF_FFFFFFFF_FFFFFFFE_BAAEDCE6_AF48A03B_BFD25E8C_D0364141nat
}

/// `(x, y)` are reduced coordinates that satisfy `y^2 = x^3 + 7` modulo `p`.
pub open spec fn on_curve(x: nat, y: nat) -> bool {
    &&& x < field_modulus()
    &&& y < field_modulus()
    &&& (y * y) % field_modulus() == (x * x * x + 7) % field_modulus()
}

/// The length that SEC1 prescribes for an encoding that starts with `tag`,
/// if `tag` is one of its tags.
pub open spec fn sec1_encoded_len(tag: u8) -> Option<nat> {
    if tag == 0 {
        Some(1nat)
    } else if tag == 2 || tag == 3 || tag == 5 {
        Some(33nat)
    } else if tag == 4 {
        Some(65nat)
    } else {
        None
    }
}

/// `bytes` has the shape of a SEC1 point encoding: a known tag, and the
/// length that goes with it. Nothing is said of the coordinates.
pub open spec fn is_sec1_encoding(bytes: Seq<u8>) -> bool {
    bytes.len() > 0 && sec1_encoded_len(bytes[0]) == Some(bytes.len())
}

/// The X coordinate that an uncompressed encoding holds.
pub open spec fn encoded_x(encoded: Seq<u8>) -> nat {
    be_value(encoded.subrange(1, 33))
}

/// The Y coordinate that an uncompressed encoding holds.
pub open spec fn encoded_y(encoded: Seq<u8>) -> nat {
    be_value(encoded.subrange(33, 65))
}

/// `encoded` is the uncompressed SEC1 encoding of a point of the curve other
/// than the point at infinity.
pub open spec fn is_uncompressed_point(encoded: Seq<u8>) -> bool {
    &&& encoded.len() == 65
    &&& encoded[0] == SEC1_UNCOMPRESSED
    &&& on_curve(encoded_x(encoded), encoded_y(encoded))
}

/// The SEC1 encoding of the point at infinity.
pub open spec fn identity_encoding() -> Seq<u8> {
    seq![SEC1_IDENTITY]
}

/// `encoded` is the encoding without compression of some element of the
/// group: the point at infinity, or a point of the curve.
pub open spec fn is_group_element(encoded: Seq<u8>) -> bool {
    encoded == identity_encoding() || is_uncompressed_point(encoded)
}

/// The encoding of `k` times the generator of the group.
pub uninterp spec fn generator_multiple(k: nat) -> Seq<u8>;

/// The encoding of the sum, in the group, of the two elements encoded.
pub uninterp spec fn curve_sum(a: Seq<u8>, b: Seq<u8>) -> Seq<u8>;

/// A scalar: an integer modulo the group order, kept reduced.
#[derive(Clone, Copy, Debug, PartialEq, Eq)]
pub struct Scalar {
    repr: [u8; 32],
}

impl View for Scalar {
    type V = nat;

    closed spec fn view(&self) -> nat {
        be_value(self.repr@)
    }
}

/// A public key: a point of the curve that is not the point at infinity.
#[derive(Debug, PartialEq, Eq)]
pub struct PublicKey {
    encoded: Vec<u8>,
}

impl View for PublicKey {
    type V = Seq<u8>;

    /// The uncompressed SEC1 encoding of the point.
    closed spec fn view(&self) -> Seq<u8> {
        self.encoded@
    }
}

/// Construction of a scalar from the bytes of a digest.
pub trait ScalarExt: Sized {
    /// The scalar that 32 bytes spell, least significant byte first.
    fn from_bytes(bytes: &[u8]) -> Self
        requires
            bytes@.len() == 32,
    ;
}

/// The scalar that a 32-byte digest stands for: the digest read least
/// significant byte first, reduced modulo the group order.
pub open spec fn scalar_of_digest(digest: Seq<u8>) -> nat {
    le_value(digest) % group_order()
}

/// `Scalar::reduce` of `k256`, applied to `U256::from_le_slice(bytes)`, with
/// the result's `to_bytes`. The source of `reduce` subtracts the group order
/// once if the integer is not below it, and every 256-bit integer is below
/// twice the order, so the result is the integer modulo the order;
/// `to_bytes` gives it most significant byte first. `from_le_slice` panics
/// on a length other than 32.
#[verifier::external_body]
fn reduce_le_bytes(bytes: &[u8]) -> (repr: [u8; 32])
    requires
        bytes@.len() == 32,
    ensures
        be_value(repr@) == le_value(bytes@) % group_order(),
{
    let wide = ethers_core::k256::U256::from_le_slice(bytes);
    ethers_core::k256::Scalar::reduce(wide).to_bytes().into()
}

/// `ProjectivePoint::GENERATOR * scalar` of `k256`, brought to affine form
/// and encoded without compression. The result is named, not computed here;
/// the contract adds that it encodes an element of the group.
#[verifier::external_body]
fn generator_mul(scalar: &Scalar) -> (product: Vec<u8>)
    requires
        scalar@ < group_order(),
    ensures
        product@ == generator_multiple(scalar@),
        is_group_element(product@),
{
    let k = ethers_core::k256::Scalar::from_repr(scalar.repr.into()).unwrap();
    let product = (ethers_core::k256::ProjectivePoint::GENERATOR * k).to_affine();
    product.to_encoded_point(false).as_bytes().to_vec()
}

/// `ProjectivePoint + AffinePoint` of `k256`, brought to affine form and
/// encoded without compression. The result is named, not computed here; the
/// contract adds that it encodes an element of the group.
#[verifier::external_body]
pub(crate) fn point_add(a: &[u8], b: &[u8]) -> (sum: Vec<u8>)
    requires
        is_group_element(a@),
        is_group_element(b@),
    ensures
        sum@ == curve_sum(a@, b@),
        is_group_element(sum@),
{
    let a = ethers_core::k256::EncodedPoint::from_bytes(a).unwrap();
    let b = ethers_core::k256::EncodedPoint::from_bytes(b).unwrap();
    let a = ethers_core::k256::AffinePoint::from_encoded_point(&a).unwrap();
    let b = ethers_core::k256::AffinePoint::from_encoded_point(&b).unwrap();
    let sum = (ethers_core::k256::ProjectivePoint::from(a) + b).to_affine();
    sum.to_encoded_point(false).as_bytes().to_vec()
}

/// The error of `elliptic_curve`, which says nothing of the cause.
#[verifier::external_type_specification]
#[verifier::external_body]
pub struct ExCurveError(ethers_core::k256::elliptic_curve::Error);

/// `EncodedPoint::from_bytes` of `sec1`, for a 32-byte field. Its source
/// accepts the input exactly when the first byte is one of the tags 0, 2, 3,
/// 4, 5 and the length is the one that goes with the tag: 1 for tag 0, 65
/// for tag 4, 33 for the others.
#[verifier::external_body]
pub(crate) fn sec1_decode(bytes: &[u8]) -> (decoded: Result<
    (),
    ethers_core::k256::elliptic_curve::Error,
>)
    ensures
        decoded is Ok <==> is_sec1_encoding(bytes@),
{
    match ethers_core::k256::EncodedPoint::from_bytes(bytes) {
        Ok(_) => Ok(()),
        Err(e) => Err(e.into()),
    }
}

/// `AffinePoint::from_encoded_point` of `k256` on an uncompressed encoding,
/// asked only whether it found a point. Its source reads X and Y most
/// significant byte first, refuses either where it is not below the field
/// prime, and then tests the curve equation.
#[verifier::external_body]
pub(crate) fn decodes_to_point(encoded: &[u8]) -> (found: bool)
    requires
        encoded@.len() == 65,
        encoded@[0] == SEC1_UNCOMPRESSED,
    ensures
        found == on_curve(encoded_x(encoded@), encoded_y(encoded@)),
{
    let point = ethers_core::k256::EncodedPoint::from_bytes(encoded).unwrap();
    ethers_core::k256::AffinePoint::from_encoded_point(&point).is_some().into()
}

impl PublicKey {
    #[verifier::type_invariant]
    spec fn valid(self) -> bool {
        is_uncompressed_point(self.encoded@)
    }

    /// The key whose encoding is `encoded`.
    pub(crate) fn from_validated(encoded: Vec<u8>) -> (key: PublicKey)
        requires
            is_uncompressed_point(encoded@),
        ensures
            key@ == encoded@,
    {
        PublicKey { encoded }
    }

    /// The uncompressed SEC1 encoding of the key: the tag 4, then X, then Y,
    /// each coordinate 32 bytes with the most significant first.
    pub fn as_bytes(&self) -> (encoded: &[u8])
        ensures
            encoded@ == self@,
            is_uncompressed_point(self@),
    {
        proof {
            use_type_invariant(self);
        }
        self.encoded.as_slice()
    }
}

impl Clone for PublicKey {
    fn clone(&self) -> (copy: PublicKey)
        ensures
            copy@ == self@,
    {
        proof {
            use_type_invariant(self);
        }
        let encoded = self.encoded.clone();
        assert(encoded@ =~= self.encoded@);
        PublicKey { encoded }
    }
}

impl Scalar {
    #[verifier::type_invariant]
    spec fn reduced(self) -> bool {
        be_value(self.repr@) < group_order()
    }

    /// The encoding of the scalar's multiple of the generator.
    pub(crate) fn mul_generator(&self) -> (product: Vec<u8>)
        ensures
            product@ == generator_multiple(self@),
            is_group_element(product@),
    {
        proof {
            use_type_invariant(self);
        }
        generator_mul(self)
    }

    /// The scalar's 32 bytes, most significant first.
    pub fn to_bytes(&self) -> (repr: [u8; 32])
        ensures
            be_value(repr@) == self@,
            self@ < group_order(),
    {
        proof {
            use_type_invariant(self);
        }
        self.repr
    }
}

/// Two scalars that stand for the same number are the same scalar, byte
/// for byte.
pub proof fn lemma_scalar_determined_by_value(a: Scalar, b: Scalar)
    requires
        a@ == b@,
    ensures
        a == b,
{
    lemma_be_value_injective(a.repr@, b.repr@);
    assert(a.repr =~= b.repr);
}

/// A digest that spells a number below the group order is its own scalar:
/// the 32 bytes of the scalar are the digest in reverse.
pub proof fn lemma_scalar_of_unreduced_digest(digest: Seq<u8>, repr: Seq<u8>)
    requires
        digest.len() == 32,
        repr.len() == 32,
        le_value(digest) < group_order(),
        be_value(repr) == scalar_of_digest(digest),
    ensures
        repr == digest.reverse(),
{
    lemma_small_mod(le_value(digest), group_order());
    lemma_le_value_is_reversed_be_value(digest);
    lemma_be_value_injective(repr, digest.reverse());
}

impl ScalarExt for Scalar {
    fn from_bytes(bytes: &[u8]) -> (scalar: Scalar)
        ensures
            scalar@ == scalar_of_digest(bytes@),
    {
        Scalar { repr: reduce_le_bytes(bytes) }
    }
}

} // verus!
