//! What holds of the derivation for all inputs.

use crate::account::{is_account_id, is_name_character, is_name_separator};
use crate::curve::{
    is_uncompressed_point, lemma_scalar_determined_by_value, Scalar, SEC1_UNCOMPRESSED,
};
use crate::kdf::{
    converted_key, epsilon_of, message_bytes, prefix_bytes, CurveCheck, PublicKeyConversionError,
    SECP256K1_CURVE_TAG, SEPARATOR,
};
use vstd::prelude::*;

verus! {

/// The raw key that holds the point with the uncompressed encoding
/// `encoded`: the curve tag of secp256k1 in place of the encoding's tag, then
/// X and Y.
pub open spec fn raw_key_of(encoded: Seq<u8>) -> Seq<u8> {
    encoded.update(0, SECP256K1_CURVE_TAG)
}

/// Two offsets derived for the same owner and the same path are the same
/// scalar, byte for byte.
pub proof fn lemma_epsilon_deterministic(
    owner: Seq<u8>,
    path: Seq<u8>,
    first: Scalar,
    second: Scalar,
)
    requires
        first@ == epsilon_of(owner, path),
        second@ == epsilon_of(owner, path),
    ensures
        first == second,
{
    lemma_scalar_determined_by_value(first, second);
}

/// No account name holds the separator.
pub proof fn lemma_account_id_excludes_separator(name: Seq<u8>)
    requires
        is_account_id(name),
    ensures
        !name.contains(SEPARATOR),
{
    if name.contains(SEPARATOR) {
        let i = choose|i: int| 0 <= i < name.len() && name[i] == SEPARATOR;
        assert(is_name_character(name[i]) || is_name_separator(name[i]));
    }
}

/// Two pairs of account and path that differ have messages that differ,
/// whatever the paths hold: no pair can pass for another by setting the
/// separator elsewhere.
pub proof fn lemma_message_injective(
    owner1: Seq<u8>,
    path1: Seq<u8>,
    owner2: Seq<u8>,
    path2: Seq<u8>,
)
    requires
        is_account_id(owner1),
        is_account_id(owner2),
        message_bytes(owner1, path1) == message_bytes(owner2, path2),
    ensures
        owner1 == owner2,
        path1 == path2,
{
    lemma_account_id_excludes_separator(owner1);
    lemma_account_id_excludes_separator(owner2);
    let m1 = message_bytes(owner1, path1);
    let m2 = message_bytes(owner2, path2);
    let start = prefix_bytes().len() as int;
    assert(m1.len() == start + owner1.len() + 1 + path1.len());
    assert(m2.len() == start + owner2.len() + 1 + path2.len());
    assert(m1[start + owner1.len()] == SEPARATOR);
    assert(m2[start + owner2.len()] == SEPARATOR);
    if owner1.len() < owner2.len() {
        assert(m2[start + owner1.len()] == owner2[owner1.len() as int]);
        assert(owner2.contains(owner2[owner1.len() as int]));
    }
    if owner2.len() < owner1.len() {
        assert(m1[start + owner2.len()] == owner1[owner2.len() as int]);
        assert(owner1.contains(owner1[owner2.len() as int]));
    }
    assert(owner1.len() == owner2.len());
    assert forall|i: int| 0 <= i < owner1.len() implies owner1[i] == owner2[i] by {
        assert(m1[start + i] == owner1[i]);
        assert(m2[start + i] == owner2[i]);
    }
    assert(owner1 =~= owner2);
    assert(path1.len() == path2.len());
    assert forall|i: int| 0 <= i < path1.len() implies path1[i] == path2[i] by {
        assert(m1[start + owner1.len() + 1 + i] == path1[i]);
        assert(m2[start + owner2.len() + 1 + i] == path2[i]);
    }
    assert(path1 =~= path2);
}

/// A point of the curve, put into the raw key format and converted back,
/// is the point that went in, whether the curve tag is looked at or not.
pub proof fn lemma_conversion_round_trip(encoded: Seq<u8>, check: CurveCheck)
    requires
        is_uncompressed_point(encoded),
    ensures
        converted_key(raw_key_of(encoded), check) == Ok::<Seq<u8>, PublicKeyConversionError>(
            encoded,
        ),
{
    assert(raw_key_of(encoded).update(0, SEC1_UNCOMPRESSED) =~= encoded);
}

/// A raw key that converts no longer decodes once its last byte is gone.
pub proof fn lemma_truncated_key_rejected(raw: Seq<u8>, check: CurveCheck)
    requires
        converted_key(raw, check) is Ok,
    ensures
        converted_key(raw.drop_last(), check) == Err::<Seq<u8>, PublicKeyConversionError>(
            PublicKeyConversionError::DecodingError,
        ),
{
    assert(raw.len() == 65);
    assert(raw.drop_last().len() == 64);
    assert(raw.drop_last()[0] == raw[0]);
}

/// A raw key whose curve tag is set to another than that of secp256k1 is
/// refused with that tag where the tag is looked at, whatever follows it.
pub proof fn lemma_wrong_curve_tag_rejected(raw: Seq<u8>, tag: u8)
    requires
        raw.len() > 0,
        tag != SECP256K1_CURVE_TAG,
    ensures
        converted_key(raw.update(0, tag), CurveCheck::Strict) == Err::<
            Seq<u8>,
            PublicKeyConversionError,
        >(PublicKeyConversionError::WrongCurveType(tag)),
{
}

/// Where the curve tag is not looked at, it does not matter: two raw keys
/// that differ in it alone convert alike.
pub proof fn lemma_trusting_ignores_curve_tag(raw: Seq<u8>, tag: u8)
    requires
        raw.len() > 0,
    ensures
        converted_key(raw.update(0, tag), CurveCheck::Trusting) == converted_key(
            raw,
            CurveCheck::Trusting,
        ),
{
    assert(raw.update(0, tag).update(0, SEC1_UNCOMPRESSED) =~= raw.update(0, SEC1_UNCOMPRESSED));
}

/// What converts where the curve tag is looked at converts to the same key
/// where it is not.
pub proof fn lemma_strict_agrees_with_trusting(raw: Seq<u8>)
    requires
        converted_key(raw, CurveCheck::Strict) is Ok,
    ensures
        converted_key(raw, CurveCheck::Trusting) == converted_key(raw, CurveCheck::Strict),
{
}

} // verus!
