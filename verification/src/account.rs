//! The identity of an owner: an account name, which by its form can never
//! be taken for an owner followed by the start of a path.

use vstd::prelude::*;
use vstd::slice::slice_to_vec;
use vstd::string::StringSliceAdditionalSpecFns;

verus! {

/// The least number of bytes in an account name.
pub const MIN_ACCOUNT_ID_LEN: usize = 2;

/// The greatest number of bytes in an account name.
pub const MAX_ACCOUNT_ID_LEN: usize = 64;

/// `byte` is a lower-case letter or a digit.
pub open spec fn is_name_character(byte: u8) -> bool {
    (0x61 <= byte <= 0x7a) || (0x30 <= byte <= 0x39)
}

/// `byte` is one of the three signs that part the words of a name: `-`, `_`
/// and `.`.
pub open spec fn is_name_separator(byte: u8) -> bool {
    byte == 0x2d || byte == 0x5f || byte == 0x2e
}

/// `name` is an account name: 2 to 64 bytes, each a lower-case letter, a
/// digit or a separator, no separator at either end and no two of them side
/// by side.
pub open spec fn is_account_id(name: Seq<u8>) -> bool {
    &&& MIN_ACCOUNT_ID_LEN <= name.len() <= MAX_ACCOUNT_ID_LEN
    &&& forall|i: int|
        0 <= i < name.len() ==> is_name_character(#[trigger] name[i]) || is_name_separator(name[i])
    &&& !is_name_separator(name[0])
    &&& !is_name_separator(name[name.len() - 1])
    &&& forall|i: int|
        0 < i < name.len() ==> !(is_name_separator(name[i - 1]) && is_name_separator(
            #[trigger] name[i],
        ))
}

/// The name of an account, which is what owns a derived key.
#[derive(Debug, PartialEq, Eq)]
pub struct AccountId {
    name: Vec<u8>,
}

impl View for AccountId {
    type V = Seq<u8>;

    /// The bytes of the name.
    closed spec fn view(&self) -> Seq<u8> {
        self.name@
    }
}

impl AccountId {
    #[verifier::type_invariant]
    spec fn well_formed(self) -> bool {
        is_account_id(self.name@)
    }

    /// The account of the given name, if it is the name of one.
    pub fn new(name: &str) -> (id: Option<AccountId>)
        ensures
            id is Some <==> is_account_id(name.spec_bytes()),
            id matches Some(account) ==> account@ == name.spec_bytes(),
    {
        let bytes = name.as_bytes();
        let len = bytes.len();
        if len < MIN_ACCOUNT_ID_LEN || len > MAX_ACCOUNT_ID_LEN {
            return None;
        }
        let mut after_separator = true;
        let mut i: usize = 0;
        while i < len
            invariant
                i <= len,
                len == bytes@.len(),
                bytes@ == name.spec_bytes(),
                forall|j: int|
                    0 <= j < i ==> is_name_character(#[trigger] bytes@[j]) || is_name_separator(
                        bytes@[j],
                    ),
                i > 0 ==> !is_name_separator(bytes@[0]),
                forall|j: int|
                    0 < j < i ==> !(is_name_separator(bytes@[j - 1]) && is_name_separator(
                        #[trigger] bytes@[j],
                    )),
                after_separator == (i == 0 || is_name_separator(bytes@[i - 1])),
            decreases len - i,
        {
            let byte: u8 = bytes[i];
            let separator = byte == 0x2d || byte == 0x5f || byte == 0x2e;
            let character = (0x61 <= byte && byte <= 0x7a) || (0x30 <= byte && byte <= 0x39);
            if !separator && !character {
                return None;
            }
            if separator && after_separator {
                return None;
            }
            after_separator = separator;
            i += 1;
        }
        if after_separator {
            return None;
        }
        Some(AccountId { name: slice_to_vec(bytes) })
    }

    /// The bytes of the name.
    pub fn as_bytes(&self) -> (name: &[u8])
        ensures
            name@ == self@,
            is_account_id(self@),
    {
        proof {
            use_type_invariant(self);
        }
        self.name.as_slice()
    }
}

impl Clone for AccountId {
    fn clone(&self) -> (copy: AccountId)
        ensures
            copy@ == self@,
    {
        proof {
            use_type_invariant(self);
        }
        let name = self.name.clone();
        assert(name@ =~= self.name@);
        AccountId { name }
    }
}

} // verus!
