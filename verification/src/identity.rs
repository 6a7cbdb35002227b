//! Account identities: 32-byte public keys, modelled as plain bytes so that
//! the record logic can be verified without reference to the host's key type.

use vstd::prelude::*;

verus! {

/// A 32-byte account identity (a public key of the host chain).
#[derive(Clone, Copy, Debug, PartialEq, Eq, Hash)]
pub struct AccountId(pub [u8; 32]);

impl View for AccountId {
    type V = Seq<u8>;

    open spec fn view(&self) -> Seq<u8> {
        self.0@
    }
}

/// The all-zero identity, used where no account has been recorded yet.
pub open spec fn zero_id() -> Seq<u8> {
    Seq::new(32, |i: int| 0u8)
}

impl AccountId {
    /// The zero identity.
    pub fn zero() -> (r: AccountId)
        ensures
            r@ == zero_id(),
    {
        let r = AccountId([0u8; 32]);
        proof {
            assert(r@ =~= zero_id());
        }
        r
    }

    /// The identity's bytes as an owned vector.
    pub fn to_vec(&self) -> (r: Vec<u8>)
        ensures
            r@ == self@,
    {
        vstd::slice::slice_to_vec(self.0.as_slice())
    }

    /// Whether this is the zero identity.
    pub fn is_zero(&self) -> (r: bool)
        ensures
            r == (self@ == zero_id()),
    {
        let mut i: usize = 0;
        while i < 32
            invariant
                0 <= i <= 32,
                forall|j: int| 0 <= j < i ==> self@[j] == 0u8,
            decreases 32 - i,
        {
            if self.0[i] != 0 {
                proof {
                    assert(self@[i as int] != zero_id()[i as int]);
                }
                return false;
            }
            i += 1;
        }
        proof {
            assert(self@ =~= zero_id());
        }
        true
    }
}

} // verus!
