//! The record a counter keeps on the ledger, and the keys that name its
//! owner and its callers.

use anchor_lang::prelude::Pubkey;
use vstd::prelude::*;

verus! {

/// `anchor_lang::prelude::Pubkey`, the 32-byte public key by which the ledger
/// names every identity and every storage slot. It is taken as it is, with
/// nothing said of what is inside: keys are stored, handed on and compared.
#[verifier::external_type_specification]
#[verifier::external_body]
pub struct ExPubkey(anchor_lang::prelude::Pubkey);

/// `PartialEq::eq` of `Pubkey`, which the key type derives over its 32 bytes.
/// Taken on trust: it answers `true` when the two keys are the same value and
/// `false` when they are not.
#[verifier::external_body]
pub(crate) fn same_key(a: &Pubkey, b: &Pubkey) -> (same: bool)
    ensures
        same == (*a == *b),
{
    a == b
}

/// What a counter's slot holds: the value that is counted and the key of
/// whoever created it.
#[derive(Clone, Copy, Debug, PartialEq, Eq)]
pub struct CounterAccount {
    pub count: i64,
    pub owner: Pubkey,
}

impl CounterAccount {
    /// The account after one paid increment: one more, same owner.
    pub open spec fn incremented(self) -> CounterAccount {
        CounterAccount { count: (self.count + 1) as i64, owner: self.owner }
    }

    /// The account after one paid decrement: one less, same owner.
    pub open spec fn decremented(self) -> CounterAccount {
        CounterAccount { count: (self.count - 1) as i64, owner: self.owner }
    }

    /// Whether `key` is the owner on record.
    pub fn is_owned_by(&self, key: &Pubkey) -> (owned: bool)
        ensures
            owned == (self.owner == *key),
    {
        same_key(&self.owner, key)
    }
}

} // verus!
