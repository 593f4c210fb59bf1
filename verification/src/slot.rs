//! The life of a counter in its storage slot: absent, created, counted up
//! and down, and removed for good.
//!
//! Every operation here is one request from start to end. Two answers from
//! outside come with it. `caller` is what the identity verifier said of the
//! request: the key that signed it, or why no key is proved. `ledger` is
//! what the ledger said of the instruction that the operation issues; it is
//! looked at only when the operation gets that far. Whatever fails, the
//! slot is exactly what it was.

use crate::account::CounterAccount;
use crate::error::Failure;
use crate::ledger::{Close, Transfer, FEE_LAMPORTS};
use crate::operations::{
    creation, decrement, finalize, finalize_verdict, increment, initialize, pay_interaction_fee,
    Creation, Finalize, Initialize, Update,
};
use anchor_lang::prelude::Pubkey;
use vstd::prelude::*;

verus! {

/// One storage location of the ledger and the counter account in it, if
/// there is one.
#[derive(Clone, Copy, Debug, PartialEq, Eq)]
pub struct Slot {
    pub address: Pubkey,
    pub account: Option<CounterAccount>,
}

/// An increment or decrement that took effect: the count it left behind
/// and the fee that the caller paid for it.
#[derive(Clone, Copy, Debug, PartialEq, Eq)]
pub struct Interaction {
    pub count: i64,
    pub fee: Transfer,
}

impl Slot {
    /// The fee transfer that one interaction by `user` costs.
    pub open spec fn fee_from(self, user: Pubkey) -> Transfer {
        Transfer { from: user, to: self.address, lamports: FEE_LAMPORTS }
    }

    /// A slot that holds no account.
    pub fn vacant(address: Pubkey) -> (slot: Slot)
        ensures
            slot == (Slot { address, account: None }),
    {
        Slot { address, account: None }
    }

    /// The account in the slot, if there is one.
    pub fn read(&self) -> (account: Option<CounterAccount>)
        ensures
            account == self.account,
    {
        self.account
    }

    /// Creates the account. A caller without proof is turned away first,
    /// then an occupied slot. In an empty one, `ledger` answers the creation
    /// together with the funding: on `Ok` the slot holds an account that
    /// counts from `start_value` and belongs to the caller, and what was
    /// created comes back; on `Err` the slot stays empty.
    pub fn initialize<E>(
        &mut self,
        caller: Result<Pubkey, E>,
        start_value: i64,
        initial_lamports: u64,
        ledger: Result<(), E>,
    ) -> (done: Result<Creation, Failure<E>>)
        ensures
            final(self).address == old(self).address,
            done is Err ==> *final(self) == *old(self),
            match (caller, old(self).account, ledger) {
                (Err(e), _, _) => done == Err::<Creation, Failure<E>>(Failure::Authentication(e)),
                (Ok(_), Some(_), _) => done == Err::<Creation, Failure<E>>(Failure::SlotOccupied),
                (Ok(_), None, Err(e)) => done == Err::<Creation, Failure<E>>(Failure::Ledger(e)),
                (Ok(user), None, Ok(_)) => final(self).account == Some(
                    CounterAccount { count: start_value, owner: user },
                ) && done == Ok::<Creation, Failure<E>>(
                    creation(
                        Initialize { address: old(self).address, user },
                        start_value,
                        initial_lamports,
                    ),
                ),
            },
    {
        let user = match caller {
            Err(e) => {
                return Err(Failure::Authentication(e));
            },
            Ok(user) => user,
        };
        if self.account.is_some() {
            return Err(Failure::SlotOccupied);
        }
        match ledger {
            Err(e) => Err(Failure::Ledger(e)),
            Ok(()) => {
                let ctx = Initialize { address: self.address, user };
                let created = initialize(&ctx, start_value, initial_lamports);
                self.account = Some(created.account);
                Ok(created)
            },
        }
    }

    /// Counts one up for whoever pays; the caller need not be the owner. An
    /// empty slot refuses with `NoAccount`, then a caller without proof is
    /// turned away. Otherwise `ledger` answers the fee transfer
    /// `fee_from(user)`: on `Ok` the count is one higher; on `Err` it is
    /// unchanged and the error is the ledger's.
    pub fn increment<E>(&mut self, caller: Result<Pubkey, E>, ledger: Result<(), E>) -> (done:
        Result<Interaction, Failure<E>>)
        requires
            old(self).account is Some && caller is Ok && ledger is Ok ==> old(
                self,
            ).account->0.count < i64::MAX,
        ensures
            final(self).address == old(self).address,
            done is Err ==> *final(self) == *old(self),
            match (old(self).account, caller, ledger) {
                (None, _, _) => done == Err::<Interaction, Failure<E>>(Failure::NoAccount),
                (Some(_), Err(e), _) => done == Err::<Interaction, Failure<E>>(
                    Failure::Authentication(e),
                ),
                (Some(_), Ok(_), Err(e)) => done == Err::<Interaction, Failure<E>>(
                    Failure::Ledger(e),
                ),
                (Some(before), Ok(user), Ok(_)) => final(self).account == Some(
                    before.incremented(),
                ) && done == Ok::<Interaction, Failure<E>>(
                    Interaction {
                        count: before.incremented().count,
                        fee: old(self).fee_from(user),
                    },
                ),
            },
    {
        let counter = match self.account {
            None => {
                return Err(Failure::NoAccount);
            },
            Some(counter) => counter,
        };
        let user = match caller {
            Err(e) => {
                return Err(Failure::Authentication(e));
            },
            Ok(user) => user,
        };
        let mut ctx = Update { address: self.address, counter, user };
        let fee = pay_interaction_fee(&ctx, FEE_LAMPORTS);
        match increment(&mut ctx, ledger) {
            Err(e) => Err(Failure::Ledger(e)),
            Ok(count) => {
                self.account = Some(ctx.counter);
                Ok(Interaction { count, fee })
            },
        }
    }

    /// Counts one down for whoever pays; the caller need not be the owner.
    /// An empty slot refuses with `NoAccount`, then a caller without proof
    /// is turned away. Otherwise `ledger` answers the fee transfer
    /// `fee_from(user)`: on `Ok` the count is one lower; on `Err` it is
    /// unchanged and the error is the ledger's.
    pub fn decrement<E>(&mut self, caller: Result<Pubkey, E>, ledger: Result<(), E>) -> (done:
        Result<Interaction, Failure<E>>)
        requires
            old(self).account is Some && caller is Ok && ledger is Ok ==> old(
                self,
            ).account->0.count > i64::MIN,
        ensures
            final(self).address == old(self).address,
            done is Err ==> *final(self) == *old(self),
            match (old(self).account, caller, ledger) {
                (None, _, _) => done == Err::<Interaction, Failure<E>>(Failure::NoAccount),
                (Some(_), Err(e), _) => done == Err::<Interaction, Failure<E>>(
                    Failure::Authentication(e),
                ),
                (Some(_), Ok(_), Err(e)) => done == Err::<Interaction, Failure<E>>(
                    Failure::Ledger(e),
                ),
                (Some(before), Ok(user), Ok(_)) => final(self).account == Some(
                    before.decremented(),
                ) && done == Ok::<Interaction, Failure<E>>(
                    Interaction {
                        count: before.decremented().count,
                        fee: old(self).fee_from(user),
                    },
                ),
            },
    {
        let counter = match self.account {
            None => {
                return Err(Failure::NoAccount);
            },
            Some(counter) => counter,
        };
        let user = match caller {
            Err(e) => {
                return Err(Failure::Authentication(e));
            },
            Ok(user) => user,
        };
        let mut ctx = Update { address: self.address, counter, user };
        let fee = pay_interaction_fee(&ctx, FEE_LAMPORTS);
        match decrement(&mut ctx, ledger) {
            Err(e) => Err(Failure::Ledger(e)),
            Ok(count) => {
                self.account = Some(ctx.counter);
                Ok(Interaction { count, fee })
            },
        }
    }

    /// Closes the account for its owner. In this order: an empty slot
    /// refuses with `NoAccount`; a caller without proof is turned away; a
    /// count below the threshold gives `CountNotHighEnough`; a caller who is
    /// not the owner gives `NotOwner`. Otherwise `ledger` answers the
    /// closing: on `Ok` the slot is empty and the instruction that paid the
    /// owner comes back; on `Err` the account stays.
    pub fn finalize<E>(&mut self, caller: Result<Pubkey, E>, ledger: Result<(), E>) -> (done:
        Result<Close, Failure<E>>)
        ensures
            final(self).address == old(self).address,
            done is Err ==> *final(self) == *old(self),
            match (old(self).account, caller) {
                (None, _) => done == Err::<Close, Failure<E>>(Failure::NoAccount),
                (Some(_), Err(e)) => done == Err::<Close, Failure<E>>(Failure::Authentication(e)),
                (Some(counter), Ok(owner)) => match (
                    finalize_verdict(Finalize { address: old(self).address, counter, owner }),
                    ledger,
                ) {
                    (Err(rule), _) => done == Err::<Close, Failure<E>>(Failure::Rule(rule)),
                    (Ok(_), Err(e)) => done == Err::<Close, Failure<E>>(Failure::Ledger(e)),
                    (Ok(close), Ok(_)) => final(self).account is None && done == Ok::<
                        Close,
                        Failure<E>,
                    >(close),
                },
            },
    {
        let counter = match self.account {
            None => {
                return Err(Failure::NoAccount);
            },
            Some(counter) => counter,
        };
        let owner = match caller {
            Err(e) => {
                return Err(Failure::Authentication(e));
            },
            Ok(owner) => owner,
        };
        let ctx = Finalize { address: self.address, counter, owner };
        match finalize(&ctx) {
            Err(rule) => Err(Failure::Rule(rule)),
            Ok(close) => match ledger {
                Err(e) => Err(Failure::Ledger(e)),
                Ok(()) => {
                    self.account = None;
                    Ok(close)
                },
            },
        }
    }
}

} // verus!
