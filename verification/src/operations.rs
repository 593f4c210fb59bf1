//! The four operations on a counter account that the ledger has loaded.
//!
//! Each context names the accounts an operation touches, as plain values.
//! The caller in a context has already proved control of its key; an
//! operation never sees a request that failed that proof.

use crate::account::CounterAccount;
use crate::error::CustomError;
use crate::ledger::{Close, Create, Transfer};
use anchor_lang::prelude::Pubkey;
use vstd::prelude::*;

verus! {

/// The least count at which an account may be closed.
pub const FINALIZE_THRESHOLD: i64 = 3;

/// The bytes a stored account takes: an 8-byte tag, the count, the owner.
pub const ACCOUNT_SPACE: u64 = 8 + 8 + 32;

/// Creating a counter: the slot that will hold it, and who pays for it and
/// becomes its owner.
#[derive(Clone, Copy, Debug, PartialEq, Eq)]
pub struct Initialize {
    pub address: Pubkey,
    pub user: Pubkey,
}

/// A counter that is being created: what the new account holds, and what
/// the ledger is to do for it, as one unit.
#[derive(Clone, Copy, Debug, PartialEq, Eq)]
pub struct Creation {
    pub account: CounterAccount,
    pub create: Create,
    pub funding: Option<Transfer>,
}

/// Moving a counter up or down: where it is stored, what it holds, and who
/// pays the fee.
#[derive(Clone, Copy, Debug, PartialEq, Eq)]
pub struct Update {
    pub address: Pubkey,
    pub counter: CounterAccount,
    pub user: Pubkey,
}

/// Closing a counter: where it is stored, what it holds, and who asks.
#[derive(Clone, Copy, Debug, PartialEq, Eq)]
pub struct Finalize {
    pub address: Pubkey,
    pub counter: CounterAccount,
    pub owner: Pubkey,
}

/// The funding that comes with a new account: nothing for zero lamports,
/// else one transfer from the creator into the new account.
pub open spec fn initial_funding(ctx: Initialize, initial_lamports: u64) -> Option<Transfer> {
    if initial_lamports > 0 {
        Some(Transfer { from: ctx.user, to: ctx.address, lamports: initial_lamports })
    } else {
        None
    }
}

/// What `initialize` answers.
pub open spec fn creation(ctx: Initialize, start_value: i64, initial_lamports: u64) -> Creation {
    Creation {
        account: CounterAccount { count: start_value, owner: ctx.user },
        create: Create { account: ctx.address, payer: ctx.user, space: ACCOUNT_SPACE },
        funding: initial_funding(ctx, initial_lamports),
    }
}

/// Sets up a new account: it counts from `start_value`, which may be any
/// value, and the caller owns it. The caller also pays for the account's
/// creation and, where `initial_lamports` is not zero, funds it with that
/// much.
pub fn initialize(ctx: &Initialize, start_value: i64, initial_lamports: u64) -> (created: Creation)
    ensures
        created == creation(*ctx, start_value, initial_lamports),
{
    let account = CounterAccount { count: start_value, owner: ctx.user };
    let create = Create { account: ctx.address, payer: ctx.user, space: ACCOUNT_SPACE };
    let funding = if initial_lamports > 0 {
        Some(Transfer { from: ctx.user, to: ctx.address, lamports: initial_lamports })
    } else {
        None
    };
    Creation { account, create, funding }
}

/// The fee for one interaction: `lamports` from the caller into the
/// counter's own account.
pub fn pay_interaction_fee(ctx: &Update, lamports: u64) -> (fee: Transfer)
    ensures
        fee == (Transfer { from: ctx.user, to: ctx.address, lamports }),
{
    Transfer { from: ctx.user, to: ctx.address, lamports }
}

/// Counts one up, once the fee is paid. `paid` is the ledger's answer to
/// `pay_interaction_fee`: on `Ok` the count rises by one and comes back; on
/// `Err` nothing changes and the ledger's error comes back as it was. Who
/// the caller is plays no part.
pub fn increment<E>(ctx: &mut Update, paid: Result<(), E>) -> (counted: Result<i64, E>)
    requires
        paid is Ok ==> old(ctx).counter.count < i64::MAX,
    ensures
        final(ctx).address == old(ctx).address,
        final(ctx).user == old(ctx).user,
        match paid {
            Ok(_) => final(ctx).counter == old(ctx).counter.incremented() && counted == Ok::<
                i64,
                E,
            >(final(ctx).counter.count),
            Err(e) => final(ctx).counter == old(ctx).counter && counted == Err::<i64, E>(e),
        },
{
    match paid {
        Ok(()) => {
            ctx.counter.count = ctx.counter.count + 1;
            Ok(ctx.counter.count)
        },
        Err(e) => Err(e),
    }
}

/// Counts one down, once the fee is paid. `paid` is the ledger's answer to
/// `pay_interaction_fee`: on `Ok` the count falls by one and comes back; on
/// `Err` nothing changes and the ledger's error comes back as it was.
pub fn decrement<E>(ctx: &mut Update, paid: Result<(), E>) -> (counted: Result<i64, E>)
    requires
        paid is Ok ==> old(ctx).counter.count > i64::MIN,
    ensures
        final(ctx).address == old(ctx).address,
        final(ctx).user == old(ctx).user,
        match paid {
            Ok(_) => final(ctx).counter == old(ctx).counter.decremented() && counted == Ok::<
                i64,
                E,
            >(final(ctx).counter.count),
            Err(e) => final(ctx).counter == old(ctx).counter && counted == Err::<i64, E>(e),
        },
{
    match paid {
        Ok(()) => {
            ctx.counter.count = ctx.counter.count - 1;
            Ok(ctx.counter.count)
        },
        Err(e) => Err(e),
    }
}

/// What `finalize` answers: the count is judged first, then the caller.
pub open spec fn finalize_verdict(ctx: Finalize) -> Result<Close, CustomError> {
    if ctx.counter.count < FINALIZE_THRESHOLD {
        Err(CustomError::CountNotHighEnough)
    } else if ctx.owner != ctx.counter.owner {
        Err(CustomError::NotOwner)
    } else {
        Ok(Close { account: ctx.address, beneficiary: ctx.counter.owner })
    }
}

/// Decides whether the account may be closed. It may when the count has
/// reached the threshold and the caller is the owner on record; the result
/// is then the instruction that removes the account and pays all it holds
/// to the owner. A count that is too low is reported before a wrong caller
/// is. The account itself is not touched either way.
pub fn finalize(ctx: &Finalize) -> (verdict: Result<Close, CustomError>)
    ensures
        verdict == finalize_verdict(*ctx),
        verdict is Ok <==> ctx.counter.count >= FINALIZE_THRESHOLD && ctx.owner
            == ctx.counter.owner,
        verdict == Err::<Close, CustomError>(CustomError::CountNotHighEnough) <==> ctx.counter.count
            < FINALIZE_THRESHOLD,
        verdict == Err::<Close, CustomError>(CustomError::NotOwner) <==> ctx.counter.count
            >= FINALIZE_THRESHOLD && ctx.owner != ctx.counter.owner,
        verdict is Ok ==> verdict->Ok_0 == (Close { account: ctx.address, beneficiary: ctx.owner }),
{
    if ctx.counter.count < FINALIZE_THRESHOLD {
        Err(CustomError::CountNotHighEnough)
    } else if !ctx.counter.is_owned_by(&ctx.owner) {
        Err(CustomError::NotOwner)
    } else {
        Ok(Close { account: ctx.address, beneficiary: ctx.counter.owner })
    }
}

} // verus!
