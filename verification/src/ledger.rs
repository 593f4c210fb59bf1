//! What the counter asks of the ledger. The ledger keeps every balance and
//! every slot; an instruction is a plain value that names the work, and
//! whoever runs the ledger reports back whether it was done.

use anchor_lang::prelude::Pubkey;
use vstd::prelude::*;

verus! {

/// The price of one increment or one decrement, in lamports.
pub const FEE_LAMPORTS: u64 = 10_000_000;

/// Create an account of `space` bytes at `account`, with `payer` paying for
/// it. The ledger refuses when something is stored there already, or when
/// `payer` cannot pay.
#[derive(Clone, Copy, Debug, PartialEq, Eq)]
pub struct Create {
    pub account: Pubkey,
    pub payer: Pubkey,
    pub space: u64,
}

/// Move `lamports` from the balance of `from` to the balance of `to`.
/// The ledger refuses when `from` holds less than that.
#[derive(Clone, Copy, Debug, PartialEq, Eq)]
pub struct Transfer {
    pub from: Pubkey,
    pub to: Pubkey,
    pub lamports: u64,
}

/// Remove the account stored at `account` and pay all that it holds to
/// `beneficiary`.
#[derive(Clone, Copy, Debug, PartialEq, Eq)]
pub struct Close {
    pub account: Pubkey,
    pub beneficiary: Pubkey,
}

} // verus!
