//! A counter kept in one account of a ledger. Whoever creates it owns it,
//! anyone may move it up or down by one for a flat fee that the account
//! keeps, and the owner may close it once it has counted high enough,
//! collecting what the account holds.
//!
//! The ledger stores accounts and moves value; this crate decides. Each
//! operation is split where the ledger comes in: a function says which
//! instruction the ledger is to carry out, and a function takes the ledger's
//! answer and says what the account is afterwards.

pub mod account;
pub mod error;
pub mod laws;
pub mod ledger;
pub mod operations;
pub mod slot;

pub use account::CounterAccount;
pub use error::{CustomError, Failure};
pub use ledger::{Close, Create, Transfer, FEE_LAMPORTS};
pub use operations::{
    decrement, finalize, increment, initialize, pay_interaction_fee, Creation, Finalize,
    Initialize, Update, ACCOUNT_SPACE, FINALIZE_THRESHOLD,
};
pub use slot::{Interaction, Slot};
