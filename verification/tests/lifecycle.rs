use anchor_lang::prelude::Pubkey;
use paid_counter::{
    finalize, pay_interaction_fee, Close, CounterAccount, Create, CustomError, Failure, Finalize,
    Interaction, Slot, Transfer, Update, FEE_LAMPORTS,
};

#[derive(Clone, Copy, Debug, PartialEq)]
enum Fault {
    InsufficientFunds,
    NotSigned,
}

fn key(n: u8) -> Pubkey {
    Pubkey::new_from_array([n; 32])
}

fn active(count: i64, owner: Pubkey) -> Slot {
    Slot { address: key(100), account: Some(CounterAccount { count, owner }) }
}

/// A ledger for these tests: who holds how much.
struct Book {
    balances: Vec<(Pubkey, u64)>,
}

impl Book {
    fn balance(&self, of: Pubkey) -> u64 {
        self.balances.iter().filter(|entry| entry.0 == of).map(|entry| entry.1).sum()
    }

    fn set(&mut self, of: Pubkey, lamports: u64) {
        self.balances.retain(|entry| entry.0 != of);
        self.balances.push((of, lamports));
    }

    fn transfer(&mut self, order: &Transfer) -> Result<(), Fault> {
        let held = self.balance(order.from);
        if held < order.lamports {
            return Err(Fault::InsufficientFunds);
        }
        self.set(order.from, held - order.lamports);
        let target = self.balance(order.to);
        self.set(order.to, target + order.lamports);
        Ok(())
    }

    fn close(&mut self, order: &Close) -> Result<(), Fault> {
        let residual = self.balance(order.account);
        self.set(order.account, 0);
        let target = self.balance(order.beneficiary);
        self.set(order.beneficiary, target + residual);
        Ok(())
    }
}

fn pay(book: &mut Book, slot: &Slot, user: Pubkey) -> Result<(), Fault> {
    let ctx = Update { address: slot.address, counter: slot.account.unwrap(), user };
    book.transfer(&pay_interaction_fee(&ctx, FEE_LAMPORTS))
}

#[test]
fn a_fresh_slot_holds_nothing() {
    let slot = Slot::vacant(key(100));
    assert_eq!(slot.address, key(100));
    assert_eq!(slot.read(), None);
}

#[test]
fn read_after_initialize_gives_start_value_and_caller() {
    let mut slot = Slot::vacant(key(100));
    let done = slot.initialize::<Fault>(Ok(key(1)), -12, 0, Ok(())).unwrap();
    assert_eq!(done.account, CounterAccount { count: -12, owner: key(1) });
    assert_eq!(done.create, Create { account: key(100), payer: key(1), space: 48 });
    assert_eq!(done.funding, None);
    assert_eq!(slot.read(), Some(CounterAccount { count: -12, owner: key(1) }));
    assert_eq!(slot.address, key(100));
}

#[test]
fn initialize_hands_back_the_funding_it_asked_for() {
    let mut slot = Slot::vacant(key(100));
    let done = slot.initialize::<Fault>(Ok(key(1)), 0, 250, Ok(())).unwrap();
    assert_eq!(done.funding, Some(Transfer { from: key(1), to: key(100), lamports: 250 }));
}

#[test]
fn initialize_that_the_ledger_fails_leaves_the_slot_empty() {
    let mut slot = Slot::vacant(key(100));
    let done = slot.initialize(Ok(key(1)), 0, 250, Err(Fault::InsufficientFunds));
    assert_eq!(done, Err(Failure::Ledger(Fault::InsufficientFunds)));
    assert_eq!(slot, Slot::vacant(key(100)));
}

#[test]
fn initialize_on_an_occupied_slot_changes_nothing() {
    let mut slot = active(4, key(1));
    let done = slot.initialize::<Fault>(Ok(key(2)), 0, 0, Ok(()));
    assert_eq!(done, Err(Failure::SlotOccupied));
    assert_eq!(slot, active(4, key(1)));
}

#[test]
fn initialize_without_proof_of_the_caller_creates_nothing() {
    let mut slot = Slot::vacant(key(100));
    let done = slot.initialize(Err(Fault::NotSigned), 0, 0, Ok(()));
    assert_eq!(done, Err(Failure::Authentication(Fault::NotSigned)));
    assert_eq!(slot.read(), None);
    let mut taken = active(4, key(1));
    let done = taken.initialize(Err(Fault::NotSigned), 0, 0, Ok(()));
    assert_eq!(done, Err(Failure::Authentication(Fault::NotSigned)));
}

#[test]
fn increment_on_a_slot_names_count_and_fee() {
    let mut slot = active(4, key(1));
    let done = slot.increment::<Fault>(Ok(key(2)), Ok(()));
    let fee = Transfer { from: key(2), to: key(100), lamports: 10_000_000 };
    assert_eq!(done, Ok(Interaction { count: 5, fee }));
    assert_eq!(slot, active(5, key(1)));
}

#[test]
fn decrement_on_a_slot_names_count_and_fee() {
    let mut slot = active(4, key(1));
    let done = slot.decrement::<Fault>(Ok(key(2)), Ok(()));
    let fee = Transfer { from: key(2), to: key(100), lamports: 10_000_000 };
    assert_eq!(done, Ok(Interaction { count: 3, fee }));
    assert_eq!(slot, active(3, key(1)));
}

#[test]
fn increment_by_a_caller_who_cannot_pay_changes_nothing() {
    let mut book = Book { balances: vec![(key(2), FEE_LAMPORTS - 1)] };
    let mut slot = active(4, key(1));
    let paid = pay(&mut book, &slot, key(2));
    let done = slot.increment(Ok(key(2)), paid);
    assert_eq!(done, Err(Failure::Ledger(Fault::InsufficientFunds)));
    assert_eq!(slot, active(4, key(1)));
    assert_eq!(book.balance(key(2)), FEE_LAMPORTS - 1);
    assert_eq!(book.balance(key(100)), 0);
}

#[test]
fn decrement_by_a_caller_who_cannot_pay_changes_nothing() {
    let mut book = Book { balances: vec![(key(2), 0)] };
    let mut slot = active(4, key(1));
    let paid = pay(&mut book, &slot, key(2));
    let done = slot.decrement(Ok(key(2)), paid);
    assert_eq!(done, Err(Failure::Ledger(Fault::InsufficientFunds)));
    assert_eq!(slot, active(4, key(1)));
}

#[test]
fn interactions_without_proof_of_the_caller_change_nothing() {
    let mut slot = active(4, key(1));
    let done = slot.increment(Err(Fault::NotSigned), Ok(()));
    assert_eq!(done, Err(Failure::Authentication(Fault::NotSigned)));
    let done = slot.decrement(Err(Fault::NotSigned), Ok(()));
    assert_eq!(done, Err(Failure::Authentication(Fault::NotSigned)));
    let done = slot.finalize(Err(Fault::NotSigned), Ok(()));
    assert_eq!(done, Err(Failure::Authentication(Fault::NotSigned)));
    assert_eq!(slot, active(4, key(1)));
}

#[test]
fn nothing_but_initialize_works_on_an_empty_slot() {
    let mut slot = Slot::vacant(key(100));
    assert_eq!(slot.increment::<Fault>(Ok(key(1)), Ok(())), Err(Failure::NoAccount));
    assert_eq!(slot.decrement::<Fault>(Ok(key(1)), Ok(())), Err(Failure::NoAccount));
    assert_eq!(slot.finalize::<Fault>(Ok(key(1)), Ok(())), Err(Failure::NoAccount));
    assert_eq!(slot.increment(Err(Fault::NotSigned), Ok(())), Err(Failure::NoAccount));
    assert_eq!(slot, Slot::vacant(key(100)));
}

#[test]
fn finalize_at_two_is_refused_and_the_account_stays() {
    let mut slot = active(2, key(1));
    let done = slot.finalize::<Fault>(Ok(key(1)), Ok(()));
    assert_eq!(done, Err(Failure::Rule(CustomError::CountNotHighEnough)));
    assert_eq!(slot.read(), Some(CounterAccount { count: 2, owner: key(1) }));
}

#[test]
fn finalize_at_three_by_a_stranger_is_refused_and_the_account_stays() {
    let mut slot = active(3, key(1));
    let done = slot.finalize::<Fault>(Ok(key(2)), Ok(()));
    assert_eq!(done, Err(Failure::Rule(CustomError::NotOwner)));
    assert_eq!(slot.read(), Some(CounterAccount { count: 3, owner: key(1) }));
}

#[test]
fn finalize_at_two_by_a_stranger_reports_the_count() {
    let mut slot = active(2, key(1));
    let done = slot.finalize::<Fault>(Ok(key(2)), Ok(()));
    assert_eq!(done, Err(Failure::Rule(CustomError::CountNotHighEnough)));
    assert_eq!(slot, active(2, key(1)));
}

#[test]
fn finalize_that_the_ledger_fails_keeps_the_account() {
    let mut slot = active(5, key(1));
    let done = slot.finalize(Ok(key(1)), Err(Fault::InsufficientFunds));
    assert_eq!(done, Err(Failure::Ledger(Fault::InsufficientFunds)));
    assert_eq!(slot, active(5, key(1)));
}

#[test]
fn finalize_at_five_by_the_owner_pays_out_and_removes_the_account() {
    let owner = key(1);
    let mut book = Book { balances: vec![(owner, 1_000), (key(100), 123_456_789)] };
    let mut slot = active(5, owner);
    let residual = book.balance(slot.address);
    let owned_before = book.balance(owner);

    let ctx = Finalize { address: slot.address, counter: slot.account.unwrap(), owner };
    let close = finalize(&ctx).unwrap();
    let closed = book.close(&close);
    let done = slot.finalize(Ok(owner), closed);

    assert_eq!(done, Ok(Close { account: key(100), beneficiary: owner }));
    assert_eq!(slot.read(), None);
    assert_eq!(book.balance(owner), owned_before + residual);
    assert_eq!(book.balance(key(100)), 0);

    let later = slot.increment::<Fault>(Ok(key(2)), Ok(()));
    assert_eq!(later, Err(Failure::NoAccount));
    assert_eq!(slot.read(), None);
}

#[test]
fn a_closed_slot_can_be_initialized_anew() {
    let mut slot = active(3, key(1));
    slot.finalize::<Fault>(Ok(key(1)), Ok(())).unwrap();
    assert_eq!(slot.read(), None);
    let done = slot.initialize::<Fault>(Ok(key(2)), 9, 0, Ok(()));
    assert!(done.is_ok());
    assert_eq!(slot.read(), Some(CounterAccount { count: 9, owner: key(2) }));
}

#[test]
fn three_paid_increments_then_the_owner_closes() {
    let owner = key(1);
    let callers = [key(2), key(3), key(4)];
    let mut book = Book {
        balances: vec![
            (owner, 0),
            (callers[0], FEE_LAMPORTS),
            (callers[1], FEE_LAMPORTS + 5),
            (callers[2], 3 * FEE_LAMPORTS),
        ],
    };
    let mut slot = Slot::vacant(key(100));

    let created = slot.initialize::<Fault>(Ok(owner), 0, 0, Ok(())).unwrap();
    assert_eq!(created.funding, None);
    assert_eq!(slot.read(), Some(CounterAccount { count: 0, owner }));

    let mut expected = 0;
    for caller in callers {
        let paid = pay(&mut book, &slot, caller);
        assert_eq!(paid, Ok(()));
        let done = slot.increment(Ok(caller), paid).unwrap();
        expected += 1;
        assert_eq!(done.count, expected);
        assert_eq!(done.fee, Transfer { from: caller, to: key(100), lamports: FEE_LAMPORTS });
    }
    assert_eq!(slot.read(), Some(CounterAccount { count: 3, owner }));
    assert_eq!(book.balance(key(100)), 3 * FEE_LAMPORTS);
    assert_eq!(book.balance(callers[0]), 0);
    assert_eq!(book.balance(callers[1]), 5);
    assert_eq!(book.balance(callers[2]), 2 * FEE_LAMPORTS);

    let ctx = Finalize { address: slot.address, counter: slot.account.unwrap(), owner };
    let close = finalize(&ctx).unwrap();
    let closed = book.close(&close);
    let done = slot.finalize(Ok(owner), closed);
    assert_eq!(done, Ok(Close { account: key(100), beneficiary: owner }));
    assert_eq!(slot.read(), None);
    assert_eq!(book.balance(owner), 3 * FEE_LAMPORTS);
    assert_eq!(book.balance(key(100)), 0);
}

#[test]
fn steps_by_many_callers_sum_up_on_a_slot() {
    let mut slot = active(-2, key(1));
    let steps = [(2u8, true), (3, true), (2, false), (4, true), (1, false), (5, true)];
    for (who, up) in steps {
        let done = if up {
            slot.increment::<Fault>(Ok(key(who)), Ok(()))
        } else {
            slot.decrement::<Fault>(Ok(key(who)), Ok(()))
        };
        assert!(done.is_ok());
    }
    assert_eq!(slot.read(), Some(CounterAccount { count: -2 + 4 - 2, owner: key(1) }));
}
