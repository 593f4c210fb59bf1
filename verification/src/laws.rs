//! What holds of a counter over many interactions.

use crate::account::CounterAccount;
use anchor_lang::prelude::Pubkey;
use vstd::prelude::*;

verus! {

/// One interaction that took effect, with the caller who paid for it.
pub enum Step {
    Increment(Pubkey),
    Decrement(Pubkey),
}

/// The account after the steps have taken effect on it one after another,
/// first to last.
pub open spec fn replay(account: CounterAccount, steps: Seq<Step>) -> CounterAccount
    decreases steps.len(),
{
    if steps.len() == 0 {
        account
    } else {
        let before = replay(account, steps.drop_last());
        match steps.last() {
            Step::Increment(_) => before.incremented(),
            Step::Decrement(_) => before.decremented(),
        }
    }
}

/// How many of the steps are increments.
pub open spec fn increments(steps: Seq<Step>) -> nat
    decreases steps.len(),
{
    if steps.len() == 0 {
        0
    } else if steps.last() is Increment {
        increments(steps.drop_last()) + 1
    } else {
        increments(steps.drop_last())
    }
}

/// How many of the steps are decrements.
pub open spec fn decrements(steps: Seq<Step>) -> nat
    decreases steps.len(),
{
    if steps.len() == 0 {
        0
    } else if steps.last() is Decrement {
        decrements(steps.drop_last()) + 1
    } else {
        decrements(steps.drop_last())
    }
}

/// Whether a count that starts at `start` stays within what an `i64` holds
/// after each of the steps.
pub open spec fn stays_in_range(start: i64, steps: Seq<Step>) -> bool {
    forall|k: int|
        0 <= k <= steps.len() ==> i64::MIN <= start + increments(#[trigger] steps.take(k))
            - decrements(steps.take(k)) <= i64::MAX
}

/// After any run of increments and decrements the count is where it
/// started, plus the number of increments, minus the number of decrements,
/// and the owner is who it was. The order of the steps and the callers who
/// made them play no part. Holds as long as no step takes the count past
/// either end of `i64`.
pub proof fn lemma_count_is_start_plus_net(account: CounterAccount, steps: Seq<Step>)
    requires
        stays_in_range(account.count, steps),
    ensures
        replay(account, steps).count == account.count + increments(steps) - decrements(steps),
        replay(account, steps).owner == account.owner,
    decreases steps.len(),
{
    if steps.len() > 0 {
        let earlier = steps.drop_last();
        assert forall|k: int| 0 <= k <= earlier.len() implies i64::MIN <= account.count
            + increments(#[trigger] earlier.take(k)) - decrements(earlier.take(k))
            <= i64::MAX by {
            assert(earlier.take(k) =~= steps.take(k));
        }
        lemma_count_is_start_plus_net(account, earlier);
        assert(steps.take(steps.len() as int) =~= steps);
    }
}

/// Two runs with as many increments and as many decrements as each other
/// leave the same account behind, however their steps are interleaved and
/// whoever made them.
pub proof fn lemma_interleaving_is_immaterial(
    account: CounterAccount,
    one: Seq<Step>,
    other: Seq<Step>,
)
    requires
        stays_in_range(account.count, one),
        stays_in_range(account.count, other),
        increments(one) == increments(other),
        decrements(one) == decrements(other),
    ensures
        replay(account, one) == replay(account, other),
{
    lemma_count_is_start_plus_net(account, one);
    lemma_count_is_start_plus_net(account, other);
}

} // verus!
