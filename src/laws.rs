//! What holds across calls of the ledger's operations, stated over the
//! outcomes and state changes that their contracts give.
use vstd::prelude::*;

use crate::contract::{opened, timelock_expired, Contract};
use crate::types::{DepositInfo, EscrowError, Transfer};

verus! {

/// Two deposits under different commitments do not touch each other: after
/// both succeed, each commitment finds exactly the record that its own deposit
/// opened, and every other commitment finds what it found before.
pub proof fn lemma_distinct_deposits_independent(
    l0: Contract,
    l1: Contract,
    l2: Contract,
    c1: Seq<char>,
    s1: near_sdk::AccountId,
    v1: u128,
    m1: u128,
    t1: u64,
    c2: Seq<char>,
    s2: near_sdk::AccountId,
    v2: u128,
    m2: u128,
    t2: u64,
)
    requires
        c1 != c2,
        l0.deposit_result(c1, v1, m1) is Ok,
        l1.deposits@ == l0.deposits@.insert(c1, opened(s1, (v1 - m1) as u128, t1)),
        l1.deposit_result(c2, v2, m2) is Ok,
        l2.deposits@ == l1.deposits@.insert(c2, opened(s2, (v2 - m2) as u128, t2)),
    ensures
        l2.deposits.lookup(c1) == Some(opened(s1, (v1 - m1) as u128, t1)),
        l2.deposits.lookup(c2) == Some(opened(s2, (v2 - m2) as u128, t2)),
        opened(s1, (v1 - m1) as u128, t1).is_open(),
        opened(s2, (v2 - m2) as u128, t2).is_open(),
        forall|c: Seq<char>| c != c1 && c != c2 ==> #[trigger] l2.deposits.lookup(c) == l0.deposits.lookup(c),
{
}

/// Once a deposit under a commitment has succeeded, any later deposit under
/// it is refused as a duplicate, and the first record stays as it was.
pub proof fn lemma_duplicate_refused(
    l0: Contract,
    l1: Contract,
    c: Seq<char>,
    s: near_sdk::AccountId,
    v: u128,
    m: u128,
    t: u64,
    v2: u128,
    m2: u128,
)
    requires
        l0.deposit_result(c, v, m) is Ok,
        l1.deposits@ == l0.deposits@.insert(c, opened(s, (v - m) as u128, t)),
    ensures
        l1.deposit_result(c, v2, m2) == Err::<(), EscrowError>(EscrowError::DuplicateCommitment),
        l1.deposits.lookup(c) == Some(opened(s, (v - m) as u128, t)),
{
}

/// A claim of a commitment under which nothing is stored is not found.
pub proof fn lemma_claim_missing(l: Contract, c: Seq<char>, claimant: near_sdk::AccountId)
    requires
        !l.deposits@.dom().contains(c),
    ensures
        l.claim_result(c, claimant) == Err::<Transfer, EscrowError>(EscrowError::NotFound),
{
}

/// A claim of an unclaimed record pays exactly its amount to the claimant
/// and leaves it claimed; a second claim, by anyone, is refused and pays
/// nothing.
pub proof fn lemma_claim_once(
    l0: Contract,
    l1: Contract,
    c: Seq<char>,
    claimant: near_sdk::AccountId,
    other: near_sdk::AccountId,
)
    requires
        l0.deposits@.dom().contains(c),
        l0.deposits@[c].is_open(),
        l1.deposits@ == l0.deposits@.insert(c, DepositInfo { claimed: true, ..l0.deposits@[c] }),
    ensures
        l0.claim_result(c, claimant) == Ok::<Transfer, EscrowError>(
            Transfer { receiver_id: claimant, amount: l0.deposits@[c].amount },
        ),
        l1.deposits.lookup(c) == Some(DepositInfo { claimed: true, ..l0.deposits@[c] }),
        l1.claim_result(c, other) == Err::<Transfer, EscrowError>(EscrowError::AlreadyResolved),
{
}

/// A refund of an unclaimed record is refused while its timelock runs; from
/// the instant it ends, the refund pays the record's amount to the account
/// that funded it, whoever asks, and the record is gone afterwards.
pub proof fn lemma_refund_after_timelock(l0: Contract, l1: Contract, c: Seq<char>, now: u64)
    requires
        l0.deposits@.dom().contains(c),
        l0.deposits@[c].is_open(),
        l1.deposits@ == l0.deposits@.remove(c),
    ensures
        now < l0.deposits@[c].timestamp + l0.timelock_duration ==> l0.refund_result(c, now)
            == Err::<Transfer, EscrowError>(EscrowError::TimelockNotExpired),
        now >= l0.deposits@[c].timestamp + l0.timelock_duration ==> l0.refund_result(c, now)
            == Ok::<Transfer, EscrowError>(
            Transfer { receiver_id: l0.deposits@[c].sender, amount: l0.deposits@[c].amount },
        ),
        l1.deposits.lookup(c) is None,
{
}

/// Once its timelock is over, a claimed record cannot be refunded.
pub proof fn lemma_refund_claimed(l: Contract, c: Seq<char>, now: u64)
    requires
        l.deposits@.dom().contains(c),
        l.deposits@[c].claimed,
        timelock_expired(l.deposits@[c].timestamp, l.timelock_duration, now),
    ensures
        l.refund_result(c, now) == Err::<Transfer, EscrowError>(EscrowError::AlreadyResolved),
{
}

/// A deposit of exactly the minimum under a fresh commitment is refused; one
/// unit more succeeds and credits one unit.
pub proof fn lemma_minimum_boundary(l: Contract, c: Seq<char>, m: u128, s: near_sdk::AccountId, t: u64)
    requires
        !l.deposits@.dom().contains(c),
        m < u128::MAX,
    ensures
        l.deposit_result(c, m, m) == Err::<(), EscrowError>(EscrowError::InsufficientDeposit),
        l.deposit_result(c, (m + 1) as u128, m) == Ok::<(), EscrowError>(()),
        opened(s, ((m + 1) - m) as u128, t).amount == 1,
{
}

} // verus!
