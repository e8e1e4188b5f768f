use vstd::prelude::*;

use crate::deposits::Deposits;
use crate::types::{DepositInfo, EscrowError, Transfer};

verus! {

/// What a deposit of native value must carry to pay for its record's storage:
/// one millinear, in yoctoNEAR.
pub const STORAGE_COST: u128 = 1_000_000_000_000_000_000_000;

/// How long a deposit stays locked before it may be refunded: 24 hours, in
/// nanoseconds of block time.
pub const TIMELOCK_DURATION: u64 = 86_400_000_000_000;

/// The escrow ledger: deposits keyed by commitment, and the settings that
/// govern them.
pub struct Contract {
    pub deposits: Deposits,
    pub deposit_number: u128,
    /// Nanoseconds after a deposit's creation from which it may be refunded.
    pub timelock_duration: u64,
    /// What a deposit of native value must exceed; the excess is credited.
    pub storage_cost: u128,
}

/// A fresh, unclaimed record.
pub open spec fn opened(sender: near_sdk::AccountId, amount: u128, now: u64) -> DepositInfo {
    DepositInfo { sender, amount, timestamp: now, claimed: false }
}

/// Whether a lock of `duration` that began at `created_at` is over at `now`.
pub open spec fn timelock_expired(created_at: u64, duration: u64, now: u64) -> bool {
    now >= created_at + duration
}

impl Contract {
    /// Every unclaimed record holds a positive amount.
    pub open spec fn open_amounts_positive(self) -> bool {
        forall|c: Seq<char>|
            #[trigger] self.deposits@.dom().contains(c) && self.deposits@[c].is_open()
                ==> self.deposits@[c].amount > 0
    }

    /// `self` and `other` have the same settings and counter.
    pub open spec fn same_settings(self, other: Contract) -> bool {
        &&& self.deposit_number == other.deposit_number
        &&& self.timelock_duration == other.timelock_duration
        &&& self.storage_cost == other.storage_cost
    }

    /// The outcome of a deposit of `value` under `commitment`, of which
    /// `minimum` is withheld.
    pub open spec fn deposit_result(self, commitment: Seq<char>, value: u128, minimum: u128) -> Result<(), EscrowError> {
        if self.deposits@.dom().contains(commitment) {
            Err(EscrowError::DuplicateCommitment)
        } else if value <= minimum {
            Err(EscrowError::InsufficientDeposit)
        } else {
            Ok(())
        }
    }

    /// The outcome of a claim of `commitment` by `claimant`.
    pub open spec fn claim_result(self, commitment: Seq<char>, claimant: near_sdk::AccountId) -> Result<Transfer, EscrowError> {
        match self.deposits.lookup(commitment) {
            None => Err(EscrowError::NotFound),
            Some(d) => if d.claimed {
                Err(EscrowError::AlreadyResolved)
            } else {
                Ok(Transfer { receiver_id: claimant, amount: d.amount })
            },
        }
    }

    /// The outcome of a refund of `commitment` at block time `now`.
    pub open spec fn refund_result(self, commitment: Seq<char>, now: u64) -> Result<Transfer, EscrowError> {
        match self.deposits.lookup(commitment) {
            None => Err(EscrowError::NotFound),
            Some(d) => if !timelock_expired(d.timestamp, self.timelock_duration, now) {
                Err(EscrowError::TimelockNotExpired)
            } else if d.claimed {
                Err(EscrowError::AlreadyResolved)
            } else {
                Ok(Transfer { receiver_id: d.sender, amount: d.amount })
            },
        }
    }

    /// A ledger with no deposits, the given counter, and the given timelock
    /// and storage cost.
    pub fn init_with(deposit_number: u128, timelock_duration: u64, storage_cost: u128) -> (r: Contract)
        ensures
            r.deposits@ == Map::<Seq<char>, DepositInfo>::empty(),
            r.deposit_number == deposit_number,
            r.timelock_duration == timelock_duration,
            r.storage_cost == storage_cost,
            r.open_amounts_positive(),
    {
        Contract { deposits: Deposits::new(), deposit_number, timelock_duration, storage_cost }
    }

    /// A ledger with no deposits and the given counter, locking deposits for
    /// `TIMELOCK_DURATION` and charging `STORAGE_COST` on native deposits.
    pub fn init(deposit_number: u128) -> (r: Contract)
        ensures
            r.deposits@ == Map::<Seq<char>, DepositInfo>::empty(),
            r.deposit_number == deposit_number,
            r.timelock_duration == TIMELOCK_DURATION,
            r.storage_cost == STORAGE_COST,
            r.open_amounts_positive(),
    {
        Contract::init_with(deposit_number, TIMELOCK_DURATION, STORAGE_COST)
    }

    /// Opens a deposit of `value` less `minimum` under `commitment`, funded by
    /// `sender` at block time `now`. Both ways of depositing come through here.
    pub fn create_deposit(
        &mut self,
        commitment: String,
        sender: near_sdk::AccountId,
        value: u128,
        minimum: u128,
        now: u64,
    ) -> (r: Result<(), EscrowError>)
        ensures
            r == old(self).deposit_result(commitment@, value, minimum),
            r is Ok ==> final(self).deposits@ == old(self).deposits@.insert(
                commitment@,
                opened(sender, (value - minimum) as u128, now),
            ),
            r is Ok ==> final(self).same_settings(*old(self)),
            r is Err ==> *final(self) == *old(self),
            old(self).open_amounts_positive() ==> final(self).open_amounts_positive(),
    {
        if self.deposits.get(&commitment).is_some() {
            return Err(EscrowError::DuplicateCommitment);
        }
        if value <= minimum {
            return Err(EscrowError::InsufficientDeposit);
        }
        let record = DepositInfo { sender, amount: value - minimum, timestamp: now, claimed: false };
        self.deposits.insert(&commitment, &record);
        Ok(())
    }

    /// Callback of a fungible-token contract that has moved `amount` of its
    /// tokens from `sender_id` to this ledger: `msg` is the commitment, and the
    /// whole amount is credited.
    pub fn ft_on_transfer(&mut self, sender_id: near_sdk::AccountId, amount: u128, msg: String, now: u64) -> (r: Result<(), EscrowError>)
        ensures
            r == old(self).deposit_result(msg@, amount, 0),
            r is Ok ==> final(self).deposits@ == old(self).deposits@.insert(msg@, opened(sender_id, amount, now)),
            r is Ok ==> final(self).same_settings(*old(self)),
            r is Err ==> *final(self) == *old(self),
            old(self).open_amounts_positive() ==> final(self).open_amounts_positive(),
    {
        self.create_deposit(msg, sender_id, amount, 0, now)
    }

    /// A deposit of native value: `sender_id` attached `attached` yoctoNEAR
    /// to lock under the commitment `msg`; the storage cost is withheld.
    pub fn recive_near(&mut self, msg: String, sender_id: near_sdk::AccountId, attached: u128, now: u64) -> (r: Result<(), EscrowError>)
        ensures
            r == old(self).deposit_result(msg@, attached, old(self).storage_cost),
            r is Ok ==> final(self).deposits@ == old(self).deposits@.insert(
                msg@,
                opened(sender_id, (attached - old(self).storage_cost) as u128, now),
            ),
            r is Ok ==> final(self).same_settings(*old(self)),
            r is Err ==> *final(self) == *old(self),
            old(self).open_amounts_positive() ==> final(self).open_amounts_positive(),
    {
        let minimum = self.storage_cost;
        self.create_deposit(msg, sender_id, attached, minimum, now)
    }

    /// Pays the deposit under the commitment `secret` out to `claimant`,
    /// marking it claimed before the payment is handed back to be made.
    pub fn claim_tokens(&mut self, secret: String, claimant: near_sdk::AccountId) -> (r: Result<Transfer, EscrowError>)
        ensures
            r == old(self).claim_result(secret@, claimant),
            r is Ok ==> final(self).deposits@ == old(self).deposits@.insert(
                secret@,
                DepositInfo { claimed: true, ..old(self).deposits@[secret@] },
            ),
            r is Ok ==> final(self).same_settings(*old(self)),
            r is Err ==> *final(self) == *old(self),
            old(self).open_amounts_positive() ==> final(self).open_amounts_positive(),
    {
        match self.deposits.get(&secret) {
            None => Err(EscrowError::NotFound),
            Some(d) => {
                if d.claimed {
                    return Err(EscrowError::AlreadyResolved);
                }
                let amount = d.amount;
                let updated = DepositInfo { sender: d.sender, amount: d.amount, timestamp: d.timestamp, claimed: true };
                self.deposits.insert(&secret, &updated);
                Ok(Transfer { receiver_id: claimant, amount })
            },
        }
    }

    /// Sends the deposit under `hash` back to the account that funded it,
    /// once its timelock is over at block time `now`, and forgets it. Anyone
    /// may ask for this.
    pub fn retrieve_tokens(&mut self, hash: String, now: u64) -> (r: Result<Transfer, EscrowError>)
        ensures
            r == old(self).refund_result(hash@, now),
            r is Ok ==> final(self).deposits@ == old(self).deposits@.remove(hash@),
            r is Ok ==> final(self).same_settings(*old(self)),
            r is Err ==> *final(self) == *old(self),
            old(self).open_amounts_positive() ==> final(self).open_amounts_positive(),
    {
        match self.deposits.get(&hash) {
            None => Err(EscrowError::NotFound),
            Some(d) => {
                let expired = now >= d.timestamp && now - d.timestamp >= self.timelock_duration;
                if !expired {
                    return Err(EscrowError::TimelockNotExpired);
                }
                if d.claimed {
                    return Err(EscrowError::AlreadyResolved);
                }
                self.deposits.remove(&hash);
                Ok(Transfer { receiver_id: d.sender, amount: d.amount })
            },
        }
    }

    /// The record under the commitment `string`, if any.
    pub fn get_deposit_info(&self, string: String) -> (r: Option<DepositInfo>)
        ensures
            r == self.deposits.lookup(string@),
    {
        self.deposits.get(&string)
    }

    /// The counter that the ledger was initialised with.
    pub fn get_deposit_number(&self) -> (r: u128)
        ensures
            r == self.deposit_number,
    {
        self.deposit_number
    }
}

} // verus!
