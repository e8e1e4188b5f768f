use vstd::prelude::*;

verus! {

/// Declares `near_sdk::AccountId` (the validated account name of
/// `near_account_id`) as an opaque type: the ledger stores, copies and hands
/// back account identifiers but never looks inside one.
#[verifier::external_type_specification]
#[verifier::external_body]
pub struct ExAccountId(near_sdk::AccountId);

/// One escrowed amount, waiting to be claimed or refunded.
#[derive(Debug, Clone, PartialEq, Eq)]
pub struct DepositInfo {
    /// The account that funded the deposit and receives a refund.
    pub sender: near_sdk::AccountId,
    /// What is held, net of the storage fee taken at deposit time.
    pub amount: u128,
    /// Block time of the deposit, in nanoseconds.
    pub timestamp: u64,
    /// Set once the deposit has been paid out to a claimant.
    pub claimed: bool,
}

/// The ways in which a ledger operation is refused. A refused operation
/// leaves the ledger as it was.
#[derive(Debug, Clone, Copy, PartialEq, Eq, Structural)]
pub enum EscrowError {
    /// A deposit already exists under this commitment.
    DuplicateCommitment,
    /// The value does not exceed the minimum that the deposit must carry.
    InsufficientDeposit,
    /// No deposit exists under this commitment.
    NotFound,
    /// The deposit has already been claimed.
    AlreadyResolved,
    /// The refund comes before the timelock has run out.
    TimelockNotExpired,
}

/// A payment that the host is asked to make once the ledger has been updated.
#[derive(Debug, PartialEq, Eq)]
pub struct Transfer {
    pub receiver_id: near_sdk::AccountId,
    pub amount: u128,
}

impl DepositInfo {
    /// Whether the deposit still waits for a claim or a refund.
    pub open spec fn is_open(self) -> bool {
        !self.claimed
    }
}

/// Relies on the `Clone` that `near_account_id` derives for `AccountId`, a
/// newtype over `Box<str>`: the copy holds the same identifier.
pub assume_specification[ <near_sdk::AccountId as Clone>::clone ](a: &near_sdk::AccountId) -> (r: near_sdk::AccountId)
    ensures
        r == *a,
;

/// A field-by-field copy of a record.
pub(crate) fn copy_deposit(d: &DepositInfo) -> (r: DepositInfo)
    ensures
        r == *d,
{
    DepositInfo { sender: d.sender.clone(), amount: d.amount, timestamp: d.timestamp, claimed: d.claimed }
}

} // verus!
