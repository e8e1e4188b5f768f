use htlc_escrow::{Contract, DepositInfo, Deposits, EscrowError, Transfer, STORAGE_COST, TIMELOCK_DURATION};
use near_sdk::{AccountId, NearToken};

fn account(name: &str) -> AccountId {
    name.parse().unwrap()
}

fn key(s: &str) -> String {
    s.to_string()
}

#[test]
fn default_settings() {
    let contract = Contract::init(7);
    assert_eq!(contract.timelock_duration, TIMELOCK_DURATION);
    assert_eq!(contract.storage_cost, STORAGE_COST);
    assert_eq!(STORAGE_COST, NearToken::from_millinear(1).as_yoctonear());
    assert_eq!(TIMELOCK_DURATION, 24 * 60 * 60 * 1_000_000_000);
    assert!(contract.get_deposit_info(key("c1")).is_none());
}

#[test]
fn scenario_claim_then_claim_again() {
    let (a, b, c) = (account("a.near"), account("b.near"), account("c.near"));
    let mut ledger = Contract::init_with(0, TIMELOCK_DURATION, 100);

    assert_eq!(ledger.create_deposit(key("c1"), a.clone(), 1000, 100, 0), Ok(()));
    let record = ledger.get_deposit_info(key("c1")).unwrap();
    assert_eq!(record, DepositInfo { sender: a.clone(), amount: 900, timestamp: 0, claimed: false });

    let paid = ledger.claim_tokens(key("c1"), b.clone()).unwrap();
    assert_eq!(paid, Transfer { receiver_id: b.clone(), amount: 900 });
    assert!(ledger.get_deposit_info(key("c1")).unwrap().claimed);

    assert_eq!(ledger.claim_tokens(key("c1"), c.clone()), Err(EscrowError::AlreadyResolved));
    assert_eq!(
        ledger.get_deposit_info(key("c1")).unwrap(),
        DepositInfo { sender: a, amount: 900, timestamp: 0, claimed: true }
    );
}

#[test]
fn scenario_refund_at_timelock() {
    let a = account("a.near");
    let mut ledger = Contract::init_with(0, TIMELOCK_DURATION, 100);

    assert_eq!(ledger.recive_near(key("c2"), a.clone(), 500, 0), Ok(()));
    assert_eq!(ledger.get_deposit_info(key("c2")).unwrap().amount, 400);

    assert_eq!(
        ledger.retrieve_tokens(key("c2"), TIMELOCK_DURATION - 1),
        Err(EscrowError::TimelockNotExpired)
    );
    assert_eq!(ledger.get_deposit_info(key("c2")).unwrap().amount, 400);

    let paid = ledger.retrieve_tokens(key("c2"), TIMELOCK_DURATION).unwrap();
    assert_eq!(paid, Transfer { receiver_id: a, amount: 400 });
    assert!(ledger.get_deposit_info(key("c2")).is_none());
}

#[test]
fn distinct_commitments_stay_apart() {
    let (a, b) = (account("a.near"), account("b.near"));
    let mut ledger = Contract::init_with(0, 10, 5);

    assert_eq!(ledger.create_deposit(key("x"), a.clone(), 50, 5, 1), Ok(()));
    assert_eq!(ledger.ft_on_transfer(b.clone(), 70, key("y"), 2), Ok(()));

    assert_eq!(
        ledger.get_deposit_info(key("x")).unwrap(),
        DepositInfo { sender: a, amount: 45, timestamp: 1, claimed: false }
    );
    assert_eq!(
        ledger.get_deposit_info(key("y")).unwrap(),
        DepositInfo { sender: b, amount: 70, timestamp: 2, claimed: false }
    );
    assert!(ledger.get_deposit_info(key("z")).is_none());
}

#[test]
fn duplicate_commitment_refused() {
    let (a, b) = (account("a.near"), account("b.near"));
    let mut ledger = Contract::init_with(0, 10, 5);

    assert_eq!(ledger.create_deposit(key("x"), a.clone(), 50, 5, 1), Ok(()));
    assert_eq!(ledger.create_deposit(key("x"), b.clone(), 90, 5, 3), Err(EscrowError::DuplicateCommitment));
    assert_eq!(ledger.ft_on_transfer(b.clone(), 90, key("x"), 3), Err(EscrowError::DuplicateCommitment));
    assert_eq!(ledger.recive_near(key("x"), b, 90, 3), Err(EscrowError::DuplicateCommitment));
    assert_eq!(
        ledger.get_deposit_info(key("x")).unwrap(),
        DepositInfo { sender: a, amount: 45, timestamp: 1, claimed: false }
    );
}

#[test]
fn claimed_commitment_is_not_reused() {
    let (a, b) = (account("a.near"), account("b.near"));
    let mut ledger = Contract::init_with(0, 10, 5);

    assert_eq!(ledger.create_deposit(key("x"), a.clone(), 50, 5, 1), Ok(()));
    ledger.claim_tokens(key("x"), b.clone()).unwrap();
    assert_eq!(ledger.create_deposit(key("x"), b, 90, 5, 3), Err(EscrowError::DuplicateCommitment));
}

#[test]
fn refunded_commitment_can_be_used_again() {
    let (a, b) = (account("a.near"), account("b.near"));
    let mut ledger = Contract::init_with(0, 10, 5);

    assert_eq!(ledger.create_deposit(key("x"), a, 50, 5, 1), Ok(()));
    ledger.retrieve_tokens(key("x"), 11).unwrap();
    assert_eq!(ledger.create_deposit(key("x"), b.clone(), 90, 5, 20), Ok(()));
    assert_eq!(
        ledger.get_deposit_info(key("x")).unwrap(),
        DepositInfo { sender: b, amount: 85, timestamp: 20, claimed: false }
    );
}

#[test]
fn claim_of_missing_commitment() {
    let mut ledger = Contract::init(0);
    assert_eq!(ledger.claim_tokens(key("nothing"), account("b.near")), Err(EscrowError::NotFound));
    assert!(ledger.get_deposit_info(key("nothing")).is_none());
}

#[test]
fn refund_of_missing_commitment() {
    let mut ledger = Contract::init(0);
    assert_eq!(ledger.retrieve_tokens(key("nothing"), u64::MAX), Err(EscrowError::NotFound));
}

#[test]
fn refund_goes_to_depositor() {
    let (a, b) = (account("a.near"), account("b.near"));
    let mut ledger = Contract::init_with(0, 10, 0);

    assert_eq!(ledger.ft_on_transfer(a.clone(), 8, key("k"), 100), Ok(()));
    assert_eq!(ledger.retrieve_tokens(key("k"), 109), Err(EscrowError::TimelockNotExpired));
    assert_eq!(ledger.retrieve_tokens(key("k"), 50), Err(EscrowError::TimelockNotExpired));
    let paid = ledger.retrieve_tokens(key("k"), 110).unwrap();
    assert_eq!(paid.receiver_id, a);
    assert_ne!(paid.receiver_id, b);
    assert_eq!(paid.amount, 8);
    assert_eq!(ledger.retrieve_tokens(key("k"), 110), Err(EscrowError::NotFound));
}

#[test]
fn refund_of_claimed_record() {
    let (a, b) = (account("a.near"), account("b.near"));
    let mut ledger = Contract::init_with(0, 10, 0);

    assert_eq!(ledger.ft_on_transfer(a, 8, key("k"), 100), Ok(()));
    ledger.claim_tokens(key("k"), b).unwrap();
    assert_eq!(ledger.retrieve_tokens(key("k"), 110), Err(EscrowError::AlreadyResolved));
    assert_eq!(ledger.retrieve_tokens(key("k"), 105), Err(EscrowError::TimelockNotExpired));
    assert!(ledger.get_deposit_info(key("k")).unwrap().claimed);
}

#[test]
fn minimum_deposit_boundary() {
    let a = account("a.near");
    let mut ledger = Contract::init_with(0, 10, 100);

    assert_eq!(ledger.recive_near(key("m"), a.clone(), 100, 0), Err(EscrowError::InsufficientDeposit));
    assert_eq!(ledger.recive_near(key("m"), a.clone(), 99, 0), Err(EscrowError::InsufficientDeposit));
    assert!(ledger.get_deposit_info(key("m")).is_none());
    assert_eq!(ledger.recive_near(key("m"), a, 101, 0), Ok(()));
    assert_eq!(ledger.get_deposit_info(key("m")).unwrap().amount, 1);
}

#[test]
fn zero_token_transfer_refused() {
    let mut ledger = Contract::init(0);
    assert_eq!(ledger.ft_on_transfer(account("a.near"), 0, key("z"), 0), Err(EscrowError::InsufficientDeposit));
    assert!(ledger.get_deposit_info(key("z")).is_none());
}

#[test]
fn native_deposit_at_default_storage_cost() {
    let mut ledger = Contract::init(0);
    let a = account("a.near");
    assert_eq!(ledger.recive_near(key("s"), a.clone(), STORAGE_COST, 0), Err(EscrowError::InsufficientDeposit));
    assert_eq!(ledger.recive_near(key("s"), a, STORAGE_COST + 1, 0), Ok(()));
    assert_eq!(ledger.get_deposit_info(key("s")).unwrap().amount, 1);
}

#[test]
fn largest_values() {
    let a = account("a.near");
    let mut ledger = Contract::init_with(0, 100, 0);

    assert_eq!(ledger.ft_on_transfer(a.clone(), u128::MAX, key("big"), u64::MAX - 10), Ok(()));
    assert_eq!(ledger.retrieve_tokens(key("big"), u64::MAX), Err(EscrowError::TimelockNotExpired));
    let paid = ledger.claim_tokens(key("big"), a).unwrap();
    assert_eq!(paid.amount, u128::MAX);
}

#[test]
fn refund_with_clock_before_deposit() {
    let a = account("a.near");
    let mut ledger = Contract::init_with(0, 0, 0);

    assert_eq!(ledger.ft_on_transfer(a, 1, key("t"), 500), Ok(()));
    assert_eq!(ledger.retrieve_tokens(key("t"), 499), Err(EscrowError::TimelockNotExpired));
    assert!(ledger.retrieve_tokens(key("t"), 500).is_ok());
}

#[test]
fn refund_before_deposit_timestamp() {
    let mut contract = Contract::init(3);
    let alice = account("alice.near");
    let hash = key("hash123");
    let deposit_info = DepositInfo {
        sender: alice,
        amount: 1_000_000_000_000_000_000_000_000,
        claimed: false,
        timestamp: 25 * 3600 * 1_000_000_000,
    };
    contract.deposits.insert(&hash, &deposit_info);
    assert_eq!(contract.retrieve_tokens(hash.clone(), 0), Err(EscrowError::TimelockNotExpired));
    assert!(contract.deposits.get(&hash).is_some());
}

#[test]
fn deposit_number_is_kept() {
    let mut ledger = Contract::init(42);
    assert_eq!(ledger.ft_on_transfer(account("a.near"), 5, key("n"), 0), Ok(()));
    assert_eq!(ledger.get_deposit_number(), 42);
}

#[test]
fn store_insert_get_remove() {
    let (a, b) = (account("a.near"), account("b.near"));
    let mut store = Deposits::new();
    let first = DepositInfo { sender: a.clone(), amount: 1, timestamp: 2, claimed: false };
    let second = DepositInfo { sender: b.clone(), amount: 3, timestamp: 4, claimed: true };

    assert!(store.get(&key("p")).is_none());
    assert_eq!(store.insert(&key("p"), &first), None);
    assert_eq!(store.insert(&key("q"), &second), None);
    assert_eq!(store.get(&key("p")), Some(first.clone()));
    assert_eq!(store.insert(&key("p"), &second), Some(first));
    assert_eq!(store.get(&key("p")).unwrap().sender, b);
    assert_eq!(store.remove(&key("q")), Some(second));
    assert!(store.get(&key("q")).is_none());
    assert_eq!(store.remove(&key("q")), None);
    assert_eq!(store.get(&key("p")).unwrap().amount, 3);
}
