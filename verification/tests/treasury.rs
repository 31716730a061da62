use treasury_manager::{
    DataKey, TreasuryError, TreasuryManagerContract, TreasuryState,
};

const ADMIN: &str = "GADMIN";
const TOKEN: &str = "CTOKEN";
const USER: &str = "GUSER";
const OTHER: &str = "GOTHER";

fn s(v: &str) -> String {
    v.to_string()
}

fn initialized() -> TreasuryManagerContract {
    let mut c = TreasuryManagerContract::new();
    c.initialize(s(ADMIN), s(TOKEN)).unwrap();
    c
}

fn state(balance: i128, total_deposited: i128, total_withdrawn: i128) -> TreasuryState {
    TreasuryState { balance, total_deposited, total_withdrawn }
}

#[test]
fn fresh_contract_has_empty_storage() {
    let c = TreasuryManagerContract::new();
    for key in [DataKey::Admin, DataKey::PendingAdmin, DataKey::State, DataKey::TokenAddress] {
        assert!(!c.has(key));
    }
    assert_eq!(c.get_state(), Err(TreasuryError::NotInitialized));
    assert_eq!(c.get_token(), Err(TreasuryError::NotInitialized));
}

#[test]
fn initialize_stores_admin_token_and_zeroes() {
    let c = initialized();
    assert!(c.has(DataKey::Admin));
    assert!(c.has(DataKey::TokenAddress));
    assert!(c.has(DataKey::State));
    assert!(!c.has(DataKey::PendingAdmin));
    assert_eq!(c.get_state(), Ok(state(0, 0, 0)));
    assert_eq!(c.get_token(), Ok(s(TOKEN)));
    assert_eq!(c.admin, Some(s(ADMIN)));
}

#[test]
fn initialize_twice_fails() {
    let mut c = initialized();
    assert_eq!(c.initialize(s(OTHER), s(OTHER)), Err(TreasuryError::AlreadyInitialized));
    assert_eq!(c.admin, Some(s(ADMIN)));
    assert_eq!(c.get_token(), Ok(s(TOKEN)));
}

#[test]
fn deposit_adds_to_balance_and_total() {
    let mut c = initialized();
    let d = c.deposit(s(USER), 1_000_000).unwrap();
    assert_eq!(d.token, s(TOKEN));
    assert_eq!(d.sender, s(USER));
    assert_eq!(d.amount, 1_000_000);
    assert_eq!(c.get_state(), Ok(state(1_000_000, 1_000_000, 0)));
    c.deposit(s(OTHER), 500_000).unwrap();
    assert_eq!(c.get_state(), Ok(state(1_500_000, 1_500_000, 0)));
}

#[test]
fn deposit_non_positive_fails() {
    let mut c = initialized();
    assert_eq!(c.deposit(s(USER), 0).err(), Some(TreasuryError::NonPositiveAmount));
    assert_eq!(c.deposit(s(USER), -5).err(), Some(TreasuryError::NonPositiveAmount));
    assert_eq!(c.get_state(), Ok(state(0, 0, 0)));
}

#[test]
fn deposit_before_initialize_fails() {
    let mut c = TreasuryManagerContract::new();
    assert_eq!(c.deposit(s(USER), 10).err(), Some(TreasuryError::NotInitialized));
    // an amount check comes first
    assert_eq!(c.deposit(s(USER), 0).err(), Some(TreasuryError::NonPositiveAmount));
}

#[test]
fn deposit_balance_overflow_fails() {
    let mut c = initialized();
    c.state = Some(state(i128::MAX, 0, 0));
    assert_eq!(c.deposit(s(USER), 1).err(), Some(TreasuryError::BalanceOverflow));
    assert_eq!(c.get_state(), Ok(state(i128::MAX, 0, 0)));
}

#[test]
fn deposit_total_overflow_fails() {
    let mut c = initialized();
    c.state = Some(state(0, i128::MAX - 1, 0));
    assert_eq!(c.deposit(s(USER), 2).err(), Some(TreasuryError::TotalDepositedOverflow));
    c.deposit(s(USER), 1).unwrap();
    assert_eq!(c.get_state(), Ok(state(1, i128::MAX, 0)));
}

#[test]
fn withdraw_syncs_balance_to_on_chain() {
    let mut c = initialized();
    c.deposit(s(USER), 1_000_000).unwrap();
    assert_eq!(c.prepare_withdraw(&s(ADMIN), 400_000), Ok(s(TOKEN)));
    // someone sent 50 more straight to the treasury account
    let w = c.withdraw(&s(ADMIN), s(OTHER), 400_000, 1_000_050).unwrap();
    assert_eq!(w.token, s(TOKEN));
    assert_eq!(w.recipient, s(OTHER));
    assert_eq!(w.amount, 400_000);
    assert_eq!(c.get_state(), Ok(state(600_050, 1_000_000, 400_000)));
}

#[test]
fn withdraw_whole_on_chain_balance_leaves_zero() {
    let mut c = initialized();
    c.deposit(s(USER), 700).unwrap();
    c.withdraw(&s(ADMIN), s(USER), 700, 700).unwrap();
    assert_eq!(c.get_state(), Ok(state(0, 700, 700)));
}

#[test]
fn withdraw_by_stranger_fails() {
    let mut c = initialized();
    c.deposit(s(USER), 1_000).unwrap();
    assert_eq!(c.prepare_withdraw(&s(USER), 10).err(), Some(TreasuryError::Unauthorized));
    assert_eq!(
        c.withdraw(&s(USER), s(USER), 10, 1_000).err(),
        Some(TreasuryError::Unauthorized)
    );
    assert_eq!(c.get_state(), Ok(state(1_000, 1_000, 0)));
}

#[test]
fn withdraw_non_positive_fails() {
    let mut c = initialized();
    assert_eq!(c.prepare_withdraw(&s(ADMIN), 0).err(), Some(TreasuryError::NonPositiveAmount));
    assert_eq!(
        c.withdraw(&s(ADMIN), s(USER), -1, 1_000).err(),
        Some(TreasuryError::NonPositiveAmount)
    );
}

#[test]
fn withdraw_more_than_on_chain_fails() {
    let mut c = initialized();
    c.deposit(s(USER), 1_000).unwrap();
    // the recorded balance says 1000, but the account only holds 999
    assert_eq!(
        c.withdraw(&s(ADMIN), s(USER), 1_000, 999).err(),
        Some(TreasuryError::InsufficientOnChainBalance)
    );
    assert_eq!(c.get_state(), Ok(state(1_000, 1_000, 0)));
}

#[test]
fn withdraw_total_overflow_fails() {
    let mut c = initialized();
    c.state = Some(state(10, 10, i128::MAX));
    assert_eq!(
        c.withdraw(&s(ADMIN), s(USER), 1, 10).err(),
        Some(TreasuryError::TotalWithdrawnOverflow)
    );
    assert_eq!(c.get_state(), Ok(state(10, 10, i128::MAX)));
}

#[test]
fn withdraw_before_initialize_fails() {
    let mut c = TreasuryManagerContract::new();
    assert_eq!(c.prepare_withdraw(&s(ADMIN), 1).err(), Some(TreasuryError::NotInitialized));
    assert_eq!(
        c.withdraw(&s(ADMIN), s(USER), 1, 1).err(),
        Some(TreasuryError::NotInitialized)
    );
}

#[test]
fn admin_handover_in_two_steps() {
    let mut c = initialized();
    c.deposit(s(USER), 100).unwrap();
    c.propose_admin(&s(ADMIN), s(OTHER)).unwrap();
    assert!(c.has(DataKey::PendingAdmin));
    assert_eq!(c.pending_admin, Some(s(OTHER)));
    // the admin has not changed yet
    assert_eq!(c.admin, Some(s(ADMIN)));
    c.accept_admin(s(OTHER)).unwrap();
    assert_eq!(c.admin, Some(s(OTHER)));
    assert!(!c.has(DataKey::PendingAdmin));
    // the former admin lost its rights, the new one has them
    assert_eq!(
        c.withdraw(&s(ADMIN), s(ADMIN), 10, 100).err(),
        Some(TreasuryError::Unauthorized)
    );
    assert_eq!(c.propose_admin(&s(ADMIN), s(ADMIN)), Err(TreasuryError::Unauthorized));
    c.withdraw(&s(OTHER), s(OTHER), 10, 100).unwrap();
    assert_eq!(c.get_state(), Ok(state(90, 100, 10)));
}

#[test]
fn propose_admin_by_stranger_fails() {
    let mut c = initialized();
    assert_eq!(c.propose_admin(&s(USER), s(USER)), Err(TreasuryError::Unauthorized));
    assert!(!c.has(DataKey::PendingAdmin));
}

#[test]
fn propose_admin_before_initialize_fails() {
    let mut c = TreasuryManagerContract::new();
    assert_eq!(c.propose_admin(&s(ADMIN), s(USER)), Err(TreasuryError::NotInitialized));
}

#[test]
fn accept_admin_without_proposal_fails() {
    let mut c = initialized();
    assert_eq!(c.accept_admin(s(OTHER)), Err(TreasuryError::NoPendingAdmin));
    assert_eq!(c.admin, Some(s(ADMIN)));
}

#[test]
fn accept_admin_by_wrong_address_fails() {
    let mut c = initialized();
    c.propose_admin(&s(ADMIN), s(OTHER)).unwrap();
    assert_eq!(c.accept_admin(s(USER)), Err(TreasuryError::Unauthorized));
    assert_eq!(c.admin, Some(s(ADMIN)));
    assert_eq!(c.pending_admin, Some(s(OTHER)));
}

#[test]
fn later_proposal_replaces_earlier() {
    let mut c = initialized();
    c.propose_admin(&s(ADMIN), s(OTHER)).unwrap();
    c.propose_admin(&s(ADMIN), s(USER)).unwrap();
    assert_eq!(c.accept_admin(s(OTHER)), Err(TreasuryError::Unauthorized));
    c.accept_admin(s(USER)).unwrap();
    assert_eq!(c.admin, Some(s(USER)));
}

#[test]
fn totals_never_decrease_over_a_run() {
    let mut c = initialized();
    let mut last = c.get_state().unwrap();
    let steps: [(bool, i128, i128); 5] =
        [(true, 500, 0), (false, 200, 450), (true, 0, 0), (false, 300, 200), (true, 90, 0)];
    for (is_deposit, amount, on_chain) in steps {
        if is_deposit {
            let _ = c.deposit(s(USER), amount);
        } else {
            let _ = c.withdraw(&s(ADMIN), s(USER), amount, on_chain);
        }
        let now = c.get_state().unwrap();
        assert!(now.total_deposited >= last.total_deposited);
        assert!(now.total_withdrawn >= last.total_withdrawn);
        assert!(now.balance >= 0);
        last = now;
    }
    assert_eq!(last, state(340, 590, 200));
}

#[test]
fn error_messages() {
    assert_eq!(TreasuryError::AlreadyInitialized.message(), "already initialized");
    assert_eq!(TreasuryError::NotInitialized.message(), "not initialized");
    assert_eq!(TreasuryError::NonPositiveAmount.message(), "amount must be positive");
    assert_eq!(TreasuryError::Unauthorized.message(), "unauthorized");
    assert_eq!(
        TreasuryError::InsufficientOnChainBalance.message(),
        "insufficient on-chain token balance"
    );
    assert_eq!(TreasuryError::BalanceOverflow.message(), "balance overflow");
    assert_eq!(TreasuryError::TotalDepositedOverflow.message(), "total_deposited overflow");
    assert_eq!(TreasuryError::TotalWithdrawnOverflow.message(), "total_withdrawn overflow");
    assert_eq!(TreasuryError::NoPendingAdmin.message(), "no pending admin");
}
