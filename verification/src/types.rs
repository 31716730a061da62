use vstd::prelude::*;

verus! {

/// The treasury's bookkeeping, held in the `State` slot.
#[derive(Clone, Copy, Debug, PartialEq, Eq, Structural)]
pub struct TreasuryState {
    pub balance: i128,
    pub total_deposited: i128,
    pub total_withdrawn: i128,
}

impl TreasuryState {
    /// The bookkeeping of a freshly initialized treasury: all zero.
    pub open spec fn zero() -> TreasuryState {
        TreasuryState { balance: 0, total_deposited: 0, total_withdrawn: 0 }
    }

    /// No figure of the bookkeeping is negative.
    pub open spec fn non_negative(self) -> bool {
        &&& self.balance >= 0
        &&& self.total_deposited >= 0
        &&& self.total_withdrawn >= 0
    }
}

/// The slots of the contract's instance storage.
#[derive(Clone, Copy, Debug, PartialEq, Eq, Structural)]
pub enum DataKey {
    Admin,
    PendingAdmin,
    State,
    TokenAddress,
}

/// Why an operation was refused.
#[derive(Clone, Copy, Debug, PartialEq, Eq, Structural)]
pub enum TreasuryError {
    /// `initialize` was called on a treasury that already has an admin.
    AlreadyInitialized,
    /// The slot the operation needs is empty: the treasury was never initialized.
    NotInitialized,
    /// A deposit or withdrawal of zero or less.
    NonPositiveAmount,
    /// The acting address is not the one the operation asks for.
    Unauthorized,
    /// A withdrawal of more than the treasury account holds on chain.
    InsufficientOnChainBalance,
    /// Adding the deposit to the balance leaves the `i128` range.
    BalanceOverflow,
    /// Adding the deposit to the deposited total leaves the `i128` range.
    TotalDepositedOverflow,
    /// Adding the withdrawal to the withdrawn total leaves the `i128` range.
    TotalWithdrawnOverflow,
    /// `accept_admin` while no successor has been proposed.
    NoPendingAdmin,
}

/// The text of the panic that the contract raises for each refusal.
pub open spec fn error_message(e: TreasuryError) -> Seq<char> {
    match e {
        TreasuryError::AlreadyInitialized => "already initialized"@,
        TreasuryError::NotInitialized => "not initialized"@,
        TreasuryError::NonPositiveAmount => "amount must be positive"@,
        TreasuryError::Unauthorized => "unauthorized"@,
        TreasuryError::InsufficientOnChainBalance => "insufficient on-chain token balance"@,
        TreasuryError::BalanceOverflow => "balance overflow"@,
        TreasuryError::TotalDepositedOverflow => "total_deposited overflow"@,
        TreasuryError::TotalWithdrawnOverflow => "total_withdrawn overflow"@,
        TreasuryError::NoPendingAdmin => "no pending admin"@,
    }
}

impl TreasuryError {
    /// The panic text of this refusal.
    pub fn message(&self) -> (s: &'static str)
        ensures
            s@ == error_message(*self),
    {
        match self {
            TreasuryError::AlreadyInitialized => "already initialized",
            TreasuryError::NotInitialized => "not initialized",
            TreasuryError::NonPositiveAmount => "amount must be positive",
            TreasuryError::Unauthorized => "unauthorized",
            TreasuryError::InsufficientOnChainBalance => "insufficient on-chain token balance",
            TreasuryError::BalanceOverflow => "balance overflow",
            TreasuryError::TotalDepositedOverflow => "total_deposited overflow",
            TreasuryError::TotalWithdrawnOverflow => "total_withdrawn overflow",
            TreasuryError::NoPendingAdmin => "no pending admin",
        }
    }
}

/// A deposit that went through: `amount` of `token` moves from `sender` to
/// the treasury account ("treasury", "deposit" event, which carries the token
/// and the amount).
pub struct Deposited {
    pub token: String,
    pub sender: String,
    pub amount: i128,
}

/// A withdrawal that went through: `amount` of `token` moves from the
/// treasury account to `recipient` ("treasury", "withdraw" event).
pub struct Withdrawn {
    pub token: String,
    pub recipient: String,
    pub amount: i128,
}

} // verus!
