use vstd::prelude::*;

use crate::types::{DataKey, Deposited, TreasuryError, TreasuryState, Withdrawn};

verus! {

/// The text of an optional address.
pub open spec fn address_view(a: Option<String>) -> Option<Seq<char>> {
    match a {
        Some(s) => Some(s@),
        None => None,
    }
}

/// The instance storage of the treasury, with addresses taken by their text.
pub struct TreasuryModel {
    pub admin: Option<Seq<char>>,
    pub pending_admin: Option<Seq<char>>,
    pub token: Option<Seq<char>>,
    pub state: Option<TreasuryState>,
}

impl TreasuryModel {
    /// The storage of a contract that was deployed and never called.
    pub open spec fn empty() -> TreasuryModel {
        TreasuryModel { admin: None, pending_admin: None, token: None, state: None }
    }

    /// Whether the storage slot `key` holds a value.
    pub open spec fn has(self, key: DataKey) -> bool {
        match key {
            DataKey::Admin => self.admin is Some,
            DataKey::PendingAdmin => self.pending_admin is Some,
            DataKey::State => self.state is Some,
            DataKey::TokenAddress => self.token is Some,
        }
    }

    /// What every reachable storage satisfies: admin, token and bookkeeping
    /// are there together, a successor is only proposed once there is an
    /// admin, and no figure of the bookkeeping is negative.
    pub open spec fn wf(self) -> bool {
        &&& (self.admin is Some) == (self.token is Some)
        &&& (self.admin is Some) == (self.state is Some)
        &&& (self.pending_admin is Some) ==> (self.admin is Some)
        &&& (self.state matches Some(st) ==> st.non_negative())
    }

    /// `initialize(admin, token)`: refused once there is an admin; otherwise
    /// admin, token and zeroed bookkeeping are stored.
    pub open spec fn initialize_outcome(self, admin: Seq<char>, token: Seq<char>) -> Result<
        TreasuryModel,
        TreasuryError,
    > {
        if self.admin is Some {
            Err(TreasuryError::AlreadyInitialized)
        } else {
            Ok(
                TreasuryModel {
                    admin: Some(admin),
                    token: Some(token),
                    state: Some(TreasuryState::zero()),
                    ..self
                },
            )
        }
    }

    /// `deposit(amount)`: the amount must be positive and the treasury
    /// initialized; balance and deposited total both grow by the amount,
    /// each refused if it leaves the `i128` range.
    pub open spec fn deposit_outcome(self, amount: i128) -> Result<TreasuryModel, TreasuryError> {
        if amount <= 0 {
            Err(TreasuryError::NonPositiveAmount)
        } else if self.token is None {
            Err(TreasuryError::NotInitialized)
        } else {
            match self.state {
                None => Err(TreasuryError::NotInitialized),
                Some(st) => if st.balance + amount > i128::MAX {
                    Err(TreasuryError::BalanceOverflow)
                } else if st.total_deposited + amount > i128::MAX {
                    Err(TreasuryError::TotalDepositedOverflow)
                } else {
                    Ok(
                        TreasuryModel {
                            state: Some(
                                TreasuryState {
                                    balance: (st.balance + amount) as i128,
                                    total_deposited: (st.total_deposited + amount) as i128,
                                    total_withdrawn: st.total_withdrawn,
                                },
                            ),
                            ..self
                        },
                    )
                },
            }
        }
    }

    /// The checks of `withdraw` that come before the on-chain balance is
    /// asked for: the caller must be the admin and the amount positive. On
    /// success, the token whose balance is to be asked for.
    pub open spec fn withdraw_precheck(self, admin: Seq<char>, amount: i128) -> Result<
        Seq<char>,
        TreasuryError,
    > {
        match self.admin {
            None => Err(TreasuryError::NotInitialized),
            Some(stored) => if admin != stored {
                Err(TreasuryError::Unauthorized)
            } else if amount <= 0 {
                Err(TreasuryError::NonPositiveAmount)
            } else {
                match self.token {
                    None => Err(TreasuryError::NotInitialized),
                    Some(t) => Ok(t),
                }
            },
        }
    }

    /// `withdraw(admin, amount)` when the treasury account holds `on_chain`:
    /// once the precheck passes, the amount must not exceed what is held on chain; the
    /// balance becomes what is left on chain after the transfer and the
    /// withdrawn total grows by the amount (refused if it leaves `i128`).
    pub open spec fn withdraw_outcome(self, admin: Seq<char>, amount: i128, on_chain: i128) -> Result<
        TreasuryModel,
        TreasuryError,
    > {
        match self.withdraw_precheck(admin, amount) {
            Err(e) => Err(e),
            Ok(_) => if amount > on_chain {
                Err(TreasuryError::InsufficientOnChainBalance)
            } else {
                match self.state {
                    None => Err(TreasuryError::NotInitialized),
                    Some(st) => if st.total_withdrawn + amount > i128::MAX {
                        Err(TreasuryError::TotalWithdrawnOverflow)
                    } else {
                        Ok(
                            TreasuryModel {
                                state: Some(
                                    TreasuryState {
                                        balance: (on_chain - amount) as i128,
                                        total_deposited: st.total_deposited,
                                        total_withdrawn: (st.total_withdrawn + amount) as i128,
                                    },
                                ),
                                ..self
                            },
                        )
                    },
                }
            },
        }
    }

    /// `propose_admin(current, new)`: only the admin may propose; the
    /// proposal replaces any earlier one.
    pub open spec fn propose_admin_outcome(self, current: Seq<char>, new_admin: Seq<char>) -> Result<
        TreasuryModel,
        TreasuryError,
    > {
        match self.admin {
            None => Err(TreasuryError::NotInitialized),
            Some(stored) => if current != stored {
                Err(TreasuryError::Unauthorized)
            } else {
                Ok(TreasuryModel { pending_admin: Some(new_admin), ..self })
            },
        }
    }

    /// `accept_admin(new)`: only the proposed successor may accept; it
    /// becomes the admin and the proposal is cleared.
    pub open spec fn accept_admin_outcome(self, new_admin: Seq<char>) -> Result<
        TreasuryModel,
        TreasuryError,
    > {
        match self.pending_admin {
            None => Err(TreasuryError::NoPendingAdmin),
            Some(pending) => if new_admin != pending {
                Err(TreasuryError::Unauthorized)
            } else {
                Ok(TreasuryModel { admin: Some(new_admin), pending_admin: None, ..self })
            },
        }
    }
}

/// The treasury contract, given by its instance storage: one optional slot
/// per `DataKey`, addresses held by their strkey text.
pub struct TreasuryManagerContract {
    pub admin: Option<String>,
    pub pending_admin: Option<String>,
    pub token: Option<String>,
    pub state: Option<TreasuryState>,
}

impl View for TreasuryManagerContract {
    type V = TreasuryModel;

    open spec fn view(&self) -> TreasuryModel {
        TreasuryModel {
            admin: address_view(self.admin),
            pending_admin: address_view(self.pending_admin),
            token: address_view(self.token),
            state: self.state,
        }
    }
}

impl TreasuryManagerContract {
    /// The storage of a contract that was deployed and never called.
    pub fn new() -> (c: TreasuryManagerContract)
        ensures
            c@ == TreasuryModel::empty(),
    {
        TreasuryManagerContract { admin: None, pending_admin: None, token: None, state: None }
    }

    /// Whether the storage slot `key` holds a value.
    pub fn has(&self, key: DataKey) -> (r: bool)
        ensures
            r == self@.has(key),
    {
        match key {
            DataKey::Admin => self.admin.is_some(),
            DataKey::PendingAdmin => self.pending_admin.is_some(),
            DataKey::State => self.state.is_some(),
            DataKey::TokenAddress => self.token.is_some(),
        }
    }

    /// Sets up the treasury: stores the admin, the token and zeroed
    /// bookkeeping. Refused with `AlreadyInitialized` once there is an admin.
    pub fn initialize(&mut self, admin: String, token: String) -> (r: Result<(), TreasuryError>)
        ensures
            match r {
                Ok(()) => old(self)@.initialize_outcome(admin@, token@) == Ok::<
                    TreasuryModel,
                    TreasuryError,
                >(final(self)@),
                Err(e) => old(self)@.initialize_outcome(admin@, token@) == Err::<
                    TreasuryModel,
                    TreasuryError,
                >(e) && *final(self) == *old(self),
            },
            old(self)@.wf() ==> final(self)@.wf(),
    {
        if self.admin.is_some() {
            return Err(TreasuryError::AlreadyInitialized);
        }
        self.admin = Some(admin);
        self.token = Some(token);
        self.state = Some(TreasuryState { balance: 0, total_deposited: 0, total_withdrawn: 0 });
        Ok(())
    }

    /// Records a deposit of `amount` by `sender`. On success the result names
    /// the transfer of `amount` of the treasury's token from `sender` to the
    /// treasury account that the deposit stands for.
    pub fn deposit(&mut self, sender: String, amount: i128) -> (r: Result<Deposited, TreasuryError>)
        ensures
            match r {
                Ok(d) => {
                    &&& old(self)@.deposit_outcome(amount) == Ok::<TreasuryModel, TreasuryError>(
                        final(self)@,
                    )
                    &&& old(self)@.token == Some(d.token@)
                    &&& d.sender@ == sender@
                    &&& d.amount == amount
                },
                Err(e) => old(self)@.deposit_outcome(amount) == Err::<TreasuryModel, TreasuryError>(
                    e,
                ) && *final(self) == *old(self),
            },
            old(self)@.wf() ==> final(self)@.wf(),
    {
        if amount <= 0 {
            return Err(TreasuryError::NonPositiveAmount);
        }
        let token = match &self.token {
            None => {
                return Err(TreasuryError::NotInitialized);
            },
            Some(t) => t.clone(),
        };
        let st = match self.state {
            None => {
                return Err(TreasuryError::NotInitialized);
            },
            Some(st) => st,
        };
        let balance = match st.balance.checked_add(amount) {
            None => {
                return Err(TreasuryError::BalanceOverflow);
            },
            Some(b) => b,
        };
        let total_deposited = match st.total_deposited.checked_add(amount) {
            None => {
                return Err(TreasuryError::TotalDepositedOverflow);
            },
            Some(t) => t,
        };
        self.state = Some(
            TreasuryState { balance, total_deposited, total_withdrawn: st.total_withdrawn },
        );
        Ok(Deposited { token, sender, amount })
    }

    /// The checks of a withdrawal that come before the treasury account's
    /// on-chain balance is asked for. On success, the token whose balance
    /// `withdraw` needs.
    pub fn prepare_withdraw(&self, admin: &String, amount: i128) -> (r: Result<String, TreasuryError>)
        ensures
            match r {
                Ok(t) => self@.withdraw_precheck(admin@, amount) == Ok::<Seq<char>, TreasuryError>(t@),
                Err(e) => self@.withdraw_precheck(admin@, amount) == Err::<Seq<char>, TreasuryError>(e),
            },
    {
        match &self.admin {
            None => Err(TreasuryError::NotInitialized),
            Some(stored) => {
                if *admin != *stored {
                    Err(TreasuryError::Unauthorized)
                } else if amount <= 0 {
                    Err(TreasuryError::NonPositiveAmount)
                } else {
                    match &self.token {
                        None => Err(TreasuryError::NotInitialized),
                        Some(t) => Ok(t.clone()),
                    }
                }
            },
        }
    }

    /// Withdraws `amount` to `recipient` on behalf of `admin`, where
    /// `on_chain_balance` is what the treasury account holds of the token.
    /// On success the result names the transfer from the treasury account to
    /// `recipient`; it never asks for more than `on_chain_balance`.
    pub fn withdraw(
        &mut self,
        admin: &String,
        recipient: String,
        amount: i128,
        on_chain_balance: i128,
    ) -> (r: Result<Withdrawn, TreasuryError>)
        ensures
            match r {
                Ok(w) => {
                    &&& old(self)@.withdraw_outcome(admin@, amount, on_chain_balance) == Ok::<
                        TreasuryModel,
                        TreasuryError,
                    >(final(self)@)
                    &&& old(self)@.token == Some(w.token@)
                    &&& w.recipient@ == recipient@
                    &&& w.amount == amount
                    &&& 0 < w.amount <= on_chain_balance
                },
                Err(e) => old(self)@.withdraw_outcome(admin@, amount, on_chain_balance) == Err::<
                    TreasuryModel,
                    TreasuryError,
                >(e) && *final(self) == *old(self),
            },
            old(self)@.wf() ==> final(self)@.wf(),
    {
        let token = match self.prepare_withdraw(admin, amount) {
            Err(e) => {
                return Err(e);
            },
            Ok(t) => t,
        };
        if amount > on_chain_balance {
            return Err(TreasuryError::InsufficientOnChainBalance);
        }
        let st = match self.state {
            None => {
                return Err(TreasuryError::NotInitialized);
            },
            Some(st) => st,
        };
        let total_withdrawn = match st.total_withdrawn.checked_add(amount) {
            None => {
                return Err(TreasuryError::TotalWithdrawnOverflow);
            },
            Some(t) => t,
        };
        self.state = Some(
            TreasuryState {
                balance: on_chain_balance - amount,
                total_deposited: st.total_deposited,
                total_withdrawn,
            },
        );
        Ok(Withdrawn { token, recipient, amount })
    }

    /// The bookkeeping; `NotInitialized` before `initialize`.
    pub fn get_state(&self) -> (r: Result<TreasuryState, TreasuryError>)
        ensures
            match self@.state {
                Some(st) => r == Ok::<TreasuryState, TreasuryError>(st),
                None => r == Err::<TreasuryState, TreasuryError>(TreasuryError::NotInitialized),
            },
    {
        match self.state {
            Some(st) => Ok(st),
            None => Err(TreasuryError::NotInitialized),
        }
    }

    /// The treasury's token; `NotInitialized` before `initialize`.
    pub fn get_token(&self) -> (r: Result<String, TreasuryError>)
        ensures
            match self@.token {
                Some(t) => r matches Ok(s) && s@ == t,
                None => r == Err::<String, TreasuryError>(TreasuryError::NotInitialized),
            },
    {
        match &self.token {
            Some(t) => Ok(t.clone()),
            None => Err(TreasuryError::NotInitialized),
        }
    }

    /// The admin `current_admin` proposes `new_admin` as its successor.
    pub fn propose_admin(&mut self, current_admin: &String, new_admin: String) -> (r: Result<
        (),
        TreasuryError,
    >)
        ensures
            match r {
                Ok(()) => old(self)@.propose_admin_outcome(current_admin@, new_admin@) == Ok::<
                    TreasuryModel,
                    TreasuryError,
                >(final(self)@),
                Err(e) => old(self)@.propose_admin_outcome(current_admin@, new_admin@) == Err::<
                    TreasuryModel,
                    TreasuryError,
                >(e) && *final(self) == *old(self),
            },
            old(self)@.wf() ==> final(self)@.wf(),
    {
        match &self.admin {
            None => Err(TreasuryError::NotInitialized),
            Some(stored) => {
                if *current_admin != *stored {
                    Err(TreasuryError::Unauthorized)
                } else {
                    self.pending_admin = Some(new_admin);
                    Ok(())
                }
            },
        }
    }

    /// The proposed successor `new_admin` takes over as admin.
    pub fn accept_admin(&mut self, new_admin: String) -> (r: Result<(), TreasuryError>)
        ensures
            match r {
                Ok(()) => old(self)@.accept_admin_outcome(new_admin@) == Ok::<
                    TreasuryModel,
                    TreasuryError,
                >(final(self)@),
                Err(e) => old(self)@.accept_admin_outcome(new_admin@) == Err::<
                    TreasuryModel,
                    TreasuryError,
                >(e) && *final(self) == *old(self),
            },
            old(self)@.wf() ==> final(self)@.wf(),
    {
        match &self.pending_admin {
            None => Err(TreasuryError::NoPendingAdmin),
            Some(pending) => {
                if new_admin != *pending {
                    Err(TreasuryError::Unauthorized)
                } else {
                    self.admin = Some(new_admin);
                    self.pending_admin = None;
                    Ok(())
                }
            },
        }
    }
}

} // verus!
