use vstd::prelude::*;

use crate::contract::TreasuryModel;
use crate::types::{TreasuryError, TreasuryState};

verus! {

/// A contract that was deployed and never called satisfies the storage
/// invariant.
pub proof fn empty_storage_is_well_formed()
    ensures
        TreasuryModel::empty().wf(),
{
}

/// Every operation keeps the storage invariant: whatever it is called with,
/// a successful operation on a well-formed storage gives a well-formed one
/// (a refused one leaves the storage as it was).
pub proof fn operations_keep_invariant(
    m: TreasuryModel,
    a: Seq<char>,
    b: Seq<char>,
    amount: i128,
    on_chain: i128,
)
    requires
        m.wf(),
    ensures
        m.initialize_outcome(a, b) matches Ok(n) ==> n.wf(),
        m.deposit_outcome(amount) matches Ok(n) ==> n.wf(),
        m.withdraw_outcome(a, amount, on_chain) matches Ok(n) ==> n.wf(),
        m.propose_admin_outcome(a, b) matches Ok(n) ==> n.wf(),
        m.accept_admin_outcome(a) matches Ok(n) ==> n.wf(),
{
}

/// The treasury can be initialized only once: after a successful
/// `initialize`, and after any successful operation on an initialized
/// treasury, `initialize` is refused with `AlreadyInitialized`.
pub proof fn initialize_only_once(
    m: TreasuryModel,
    a: Seq<char>,
    b: Seq<char>,
    c: Seq<char>,
    d: Seq<char>,
    amount: i128,
    on_chain: i128,
)
    ensures
        m.initialize_outcome(a, b) matches Ok(n) ==> n.initialize_outcome(c, d) == Err::<
            TreasuryModel,
            TreasuryError,
        >(TreasuryError::AlreadyInitialized),
        m.admin is Some ==> {
            &&& m.initialize_outcome(c, d) == Err::<TreasuryModel, TreasuryError>(
                TreasuryError::AlreadyInitialized,
            )
            &&& m.deposit_outcome(amount) matches Ok(n) ==> n.admin is Some
            &&& m.withdraw_outcome(a, amount, on_chain) matches Ok(n) ==> n.admin is Some
            &&& m.propose_admin_outcome(a, b) matches Ok(n) ==> n.admin is Some
            &&& m.accept_admin_outcome(a) matches Ok(n) ==> n.admin is Some
        },
{
}

/// A freshly initialized treasury has zeroed bookkeeping, the given admin and
/// token, and `get_state` reports the zeros.
pub proof fn initialize_zeroes_bookkeeping(m: TreasuryModel, admin: Seq<char>, token: Seq<char>)
    ensures
        m.initialize_outcome(admin, token) matches Ok(n) ==> {
            &&& n.state == Some(TreasuryState::zero())
            &&& n.admin == Some(admin)
            &&& n.token == Some(token)
        },
        m.admin is None ==> m.initialize_outcome(admin, token) is Ok,
{
}

/// A deposit adds exactly its amount to the balance and to the deposited
/// total and leaves the withdrawn total, the admin roles and the token as
/// they were; it goes through exactly when the amount is positive, the
/// treasury is initialized and neither sum leaves the `i128` range.
pub proof fn deposit_adds_amount(m: TreasuryModel, amount: i128)
    ensures
        m.deposit_outcome(amount) matches Ok(n) ==> {
            &&& m.state matches Some(st)
            &&& n.state matches Some(nst)
            &&& nst.balance == st.balance + amount
            &&& nst.total_deposited == st.total_deposited + amount
            &&& nst.total_withdrawn == st.total_withdrawn
            &&& n.admin == m.admin
            &&& n.pending_admin == m.pending_admin
            &&& n.token == m.token
        },
        (m.deposit_outcome(amount) is Ok) <==> {
            &&& amount > 0
            &&& m.token is Some
            &&& m.state matches Some(st)
            &&& st.balance + amount <= i128::MAX
            &&& st.total_deposited + amount <= i128::MAX
        },
{
}

/// A withdrawal goes through only for the stored admin and only for a
/// positive amount that the treasury account holds on chain; the recorded
/// balance becomes what is left on chain, the withdrawn total grows by the
/// amount, and the deposited total, the admin roles and the token stay.
pub proof fn withdraw_follows_on_chain_balance(
    m: TreasuryModel,
    admin: Seq<char>,
    amount: i128,
    on_chain: i128,
)
    ensures
        m.withdraw_outcome(admin, amount, on_chain) matches Ok(n) ==> {
            &&& m.admin == Some(admin)
            &&& 0 < amount <= on_chain
            &&& m.state matches Some(st)
            &&& n.state matches Some(nst)
            &&& nst.balance == on_chain - amount
            &&& nst.balance >= 0
            &&& nst.total_withdrawn == st.total_withdrawn + amount
            &&& nst.total_deposited == st.total_deposited
            &&& n.admin == m.admin
            &&& n.pending_admin == m.pending_admin
            &&& n.token == m.token
        },
        m.withdraw_precheck(admin, amount) matches Ok(t) ==> {
            &&& m.token == Some(t)
            &&& m.withdraw_outcome(admin, amount, on_chain) != Err::<TreasuryModel, TreasuryError>(
                TreasuryError::Unauthorized,
            )
            &&& m.withdraw_outcome(admin, amount, on_chain) != Err::<TreasuryModel, TreasuryError>(
                TreasuryError::NonPositiveAmount,
            )
        },
        m.withdraw_precheck(admin, amount) matches Err(e) ==> m.withdraw_outcome(
            admin,
            amount,
            on_chain,
        ) == Err::<TreasuryModel, TreasuryError>(e),
{
}

/// The deposited and withdrawn totals never decrease: no successful
/// operation on an initialized treasury lowers either of them.
pub proof fn totals_never_decrease(
    m: TreasuryModel,
    a: Seq<char>,
    b: Seq<char>,
    amount: i128,
    on_chain: i128,
    n: TreasuryModel,
)
    requires
        m.wf(),
        m.state is Some,
        m.initialize_outcome(a, b) == Ok::<TreasuryModel, TreasuryError>(n) || m.deposit_outcome(
            amount,
        ) == Ok::<TreasuryModel, TreasuryError>(n) || m.withdraw_outcome(a, amount, on_chain)
            == Ok::<TreasuryModel, TreasuryError>(n) || m.propose_admin_outcome(a, b) == Ok::<
            TreasuryModel,
            TreasuryError,
        >(n) || m.accept_admin_outcome(a) == Ok::<TreasuryModel, TreasuryError>(n),
    ensures
        n.state matches Some(nst) && nst.total_deposited >= m.state->0.total_deposited
            && nst.total_withdrawn >= m.state->0.total_withdrawn,
{
}

/// Only the admin may propose a successor, only the proposed successor may
/// accept, and after a proposal by the admin and its acceptance the
/// successor is the admin, no proposal is left, the bookkeeping and token
/// are unchanged, and the former admin (if another address) is refused a
/// withdrawal and a proposal with `Unauthorized`.
pub proof fn admin_handover(
    m: TreasuryModel,
    old_admin: Seq<char>,
    new_admin: Seq<char>,
    other: Seq<char>,
    amount: i128,
    on_chain: i128,
)
    requires
        m.admin == Some(old_admin),
    ensures
        other != old_admin ==> m.propose_admin_outcome(other, new_admin) == Err::<
            TreasuryModel,
            TreasuryError,
        >(TreasuryError::Unauthorized),
        m.propose_admin_outcome(old_admin, new_admin) matches Ok(m1) && {
            &&& m1.pending_admin == Some(new_admin)
            &&& other != new_admin ==> m1.accept_admin_outcome(other) == Err::<
                TreasuryModel,
                TreasuryError,
            >(TreasuryError::Unauthorized)
            &&& m1.accept_admin_outcome(new_admin) matches Ok(m2) && {
                &&& m2.admin == Some(new_admin)
                &&& m2.pending_admin is None
                &&& m2.state == m.state
                &&& m2.token == m.token
                &&& old_admin != new_admin ==> m2.withdraw_outcome(old_admin, amount, on_chain)
                    == Err::<TreasuryModel, TreasuryError>(TreasuryError::Unauthorized)
                &&& old_admin != new_admin ==> m2.propose_admin_outcome(old_admin, other)
                    == Err::<TreasuryModel, TreasuryError>(TreasuryError::Unauthorized)
            }
        },
{
}

/// Proposing a successor never changes the admin: it goes through exactly
/// when the caller is the stored admin, and then it only records the nominee
/// (replacing any earlier one), leaving admin, token and bookkeeping as they
/// were. A nominee becomes admin only by accepting.
pub proof fn propose_admin_only_records_nominee(
    m: TreasuryModel,
    current: Seq<char>,
    nominee: Seq<char>,
)
    ensures
        (m.propose_admin_outcome(current, nominee) is Ok) <==> m.admin == Some(current),
        m.propose_admin_outcome(current, nominee) matches Ok(n) ==> {
            &&& n.admin == m.admin
            &&& n.admin == Some(current)
            &&& n.pending_admin == Some(nominee)
            &&& n.token == m.token
            &&& n.state == m.state
        },
{
}

/// Accepting goes through exactly when the caller is the recorded nominee;
/// the nominee then becomes the admin, the nomination is cleared, and token
/// and bookkeeping stay as they were.
pub proof fn accept_admin_installs_nominee(m: TreasuryModel, caller: Seq<char>)
    ensures
        (m.accept_admin_outcome(caller) is Ok) <==> m.pending_admin == Some(caller),
        m.accept_admin_outcome(caller) matches Ok(n) ==> {
            &&& n.admin == Some(caller)
            &&& n.pending_admin is None
            &&& n.token == m.token
            &&& n.state == m.state
        },
{
}

/// The admin is changed by `initialize` (on a treasury without one) and by
/// `accept_admin` only: a successful deposit, withdrawal or proposal leaves
/// the admin as it was.
pub proof fn only_acceptance_changes_admin(
    m: TreasuryModel,
    a: Seq<char>,
    b: Seq<char>,
    amount: i128,
    on_chain: i128,
)
    ensures
        m.deposit_outcome(amount) matches Ok(n) ==> n.admin == m.admin,
        m.withdraw_outcome(a, amount, on_chain) matches Ok(n) ==> n.admin == m.admin,
        m.propose_admin_outcome(a, b) matches Ok(n) ==> n.admin == m.admin,
{
}

/// A withdrawal goes through exactly when the caller is the stored admin, the
/// amount is positive and at most what the treasury account holds on chain,
/// the treasury has its token and bookkeeping, and the withdrawn total plus
/// the amount fits in `i128`. Nothing else refuses it: not a pending
/// nomination, not the recorded balance, not the deposited total.
pub proof fn withdraw_succeeds_exactly_when(
    m: TreasuryModel,
    admin: Seq<char>,
    amount: i128,
    on_chain: i128,
)
    ensures
        (m.withdraw_outcome(admin, amount, on_chain) is Ok) <==> {
            &&& m.admin == Some(admin)
            &&& 0 < amount <= on_chain
            &&& m.token is Some
            &&& m.state matches Some(st)
            &&& st.total_withdrawn + amount <= i128::MAX
        },
        (m.withdraw_precheck(admin, amount) is Ok) <==> {
            &&& m.admin == Some(admin)
            &&& 0 < amount
            &&& m.token is Some
        },
{
}

/// On a well-formed treasury the admin can always withdraw a positive amount
/// up to the on-chain balance (while the withdrawn total stays in `i128`),
/// whatever the recorded balance, the deposited total or a pending
/// nomination; afterwards the recorded balance is what is left on chain.
pub proof fn admin_can_withdraw_up_to_on_chain_balance(
    m: TreasuryModel,
    amount: i128,
    on_chain: i128,
)
    requires
        m.wf(),
        m.admin is Some,
        0 < amount <= on_chain,
        m.state->0.total_withdrawn + amount <= i128::MAX,
    ensures
        m.withdraw_outcome(m.admin->0, amount, on_chain) matches Ok(n) && n.state == Some(
            TreasuryState {
                balance: (on_chain - amount) as i128,
                total_deposited: m.state->0.total_deposited,
                total_withdrawn: (m.state->0.total_withdrawn + amount) as i128,
            },
        ) && n.admin == m.admin && n.pending_admin == m.pending_admin && n.token == m.token,
{
}

/// Two treasuries with the same admin, token and withdrawn total answer a
/// withdrawal the same way, however their recorded balances, deposited totals
/// and pending nominations differ, and on success both end with the same
/// balance and withdrawn total.
pub proof fn withdraw_depends_only_on_admin_token_and_withdrawn_total(
    m1: TreasuryModel,
    m2: TreasuryModel,
    admin: Seq<char>,
    amount: i128,
    on_chain: i128,
)
    requires
        m1.admin == m2.admin,
        m1.token == m2.token,
        m1.state is Some,
        m2.state is Some,
        m1.state->0.total_withdrawn == m2.state->0.total_withdrawn,
    ensures
        m1.withdraw_outcome(admin, amount, on_chain) == Err::<TreasuryModel, TreasuryError>(
            TreasuryError::Unauthorized,
        ) <==> m2.withdraw_outcome(admin, amount, on_chain) == Err::<TreasuryModel, TreasuryError>(
            TreasuryError::Unauthorized,
        ),
        (m1.withdraw_outcome(admin, amount, on_chain) is Ok) <==> (m2.withdraw_outcome(
            admin,
            amount,
            on_chain,
        ) is Ok),
        m1.withdraw_outcome(admin, amount, on_chain) matches Ok(n1) ==> (m2.withdraw_outcome(
            admin,
            amount,
            on_chain,
        ) matches Ok(n2) && n1.state->0.balance == n2.state->0.balance
            && n1.state->0.total_withdrawn == n2.state->0.total_withdrawn),
{
}

/// `initialize` goes through exactly when there is no admin yet; it stores
/// the given admin and token with zeroed bookkeeping and leaves a pending
/// nomination as it was.
pub proof fn initialize_succeeds_exactly_when_no_admin(
    m: TreasuryModel,
    admin: Seq<char>,
    token: Seq<char>,
)
    ensures
        (m.initialize_outcome(admin, token) is Ok) <==> m.admin is None,
        m.admin is Some ==> m.initialize_outcome(admin, token) == Err::<
            TreasuryModel,
            TreasuryError,
        >(TreasuryError::AlreadyInitialized),
        m.initialize_outcome(admin, token) matches Ok(n) ==> n.pending_admin == m.pending_admin,
{
}

/// Which refusal a deposit meets: a non-positive amount is refused as such
/// whatever the storage; a positive one on a treasury without token or
/// bookkeeping is `NotInitialized`; otherwise the balance sum is checked
/// before the deposited-total sum.
pub proof fn deposit_refusals(m: TreasuryModel, amount: i128)
    ensures
        amount <= 0 ==> m.deposit_outcome(amount) == Err::<TreasuryModel, TreasuryError>(
            TreasuryError::NonPositiveAmount,
        ),
        amount > 0 && (m.token is None || m.state is None) ==> m.deposit_outcome(amount) == Err::<
            TreasuryModel,
            TreasuryError,
        >(TreasuryError::NotInitialized),
        amount > 0 && m.token is Some && m.state is Some ==> {
            let st = m.state->0;
            &&& st.balance + amount > i128::MAX ==> m.deposit_outcome(amount) == Err::<
                TreasuryModel,
                TreasuryError,
            >(TreasuryError::BalanceOverflow)
            &&& st.balance + amount <= i128::MAX && st.total_deposited + amount > i128::MAX
                ==> m.deposit_outcome(amount) == Err::<TreasuryModel, TreasuryError>(
                TreasuryError::TotalDepositedOverflow,
            )
        },
{
}

/// Which refusal a withdrawal meets: no admin is `NotInitialized`; a caller
/// other than the admin is `Unauthorized`; the admin asking for a
/// non-positive amount is `NonPositiveAmount`; the admin asking for more than
/// the account holds on chain is `InsufficientOnChainBalance`; and past
/// those, only an overflowing withdrawn total (`TotalWithdrawnOverflow`) or a
/// missing token or bookkeeping (`NotInitialized`) refuses it.
pub proof fn withdraw_refusals(m: TreasuryModel, caller: Seq<char>, amount: i128, on_chain: i128)
    ensures
        m.admin is None ==> m.withdraw_outcome(caller, amount, on_chain) == Err::<
            TreasuryModel,
            TreasuryError,
        >(TreasuryError::NotInitialized),
        m.admin matches Some(a) && a != caller ==> m.withdraw_outcome(caller, amount, on_chain)
            == Err::<TreasuryModel, TreasuryError>(TreasuryError::Unauthorized),
        m.admin == Some(caller) && amount <= 0 ==> m.withdraw_outcome(caller, amount, on_chain)
            == Err::<TreasuryModel, TreasuryError>(TreasuryError::NonPositiveAmount),
        m.admin == Some(caller) && m.token is Some && 0 < amount && on_chain < amount
            ==> m.withdraw_outcome(caller, amount, on_chain) == Err::<TreasuryModel, TreasuryError>(
            TreasuryError::InsufficientOnChainBalance,
        ),
        m.admin == Some(caller) && m.token is Some && 0 < amount <= on_chain && m.state is Some
            && m.state->0.total_withdrawn + amount > i128::MAX ==> m.withdraw_outcome(
            caller,
            amount,
            on_chain,
        ) == Err::<TreasuryModel, TreasuryError>(TreasuryError::TotalWithdrawnOverflow),
        m.withdraw_outcome(caller, amount, on_chain) matches Err(e) ==> (e
            == TreasuryError::NotInitialized || e == TreasuryError::Unauthorized || e
            == TreasuryError::NonPositiveAmount || e == TreasuryError::InsufficientOnChainBalance
            || e == TreasuryError::TotalWithdrawnOverflow),
{
}

/// Which refusal an admin handover step meets: proposing without an admin is
/// `NotInitialized` and by another address `Unauthorized`; accepting without
/// a nomination is `NoPendingAdmin` and by another address than the nominee
/// `Unauthorized`.
pub proof fn handover_refusals(m: TreasuryModel, caller: Seq<char>, nominee: Seq<char>)
    ensures
        m.admin is None ==> m.propose_admin_outcome(caller, nominee) == Err::<
            TreasuryModel,
            TreasuryError,
        >(TreasuryError::NotInitialized),
        m.admin matches Some(a) && a != caller ==> m.propose_admin_outcome(caller, nominee)
            == Err::<TreasuryModel, TreasuryError>(TreasuryError::Unauthorized),
        m.pending_admin is None ==> m.accept_admin_outcome(caller) == Err::<
            TreasuryModel,
            TreasuryError,
        >(TreasuryError::NoPendingAdmin),
        m.pending_admin matches Some(p) && p != caller ==> m.accept_admin_outcome(caller) == Err::<
            TreasuryModel,
            TreasuryError,
        >(TreasuryError::Unauthorized),
{
}

} // verus!
