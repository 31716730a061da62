//! Single-admin treasury for platform fund management.
//!
//! The treasury holds one token. Anyone may deposit a positive amount; only
//! the admin may withdraw, and a withdrawal re-syncs the recorded balance to
//! the on-chain balance of the treasury account. The admin role is handed over
//! in two steps: the admin proposes a successor, the successor accepts.
//!
//! The contract's instance storage is modelled by `TreasuryManagerContract`:
//! one optional slot per `DataKey`. Addresses are held by their strkey text.
//! Every operation either fails with a `TreasuryError` and leaves the storage
//! untouched, or succeeds and gives the new storage (and, for transfers, the
//! event that describes the token movement the host has to carry out).

pub mod contract;
pub mod laws;
pub mod types;

pub use contract::{TreasuryManagerContract, TreasuryModel};
pub use types::{DataKey, Deposited, TreasuryError, TreasuryState, Withdrawn};
