//! A two-party conditional asset-swap escrow.
//!
//! A seller deposits a quantity of one asset into a custody account and names
//! the quantity of a second asset they want in return. The deposit is held in
//! trust until either a buyer supplies the requested counter-asset and the
//! swap settles atomically, or the seller cancels and recovers the deposit.
//!
//! The escrow itself is a small settlement state machine with three
//! transitions (open, settle, cancel) and strict authorization and ownership
//! invariants. The host ledger that actually owns accounts, moves balances
//! and enforces signatures is an external collaborator: this crate models its
//! accounts and transfers over plain values, validates every transition, and
//! states exactly which balances move and which error each rejected request
//! earns.

pub mod identity;
pub mod ledger;
pub mod escrow;
pub mod codec;
