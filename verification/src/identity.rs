//! Identities and the derived control identity.
//!
//! Every account and asset class on the ledger is named by a 32-byte key,
//! held here as four 64-bit words. Custody accounts are never controlled by a
//! human key: they answer only to a *control identity*, a value derived
//! deterministically from a fixed label, the record's authority and a stored
//! seed, so that only the program logic itself can reproduce the signer that
//! moves escrowed funds.

use vstd::prelude::*;

verus! {

/// A 32-byte ledger identity (an account address or an asset class),
/// held as four little-endian 64-bit words.
#[derive(Clone, Copy, PartialEq, Eq, Structural, Debug)]
pub struct Pubkey {
    pub w0: u64,
    pub w1: u64,
    pub w2: u64,
    pub w3: u64,
}

/// The fixed derivation label of escrow custody authorities:
/// the ASCII bytes of `escrow`, read as a little-endian integer.
pub const ESCROW_LABEL: u64 = 0x776f72637365;

/// A deterministic, reproducible authorization identity with no private key.
///
/// It is reproduced only by presenting the original `(label, owner_key, seed)`
/// tuple, so nothing but the program logic that stored the seed can authorize
/// movements out of an account it controls.
#[derive(Clone, Copy, PartialEq, Eq, Structural, Debug)]
pub struct ControlIdentity {
    pub label: u64,
    pub owner_key: Pubkey,
    pub seed: u8,
}

/// Who may authorize transfers out of a ledger account: a human key that
/// signs requests, or a derived control identity presented by program logic.
#[derive(Clone, Copy, PartialEq, Eq, Structural, Debug)]
pub enum Authority {
    /// A key whose holder signs requests.
    Key(Pubkey),
    /// A derived non-human identity.
    Control(ControlIdentity),
}

/// The control identity of an escrow created by `authority` with the stored
/// derivation seed `seed`.
pub open spec fn escrow_control(authority: Pubkey, seed: u8) -> ControlIdentity {
    ControlIdentity { label: ESCROW_LABEL, owner_key: authority, seed }
}

/// Reproduces a control identity from its derivation inputs.
///
/// Derivation is a pure function of the tuple: the same inputs always yield
/// the same identity, and distinct tuples yield distinct identities.
pub fn derive_control_identity(label: u64, owner_key: Pubkey, seed: u8) -> (c: ControlIdentity)
    ensures
        c == (ControlIdentity { label, owner_key, seed }),
{
    ControlIdentity { label, owner_key, seed }
}

} // verus!
