//! The escrow settlement state machine.
//!
//! One escrow record describes one pending conditional swap: its seller
//! (`authority`), the custody account holding the deposit, and the asset and
//! amount the seller wants in return. The record is created by `initialize`,
//! never mutated while open, and destroyed exactly once, by `accept` (the
//! swap settles) or by `cancel` (the deposit is refunded). Every rejected
//! request earns a distinct error and changes nothing.

use vstd::prelude::*;
use crate::identity::{
    derive_control_identity, escrow_control, Authority, Pubkey, ESCROW_LABEL,
};
use crate::ledger::{transfer, with_amount, TokenAccount};

verus! {

/// Why a request was refused. Every precondition violation is detected before
/// any balance moves, so a refused request changes no state at all.
#[derive(Clone, Copy, PartialEq, Eq, Structural, Debug)]
pub enum EscrowError {
    /// The signer or declared authority does not control the account involved.
    Unauthorized,
    /// An account's asset type disagrees with what the record declares.
    AssetMismatch,
    /// A balance is too low for the requested transfer.
    InsufficientFunds,
    /// A transition was attempted on a settled, cancelled or absent record.
    RecordNotOpen,
    /// A record already exists for this seller's escrow slot.
    DuplicateRecord,
}

/// One pending conditional swap. All fields are immutable after creation.
#[derive(Clone, Copy, PartialEq, Eq, Structural, Debug)]
pub struct Escrow {
    /// The seller who created the escrow.
    pub authority: Pubkey,
    /// The stored derivation seed of the custody account's control identity.
    pub bump: u8,
    /// The custody account holding the deposited asset.
    pub escrowed_x_tokens: Pubkey,
    /// The asset class the seller wants in exchange.
    pub y_mint: Pubkey,
    /// How much of that asset the seller wants.
    pub y_amount: u64,
}

/// The lifecycle of a seller's escrow slot. `Settled` and `Cancelled` are
/// terminal: the record is gone and no further transition is possible.
#[derive(Clone, Copy, PartialEq, Eq, Structural, Debug)]
pub enum EscrowState {
    /// No record exists yet for this slot.
    Uninitialized,
    /// A record exists and the deposit sits in custody.
    Open(Escrow),
    /// The swap executed; the record is destroyed.
    Settled,
    /// The seller recovered the deposit; the record is destroyed.
    Cancelled,
}

/// The accounts an Initialize request acts on.
#[derive(Clone, Copy, PartialEq, Eq, Structural, Debug)]
pub struct Initialize {
    /// The seller: the signer creating the escrow.
    pub seller: Pubkey,
    /// The asset class being deposited.
    pub x_mint: Pubkey,
    /// The asset class the seller wants in exchange.
    pub y_mint: Pubkey,
    /// The seller's source account of the deposit asset.
    pub seller_x_token: TokenAccount,
    /// The seller's escrow slot.
    pub escrow: EscrowState,
    /// The freshly provisioned custody account for the deposit.
    pub escrowed_x_tokens: TokenAccount,
    /// The derivation seed the ledger found for this slot's control identity.
    pub bump: u8,
}

/// What the ledger guarantees of an Initialize request before the state
/// machine sees it: the seller signs and owns the source account, the source
/// account holds the deposit asset, and the custody account was provisioned
/// empty, for the deposit asset, under this slot's derived control identity.
pub open spec fn initialize_wf(ctx: Initialize) -> bool {
    &&& ctx.seller_x_token.mint == ctx.x_mint
    &&& ctx.seller_x_token.owner == Authority::Key(ctx.seller)
    &&& ctx.escrowed_x_tokens.mint == ctx.x_mint
    &&& ctx.escrowed_x_tokens.owner == Authority::Control(escrow_control(ctx.seller, ctx.bump))
    &&& ctx.escrowed_x_tokens.amount == 0
}

/// The record an Initialize request persists.
pub open spec fn initialize_record(ctx: Initialize, y_amount: u64) -> Escrow {
    Escrow {
        authority: ctx.seller,
        bump: ctx.bump,
        escrowed_x_tokens: ctx.escrowed_x_tokens.key,
        y_mint: ctx.y_mint,
        y_amount,
    }
}

/// Initialize succeeds exactly when the slot is vacant and the seller's
/// source balance covers the deposit.
pub open spec fn initialize_ok(ctx: Initialize, x_amount: u64) -> bool {
    &&& ctx.escrow is Uninitialized
    &&& x_amount <= ctx.seller_x_token.amount
}

/// The error a refused Initialize earns: a slot already holding a record
/// refuses the request outright; otherwise the seller's balance was too low.
pub open spec fn initialize_error(ctx: Initialize, x_amount: u64) -> EscrowError
    recommends
        !initialize_ok(ctx, x_amount),
{
    if !(ctx.escrow is Uninitialized) {
        EscrowError::DuplicateRecord
    } else {
        EscrowError::InsufficientFunds
    }
}

/// The state after a successful Initialize: the deposit moved in full from
/// the seller's source account into custody, the slot holds the new record,
/// and nothing else changed.
pub open spec fn initialize_post(
    pre: Initialize,
    post: Initialize,
    x_amount: u64,
    y_amount: u64,
) -> bool
    recommends
        initialize_wf(pre),
        initialize_ok(pre, x_amount),
{
    post == (Initialize {
        seller: pre.seller,
        x_mint: pre.x_mint,
        y_mint: pre.y_mint,
        seller_x_token: with_amount(
            pre.seller_x_token,
            (pre.seller_x_token.amount - x_amount) as u64,
        ),
        escrow: EscrowState::Open(initialize_record(pre, y_amount)),
        escrowed_x_tokens: with_amount(pre.escrowed_x_tokens, x_amount),
        bump: pre.bump,
    })
}

/// Opens an escrow: moves `x_amount` of the deposit asset from the seller's
/// source account into custody, authorized by the seller, and persists a new
/// record demanding `y_amount` of the counter-asset.
///
/// The request is refused with `DuplicateRecord` if the slot already holds a
/// record, and with `InsufficientFunds` if the seller's balance is below
/// `x_amount`; a refused request changes nothing. On success the custody
/// balance equals the deposit amount exactly, and the slot holds exactly one
/// record, keyed by the seller.
pub fn initialize(ctx: &mut Initialize, x_amount: u64, y_amount: u64) -> (r: Result<
    (),
    EscrowError,
>)
    requires
        initialize_wf(*old(ctx)),
    ensures
        r is Ok <==> initialize_ok(*old(ctx), x_amount),
        initialize_ok(*old(ctx), x_amount) ==> initialize_post(
            *old(ctx),
            *final(ctx),
            x_amount,
            y_amount,
        ),
        !initialize_ok(*old(ctx), x_amount) ==> {
            &&& r == Err::<(), EscrowError>(initialize_error(*old(ctx), x_amount))
            &&& *final(ctx) == *old(ctx)
        },
{
    match ctx.escrow {
        EscrowState::Uninitialized => {},
        _ => {
            return Err(EscrowError::DuplicateRecord);
        },
    }
    if x_amount > ctx.seller_x_token.amount {
        return Err(EscrowError::InsufficientFunds);
    }
    let seller = ctx.seller;
    let authority = Authority::Key(seller);
    let _ = transfer(&mut ctx.seller_x_token, &mut ctx.escrowed_x_tokens, x_amount, &authority);
    ctx.escrow = EscrowState::Open(
        Escrow {
            authority: seller,
            bump: ctx.bump,
            escrowed_x_tokens: ctx.escrowed_x_tokens.key,
            y_mint: ctx.y_mint,
            y_amount,
        },
    );
    Ok(())
}

/// The accounts an Accept request acts on.
#[derive(Clone, Copy, PartialEq, Eq, Structural, Debug)]
pub struct Accept {
    /// The buyer: the signer taking the swap.
    pub buyer: Pubkey,
    /// The seller's escrow slot.
    pub escrow: EscrowState,
    /// The custody account holding the deposit.
    pub escrowed_x_tokens: TokenAccount,
    /// The seller's receiving account for the counter-asset.
    pub sellers_y_tokens: TokenAccount,
    /// The buyer's destination account for the deposit asset.
    pub buyer_x_tokens: TokenAccount,
    /// The buyer's source account of the counter-asset.
    pub buyer_y_tokens: TokenAccount,
}

/// Every account of an Accept request matches what the record declares: the
/// custody account is the record's own, the buyer's destination holds the
/// deposit asset, and both counter-asset accounts hold the requested asset.
pub open spec fn accept_accounts_match(ctx: Accept, e: Escrow) -> bool {
    &&& ctx.escrowed_x_tokens.key == e.escrowed_x_tokens
    &&& ctx.buyer_x_tokens.mint == ctx.escrowed_x_tokens.mint
    &&& ctx.sellers_y_tokens.mint == e.y_mint
    &&& ctx.buyer_y_tokens.mint == e.y_mint
}

/// Both legs of the swap are authorized: custody answers to the record's
/// derived control identity, and the buyer signs for their own source account.
pub open spec fn accept_authorized(ctx: Accept, e: Escrow) -> bool {
    &&& ctx.escrowed_x_tokens.owner == Authority::Control(escrow_control(e.authority, e.bump))
    &&& ctx.buyer_y_tokens.owner == Authority::Key(ctx.buyer)
}

/// Accept succeeds exactly when the record is open, every account matches the
/// record, both legs are authorized, and the buyer's counter-asset balance
/// covers the requested amount.
pub open spec fn accept_ok(ctx: Accept) -> bool {
    &&& ctx.escrow matches EscrowState::Open(e)
    &&& accept_accounts_match(ctx, e)
    &&& accept_authorized(ctx, e)
    &&& e.y_amount <= ctx.buyer_y_tokens.amount
}

/// The error a refused Accept earns: a record that is not open refuses the
/// request outright; then account compatibility, authorization and the
/// buyer's balance are checked, in that order.
pub open spec fn accept_error(ctx: Accept) -> EscrowError
    recommends
        !accept_ok(ctx),
{
    if !(ctx.escrow is Open) {
        EscrowError::RecordNotOpen
    } else if !accept_accounts_match(ctx, ctx.escrow->Open_0) {
        EscrowError::AssetMismatch
    } else if !accept_authorized(ctx, ctx.escrow->Open_0) {
        EscrowError::Unauthorized
    } else {
        EscrowError::InsufficientFunds
    }
}

/// The state after a successful Accept: the whole custody balance moved to
/// the buyer's destination account, the requested amount moved from the buyer
/// to the seller, the record is gone, and nothing else changed.
pub open spec fn accept_post(pre: Accept, post: Accept) -> bool
    recommends
        accept_ok(pre),
{
    let e = pre.escrow->Open_0;
    post == (Accept {
        buyer: pre.buyer,
        escrow: EscrowState::Settled,
        escrowed_x_tokens: with_amount(pre.escrowed_x_tokens, 0),
        sellers_y_tokens: with_amount(
            pre.sellers_y_tokens,
            (pre.sellers_y_tokens.amount + e.y_amount) as u64,
        ),
        buyer_x_tokens: with_amount(
            pre.buyer_x_tokens,
            (pre.buyer_x_tokens.amount + pre.escrowed_x_tokens.amount) as u64,
        ),
        buyer_y_tokens: with_amount(
            pre.buyer_y_tokens,
            (pre.buyer_y_tokens.amount - e.y_amount) as u64,
        ),
    })
}

/// Settles an open escrow as one atomic unit: the entire custody balance of
/// the deposit asset moves to the buyer's destination account, authorized by
/// the record's derived control identity, and the requested amount of the
/// counter-asset moves from the buyer to the seller, authorized by the buyer.
/// Both legs succeed or neither does.
///
/// The request is refused with `RecordNotOpen` on a settled, cancelled or
/// absent record, with `AssetMismatch` if any account disagrees with the
/// record's declared accounts and assets, with `Unauthorized` if either leg's
/// authority does not control its source account, and with
/// `InsufficientFunds` if the buyer's counter-asset balance is below the
/// requested amount. A refused request changes nothing at all.
pub fn accept(ctx: &mut Accept) -> (r: Result<(), EscrowError>)
    requires
        accept_ok(*old(ctx)) ==> {
            &&& old(ctx).buyer_x_tokens.amount + old(ctx).escrowed_x_tokens.amount <= u64::MAX
            &&& old(ctx).sellers_y_tokens.amount + old(ctx).escrow->Open_0.y_amount <= u64::MAX
        },
    ensures
        r is Ok <==> accept_ok(*old(ctx)),
        accept_ok(*old(ctx)) ==> accept_post(*old(ctx), *final(ctx)),
        !accept_ok(*old(ctx)) ==> {
            &&& r == Err::<(), EscrowError>(accept_error(*old(ctx)))
            &&& *final(ctx) == *old(ctx)
        },
{
    let record = match ctx.escrow {
        EscrowState::Open(e) => e,
        _ => {
            return Err(EscrowError::RecordNotOpen);
        },
    };
    if !(ctx.escrowed_x_tokens.key == record.escrowed_x_tokens
        && ctx.buyer_x_tokens.mint == ctx.escrowed_x_tokens.mint
        && ctx.sellers_y_tokens.mint == record.y_mint
        && ctx.buyer_y_tokens.mint == record.y_mint) {
        return Err(EscrowError::AssetMismatch);
    }
    let control = derive_control_identity(ESCROW_LABEL, record.authority, record.bump);
    if !(ctx.escrowed_x_tokens.owner == Authority::Control(control)
        && ctx.buyer_y_tokens.owner == Authority::Key(ctx.buyer)) {
        return Err(EscrowError::Unauthorized);
    }
    if record.y_amount > ctx.buyer_y_tokens.amount {
        return Err(EscrowError::InsufficientFunds);
    }
    // Both legs are now known to succeed, so performing them in order is
    // atomic: no partial effect can be left behind.
    let custody_authority = Authority::Control(control);
    let amount = ctx.escrowed_x_tokens.amount;
    let _ = transfer(
        &mut ctx.escrowed_x_tokens,
        &mut ctx.buyer_x_tokens,
        amount,
        &custody_authority,
    );
    let buyer_authority = Authority::Key(ctx.buyer);
    let _ = transfer(
        &mut ctx.buyer_y_tokens,
        &mut ctx.sellers_y_tokens,
        record.y_amount,
        &buyer_authority,
    );
    ctx.escrow = EscrowState::Settled;
    Ok(())
}

/// The accounts a Cancel request acts on.
#[derive(Clone, Copy, PartialEq, Eq, Structural, Debug)]
pub struct Cancel {
    /// The caller: the signer asking for the refund.
    pub seller: Pubkey,
    /// The seller's escrow slot.
    pub escrow: EscrowState,
    /// The custody account holding the deposit.
    pub escrowed_x_tokens: TokenAccount,
    /// The caller's destination account for the refund.
    pub seller_x_token: TokenAccount,
}

/// The caller is the record's original authority, owns the refund account,
/// and custody answers to the record's derived control identity. Cancellation
/// binds strictly to the stored `authority` field, never to the caller's key.
pub open spec fn cancel_authorized(ctx: Cancel, e: Escrow) -> bool {
    &&& ctx.seller == e.authority
    &&& ctx.seller_x_token.owner == Authority::Key(ctx.seller)
    &&& ctx.escrowed_x_tokens.owner == Authority::Control(escrow_control(e.authority, e.bump))
}

/// The refund accounts match the record: the custody account is the record's
/// own, and the destination holds the deposit asset.
pub open spec fn cancel_accounts_match(ctx: Cancel, e: Escrow) -> bool {
    &&& ctx.escrowed_x_tokens.key == e.escrowed_x_tokens
    &&& ctx.seller_x_token.mint == ctx.escrowed_x_tokens.mint
}

/// Cancel succeeds exactly when the record is open, the caller is its
/// original authority, and the refund accounts match the record.
pub open spec fn cancel_ok(ctx: Cancel) -> bool {
    &&& ctx.escrow matches EscrowState::Open(e)
    &&& cancel_authorized(ctx, e)
    &&& cancel_accounts_match(ctx, e)
}

/// The error a refused Cancel earns: a record that is not open refuses the
/// request outright; then the caller's authority is checked, and last the
/// refund accounts.
pub open spec fn cancel_error(ctx: Cancel) -> EscrowError
    recommends
        !cancel_ok(ctx),
{
    if !(ctx.escrow is Open) {
        EscrowError::RecordNotOpen
    } else if !cancel_authorized(ctx, ctx.escrow->Open_0) {
        EscrowError::Unauthorized
    } else {
        EscrowError::AssetMismatch
    }
}

/// The state after a successful Cancel: the whole custody balance moved back
/// to the caller's account, the record is gone, and nothing else changed.
pub open spec fn cancel_post(pre: Cancel, post: Cancel) -> bool
    recommends
        cancel_ok(pre),
{
    post == (Cancel {
        seller: pre.seller,
        escrow: EscrowState::Cancelled,
        escrowed_x_tokens: with_amount(pre.escrowed_x_tokens, 0),
        seller_x_token: with_amount(
            pre.seller_x_token,
            (pre.seller_x_token.amount + pre.escrowed_x_tokens.amount) as u64,
        ),
    })
}

/// Cancels an open escrow: refunds the entire custody balance to the caller,
/// authorized by the record's derived control identity, and destroys the
/// record. The drained custody account is then closed by the ledger, which
/// reclaims its storage to the caller; storage itself has no balance in this
/// model, so closing appears here as the custody balance reaching zero.
///
/// The request is refused with `RecordNotOpen` on a settled, cancelled or
/// absent record, with `Unauthorized` if the caller is not the record's
/// original authority (or does not own the refund account, or custody does
/// not answer to the record's control identity), and with `AssetMismatch` if
/// the refund accounts disagree with the record. A refused request changes
/// nothing at all.
pub fn cancel(ctx: &mut Cancel) -> (r: Result<(), EscrowError>)
    requires
        cancel_ok(*old(ctx)) ==> old(ctx).seller_x_token.amount + old(
            ctx,
        ).escrowed_x_tokens.amount <= u64::MAX,
    ensures
        r is Ok <==> cancel_ok(*old(ctx)),
        cancel_ok(*old(ctx)) ==> cancel_post(*old(ctx), *final(ctx)),
        !cancel_ok(*old(ctx)) ==> {
            &&& r == Err::<(), EscrowError>(cancel_error(*old(ctx)))
            &&& *final(ctx) == *old(ctx)
        },
{
    let record = match ctx.escrow {
        EscrowState::Open(e) => e,
        _ => {
            return Err(EscrowError::RecordNotOpen);
        },
    };
    let control = derive_control_identity(ESCROW_LABEL, record.authority, record.bump);
    if !(ctx.seller == record.authority
        && ctx.seller_x_token.owner == Authority::Key(ctx.seller)
        && ctx.escrowed_x_tokens.owner == Authority::Control(control)) {
        return Err(EscrowError::Unauthorized);
    }
    if !(ctx.escrowed_x_tokens.key == record.escrowed_x_tokens
        && ctx.seller_x_token.mint == ctx.escrowed_x_tokens.mint) {
        return Err(EscrowError::AssetMismatch);
    }
    let custody_authority = Authority::Control(control);
    let amount = ctx.escrowed_x_tokens.amount;
    let _ = transfer(
        &mut ctx.escrowed_x_tokens,
        &mut ctx.seller_x_token,
        amount,
        &custody_authority,
    );
    ctx.escrow = EscrowState::Cancelled;
    Ok(())
}

/// A settled or cancelled record admits no further transition: both Accept
/// and Cancel refuse it with `RecordNotOpen` (and, by the contracts of
/// `accept` and `cancel`, change nothing).
pub proof fn lemma_terminal_states_refuse(a: Accept, c: Cancel)
    requires
        a.escrow is Settled || a.escrow is Cancelled,
        c.escrow is Settled || c.escrow is Cancelled,
    ensures
        !accept_ok(a),
        accept_error(a) == EscrowError::RecordNotOpen,
        !cancel_ok(c),
        cancel_error(c) == EscrowError::RecordNotOpen,
{
}

/// Cancellation binds to the record's stored authority: a caller whose key
/// differs from it is refused with `Unauthorized` (and, by the contract of
/// `cancel`, nothing changes), whatever accounts the caller supplies.
pub proof fn lemma_cancel_binds_to_authority(c: Cancel)
    requires
        c.escrow matches EscrowState::Open(e),
        c.seller != c.escrow->Open_0.authority,
    ensures
        !cancel_ok(c),
        cancel_error(c) == EscrowError::Unauthorized,
{
}

/// Custody is controlled by the derived identity alone: the ledger refuses
/// every transfer out of an account owned by a control identity whose
/// declared authority is a human key, whoever holds it.
pub proof fn lemma_custody_refuses_keys(
    custody: TokenAccount,
    to: TokenAccount,
    amount: u64,
    k: Pubkey,
)
    requires
        custody.owner matches Authority::Control(_),
    ensures
        !crate::ledger::transfer_allowed(custody, to, amount, Authority::Key(k)),
{
}

} // verus!
