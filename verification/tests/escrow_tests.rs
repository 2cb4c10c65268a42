use non_custodial_escrow::escrow::{
    accept, cancel, initialize, Accept, Cancel, Escrow, EscrowError, EscrowState, Initialize,
};
use non_custodial_escrow::identity::{
    derive_control_identity, Authority, ControlIdentity, Pubkey, ESCROW_LABEL,
};
use non_custodial_escrow::ledger::{transfer, TokenAccount};

fn key(n: u64) -> Pubkey {
    Pubkey { w0: n, w1: 0, w2: 0, w3: 0 }
}

const SELLER: u64 = 1;
const BUYER: u64 = 2;
const X_MINT: u64 = 10;
const Y_MINT: u64 = 11;
const CUSTODY: u64 = 20;
const SELLER_X: u64 = 21;
const SELLERS_Y: u64 = 22;
const BUYER_X: u64 = 23;
const BUYER_Y: u64 = 24;
const BUMP: u8 = 7;

fn control() -> Authority {
    Authority::Control(ControlIdentity { label: ESCROW_LABEL, owner_key: key(SELLER), seed: BUMP })
}

fn fresh_initialize(seller_balance: u64) -> Initialize {
    Initialize {
        seller: key(SELLER),
        x_mint: key(X_MINT),
        y_mint: key(Y_MINT),
        seller_x_token: TokenAccount {
            key: key(SELLER_X),
            mint: key(X_MINT),
            owner: Authority::Key(key(SELLER)),
            amount: seller_balance,
        },
        escrow: EscrowState::Uninitialized,
        escrowed_x_tokens: TokenAccount {
            key: key(CUSTODY),
            mint: key(X_MINT),
            owner: control(),
            amount: 0,
        },
        bump: BUMP,
    }
}

fn open_record(y_amount: u64) -> Escrow {
    Escrow {
        authority: key(SELLER),
        bump: BUMP,
        escrowed_x_tokens: key(CUSTODY),
        y_mint: key(Y_MINT),
        y_amount,
    }
}

fn open_accept(custody_amount: u64, buyer_y_amount: u64, y_amount: u64) -> Accept {
    Accept {
        buyer: key(BUYER),
        escrow: EscrowState::Open(open_record(y_amount)),
        escrowed_x_tokens: TokenAccount {
            key: key(CUSTODY),
            mint: key(X_MINT),
            owner: control(),
            amount: custody_amount,
        },
        sellers_y_tokens: TokenAccount {
            key: key(SELLERS_Y),
            mint: key(Y_MINT),
            owner: Authority::Key(key(SELLER)),
            amount: 0,
        },
        buyer_x_tokens: TokenAccount {
            key: key(BUYER_X),
            mint: key(X_MINT),
            owner: Authority::Key(key(BUYER)),
            amount: 0,
        },
        buyer_y_tokens: TokenAccount {
            key: key(BUYER_Y),
            mint: key(Y_MINT),
            owner: Authority::Key(key(BUYER)),
            amount: buyer_y_amount,
        },
    }
}

fn open_cancel(custody_amount: u64, caller: Pubkey, seller_balance: u64) -> Cancel {
    Cancel {
        seller: caller,
        escrow: EscrowState::Open(open_record(50)),
        escrowed_x_tokens: TokenAccount {
            key: key(CUSTODY),
            mint: key(X_MINT),
            owner: control(),
            amount: custody_amount,
        },
        seller_x_token: TokenAccount {
            key: key(SELLER_X),
            mint: key(X_MINT),
            owner: Authority::Key(caller),
            amount: seller_balance,
        },
    }
}

#[test]
fn initialize_funds_custody_and_opens_record() {
    let mut ctx = fresh_initialize(100);
    let r = initialize(&mut ctx, 100, 50);
    assert_eq!(r, Ok(()));
    assert_eq!(ctx.escrowed_x_tokens.amount, 100);
    assert_eq!(ctx.seller_x_token.amount, 0);
    assert_eq!(ctx.escrow, EscrowState::Open(open_record(50)));
}

#[test]
fn initialize_on_occupied_slot_is_duplicate_record() {
    let mut ctx = fresh_initialize(200);
    assert_eq!(initialize(&mut ctx, 100, 50), Ok(()));
    let before = ctx;
    let r = initialize(&mut ctx, 50, 25);
    assert_eq!(r, Err(EscrowError::DuplicateRecord));
    assert_eq!(ctx, before);
}

#[test]
fn initialize_with_short_balance_is_insufficient_funds() {
    let mut ctx = fresh_initialize(99);
    let before = ctx;
    let r = initialize(&mut ctx, 100, 50);
    assert_eq!(r, Err(EscrowError::InsufficientFunds));
    assert_eq!(ctx, before);
}

#[test]
fn accept_settles_the_swap() {
    // The seller deposited 100 units of asset X wanting 50 units of asset Y;
    // a buyer holding 50 Y accepts: the buyer ends with 100 X, the seller
    // with 50 Y, and the record is gone.
    let mut ctx = open_accept(100, 50, 50);
    let r = accept(&mut ctx);
    assert_eq!(r, Ok(()));
    assert_eq!(ctx.escrowed_x_tokens.amount, 0);
    assert_eq!(ctx.buyer_x_tokens.amount, 100);
    assert_eq!(ctx.buyer_y_tokens.amount, 0);
    assert_eq!(ctx.sellers_y_tokens.amount, 50);
    assert_eq!(ctx.escrow, EscrowState::Settled);
}

#[test]
fn accept_with_short_buyer_balance_fails_atomically() {
    let mut ctx = open_accept(100, 49, 50);
    let before = ctx;
    let r = accept(&mut ctx);
    assert_eq!(r, Err(EscrowError::InsufficientFunds));
    assert_eq!(ctx, before);
}

#[test]
fn accept_with_wrong_asset_is_asset_mismatch() {
    let mut ctx = open_accept(100, 50, 50);
    ctx.buyer_y_tokens.mint = key(X_MINT);
    let before = ctx;
    let r = accept(&mut ctx);
    assert_eq!(r, Err(EscrowError::AssetMismatch));
    assert_eq!(ctx, before);
}

#[test]
fn accept_with_wrong_custody_account_is_asset_mismatch() {
    let mut ctx = open_accept(100, 50, 50);
    ctx.escrowed_x_tokens.key = key(99);
    let before = ctx;
    let r = accept(&mut ctx);
    assert_eq!(r, Err(EscrowError::AssetMismatch));
    assert_eq!(ctx, before);
}

#[test]
fn accept_without_buyer_ownership_is_unauthorized() {
    let mut ctx = open_accept(100, 50, 50);
    ctx.buyer_y_tokens.owner = Authority::Key(key(77));
    let before = ctx;
    let r = accept(&mut ctx);
    assert_eq!(r, Err(EscrowError::Unauthorized));
    assert_eq!(ctx, before);
}

#[test]
fn accept_with_foreign_custody_control_is_unauthorized() {
    let mut ctx = open_accept(100, 50, 50);
    ctx.escrowed_x_tokens.owner = Authority::Control(ControlIdentity {
        label: ESCROW_LABEL,
        owner_key: key(SELLER),
        seed: BUMP.wrapping_add(1),
    });
    let before = ctx;
    let r = accept(&mut ctx);
    assert_eq!(r, Err(EscrowError::Unauthorized));
    assert_eq!(ctx, before);
}

#[test]
fn cancel_refunds_the_deposit() {
    // The seller deposited 100 X and cancels before any accept: the full
    // balance returns and the record is gone.
    let mut ctx = open_cancel(100, key(SELLER), 0);
    let r = cancel(&mut ctx);
    assert_eq!(r, Ok(()));
    assert_eq!(ctx.seller_x_token.amount, 100);
    assert_eq!(ctx.escrowed_x_tokens.amount, 0);
    assert_eq!(ctx.escrow, EscrowState::Cancelled);
}

#[test]
fn cancel_by_another_identity_is_unauthorized() {
    let mut ctx = open_cancel(100, key(BUYER), 0);
    let before = ctx;
    let r = cancel(&mut ctx);
    assert_eq!(r, Err(EscrowError::Unauthorized));
    assert_eq!(ctx, before);
}

#[test]
fn settled_record_refuses_both_transitions() {
    let mut acc = open_accept(0, 50, 50);
    acc.escrow = EscrowState::Settled;
    let acc_before = acc;
    assert_eq!(accept(&mut acc), Err(EscrowError::RecordNotOpen));
    assert_eq!(acc, acc_before);

    let mut can = open_cancel(0, key(SELLER), 0);
    can.escrow = EscrowState::Settled;
    let can_before = can;
    assert_eq!(cancel(&mut can), Err(EscrowError::RecordNotOpen));
    assert_eq!(can, can_before);
}

#[test]
fn cancelled_record_refuses_both_transitions() {
    let mut acc = open_accept(0, 50, 50);
    acc.escrow = EscrowState::Cancelled;
    let acc_before = acc;
    assert_eq!(accept(&mut acc), Err(EscrowError::RecordNotOpen));
    assert_eq!(acc, acc_before);

    let mut can = open_cancel(0, key(SELLER), 0);
    can.escrow = EscrowState::Cancelled;
    let can_before = can;
    assert_eq!(cancel(&mut can), Err(EscrowError::RecordNotOpen));
    assert_eq!(can, can_before);
}

#[test]
fn full_lifecycle_swap_scenario() {
    // End to end: initialize, then accept, carrying accounts across.
    let mut ini = fresh_initialize(100);
    assert_eq!(initialize(&mut ini, 100, 50), Ok(()));
    let mut acc = Accept {
        buyer: key(BUYER),
        escrow: ini.escrow,
        escrowed_x_tokens: ini.escrowed_x_tokens,
        sellers_y_tokens: TokenAccount {
            key: key(SELLERS_Y),
            mint: key(Y_MINT),
            owner: Authority::Key(key(SELLER)),
            amount: 3,
        },
        buyer_x_tokens: TokenAccount {
            key: key(BUYER_X),
            mint: key(X_MINT),
            owner: Authority::Key(key(BUYER)),
            amount: 8,
        },
        buyer_y_tokens: TokenAccount {
            key: key(BUYER_Y),
            mint: key(Y_MINT),
            owner: Authority::Key(key(BUYER)),
            amount: 62,
        },
    };
    assert_eq!(accept(&mut acc), Ok(()));
    assert_eq!(acc.buyer_x_tokens.amount, 108);
    assert_eq!(acc.buyer_y_tokens.amount, 12);
    assert_eq!(acc.sellers_y_tokens.amount, 53);
    assert_eq!(acc.escrowed_x_tokens.amount, 0);
}

#[test]
fn transfer_moves_exactly_the_amount() {
    let mut from = TokenAccount {
        key: key(1),
        mint: key(X_MINT),
        owner: Authority::Key(key(SELLER)),
        amount: 30,
    };
    let mut to = TokenAccount {
        key: key(2),
        mint: key(X_MINT),
        owner: Authority::Key(key(BUYER)),
        amount: 5,
    };
    let r = transfer(&mut from, &mut to, 12, &Authority::Key(key(SELLER)));
    assert_eq!(r, Ok(()));
    assert_eq!(from.amount, 18);
    assert_eq!(to.amount, 17);
}

#[test]
fn transfer_refuses_a_foreign_authority() {
    let mut from = TokenAccount {
        key: key(1),
        mint: key(X_MINT),
        owner: Authority::Key(key(SELLER)),
        amount: 30,
    };
    let mut to = TokenAccount {
        key: key(2),
        mint: key(X_MINT),
        owner: Authority::Key(key(BUYER)),
        amount: 5,
    };
    let r = transfer(&mut from, &mut to, 12, &Authority::Key(key(BUYER)));
    assert_eq!(r, Err(EscrowError::Unauthorized));
    assert_eq!(from.amount, 30);
    assert_eq!(to.amount, 5);
}

#[test]
fn transfer_refuses_mixed_assets() {
    let mut from = TokenAccount {
        key: key(1),
        mint: key(X_MINT),
        owner: Authority::Key(key(SELLER)),
        amount: 30,
    };
    let mut to = TokenAccount {
        key: key(2),
        mint: key(Y_MINT),
        owner: Authority::Key(key(BUYER)),
        amount: 5,
    };
    let r = transfer(&mut from, &mut to, 12, &Authority::Key(key(SELLER)));
    assert_eq!(r, Err(EscrowError::AssetMismatch));
    assert_eq!(from.amount, 30);
    assert_eq!(to.amount, 5);
}

#[test]
fn transfer_refuses_a_short_balance() {
    let mut from = TokenAccount {
        key: key(1),
        mint: key(X_MINT),
        owner: Authority::Key(key(SELLER)),
        amount: 11,
    };
    let mut to = TokenAccount {
        key: key(2),
        mint: key(X_MINT),
        owner: Authority::Key(key(BUYER)),
        amount: 5,
    };
    let r = transfer(&mut from, &mut to, 12, &Authority::Key(key(SELLER)));
    assert_eq!(r, Err(EscrowError::InsufficientFunds));
    assert_eq!(from.amount, 11);
    assert_eq!(to.amount, 5);
}

#[test]
fn derivation_is_deterministic() {
    let a = derive_control_identity(ESCROW_LABEL, key(SELLER), BUMP);
    let b = derive_control_identity(ESCROW_LABEL, key(SELLER), BUMP);
    assert_eq!(a, b);
    let c = derive_control_identity(ESCROW_LABEL, key(SELLER), BUMP.wrapping_add(1));
    assert_ne!(a, c);
}

#[test]
fn full_lifecycle_cancel_scenario() {
    // End to end: the seller deposits 100 X, then cancels before any accept;
    // the balance returns to its original value and the record is gone.
    let mut ini = fresh_initialize(100);
    assert_eq!(initialize(&mut ini, 100, 50), Ok(()));
    assert_eq!(ini.seller_x_token.amount, 0);
    let mut can = Cancel {
        seller: key(SELLER),
        escrow: ini.escrow,
        escrowed_x_tokens: ini.escrowed_x_tokens,
        seller_x_token: ini.seller_x_token,
    };
    assert_eq!(cancel(&mut can), Ok(()));
    assert_eq!(can.seller_x_token.amount, 100);
    assert_eq!(can.escrowed_x_tokens.amount, 0);
    assert_eq!(can.escrow, EscrowState::Cancelled);
}

#[test]
fn transfer_fills_an_account_to_the_limit() {
    let mut from = TokenAccount {
        key: key(1),
        mint: key(X_MINT),
        owner: Authority::Key(key(SELLER)),
        amount: 1,
    };
    let mut to = TokenAccount {
        key: key(2),
        mint: key(X_MINT),
        owner: Authority::Key(key(BUYER)),
        amount: u64::MAX - 1,
    };
    let r = transfer(&mut from, &mut to, 1, &Authority::Key(key(SELLER)));
    assert_eq!(r, Ok(()));
    assert_eq!(from.amount, 0);
    assert_eq!(to.amount, u64::MAX);
}
