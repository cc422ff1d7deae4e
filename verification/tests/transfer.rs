//! Transfers through the mint: the success path and each failure kind.

use mint_token::balance::Balance;
use mint_token::mint::{Error, Mint};

const GENESIS_PURSE_AMOUNT: u64 = 150;

#[test]
fn transfer_success() {
    let mut mint = Mint::new();
    let balance1 = Balance::from_u64(GENESIS_PURSE_AMOUNT);
    let balance2 = Balance::from_u64(0);
    let transfer_amount = Balance::from_u64(75);

    let purse1 = mint.mint(Balance::from_u64(GENESIS_PURSE_AMOUNT)).unwrap();
    let purse2_full = mint.create();
    let purse2 = purse2_full.to_dep();

    mint.transfer(purse1, purse2, transfer_amount.clone())
        .expect("transfer errored when it should not.");

    let b1 = mint.balance(purse1).unwrap();
    let b2 = mint.balance(purse2_full).unwrap();

    assert_eq!(balance1.checked_sub(&transfer_amount).unwrap(), b1);
    assert_eq!(balance2.checked_add(&transfer_amount).unwrap(), b2);
}

#[test]
fn transfer_overdraft() {
    let mut mint = Mint::new();
    let balance1 = Balance::from_u64(GENESIS_PURSE_AMOUNT);
    let balance2 = Balance::from_u64(0);
    let transfer_amount = Balance::from_u64(1000);

    let purse1 = mint.mint(Balance::from_u64(GENESIS_PURSE_AMOUNT)).unwrap();
    let purse2 = mint.create();

    assert_eq!(
        Err(Error::InsufficientFunds),
        mint.transfer(purse1, purse2.to_dep(), transfer_amount)
    );

    let b1 = mint.balance(purse1).unwrap();
    let b2 = mint.balance(purse2).unwrap();

    // balances remain unchanged
    assert_eq!(balance1, b1);
    assert_eq!(balance2, b2);
}

#[test]
fn transfer_dest_not_exist() {
    let mut mint = Mint::new();
    let balance1 = Balance::from_u64(GENESIS_PURSE_AMOUNT);
    let transfer_amount = Balance::from_u64(75);

    let purse1 = mint.mint(Balance::from_u64(GENESIS_PURSE_AMOUNT)).unwrap();
    // an identifier one past the only purse, minted on a separate ledger
    let mut other = Mint::new();
    let _ = other.mint(Balance::from_u64(0)).unwrap();
    let purse2 = other.create().to_dep();

    assert_eq!(
        Err(Error::DestNotFound),
        mint.transfer(purse1, purse2, transfer_amount)
    );

    let b1 = mint.balance(purse1).unwrap();
    // balance remains unchanged
    assert_eq!(balance1, b1);
}

#[test]
fn transfer_source_not_exist() {
    let mut mint = Mint::new();
    let balance1 = Balance::from_u64(GENESIS_PURSE_AMOUNT);
    let transfer_amount = Balance::from_u64(75);

    let purse1 = mint.mint(Balance::from_u64(GENESIS_PURSE_AMOUNT)).unwrap();
    // an identifier one past the only purse, minted on a separate ledger
    let mut other = Mint::new();
    let _ = other.mint(Balance::from_u64(0)).unwrap();
    let purse2 = other.create();

    assert_eq!(
        Err(Error::SourceNotFound),
        mint.transfer(purse2, purse1.to_dep(), transfer_amount)
    );

    let b1 = mint.balance(purse1).unwrap();
    // balance remains unchanged
    assert_eq!(balance1, b1);
}

#[test]
fn create_yields_distinct_zero_purses() {
    let mut mint = Mint::new();
    let a = mint.create();
    let b = mint.create();
    let c = mint.create();
    assert_ne!(a, b);
    assert_ne!(b, c);
    assert_ne!(a, c);
    assert_eq!(Balance::from_u64(0), mint.balance(a).unwrap());
    assert_eq!(Balance::from_u64(0), mint.balance(b).unwrap());
    assert_eq!(Balance::from_u64(0), mint.balance(c).unwrap());
}

#[test]
fn deposit_only_handle_permits_only_add() {
    // A deposit-only identifier reaches an AddView and nothing else; the
    // deposit lands, and observing it takes the full identifier.
    let mut mint = Mint::new();
    let p = mint.mint(Balance::from_u64(5)).unwrap();
    let dep = p.to_dep();
    let view = mint.dep_lookup(dep).unwrap();
    view.add(&mut mint, &Balance::from_u64(7));
    assert_eq!(Balance::from_u64(12), mint.balance(p).unwrap());
}

#[test]
fn transfer_conserves_total() {
    let mut mint = Mint::new();
    let p1 = mint.mint(Balance::from_u64(150)).unwrap();
    let p2_full = mint.create();
    assert_eq!(Ok(()), mint.transfer(p1, p2_full.to_dep(), Balance::from_u64(75)));
    let b1 = mint.balance(p1).unwrap();
    let b2 = mint.balance(p2_full).unwrap();
    assert_eq!(Balance::from_u64(150), b1.checked_add(&b2).unwrap());
}

#[test]
fn transfer_entire_balance_leaves_zero() {
    let mut mint = Mint::new();
    let p1 = mint.mint(Balance::from_u64(150)).unwrap();
    let p2_full = mint.create();
    assert_eq!(Ok(()), mint.transfer(p1, p2_full.to_dep(), Balance::from_u64(150)));
    assert_eq!(Balance::zero(), mint.balance(p1).unwrap());
    assert_eq!(Balance::from_u64(150), mint.balance(p2_full).unwrap());
}

#[test]
fn deposits_commute() {
    let mut forward = Mint::new();
    let p = forward.mint(Balance::from_u64(5)).unwrap();
    let view = forward.dep_lookup(p.to_dep()).unwrap();
    view.add(&mut forward, &Balance::from_u64(7));
    view.add(&mut forward, &Balance::from_u64(11));

    let mut backward = Mint::new();
    let q = backward.mint(Balance::from_u64(5)).unwrap();
    let view = backward.dep_lookup(q.to_dep()).unwrap();
    view.add(&mut backward, &Balance::from_u64(11));
    view.add(&mut backward, &Balance::from_u64(7));

    assert_eq!(forward.balance(p).unwrap(), backward.balance(q).unwrap());
    assert_eq!(Balance::from_u64(23), forward.balance(p).unwrap());
}

#[test]
fn transfer_to_self_changes_nothing() {
    let mut mint = Mint::new();
    let p = mint.mint(Balance::from_u64(150)).unwrap();
    assert_eq!(Ok(()), mint.transfer(p, p.to_dep(), Balance::from_u64(75)));
    assert_eq!(Balance::from_u64(150), mint.balance(p).unwrap());
}
