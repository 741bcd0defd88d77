use staking_ledger::error::RegistryError;
use staking_ledger::member::{Balances, Member, MemberBooks, Watchtower};
use staking_ledger::prices::PoolPrices;
use staking_ledger::pubkey::Pubkey;

fn key(b: u8) -> Pubkey {
    Pubkey::new([b; 32])
}

fn member(beneficiary: Pubkey, delegate: Pubkey) -> Member {
    let mut m = Member::default();
    m.beneficiary = beneficiary;
    m.books = MemberBooks::new(beneficiary, delegate);
    m
}

#[test]
fn beneficiary_withdrawal_must_cover_delegate_principal() {
    let mut m = member(key(1), key(2));
    m.books.stake_intent = 1000;
    m.books.delegate.balances.deposit = 200;
    let prices = PoolPrices::new([1, 0], [1, 1]);
    assert_eq!(
        m.can_withdraw(&prices, 850, false, key(1)),
        Err(RegistryError::InsufficientBalance)
    );
    assert_eq!(m.can_withdraw(&prices, 700, false, key(1)), Ok(true));
    assert_eq!(m.can_withdraw(&prices, 800, false, key(1)), Ok(true));
}

#[test]
fn delegate_withdrawal_bounded_by_reserve_only() {
    let mut m = member(key(1), key(2));
    m.books.stake_intent = 1000;
    m.books.delegate.balances.deposit = 200;
    let prices = PoolPrices::new([1, 0], [1, 1]);
    assert_eq!(m.can_withdraw(&prices, 1000, false, key(2)), Ok(true));
    assert_eq!(
        m.can_withdraw(&prices, 1001, false, key(2)),
        Err(RegistryError::InsufficientStakeIntentBalance)
    );
}

#[test]
fn withdrawal_counts_pool_share_value() {
    let mut m = member(key(1), key(2));
    m.books.stake_intent = 100;
    m.books.mega_stake_intent = 5;
    m.books.spt_amount = 10;
    m.books.spt_mega_amount = 2;
    m.books.delegate.balances.deposit = 150;
    m.books.delegate.balances.mega_deposit = 6;
    // primary pool token: 3 primary + 1 mega; mega pool token: 20 primary + 1 mega
    let prices = PoolPrices::new([3, 1], [20, 1]);
    // remaining primary = 30 + 40 + 100 - 20 = 150
    assert_eq!(m.can_withdraw(&prices, 20, false, key(1)), Ok(true));
    assert_eq!(
        m.can_withdraw(&prices, 21, false, key(1)),
        Err(RegistryError::InsufficientBalance)
    );
    // above the mega reserve: refused before any coverage check
    assert_eq!(
        m.can_withdraw(&prices, 9, true, key(1)),
        Err(RegistryError::InsufficientStakeIntentBalance)
    );
    // remaining mega = 10 + 5 - 5 = 10 >= 6
    assert_eq!(m.can_withdraw(&prices, 5, true, key(1)), Ok(true));
    m.books.delegate.balances.mega_deposit = 11;
    assert_eq!(
        m.can_withdraw(&prices, 5, true, key(1)),
        Err(RegistryError::InsufficientBalance)
    );
    assert_eq!(m.can_withdraw(&prices, 5, true, key(2)), Ok(true));
}

#[test]
fn withdrawal_with_unpriceable_holdings_fails() {
    let mut m = member(key(1), key(2));
    m.books.stake_intent = 10;
    m.books.spt_amount = u64::MAX;
    let prices = PoolPrices::new([2, 0], [1, 1]);
    assert_eq!(
        m.can_withdraw(&prices, 1, false, key(1)),
        Err(RegistryError::InvalidPoolPrices)
    );
}

#[test]
fn afford_checks_both_reserves() {
    let mut m = member(key(1), key(2));
    m.books.stake_intent = 100;
    m.books.mega_stake_intent = 1;
    let prices = PoolPrices::new([1, 0], [10, 1]);
    assert_eq!(m.can_afford(&prices, 100, false), Ok(true));
    assert_eq!(
        m.can_afford(&prices, 101, false),
        Err(RegistryError::InsufficientStakeIntentBalance)
    );
    assert_eq!(m.can_afford(&prices, 1, true), Ok(true));
    assert_eq!(
        m.can_afford(&prices, 2, true),
        Err(RegistryError::InsufficientStakeIntentBalance)
    );
    m.books.mega_stake_intent = 0;
    assert_eq!(
        m.can_afford(&prices, 1, true),
        Err(RegistryError::InsufficientStakeIntentBalance)
    );
    assert_eq!(
        m.can_afford(&prices, u64::MAX, true),
        Err(RegistryError::InvalidPoolPrices)
    );
}

#[test]
fn stake_is_empty_ignores_reserve() {
    let mut m = member(key(1), key(2));
    m.books.stake_intent = 7;
    m.books.mega_stake_intent = 7;
    assert!(m.stake_is_empty());
    m.books.spt_mega_amount = 1;
    assert!(!m.stake_is_empty());
    m.books.spt_mega_amount = 0;
    m.books.spt_amount = 1;
    assert!(!m.stake_is_empty());
}

#[test]
fn deposit_then_withdraw_restores_books() {
    for &(mega, owner) in &[(false, 1u8), (true, 1u8), (false, 2u8), (true, 2u8)] {
        let mut m = member(key(1), key(2));
        m.books.stake_intent = 10;
        m.books.mega_stake_intent = 20;
        m.did_deposit(500, mega, key(owner));
        let book = if owner == 2 { m.books.delegate } else { m.books.main };
        let principal = if mega { book.balances.mega_deposit } else { book.balances.deposit };
        assert_eq!(principal, 500);
        let reserve = if mega { m.books.mega_stake_intent } else { m.books.stake_intent };
        assert_eq!(reserve, if mega { 520 } else { 510 });
        m.did_withdraw(500, mega, key(owner));
        assert_eq!(m.books.stake_intent, 10);
        assert_eq!(m.books.mega_stake_intent, 20);
        assert!(m.books.main.balances.is_empty());
        assert!(m.books.delegate.balances.is_empty());
    }
}

#[test]
fn unknown_owner_deposits_to_main() {
    let mut m = member(key(1), key(2));
    m.did_deposit(9, false, key(3));
    assert_eq!(m.books.main.balances.deposit, 9);
    assert_eq!(m.books.delegate.balances.deposit, 0);
}

#[test]
fn mint_primary_pool_shares() {
    let mut m = member(key(1), key(2));
    m.books.stake_intent = 100;
    let prices = PoolPrices::new([1, 0], [5, 1]);
    assert_eq!(prices.basket_quantities(100, false), Ok([100, 0]));
    assert_eq!(m.spt_did_create(&prices, 100, false), Ok(()));
    assert_eq!(m.books.stake_intent, 0);
    assert_eq!(m.books.spt_amount, 100);
    assert_eq!(m.last_active_prices.basket, [1, 0]);
    assert_eq!(m.last_active_prices.mega_basket, [5, 1]);
}

#[test]
fn mint_then_redeem_round_trip() {
    let mut m = member(key(1), key(2));
    m.books.stake_intent = 1000;
    m.books.mega_stake_intent = 10;
    let prices = PoolPrices::new([2, 0], [100, 1]);
    assert_eq!(m.spt_did_create(&prices, 3, true), Ok(()));
    assert_eq!(m.books.spt_mega_amount, 3);
    assert_eq!(m.books.stake_intent, 700);
    assert_eq!(m.books.mega_stake_intent, 7);
    m.spt_did_redeem_start(3, true);
    assert_eq!(m.books.spt_mega_amount, 0);
    m.spt_did_redeem_end(300, 3);
    assert_eq!(m.books.stake_intent, 1000);
    assert_eq!(m.books.mega_stake_intent, 10);

    assert_eq!(m.spt_did_create(&prices, 50, false), Ok(()));
    assert_eq!(m.books.stake_intent, 900);
    assert_eq!(m.books.mega_stake_intent, 10);
    m.spt_did_redeem_start(50, false);
    m.spt_did_redeem_end(100, 0);
    assert_eq!(m.books.stake_intent, 1000);
    assert_eq!(m.books.spt_amount, 0);
}

#[test]
fn failed_mint_changes_nothing() {
    let mut m = member(key(1), key(2));
    m.books.stake_intent = 5;
    let old = PoolPrices::new([0, 0], [0, 0]);
    m.last_active_prices = old;
    let prices = PoolPrices::new([u64::MAX, 0], [1, 1]);
    assert_eq!(
        m.spt_did_create(&prices, 2, false),
        Err(RegistryError::InvalidPoolPrices)
    );
    assert_eq!(m.books.spt_amount, 0);
    assert_eq!(m.books.stake_intent, 5);
    assert_eq!(m.last_active_prices.basket, [0, 0]);
}

#[test]
fn set_delegate_resets_book() {
    let mut m = member(key(1), key(2));
    m.did_deposit(4, false, key(2));
    m.did_withdraw(4, false, key(2));
    m.set_delegate(key(9));
    assert_eq!(m.books.delegate().owner, key(9));
    assert!(m.books.delegate().balances.is_empty());
    assert_eq!(m.books.main().owner, key(1));
}

#[test]
fn default_record_is_zero() {
    let m = Member::default();
    assert!(!m.initialized);
    assert_eq!(m.beneficiary, Pubkey::zero());
    assert_eq!(m.books.stake_intent, 0);
    assert!(m.stake_is_empty());
    let w = Watchtower::new(key(4), key(5));
    assert_eq!(w.authority, key(4));
    assert_eq!(w.dst, key(5));
    let b = Balances::zero();
    assert!(b.is_empty());
    assert!(!Balances { deposit: 0, mega_deposit: 1 }.is_empty());
}

#[test]
fn keys_compare_by_bytes() {
    let mut bytes = [3u8; 32];
    assert_eq!(key(3), Pubkey::new(bytes));
    bytes[31] = 4;
    assert_ne!(key(3), Pubkey::new(bytes));
}

#[test]
fn approved_withdrawal_leaves_delegate_covered() {
    let mut m = member(key(1), key(2));
    m.did_deposit(300, false, key(2));
    m.did_deposit(700, false, key(1));
    m.books.spt_amount = 10;
    let prices = PoolPrices::new([5, 0], [1, 1]);
    // remaining primary = 50 + 0 + 1000 - 700 = 350 >= 300
    assert_eq!(m.can_withdraw(&prices, 700, false, key(1)), Ok(true));
    m.did_withdraw(700, false, key(1));
    assert_eq!(m.books.stake_intent, 300);
    assert_eq!(m.books.main.balances.deposit, 0);
    assert_eq!(m.books.delegate.balances.deposit, 300);
    assert_eq!(m.can_withdraw(&prices, 0, false, key(1)), Ok(true));
    assert_eq!(
        m.can_withdraw(&prices, 51, false, key(1)),
        Err(RegistryError::InsufficientBalance)
    );
}

#[test]
fn basket_quantities_scale_per_token() {
    let prices = PoolPrices::new([3, 7], [11, 13]);
    assert_eq!(prices.basket_quantities(4, false), Ok([12, 28]));
    assert_eq!(prices.basket_quantities(4, true), Ok([44, 52]));
    assert_eq!(prices.basket_quantities(0, true), Ok([0, 0]));
    assert_eq!(
        prices.basket_quantities(u64::MAX / 2, false),
        Err(RegistryError::InvalidPoolPrices)
    );
}
