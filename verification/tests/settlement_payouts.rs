use nft_market::action::{Action, SignerSeeds};
use nft_market::address::Address;
use nft_market::error::{PoolError, TransitionError};
use nft_market::ledger::{RawAccount, TokenAccount};
use nft_market::records::{Creator, SaleManager, SalePot, Stored};
use nft_market::settlement::{amount_owed, withdraw_fund, WithdrawFund};
use spl_token::solana_program::program_option::COption;
use spl_token::solana_program::program_pack::Pack;
use spl_token::solana_program::pubkey::Pubkey;
use spl_token::state::{Account, AccountState};

fn key(n: u8) -> Address {
    Address::new([n; 32])
}

const SELLER: u8 = 1;
const ARTIST: u8 = 2;
const GALLERY: u8 = 3;
const STRANGER: u8 = 4;
const MANAGER: u8 = 5;
const POOL_POT: u8 = 6;
const PAYOUT: u8 = 7;
const TOKENS: u8 = 8;
const PAYMENT_MINT: u8 = 9;

fn pot(price: u64, is_primary: bool, fee: u16, creators: Vec<(u8, bool, u8)>) -> SalePot {
    SalePot {
        is_used: true,
        sale_manager: key(MANAGER),
        pool_pot: key(POOL_POT),
        price,
        is_primary,
        seller: key(SELLER),
        seller_verified: is_primary,
        seller_fee_basis_points: fee,
        creators: creators
            .into_iter()
            .map(|(who, verified, share)| Creator { address: key(who), verified, share })
            .collect(),
    }
}

fn pool_pot(amount: u64) -> RawAccount {
    let account = Account {
        mint: Pubkey::new_from_array([PAYMENT_MINT; 32]),
        owner: Pubkey::new_from_array([MANAGER; 32]),
        amount,
        delegate: COption::None,
        state: AccountState::Initialized,
        is_native: COption::None,
        delegated_amount: 0,
        close_authority: COption::None,
    };
    let mut data = vec![0u8; Account::LEN];
    Account::pack(account, &mut data).unwrap();
    RawAccount { key: key(POOL_POT), data }
}

fn withdrawal(payee: u8, record: SalePot, held: u64) -> WithdrawFund {
    let mut manager = SaleManager::blank();
    manager.pool = key(40);
    manager.nft_mint = key(41);
    manager.bump = 7;
    WithdrawFund {
        owner: key(payee),
        sale_manager: Stored { key: key(MANAGER), record: manager },
        sale_pot: Stored { key: key(30), record },
        pool_pot: pool_pot(held),
        withdraw_pot: key(PAYOUT),
        token_program: key(TOKENS),
    }
}

fn paid(actions: &[Action]) -> u64 {
    assert_eq!(actions.len(), 1);
    match &actions[0] {
        Action::Transfer { program, source, destination, authority, amount, seeds } => {
            assert_eq!(*program, key(TOKENS));
            assert_eq!(*source, key(POOL_POT));
            assert_eq!(*destination, key(PAYOUT));
            assert_eq!(*authority, key(MANAGER));
            assert_eq!(*seeds, Some(SignerSeeds { pool: key(40), nft_mint: key(41), bump: 7 }));
            *amount
        }
        other => panic!("not a transfer: {:?}", other),
    }
}

#[test]
fn first_sale_pays_each_recipient_their_percentage() {
    let record = pot(1_000, true, 500, vec![(ARTIST, false, 70), (GALLERY, false, 30)]);
    assert_eq!(amount_owed(&record, &key(ARTIST)), 700);
    assert_eq!(amount_owed(&record, &key(GALLERY)), 300);
    assert_eq!(amount_owed(&record, &key(SELLER)), 0);
    assert_eq!(amount_owed(&record, &key(STRANGER)), 0);
}

#[test]
fn first_sale_payout_is_rounded_down() {
    let record = pot(999, true, 0, vec![(ARTIST, false, 33), (GALLERY, false, 67)]);
    assert_eq!(amount_owed(&record, &key(ARTIST)), 329);
    assert_eq!(amount_owed(&record, &key(GALLERY)), 669);
    let record = pot(99, true, 0, vec![(ARTIST, false, 1)]);
    assert_eq!(amount_owed(&record, &key(ARTIST)), 0);
}

#[test]
fn resale_pays_the_seller_the_price_less_the_fee() {
    let record = pot(10_000, false, 750, vec![(ARTIST, false, 60), (GALLERY, false, 40)]);
    assert_eq!(amount_owed(&record, &key(SELLER)), 9_250);
    assert_eq!(amount_owed(&record, &key(ARTIST)), 450);
    assert_eq!(amount_owed(&record, &key(GALLERY)), 300);
    assert_eq!(amount_owed(&record, &key(STRANGER)), 0);
}

#[test]
fn resale_pays_a_seller_who_is_also_a_recipient_both_parts() {
    let record = pot(10_000, false, 1_000, vec![(SELLER, false, 50), (ARTIST, false, 50)]);
    assert_eq!(amount_owed(&record, &key(SELLER)), 9_000 + 500);
    let mut ctx = withdrawal(SELLER, record, 10_000);
    let actions = withdraw_fund(&mut ctx).unwrap();
    assert_eq!(paid(&actions), 9_500);
    assert!(ctx.sale_pot.record.seller_verified);
    assert!(ctx.sale_pot.record.creators[0].verified);
    assert!(!ctx.sale_pot.record.creators[1].verified);
}

#[test]
fn resale_parts_are_rounded_down_separately() {
    let record = pot(999, false, 333, vec![(SELLER, false, 50)]);
    // seller: 999 * 9667 / 10000 = 965.73..; recipient: 999 * 333 * 50 / 1000000 = 16.63..
    assert_eq!(amount_owed(&record, &key(SELLER)), 965 + 16);
}

#[test]
fn largest_price_is_paid_without_overflow() {
    let record = pot(u64::MAX, true, 0, vec![(ARTIST, false, 100)]);
    assert_eq!(amount_owed(&record, &key(ARTIST)), u64::MAX as u128);
    let record = pot(u64::MAX, false, 10_000, vec![(ARTIST, false, 100)]);
    assert_eq!(amount_owed(&record, &key(ARTIST)), u64::MAX as u128);
    assert_eq!(amount_owed(&record, &key(SELLER)), 0);
    let record = pot(u64::MAX, true, 0, vec![(ARTIST, false, 255)]);
    assert_eq!(amount_owed(&record, &key(ARTIST)), u64::MAX as u128 * 255 / 100);
    let mut ctx = withdrawal(ARTIST, record, u64::MAX);
    assert_eq!(paid(&withdraw_fund(&mut ctx).unwrap()), u64::MAX);
}

#[test]
fn paid_recipient_is_owed_nothing_more() {
    let record = pot(1_000, true, 0, vec![(ARTIST, false, 70), (GALLERY, false, 30)]);
    let mut ctx = withdrawal(ARTIST, record, 1_000);
    assert_eq!(paid(&withdraw_fund(&mut ctx).unwrap()), 700);
    assert_eq!(
        ctx.sale_pot.record.creators,
        vec![
            Creator { address: key(ARTIST), verified: true, share: 70 },
            Creator { address: key(GALLERY), verified: false, share: 30 },
        ]
    );
    let settled = ctx.clone();
    assert_eq!(withdraw_fund(&mut ctx), Err(TransitionError::Rule(PoolError::InvalidAmount)));
    assert_eq!(ctx, settled);
    ctx.owner = key(GALLERY);
    ctx.pool_pot = pool_pot(300);
    assert_eq!(paid(&withdraw_fund(&mut ctx).unwrap()), 300);
}

#[test]
fn all_payouts_together_stay_within_the_price() {
    let record = pot(1_001, false, 777, vec![(ARTIST, false, 33), (GALLERY, false, 33), (SELLER, false, 34)]);
    let mut ctx = withdrawal(SELLER, record, 1_001);
    let mut total = 0u64;
    for payee in [SELLER, ARTIST, GALLERY, SELLER, STRANGER, ARTIST] {
        ctx.owner = key(payee);
        ctx.pool_pot = pool_pot(1_001 - total);
        if let Ok(actions) = withdraw_fund(&mut ctx) {
            total += paid(&actions);
        }
    }
    assert!(total <= 1_001);
    assert_eq!(total, 923 + 26 + 25 + 25);
}

#[test]
fn repeated_address_is_paid_its_last_entry_once() {
    let record = pot(1_000, true, 0, vec![(ARTIST, false, 10), (GALLERY, false, 50), (ARTIST, false, 40)]);
    let mut ctx = withdrawal(ARTIST, record, 1_000);
    assert_eq!(paid(&withdraw_fund(&mut ctx).unwrap()), 400);
    assert!(ctx.sale_pot.record.creators[0].verified);
    assert!(!ctx.sale_pot.record.creators[1].verified);
    assert!(ctx.sale_pot.record.creators[2].verified);
    assert_eq!(withdraw_fund(&mut ctx), Err(TransitionError::Rule(PoolError::InvalidAmount)));
}

#[test]
fn payout_is_capped_at_what_the_pot_holds() {
    let record = pot(1_000, true, 0, vec![(ARTIST, false, 70)]);
    let mut ctx = withdrawal(ARTIST, record.clone(), 650);
    assert_eq!(paid(&withdraw_fund(&mut ctx).unwrap()), 650);
    assert!(ctx.sale_pot.record.creators[0].verified);
    let mut ctx = withdrawal(ARTIST, record, 0);
    assert_eq!(paid(&withdraw_fund(&mut ctx).unwrap()), 0);
}

#[test]
fn withdrawal_waits_for_the_sale_to_settle() {
    let mut record = pot(1_000, true, 0, vec![(ARTIST, false, 70)]);
    record.is_used = false;
    let mut ctx = withdrawal(ARTIST, record, 1_000);
    ctx.pool_pot.data.clear();
    let before = ctx.clone();
    assert_eq!(
        withdraw_fund(&mut ctx),
        Err(TransitionError::Rule(PoolError::NotAllowedWithdrawFund))
    );
    assert_eq!(ctx, before);
}

#[test]
fn withdrawal_refuses_an_undecodable_pot() {
    let record = pot(1_000, true, 0, vec![(ARTIST, false, 70)]);
    let mut ctx = withdrawal(ARTIST, record, 1_000);
    ctx.pool_pot.data[72] = 5;
    let before = ctx.clone();
    assert_eq!(withdraw_fund(&mut ctx), Err(TransitionError::InvalidAccountData));
    assert_eq!(ctx, before);
}

#[test]
fn stranger_and_zero_share_are_owed_nothing() {
    let record = pot(1_000, true, 0, vec![(ARTIST, false, 0), (GALLERY, true, 100)]);
    for payee in [STRANGER, ARTIST, GALLERY, SELLER] {
        let mut ctx = withdrawal(payee, record.clone(), 1_000);
        let before = ctx.clone();
        assert_eq!(withdraw_fund(&mut ctx), Err(TransitionError::Rule(PoolError::InvalidAmount)));
        assert_eq!(ctx, before);
    }
}

#[test]
fn withdraw_works_on_a_pot_as_read() {
    let record = pot(200, true, 0, vec![(ARTIST, false, 50)]);
    let mut ctx = withdrawal(ARTIST, record, 500);
    let held = TokenAccount { mint: key(PAYMENT_MINT), owner: key(MANAGER), amount: 60 };
    let actions = ctx.withdraw(&held).unwrap();
    assert_eq!(paid(&actions), 60);
    assert_eq!(ctx.withdraw(&held), Err(PoolError::InvalidAmount));
}

#[test]
fn first_sale_does_not_read_the_royalty_fee() {
    let record = pot(1_000, true, 60_000, vec![(ARTIST, false, 70), (GALLERY, false, 30)]);
    assert_eq!(amount_owed(&record, &key(ARTIST)), 700);
    let mut ctx = withdrawal(GALLERY, record, 1_000);
    assert_eq!(paid(&withdraw_fund(&mut ctx).unwrap()), 300);
}

#[test]
fn resale_with_the_whole_price_as_fee_pays_the_seller_nothing() {
    let record = pot(1_000, false, 10_000, vec![(ARTIST, false, 100)]);
    assert_eq!(amount_owed(&record, &key(SELLER)), 0);
    assert_eq!(amount_owed(&record, &key(ARTIST)), 1_000);
}
