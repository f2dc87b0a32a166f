use nft_market::action::Action;
use nft_market::address::Address;
use nft_market::error::{PoolError, TransitionError};
use nft_market::ledger::{MintState, RawAccount, TokenAccount};
use nft_market::minting::{mint_nft, MintNft};
use nft_market::pool::{set_authority, SetAuthority};
use nft_market::records::{
    Creator, Metadata, Pool, Stored, AUCTION_DATA_SIZE, CREATOR_SIZE, MAX_CREATOR_NUM,
    MAX_SALE_MANAGER_SIZE, POOL_SIZE, PREFIX, SALE_POT_SIZE,
};
use spl_token::solana_program::program_option::COption;
use spl_token::solana_program::program_pack::Pack;
use spl_token::solana_program::pubkey::Pubkey;
use spl_token::state::{Account, AccountState, Mint};

fn key(n: u8) -> Address {
    Address::new([n; 32])
}

const MINTER: u8 = 1;
const MINT: u8 = 2;
const HOLDING: u8 = 3;
const METADATA: u8 = 4;
const EDITION: u8 = 5;
const REGISTRY: u8 = 6;
const TOKENS: u8 = 7;

fn mint_account(supply: u64, decimals: u8) -> RawAccount {
    let mint = Mint {
        mint_authority: COption::Some(Pubkey::new_from_array([MINTER; 32])),
        supply,
        decimals,
        is_initialized: true,
        freeze_authority: COption::None,
    };
    let mut data = vec![0u8; Mint::LEN];
    Mint::pack(mint, &mut data).unwrap();
    RawAccount { key: key(MINT), data }
}

fn holding_account(mint: u8) -> RawAccount {
    let account = Account {
        mint: Pubkey::new_from_array([mint; 32]),
        owner: Pubkey::new_from_array([MINTER; 32]),
        amount: 0,
        delegate: COption::None,
        state: AccountState::Initialized,
        is_native: COption::None,
        delegated_amount: 0,
        close_authority: COption::None,
    };
    let mut data = vec![0u8; Account::LEN];
    Account::pack(account, &mut data).unwrap();
    RawAccount { key: key(HOLDING), data }
}

fn minting(mint: RawAccount, token_account: RawAccount) -> MintNft {
    MintNft {
        owner: key(MINTER),
        pool: Stored { key: key(20), record: Pool { owner: key(MINTER), sale_mint: key(21) } },
        mint,
        token_account,
        metadata: key(METADATA),
        master_edition: key(EDITION),
        token_metadata_program: key(REGISTRY),
        token_program: key(TOKENS),
    }
}

fn description() -> Metadata {
    Metadata {
        name: String::from("Noon"),
        symbol: String::from("NN"),
        uri: String::from("https://example.org/noon.json"),
        seller_fee_basis_points: 250,
        creators: vec![
            Creator { address: key(MINTER), verified: true, share: 80 },
            Creator { address: key(30), verified: false, share: 20 },
        ],
        is_mutable: true,
    }
}

#[test]
fn minting_issues_one_unit_and_registers_the_token() {
    let ctx = minting(mint_account(0, 0), holding_account(MINT));
    let actions = mint_nft(&ctx, description()).unwrap();
    assert_eq!(
        actions,
        vec![
            Action::MintTo {
                program: key(TOKENS),
                mint: key(MINT),
                account: key(HOLDING),
                owner: key(MINTER),
                amount: 1,
            },
            Action::CreateMetadata {
                program: key(REGISTRY),
                metadata: key(METADATA),
                mint: key(MINT),
                mint_authority: key(MINTER),
                payer: key(MINTER),
                update_authority: key(MINTER),
                data: Metadata {
                    name: String::from("Noon"),
                    symbol: String::from("NN"),
                    uri: String::from("https://example.org/noon.json"),
                    seller_fee_basis_points: 250,
                    creators: vec![
                        Creator { address: key(MINTER), verified: false, share: 80 },
                        Creator { address: key(30), verified: false, share: 20 },
                    ],
                    is_mutable: true,
                },
                update_authority_is_signer: true,
            },
            Action::CreateMasterEdition {
                program: key(REGISTRY),
                edition: key(EDITION),
                mint: key(MINT),
                update_authority: key(MINTER),
                mint_authority: key(MINTER),
                metadata: key(METADATA),
                payer: key(MINTER),
                max_supply: None,
            },
        ]
    );
}

#[test]
fn minting_refuses_a_divisible_mint() {
    let ctx = minting(mint_account(0, 2), holding_account(MINT));
    assert_eq!(
        mint_nft(&ctx, description()),
        Err(TransitionError::Rule(PoolError::InvalidMintAccount))
    );
}

#[test]
fn minting_refuses_a_mint_that_has_issued() {
    let ctx = minting(mint_account(1, 0), holding_account(MINT));
    assert_eq!(
        mint_nft(&ctx, description()),
        Err(TransitionError::Rule(PoolError::InvalidMintAccount))
    );
}

#[test]
fn minting_refuses_a_holding_account_of_another_mint() {
    let ctx = minting(mint_account(0, 0), holding_account(99));
    assert_eq!(
        mint_nft(&ctx, description()),
        Err(TransitionError::Rule(PoolError::InvalidTokenAccount))
    );
}

#[test]
fn minting_refuses_undecodable_accounts() {
    let mut ctx = minting(mint_account(0, 0), holding_account(MINT));
    ctx.mint.data[0] = 3;
    assert_eq!(mint_nft(&ctx, description()), Err(TransitionError::InvalidAccountData));
    let mut ctx = minting(mint_account(0, 0), holding_account(MINT));
    ctx.token_account.data.pop();
    assert_eq!(mint_nft(&ctx, description()), Err(TransitionError::InvalidAccountData));
}

#[test]
fn mint_on_accounts_as_read() {
    let ctx = minting(mint_account(9, 9), holding_account(99));
    let fresh = MintState { supply: 0, decimals: 0 };
    let holding = TokenAccount { mint: key(MINT), owner: key(MINTER), amount: 0 };
    assert_eq!(ctx.mint(&fresh, &holding, description()).unwrap().len(), 3);
    let divisible = MintState { supply: 0, decimals: 1 };
    assert_eq!(ctx.mint(&divisible, &holding, description()), Err(PoolError::InvalidMintAccount));
}

#[test]
fn owner_hands_the_pool_over() {
    let mut ctx = SetAuthority {
        pool: Stored { key: key(20), record: Pool { owner: key(MINTER), sale_mint: key(21) } },
        owner: key(MINTER),
        new_owner: key(8),
    };
    assert_eq!(set_authority(&mut ctx), Ok(()));
    assert_eq!(ctx.pool.record, Pool { owner: key(8), sale_mint: key(21) });
    assert_eq!(ctx.pool.key, key(20));

    let handed = ctx;
    assert_eq!(set_authority(&mut ctx), Err(TransitionError::NotPoolOwner));
    assert_eq!(ctx, handed);
}

#[test]
fn record_sizes_have_room_for_six_recipients() {
    assert_eq!(POOL_SIZE, 65);
    assert_eq!(MAX_CREATOR_NUM, 6);
    assert_eq!(CREATOR_SIZE, 34);
    assert_eq!(MAX_SALE_MANAGER_SIZE, 204);
    assert_eq!(SALE_POT_SIZE, 313);
    assert_eq!(AUCTION_DATA_SIZE, 74);
    assert_eq!(PREFIX, "auction");
}

#[test]
fn every_rejection_has_its_text() {
    let all = [
        (PoolError::TokenMintToFailed, "Token mint to failed"),
        (PoolError::TokenSetAuthorityFailed, "Token set authority failed"),
        (PoolError::TokenTransferFailed, "Token transfer failed"),
        (PoolError::InvalidMintAccount, "Invalid mint account"),
        (PoolError::InvalidTokenAccount, "Invalid token account"),
        (PoolError::InvalidPoolAccount, "Invalid pool account"),
        (PoolError::NotWhitelisted, "Not whitelisted"),
        (PoolError::MintAmountIsZero, "Mint amount is zero"),
        (PoolError::AlreadyTrading, "Already on sale"),
        (PoolError::InvalidPrice, "Invalid price"),
        (PoolError::InvalidSaleState, "Invalid sale state"),
        (PoolError::NotEnoughTokenAmount, "Not enough token amount"),
        (PoolError::InvalidBidder, "Invalid bidder"),
        (PoolError::InvalidAmount, "Invalid amount"),
        (PoolError::InvalidSeller, "InvalidSeller"),
        (PoolError::InvalidAuctionMode, "InvalidAuctionMode"),
        (PoolError::NotEnoughTokenAmountForGapTick, "Not enough token amount for gap tick"),
        (PoolError::InvalidPrevBidderToken, "Invalid prev bidder token"),
        (PoolError::EndedAuction, "Ended auction"),
        (PoolError::NotAllowedWithdrawFund, "Not allowed to withdraw fund"),
        (PoolError::InvalidAuctionDataAccount, "Invalid auction data account"),
        (PoolError::InvalidAuctionState, "Invalid auction state"),
    ];
    for (error, text) in all {
        assert_eq!(error.message(), text);
    }
}

#[test]
fn addresses_compare_by_their_bytes() {
    let mut bytes = [7u8; 32];
    assert_eq!(Address::new(bytes), key(7));
    bytes[31] = 8;
    assert_ne!(Address::new(bytes), key(7));
    assert_eq!(Address::zero(), key(0));
    assert_eq!(Address::zero().bytes, [0u8; 32]);
}
