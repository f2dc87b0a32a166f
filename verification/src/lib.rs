//! An escrow marketplace for unique tokens: fixed-price sales and auctions, with the
//! proceeds split between the seller and the royalty recipients.
//!
//! Every transition takes the accounts it is given as plain values, judges them
//! against the marketplace's rules, updates the marketplace's own records, and
//! returns the requests to the token ledger and to the metadata registry that carry
//! it out. The caller performs those requests, all or none.

pub mod action;
pub mod address;
pub mod auction;
pub mod error;
pub mod instruction;
pub mod laws;
pub mod ledger;
pub mod listing;
pub mod minting;
pub mod pool;
pub mod purchase;
pub mod records;
pub mod registry;
pub mod settlement;

pub use crate::action::{Action, SignerSeeds};
pub use crate::address::Address;
pub use crate::auction::{
    claim_bid, place_bid, sell_nft_by_auction, ClaimBid, PlaceBid, SellNftByAuction,
};
pub use crate::error::{PoolError, TransitionError};
pub use crate::instruction::{encode, AccountMeta, Instruction};
pub use crate::ledger::{MintState, RawAccount, TokenAccount};
pub use crate::listing::{
    init_sale_manager, redeem_nft, sell_nft, InitSaleManager, RedeemNft, SellNft,
};
pub use crate::minting::{mint_nft, MintNft};
pub use crate::pool::{init_pool, set_authority, InitPool, SetAuthority};
pub use crate::purchase::{buy_nft, BuyNft};
pub use crate::records::{
    AuctionData, Creator, Metadata, Pool, SaleManager, SalePot, Stored, AUCTION_DATA_SIZE,
    CREATOR_SIZE, MAX_CREATOR_NUM, MAX_SALE_MANAGER_SIZE, POOL_SIZE, PREFIX, SALE_POT_SIZE,
};
pub use crate::registry::MetadataRecord;
pub use crate::settlement::{withdraw_fund, WithdrawFund};
