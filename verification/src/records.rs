use vstd::prelude::*;
use crate::address::Address;

verus! {

/// Largest number of royalty recipients one settlement record has room for.
pub const MAX_CREATOR_NUM: usize = 6;

/// Bytes of a stored pool.
pub const POOL_SIZE: usize = 32 + 1 + 32;

/// Bytes of one stored royalty recipient.
pub const CREATOR_SIZE: usize = 32 + 1 + 1;

/// Bytes of a stored sale manager.
pub const MAX_SALE_MANAGER_SIZE: usize = 32 + 32 + 32 + 32 + 32 + 8 + 1 + 1 + 1 + 32 + 1;

/// Bytes of a stored settlement record with room for `MAX_CREATOR_NUM` recipients.
pub const SALE_POT_SIZE: usize = 1 + 32 + 32 + 8 + 1 + 32 + 1 + 2 + CREATOR_SIZE * MAX_CREATOR_NUM;

/// Bytes of a stored auction record.
pub const AUCTION_DATA_SIZE: usize = 8 + 32 + 32 + 1 + 1;

/// Seed word of auction addresses.
pub const PREFIX: &'static str = "auction";

/// The token is not listed.
pub const SALE_NONE: u8 = 0;

/// The token is in escrow and waits for a buyer or a first bid.
pub const SALE_LISTED: u8 = 1;

/// The token was bought, or a bid stands on it.
pub const SALE_SETTLING: u8 = 2;

/// No auction was opened.
pub const AUCTION_NONE: u8 = 0;

/// The auction is open and has no bid.
pub const AUCTION_ACTIVE: u8 = 1;

/// The auction is open and a bid stands.
pub const AUCTION_HAS_BID: u8 = 2;

/// The auction is over.
pub const AUCTION_ENDED: u8 = 3;

/// The fixed step, in percent, by which a bid must exceed the standing one.
pub const GAP_TICK_PERCENTAGE: u8 = 10;

/// A record together with the address it is stored at.
#[derive(Clone, Copy, Debug, PartialEq, Eq)]
pub struct Stored<T> {
    pub key: Address,
    pub record: T,
}

/// A marketplace for one payment currency, run by one owner.
#[derive(Clone, Copy, Debug, PartialEq, Eq)]
pub struct Pool {
    pub owner: Address,
    pub sale_mint: Address,
}

/// One royalty recipient: who, whether already paid, and the percentage owed.
#[derive(Clone, Copy, Debug, PartialEq, Eq)]
pub struct Creator {
    pub address: Address,
    pub verified: bool,
    pub share: u8,
}

/// A list of recipients as a new listing or a new token records it: the same addresses
/// and percentages in the same order, none of them paid yet. No list is an empty list.
pub open spec fn unpaid(creators: Option<Seq<Creator>>) -> Seq<Creator> {
    match creators {
        Some(list) => Seq::new(
            list.len(),
            |i: int| Creator { address: list[i].address, verified: false, share: list[i].share },
        ),
        None => Seq::empty(),
    }
}

/// Copies a list of recipients, each marked as not yet paid.
pub fn unpaid_copy(creators: &Vec<Creator>) -> (list: Vec<Creator>)
    ensures
        list@ == unpaid(Some(creators@)),
{
    let mut list: Vec<Creator> = Vec::new();
    let mut i: usize = 0;
    while i < creators.len()
        invariant
            i <= creators.len(),
            list@ == unpaid(Some(creators@)).subrange(0, i as int),
        decreases creators.len() - i,
    {
        let c = creators[i];
        list.push(Creator { address: c.address, verified: false, share: c.share });
        i += 1;
    }
    assert(list@ =~= unpaid(Some(creators@)));
    list
}

/// What a minter says of a new token.
#[derive(Clone, Debug, PartialEq, Eq)]
pub struct Metadata {
    pub name: String,
    pub symbol: String,
    pub uri: String,
    pub seller_fee_basis_points: u16,
    pub creators: Vec<Creator>,
    pub is_mutable: bool,
}

/// The mathematical content of a `Metadata`.
pub struct MetadataView {
    pub name: Seq<char>,
    pub symbol: Seq<char>,
    pub uri: Seq<char>,
    pub seller_fee_basis_points: u16,
    pub creators: Seq<Creator>,
    pub is_mutable: bool,
}

impl View for Metadata {
    type V = MetadataView;

    open spec fn view(&self) -> MetadataView {
        MetadataView {
            name: self.name@,
            symbol: self.symbol@,
            uri: self.uri@,
            seller_fee_basis_points: self.seller_fee_basis_points,
            creators: self.creators@,
            is_mutable: self.is_mutable,
        }
    }
}

/// The state of one token in one pool: whether and how it is on sale.
#[derive(Clone, Copy, Debug, PartialEq, Eq)]
pub struct SaleManager {
    pub pool: Address,
    pub seller: Address,
    pub nft_mint: Address,
    pub nft_pot: Address,
    pub sale_pot: Address,
    pub price: u64,
    pub sale_state: u8,
    pub is_primary: bool,
    pub is_auction_mode: bool,
    pub auction_data: Address,
    pub bump: u8,
}

/// The settlement record of one listing: what is owed to whom, and who was paid.
#[derive(Clone, Debug, PartialEq, Eq)]
pub struct SalePot {
    pub is_used: bool,
    pub sale_manager: Address,
    pub pool_pot: Address,
    pub price: u64,
    pub is_primary: bool,
    pub seller: Address,
    pub seller_verified: bool,
    pub seller_fee_basis_points: u16,
    pub creators: Vec<Creator>,
}

/// The mathematical content of a `SalePot`.
pub struct SalePotView {
    pub is_used: bool,
    pub sale_manager: Address,
    pub pool_pot: Address,
    pub price: u64,
    pub is_primary: bool,
    pub seller: Address,
    pub seller_verified: bool,
    pub seller_fee_basis_points: u16,
    pub creators: Seq<Creator>,
}

impl View for SalePot {
    type V = SalePotView;

    open spec fn view(&self) -> SalePotView {
        SalePotView {
            is_used: self.is_used,
            sale_manager: self.sale_manager,
            pool_pot: self.pool_pot,
            price: self.price,
            is_primary: self.is_primary,
            seller: self.seller,
            seller_verified: self.seller_verified,
            seller_fee_basis_points: self.seller_fee_basis_points,
            creators: self.creators@,
        }
    }
}

/// The sum of the percentages of a list of recipients.
pub open spec fn share_sum(creators: Seq<Creator>) -> nat
    decreases creators.len(),
{
    if creators.len() == 0 {
        0
    } else {
        share_sum(creators.drop_last()) + creators.last().share as nat
    }
}

impl SalePotView {
    /// The royalty fee is at most 100%, the recipients fit in the record, and their
    /// percentages add up to at most 100.
    pub open spec fn wf(self) -> bool {
        &&& self.seller_fee_basis_points <= 10000
        &&& self.creators.len() <= MAX_CREATOR_NUM
        &&& share_sum(self.creators) <= 100
    }
}

/// The state of one auction.
#[derive(Clone, Copy, Debug, PartialEq, Eq)]
pub struct AuctionData {
    pub ended_at: i64,
    pub last_bidder: Address,
    pub last_bidder_token: Address,
    pub auction_state: u8,
    pub gap_tick_percentage: u8,
}

impl Pool {
    /// A pool record as it is before `init_pool` fills it.
    pub fn blank() -> (p: Pool)
        ensures
            p.owner.is_zero(),
            p.sale_mint.is_zero(),
    {
        Pool { owner: Address::zero(), sale_mint: Address::zero() }
    }
}

impl SaleManager {
    /// A sale manager record as it is before `init_sale_manager` fills it.
    pub fn blank() -> (m: SaleManager)
        ensures
            m.pool.is_zero(),
            m.seller.is_zero(),
            m.nft_mint.is_zero(),
            m.nft_pot.is_zero(),
            m.sale_pot.is_zero(),
            m.auction_data.is_zero(),
            m.price == 0,
            m.sale_state == SALE_NONE,
            !m.is_primary,
            !m.is_auction_mode,
            m.bump == 0,
    {
        SaleManager {
            pool: Address::zero(),
            seller: Address::zero(),
            nft_mint: Address::zero(),
            nft_pot: Address::zero(),
            sale_pot: Address::zero(),
            price: 0,
            sale_state: SALE_NONE,
            is_primary: false,
            is_auction_mode: false,
            auction_data: Address::zero(),
            bump: 0,
        }
    }
}

impl SalePot {
    /// A settlement record as it is before a listing fills it.
    pub fn blank() -> (p: SalePot)
        ensures
            p@.creators.len() == 0,
            !p.is_used,
            !p.is_primary,
            !p.seller_verified,
            p.price == 0,
            p.seller_fee_basis_points == 0,
            p.sale_manager.is_zero(),
            p.pool_pot.is_zero(),
            p.seller.is_zero(),
    {
        SalePot {
            is_used: false,
            sale_manager: Address::zero(),
            pool_pot: Address::zero(),
            price: 0,
            is_primary: false,
            seller: Address::zero(),
            seller_verified: false,
            seller_fee_basis_points: 0,
            creators: Vec::new(),
        }
    }
}

impl AuctionData {
    /// An auction record as it is before an auction listing fills it.
    pub fn blank() -> (a: AuctionData)
        ensures
            a.ended_at == 0,
            a.last_bidder.is_zero(),
            a.last_bidder_token.is_zero(),
            a.auction_state == AUCTION_NONE,
            a.gap_tick_percentage == 0,
    {
        AuctionData {
            ended_at: 0,
            last_bidder: Address::zero(),
            last_bidder_token: Address::zero(),
            auction_state: AUCTION_NONE,
            gap_tick_percentage: 0,
        }
    }
}

} // verus!
