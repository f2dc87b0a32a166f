use vstd::prelude::*;
use crate::action::{views, Action, ActionView, SignerSeeds};
use crate::address::Address;
use crate::error::{PoolError, TransitionError};
use crate::ledger::{read_token_account, RawAccount, TokenAccount};
use crate::listing::{
    listed_pot, listing_actions, listing_refusal, unpaid_creators, ListingAccounts,
};
use crate::records::{
    AuctionData, Pool, SaleManager, SalePot, SalePotView, Stored, AUCTION_ACTIVE, AUCTION_ENDED,
    AUCTION_HAS_BID, GAP_TICK_PERCENTAGE, SALE_LISTED, SALE_SETTLING,
};
use crate::registry::{read_registry_entry, MetadataRecord, MetadataRecordView};

verus! {

/// What an auction listing is given: what a fixed-price listing is given, an auction
/// record to fill, and the current time in seconds (`unix_timestamp`).
#[derive(Clone, Debug, PartialEq, Eq)]
pub struct SellNftByAuction {
    pub owner: Address,
    pub pool: Stored<Pool>,
    pub nft_mint: Address,
    pub metadata: RawAccount,
    pub sale_manager: Stored<SaleManager>,
    pub auction_data: Stored<AuctionData>,
    pub sale_pot: Stored<SalePot>,
    pub nft_seller_token: RawAccount,
    pub nft_manager_token: RawAccount,
    pub manager_pot: RawAccount,
    pub token_metadata_program: Address,
    pub token_program: Address,
    pub unix_timestamp: i64,
}

impl SellNftByAuction {
    /// The holding accounts and the registry entry that the supplied bytes encode;
    /// refused when any of them does not decode.
    pub open spec fn accounts(self) -> Result<(ListingAccounts, MetadataRecordView), TransitionError> {
        match (
            read_token_account(self.manager_pot.data@),
            read_token_account(self.nft_seller_token.data@),
            read_token_account(self.nft_manager_token.data@),
            read_registry_entry(self.metadata.data@),
        ) {
            (Ok(manager_pot), Ok(nft_seller_token), Ok(nft_manager_token), Ok(metadata)) => Ok(
                (ListingAccounts { manager_pot, nft_seller_token, nft_manager_token }, metadata),
            ),
            _ => Err(TransitionError::InvalidAccountData),
        }
    }

    /// The first rule that the listing breaks, if it breaks any.
    pub open spec fn refusal(self, accounts: ListingAccounts) -> Option<PoolError> {
        listing_refusal(
            self.owner,
            self.nft_mint,
            self.pool.record.sale_mint,
            self.sale_manager.key,
            accounts,
        )
    }

    /// The sale manager after the listing: listed by the seller at the opening price,
    /// for auction, with the escrow account and both records noted.
    pub open spec fn listed_manager(self, price: u64) -> SaleManager {
        SaleManager {
            sale_pot: self.sale_pot.key,
            auction_data: self.auction_data.key,
            seller: self.owner,
            price,
            sale_state: SALE_LISTED,
            nft_pot: self.nft_manager_token.key,
            is_auction_mode: true,
            ..self.sale_manager.record
        }
    }

    /// The auction record after the listing: open without a bid until `duration`
    /// seconds from now, with the fixed raise step.
    pub open spec fn opened_auction(self, duration: i64) -> AuctionData {
        AuctionData {
            ended_at: (self.unix_timestamp + duration) as i64,
            auction_state: AUCTION_ACTIVE,
            gap_tick_percentage: GAP_TICK_PERCENTAGE,
            ..self.auction_data.record
        }
    }

    /// The settlement record after the listing.
    pub open spec fn listed_pot(self, metadata: MetadataRecordView, price: u64) -> SalePotView {
        listed_pot(self.sale_manager.key, self.manager_pot.key, self.owner, metadata, price)
    }

    /// The requests of the listing.
    pub open spec fn actions(self) -> Seq<ActionView> {
        listing_actions(
            self.token_program,
            self.token_metadata_program,
            self.owner,
            self.nft_seller_token.key,
            self.nft_manager_token.key,
            self.metadata.key,
            self.sale_manager.key,
        )
    }

    /// `after` is `self` with the sale manager, the auction record and the settlement
    /// record of an auction listing, and nothing else changed.
    pub open spec fn listed(
        self,
        after: SellNftByAuction,
        metadata: MetadataRecordView,
        price: u64,
        duration: i64,
    ) -> bool {
        &&& after == (SellNftByAuction {
            sale_manager: Stored {
                key: self.sale_manager.key,
                record: self.listed_manager(price),
            },
            auction_data: Stored {
                key: self.auction_data.key,
                record: self.opened_auction(duration),
            },
            sale_pot: after.sale_pot,
            ..self
        })
        &&& after.sale_pot.key == self.sale_pot.key
        &&& after.sale_pot.record@ == self.listed_pot(metadata, price)
    }

    /// Lists the token for auction from `price` for `duration` seconds, given the
    /// accounts as read.
    pub fn sell_by_auction(
        &mut self,
        accounts: &ListingAccounts,
        metadata: &MetadataRecord,
        price: u64,
        duration: i64,
    ) -> (r: Result<Vec<Action>, PoolError>)
        requires
            i64::MIN <= old(self).unix_timestamp + duration <= i64::MAX,
        ensures
            match r {
                Ok(actions) => {
                    &&& old(self).refusal(*accounts) is None
                    &&& old(self).listed(*final(self), metadata@, price, duration)
                    &&& views(actions@) == old(self).actions()
                },
                Err(e) => old(self).refusal(*accounts) == Some(e) && *final(self) == *old(self),
            },
    {
        if accounts.nft_seller_token.owner != self.owner {
            return Err(PoolError::InvalidTokenAccount);
        }
        if accounts.nft_seller_token.mint != self.nft_mint {
            return Err(PoolError::InvalidTokenAccount);
        }
        if accounts.nft_manager_token.mint != self.nft_mint {
            return Err(PoolError::InvalidTokenAccount);
        }
        if accounts.manager_pot.mint != self.pool.record.sale_mint {
            return Err(PoolError::InvalidMintAccount);
        }
        if accounts.manager_pot.owner != self.sale_manager.key {
            return Err(PoolError::InvalidTokenAccount);
        }
        self.sale_manager.record.sale_pot = self.sale_pot.key;
        self.sale_manager.record.auction_data = self.auction_data.key;
        self.sale_manager.record.seller = self.owner;
        self.sale_manager.record.price = price;
        self.sale_manager.record.sale_state = SALE_LISTED;
        self.sale_manager.record.nft_pot = self.nft_manager_token.key;
        self.sale_manager.record.is_auction_mode = true;

        self.auction_data.record.ended_at = duration + self.unix_timestamp;
        self.auction_data.record.auction_state = AUCTION_ACTIVE;
        self.auction_data.record.gap_tick_percentage = GAP_TICK_PERCENTAGE;

        self.sale_pot.record.sale_manager = self.sale_manager.key;
        self.sale_pot.record.is_used = false;
        self.sale_pot.record.price = price;
        self.sale_pot.record.pool_pot = self.manager_pot.key;
        self.sale_pot.record.is_primary = !metadata.primary_sale_happened;
        self.sale_pot.record.seller_verified = !metadata.primary_sale_happened;
        self.sale_pot.record.seller = self.owner;
        self.sale_pot.record.seller_fee_basis_points = metadata.seller_fee_basis_points;
        self.sale_pot.record.creators = unpaid_creators(metadata);
        Ok(
            crate::listing::build_listing_actions(
                self.token_program,
                self.token_metadata_program,
                self.owner,
                self.nft_seller_token.key,
                self.nft_manager_token.key,
                self.metadata.key,
                self.sale_manager.key,
            ),
        )
    }
}

/// Lists the token for auction from `price` for `duration` seconds: reads the supplied
/// accounts, then applies the rules of `SellNftByAuction::sell_by_auction`. A refusal
/// leaves the records as they were.
pub fn sell_nft_by_auction(ctx: &mut SellNftByAuction, price: u64, duration: i64) -> (r: Result<
    Vec<Action>,
    TransitionError,
>)
    requires
        i64::MIN <= old(ctx).unix_timestamp + duration <= i64::MAX,
    ensures
        match old(ctx).accounts() {
            Err(e) => r == Err::<Vec<Action>, TransitionError>(e) && *final(ctx) == *old(ctx),
            Ok((accounts, metadata)) => match r {
                Ok(actions) => {
                    &&& old(ctx).refusal(accounts) is None
                    &&& old(ctx).listed(*final(ctx), metadata, price, duration)
                    &&& views(actions@) == old(ctx).actions()
                },
                Err(e) => {
                    &&& old(ctx).refusal(accounts) matches Some(rule)
                    &&& e == TransitionError::Rule(rule)
                    &&& *final(ctx) == *old(ctx)
                },
            },
        },
{
    let manager_pot = match TokenAccount::decode(ctx.manager_pot.data.as_slice()) {
        Ok(t) => t,
        Err(e) => return Err(e),
    };
    let nft_seller_token = match TokenAccount::decode(ctx.nft_seller_token.data.as_slice()) {
        Ok(t) => t,
        Err(e) => return Err(e),
    };
    let nft_manager_token = match TokenAccount::decode(ctx.nft_manager_token.data.as_slice()) {
        Ok(t) => t,
        Err(e) => return Err(e),
    };
    let metadata = match MetadataRecord::decode(ctx.metadata.data.as_slice()) {
        Ok(m) => m,
        Err(e) => return Err(e),
    };
    let accounts = ListingAccounts { manager_pot, nft_seller_token, nft_manager_token };
    match ctx.sell_by_auction(&accounts, &metadata, price, duration) {
        Ok(actions) => Ok(actions),
        Err(rule) => Err(TransitionError::Rule(rule)),
    }
}

/// What a bid is given: the bidder (`owner`, who signs), the pool, the listing's three
/// records, the pool pot and the bidder's holding account for the payment currency,
/// the holding account to which a standing bid is paid back, the two programs
/// requests go to, and the current time in seconds.
#[derive(Clone, Debug, PartialEq, Eq)]
pub struct PlaceBid {
    pub owner: Address,
    pub pool: Stored<Pool>,
    pub sale_manager: Stored<SaleManager>,
    pub sale_pot: Stored<SalePot>,
    pub auction_data: Stored<AuctionData>,
    pub manager_pot: RawAccount,
    pub bidder_token: RawAccount,
    pub prev_bidder_token: Address,
    pub token_metadata_program: Address,
    pub token_program: Address,
    pub unix_timestamp: i64,
}

/// The holding accounts of a bid, as read from their bytes.
#[derive(Clone, Copy, Debug, PartialEq, Eq)]
pub struct PlaceBidAccounts {
    pub manager_pot: TokenAccount,
    pub bidder_token: TokenAccount,
}

/// `bid` is at least `standing` raised by `percent` percent.
pub open spec fn clears_gap_tick(bid: u64, standing: u64, percent: u8) -> bool {
    bid * 100 >= standing * (100 + percent)
}

impl PlaceBid {
    /// The holding accounts that the supplied bytes encode; refused when one of them
    /// does not decode.
    pub open spec fn accounts(self) -> Result<PlaceBidAccounts, TransitionError> {
        match (
            read_token_account(self.manager_pot.data@),
            read_token_account(self.bidder_token.data@),
        ) {
            (Ok(manager_pot), Ok(bidder_token)) => Ok(PlaceBidAccounts { manager_pot, bidder_token }),
            _ => Err(TransitionError::InvalidAccountData),
        }
    }

    /// The bid comes at or after the deadline of the auction. Such a bid is refused
    /// whatever else it holds, and the auction is closed by it.
    pub open spec fn lapses(self) -> bool {
        self.unix_timestamp >= self.auction_data.record.ended_at
    }

    /// The clock or the state of the auction rules out every bid: the deadline has
    /// come, or the auction was closed before.
    pub open spec fn closed_to_bids(self) -> bool {
        self.lapses() || self.auction_data.record.auction_state == AUCTION_ENDED
    }

    /// A bid stands that a new bid has to outdo and pay back.
    pub open spec fn has_standing_bid(self) -> bool {
        self.auction_data.record.auction_state == AUCTION_HAS_BID
    }

    /// The first rule that the bid breaks, if it breaks any. The clock and the state
    /// of the auction are judged first, then the accounts and the listing, then the
    /// bidder and the amount, and last what a standing bid asks for.
    pub open spec fn refusal(self, accounts: PlaceBidAccounts, price: u64) -> Option<PoolError> {
        if self.lapses() {
            Some(PoolError::EndedAuction)
        } else if self.auction_data.record.auction_state == AUCTION_ENDED {
            Some(PoolError::EndedAuction)
        } else if self.sale_manager.record.pool != self.pool.key {
            Some(PoolError::InvalidPoolAccount)
        } else if !self.sale_manager.record.is_auction_mode {
            Some(PoolError::InvalidAuctionMode)
        } else if accounts.manager_pot.mint != self.pool.record.sale_mint {
            Some(PoolError::InvalidTokenAccount)
        } else if accounts.bidder_token.mint != self.pool.record.sale_mint {
            Some(PoolError::InvalidTokenAccount)
        } else if self.sale_manager.record.sale_state != SALE_LISTED
            && self.sale_manager.record.sale_state != SALE_SETTLING {
            Some(PoolError::InvalidSaleState)
        } else if self.sale_pot.record.pool_pot != self.manager_pot.key {
            Some(PoolError::InvalidTokenAccount)
        } else if self.sale_manager.record.seller == self.owner {
            Some(PoolError::InvalidBidder)
        } else if accounts.bidder_token.amount < price {
            Some(PoolError::NotEnoughTokenAmount)
        } else if price < self.sale_manager.record.price {
            Some(PoolError::NotEnoughTokenAmount)
        } else if self.has_standing_bid() && !clears_gap_tick(
            price,
            self.sale_manager.record.price,
            self.auction_data.record.gap_tick_percentage,
        ) {
            Some(PoolError::NotEnoughTokenAmountForGapTick)
        } else if self.has_standing_bid() && self.prev_bidder_token
            != self.auction_data.record.last_bidder_token {
            Some(PoolError::InvalidPrevBidderToken)
        } else {
            None
        }
    }

    /// The seeds with which the sale manager signs.
    pub open spec fn seeds(self) -> SignerSeeds {
        SignerSeeds {
            pool: self.sale_manager.record.pool,
            nft_mint: self.sale_manager.record.nft_mint,
            bump: self.sale_manager.record.bump,
        }
    }

    /// The records after a bid that came too late: the auction is over and the
    /// proceeds can be withdrawn.
    pub open spec fn closed(self) -> PlaceBid {
        PlaceBid {
            auction_data: Stored {
                key: self.auction_data.key,
                record: AuctionData { auction_state: AUCTION_ENDED, ..self.auction_data.record },
            },
            sale_pot: Stored {
                key: self.sale_pot.key,
                record: SalePot { is_used: true, ..self.sale_pot.record },
            },
            ..self
        }
    }

    /// The records after an accepted bid of `price`: it is the price of the listing
    /// and of its settlement, and the bidder's is the standing bid.
    pub open spec fn outbid(self, price: u64) -> PlaceBid {
        PlaceBid {
            sale_manager: Stored {
                key: self.sale_manager.key,
                record: SaleManager { price, sale_state: SALE_SETTLING, ..self.sale_manager.record },
            },
            sale_pot: Stored {
                key: self.sale_pot.key,
                record: SalePot { price, ..self.sale_pot.record },
            },
            auction_data: Stored {
                key: self.auction_data.key,
                record: AuctionData {
                    last_bidder: self.owner,
                    last_bidder_token: self.bidder_token.key,
                    auction_state: AUCTION_HAS_BID,
                    ..self.auction_data.record
                },
            },
            ..self
        }
    }

    /// The payment of the bid into the pool pot.
    pub open spec fn payment(self, price: u64) -> ActionView {
        ActionView::Transfer {
            program: self.token_program,
            source: self.bidder_token.key,
            destination: self.manager_pot.key,
            authority: self.owner,
            amount: price,
            seeds: None,
        }
    }

    /// The repayment of the standing bid from the pool pot.
    pub open spec fn refund(self) -> ActionView {
        ActionView::Transfer {
            program: self.token_program,
            source: self.manager_pot.key,
            destination: self.prev_bidder_token,
            authority: self.sale_manager.key,
            amount: self.sale_manager.record.price,
            seeds: Some(self.seeds()),
        }
    }

    /// The requests of an accepted bid: a standing bid is paid back in full, then the
    /// new bid is paid in.
    pub open spec fn actions(self, price: u64) -> Seq<ActionView> {
        if self.has_standing_bid() {
            seq![self.refund(), self.payment(price)]
        } else {
            seq![self.payment(price)]
        }
    }

    /// Bids `price` in the auction, given the holding accounts as read. The clock is
    /// read before anything else: a bid at or after the deadline is refused and closes
    /// the auction, whoever bids and whatever the amount. Any other refusal leaves the
    /// records as they were.
    pub fn bid(&mut self, accounts: &PlaceBidAccounts, price: u64) -> (r: Result<
        Vec<Action>,
        PoolError,
    >)
        ensures
            match r {
                Ok(actions) => {
                    &&& old(self).refusal(*accounts, price) is None
                    &&& *final(self) == old(self).outbid(price)
                    &&& views(actions@) == old(self).actions(price)
                },
                Err(e) => {
                    &&& old(self).refusal(*accounts, price) == Some(e)
                    &&& *final(self) == if old(self).lapses() {
                        old(self).closed()
                    } else {
                        *old(self)
                    }
                },
            },
    {
        if self.unix_timestamp >= self.auction_data.record.ended_at {
            self.auction_data.record.auction_state = AUCTION_ENDED;
            self.sale_pot.record.is_used = true;
            return Err(PoolError::EndedAuction);
        }
        if self.auction_data.record.auction_state == AUCTION_ENDED {
            return Err(PoolError::EndedAuction);
        }
        if self.sale_manager.record.pool != self.pool.key {
            return Err(PoolError::InvalidPoolAccount);
        }
        if !self.sale_manager.record.is_auction_mode {
            return Err(PoolError::InvalidAuctionMode);
        }
        if accounts.manager_pot.mint != self.pool.record.sale_mint {
            return Err(PoolError::InvalidTokenAccount);
        }
        if accounts.bidder_token.mint != self.pool.record.sale_mint {
            return Err(PoolError::InvalidTokenAccount);
        }
        if self.sale_manager.record.sale_state != SALE_LISTED
            && self.sale_manager.record.sale_state != SALE_SETTLING {
            return Err(PoolError::InvalidSaleState);
        }
        if self.sale_pot.record.pool_pot != self.manager_pot.key {
            return Err(PoolError::InvalidTokenAccount);
        }
        if self.sale_manager.record.seller == self.owner {
            return Err(PoolError::InvalidBidder);
        }
        if accounts.bidder_token.amount < price {
            return Err(PoolError::NotEnoughTokenAmount);
        }
        if price < self.sale_manager.record.price {
            return Err(PoolError::NotEnoughTokenAmount);
        }
        let payment = Action::Transfer {
            program: self.token_program,
            source: self.bidder_token.key,
            destination: self.manager_pot.key,
            authority: self.owner,
            amount: price,
            seeds: None,
        };
        let actions = if self.auction_data.record.auction_state == AUCTION_HAS_BID {
            let standing: u128 = self.sale_manager.record.price as u128;
            let percent: u128 = self.auction_data.record.gap_tick_percentage as u128;
            assert(standing * (100 + percent) <= 0xffff_ffff_ffff_ffff * 355) by (nonlinear_arith)
                requires
                    standing <= 0xffff_ffff_ffff_ffff,
                    percent <= 255,
            ;
            if (price as u128) * 100 < standing * (100 + percent) {
                return Err(PoolError::NotEnoughTokenAmountForGapTick);
            }
            if self.prev_bidder_token != self.auction_data.record.last_bidder_token {
                return Err(PoolError::InvalidPrevBidderToken);
            }
            let refund = Action::Transfer {
                program: self.token_program,
                source: self.manager_pot.key,
                destination: self.prev_bidder_token,
                authority: self.sale_manager.key,
                amount: self.sale_manager.record.price,
                seeds: Some(
                    SignerSeeds {
                        pool: self.sale_manager.record.pool,
                        nft_mint: self.sale_manager.record.nft_mint,
                        bump: self.sale_manager.record.bump,
                    },
                ),
            };
            vec![refund, payment]
        } else {
            vec![payment]
        };
        assert(views(actions@) =~= old(self).actions(price));
        self.sale_manager.record.price = price;
        self.sale_manager.record.sale_state = SALE_SETTLING;
        self.sale_pot.record.price = price;
        self.auction_data.record.last_bidder = self.owner;
        self.auction_data.record.last_bidder_token = self.bidder_token.key;
        self.auction_data.record.auction_state = AUCTION_HAS_BID;
        Ok(actions)
    }
}

/// Bids `price` in the auction. The clock and the state of the auction are judged
/// before anything is read: a bid at or after the deadline is refused and closes the
/// auction, and a closed auction refuses every bid. Then the supplied accounts are
/// read and the rules of `PlaceBid::bid` applied; a refusal there leaves the records
/// as they were.
pub fn place_bid(ctx: &mut PlaceBid, price: u64) -> (r: Result<Vec<Action>, TransitionError>)
    ensures
        old(ctx).closed_to_bids() ==> r == Err::<Vec<Action>, TransitionError>(
            TransitionError::Rule(PoolError::EndedAuction),
        ) && *final(ctx) == if old(ctx).lapses() {
            old(ctx).closed()
        } else {
            *old(ctx)
        },
        !old(ctx).closed_to_bids() ==> match old(ctx).accounts() {
            Err(e) => r == Err::<Vec<Action>, TransitionError>(e) && *final(ctx) == *old(ctx),
            Ok(accounts) => match r {
                Ok(actions) => {
                    &&& old(ctx).refusal(accounts, price) is None
                    &&& *final(ctx) == old(ctx).outbid(price)
                    &&& views(actions@) == old(ctx).actions(price)
                },
                Err(e) => {
                    &&& old(ctx).refusal(accounts, price) matches Some(rule)
                    &&& e == TransitionError::Rule(rule)
                    &&& *final(ctx) == *old(ctx)
                },
            },
        },
{
    if ctx.unix_timestamp >= ctx.auction_data.record.ended_at {
        ctx.auction_data.record.auction_state = AUCTION_ENDED;
        ctx.sale_pot.record.is_used = true;
        return Err(TransitionError::Rule(PoolError::EndedAuction));
    }
    if ctx.auction_data.record.auction_state == AUCTION_ENDED {
        return Err(TransitionError::Rule(PoolError::EndedAuction));
    }
    let manager_pot = match TokenAccount::decode(ctx.manager_pot.data.as_slice()) {
        Ok(t) => t,
        Err(e) => return Err(e),
    };
    let bidder_token = match TokenAccount::decode(ctx.bidder_token.data.as_slice()) {
        Ok(t) => t,
        Err(e) => return Err(e),
    };
    let accounts = PlaceBidAccounts { manager_pot, bidder_token };
    match ctx.bid(&accounts, price) {
        Ok(actions) => Ok(actions),
        Err(rule) => Err(TransitionError::Rule(rule)),
    }
}

/// What a claim is given: the claimant (`owner`, who signs), the token's mint, the
/// address of its registry entry, the listing's three records, the escrow and the
/// claimant's holding account for the token, the two programs requests go to, and the
/// current time in seconds.
#[derive(Clone, Debug, PartialEq, Eq)]
pub struct ClaimBid {
    pub owner: Address,
    pub nft_mint: Address,
    pub metadata: Address,
    pub sale_manager: Stored<SaleManager>,
    pub sale_pot: Stored<SalePot>,
    pub auction_data: Stored<AuctionData>,
    pub nft_manager_token: RawAccount,
    pub nft_bidder_token: RawAccount,
    pub token_metadata_program: Address,
    pub token_program: Address,
    pub unix_timestamp: i64,
}

/// The holding accounts of a claim, as read from their bytes.
#[derive(Clone, Copy, Debug, PartialEq, Eq)]
pub struct ClaimBidAccounts {
    pub nft_manager_token: TokenAccount,
    pub nft_bidder_token: TokenAccount,
}

impl ClaimBid {
    /// The auction record supplied is the one that the sale manager names.
    pub open spec fn names_its_auction(self) -> bool {
        self.sale_manager.record.auction_data == self.auction_data.key
    }

    /// The holding accounts that the supplied bytes encode; refused when one of them
    /// does not decode.
    pub open spec fn accounts(self) -> Result<ClaimBidAccounts, TransitionError> {
        match (
            read_token_account(self.nft_manager_token.data@),
            read_token_account(self.nft_bidder_token.data@),
        ) {
            (Ok(nft_manager_token), Ok(nft_bidder_token)) => Ok(
                ClaimBidAccounts { nft_manager_token, nft_bidder_token },
            ),
            _ => Err(TransitionError::InvalidAccountData),
        }
    }

    /// The deadline of the auction has come.
    pub open spec fn is_due(self) -> bool {
        self.unix_timestamp >= self.auction_data.record.ended_at
    }

    /// The first rule that the claim breaks, if it breaks any. A token sold at a fixed
    /// price is settled and cannot be claimed; an auction must be over, by its state
    /// or by the clock.
    pub open spec fn refusal(self, accounts: ClaimBidAccounts) -> Option<PoolError> {
        if !self.names_its_auction() {
            Some(PoolError::InvalidAuctionDataAccount)
        } else if accounts.nft_manager_token.mint != self.nft_mint {
            Some(PoolError::InvalidTokenAccount)
        } else if accounts.nft_bidder_token.mint != self.nft_mint {
            Some(PoolError::InvalidTokenAccount)
        } else if self.sale_manager.record.sale_state == SALE_SETTLING
            && !self.sale_manager.record.is_auction_mode {
            Some(PoolError::InvalidSaleState)
        } else if !self.sale_manager.record.is_auction_mode {
            Some(PoolError::InvalidAuctionMode)
        } else if self.auction_data.record.last_bidder != self.owner {
            Some(PoolError::InvalidBidder)
        } else if !self.is_due() && self.auction_data.record.auction_state != AUCTION_ENDED {
            Some(PoolError::InvalidAuctionState)
        } else {
            None
        }
    }

    /// The seeds with which the sale manager signs.
    pub open spec fn seeds(self) -> SignerSeeds {
        SignerSeeds {
            pool: self.sale_manager.record.pool,
            nft_mint: self.sale_manager.record.nft_mint,
            bump: self.sale_manager.record.bump,
        }
    }

    /// The records after the claim: where the deadline has come, the auction is over
    /// and the proceeds can be withdrawn; an auction closed before stays as it is.
    pub open spec fn claimed(self) -> ClaimBid {
        if self.is_due() {
            ClaimBid {
                auction_data: Stored {
                    key: self.auction_data.key,
                    record: AuctionData { auction_state: AUCTION_ENDED, ..self.auction_data.record },
                },
                sale_pot: Stored {
                    key: self.sale_pot.key,
                    record: SalePot { is_used: true, ..self.sale_pot.record },
                },
                ..self
            }
        } else {
            self
        }
    }

    /// The requests of a claim: the first sale is recorded, the token leaves escrow for
    /// the claimant, and the claimant becomes the one who may update the metadata. No
    /// payment moves.
    pub open spec fn actions(self) -> Seq<ActionView> {
        seq![
            ActionView::MarkPrimarySale {
                program: self.token_metadata_program,
                metadata: self.metadata,
                owner: self.sale_manager.key,
                token: self.nft_manager_token.key,
                seeds: Some(self.seeds()),
            },
            ActionView::Transfer {
                program: self.token_program,
                source: self.nft_manager_token.key,
                destination: self.nft_bidder_token.key,
                authority: self.sale_manager.key,
                amount: 1,
                seeds: Some(self.seeds()),
            },
            ActionView::UpdateAuthority {
                program: self.token_metadata_program,
                metadata: self.metadata,
                update_authority: self.sale_manager.key,
                new_update_authority: self.owner,
                seeds: Some(self.seeds()),
            },
        ]
    }

    /// Hands the auctioned token to the highest bidder, given the holding accounts as
    /// read. A refusal leaves the records as they were.
    pub fn claim(&mut self, accounts: &ClaimBidAccounts) -> (r: Result<Vec<Action>, PoolError>)
        ensures
            match r {
                Ok(actions) => {
                    &&& old(self).refusal(*accounts) is None
                    &&& *final(self) == old(self).claimed()
                    &&& views(actions@) == old(self).actions()
                },
                Err(e) => old(self).refusal(*accounts) == Some(e) && *final(self) == *old(self),
            },
    {
        if self.sale_manager.record.auction_data != self.auction_data.key {
            return Err(PoolError::InvalidAuctionDataAccount);
        }
        if accounts.nft_manager_token.mint != self.nft_mint {
            return Err(PoolError::InvalidTokenAccount);
        }
        if accounts.nft_bidder_token.mint != self.nft_mint {
            return Err(PoolError::InvalidTokenAccount);
        }
        if self.sale_manager.record.sale_state == SALE_SETTLING
            && !self.sale_manager.record.is_auction_mode {
            return Err(PoolError::InvalidSaleState);
        }
        if !self.sale_manager.record.is_auction_mode {
            return Err(PoolError::InvalidAuctionMode);
        }
        if self.auction_data.record.last_bidder != self.owner {
            return Err(PoolError::InvalidBidder);
        }
        let due = self.unix_timestamp >= self.auction_data.record.ended_at;
        if !due && self.auction_data.record.auction_state != AUCTION_ENDED {
            return Err(PoolError::InvalidAuctionState);
        }
        if due {
            self.auction_data.record.auction_state = AUCTION_ENDED;
            self.sale_pot.record.is_used = true;
        }
        let seeds = SignerSeeds {
            pool: self.sale_manager.record.pool,
            nft_mint: self.sale_manager.record.nft_mint,
            bump: self.sale_manager.record.bump,
        };
        let actions = vec![
            Action::MarkPrimarySale {
                program: self.token_metadata_program,
                metadata: self.metadata,
                owner: self.sale_manager.key,
                token: self.nft_manager_token.key,
                seeds: Some(seeds),
            },
            Action::Transfer {
                program: self.token_program,
                source: self.nft_manager_token.key,
                destination: self.nft_bidder_token.key,
                authority: self.sale_manager.key,
                amount: 1,
                seeds: Some(seeds),
            },
            Action::UpdateAuthority {
                program: self.token_metadata_program,
                metadata: self.metadata,
                update_authority: self.sale_manager.key,
                new_update_authority: self.owner,
                seeds: Some(seeds),
            },
        ];
        assert(views(actions@) =~= old(self).actions());
        Ok(actions)
    }
}

/// Hands the auctioned token to the highest bidder. An auction record that the sale
/// manager does not name is refused before anything is read; then the supplied
/// accounts are read and the rules of `ClaimBid::claim` applied. A refusal leaves the
/// records as they were.
pub fn claim_bid(ctx: &mut ClaimBid) -> (r: Result<Vec<Action>, TransitionError>)
    ensures
        !old(ctx).names_its_auction() ==> r == Err::<Vec<Action>, TransitionError>(
            TransitionError::Rule(PoolError::InvalidAuctionDataAccount),
        ) && *final(ctx) == *old(ctx),
        old(ctx).names_its_auction() ==> match old(ctx).accounts() {
            Err(e) => r == Err::<Vec<Action>, TransitionError>(e) && *final(ctx) == *old(ctx),
            Ok(accounts) => match r {
                Ok(actions) => {
                    &&& old(ctx).refusal(accounts) is None
                    &&& *final(ctx) == old(ctx).claimed()
                    &&& views(actions@) == old(ctx).actions()
                },
                Err(e) => {
                    &&& old(ctx).refusal(accounts) matches Some(rule)
                    &&& e == TransitionError::Rule(rule)
                    &&& *final(ctx) == *old(ctx)
                },
            },
        },
{
    if ctx.sale_manager.record.auction_data != ctx.auction_data.key {
        return Err(TransitionError::Rule(PoolError::InvalidAuctionDataAccount));
    }
    let nft_manager_token = match TokenAccount::decode(ctx.nft_manager_token.data.as_slice()) {
        Ok(t) => t,
        Err(e) => return Err(e),
    };
    let nft_bidder_token = match TokenAccount::decode(ctx.nft_bidder_token.data.as_slice()) {
        Ok(t) => t,
        Err(e) => return Err(e),
    };
    let accounts = ClaimBidAccounts { nft_manager_token, nft_bidder_token };
    match ctx.claim(&accounts) {
        Ok(actions) => Ok(actions),
        Err(rule) => Err(TransitionError::Rule(rule)),
    }
}

} // verus!
