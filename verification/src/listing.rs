use vstd::prelude::*;
use crate::action::{views, Action, ActionView, SignerSeeds};
use crate::address::Address;
use crate::error::{PoolError, TransitionError};
use crate::ledger::{read_token_account, RawAccount, TokenAccount};
use crate::records::{
    unpaid, unpaid_copy, Creator, Pool, SaleManager, SalePot, SalePotView, Stored, SALE_LISTED,
    SALE_NONE,
};
use crate::registry::{read_registry_entry, MetadataRecord, MetadataRecordView};

verus! {

/// What the creation of a sale manager is given: who pays for it (`owner`), the pool,
/// the token's mint, and the record to fill.
#[derive(Clone, Copy, Debug, PartialEq, Eq)]
pub struct InitSaleManager {
    pub owner: Address,
    pub pool: Stored<Pool>,
    pub nft_mint: Address,
    pub sale_manager: Stored<SaleManager>,
}

/// Fills the sale manager of one token in one pool: it records the pool, the mint and
/// the bump of its derived address, and that the token is not listed.
pub fn init_sale_manager(ctx: &mut InitSaleManager, bump: u8) -> (r: Result<(), TransitionError>)
    ensures
        r is Ok,
        *final(ctx) == (InitSaleManager {
            sale_manager: Stored {
                key: old(ctx).sale_manager.key,
                record: SaleManager {
                    bump,
                    pool: old(ctx).pool.key,
                    nft_mint: old(ctx).nft_mint,
                    sale_state: SALE_NONE,
                    ..old(ctx).sale_manager.record
                },
            },
            ..*old(ctx)
        }),
{
    ctx.sale_manager.record.bump = bump;
    ctx.sale_manager.record.pool = ctx.pool.key;
    ctx.sale_manager.record.nft_mint = ctx.nft_mint;
    ctx.sale_manager.record.sale_state = SALE_NONE;
    Ok(())
}

/// The holding accounts of a listing, as read from their bytes.
#[derive(Clone, Copy, Debug, PartialEq, Eq)]
pub struct ListingAccounts {
    pub manager_pot: TokenAccount,
    pub nft_seller_token: TokenAccount,
    pub nft_manager_token: TokenAccount,
}

/// The first rule that a listing breaks, if it breaks any: the seller must own the
/// holding account that the token comes from, that account and the escrow account
/// must be of the token's mint, and the pool pot must be of the pool's payment
/// currency and owned by the sale manager.
pub open spec fn listing_refusal(
    owner: Address,
    nft_mint: Address,
    sale_mint: Address,
    sale_manager_key: Address,
    accounts: ListingAccounts,
) -> Option<PoolError> {
    if accounts.nft_seller_token.owner != owner {
        Some(PoolError::InvalidTokenAccount)
    } else if accounts.nft_seller_token.mint != nft_mint {
        Some(PoolError::InvalidTokenAccount)
    } else if accounts.nft_manager_token.mint != nft_mint {
        Some(PoolError::InvalidTokenAccount)
    } else if accounts.manager_pot.mint != sale_mint {
        Some(PoolError::InvalidMintAccount)
    } else if accounts.manager_pot.owner != sale_manager_key {
        Some(PoolError::InvalidTokenAccount)
    } else {
        None
    }
}

/// The settlement record of a new listing: price and participants as they are now,
/// nothing paid, nothing to withdraw yet. On a first sale the seller counts as paid,
/// since the proceeds then go to the recipients alone.
pub open spec fn listed_pot(
    sale_manager_key: Address,
    pool_pot: Address,
    seller: Address,
    metadata: MetadataRecordView,
    price: u64,
) -> SalePotView {
    SalePotView {
        is_used: false,
        sale_manager: sale_manager_key,
        pool_pot,
        price,
        is_primary: !metadata.primary_sale_happened,
        seller,
        seller_verified: !metadata.primary_sale_happened,
        seller_fee_basis_points: metadata.seller_fee_basis_points,
        creators: unpaid(metadata.creators),
    }
}

/// The requests of a listing: the token goes into escrow, and the sale manager becomes
/// the one who may update the metadata.
pub open spec fn listing_actions(
    token_program: Address,
    token_metadata_program: Address,
    owner: Address,
    nft_seller_token: Address,
    nft_manager_token: Address,
    metadata: Address,
    sale_manager_key: Address,
) -> Seq<ActionView> {
    seq![
        ActionView::Transfer {
            program: token_program,
            source: nft_seller_token,
            destination: nft_manager_token,
            authority: owner,
            amount: 1,
            seeds: None,
        },
        ActionView::UpdateAuthority {
            program: token_metadata_program,
            metadata,
            update_authority: owner,
            new_update_authority: sale_manager_key,
            seeds: None,
        },
    ]
}

/// Copies the recipients of a registry entry, each marked as not yet paid.
pub fn unpaid_creators(metadata: &MetadataRecord) -> (list: Vec<Creator>)
    ensures
        list@ == unpaid(metadata@.creators),
{
    match &metadata.creators {
        Some(creators) => unpaid_copy(creators),
        None => Vec::new(),
    }
}

/// Builds the two requests of a listing.
pub(crate) fn build_listing_actions(
    token_program: Address,
    token_metadata_program: Address,
    owner: Address,
    nft_seller_token: Address,
    nft_manager_token: Address,
    metadata: Address,
    sale_manager_key: Address,
) -> (actions: Vec<Action>)
    ensures
        views(actions@) == listing_actions(
            token_program,
            token_metadata_program,
            owner,
            nft_seller_token,
            nft_manager_token,
            metadata,
            sale_manager_key,
        ),
{
    let actions = vec![
        Action::Transfer {
            program: token_program,
            source: nft_seller_token,
            destination: nft_manager_token,
            authority: owner,
            amount: 1,
            seeds: None,
        },
        Action::UpdateAuthority {
            program: token_metadata_program,
            metadata,
            update_authority: owner,
            new_update_authority: sale_manager_key,
            seeds: None,
        },
    ];
    assert(views(actions@) =~= listing_actions(
        token_program,
        token_metadata_program,
        owner,
        nft_seller_token,
        nft_manager_token,
        metadata,
        sale_manager_key,
    ));
    actions
}

/// What a fixed-price listing is given: the seller (`owner`, who signs), the pool, the
/// token's mint and registry entry, the sale manager, a settlement record to fill, the
/// seller's and the escrow holding account for the token, the pool pot, and the two
/// programs requests go to.
#[derive(Clone, Debug, PartialEq, Eq)]
pub struct SellNft {
    pub owner: Address,
    pub pool: Stored<Pool>,
    pub nft_mint: Address,
    pub metadata: RawAccount,
    pub sale_manager: Stored<SaleManager>,
    pub sale_pot: Stored<SalePot>,
    pub nft_seller_token: RawAccount,
    pub nft_manager_token: RawAccount,
    pub manager_pot: RawAccount,
    pub token_metadata_program: Address,
    pub token_program: Address,
}

impl SellNft {
    /// The holding accounts and the registry entry that the supplied bytes encode;
    /// refused when any of them does not decode.
    pub open spec fn accounts(self) -> Result<(ListingAccounts, MetadataRecordView), TransitionError> {
        match (
            read_token_account(self.manager_pot.data@),
            read_token_account(self.nft_seller_token.data@),
            read_token_account(self.nft_manager_token.data@),
            read_registry_entry(self.metadata.data@),
        ) {
            (Ok(manager_pot), Ok(nft_seller_token), Ok(nft_manager_token), Ok(metadata)) => Ok(
                (ListingAccounts { manager_pot, nft_seller_token, nft_manager_token }, metadata),
            ),
            _ => Err(TransitionError::InvalidAccountData),
        }
    }

    /// The first rule that the listing breaks, if it breaks any.
    pub open spec fn refusal(self, accounts: ListingAccounts) -> Option<PoolError> {
        listing_refusal(
            self.owner,
            self.nft_mint,
            self.pool.record.sale_mint,
            self.sale_manager.key,
            accounts,
        )
    }

    /// The sale manager after the listing: listed by the seller at the price, for sale
    /// at a fixed price, with the escrow account and the settlement record noted.
    pub open spec fn listed_manager(self, price: u64) -> SaleManager {
        SaleManager {
            sale_pot: self.sale_pot.key,
            seller: self.owner,
            price,
            sale_state: SALE_LISTED,
            nft_pot: self.nft_manager_token.key,
            is_auction_mode: false,
            ..self.sale_manager.record
        }
    }

    /// The settlement record after the listing.
    pub open spec fn listed_pot(self, metadata: MetadataRecordView, price: u64) -> SalePotView {
        listed_pot(self.sale_manager.key, self.manager_pot.key, self.owner, metadata, price)
    }

    /// The requests of the listing.
    pub open spec fn actions(self) -> Seq<ActionView> {
        listing_actions(
            self.token_program,
            self.token_metadata_program,
            self.owner,
            self.nft_seller_token.key,
            self.nft_manager_token.key,
            self.metadata.key,
            self.sale_manager.key,
        )
    }

    /// `after` is `self` with the sale manager and the settlement record of a listing
    /// at `price`, and nothing else changed.
    pub open spec fn listed(self, after: SellNft, metadata: MetadataRecordView, price: u64) -> bool {
        &&& after == (SellNft {
            sale_manager: Stored {
                key: self.sale_manager.key,
                record: self.listed_manager(price),
            },
            sale_pot: after.sale_pot,
            ..self
        })
        &&& after.sale_pot.key == self.sale_pot.key
        &&& after.sale_pot.record@ == self.listed_pot(metadata, price)
    }

    /// Lists the token for sale at `price`, given the accounts as read.
    pub fn sell(&mut self, accounts: &ListingAccounts, metadata: &MetadataRecord, price: u64) -> (r:
        Result<Vec<Action>, PoolError>)
        ensures
            match r {
                Ok(actions) => {
                    &&& old(self).refusal(*accounts) is None
                    &&& old(self).listed(*final(self), metadata@, price)
                    &&& views(actions@) == old(self).actions()
                },
                Err(e) => old(self).refusal(*accounts) == Some(e) && *final(self) == *old(self),
            },
    {
        if accounts.nft_seller_token.owner != self.owner {
            return Err(PoolError::InvalidTokenAccount);
        }
        if accounts.nft_seller_token.mint != self.nft_mint {
            return Err(PoolError::InvalidTokenAccount);
        }
        if accounts.nft_manager_token.mint != self.nft_mint {
            return Err(PoolError::InvalidTokenAccount);
        }
        if accounts.manager_pot.mint != self.pool.record.sale_mint {
            return Err(PoolError::InvalidMintAccount);
        }
        if accounts.manager_pot.owner != self.sale_manager.key {
            return Err(PoolError::InvalidTokenAccount);
        }
        self.sale_manager.record.sale_pot = self.sale_pot.key;
        self.sale_manager.record.seller = self.owner;
        self.sale_manager.record.price = price;
        self.sale_manager.record.sale_state = SALE_LISTED;
        self.sale_manager.record.nft_pot = self.nft_manager_token.key;
        self.sale_manager.record.is_auction_mode = false;

        self.sale_pot.record.sale_manager = self.sale_manager.key;
        self.sale_pot.record.is_used = false;
        self.sale_pot.record.price = price;
        self.sale_pot.record.pool_pot = self.manager_pot.key;
        self.sale_pot.record.is_primary = !metadata.primary_sale_happened;
        self.sale_pot.record.seller_verified = !metadata.primary_sale_happened;
        self.sale_pot.record.seller = self.owner;
        self.sale_pot.record.seller_fee_basis_points = metadata.seller_fee_basis_points;
        self.sale_pot.record.creators = unpaid_creators(metadata);
        Ok(
            build_listing_actions(
                self.token_program,
                self.token_metadata_program,
                self.owner,
                self.nft_seller_token.key,
                self.nft_manager_token.key,
                self.metadata.key,
                self.sale_manager.key,
            ),
        )
    }
}

/// Lists the token for sale at `price`: reads the supplied accounts, then applies the
/// rules of `SellNft::sell`. A refusal leaves the records as they were.
pub fn sell_nft(ctx: &mut SellNft, price: u64) -> (r: Result<Vec<Action>, TransitionError>)
    ensures
        match old(ctx).accounts() {
            Err(e) => r == Err::<Vec<Action>, TransitionError>(e) && *final(ctx) == *old(ctx),
            Ok((accounts, metadata)) => match r {
                Ok(actions) => {
                    &&& old(ctx).refusal(accounts) is None
                    &&& old(ctx).listed(*final(ctx), metadata, price)
                    &&& views(actions@) == old(ctx).actions()
                },
                Err(e) => {
                    &&& old(ctx).refusal(accounts) matches Some(rule)
                    &&& e == TransitionError::Rule(rule)
                    &&& *final(ctx) == *old(ctx)
                },
            },
        },
{
    let manager_pot = match TokenAccount::decode(ctx.manager_pot.data.as_slice()) {
        Ok(t) => t,
        Err(e) => return Err(e),
    };
    let nft_seller_token = match TokenAccount::decode(ctx.nft_seller_token.data.as_slice()) {
        Ok(t) => t,
        Err(e) => return Err(e),
    };
    let nft_manager_token = match TokenAccount::decode(ctx.nft_manager_token.data.as_slice()) {
        Ok(t) => t,
        Err(e) => return Err(e),
    };
    let metadata = match MetadataRecord::decode(ctx.metadata.data.as_slice()) {
        Ok(m) => m,
        Err(e) => return Err(e),
    };
    let accounts = ListingAccounts { manager_pot, nft_seller_token, nft_manager_token };
    match ctx.sell(&accounts, &metadata, price) {
        Ok(actions) => Ok(actions),
        Err(rule) => Err(TransitionError::Rule(rule)),
    }
}

/// What a cancellation is given: the seller (`owner`, who signs), the pool, the token's
/// mint and registry entry, the sale manager, the seller's and the escrow holding
/// account for the token, and the two programs requests go to.
#[derive(Clone, Debug, PartialEq, Eq)]
pub struct RedeemNft {
    pub owner: Address,
    pub pool: Stored<Pool>,
    pub nft_mint: Address,
    pub metadata: RawAccount,
    pub sale_manager: Stored<SaleManager>,
    pub nft_seller_token: RawAccount,
    pub nft_manager_token: RawAccount,
    pub token_metadata_program: Address,
    pub token_program: Address,
}

/// The holding accounts of a cancellation, as read from their bytes.
#[derive(Clone, Copy, Debug, PartialEq, Eq)]
pub struct RedeemNftAccounts {
    pub nft_manager_token: TokenAccount,
    pub nft_seller_token: TokenAccount,
}

impl RedeemNft {
    /// The holding accounts that the supplied bytes encode; refused when any of them,
    /// or the registry entry, does not decode.
    pub open spec fn accounts(self) -> Result<RedeemNftAccounts, TransitionError> {
        match (
            read_token_account(self.nft_manager_token.data@),
            read_token_account(self.nft_seller_token.data@),
            read_registry_entry(self.metadata.data@),
        ) {
            (Ok(nft_manager_token), Ok(nft_seller_token), Ok(_)) => Ok(
                RedeemNftAccounts { nft_manager_token, nft_seller_token },
            ),
            _ => Err(TransitionError::InvalidAccountData),
        }
    }

    /// The first rule that the cancellation breaks, if it breaks any.
    pub open spec fn refusal(self, accounts: RedeemNftAccounts) -> Option<PoolError> {
        if self.sale_manager.record.sale_state != SALE_LISTED {
            Some(PoolError::InvalidSaleState)
        } else if self.sale_manager.record.nft_mint != self.nft_mint {
            Some(PoolError::InvalidMintAccount)
        } else if accounts.nft_manager_token.mint != self.nft_mint {
            Some(PoolError::InvalidTokenAccount)
        } else if accounts.nft_seller_token.mint != self.nft_mint {
            Some(PoolError::InvalidTokenAccount)
        } else if self.sale_manager.record.seller != self.owner {
            Some(PoolError::InvalidSeller)
        } else {
            None
        }
    }

    /// The seeds with which the sale manager signs.
    pub open spec fn seeds(self) -> SignerSeeds {
        SignerSeeds {
            pool: self.sale_manager.record.pool,
            nft_mint: self.sale_manager.record.nft_mint,
            bump: self.sale_manager.record.bump,
        }
    }

    /// The records after the cancellation: the token is no longer listed.
    pub open spec fn redeemed(self) -> RedeemNft {
        RedeemNft {
            sale_manager: Stored {
                key: self.sale_manager.key,
                record: SaleManager { sale_state: SALE_NONE, ..self.sale_manager.record },
            },
            ..self
        }
    }

    /// The requests of a cancellation: the token leaves escrow for the seller, who again
    /// becomes the one who may update the metadata.
    pub open spec fn actions(self) -> Seq<ActionView> {
        seq![
            ActionView::Transfer {
                program: self.token_program,
                source: self.nft_manager_token.key,
                destination: self.nft_seller_token.key,
                authority: self.sale_manager.key,
                amount: 1,
                seeds: Some(self.seeds()),
            },
            ActionView::UpdateAuthority {
                program: self.token_metadata_program,
                metadata: self.metadata.key,
                update_authority: self.sale_manager.key,
                new_update_authority: self.owner,
                seeds: Some(self.seeds()),
            },
        ]
    }

    /// Takes the listed token back, given the holding accounts as read.
    pub fn redeem(&mut self, accounts: &RedeemNftAccounts) -> (r: Result<Vec<Action>, PoolError>)
        ensures
            match r {
                Ok(actions) => {
                    &&& old(self).refusal(*accounts) is None
                    &&& *final(self) == old(self).redeemed()
                    &&& views(actions@) == old(self).actions()
                },
                Err(e) => old(self).refusal(*accounts) == Some(e) && *final(self) == *old(self),
            },
    {
        if self.sale_manager.record.sale_state != SALE_LISTED {
            return Err(PoolError::InvalidSaleState);
        }
        if self.sale_manager.record.nft_mint != self.nft_mint {
            return Err(PoolError::InvalidMintAccount);
        }
        if accounts.nft_manager_token.mint != self.nft_mint {
            return Err(PoolError::InvalidTokenAccount);
        }
        if accounts.nft_seller_token.mint != self.nft_mint {
            return Err(PoolError::InvalidTokenAccount);
        }
        if self.sale_manager.record.seller != self.owner {
            return Err(PoolError::InvalidSeller);
        }
        let seeds = SignerSeeds {
            pool: self.sale_manager.record.pool,
            nft_mint: self.sale_manager.record.nft_mint,
            bump: self.sale_manager.record.bump,
        };
        let actions = vec![
            Action::Transfer {
                program: self.token_program,
                source: self.nft_manager_token.key,
                destination: self.nft_seller_token.key,
                authority: self.sale_manager.key,
                amount: 1,
                seeds: Some(seeds),
            },
            Action::UpdateAuthority {
                program: self.token_metadata_program,
                metadata: self.metadata.key,
                update_authority: self.sale_manager.key,
                new_update_authority: self.owner,
                seeds: Some(seeds),
            },
        ];
        self.sale_manager.record.sale_state = SALE_NONE;
        assert(views(actions@) =~= old(self).actions());
        Ok(actions)
    }
}

/// Takes the listed token back: reads the supplied accounts, then applies the rules of
/// `RedeemNft::redeem`. A refusal leaves the records as they were.
pub fn redeem_nft(ctx: &mut RedeemNft) -> (r: Result<Vec<Action>, TransitionError>)
    ensures
        match old(ctx).accounts() {
            Err(e) => r == Err::<Vec<Action>, TransitionError>(e) && *final(ctx) == *old(ctx),
            Ok(accounts) => match r {
                Ok(actions) => {
                    &&& old(ctx).refusal(accounts) is None
                    &&& *final(ctx) == old(ctx).redeemed()
                    &&& views(actions@) == old(ctx).actions()
                },
                Err(e) => {
                    &&& old(ctx).refusal(accounts) matches Some(rule)
                    &&& e == TransitionError::Rule(rule)
                    &&& *final(ctx) == *old(ctx)
                },
            },
        },
{
    let nft_manager_token = match TokenAccount::decode(ctx.nft_manager_token.data.as_slice()) {
        Ok(t) => t,
        Err(e) => return Err(e),
    };
    let nft_seller_token = match TokenAccount::decode(ctx.nft_seller_token.data.as_slice()) {
        Ok(t) => t,
        Err(e) => return Err(e),
    };
    match MetadataRecord::decode(ctx.metadata.data.as_slice()) {
        Ok(_) => {},
        Err(e) => return Err(e),
    }
    let accounts = RedeemNftAccounts { nft_manager_token, nft_seller_token };
    match ctx.redeem(&accounts) {
        Ok(actions) => Ok(actions),
        Err(rule) => Err(TransitionError::Rule(rule)),
    }
}

} // verus!
