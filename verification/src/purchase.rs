use vstd::prelude::*;
use crate::action::{views, Action, ActionView, SignerSeeds};
use crate::address::Address;
use crate::error::{PoolError, TransitionError};
use crate::ledger::{read_token_account, RawAccount, TokenAccount};
use crate::records::{Pool, SaleManager, SalePot, Stored, SALE_LISTED, SALE_SETTLING};
use crate::registry::{read_registry_entry, MetadataRecord};

verus! {

/// What a fixed-price purchase is given: the buyer (`owner`, who signs), the pool, the
/// token's mint and registry entry, the listing's records, the escrow and the buyer's
/// holding accounts for the token (`nft_manager_token`, `nft_bidder_token`) and for the
/// payment currency (`manager_pot`, `bidder_token`), and the two programs requests go to.
#[derive(Clone, Debug, PartialEq, Eq)]
pub struct BuyNft {
    pub owner: Address,
    pub pool: Stored<Pool>,
    pub nft_mint: Address,
    pub metadata: RawAccount,
    pub sale_manager: Stored<SaleManager>,
    pub sale_pot: Stored<SalePot>,
    pub nft_manager_token: RawAccount,
    pub nft_bidder_token: RawAccount,
    pub manager_pot: RawAccount,
    pub bidder_token: RawAccount,
    pub token_metadata_program: Address,
    pub token_program: Address,
}

/// The holding accounts of a purchase, as read from their bytes.
#[derive(Clone, Copy, Debug, PartialEq, Eq)]
pub struct BuyNftAccounts {
    pub nft_manager_token: TokenAccount,
    pub nft_bidder_token: TokenAccount,
    pub manager_pot: TokenAccount,
    pub bidder_token: TokenAccount,
}

impl BuyNft {
    /// The holding accounts that the supplied bytes encode; refused when any of them,
    /// or the registry entry, does not decode.
    pub open spec fn accounts(self) -> Result<BuyNftAccounts, TransitionError> {
        match (
            read_token_account(self.nft_manager_token.data@),
            read_token_account(self.nft_bidder_token.data@),
            read_token_account(self.manager_pot.data@),
            read_token_account(self.bidder_token.data@),
            read_registry_entry(self.metadata.data@),
        ) {
            (Ok(nft_manager_token), Ok(nft_bidder_token), Ok(manager_pot), Ok(bidder_token), Ok(_)) => Ok(
                BuyNftAccounts { nft_manager_token, nft_bidder_token, manager_pot, bidder_token },
            ),
            _ => Err(TransitionError::InvalidAccountData),
        }
    }

    /// The first rule that the purchase breaks, if it breaks any.
    pub open spec fn refusal(self, accounts: BuyNftAccounts) -> Option<PoolError> {
        if accounts.nft_manager_token.mint != self.nft_mint {
            Some(PoolError::InvalidTokenAccount)
        } else if accounts.nft_bidder_token.mint != self.nft_mint {
            Some(PoolError::InvalidTokenAccount)
        } else if accounts.manager_pot.mint != self.pool.record.sale_mint {
            Some(PoolError::InvalidTokenAccount)
        } else if accounts.bidder_token.mint != self.pool.record.sale_mint {
            Some(PoolError::InvalidTokenAccount)
        } else if accounts.bidder_token.owner != self.owner {
            Some(PoolError::InvalidTokenAccount)
        } else if accounts.bidder_token.amount < self.sale_manager.record.price {
            Some(PoolError::NotEnoughTokenAmount)
        } else if self.sale_manager.record.sale_state != SALE_LISTED {
            Some(PoolError::InvalidSaleState)
        } else if self.sale_pot.record.pool_pot != self.manager_pot.key {
            Some(PoolError::InvalidTokenAccount)
        } else if self.sale_manager.record.nft_mint != self.nft_mint {
            Some(PoolError::InvalidMintAccount)
        } else if self.sale_manager.record.seller == self.owner {
            Some(PoolError::InvalidBidder)
        } else if self.sale_manager.record.is_auction_mode {
            Some(PoolError::InvalidAuctionMode)
        } else {
            None
        }
    }

    /// The seeds with which the sale manager signs.
    pub open spec fn seeds(self) -> SignerSeeds {
        SignerSeeds {
            pool: self.sale_manager.record.pool,
            nft_mint: self.sale_manager.record.nft_mint,
            bump: self.sale_manager.record.bump,
        }
    }

    /// The records after the purchase: the sale is settling and its proceeds can be
    /// withdrawn.
    pub open spec fn bought(self) -> BuyNft {
        BuyNft {
            sale_manager: Stored {
                key: self.sale_manager.key,
                record: SaleManager { sale_state: SALE_SETTLING, ..self.sale_manager.record },
            },
            sale_pot: Stored {
                key: self.sale_pot.key,
                record: SalePot { is_used: true, ..self.sale_pot.record },
            },
            ..self
        }
    }

    /// The requests of a purchase: the price is paid into the pool pot, the first sale
    /// is recorded, the token leaves escrow for the buyer, and the buyer becomes the
    /// one who may update the metadata.
    pub open spec fn actions(self) -> Seq<ActionView> {
        seq![
            ActionView::Transfer {
                program: self.token_program,
                source: self.bidder_token.key,
                destination: self.manager_pot.key,
                authority: self.owner,
                amount: self.sale_manager.record.price,
                seeds: None,
            },
            ActionView::MarkPrimarySale {
                program: self.token_metadata_program,
                metadata: self.metadata.key,
                owner: self.sale_manager.key,
                token: self.nft_manager_token.key,
                seeds: Some(self.seeds()),
            },
            ActionView::Transfer {
                program: self.token_program,
                source: self.nft_manager_token.key,
                destination: self.nft_bidder_token.key,
                authority: self.sale_manager.key,
                amount: 1,
                seeds: Some(self.seeds()),
            },
            ActionView::UpdateAuthority {
                program: self.token_metadata_program,
                metadata: self.metadata.key,
                update_authority: self.sale_manager.key,
                new_update_authority: self.owner,
                seeds: Some(self.seeds()),
            },
        ]
    }

    /// Buys the listed token at its price, given the holding accounts as read.
    pub fn buy(&mut self, accounts: &BuyNftAccounts) -> (r: Result<Vec<Action>, PoolError>)
        ensures
            match r {
                Ok(actions) => {
                    &&& old(self).refusal(*accounts) is None
                    &&& *final(self) == old(self).bought()
                    &&& views(actions@) == old(self).actions()
                },
                Err(e) => old(self).refusal(*accounts) == Some(e) && *final(self) == *old(self),
            },
    {
        if accounts.nft_manager_token.mint != self.nft_mint {
            return Err(PoolError::InvalidTokenAccount);
        }
        if accounts.nft_bidder_token.mint != self.nft_mint {
            return Err(PoolError::InvalidTokenAccount);
        }
        if accounts.manager_pot.mint != self.pool.record.sale_mint {
            return Err(PoolError::InvalidTokenAccount);
        }
        if accounts.bidder_token.mint != self.pool.record.sale_mint {
            return Err(PoolError::InvalidTokenAccount);
        }
        if accounts.bidder_token.owner != self.owner {
            return Err(PoolError::InvalidTokenAccount);
        }
        if accounts.bidder_token.amount < self.sale_manager.record.price {
            return Err(PoolError::NotEnoughTokenAmount);
        }
        if self.sale_manager.record.sale_state != SALE_LISTED {
            return Err(PoolError::InvalidSaleState);
        }
        if self.sale_pot.record.pool_pot != self.manager_pot.key {
            return Err(PoolError::InvalidTokenAccount);
        }
        if self.sale_manager.record.nft_mint != self.nft_mint {
            return Err(PoolError::InvalidMintAccount);
        }
        if self.sale_manager.record.seller == self.owner {
            return Err(PoolError::InvalidBidder);
        }
        if self.sale_manager.record.is_auction_mode {
            return Err(PoolError::InvalidAuctionMode);
        }
        let seeds = SignerSeeds {
            pool: self.sale_manager.record.pool,
            nft_mint: self.sale_manager.record.nft_mint,
            bump: self.sale_manager.record.bump,
        };
        let actions = vec![
            Action::Transfer {
                program: self.token_program,
                source: self.bidder_token.key,
                destination: self.manager_pot.key,
                authority: self.owner,
                amount: self.sale_manager.record.price,
                seeds: None,
            },
            Action::MarkPrimarySale {
                program: self.token_metadata_program,
                metadata: self.metadata.key,
                owner: self.sale_manager.key,
                token: self.nft_manager_token.key,
                seeds: Some(seeds),
            },
            Action::Transfer {
                program: self.token_program,
                source: self.nft_manager_token.key,
                destination: self.nft_bidder_token.key,
                authority: self.sale_manager.key,
                amount: 1,
                seeds: Some(seeds),
            },
            Action::UpdateAuthority {
                program: self.token_metadata_program,
                metadata: self.metadata.key,
                update_authority: self.sale_manager.key,
                new_update_authority: self.owner,
                seeds: Some(seeds),
            },
        ];
        self.sale_manager.record.sale_state = SALE_SETTLING;
        self.sale_pot.record.is_used = true;
        assert(views(actions@) =~= old(self).actions());
        Ok(actions)
    }
}

/// Buys the listed token at its price: reads the supplied accounts, then applies the
/// rules of `BuyNft::buy`. A refusal leaves the records as they were.
pub fn buy_nft(ctx: &mut BuyNft) -> (r: Result<Vec<Action>, TransitionError>)
    ensures
        match old(ctx).accounts() {
            Err(e) => r == Err::<Vec<Action>, TransitionError>(e) && *final(ctx) == *old(ctx),
            Ok(accounts) => match r {
                Ok(actions) => {
                    &&& old(ctx).refusal(accounts) is None
                    &&& *final(ctx) == old(ctx).bought()
                    &&& views(actions@) == old(ctx).actions()
                },
                Err(e) => {
                    &&& old(ctx).refusal(accounts) matches Some(rule)
                    &&& e == TransitionError::Rule(rule)
                    &&& *final(ctx) == *old(ctx)
                },
            },
        },
{
    let nft_manager_token = match TokenAccount::decode(ctx.nft_manager_token.data.as_slice()) {
        Ok(t) => t,
        Err(e) => return Err(e),
    };
    let nft_bidder_token = match TokenAccount::decode(ctx.nft_bidder_token.data.as_slice()) {
        Ok(t) => t,
        Err(e) => return Err(e),
    };
    let manager_pot = match TokenAccount::decode(ctx.manager_pot.data.as_slice()) {
        Ok(t) => t,
        Err(e) => return Err(e),
    };
    let bidder_token = match TokenAccount::decode(ctx.bidder_token.data.as_slice()) {
        Ok(t) => t,
        Err(e) => return Err(e),
    };
    match MetadataRecord::decode(ctx.metadata.data.as_slice()) {
        Ok(_) => {},
        Err(e) => return Err(e),
    }
    let accounts = BuyNftAccounts { nft_manager_token, nft_bidder_token, manager_pot, bidder_token };
    match ctx.buy(&accounts) {
        Ok(actions) => Ok(actions),
        Err(rule) => Err(TransitionError::Rule(rule)),
    }
}

} // verus!
