use vstd::prelude::*;
use crate::action::{views, Action, ActionView};
use crate::address::Address;
use crate::error::{PoolError, TransitionError};
use crate::ledger::{read_mint, read_token_account, MintState, RawAccount, TokenAccount};
use crate::records::{unpaid, unpaid_copy, Metadata, MetadataView, Pool, Stored};

verus! {

/// What the minting of a unique token is given: the minter (`owner`, who signs and
/// pays), the pool, the fresh mint, the holding account that receives the token, the
/// addresses of the registry entry and of the master designation, and the two
/// programs requests go to.
#[derive(Clone, Debug, PartialEq, Eq)]
pub struct MintNft {
    pub owner: Address,
    pub pool: Stored<Pool>,
    pub mint: RawAccount,
    pub token_account: RawAccount,
    pub metadata: Address,
    pub master_edition: Address,
    pub token_metadata_program: Address,
    pub token_program: Address,
}

impl MintNft {
    /// The mint and the holding account that the supplied bytes encode; refused when
    /// one of them does not decode.
    pub open spec fn accounts(self) -> Result<(MintState, TokenAccount), TransitionError> {
        match (read_mint(self.mint.data@), read_token_account(self.token_account.data@)) {
            (Ok(mint), Ok(token_account)) => Ok((mint, token_account)),
            _ => Err(TransitionError::InvalidAccountData),
        }
    }

    /// The first rule that the minting breaks, if it breaks any: the mint must be
    /// indivisible and have issued nothing, and the receiving account must be of it.
    pub open spec fn refusal(self, mint: MintState, token_account: TokenAccount) -> Option<
        PoolError,
    > {
        if mint.decimals != 0 {
            Some(PoolError::InvalidMintAccount)
        } else if mint.supply != 0 {
            Some(PoolError::InvalidMintAccount)
        } else if token_account.mint != self.mint.key {
            Some(PoolError::InvalidTokenAccount)
        } else {
            None
        }
    }

    /// The requests of a minting: one unit is issued to the receiving account, the
    /// metadata is registered with the minter as its authority and with every
    /// recipient unconfirmed, and the mint is designated a master without a limit of
    /// editions.
    pub open spec fn actions(self, data: MetadataView) -> Seq<ActionView> {
        seq![
            ActionView::MintTo {
                program: self.token_program,
                mint: self.mint.key,
                account: self.token_account.key,
                owner: self.owner,
                amount: 1,
            },
            ActionView::CreateMetadata {
                program: self.token_metadata_program,
                metadata: self.metadata,
                mint: self.mint.key,
                mint_authority: self.owner,
                payer: self.owner,
                update_authority: self.owner,
                data: MetadataView { creators: unpaid(Some(data.creators)), ..data },
                update_authority_is_signer: true,
            },
            ActionView::CreateMasterEdition {
                program: self.token_metadata_program,
                edition: self.master_edition,
                mint: self.mint.key,
                update_authority: self.owner,
                mint_authority: self.owner,
                metadata: self.metadata,
                payer: self.owner,
                max_supply: None,
            },
        ]
    }

    /// Mints one unique token described by `data`, given the mint and the receiving
    /// account as read.
    pub fn mint(&self, mint: &MintState, token_account: &TokenAccount, data: Metadata) -> (r: Result<
        Vec<Action>,
        PoolError,
    >)
        ensures
            match r {
                Ok(actions) => {
                    &&& self.refusal(*mint, *token_account) is None
                    &&& views(actions@) == self.actions(data@)
                },
                Err(e) => self.refusal(*mint, *token_account) == Some(e),
            },
    {
        if mint.decimals != 0 {
            return Err(PoolError::InvalidMintAccount);
        }
        if mint.supply != 0 {
            return Err(PoolError::InvalidMintAccount);
        }
        if token_account.mint != self.mint.key {
            return Err(PoolError::InvalidTokenAccount);
        }
        let ghost given = data@;
        let Metadata { name, symbol, uri, seller_fee_basis_points, creators, is_mutable } = data;
        let unconfirmed = unpaid_copy(&creators);
        let actions = vec![
            Action::MintTo {
                program: self.token_program,
                mint: self.mint.key,
                account: self.token_account.key,
                owner: self.owner,
                amount: 1,
            },
            Action::CreateMetadata {
                program: self.token_metadata_program,
                metadata: self.metadata,
                mint: self.mint.key,
                mint_authority: self.owner,
                payer: self.owner,
                update_authority: self.owner,
                data: Metadata {
                    name,
                    symbol,
                    uri,
                    seller_fee_basis_points,
                    creators: unconfirmed,
                    is_mutable,
                },
                update_authority_is_signer: true,
            },
            Action::CreateMasterEdition {
                program: self.token_metadata_program,
                edition: self.master_edition,
                mint: self.mint.key,
                update_authority: self.owner,
                mint_authority: self.owner,
                metadata: self.metadata,
                payer: self.owner,
                max_supply: None,
            },
        ];
        assert(views(actions@) =~= self.actions(given));
        Ok(actions)
    }
}

/// Mints one unique token described by `data`: reads the supplied accounts, then
/// applies the rules of `MintNft::mint`.
pub fn mint_nft(ctx: &MintNft, data: Metadata) -> (r: Result<Vec<Action>, TransitionError>)
    ensures
        match ctx.accounts() {
            Err(e) => r == Err::<Vec<Action>, TransitionError>(e),
            Ok((mint, token_account)) => match r {
                Ok(actions) => {
                    &&& ctx.refusal(mint, token_account) is None
                    &&& views(actions@) == ctx.actions(data@)
                },
                Err(e) => {
                    &&& ctx.refusal(mint, token_account) matches Some(rule)
                    &&& e == TransitionError::Rule(rule)
                },
            },
        },
{
    let mint = match MintState::decode(ctx.mint.data.as_slice()) {
        Ok(m) => m,
        Err(e) => return Err(e),
    };
    let token_account = match TokenAccount::decode(ctx.token_account.data.as_slice()) {
        Ok(t) => t,
        Err(e) => return Err(e),
    };
    match ctx.mint(&mint, &token_account, data) {
        Ok(actions) => Ok(actions),
        Err(rule) => Err(TransitionError::Rule(rule)),
    }
}

} // verus!
