use vstd::prelude::*;
use crate::address::Address;
use crate::records::{Metadata, MetadataView};

verus! {

/// The seeds from which a sale manager's address is derived, with which it signs.
#[derive(Clone, Copy, Debug, PartialEq, Eq)]
pub struct SignerSeeds {
    pub pool: Address,
    pub nft_mint: Address,
    pub bump: u8,
}

/// One request that a transition makes of the token ledger or of the metadata
/// registry. A transition's requests are carried out in order, all or none.
#[derive(Clone, Debug, PartialEq, Eq)]
pub enum Action {
    /// Issue `amount` new units of `mint` to `account`, by authority of `owner`.
    MintTo { program: Address, mint: Address, account: Address, owner: Address, amount: u64 },
    /// Move `amount` units from `source` to `destination`, by authority of `authority`,
    /// which signs itself or, where `seeds` are given, is signed for by the marketplace.
    Transfer {
        program: Address,
        source: Address,
        destination: Address,
        authority: Address,
        amount: u64,
        seeds: Option<SignerSeeds>,
    },
    /// Register metadata for `mint`.
    CreateMetadata {
        program: Address,
        metadata: Address,
        mint: Address,
        mint_authority: Address,
        payer: Address,
        update_authority: Address,
        data: Metadata,
        update_authority_is_signer: bool,
    },
    /// Designate `mint` a master with the given limit of editions.
    CreateMasterEdition {
        program: Address,
        edition: Address,
        mint: Address,
        update_authority: Address,
        mint_authority: Address,
        metadata: Address,
        payer: Address,
        max_supply: Option<u64>,
    },
    /// Hand the right to update `metadata` from `update_authority` to
    /// `new_update_authority`.
    UpdateAuthority {
        program: Address,
        metadata: Address,
        update_authority: Address,
        new_update_authority: Address,
        seeds: Option<SignerSeeds>,
    },
    /// Record that the first sale of the token held in `token` has happened.
    MarkPrimarySale {
        program: Address,
        metadata: Address,
        owner: Address,
        token: Address,
        seeds: Option<SignerSeeds>,
    },
}

/// The mathematical content of an `Action`.
pub enum ActionView {
    MintTo { program: Address, mint: Address, account: Address, owner: Address, amount: u64 },
    Transfer {
        program: Address,
        source: Address,
        destination: Address,
        authority: Address,
        amount: u64,
        seeds: Option<SignerSeeds>,
    },
    CreateMetadata {
        program: Address,
        metadata: Address,
        mint: Address,
        mint_authority: Address,
        payer: Address,
        update_authority: Address,
        data: MetadataView,
        update_authority_is_signer: bool,
    },
    CreateMasterEdition {
        program: Address,
        edition: Address,
        mint: Address,
        update_authority: Address,
        mint_authority: Address,
        metadata: Address,
        payer: Address,
        max_supply: Option<u64>,
    },
    UpdateAuthority {
        program: Address,
        metadata: Address,
        update_authority: Address,
        new_update_authority: Address,
        seeds: Option<SignerSeeds>,
    },
    MarkPrimarySale {
        program: Address,
        metadata: Address,
        owner: Address,
        token: Address,
        seeds: Option<SignerSeeds>,
    },
}

impl View for Action {
    type V = ActionView;

    open spec fn view(&self) -> ActionView {
        match *self {
            Action::MintTo { program, mint, account, owner, amount } => ActionView::MintTo {
                program,
                mint,
                account,
                owner,
                amount,
            },
            Action::Transfer {
                program,
                source,
                destination,
                authority,
                amount,
                seeds,
            } => ActionView::Transfer { program, source, destination, authority, amount, seeds },
            Action::CreateMetadata {
                program,
                metadata,
                mint,
                mint_authority,
                payer,
                update_authority,
                data,
                update_authority_is_signer,
            } => ActionView::CreateMetadata {
                program,
                metadata,
                mint,
                mint_authority,
                payer,
                update_authority,
                data: data@,
                update_authority_is_signer,
            },
            Action::CreateMasterEdition {
                program,
                edition,
                mint,
                update_authority,
                mint_authority,
                metadata,
                payer,
                max_supply,
            } => ActionView::CreateMasterEdition {
                program,
                edition,
                mint,
                update_authority,
                mint_authority,
                metadata,
                payer,
                max_supply,
            },
            Action::UpdateAuthority {
                program,
                metadata,
                update_authority,
                new_update_authority,
                seeds,
            } => ActionView::UpdateAuthority {
                program,
                metadata,
                update_authority,
                new_update_authority,
                seeds,
            },
            Action::MarkPrimarySale {
                program,
                metadata,
                owner,
                token,
                seeds,
            } => ActionView::MarkPrimarySale { program, metadata, owner, token, seeds },
        }
    }
}

/// The contents of a list of requests, in order.
pub open spec fn views(actions: Seq<Action>) -> Seq<ActionView> {
    Seq::new(actions.len(), |i: int| actions[i]@)
}

/// What each holding account of the token ledger holds; an account not in the map
/// holds nothing.
pub type Balances = Map<Address, nat>;

/// The amount that `account` holds.
pub open spec fn balance(ledger: Balances, account: Address) -> nat {
    if ledger.dom().contains(account) {
        ledger[account]
    } else {
        0
    }
}

/// The token ledger can carry out `action`: a transfer needs its amount at the source.
pub open spec fn can_apply(ledger: Balances, action: ActionView) -> bool {
    match action {
        ActionView::Transfer { source, amount, .. } => balance(ledger, source) >= amount,
        _ => true,
    }
}

/// The holdings after the token ledger has carried out `action`. Requests to the
/// metadata registry leave them as they are.
pub open spec fn apply(ledger: Balances, action: ActionView) -> Balances {
    match action {
        ActionView::Transfer { source, destination, amount, .. } => {
            let debited = ledger.insert(source, (balance(ledger, source) - amount) as nat);
            debited.insert(destination, (balance(debited, destination) + amount) as nat)
        },
        ActionView::MintTo { account, amount, .. } => ledger.insert(
            account,
            (balance(ledger, account) + amount) as nat,
        ),
        _ => ledger,
    }
}

/// The token ledger can carry out all of `actions`, one after the other.
pub open spec fn can_apply_all(ledger: Balances, actions: Seq<ActionView>) -> bool
    decreases actions.len(),
{
    if actions.len() == 0 {
        true
    } else {
        can_apply_all(ledger, actions.drop_last()) && can_apply(
            apply_all(ledger, actions.drop_last()),
            actions.last(),
        )
    }
}

/// The holdings after the token ledger has carried out all of `actions` in order.
pub open spec fn apply_all(ledger: Balances, actions: Seq<ActionView>) -> Balances
    decreases actions.len(),
{
    if actions.len() == 0 {
        ledger
    } else {
        apply(apply_all(ledger, actions.drop_last()), actions.last())
    }
}

} // verus!
