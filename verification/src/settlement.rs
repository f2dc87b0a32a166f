use vstd::prelude::*;
use crate::action::{views, Action, ActionView, SignerSeeds};
use crate::address::Address;
use crate::error::{PoolError, TransitionError};
use crate::ledger::{read_token_account, RawAccount, TokenAccount};
use crate::records::{Creator, SaleManager, SalePot, SalePotView, Stored};

verus! {

/// What a withdrawal is given: the payee (`owner`, who signs), the sale manager, the
/// settlement record, the pool pot, the holding account to pay into, and the token
/// program.
#[derive(Clone, Debug, PartialEq, Eq)]
pub struct WithdrawFund {
    pub owner: Address,
    pub sale_manager: Stored<SaleManager>,
    pub sale_pot: Stored<SalePot>,
    pub pool_pot: RawAccount,
    pub withdraw_pot: Address,
    pub token_program: Address,
}

/// The percentage owed to `payee` as a recipient: that of the last entry with the
/// payee's address that is not paid yet, and 0 where there is none.
pub open spec fn owed_share(creators: Seq<Creator>, payee: Address) -> nat
    decreases creators.len(),
{
    if creators.len() == 0 {
        0
    } else if !creators.last().verified && creators.last().address == payee {
        creators.last().share as nat
    } else {
        owed_share(creators.drop_last(), payee)
    }
}

/// The recipients after `payee` was paid: every entry with the payee's address is
/// marked as paid, the others are as they were.
pub open spec fn paid_off(creators: Seq<Creator>, payee: Address) -> Seq<Creator> {
    Seq::new(
        creators.len(),
        |i: int|
            if creators[i].address == payee {
                Creator { verified: true, ..creators[i] }
            } else {
                creators[i]
            },
    )
}

impl SalePotView {
    /// What `payee` is owed as the seller: on a resale, once, the price less the
    /// royalty fee, rounded down.
    pub open spec fn seller_part(self, payee: Address) -> nat {
        if !self.is_primary && !self.seller_verified && self.seller == payee {
            (self.price * (10000 - self.seller_fee_basis_points) / 10000) as nat
        } else {
            0
        }
    }

    /// What `payee` is owed as a recipient, rounded down: on a first sale the owed
    /// percentage of the price, on a resale the owed percentage of the royalty fee.
    pub open spec fn creator_part(self, payee: Address) -> nat {
        if self.is_primary {
            (self.price * owed_share(self.creators, payee) / 100) as nat
        } else {
            (self.price * self.seller_fee_basis_points * owed_share(self.creators, payee)
                / 1000000) as nat
        }
    }

    /// What `payee` is owed in all.
    pub open spec fn owed(self, payee: Address) -> nat {
        self.seller_part(payee) + self.creator_part(payee)
    }

    /// The record after `payee` was paid all that is owed.
    pub open spec fn settled(self, payee: Address) -> SalePotView {
        SalePotView {
            seller_verified: self.seller_verified || (!self.is_primary && self.seller == payee),
            creators: paid_off(self.creators, payee),
            ..self
        }
    }
}

/// The smaller of what is owed and what the pool pot holds.
pub open spec fn payable(owed: nat, held: u64) -> u64 {
    if owed > held {
        held
    } else {
        owed as u64
    }
}

/// The percentage owed to `payee` as a recipient.
fn find_owed_share(creators: &Vec<Creator>, payee: &Address) -> (share: u8)
    ensures
        share == owed_share(creators@, *payee),
{
    let mut share: u8 = 0;
    let mut i: usize = 0;
    while i < creators.len()
        invariant
            i <= creators.len(),
            share == owed_share(creators@.subrange(0, i as int), *payee),
        decreases creators.len() - i,
    {
        assert(creators@.subrange(0, i + 1).drop_last() =~= creators@.subrange(0, i as int));
        if !creators[i].verified && creators[i].address == *payee {
            share = creators[i].share;
        }
        i += 1;
    }
    assert(creators@.subrange(0, i as int) =~= creators@);
    share
}

/// The recipients with every entry of `payee` marked as paid.
fn mark_paid(creators: &Vec<Creator>, payee: &Address) -> (marked: Vec<Creator>)
    ensures
        marked@ == paid_off(creators@, *payee),
{
    let mut marked: Vec<Creator> = Vec::new();
    let mut i: usize = 0;
    while i < creators.len()
        invariant
            i <= creators.len(),
            marked@ == paid_off(creators@, *payee).subrange(0, i as int),
        decreases creators.len() - i,
    {
        let c = creators[i];
        if c.address == *payee {
            marked.push(Creator { address: c.address, verified: true, share: c.share });
        } else {
            marked.push(c);
        }
        i += 1;
    }
    assert(marked@ =~= paid_off(creators@, *payee));
    marked
}

/// What `payee` is owed in all from the settlement record. On a resale the royalty
/// fee is taken from the price, so it must not be above the whole of it; on a first
/// sale the fee is not read.
pub fn amount_owed(pot: &SalePot, payee: &Address) -> (amount: u128)
    requires
        !pot.is_primary ==> pot.seller_fee_basis_points <= 10000,
    ensures
        amount == pot@.owed(*payee),
{
    let share: u128 = find_owed_share(&pot.creators, payee) as u128;
    let price: u128 = pot.price as u128;
    let fee: u128 = pot.seller_fee_basis_points as u128;
    if pot.is_primary {
        assert(price * share <= 0xffff_ffff_ffff_ffff * 255) by (nonlinear_arith)
            requires
                price <= 0xffff_ffff_ffff_ffff,
                share <= 255,
        ;
        price * share / 100
    } else {
        assert(price * (10000 - fee) <= 0xffff_ffff_ffff_ffff * 10000) by (nonlinear_arith)
            requires
                price <= 0xffff_ffff_ffff_ffff,
                fee <= 10000,
        ;
        assert(price * fee <= 0xffff_ffff_ffff_ffff * 10000) by (nonlinear_arith)
            requires
                price <= 0xffff_ffff_ffff_ffff,
                fee <= 10000,
        ;
        assert(price * fee * share <= 0xffff_ffff_ffff_ffff * 10000 * 255) by (nonlinear_arith)
            requires
                price * fee <= 0xffff_ffff_ffff_ffff * 10000,
                share <= 255,
        ;
        let seller_part: u128 = if !pot.seller_verified && pot.seller == *payee {
            price * (10000 - fee) / 10000
        } else {
            0
        };
        seller_part + price * fee * share / 1000000
    }
}

impl WithdrawFund {
    /// The pool pot that the supplied bytes encode; refused when they do not decode.
    pub open spec fn accounts(self) -> Result<TokenAccount, TransitionError> {
        read_token_account(self.pool_pot.data@)
    }

    /// The sale has not settled, so nothing can be withdrawn yet.
    pub open spec fn is_early(self) -> bool {
        !self.sale_pot.record.is_used
    }

    /// The rule that the withdrawal breaks, if it breaks one: the sale must have
    /// settled, and something must be owed to the payee.
    pub open spec fn refusal(self) -> Option<PoolError> {
        if self.is_early() {
            Some(PoolError::NotAllowedWithdrawFund)
        } else if self.sale_pot.record@.owed(self.owner) == 0 {
            Some(PoolError::InvalidAmount)
        } else {
            None
        }
    }

    /// The seeds with which the sale manager signs.
    pub open spec fn seeds(self) -> SignerSeeds {
        SignerSeeds {
            pool: self.sale_manager.record.pool,
            nft_mint: self.sale_manager.record.nft_mint,
            bump: self.sale_manager.record.bump,
        }
    }

    /// What is paid out: all that is owed, or what the pool pot holds if that is less.
    pub open spec fn paid(self, pool_pot: TokenAccount) -> u64 {
        payable(self.sale_pot.record@.owed(self.owner), pool_pot.amount)
    }

    /// The one request of a withdrawal: the payment from the pool pot.
    pub open spec fn actions(self, pool_pot: TokenAccount) -> Seq<ActionView> {
        seq![
            ActionView::Transfer {
                program: self.token_program,
                source: self.pool_pot.key,
                destination: self.withdraw_pot,
                authority: self.sale_manager.key,
                amount: self.paid(pool_pot),
                seeds: Some(self.seeds()),
            },
        ]
    }

    /// `after` is `self` with the payee marked as paid in the settlement record, and
    /// nothing else changed.
    pub open spec fn withdrawn(self, after: WithdrawFund) -> bool {
        &&& after == (WithdrawFund { sale_pot: after.sale_pot, ..self })
        &&& after.sale_pot.key == self.sale_pot.key
        &&& after.sale_pot.record@ == self.sale_pot.record@.settled(self.owner)
    }

    /// Pays the payee what the settled sale owes them, given the pool pot as read.
    pub fn withdraw(&mut self, pool_pot: &TokenAccount) -> (r: Result<Vec<Action>, PoolError>)
        requires
            !old(self).sale_pot.record.is_primary ==> old(
                self,
            ).sale_pot.record.seller_fee_basis_points <= 10000,
        ensures
            match r {
                Ok(actions) => {
                    &&& old(self).refusal() is None
                    &&& old(self).withdrawn(*final(self))
                    &&& views(actions@) == old(self).actions(*pool_pot)
                },
                Err(e) => old(self).refusal() == Some(e) && *final(self) == *old(self),
            },
    {
        if !self.sale_pot.record.is_used {
            return Err(PoolError::NotAllowedWithdrawFund);
        }
        let owed = amount_owed(&self.sale_pot.record, &self.owner);
        if owed == 0 {
            return Err(PoolError::InvalidAmount);
        }
        let amount: u64 = if owed > pool_pot.amount as u128 {
            pool_pot.amount
        } else {
            owed as u64
        };
        if !self.sale_pot.record.is_primary && self.sale_pot.record.seller == self.owner {
            self.sale_pot.record.seller_verified = true;
        }
        self.sale_pot.record.creators = mark_paid(&self.sale_pot.record.creators, &self.owner);
        let actions = vec![
            Action::Transfer {
                program: self.token_program,
                source: self.pool_pot.key,
                destination: self.withdraw_pot,
                authority: self.sale_manager.key,
                amount,
                seeds: Some(
                    SignerSeeds {
                        pool: self.sale_manager.record.pool,
                        nft_mint: self.sale_manager.record.nft_mint,
                        bump: self.sale_manager.record.bump,
                    },
                ),
            },
        ];
        assert(views(actions@) =~= old(self).actions(*pool_pot));
        Ok(actions)
    }
}

/// Pays the payee what the settled sale owes them. A sale that has not settled is
/// refused before anything is read; then the pool pot is read and the rules of
/// `WithdrawFund::withdraw` applied. A refusal leaves the records as they were.
pub fn withdraw_fund(ctx: &mut WithdrawFund) -> (r: Result<Vec<Action>, TransitionError>)
    requires
        !old(ctx).sale_pot.record.is_primary ==> old(ctx).sale_pot.record.seller_fee_basis_points
            <= 10000,
    ensures
        old(ctx).is_early() ==> r == Err::<Vec<Action>, TransitionError>(
            TransitionError::Rule(PoolError::NotAllowedWithdrawFund),
        ) && *final(ctx) == *old(ctx),
        !old(ctx).is_early() ==> match old(ctx).accounts() {
            Err(e) => r == Err::<Vec<Action>, TransitionError>(e) && *final(ctx) == *old(ctx),
            Ok(pool_pot) => match r {
                Ok(actions) => {
                    &&& old(ctx).refusal() is None
                    &&& old(ctx).withdrawn(*final(ctx))
                    &&& views(actions@) == old(ctx).actions(pool_pot)
                },
                Err(e) => {
                    &&& old(ctx).refusal() matches Some(rule)
                    &&& e == TransitionError::Rule(rule)
                    &&& *final(ctx) == *old(ctx)
                },
            },
        },
{
    if !ctx.sale_pot.record.is_used {
        return Err(TransitionError::Rule(PoolError::NotAllowedWithdrawFund));
    }
    let pool_pot = match TokenAccount::decode(ctx.pool_pot.data.as_slice()) {
        Ok(t) => t,
        Err(e) => return Err(e),
    };
    match ctx.withdraw(&pool_pot) {
        Ok(actions) => Ok(actions),
        Err(rule) => Err(TransitionError::Rule(rule)),
    }
}

} // verus!
