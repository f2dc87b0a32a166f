use vstd::prelude::*;
use crate::address::Address;
use crate::error::TransitionError;
use crate::ledger::{read_mint, MintState, RawAccount};
use crate::records::{Pool, Stored};

verus! {

/// What the creation of a pool is given: the record to fill, the owner-to-be (who
/// signs), and the mint of the payment currency.
#[derive(Clone, Debug, PartialEq, Eq)]
pub struct InitPool {
    pub pool: Stored<Pool>,
    pub owner: Address,
    pub sale_mint: RawAccount,
}

impl InitPool {
    /// The pool after its creation: owned by the owner, trading in the mint supplied.
    pub open spec fn created(self) -> InitPool {
        InitPool {
            pool: Stored {
                key: self.pool.key,
                record: Pool { owner: self.owner, sale_mint: self.sale_mint.key },
            },
            ..self
        }
    }
}

/// Creates a pool for one payment currency. It is refused, and the record left as it
/// was, exactly when the account supplied for the currency does not hold a mint.
pub fn init_pool(ctx: &mut InitPool) -> (r: Result<(), TransitionError>)
    ensures
        match read_mint(old(ctx).sale_mint.data@) {
            Ok(_) => r is Ok && *final(ctx) == old(ctx).created(),
            Err(e) => r == Err::<(), TransitionError>(e) && *final(ctx) == *old(ctx),
        },
{
    match MintState::decode(ctx.sale_mint.data.as_slice()) {
        Ok(_) => {},
        Err(e) => return Err(e),
    }
    ctx.pool.record.owner = ctx.owner;
    ctx.pool.record.sale_mint = ctx.sale_mint.key;
    Ok(())
}

/// What a change of owner is given: the pool, the caller (`owner`, who signs), and the
/// owner-to-be.
#[derive(Clone, Copy, Debug, PartialEq, Eq)]
pub struct SetAuthority {
    pub pool: Stored<Pool>,
    pub owner: Address,
    pub new_owner: Address,
}

impl SetAuthority {
    /// The caller is the owner that the pool records.
    pub open spec fn is_authorized(self) -> bool {
        self.pool.record.owner == self.owner
    }

    /// The pool after the change: owned by the new owner, and otherwise as it was.
    pub open spec fn transferred(self) -> SetAuthority {
        SetAuthority {
            pool: Stored {
                key: self.pool.key,
                record: Pool { owner: self.new_owner, ..self.pool.record },
            },
            ..self
        }
    }
}

/// Hands the pool to a new owner. Only the current owner may do so; anyone else is
/// refused and the pool is left as it was.
pub fn set_authority(ctx: &mut SetAuthority) -> (r: Result<(), TransitionError>)
    ensures
        old(ctx).is_authorized() ==> r is Ok && *final(ctx) == old(ctx).transferred(),
        !old(ctx).is_authorized() ==> r == Err::<(), TransitionError>(
            TransitionError::NotPoolOwner,
        ) && *final(ctx) == *old(ctx),
{
    if ctx.pool.record.owner != ctx.owner {
        return Err(TransitionError::NotPoolOwner);
    }
    ctx.pool.record.owner = ctx.new_owner;
    Ok(())
}

} // verus!
