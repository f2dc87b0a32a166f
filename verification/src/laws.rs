use vstd::prelude::*;
use crate::action::{apply, apply_all, balance, can_apply, can_apply_all, ActionView, Balances};
use crate::address::Address;
use crate::auction::{clears_gap_tick, ClaimBid, ClaimBidAccounts, PlaceBid, PlaceBidAccounts};
use crate::error::PoolError;
use crate::listing::{
    listed_pot, listing_actions, ListingAccounts, RedeemNft, RedeemNftAccounts, SellNft,
};
use crate::purchase::BuyNft;
use crate::records::{
    share_sum, unpaid, Creator, SalePotView, AUCTION_ENDED, AUCTION_HAS_BID, MAX_CREATOR_NUM,
    SALE_NONE,
};
use crate::registry::MetadataRecordView;
use crate::settlement::{owed_share, paid_off, WithdrawFund};

verus! {

/// `after` differs from `before` only in that `amount` units have gone from `source`
/// to `destination`.
pub open spec fn moved(
    before: Balances,
    after: Balances,
    source: Address,
    destination: Address,
    amount: nat,
) -> bool {
    &&& balance(after, source) == balance(before, source) - amount
    &&& balance(after, destination) == balance(before, destination) + amount
    &&& forall|other: Address|
        other != source && other != destination ==> balance(after, other) == balance(
            before,
            other,
        )
}

/// What the token ledger holds in three accounts together.
pub open spec fn held_by(ledger: Balances, a: Address, b: Address, c: Address) -> nat {
    balance(ledger, a) + balance(ledger, b) + balance(ledger, c)
}

proof fn apply_all_one(ledger: Balances, a: ActionView)
    ensures
        apply_all(ledger, seq![a]) == apply(ledger, a),
        can_apply_all(ledger, seq![a]) == can_apply(ledger, a),
{
    reveal_with_fuel(apply_all, 2);
    reveal_with_fuel(can_apply_all, 2);
    assert(seq![a].drop_last() =~= Seq::<ActionView>::empty());
}

proof fn apply_all_two(ledger: Balances, a: ActionView, b: ActionView)
    ensures
        apply_all(ledger, seq![a, b]) == apply(apply(ledger, a), b),
        can_apply_all(ledger, seq![a, b]) == (can_apply(ledger, a) && can_apply(
            apply(ledger, a),
            b,
        )),
{
    apply_all_one(ledger, a);
    assert(seq![a, b].drop_last() =~= seq![a]);
}

proof fn apply_all_three(ledger: Balances, a: ActionView, b: ActionView, c: ActionView)
    ensures
        apply_all(ledger, seq![a, b, c]) == apply(apply(apply(ledger, a), b), c),
        can_apply_all(ledger, seq![a, b, c]) == (can_apply(ledger, a) && can_apply(
            apply(ledger, a),
            b,
        ) && can_apply(apply(apply(ledger, a), b), c)),
{
    apply_all_two(ledger, a, b);
    assert(seq![a, b, c].drop_last() =~= seq![a, b]);
}

proof fn apply_all_four(
    ledger: Balances,
    a: ActionView,
    b: ActionView,
    c: ActionView,
    d: ActionView,
)
    ensures
        apply_all(ledger, seq![a, b, c, d]) == apply(apply(apply(apply(ledger, a), b), c), d),
        can_apply_all(ledger, seq![a, b, c, d]) == (can_apply(ledger, a) && can_apply(
            apply(ledger, a),
            b,
        ) && can_apply(apply(apply(ledger, a), b), c) && can_apply(
            apply(apply(apply(ledger, a), b), c),
            d,
        )),
{
    apply_all_three(ledger, a, b, c);
    assert(seq![a, b, c, d].drop_last() =~= seq![a, b, c]);
}

/// A listing, at a fixed price or for auction, takes exactly one token from the
/// seller's holding account into escrow and changes no other holding; what the
/// seller's account, the escrow and any third account hold together stays the same.
/// It takes the two accounts to be different ones.
pub proof fn listing_escrows_one_token(
    token_program: Address,
    token_metadata_program: Address,
    owner: Address,
    nft_seller_token: Address,
    nft_manager_token: Address,
    metadata: Address,
    sale_manager_key: Address,
    ledger: Balances,
    third: Address,
)
    requires
        nft_seller_token != nft_manager_token,
        balance(ledger, nft_seller_token) >= 1,
        third != nft_seller_token,
        third != nft_manager_token,
    ensures
        ({
            let actions = listing_actions(
                token_program,
                token_metadata_program,
                owner,
                nft_seller_token,
                nft_manager_token,
                metadata,
                sale_manager_key,
            );
            let after = apply_all(ledger, actions);
            &&& can_apply_all(ledger, actions)
            &&& moved(ledger, after, nft_seller_token, nft_manager_token, 1)
            &&& held_by(after, nft_seller_token, nft_manager_token, third) == held_by(
                ledger,
                nft_seller_token,
                nft_manager_token,
                third,
            )
        }),
{
    let actions = listing_actions(
        token_program,
        token_metadata_program,
        owner,
        nft_seller_token,
        nft_manager_token,
        metadata,
        sale_manager_key,
    );
    apply_all_two(ledger, actions[0], actions[1]);
    assert(actions =~= seq![actions[0], actions[1]]);
}

/// A purchase takes exactly one token from escrow into the buyer's holding account
/// and exactly the price from the buyer's payment account into the pool pot, and
/// changes no other holding; what escrow, the buyer's token account and any third
/// account hold together stays the same. It takes the four accounts to be different
/// ones, and the buyer to hold the price, as an accepted purchase has checked.
pub proof fn purchase_releases_one_token(ctx: BuyNft, ledger: Balances, third: Address)
    requires
        ctx.nft_manager_token.key != ctx.nft_bidder_token.key,
        ctx.bidder_token.key != ctx.manager_pot.key,
        ctx.nft_manager_token.key != ctx.bidder_token.key,
        ctx.nft_manager_token.key != ctx.manager_pot.key,
        ctx.nft_bidder_token.key != ctx.bidder_token.key,
        ctx.nft_bidder_token.key != ctx.manager_pot.key,
        balance(ledger, ctx.nft_manager_token.key) >= 1,
        balance(ledger, ctx.bidder_token.key) >= ctx.sale_manager.record.price,
        third != ctx.nft_manager_token.key,
        third != ctx.nft_bidder_token.key,
        third != ctx.bidder_token.key,
        third != ctx.manager_pot.key,
    ensures
        ({
            let after = apply_all(ledger, ctx.actions());
            let escrow = ctx.nft_manager_token.key;
            let buyer = ctx.nft_bidder_token.key;
            let price = ctx.sale_manager.record.price as nat;
            &&& can_apply_all(ledger, ctx.actions())
            &&& balance(after, escrow) == balance(ledger, escrow) - 1
            &&& balance(after, buyer) == balance(ledger, buyer) + 1
            &&& balance(after, ctx.bidder_token.key) == balance(ledger, ctx.bidder_token.key)
                - price
            &&& balance(after, ctx.manager_pot.key) == balance(ledger, ctx.manager_pot.key) + price
            &&& balance(after, third) == balance(ledger, third)
            &&& held_by(after, escrow, buyer, third) == held_by(ledger, escrow, buyer, third)
        }),
{
    let actions = ctx.actions();
    apply_all_four(ledger, actions[0], actions[1], actions[2], actions[3]);
    assert(actions =~= seq![actions[0], actions[1], actions[2], actions[3]]);
}

/// A claim takes exactly one token from escrow into the claimant's holding account
/// and changes no other holding: no payment moves. What escrow, the claimant's
/// account and any third account hold together stays the same. It takes the two
/// accounts to be different ones.
pub proof fn claim_releases_one_token(ctx: ClaimBid, ledger: Balances, third: Address)
    requires
        ctx.nft_manager_token.key != ctx.nft_bidder_token.key,
        balance(ledger, ctx.nft_manager_token.key) >= 1,
        third != ctx.nft_manager_token.key,
        third != ctx.nft_bidder_token.key,
    ensures
        ({
            let after = apply_all(ledger, ctx.actions());
            let escrow = ctx.nft_manager_token.key;
            let claimant = ctx.nft_bidder_token.key;
            &&& can_apply_all(ledger, ctx.actions())
            &&& moved(ledger, after, escrow, claimant, 1)
            &&& held_by(after, escrow, claimant, third) == held_by(ledger, escrow, claimant, third)
        }),
{
    let actions = ctx.actions();
    apply_all_three(ledger, actions[0], actions[1], actions[2]);
    assert(actions =~= seq![actions[0], actions[1], actions[2]]);
}

/// A cancellation takes exactly one token from escrow back into the seller's holding
/// account and changes no other holding; what escrow, the seller's account and any
/// third account hold together stays the same. It takes the two accounts to be
/// different ones.
pub proof fn cancellation_releases_one_token(ctx: RedeemNft, ledger: Balances, third: Address)
    requires
        ctx.nft_manager_token.key != ctx.nft_seller_token.key,
        balance(ledger, ctx.nft_manager_token.key) >= 1,
        third != ctx.nft_manager_token.key,
        third != ctx.nft_seller_token.key,
    ensures
        ({
            let after = apply_all(ledger, ctx.actions());
            let escrow = ctx.nft_manager_token.key;
            let seller = ctx.nft_seller_token.key;
            &&& can_apply_all(ledger, ctx.actions())
            &&& moved(ledger, after, escrow, seller, 1)
            &&& held_by(after, escrow, seller, third) == held_by(ledger, escrow, seller, third)
        }),
{
    let actions = ctx.actions();
    apply_all_two(ledger, actions[0], actions[1]);
    assert(actions =~= seq![actions[0], actions[1]]);
}

/// A listing that its seller cancels before anyone buys is undone: the cancellation
/// is accepted, the token is no longer listed, every holding account holds what it
/// held before the listing, and the settlement record never allowed a withdrawal.
///
/// `sale` is the listing as it was asked for and `listed` what it left; `cancel` is
/// the cancellation, by the same seller with the same accounts, of what the listing
/// left. The sale manager is taken to be the one of the token listed, and the two
/// holding accounts to be different ones.
pub proof fn listing_then_cancellation_restores(
    sale: SellNft,
    sale_accounts: ListingAccounts,
    metadata: MetadataRecordView,
    price: u64,
    listed: SellNft,
    cancel: RedeemNft,
    cancel_accounts: RedeemNftAccounts,
    ledger: Balances,
)
    requires
        sale.refusal(sale_accounts) is None,
        sale.listed(listed, metadata, price),
        sale.sale_manager.record.nft_mint == sale.nft_mint,
        sale.nft_seller_token.key != sale.nft_manager_token.key,
        balance(ledger, sale.nft_seller_token.key) >= 1,
        cancel.owner == sale.owner,
        cancel.nft_mint == sale.nft_mint,
        cancel.sale_manager == listed.sale_manager,
        cancel.nft_seller_token.key == sale.nft_seller_token.key,
        cancel.nft_manager_token.key == sale.nft_manager_token.key,
        cancel_accounts.nft_seller_token.mint == sale_accounts.nft_seller_token.mint,
        cancel_accounts.nft_manager_token.mint == sale_accounts.nft_manager_token.mint,
    ensures
        cancel.refusal(cancel_accounts) is None,
        cancel.redeemed().sale_manager.record.sale_state == SALE_NONE,
        !listed.sale_pot.record.is_used,
        can_apply_all(ledger, sale.actions()),
        can_apply_all(apply_all(ledger, sale.actions()), cancel.actions()),
        forall|account: Address|
            balance(apply_all(apply_all(ledger, sale.actions()), cancel.actions()), account)
                == balance(ledger, account),
{
    let escrowed = apply_all(ledger, sale.actions());
    let s = sale.actions();
    let c = cancel.actions();
    apply_all_two(ledger, s[0], s[1]);
    assert(s =~= seq![s[0], s[1]]);
    apply_all_two(escrowed, c[0], c[1]);
    assert(c =~= seq![c[0], c[1]]);
}

/// A bid that is accepted while another bid stands is at least the standing bid
/// raised by the auction's step, and it becomes the price that the next bid has to
/// outdo.
pub proof fn accepted_bid_outdoes_standing_bid(
    ctx: PlaceBid,
    accounts: PlaceBidAccounts,
    price: u64,
)
    requires
        ctx.refusal(accounts, price) is None,
    ensures
        price >= ctx.sale_manager.record.price,
        ctx.has_standing_bid() ==> clears_gap_tick(
            price,
            ctx.sale_manager.record.price,
            ctx.auction_data.record.gap_tick_percentage,
        ),
        ctx.outbid(price).sale_manager.record.price == price,
        ctx.outbid(price).has_standing_bid(),
        ctx.outbid(price).auction_data.record.gap_tick_percentage
            == ctx.auction_data.record.gap_tick_percentage,
{
}

/// Of two bids accepted one after the other in the same auction, the second is at
/// least the first raised by the auction's step.
pub proof fn successive_bids_rise_by_the_step(
    first: PlaceBid,
    first_accounts: PlaceBidAccounts,
    first_price: u64,
    second: PlaceBid,
    second_accounts: PlaceBidAccounts,
    second_price: u64,
)
    requires
        first.refusal(first_accounts, first_price) is None,
        second.sale_manager == first.outbid(first_price).sale_manager,
        second.auction_data == first.outbid(first_price).auction_data,
        second.refusal(second_accounts, second_price) is None,
    ensures
        second_price * 100 >= first_price * (100 + first.auction_data.record.gap_tick_percentage),
{
}

/// A bid at or after the deadline is refused as too late and closes the auction,
/// whoever bids, whatever the amount and whatever accounts come with it: the auction
/// is over, the proceeds can be withdrawn, and the price, the standing bid and its
/// bidder are as they were. No payment is asked for, since a refusal asks for none.
pub proof fn late_bid_closes_auction(ctx: PlaceBid, accounts: PlaceBidAccounts, price: u64)
    requires
        ctx.unix_timestamp >= ctx.auction_data.record.ended_at,
    ensures
        ctx.refusal(accounts, price) == Some(PoolError::EndedAuction),
        ctx.lapses(),
        ctx.closed().auction_data.record.auction_state == AUCTION_ENDED,
        ctx.closed().sale_pot.record.is_used,
        ctx.closed().sale_manager == ctx.sale_manager,
        ctx.closed().auction_data.record.last_bidder == ctx.auction_data.record.last_bidder,
        ctx.closed().auction_data.record.last_bidder_token
            == ctx.auction_data.record.last_bidder_token,
        ctx.closed().auction_data.record.ended_at == ctx.auction_data.record.ended_at,
        ctx.closed().sale_pot.record.price == ctx.sale_pot.record.price,
{
}

/// Whatever becomes of a bid, the auction does not go back: its state stays as it
/// was, or becomes that of a standing bid or of a closed auction, and it never leaves
/// the closed state. `after` is what `PlaceBid::bid` leaves of `ctx`.
pub proof fn bid_moves_auction_forward(
    ctx: PlaceBid,
    accounts: PlaceBidAccounts,
    price: u64,
    after: PlaceBid,
)
    requires
        ctx.auction_data.record.auction_state <= AUCTION_ENDED,
        after == if ctx.refusal(accounts, price) is None {
            ctx.outbid(price)
        } else if ctx.lapses() {
            ctx.closed()
        } else {
            ctx
        },
    ensures
        after.auction_data.record.auction_state >= ctx.auction_data.record.auction_state,
        after.auction_data.record.auction_state == ctx.auction_data.record.auction_state
            || after.auction_data.record.auction_state == AUCTION_HAS_BID
            || after.auction_data.record.auction_state == AUCTION_ENDED,
        ctx.auction_data.record.auction_state == AUCTION_ENDED
            ==> after.auction_data.record.auction_state == AUCTION_ENDED,
        after.auction_data.record.ended_at == ctx.auction_data.record.ended_at,
{
}

/// Whatever becomes of a claim, the auction does not go back: its state stays as it
/// was or becomes that of a closed auction, and an accepted claim leaves it closed.
/// `after` is what `ClaimBid::claim` leaves of `ctx`.
pub proof fn claim_moves_auction_forward(ctx: ClaimBid, accounts: ClaimBidAccounts, after: ClaimBid)
    requires
        ctx.auction_data.record.auction_state <= AUCTION_ENDED,
        after == if ctx.refusal(accounts) is None {
            ctx.claimed()
        } else {
            ctx
        },
    ensures
        after.auction_data.record.auction_state >= ctx.auction_data.record.auction_state,
        ctx.refusal(accounts) is None ==> after.auction_data.record.auction_state
            == AUCTION_ENDED,
        after.auction_data.record.ended_at == ctx.auction_data.record.ended_at,
{
}

proof fn unpaid_keeps_shares(creators: Seq<Creator>)
    ensures
        share_sum(unpaid(Some(creators))) == share_sum(creators),
        unpaid(Some(creators)).len() == creators.len(),
    decreases creators.len(),
{
    if creators.len() > 0 {
        unpaid_keeps_shares(creators.drop_last());
        assert(unpaid(Some(creators)).drop_last() =~= unpaid(Some(creators.drop_last())));
    }
}

proof fn paying_keeps_shares(creators: Seq<Creator>, payee: Address)
    ensures
        share_sum(paid_off(creators, payee)) == share_sum(creators),
    decreases creators.len(),
{
    if creators.len() > 0 {
        paying_keeps_shares(creators.drop_last(), payee);
        assert(paid_off(creators, payee).drop_last() =~= paid_off(creators.drop_last(), payee));
    }
}

/// The registry entry names a royalty fee of at most 100%, at most as many recipients
/// as a settlement record has room for, and percentages that add up to at most 100.
pub open spec fn entry_is_sound(metadata: MetadataRecordView) -> bool {
    &&& metadata.seller_fee_basis_points <= 10000
    &&& match metadata.creators {
        Some(creators) => creators.len() <= MAX_CREATOR_NUM && share_sum(creators) <= 100,
        None => true,
    }
}

/// The settlement record of a listing is well formed whenever the registry entry it
/// was taken from is sound.
pub proof fn listing_makes_sound_record(
    sale_manager_key: Address,
    pool_pot: Address,
    seller: Address,
    metadata: MetadataRecordView,
    price: u64,
)
    requires
        entry_is_sound(metadata),
    ensures
        listed_pot(sale_manager_key, pool_pot, seller, metadata, price).wf(),
{
    match metadata.creators {
        Some(creators) => unpaid_keeps_shares(creators),
        None => {},
    }
}

/// A withdrawal leaves a well-formed settlement record well formed, and changes
/// neither its price nor what anyone's percentage is. Whoever was marked as paid
/// stays so: a mark is set once and never taken back.
pub proof fn withdrawal_keeps_record_sound(pot: SalePotView, payee: Address)
    requires
        pot.wf(),
    ensures
        pot.settled(payee).wf(),
        pot.settled(payee).price == pot.price,
        share_sum(pot.settled(payee).creators) == share_sum(pot.creators),
        pot.seller_verified ==> pot.settled(payee).seller_verified,
        pot.settled(payee).creators.len() == pot.creators.len(),
        forall|i: int|
            0 <= i < pot.creators.len() && pot.creators[i].verified ==> pot.settled(
                payee,
            ).creators[i].verified,
{
    paying_keeps_shares(pot.creators, payee);
}

/// The sum of the percentages of the recipients not paid yet.
pub open spec fn unpaid_share(creators: Seq<Creator>) -> nat
    decreases creators.len(),
{
    if creators.len() == 0 {
        0
    } else {
        unpaid_share(creators.drop_last()) + if creators.last().verified {
            0nat
        } else {
            creators.last().share as nat
        }
    }
}

/// All that one settlement record pays when `payees` withdraw one after the other,
/// each being paid in full what is owed at their turn.
pub open spec fn total_paid(pot: SalePotView, payees: Seq<Address>) -> nat
    decreases payees.len(),
{
    if payees.len() == 0 {
        0
    } else {
        let payee = payees.first();
        let next = if pot.owed(payee) > 0 {
            pot.settled(payee)
        } else {
            pot
        };
        pot.owed(payee) + total_paid(next, payees.drop_first())
    }
}

/// What a settlement record can still pay, in millionths of the price.
spec fn outstanding(pot: SalePotView) -> int {
    if pot.is_primary {
        10000 * (unpaid_share(pot.creators) as int)
    } else {
        (if pot.seller_verified {
            0int
        } else {
            (10000 - pot.seller_fee_basis_points) * 100
        }) + pot.seller_fee_basis_points * unpaid_share(pot.creators)
    }
}

proof fn unpaid_share_bounded(creators: Seq<Creator>)
    ensures
        unpaid_share(creators) <= share_sum(creators),
    decreases creators.len(),
{
    if creators.len() > 0 {
        unpaid_share_bounded(creators.drop_last());
    }
}

proof fn paying_lowers_unpaid_share(creators: Seq<Creator>, payee: Address)
    ensures
        unpaid_share(paid_off(creators, payee)) + owed_share(creators, payee) <= unpaid_share(
            creators,
        ),
        paid_off(creators, payee).len() == creators.len(),
    decreases creators.len(),
{
    if creators.len() > 0 {
        paying_lowers_unpaid_share(creators.drop_last(), payee);
        assert(paid_off(creators, payee).drop_last() =~= paid_off(creators.drop_last(), payee));
    }
}

proof fn nothing_owed_after_paying(creators: Seq<Creator>, payee: Address)
    ensures
        owed_share(paid_off(creators, payee), payee) == 0,
    decreases creators.len(),
{
    if creators.len() > 0 {
        nothing_owed_after_paying(creators.drop_last(), payee);
        assert(paid_off(creators, payee).drop_last() =~= paid_off(creators.drop_last(), payee));
    }
}

proof fn payment_lowers_outstanding(pot: SalePotView, payee: Address)
    requires
        pot.seller_fee_basis_points <= 10000,
    ensures
        pot.owed(payee) * 1000000 + pot.price * outstanding(pot.settled(payee)) <= pot.price
            * outstanding(pot),
{
    let price = pot.price as int;
    let fee = pot.seller_fee_basis_points as int;
    let s = owed_share(pot.creators, payee) as int;
    let u = unpaid_share(pot.creators) as int;
    let u2 = unpaid_share(paid_off(pot.creators, payee)) as int;
    paying_lowers_unpaid_share(pot.creators, payee);
    if pot.is_primary {
        let c = pot.creator_part(payee) as int;
        assert(c == price * s / 100);
        assert(c * 100 <= price * s) by (nonlinear_arith)
            requires
                c == price * s / 100,
        ;
        assert(c * 1000000 + price * (10000 * u2) <= price * (10000 * u)) by (nonlinear_arith)
            requires
                c * 100 <= price * s,
                u2 + s <= u,
                price >= 0,
        ;
    } else {
        let c = pot.creator_part(payee) as int;
        let p = pot.seller_part(payee) as int;
        assert(c == price * fee * s / 1000000);
        assert(c * 1000000 <= price * fee * s) by (nonlinear_arith)
            requires
                c == price * fee * s / 1000000,
        ;
        let before = if pot.seller_verified {
            0int
        } else {
            (10000 - fee) * 100
        };
        let after = if pot.settled(payee).seller_verified {
            0int
        } else {
            (10000 - fee) * 100
        };
        assert(p * 1000000 + price * after <= price * before) by {
            if !pot.seller_verified && pot.seller == payee {
                assert(p == price * (10000 - fee) / 10000);
                assert(p * 10000 <= price * (10000 - fee)) by (nonlinear_arith)
                    requires
                        p == price * (10000 - fee) / 10000,
                ;
                assert(after == 0);
                assert(p * 1000000 + price * after <= price * before) by (nonlinear_arith)
                    requires
                        p * 10000 <= price * (10000 - fee),
                        after == 0,
                        before == (10000 - fee) * 100,
                ;
            } else {
                assert(p == 0);
                assert(after == before);
            }
        }
        assert(c * 1000000 + price * (fee * u2) <= price * (fee * u)) by (nonlinear_arith)
            requires
                c * 1000000 <= price * fee * s,
                u2 + s <= u,
                price >= 0,
                fee >= 0,
        ;
        assert((p + c) * 1000000 + price * (after + fee * u2) <= price * (before + fee * u))
            by (nonlinear_arith)
            requires
                p * 1000000 + price * after <= price * before,
                c * 1000000 + price * (fee * u2) <= price * (fee * u),
        ;
    }
}

proof fn total_paid_within_outstanding(pot: SalePotView, payees: Seq<Address>)
    requires
        pot.seller_fee_basis_points <= 10000,
    ensures
        total_paid(pot, payees) * 1000000 <= pot.price * outstanding(pot),
    decreases payees.len(),
{
    if payees.len() == 0 {
        assert(pot.price * outstanding(pot) >= 0) by (nonlinear_arith)
            requires
                pot.price >= 0,
                outstanding(pot) >= 0,
        ;
    } else {
        let payee = payees.first();
        if pot.owed(payee) > 0 {
            payment_lowers_outstanding(pot, payee);
            total_paid_within_outstanding(pot.settled(payee), payees.drop_first());
        } else {
            total_paid_within_outstanding(pot, payees.drop_first());
        }
    }
}

/// However many withdrawals are made against one settlement record, and whoever makes
/// them in whatever order, all that is paid out together does not exceed the price.
pub proof fn payouts_never_exceed_price(pot: SalePotView, payees: Seq<Address>)
    requires
        pot.wf(),
    ensures
        total_paid(pot, payees) <= pot.price,
{
    total_paid_within_outstanding(pot, payees);
    unpaid_share_bounded(pot.creators);
    let price = pot.price as int;
    let out = outstanding(pot);
    let fee = pot.seller_fee_basis_points as int;
    let u = unpaid_share(pot.creators) as int;
    assert(out <= 1000000) by {
        if !pot.is_primary {
            assert(fee * u <= fee * 100) by (nonlinear_arith)
                requires
                    u <= 100,
                    fee >= 0,
            ;
        }
    }
    assert(price * out <= price * 1000000) by (nonlinear_arith)
        requires
            out <= 1000000,
            price >= 0,
    ;
}

/// A payee who was paid is owed nothing more: each part of a settlement is paid once.
pub proof fn paid_payee_is_owed_nothing(pot: SalePotView, payee: Address)
    ensures
        pot.settled(payee).owed(payee) == 0,
{
    nothing_owed_after_paying(pot.creators, payee);
    let s = pot.settled(payee);
    assert(s.price * 0 / 100 == 0);
    assert(s.price * s.seller_fee_basis_points * 0 / 1000000 == 0) by (nonlinear_arith);
}

/// After an accepted withdrawal, a second one by the same payee against the same
/// settlement record is refused: nothing is owed, so nothing is paid twice.
pub proof fn second_withdrawal_is_refused(first: WithdrawFund, after: WithdrawFund)
    requires
        first.refusal() is None,
        first.withdrawn(after),
    ensures
        after.refusal() == Some(PoolError::InvalidAmount),
{
    paid_payee_is_owed_nothing(first.sale_pot.record@, first.owner);
}

} // verus!
