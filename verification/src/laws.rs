use vstd::prelude::*;

use crate::error::EscrowError;
use crate::instructions::make::Make;
use crate::instructions::refund::Refund;
use crate::instructions::take::Take;
use crate::instructions::update::Update;
use crate::program::make_outcome;
use crate::program::refund_outcome;
use crate::program::take_outcome;
use crate::program::update_outcome;
use crate::state::lemma_share_monotone;
use crate::state::lemma_share_within;
use crate::state::AuctionTerms;
use crate::state::Escrow;
use crate::state::Phase;
use crate::transfer::EscrowSigner;
use crate::transfer::Settlement;

verus! {

/// The price never leaves the range between the opening price and the floor.
pub proof fn lemma_price_between(escrow: Escrow, now: int)
    ensures
        escrow.receive >= escrow.minimum_receive ==> escrow.minimum_receive <= escrow.spec_price_at(
            now,
        ) <= escrow.receive,
        escrow.receive < escrow.minimum_receive ==> escrow.receive <= escrow.spec_price_at(now)
            <= escrow.minimum_receive,
{
    if escrow.exclusive_until < now < escrow.decay_ends_at {
        let spread = if escrow.receive >= escrow.minimum_receive {
            escrow.receive - escrow.minimum_receive
        } else {
            escrow.minimum_receive - escrow.receive
        };
        lemma_share_within(
            spread,
            now - escrow.exclusive_until,
            escrow.decay_ends_at - escrow.exclusive_until,
        );
    }
}

/// The price is the opening price up to the end of the exclusive window and
/// the floor from the end of the decay on.
pub proof fn lemma_price_endpoints(escrow: Escrow, now: int)
    ensures
        now <= escrow.exclusive_until ==> escrow.spec_price_at(now) == escrow.receive,
        escrow.exclusive_until < escrow.decay_ends_at <= now ==> escrow.spec_price_at(now)
            == escrow.minimum_receive,
{
}

/// A Dutch auction: while the opening price is at least the floor (as it is
/// in every well-formed offer, which `make` opens and `update` keeps), the
/// price never rises as time passes.
pub proof fn lemma_price_non_increasing(escrow: Escrow, earlier: int, later: int)
    requires
        escrow.receive >= escrow.minimum_receive,
        earlier <= later,
    ensures
        escrow.spec_price_at(later) <= escrow.spec_price_at(earlier),
{
    lemma_price_between(escrow, earlier);
    lemma_price_between(escrow, later);
    if escrow.exclusive_until < earlier && later < escrow.decay_ends_at {
        lemma_share_monotone(
            escrow.receive - escrow.minimum_receive,
            earlier - escrow.exclusive_until,
            later - escrow.exclusive_until,
            escrow.decay_ends_at - escrow.exclusive_until,
        );
    }
}

/// Every offer that `make` accepts is stored well formed, with the opening
/// price at least the floor, and is still pending at the time it was made:
/// nobody can take it yet and its maker can cancel it.
pub proof fn lemma_make_opens_pending_offer(
    ctx: Make,
    seed: u64,
    deposit: u64,
    terms: AuctionTerms,
    bump: u8,
    now: int,
)
    requires
        make_outcome(ctx, seed, deposit, terms, bump, now) is Ok,
    ensures
        ({
            let (transfer, after) = make_outcome(ctx, seed, deposit, terms, bump, now)->Ok_0;
            let escrow = after.escrow->Some_0;
            &&& after.escrow is Some
            &&& escrow.well_formed()
            &&& escrow.receive >= escrow.minimum_receive
            &&& escrow.spec_phase(now) == Phase::Pending
            &&& transfer.amount == deposit
            &&& transfer.amount > 0
            // token A goes from the maker's account into the vault, signed by
            // the maker, with mint A's decimals, through the given token program
            &&& transfer.from == ctx.maker_ata_a && transfer.to == ctx.vault
            &&& transfer.mint == ctx.mint_a && transfer.decimals == ctx.mint_a_decimals
            &&& transfer.authority == ctx.maker && transfer.signer is None
            &&& transfer.token_program == ctx.token_program
            // the escrow records the offer as made
            &&& escrow.seed == seed && escrow.bump == bump
            &&& escrow.maker == ctx.maker && escrow.mint_a == ctx.mint_a
            &&& escrow.mint_b == ctx.mint_b
            &&& escrow.receive == terms.receive
            &&& escrow.minimum_receive == terms.minimum_receive
            &&& escrow.preferred_taker == terms.preferred_taker
            &&& escrow.starts_at == terms.starts_at
            &&& escrow.exclusive_until == terms.exclusive_until
            &&& escrow.decay_ends_at == terms.decay_ends_at
            &&& escrow.expiration == terms.expiration
            // nothing else about the accounts changes
            &&& after.maker == ctx.maker && after.mint_a == ctx.mint_a
            &&& after.mint_b == ctx.mint_b && after.maker_ata_a == ctx.maker_ata_a
            &&& after.vault == ctx.vault && after.mint_a_decimals == ctx.mint_a_decimals
            &&& after.token_program == ctx.token_program
        }),
{
}

/// `update` keeps an escrow well formed and changes nothing but its opening price.
pub proof fn lemma_update_changes_only_the_price(ctx: Update, receive: u64)
    requires
        ctx.escrow.well_formed(),
        update_outcome(ctx, receive) is Ok,
    ensures
        ({
            let after = update_outcome(ctx, receive)->Ok_0;
            &&& after.well_formed()
            &&& after.receive == receive
            &&& after.seed == ctx.escrow.seed
            &&& after.maker == ctx.escrow.maker
            &&& after.mint_a == ctx.escrow.mint_a
            &&& after.mint_b == ctx.escrow.mint_b
            &&& after.minimum_receive == ctx.escrow.minimum_receive
            &&& after.preferred_taker == ctx.escrow.preferred_taker
            &&& after.starts_at == ctx.escrow.starts_at
            &&& after.exclusive_until == ctx.escrow.exclusive_until
            &&& after.decay_ends_at == ctx.escrow.decay_ends_at
            &&& after.bump == ctx.escrow.bump
            &&& after.expiration == ctx.escrow.expiration
        }),
{
}

/// Only the maker the escrow records can change its price or get its tokens
/// back; anybody else is refused by the `has_one` constraint.
pub proof fn lemma_only_the_maker_updates_or_refunds(
    update: Update,
    receive: u64,
    refund: Refund,
    now: int,
)
    ensures
        update.escrow.maker@ != update.maker@ ==> update_outcome(update, receive) == Err::<
            Escrow,
            EscrowError,
        >(EscrowError::ConstraintHasOne),
        refund.escrow.maker@ != refund.maker@ ==> refund_outcome(refund, now) == Err::<
            Settlement,
            EscrowError,
        >(EscrowError::ConstraintHasOne),
{
}

/// A take settles exactly: the taker pays the current price in token B from
/// its account to the maker's, receives the whole vault of token A, and the
/// closed vault's rent goes to the taker and the escrow's to the maker.
pub proof fn lemma_take_swaps_exact_amounts(ctx: Take, now: int)
    requires
        take_outcome(ctx, now) is Ok,
    ensures
        ({
            let s = take_outcome(ctx, now)->Ok_0;
            let payment = s.payment->Some_0;
            &&& s.payment is Some
            &&& payment.amount == ctx.escrow.spec_price_at(now)
            &&& payment.from == ctx.taker_ata_b && payment.to == ctx.maker_ata_b
            &&& payment.mint@ == ctx.escrow.mint_b@ && payment.authority == ctx.taker
            &&& s.release.amount == ctx.vault_amount && ctx.vault_amount > 0
            &&& s.release.from == ctx.vault && s.release.to == ctx.taker_ata_a
            &&& s.release.mint@ == ctx.escrow.mint_a@
            &&& s.vault_rent_to == ctx.taker
            &&& s.escrow_rent_to == ctx.maker
            // each transfer carries the decimals of the mint it moves
            &&& payment.decimals == ctx.mint_b_decimals
            &&& s.release.decimals == ctx.mint_a_decimals
            // the taker signs its payment; the vault's owner, the escrow,
            // signs the release with the escrow's seeds
            &&& payment.signer is None
            &&& s.release.authority == ctx.escrow_address
            &&& s.release.signer == Some(
                EscrowSigner { maker: ctx.escrow.maker, seed: ctx.escrow.seed, bump: ctx.escrow.bump },
            )
            &&& s.release.signer->Some_0.maker@ == ctx.maker@
            &&& payment.token_program == ctx.token_program
            &&& s.release.token_program == ctx.token_program
        }),
{
    lemma_price_between(ctx.escrow, now);
}

/// On a well-formed offer, every take charges a price between the floor and
/// the opening price, the opening price up to the end of the exclusive window
/// and the floor from the end of the decay; and a later take never charges
/// more than an earlier one.
pub proof fn lemma_take_price_decays(first: Take, second: Take, earlier: int, later: int)
    requires
        first.escrow == second.escrow,
        first.escrow.well_formed(),
        take_outcome(first, earlier) is Ok,
        take_outcome(second, later) is Ok,
        earlier <= later,
    ensures
        ({
            let e = first.escrow;
            let p1 = take_outcome(first, earlier)->Ok_0.payment->Some_0.amount;
            let p2 = take_outcome(second, later)->Ok_0.payment->Some_0.amount;
            &&& e.minimum_receive <= p1 <= e.receive
            &&& e.minimum_receive <= p2 <= e.receive
            &&& earlier <= e.exclusive_until ==> p1 == e.receive
            &&& later >= e.decay_ends_at ==> p2 == e.minimum_receive
            &&& p2 <= p1
        }),
{
    lemma_price_between(first.escrow, earlier);
    lemma_price_between(first.escrow, later);
    lemma_price_non_increasing(first.escrow, earlier, later);
}

/// A refund returns the whole vault to the maker's token A account, moves no
/// token B, and hands the rent of both closed accounts to the maker.
pub proof fn lemma_refund_returns_the_whole_vault(ctx: Refund, now: int)
    requires
        refund_outcome(ctx, now) is Ok,
    ensures
        ({
            let s = refund_outcome(ctx, now)->Ok_0;
            &&& s.payment is None
            &&& s.release.amount == ctx.vault_amount
            &&& s.release.from == ctx.vault && s.release.to == ctx.maker_ata_a
            &&& s.release.mint@ == ctx.escrow.mint_a@
            &&& s.vault_rent_to == ctx.maker
            &&& s.escrow_rent_to == ctx.maker
            // the release carries mint A's decimals and is signed by the
            // vault's owner, the escrow, with the escrow's seeds
            &&& s.release.decimals == ctx.mint_a_decimals
            &&& s.release.authority == ctx.escrow_address
            &&& s.release.signer == Some(
                EscrowSigner { maker: ctx.escrow.maker, seed: ctx.escrow.seed, bump: ctx.escrow.bump },
            )
            &&& s.release.signer->Some_0.maker@ == ctx.maker@
            &&& s.release.token_program == ctx.token_program
        }),
{
}

/// At no moment can an offer be both taken and refunded: a take needs the
/// auction to be running, a refund needs it not to be.
pub proof fn lemma_take_and_refund_never_both(take: Take, refund: Refund, now: int)
    requires
        take.escrow == refund.escrow,
    ensures
        !(take_outcome(take, now) is Ok && refund_outcome(refund, now) is Ok),
{
}

/// While an offer runs, an eligible taker can always take it, and otherwise
/// its maker can always get the tokens back: some party can always act.
pub proof fn lemma_someone_can_always_act(take: Take, refund: Refund, now: int)
    requires
        take.escrow == refund.escrow,
        take.spec_accounts_match(),
        refund.spec_accounts_match(),
        take.vault_amount > 0,
        take.escrow.spec_is_preferred(take.taker) || now >= take.escrow.exclusive_until,
    ensures
        take_outcome(take, now) is Ok || refund_outcome(refund, now) is Ok,
{
}

/// During the exclusive window only the preferred taker can take the offer.
pub proof fn lemma_exclusive_window_belongs_to_the_preferred_taker(take: Take, now: int)
    requires
        take.escrow.starts_at <= now < take.escrow.exclusive_until,
        !take.escrow.spec_is_preferred(take.taker),
    ensures
        take_outcome(take, now) is Err,
{
}

/// Once expired, an offer can always be reclaimed by its maker, and never taken.
pub proof fn lemma_expired_offer_goes_back_to_the_maker(take: Take, refund: Refund, now: int)
    requires
        refund.spec_accounts_match(),
        now >= refund.escrow.expiration,
        take.escrow == refund.escrow,
    ensures
        refund_outcome(refund, now) is Ok,
        take_outcome(take, now) is Err,
{
}

/// Opening and then cancelling an offer before its auction starts gives the
/// maker back exactly what it deposited.
pub proof fn lemma_make_then_refund_returns_the_deposit(
    ctx: Make,
    seed: u64,
    deposit: u64,
    terms: AuctionTerms,
    bump: u8,
    made_at: int,
    refund: Refund,
    now: int,
)
    requires
        make_outcome(ctx, seed, deposit, terms, bump, made_at) is Ok,
        refund.escrow == make_outcome(ctx, seed, deposit, terms, bump, made_at)->Ok_0.1.escrow->Some_0,
        refund.maker == ctx.maker,
        refund.mint_a == ctx.mint_a,
        refund.maker_ata_a == ctx.maker_ata_a,
        refund.vault_amount == deposit,
        now < terms.starts_at,
    ensures
        refund_outcome(refund, now) is Ok,
        refund_outcome(refund, now)->Ok_0.payment is None,
        refund_outcome(refund, now)->Ok_0.release.amount == deposit,
        refund_outcome(refund, now)->Ok_0.release.from == refund.vault,
        refund_outcome(refund, now)->Ok_0.release.to == ctx.maker_ata_a,
        refund_outcome(refund, now)->Ok_0.vault_rent_to == ctx.maker,
        refund_outcome(refund, now)->Ok_0.escrow_rent_to == ctx.maker,
{
}

/// After an update, a take at the end of the exclusive window (or during it,
/// by the preferred taker) charges exactly the new price.
pub proof fn lemma_update_then_take_charges_the_new_price(
    update: Update,
    receive: u64,
    take: Take,
    now: int,
)
    requires
        update_outcome(update, receive) is Ok,
        take.escrow == update_outcome(update, receive)->Ok_0,
        take.spec_accounts_match(),
        take.vault_amount > 0,
        take.escrow.starts_at <= now <= take.escrow.exclusive_until,
        now < take.escrow.expiration,
        now < take.escrow.exclusive_until ==> take.escrow.spec_is_preferred(take.taker),
    ensures
        take_outcome(take, now) is Ok,
        take_outcome(take, now)->Ok_0.payment->Some_0.amount == receive,
{
}

} // verus!
