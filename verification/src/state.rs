use vstd::prelude::*;
use vstd::arithmetic::div_mod::lemma_div_is_ordered;
use vstd::arithmetic::div_mod::lemma_div_multiples_vanish;
use vstd::arithmetic::div_mod::lemma_div_pos_is_pos;
use vstd::arithmetic::mul::lemma_mul_inequality;
use vstd::arithmetic::mul::lemma_mul_upper_bound;

use crate::pubkey::Pubkey;

verus! {

/// What the maker asks for when opening an offer.
#[derive(Clone, Copy, Debug)]
pub struct AuctionTerms {
    /// Opening token B price.
    pub receive: u64,
    /// Lowest token B price after the Dutch-auction decay.
    pub minimum_receive: u64,
    /// Optional taker with exclusive access at the start of the auction.
    pub preferred_taker: Option<Pubkey>,
    pub starts_at: i64,
    pub exclusive_until: i64,
    pub decay_ends_at: i64,
    pub expiration: i64,
}

/// The state stored for one open offer.
#[derive(Clone, Copy, Debug)]
pub struct Escrow {
    pub seed: u64,
    pub maker: Pubkey,
    pub mint_a: Pubkey,
    pub mint_b: Pubkey,
    /// Opening token B price.
    pub receive: u64,
    /// Lowest token B price after the Dutch-auction decay.
    pub minimum_receive: u64,
    /// Optional taker with exclusive access at the start of the auction.
    pub preferred_taker: Option<Pubkey>,
    pub starts_at: i64,
    pub exclusive_until: i64,
    pub decay_ends_at: i64,
    pub bump: u8,
    pub expiration: i64,
}

/// Where an offer stands at a given moment.
#[derive(Clone, Copy, Debug, PartialEq, Eq, Structural)]
pub enum Phase {
    /// Before `starts_at`: nobody can take; the maker can cancel.
    Pending,
    /// From `starts_at` until `exclusive_until`: only the preferred taker can take, at the opening price.
    Exclusive,
    /// From `exclusive_until` until `decay_ends_at`: anyone can take; the price moves towards the floor.
    Decaying,
    /// From `decay_ends_at` until `expiration`: anyone can take at the floor price.
    Floor,
    /// From `expiration` on: nobody can take; the maker can reclaim the tokens.
    Expired,
}

/// The order that a schedule must keep: the exclusive window is empty exactly
/// when there is no preferred taker, and decay and expiry come strictly later.
pub open spec fn schedule_ordered(
    has_preferred_taker: bool,
    starts_at: int,
    exclusive_until: int,
    decay_ends_at: int,
    expiration: int,
) -> bool {
    &&& starts_at <= exclusive_until
    &&& exclusive_until < decay_ends_at
    &&& decay_ends_at < expiration
    &&& if has_preferred_taker {
        starts_at < exclusive_until
    } else {
        starts_at == exclusive_until
    }
}

/// The price after `elapsed` of `duration` seconds of a linear move from
/// `opening` to `floor`, rounded towards the opening price.
pub open spec fn decayed_price(opening: int, floor: int, elapsed: int, duration: int) -> int {
    if opening >= floor {
        opening - (opening - floor) * elapsed / duration
    } else {
        opening + (floor - opening) * elapsed / duration
    }
}

/// `spread * elapsed / duration` lies between 0 and `spread` while `elapsed` stays within `duration`.
pub proof fn lemma_share_within(spread: int, elapsed: int, duration: int)
    requires
        0 <= spread,
        0 <= elapsed <= duration,
        0 < duration,
    ensures
        0 <= spread * elapsed / duration <= spread,
{
    lemma_mul_inequality(elapsed, duration, spread);
    assert(elapsed * spread == spread * elapsed) by (nonlinear_arith);
    assert(duration * spread == spread * duration) by (nonlinear_arith);
    lemma_div_is_ordered(spread * elapsed, spread * duration, duration);
    assert(spread * duration == duration * spread) by (nonlinear_arith);
    lemma_div_multiples_vanish(spread, duration);
    assert(0 <= spread * elapsed) by (nonlinear_arith)
        requires
            0 <= spread,
            0 <= elapsed,
    ;
    lemma_div_pos_is_pos(spread * elapsed, duration);
}

/// `spread * elapsed / duration` does not decrease as `elapsed` grows.
pub proof fn lemma_share_monotone(spread: int, elapsed1: int, elapsed2: int, duration: int)
    requires
        0 <= spread,
        elapsed1 <= elapsed2,
        0 < duration,
    ensures
        spread * elapsed1 / duration <= spread * elapsed2 / duration,
{
    lemma_mul_inequality(elapsed1, elapsed2, spread);
    assert(elapsed1 * spread == spread * elapsed1) by (nonlinear_arith);
    assert(elapsed2 * spread == spread * elapsed2) by (nonlinear_arith);
    lemma_div_is_ordered(spread * elapsed1, spread * elapsed2, duration);
}

impl AuctionTerms {
    pub open spec fn schedule_ordered(&self) -> bool {
        schedule_ordered(
            self.preferred_taker is Some,
            self.starts_at as int,
            self.exclusive_until as int,
            self.decay_ends_at as int,
            self.expiration as int,
        )
    }
}

impl Escrow {
    pub open spec fn schedule_ordered(&self) -> bool {
        schedule_ordered(
            self.preferred_taker is Some,
            self.starts_at as int,
            self.exclusive_until as int,
            self.decay_ends_at as int,
            self.expiration as int,
        )
    }

    /// What every escrow that `make` opens satisfies, and `update` keeps:
    /// positive prices, an opening price at or above the floor, and an
    /// ordered schedule.
    pub open spec fn well_formed(&self) -> bool {
        &&& self.receive > 0
        &&& self.minimum_receive > 0
        &&& self.receive >= self.minimum_receive
        &&& self.schedule_ordered()
    }

    pub open spec fn spec_phase(&self, now: int) -> Phase {
        if now >= self.expiration {
            Phase::Expired
        } else if now < self.starts_at {
            Phase::Pending
        } else if now < self.exclusive_until {
            Phase::Exclusive
        } else if now < self.decay_ends_at {
            Phase::Decaying
        } else {
            Phase::Floor
        }
    }

    /// The phase of the offer at time `now`.
    pub fn phase(&self, now: i64) -> (phase: Phase)
        ensures
            phase == self.spec_phase(now as int),
    {
        if now >= self.expiration {
            Phase::Expired
        } else if now < self.starts_at {
            Phase::Pending
        } else if now < self.exclusive_until {
            Phase::Exclusive
        } else if now < self.decay_ends_at {
            Phase::Decaying
        } else {
            Phase::Floor
        }
    }

    /// The token B price at time `now`: the opening price up to
    /// `exclusive_until`, the floor from `decay_ends_at` on, and a linear move
    /// between the two in between.
    pub open spec fn spec_price_at(&self, now: int) -> int {
        if now <= self.exclusive_until {
            self.receive as int
        } else if now >= self.decay_ends_at {
            self.minimum_receive as int
        } else {
            decayed_price(
                self.receive as int,
                self.minimum_receive as int,
                now - self.exclusive_until,
                self.decay_ends_at - self.exclusive_until,
            )
        }
    }

    /// The token B price at time `now`.
    pub fn price_at(&self, now: i64) -> (price: u64)
        ensures
            price == self.spec_price_at(now as int),
    {
        if now <= self.exclusive_until {
            self.receive
        } else if now >= self.decay_ends_at {
            self.minimum_receive
        } else {
            let elapsed: u128 = ((now as i128) - (self.exclusive_until as i128)) as u128;
            let duration: u128 = ((self.decay_ends_at as i128) - (self.exclusive_until as i128)) as u128;
            if self.receive >= self.minimum_receive {
                let spread: u128 = (self.receive - self.minimum_receive) as u128;
                proof {
                    lemma_share_within(spread as int, elapsed as int, duration as int);
                    lemma_mul_upper_bound(
                        spread as int,
                        0xffff_ffff_ffff_ffff,
                        elapsed as int,
                        0xffff_ffff_ffff_ffff,
                    );
                }
                let share: u128 = spread * elapsed / duration;
                self.receive - (share as u64)
            } else {
                let spread: u128 = (self.minimum_receive - self.receive) as u128;
                proof {
                    lemma_share_within(spread as int, elapsed as int, duration as int);
                    lemma_mul_upper_bound(
                        spread as int,
                        0xffff_ffff_ffff_ffff,
                        elapsed as int,
                        0xffff_ffff_ffff_ffff,
                    );
                }
                let share: u128 = spread * elapsed / duration;
                self.receive + (share as u64)
            }
        }
    }

    /// Whether `taker` is the preferred taker recorded in the offer.
    pub open spec fn spec_is_preferred(&self, taker: Pubkey) -> bool {
        match self.preferred_taker {
            Some(preferred) => preferred@ == taker@,
            None => false,
        }
    }

    /// Whether `taker` is the preferred taker recorded in the offer.
    pub fn is_preferred(&self, taker: &Pubkey) -> (preferred: bool)
        ensures
            preferred == self.spec_is_preferred(*taker),
    {
        match &self.preferred_taker {
            Some(key) => key.same_as(taker),
            None => false,
        }
    }
}

} // verus!
