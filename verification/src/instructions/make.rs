use vstd::prelude::*;

use crate::clock::current_time;
use crate::error::ErrorCode;
use crate::error::EscrowError;
use crate::pubkey::Pubkey;
use crate::state::AuctionTerms;
use crate::state::Escrow;
use crate::transfer::TokenTransfer;

verus! {

/// The bump found for the escrow's program-derived address.
#[derive(Clone, Copy, Debug)]
pub struct MakeBumps {
    pub escrow: u8,
}

/// The accounts of the `make` instruction, by address, with what the logic reads of them.
#[derive(Clone, Copy, Debug)]
pub struct Make {
    pub maker: Pubkey,
    pub mint_a: Pubkey,
    pub mint_a_decimals: u8,
    pub mint_b: Pubkey,
    pub maker_ata_a: Pubkey,
    /// The escrow account's data: `None` until the offer is written into it.
    pub escrow: Option<Escrow>,
    pub vault: Pubkey,
    pub token_program: Pubkey,
}

/// The escrow that an accepted offer stores.
pub open spec fn escrow_from(
    maker: Pubkey,
    mint_a: Pubkey,
    mint_b: Pubkey,
    seed: u64,
    terms: AuctionTerms,
    bump: u8,
) -> Escrow {
    Escrow {
        seed,
        maker,
        mint_a,
        mint_b,
        receive: terms.receive,
        minimum_receive: terms.minimum_receive,
        preferred_taker: terms.preferred_taker,
        starts_at: terms.starts_at,
        exclusive_until: terms.exclusive_until,
        decay_ends_at: terms.decay_ends_at,
        bump,
        expiration: terms.expiration,
    }
}

/// The checks of an offer that do not depend on the time, in the order they are made.
pub open spec fn terms_check(
    deposit: u64,
    terms: AuctionTerms,
    mint_a: Pubkey,
    mint_b: Pubkey,
) -> Result<(), EscrowError> {
    if deposit == 0 {
        Err(EscrowError::Program(ErrorCode::InvalidDepositAmount))
    } else if terms.receive == 0 {
        Err(EscrowError::Program(ErrorCode::InvalidReceiveAmount))
    } else if terms.minimum_receive == 0 {
        Err(EscrowError::Program(ErrorCode::InvalidMinimumReceiveAmount))
    } else if terms.receive < terms.minimum_receive {
        Err(EscrowError::Program(ErrorCode::InvalidPriceRange))
    } else if mint_a@ == mint_b@ {
        Err(EscrowError::Program(ErrorCode::IdenticalMints))
    } else {
        Ok(())
    }
}

/// The schedule check at time `now`: the auction starts in the future and
/// keeps the order of `schedule_ordered`.
pub open spec fn schedule_check(terms: AuctionTerms, now: int) -> Result<(), EscrowError> {
    if terms.starts_at > now && terms.schedule_ordered() {
        Ok(())
    } else {
        Err(EscrowError::Program(ErrorCode::InvalidAuctionSchedule))
    }
}

/// The full validation of an offer made at time `now`.
pub open spec fn validation(
    deposit: u64,
    terms: AuctionTerms,
    mint_a: Pubkey,
    mint_b: Pubkey,
    now: int,
) -> Result<(), EscrowError> {
    match terms_check(deposit, terms, mint_a, mint_b) {
        Err(e) => Err(e),
        Ok(()) => schedule_check(terms, now),
    }
}

/// Checks an auction schedule against the time `now`.
pub fn check_schedule(terms: &AuctionTerms, now: i64) -> (r: Result<(), EscrowError>)
    ensures
        r == schedule_check(*terms, now as int),
{
    let valid_timestamps = terms.starts_at > now && terms.starts_at <= terms.exclusive_until
        && terms.exclusive_until < terms.decay_ends_at && terms.decay_ends_at < terms.expiration;
    let valid_exclusive_window = match terms.preferred_taker {
        Some(_) => terms.starts_at < terms.exclusive_until,
        None => terms.starts_at == terms.exclusive_until,
    };
    if valid_timestamps && valid_exclusive_window {
        Ok(())
    } else {
        Err(EscrowError::Program(ErrorCode::InvalidAuctionSchedule))
    }
}

impl Make {
    /// The escrow this offer stores when accepted.
    pub open spec fn spec_new_escrow(&self, seed: u64, terms: AuctionTerms, bump: u8) -> Escrow {
        escrow_from(self.maker, self.mint_a, self.mint_b, seed, terms, bump)
    }

    /// The transfer that moves `amount` of token A from the maker into the vault.
    pub open spec fn spec_deposit(&self, amount: u64) -> TokenTransfer {
        TokenTransfer {
            token_program: self.token_program,
            from: self.maker_ata_a,
            mint: self.mint_a,
            to: self.vault,
            authority: self.maker,
            amount,
            decimals: self.mint_a_decimals,
            signer: None,
        }
    }

    /// The checks that do not depend on the time.
    pub fn check_terms(&self, deposit: u64, terms: &AuctionTerms) -> (r: Result<(), EscrowError>)
        ensures
            r == terms_check(deposit, *terms, self.mint_a, self.mint_b),
    {
        if deposit == 0 {
            return Err(EscrowError::Program(ErrorCode::InvalidDepositAmount));
        }
        if terms.receive == 0 {
            return Err(EscrowError::Program(ErrorCode::InvalidReceiveAmount));
        }
        if terms.minimum_receive == 0 {
            return Err(EscrowError::Program(ErrorCode::InvalidMinimumReceiveAmount));
        }
        if terms.receive < terms.minimum_receive {
            return Err(EscrowError::Program(ErrorCode::InvalidPriceRange));
        }
        if self.mint_a.same_as(&self.mint_b) {
            return Err(EscrowError::Program(ErrorCode::IdenticalMints));
        }
        Ok(())
    }

    /// Validates an offer as made at time `now`.
    pub fn validate_at(&self, deposit: u64, terms: &AuctionTerms, now: i64) -> (r: Result<
        (),
        EscrowError,
    >)
        ensures
            r == validation(deposit, *terms, self.mint_a, self.mint_b, now as int),
    {
        self.check_terms(deposit, terms)?;
        check_schedule(terms, now)
    }

    /// Validates an offer against the cluster clock. The time-independent
    /// checks come first and decide the error where they fail; after them the
    /// clock is read, and the offer is accepted only if its schedule is
    /// ordered and starts after the time the clock reported.
    pub fn validate(&self, deposit: u64, terms: &AuctionTerms) -> (r: Result<(), EscrowError>)
        ensures
            terms_check(deposit, *terms, self.mint_a, self.mint_b) is Err ==> r == terms_check(
                deposit,
                *terms,
                self.mint_a,
                self.mint_b,
            ),
            terms_check(deposit, *terms, self.mint_a, self.mint_b) is Ok ==> {
                ||| r == Err::<(), EscrowError>(EscrowError::ClockUnavailable)
                ||| exists|now: i64| r == validation(deposit, *terms, self.mint_a, self.mint_b, now as int)
            },
            r is Ok ==> terms.schedule_ordered(),
    {
        self.check_terms(deposit, terms)?;
        let now = current_time()?;
        let r = check_schedule(terms, now);
        assert(r == validation(deposit, *terms, self.mint_a, self.mint_b, now as int));
        r
    }

    /// Writes the offer into the escrow account.
    pub fn init_escrow(&mut self, seed: u64, terms: AuctionTerms, bumps: &MakeBumps) -> (r: Result<
        (),
        EscrowError,
    >)
        ensures
            r == Ok::<(), EscrowError>(()),
            final(self).escrow == Some(old(self).spec_new_escrow(seed, terms, bumps.escrow)),
            final(self).maker == old(self).maker,
            final(self).mint_a == old(self).mint_a,
            final(self).mint_a_decimals == old(self).mint_a_decimals,
            final(self).mint_b == old(self).mint_b,
            final(self).maker_ata_a == old(self).maker_ata_a,
            final(self).vault == old(self).vault,
            final(self).token_program == old(self).token_program,
    {
        self.escrow = Some(
            Escrow {
                seed,
                maker: self.maker,
                mint_a: self.mint_a,
                mint_b: self.mint_b,
                receive: terms.receive,
                minimum_receive: terms.minimum_receive,
                preferred_taker: terms.preferred_taker,
                starts_at: terms.starts_at,
                exclusive_until: terms.exclusive_until,
                decay_ends_at: terms.decay_ends_at,
                bump: bumps.escrow,
                expiration: terms.expiration,
            },
        );
        Ok(())
    }

    /// The transfer of `deposit` token A from the maker into the vault.
    pub fn deposit(&self, deposit: u64) -> (transfer: TokenTransfer)
        ensures
            transfer == self.spec_deposit(deposit),
    {
        TokenTransfer {
            token_program: self.token_program,
            from: self.maker_ata_a,
            mint: self.mint_a,
            to: self.vault,
            authority: self.maker,
            amount: deposit,
            decimals: self.mint_a_decimals,
            signer: None,
        }
    }
}

} // verus!
