use vstd::prelude::*;

use crate::clock::current_time;
use crate::error::ErrorCode;
use crate::error::EscrowError;
use crate::pubkey::Pubkey;
use crate::state::Escrow;
use crate::state::Phase;
use crate::transfer::EscrowSigner;
use crate::transfer::Settlement;
use crate::transfer::TokenTransfer;

verus! {

/// The accounts of the `take` instruction, by address, with what the logic reads of them.
#[derive(Clone, Copy, Debug)]
pub struct Take {
    pub taker: Pubkey,
    pub maker: Pubkey,
    pub mint_a: Pubkey,
    pub mint_a_decimals: u8,
    pub mint_b: Pubkey,
    pub mint_b_decimals: u8,
    pub taker_ata_a: Pubkey,
    pub taker_ata_b: Pubkey,
    pub maker_ata_b: Pubkey,
    pub escrow_address: Pubkey,
    pub escrow: Escrow,
    pub vault: Pubkey,
    /// The amount of token A that the vault holds.
    pub vault_amount: u64,
    pub token_program: Pubkey,
}

impl Take {
    /// The maker and both mints are the ones that the escrow records.
    pub open spec fn spec_accounts_match(&self) -> bool {
        &&& self.escrow.maker@ == self.maker@
        &&& self.escrow.mint_a@ == self.mint_a@
        &&& self.escrow.mint_b@ == self.mint_b@
    }

    /// The taker's payment of `price` token B to the maker.
    pub open spec fn spec_payment(&self, price: u64) -> TokenTransfer {
        TokenTransfer {
            token_program: self.token_program,
            from: self.taker_ata_b,
            mint: self.mint_b,
            to: self.maker_ata_b,
            authority: self.taker,
            amount: price,
            decimals: self.mint_b_decimals,
            signer: None,
        }
    }

    /// The release of the whole vault to the taker, signed by the escrow.
    pub open spec fn spec_release(&self) -> TokenTransfer {
        TokenTransfer {
            token_program: self.token_program,
            from: self.vault,
            mint: self.mint_a,
            to: self.taker_ata_a,
            authority: self.escrow_address,
            amount: self.vault_amount,
            decimals: self.mint_a_decimals,
            signer: Some(
                EscrowSigner { maker: self.escrow.maker, seed: self.escrow.seed, bump: self.escrow.bump },
            ),
        }
    }

    /// What a take at time `now` settles: the payment at the current price,
    /// the whole vault to the taker, the vault's rent to the taker and the
    /// escrow's rent to the maker.
    pub open spec fn spec_settlement(&self, now: int) -> Settlement {
        Settlement {
            payment: Some(self.spec_payment(self.escrow.spec_price_at(now) as u64)),
            release: self.spec_release(),
            vault_rent_to: self.taker,
            escrow_rent_to: self.maker,
        }
    }

    /// The outcome of a take at time `now`, once the accounts match.
    pub open spec fn spec_take_at(&self, now: int) -> Result<Settlement, EscrowError> {
        match self.escrow.spec_phase(now) {
            Phase::Expired => Err(EscrowError::Program(ErrorCode::EscrowExpired)),
            Phase::Pending => Err(EscrowError::Program(ErrorCode::AuctionNotStarted)),
            Phase::Exclusive if !self.escrow.spec_is_preferred(self.taker) => Err(
                EscrowError::Program(ErrorCode::NotPreferredTaker),
            ),
            _ => if self.vault_amount == 0 {
                Err(EscrowError::Program(ErrorCode::EmptyVault))
            } else {
                Ok(self.spec_settlement(now))
            },
        }
    }

    /// The escrow's `has_one` constraints on the maker and both mints.
    pub fn check_accounts(&self) -> (r: Result<(), EscrowError>)
        ensures
            r == (if self.spec_accounts_match() {
                Ok::<(), EscrowError>(())
            } else {
                Err(EscrowError::ConstraintHasOne)
            }),
    {
        if self.escrow.maker.same_as(&self.maker) && self.escrow.mint_a.same_as(&self.mint_a)
            && self.escrow.mint_b.same_as(&self.mint_b) {
            Ok(())
        } else {
            Err(EscrowError::ConstraintHasOne)
        }
    }

    /// Accepts the offer at time `now`.
    pub fn take_at(&self, now: i64) -> (r: Result<Settlement, EscrowError>)
        ensures
            r == self.spec_take_at(now as int),
    {
        match self.escrow.phase(now) {
            Phase::Expired => {
                return Err(EscrowError::Program(ErrorCode::EscrowExpired));
            },
            Phase::Pending => {
                return Err(EscrowError::Program(ErrorCode::AuctionNotStarted));
            },
            Phase::Exclusive => {
                if !self.escrow.is_preferred(&self.taker) {
                    return Err(EscrowError::Program(ErrorCode::NotPreferredTaker));
                }
            },
            _ => {},
        }
        if self.vault_amount == 0 {
            return Err(EscrowError::Program(ErrorCode::EmptyVault));
        }
        let price = self.escrow.price_at(now);
        let payment = TokenTransfer {
            token_program: self.token_program,
            from: self.taker_ata_b,
            mint: self.mint_b,
            to: self.maker_ata_b,
            authority: self.taker,
            amount: price,
            decimals: self.mint_b_decimals,
            signer: None,
        };
        let release = TokenTransfer {
            token_program: self.token_program,
            from: self.vault,
            mint: self.mint_a,
            to: self.taker_ata_a,
            authority: self.escrow_address,
            amount: self.vault_amount,
            decimals: self.mint_a_decimals,
            signer: Some(
                EscrowSigner { maker: self.escrow.maker, seed: self.escrow.seed, bump: self.escrow.bump },
            ),
        };
        Ok(
            Settlement {
                payment: Some(payment),
                release,
                vault_rent_to: self.taker,
                escrow_rent_to: self.maker,
            },
        )
    }

    /// Accepts the offer at the time the cluster clock reports. Whatever the
    /// clock says, the outcome is that of `take_at` at some time, or
    /// `ClockUnavailable`.
    pub fn take(&self) -> (r: Result<Settlement, EscrowError>)
        ensures
            r == Err::<Settlement, EscrowError>(EscrowError::ClockUnavailable) || exists|now: i64|
                r == self.spec_take_at(now as int),
    {
        let now = current_time()?;
        self.take_at(now)
    }
}

} // verus!
