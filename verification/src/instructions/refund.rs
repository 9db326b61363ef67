use vstd::prelude::*;

use crate::clock::current_time;
use crate::error::ErrorCode;
use crate::error::EscrowError;
use crate::pubkey::Pubkey;
use crate::state::Escrow;
use crate::state::Phase;
use crate::transfer::EscrowSigner;
use crate::transfer::Settlement;
use crate::transfer::TokenTransfer;

verus! {

/// The accounts of the `refund` instruction, by address, with what the logic reads of them.
#[derive(Clone, Copy, Debug)]
pub struct Refund {
    pub maker: Pubkey,
    pub mint_a: Pubkey,
    pub mint_a_decimals: u8,
    pub maker_ata_a: Pubkey,
    pub escrow_address: Pubkey,
    pub escrow: Escrow,
    pub vault: Pubkey,
    /// The amount of token A that the vault holds.
    pub vault_amount: u64,
    pub token_program: Pubkey,
}

impl Refund {
    /// The signer is the maker, and the mint is the one, that the escrow records.
    pub open spec fn spec_accounts_match(&self) -> bool {
        &&& self.escrow.maker@ == self.maker@
        &&& self.escrow.mint_a@ == self.mint_a@
    }

    /// The return of the whole vault to the maker, signed by the escrow.
    pub open spec fn spec_release(&self) -> TokenTransfer {
        TokenTransfer {
            token_program: self.token_program,
            from: self.vault,
            mint: self.mint_a,
            to: self.maker_ata_a,
            authority: self.escrow_address,
            amount: self.vault_amount,
            decimals: self.mint_a_decimals,
            signer: Some(
                EscrowSigner { maker: self.escrow.maker, seed: self.escrow.seed, bump: self.escrow.bump },
            ),
        }
    }

    /// What a refund settles: no payment, the whole vault back to the maker,
    /// and the rent of both closed accounts to the maker.
    pub open spec fn spec_settlement(&self) -> Settlement {
        Settlement {
            payment: None,
            release: self.spec_release(),
            vault_rent_to: self.maker,
            escrow_rent_to: self.maker,
        }
    }

    /// The outcome of a refund at time `now`, once the accounts match: the
    /// maker can cancel before the auction starts or reclaim after it expires.
    pub open spec fn spec_refund_at(&self, now: int) -> Result<Settlement, EscrowError> {
        match self.escrow.spec_phase(now) {
            Phase::Pending | Phase::Expired => Ok(self.spec_settlement()),
            _ => Err(EscrowError::Program(ErrorCode::AuctionInProgress)),
        }
    }

    /// The escrow's `has_one` constraints on the maker and the deposited mint.
    pub fn check_accounts(&self) -> (r: Result<(), EscrowError>)
        ensures
            r == (if self.spec_accounts_match() {
                Ok::<(), EscrowError>(())
            } else {
                Err(EscrowError::ConstraintHasOne)
            }),
    {
        if self.escrow.maker.same_as(&self.maker) && self.escrow.mint_a.same_as(&self.mint_a) {
            Ok(())
        } else {
            Err(EscrowError::ConstraintHasOne)
        }
    }

    /// Cancels or reclaims the offer at time `now`.
    pub fn refund_at(&self, now: i64) -> (r: Result<Settlement, EscrowError>)
        ensures
            r == self.spec_refund_at(now as int),
    {
        match self.escrow.phase(now) {
            Phase::Pending | Phase::Expired => {},
            _ => {
                return Err(EscrowError::Program(ErrorCode::AuctionInProgress));
            },
        }
        let release = TokenTransfer {
            token_program: self.token_program,
            from: self.vault,
            mint: self.mint_a,
            to: self.maker_ata_a,
            authority: self.escrow_address,
            amount: self.vault_amount,
            decimals: self.mint_a_decimals,
            signer: Some(
                EscrowSigner { maker: self.escrow.maker, seed: self.escrow.seed, bump: self.escrow.bump },
            ),
        };
        Ok(Settlement { payment: None, release, vault_rent_to: self.maker, escrow_rent_to: self.maker })
    }

    /// Returns the vault's tokens to the maker and closes the offer, at the time
    /// the cluster clock reports. Whatever the clock says, the outcome is that
    /// of `refund_at` at some time, or `ClockUnavailable`.
    pub fn refund_and_close_vault(&self) -> (r: Result<Settlement, EscrowError>)
        ensures
            r == Err::<Settlement, EscrowError>(EscrowError::ClockUnavailable) || exists|now: i64|
                r == self.spec_refund_at(now as int),
    {
        let now = current_time()?;
        self.refund_at(now)
    }
}

} // verus!
