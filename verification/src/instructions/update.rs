use vstd::prelude::*;

use crate::error::ErrorCode;
use crate::error::EscrowError;
use crate::pubkey::Pubkey;
use crate::state::Escrow;

verus! {

/// The accounts of the `update` instruction: the signing maker and the escrow.
#[derive(Clone, Copy, Debug)]
pub struct Update {
    pub maker: Pubkey,
    pub escrow: Escrow,
}

impl Escrow {
    /// The same escrow with a new opening price.
    pub open spec fn with_receive(self, receive: u64) -> Escrow {
        Escrow { receive, ..self }
    }
}

impl Update {
    /// The signer is the maker that the escrow records.
    pub open spec fn spec_accounts_match(&self) -> bool {
        self.escrow.maker@ == self.maker@
    }

    /// The escrow's `has_one = maker` constraint.
    pub fn check_accounts(&self) -> (r: Result<(), EscrowError>)
        ensures
            r == (if self.spec_accounts_match() {
                Ok::<(), EscrowError>(())
            } else {
                Err(EscrowError::ConstraintHasOne)
            }),
    {
        if self.escrow.maker.same_as(&self.maker) {
            Ok(())
        } else {
            Err(EscrowError::ConstraintHasOne)
        }
    }

    /// Sets a new opening price. A zero price, or one below the floor, is
    /// refused and leaves the escrow as it was.
    pub fn update(&mut self, receive: u64) -> (r: Result<(), EscrowError>)
        ensures
            receive == 0 ==> r == Err::<(), EscrowError>(
                EscrowError::Program(ErrorCode::InvalidReceiveAmount),
            ) && *final(self) == *old(self),
            0 < receive < old(self).escrow.minimum_receive ==> r == Err::<(), EscrowError>(
                EscrowError::Program(ErrorCode::InvalidPriceRange),
            ) && *final(self) == *old(self),
            receive > 0 && receive >= old(self).escrow.minimum_receive ==> r == Ok::<
                (),
                EscrowError,
            >(()) && final(self).escrow == old(self).escrow.with_receive(receive)
                && final(self).maker == old(self).maker,
    {
        if receive == 0 {
            return Err(EscrowError::Program(ErrorCode::InvalidReceiveAmount));
        }
        if receive < self.escrow.minimum_receive {
            return Err(EscrowError::Program(ErrorCode::InvalidPriceRange));
        }
        self.escrow.receive = receive;
        Ok(())
    }
}

} // verus!
