use vstd::prelude::*;

use crate::pubkey::Pubkey;

verus! {

/// The seeds of an escrow's program-derived address (`"escrow"`, the maker,
/// the seed in little-endian bytes, the bump), with which the escrow signs for
/// its vault.
#[derive(Clone, Copy, Debug)]
pub struct EscrowSigner {
    pub maker: Pubkey,
    pub seed: u64,
    pub bump: u8,
}

/// A `transfer_checked` that the token program is asked to perform.
#[derive(Clone, Copy, Debug)]
pub struct TokenTransfer {
    pub token_program: Pubkey,
    pub from: Pubkey,
    pub mint: Pubkey,
    pub to: Pubkey,
    pub authority: Pubkey,
    pub amount: u64,
    pub decimals: u8,
    /// Present when the escrow's address signs as `authority`.
    pub signer: Option<EscrowSigner>,
}

/// What closing an offer moves: the taker's payment (none on a refund), the
/// release of the vault's tokens, and where the rent of the closed vault and
/// escrow accounts goes.
#[derive(Clone, Copy, Debug)]
pub struct Settlement {
    pub payment: Option<TokenTransfer>,
    pub release: TokenTransfer,
    pub vault_rent_to: Pubkey,
    pub escrow_rent_to: Pubkey,
}

} // verus!
