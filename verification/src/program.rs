use vstd::prelude::*;

use crate::error::EscrowError;
use crate::instructions::make::terms_check;
use crate::instructions::make::validation;
use crate::instructions::make::Make;
use crate::instructions::make::MakeBumps;
use crate::instructions::refund::Refund;
use crate::instructions::take::Take;
use crate::instructions::update::Update;
use crate::state::AuctionTerms;
use crate::state::Escrow;
use crate::transfer::Settlement;
use crate::transfer::TokenTransfer;

verus! {

impl Make {
    /// The accounts once the escrow holds `escrow`.
    pub open spec fn with_escrow(self, escrow: Escrow) -> Make {
        Make { escrow: Some(escrow), ..self }
    }
}

/// The outcome of `make` at time `now`: the deposit to perform and the
/// accounts afterwards, or the error.
pub open spec fn make_outcome(
    ctx: Make,
    seed: u64,
    deposit: u64,
    terms: AuctionTerms,
    bump: u8,
    now: int,
) -> Result<(TokenTransfer, Make), EscrowError> {
    match validation(deposit, terms, ctx.mint_a, ctx.mint_b, now) {
        Err(e) => Err(e),
        Ok(()) => Ok((ctx.spec_deposit(deposit), ctx.with_escrow(ctx.spec_new_escrow(seed, terms, bump)))),
    }
}

/// The outcome of `take` at time `now`.
pub open spec fn take_outcome(ctx: Take, now: int) -> Result<Settlement, EscrowError> {
    if ctx.spec_accounts_match() {
        ctx.spec_take_at(now)
    } else {
        Err(EscrowError::ConstraintHasOne)
    }
}

/// The outcome of `refund` at time `now`.
pub open spec fn refund_outcome(ctx: Refund, now: int) -> Result<Settlement, EscrowError> {
    if ctx.spec_accounts_match() {
        ctx.spec_refund_at(now)
    } else {
        Err(EscrowError::ConstraintHasOne)
    }
}

/// The outcome of `update`: the escrow afterwards, or the error.
pub open spec fn update_outcome(ctx: Update, receive: u64) -> Result<Escrow, EscrowError> {
    if !ctx.spec_accounts_match() {
        Err(EscrowError::ConstraintHasOne)
    } else if receive == 0 {
        Err(EscrowError::Program(crate::error::ErrorCode::InvalidReceiveAmount))
    } else if receive < ctx.escrow.minimum_receive {
        Err(EscrowError::Program(crate::error::ErrorCode::InvalidPriceRange))
    } else {
        Ok(ctx.escrow.with_receive(receive))
    }
}

/// Opens an offer at time `now`: validates it, writes the escrow, and returns
/// the deposit of token A into the vault. A refused offer leaves the accounts
/// as they were.
pub fn make_at(
    ctx: &mut Make,
    seed: u64,
    deposit: u64,
    terms: AuctionTerms,
    bumps: &MakeBumps,
    now: i64,
) -> (r: Result<TokenTransfer, EscrowError>)
    ensures
        match make_outcome(*old(ctx), seed, deposit, terms, bumps.escrow, now as int) {
            Err(e) => r == Err::<TokenTransfer, EscrowError>(e) && *final(ctx) == *old(ctx),
            Ok((transfer, after)) => r == Ok::<TokenTransfer, EscrowError>(transfer) && *final(ctx)
                == after,
        },
{
    ctx.validate_at(deposit, &terms, now)?;
    ctx.init_escrow(seed, terms, bumps)?;
    Ok(ctx.deposit(deposit))
}

/// Opens an offer at the time the cluster clock reports. The time-independent
/// checks decide the error where they fail; whatever the clock says, the
/// outcome is that of `make_at` at some time, or `ClockUnavailable` with the
/// accounts unchanged.
pub fn make(
    ctx: &mut Make,
    seed: u64,
    deposit: u64,
    terms: AuctionTerms,
    bumps: &MakeBumps,
) -> (r: Result<TokenTransfer, EscrowError>)
    ensures
        terms_check(deposit, terms, old(ctx).mint_a, old(ctx).mint_b) matches Err(e) ==> r == Err::<
            TokenTransfer,
            EscrowError,
        >(e),
        r is Err ==> *final(ctx) == *old(ctx),
        r is Ok ==> terms.schedule_ordered() && r == Ok::<TokenTransfer, EscrowError>(
            old(ctx).spec_deposit(deposit),
        ) && *final(ctx) == old(ctx).with_escrow(old(ctx).spec_new_escrow(seed, terms, bumps.escrow)),
        r == Err::<TokenTransfer, EscrowError>(EscrowError::ClockUnavailable) || exists|now: i64|
            make_outcome(*old(ctx), seed, deposit, terms, bumps.escrow, now as int) == match r {
                Ok(transfer) => Ok::<(TokenTransfer, Make), EscrowError>((transfer, *final(ctx))),
                Err(e) => Err(e),
            },
{
    let ghost before = *ctx;
    let checked = ctx.validate(deposit, &terms);
    let ghost when: i64 = choose|now: i64|
        checked == validation(deposit, terms, before.mint_a, before.mint_b, now as int);
    if let Err(e) = checked {
        proof {
            if terms_check(deposit, terms, before.mint_a, before.mint_b) is Err {
                assert(make_outcome(before, seed, deposit, terms, bumps.escrow, 0) == Err::<
                    (TokenTransfer, Make),
                    EscrowError,
                >(e));
            } else if e != EscrowError::ClockUnavailable {
                assert(make_outcome(before, seed, deposit, terms, bumps.escrow, when as int) == Err::<
                    (TokenTransfer, Make),
                    EscrowError,
                >(e));
            }
        }
        return Err(e);
    }
    ctx.init_escrow(seed, terms, bumps)?;
    let transfer = ctx.deposit(deposit);
    assert(make_outcome(before, seed, deposit, terms, bumps.escrow, when as int) == Ok::<
        (TokenTransfer, Make),
        EscrowError,
    >((transfer, *ctx)));
    Ok(transfer)
}

/// Accepts an offer at time `now`.
pub fn take_at(ctx: &Take, now: i64) -> (r: Result<Settlement, EscrowError>)
    ensures
        r == take_outcome(*ctx, now as int),
{
    ctx.check_accounts()?;
    ctx.take_at(now)
}

/// Accepts an offer at the time the cluster clock reports.
pub fn take(ctx: &Take) -> (r: Result<Settlement, EscrowError>)
    ensures
        !ctx.spec_accounts_match() ==> r == Err::<Settlement, EscrowError>(
            EscrowError::ConstraintHasOne,
        ),
        r == Err::<Settlement, EscrowError>(EscrowError::ClockUnavailable) || exists|now: i64|
            r == take_outcome(*ctx, now as int),
{
    if let Err(e) = ctx.check_accounts() {
        assert(take_outcome(*ctx, 0) == Err::<Settlement, EscrowError>(e));
        return Err(e);
    }
    let r = ctx.take();
    proof {
        if r != Err::<Settlement, EscrowError>(EscrowError::ClockUnavailable) {
            let now = choose|now: i64| r == ctx.spec_take_at(now as int);
            assert(r == take_outcome(*ctx, now as int));
        }
    }
    r
}

/// Cancels or reclaims an offer at time `now`.
pub fn refund_at(ctx: &Refund, now: i64) -> (r: Result<Settlement, EscrowError>)
    ensures
        r == refund_outcome(*ctx, now as int),
{
    ctx.check_accounts()?;
    ctx.refund_at(now)
}

/// Cancels or reclaims an offer at the time the cluster clock reports.
pub fn refund(ctx: &Refund) -> (r: Result<Settlement, EscrowError>)
    ensures
        !ctx.spec_accounts_match() ==> r == Err::<Settlement, EscrowError>(
            EscrowError::ConstraintHasOne,
        ),
        r == Err::<Settlement, EscrowError>(EscrowError::ClockUnavailable) || exists|now: i64|
            r == refund_outcome(*ctx, now as int),
{
    if let Err(e) = ctx.check_accounts() {
        assert(refund_outcome(*ctx, 0) == Err::<Settlement, EscrowError>(e));
        return Err(e);
    }
    let r = ctx.refund_and_close_vault();
    proof {
        if r != Err::<Settlement, EscrowError>(EscrowError::ClockUnavailable) {
            let now = choose|now: i64| r == ctx.spec_refund_at(now as int);
            assert(r == refund_outcome(*ctx, now as int));
        }
    }
    r
}

/// Sets a new opening price on an offer; only its maker can, the price must be
/// positive and not below the floor, and a refused update leaves the escrow as
/// it was.
pub fn update(ctx: &mut Update, receive: u64) -> (r: Result<(), EscrowError>)
    ensures
        match update_outcome(*old(ctx), receive) {
            Err(e) => r == Err::<(), EscrowError>(e) && *final(ctx) == *old(ctx),
            Ok(escrow) => r == Ok::<(), EscrowError>(()) && final(ctx).escrow == escrow
                && final(ctx).maker == old(ctx).maker,
        },
{
    ctx.check_accounts()?;
    ctx.update(receive)
}

} // verus!
