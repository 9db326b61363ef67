use escrowq32026::clock::current_time;
use escrowq32026::clock::time_from_clock;
use escrowq32026::error::ErrorCode;
use escrowq32026::error::EscrowError;
use escrowq32026::instructions::make::check_schedule;
use escrowq32026::instructions::make::Make;
use escrowq32026::instructions::make::MakeBumps;
use escrowq32026::instructions::refund::Refund;
use escrowq32026::instructions::take::Take;
use escrowq32026::instructions::update::Update;
use escrowq32026::program::make;
use escrowq32026::program::make_at;
use escrowq32026::program::refund;
use escrowq32026::program::refund_at;
use escrowq32026::program::take;
use escrowq32026::program::take_at;
use escrowq32026::program::update;
use escrowq32026::pubkey::Pubkey;
use escrowq32026::state::AuctionTerms;
use escrowq32026::state::Escrow;
use escrowq32026::state::Phase;

fn key(tag: u8) -> Pubkey {
    Pubkey::new_from_array([tag; 32])
}

const MAKER: u8 = 1;
const TAKER: u8 = 2;
const PREFERRED: u8 = 3;
const MINT_A: u8 = 4;
const MINT_B: u8 = 5;

/// An offer opening at 100 token B, decaying to 50 between t=20 and t=30,
/// expiring at t=40, with an exclusive window for a preferred taker from t=10.
fn terms() -> AuctionTerms {
    AuctionTerms {
        receive: 100,
        minimum_receive: 50,
        preferred_taker: Some(key(PREFERRED)),
        starts_at: 10,
        exclusive_until: 20,
        decay_ends_at: 30,
        expiration: 40,
    }
}

fn escrow() -> Escrow {
    let t = terms();
    Escrow {
        seed: 7,
        maker: key(MAKER),
        mint_a: key(MINT_A),
        mint_b: key(MINT_B),
        receive: t.receive,
        minimum_receive: t.minimum_receive,
        preferred_taker: t.preferred_taker,
        starts_at: t.starts_at,
        exclusive_until: t.exclusive_until,
        decay_ends_at: t.decay_ends_at,
        bump: 254,
        expiration: t.expiration,
    }
}

fn make_ctx() -> Make {
    Make {
        maker: key(MAKER),
        mint_a: key(MINT_A),
        mint_a_decimals: 9,
        mint_b: key(MINT_B),
        maker_ata_a: key(20),
        escrow: None,
        vault: key(21),
        token_program: key(22),
    }
}

fn take_ctx(taker: Pubkey, vault_amount: u64) -> Take {
    Take {
        taker,
        maker: key(MAKER),
        mint_a: key(MINT_A),
        mint_a_decimals: 9,
        mint_b: key(MINT_B),
        mint_b_decimals: 6,
        taker_ata_a: key(30),
        taker_ata_b: key(31),
        maker_ata_b: key(32),
        escrow_address: key(33),
        escrow: escrow(),
        vault: key(21),
        vault_amount,
        token_program: key(22),
    }
}

fn refund_ctx(maker: Pubkey) -> Refund {
    Refund {
        maker,
        mint_a: key(MINT_A),
        mint_a_decimals: 9,
        maker_ata_a: key(20),
        escrow_address: key(33),
        escrow: escrow(),
        vault: key(21),
        vault_amount: 500,
        token_program: key(22),
    }
}

fn program_error(code: ErrorCode) -> EscrowError {
    EscrowError::Program(code)
}

#[test]
fn same_as_compares_every_byte() {
    let a = key(1);
    let mut bytes = [1u8; 32];
    bytes[31] = 2;
    let b = Pubkey::new_from_array(bytes);
    assert!(a.same_as(&key(1)));
    assert!(!a.same_as(&b));
    assert_eq!(b.to_bytes(), bytes);
}

#[test]
fn price_follows_the_dutch_auction() {
    let e = escrow();
    assert_eq!(e.price_at(0), 100);
    assert_eq!(e.price_at(15), 100);
    assert_eq!(e.price_at(20), 100);
    assert_eq!(e.price_at(21), 95);
    assert_eq!(e.price_at(25), 75);
    assert_eq!(e.price_at(29), 55);
    assert_eq!(e.price_at(30), 50);
    assert_eq!(e.price_at(1_000), 50);
}

#[test]
fn price_rounds_towards_the_opening_price() {
    let mut e = escrow();
    e.exclusive_until = 0;
    e.decay_ends_at = 3;
    // 50 * 1 / 3 = 16 (rounded down), so the price is 100 - 16.
    assert_eq!(e.price_at(1), 84);
    e.receive = 10;
    e.minimum_receive = 20;
    // Rising towards a floor above the opening price: 10 + 10 * 1 / 3.
    assert_eq!(e.price_at(1), 13);
    assert_eq!(e.price_at(3), 20);
}

#[test]
fn price_never_rises_over_time() {
    let e = escrow();
    let mut last = u64::MAX;
    for t in 0..50 {
        let p = e.price_at(t);
        assert!(p <= last);
        assert!(50 <= p && p <= 100);
        last = p;
    }
}

#[test]
fn price_handles_extreme_timestamps() {
    let mut e = escrow();
    e.receive = u64::MAX;
    e.minimum_receive = 1;
    e.exclusive_until = i64::MIN;
    e.decay_ends_at = i64::MAX;
    let p = e.price_at(0);
    assert!(p < u64::MAX && p > 1);
    assert_eq!(e.price_at(i64::MAX), 1);
    assert_eq!(e.price_at(i64::MIN), u64::MAX);
}

#[test]
fn phases_follow_the_schedule() {
    let e = escrow();
    assert_eq!(e.phase(9), Phase::Pending);
    assert_eq!(e.phase(10), Phase::Exclusive);
    assert_eq!(e.phase(19), Phase::Exclusive);
    assert_eq!(e.phase(20), Phase::Decaying);
    assert_eq!(e.phase(30), Phase::Floor);
    assert_eq!(e.phase(39), Phase::Floor);
    assert_eq!(e.phase(40), Phase::Expired);
}

#[test]
fn preferred_taker_is_recognised() {
    let e = escrow();
    assert!(e.is_preferred(&key(PREFERRED)));
    assert!(!e.is_preferred(&key(TAKER)));
    let mut open = e;
    open.preferred_taker = None;
    assert!(!open.is_preferred(&key(PREFERRED)));
}

#[test]
fn validate_reports_each_error_in_order() {
    let ctx = make_ctx();
    let t = terms();
    assert_eq!(ctx.validate_at(1, &t, 0), Ok(()));
    assert_eq!(ctx.validate_at(0, &t, 0), Err(program_error(ErrorCode::InvalidDepositAmount)));
    let mut zero = t;
    zero.receive = 0;
    zero.minimum_receive = 0;
    assert_eq!(ctx.validate_at(1, &zero, 0), Err(program_error(ErrorCode::InvalidReceiveAmount)));
    let mut no_floor = t;
    no_floor.minimum_receive = 0;
    assert_eq!(
        ctx.validate_at(1, &no_floor, 0),
        Err(program_error(ErrorCode::InvalidMinimumReceiveAmount))
    );
    let mut inverted = t;
    inverted.minimum_receive = 101;
    assert_eq!(ctx.validate_at(1, &inverted, 0), Err(program_error(ErrorCode::InvalidPriceRange)));
    let mut same = ctx;
    same.mint_b = key(MINT_A);
    assert_eq!(same.validate_at(1, &t, 0), Err(program_error(ErrorCode::IdenticalMints)));
    // A mint error comes before a schedule error.
    assert_eq!(same.validate_at(1, &t, 100), Err(program_error(ErrorCode::IdenticalMints)));
    assert_eq!(
        ctx.validate_at(1, &t, 10),
        Err(program_error(ErrorCode::InvalidAuctionSchedule))
    );
}

#[test]
fn schedule_checks_each_ordering() {
    let t = terms();
    assert_eq!(check_schedule(&t, 9), Ok(()));
    let bad = Err(program_error(ErrorCode::InvalidAuctionSchedule));
    let mut s = t;
    s.exclusive_until = 9;
    assert_eq!(check_schedule(&s, 0), bad);
    let mut s = t;
    s.decay_ends_at = 20;
    assert_eq!(check_schedule(&s, 0), bad);
    let mut s = t;
    s.expiration = 30;
    assert_eq!(check_schedule(&s, 0), bad);
    // A preferred taker needs a non-empty exclusive window ...
    let mut s = t;
    s.exclusive_until = 10;
    assert_eq!(check_schedule(&s, 0), bad);
    // ... and without one the window must be empty.
    let mut s = t;
    s.preferred_taker = None;
    assert_eq!(check_schedule(&s, 0), bad);
    s.exclusive_until = 10;
    assert_eq!(check_schedule(&s, 0), Ok(()));
}

#[test]
fn make_at_writes_the_escrow_and_deposits() {
    let mut ctx = make_ctx();
    let transfer = make_at(&mut ctx, 7, 500, terms(), &MakeBumps { escrow: 254 }, 5).unwrap();
    let stored = ctx.escrow.unwrap();
    let expected = escrow();
    assert_eq!(stored.seed, expected.seed);
    assert_eq!(stored.receive, 100);
    assert_eq!(stored.minimum_receive, 50);
    assert!(stored.preferred_taker.unwrap().same_as(&key(PREFERRED)));
    assert_eq!(
        (stored.starts_at, stored.exclusive_until, stored.decay_ends_at, stored.expiration),
        (10, 20, 30, 40)
    );
    assert_eq!(stored.bump, 254);
    assert!(stored.maker.same_as(&key(MAKER)));
    assert_eq!(transfer.amount, 500);
    assert_eq!(transfer.decimals, 9);
    assert!(transfer.from.same_as(&key(20)));
    assert!(transfer.to.same_as(&key(21)));
    assert!(transfer.authority.same_as(&key(MAKER)));
    assert!(transfer.mint.same_as(&key(MINT_A)));
    assert!(transfer.signer.is_none());
}

#[test]
fn make_at_refuses_a_schedule_that_already_started() {
    let mut ctx = make_ctx();
    let r = make_at(&mut ctx, 7, 500, terms(), &MakeBumps { escrow: 254 }, 10);
    assert_eq!(r.unwrap_err(), program_error(ErrorCode::InvalidAuctionSchedule));
    assert!(ctx.escrow.is_none());
}

#[test]
fn make_reads_the_clock_after_the_fixed_checks() {
    // Off-chain the clock sysvar cannot be read.
    assert_eq!(current_time(), Err(EscrowError::ClockUnavailable));
    let mut ctx = make_ctx();
    let r = make(&mut ctx, 7, 0, terms(), &MakeBumps { escrow: 254 });
    assert_eq!(r.unwrap_err(), program_error(ErrorCode::InvalidDepositAmount));
    let r = make(&mut ctx, 7, 500, terms(), &MakeBumps { escrow: 254 });
    assert_eq!(r.unwrap_err(), EscrowError::ClockUnavailable);
    assert!(ctx.escrow.is_none());
}

#[test]
fn take_and_refund_report_the_clock_failure() {
    assert_eq!(take(&take_ctx(key(TAKER), 500)).unwrap_err(), EscrowError::ClockUnavailable);
    assert_eq!(refund(&refund_ctx(key(MAKER))).unwrap_err(), EscrowError::ClockUnavailable);
    let mut wrong = take_ctx(key(TAKER), 500);
    wrong.mint_b = key(MINT_A);
    assert_eq!(take(&wrong).unwrap_err(), EscrowError::ConstraintHasOne);
    assert_eq!(refund(&refund_ctx(key(TAKER))).unwrap_err(), EscrowError::ConstraintHasOne);
}

#[test]
fn take_respects_the_schedule() {
    let anyone = take_ctx(key(TAKER), 500);
    let preferred = take_ctx(key(PREFERRED), 500);
    assert_eq!(take_at(&anyone, 9).unwrap_err(), program_error(ErrorCode::AuctionNotStarted));
    assert_eq!(take_at(&anyone, 15).unwrap_err(), program_error(ErrorCode::NotPreferredTaker));
    assert_eq!(take_at(&preferred, 15).unwrap().payment.unwrap().amount, 100);
    assert_eq!(take_at(&anyone, 25).unwrap().payment.unwrap().amount, 75);
    assert_eq!(take_at(&anyone, 35).unwrap().payment.unwrap().amount, 50);
    assert_eq!(take_at(&anyone, 40).unwrap_err(), program_error(ErrorCode::EscrowExpired));
    assert_eq!(take_at(&preferred, 40).unwrap_err(), program_error(ErrorCode::EscrowExpired));
}

#[test]
fn take_settles_both_legs() {
    let s = take_at(&take_ctx(key(TAKER), 500), 25).unwrap();
    let payment = s.payment.unwrap();
    assert!(payment.from.same_as(&key(31)));
    assert!(payment.to.same_as(&key(32)));
    assert!(payment.mint.same_as(&key(MINT_B)));
    assert!(payment.authority.same_as(&key(TAKER)));
    assert_eq!(payment.decimals, 6);
    assert!(payment.signer.is_none());
    assert_eq!(s.release.amount, 500);
    assert!(s.release.from.same_as(&key(21)));
    assert!(s.release.to.same_as(&key(30)));
    assert!(s.release.authority.same_as(&key(33)));
    let signer = s.release.signer.unwrap();
    assert!(signer.maker.same_as(&key(MAKER)));
    assert_eq!((signer.seed, signer.bump), (7, 254));
    assert!(s.vault_rent_to.same_as(&key(TAKER)));
    assert!(s.escrow_rent_to.same_as(&key(MAKER)));
}

#[test]
fn take_refuses_an_empty_vault_and_foreign_accounts() {
    assert_eq!(
        take_at(&take_ctx(key(TAKER), 0), 25).unwrap_err(),
        program_error(ErrorCode::EmptyVault)
    );
    let mut wrong_maker = take_ctx(key(TAKER), 500);
    wrong_maker.maker = key(TAKER);
    assert_eq!(take_at(&wrong_maker, 25).unwrap_err(), EscrowError::ConstraintHasOne);
    let mut wrong_mint = take_ctx(key(TAKER), 500);
    wrong_mint.mint_a = key(MINT_B);
    assert_eq!(take_at(&wrong_mint, 25).unwrap_err(), EscrowError::ConstraintHasOne);
}

#[test]
fn refund_only_outside_the_auction() {
    let ctx = refund_ctx(key(MAKER));
    let early = refund_at(&ctx, 9).unwrap();
    assert!(early.payment.is_none());
    assert_eq!(early.release.amount, 500);
    assert!(early.release.to.same_as(&key(20)));
    assert!(early.vault_rent_to.same_as(&key(MAKER)));
    assert!(early.escrow_rent_to.same_as(&key(MAKER)));
    for t in [10, 19, 20, 29, 30, 39] {
        assert_eq!(refund_at(&ctx, t).unwrap_err(), program_error(ErrorCode::AuctionInProgress));
    }
    assert_eq!(refund_at(&ctx, 40).unwrap().release.amount, 500);
    let mut wrong_mint = ctx;
    wrong_mint.mint_a = key(MINT_B);
    assert_eq!(refund_at(&wrong_mint, 9).unwrap_err(), EscrowError::ConstraintHasOne);
}

#[test]
fn take_and_refund_are_never_both_possible() {
    let t = take_ctx(key(PREFERRED), 500);
    let r = refund_ctx(key(MAKER));
    for now in 0..50 {
        assert!(!(take_at(&t, now).is_ok() && refund_at(&r, now).is_ok()));
        assert!(take_at(&t, now).is_ok() || refund_at(&r, now).is_ok());
    }
}

#[test]
fn update_changes_only_the_opening_price() {
    let mut ctx = Update { maker: key(MAKER), escrow: escrow() };
    update(&mut ctx, 120).unwrap();
    assert_eq!(ctx.escrow.receive, 120);
    assert_eq!(ctx.escrow.minimum_receive, 50);
    assert_eq!(ctx.escrow.starts_at, 10);
    assert_eq!(ctx.escrow.expiration, 40);
    let mut foreign = Update { maker: key(TAKER), escrow: escrow() };
    assert_eq!(update(&mut foreign, 120), Err(EscrowError::ConstraintHasOne));
    assert_eq!(foreign.escrow.receive, 100);
    assert_eq!(update(&mut ctx, 0), Err(program_error(ErrorCode::InvalidReceiveAmount)));
    assert_eq!(ctx.escrow.receive, 120);
}

#[test]
fn update_refuses_a_price_below_the_floor() {
    let mut ctx = Update { maker: key(MAKER), escrow: escrow() };
    assert_eq!(update(&mut ctx, 49), Err(program_error(ErrorCode::InvalidPriceRange)));
    assert_eq!(ctx.escrow.receive, 100);
    assert_eq!(update(&mut ctx, 50), Ok(()));
    assert_eq!(ctx.escrow.receive, 50);
    // With the opening price at the floor the price stays flat.
    let t = Take { escrow: ctx.escrow, ..take_ctx(key(TAKER), 500) };
    assert_eq!(take_at(&t, 25).unwrap().payment.unwrap().amount, 50);
}

#[test]
fn clock_reads_become_times() {
    assert_eq!(time_from_clock(Ok(1_234)), Ok(1_234));
    assert_eq!(time_from_clock(Ok(0)), Ok(0));
    assert_eq!(
        time_from_clock(Err(anchor_lang::prelude::ProgramError::UnsupportedSysvar)),
        Err(EscrowError::ClockUnavailable)
    );
}

#[test]
fn make_then_refund_returns_the_deposit() {
    let mut ctx = make_ctx();
    let deposit = make_at(&mut ctx, 7, 500, terms(), &MakeBumps { escrow: 254 }, 5).unwrap();
    let mut r = refund_ctx(key(MAKER));
    r.escrow = ctx.escrow.unwrap();
    r.vault_amount = deposit.amount;
    let back = refund_at(&r, 6).unwrap();
    assert_eq!(back.release.amount, deposit.amount);
    assert!(back.release.to.same_as(&deposit.from));
}

#[test]
fn runtime_clock_errors_map_to_clock_unavailable() {
    assert_eq!(
        escrowq32026::clock::clock_error(anchor_lang::prelude::ProgramError::UnsupportedSysvar),
        EscrowError::ClockUnavailable
    );
}

#[test]
fn someone_can_always_act_on_a_funded_offer() {
    let open = take_ctx(key(TAKER), 500);
    let owner = refund_ctx(key(MAKER));
    for now in 20..60 {
        assert!(take_at(&open, now).is_ok() || refund_at(&owner, now).is_ok());
    }
}
