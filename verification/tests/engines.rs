use fundus_ledger::campaign::Campaign;
use fundus_ledger::errors::{ErrorCode, Failure};
use fundus_ledger::identity::Identity;
use fundus_ledger::instructions::withdraw::{Escrow, Payout};
use fundus_ledger::instructions::{
    check_donation, create_campaign, donate, initialize, plan_withdrawal, split_fee, try_donate,
    update_platform_settings, withdraw,
};
use fundus_ledger::program_state::ProgramState;

const CREATOR: u8 = 1;
const DONOR: u8 = 2;
const PLATFORM: u8 = 9;

fn acct(byte: u8) -> Identity {
    Identity::new([byte; 32])
}

fn registry(fee: u64) -> ProgramState {
    let mut state = ProgramState::uninitialized();
    initialize(&mut state, acct(PLATFORM)).unwrap();
    update_platform_settings(&mut state, acct(PLATFORM), fee).unwrap();
    state
}

fn funded(state: &mut ProgramState, goal: u64, gift: u64) -> Campaign {
    let mut c = create_campaign(
        state,
        acct(CREATOR),
        String::from("t"),
        String::from("d"),
        String::from("i"),
        goal,
        1,
    )
    .unwrap();
    let cid = c.cid();
    donate::<u32>(&mut c, acct(DONOR), cid, gift, Ok(()), 2).unwrap();
    c
}

fn escrow(funds: u64, minimum_reserve: u64) -> Escrow {
    Escrow { funds, minimum_reserve }
}

#[test]
fn donation_at_or_below_the_minimum_unit_is_rejected() {
    let mut state = registry(3);
    let mut c = funded(&mut state, 9_000_000_000, 2_000_000_000);
    let before = c.clone();
    for amount in [0u64, 1, 999_999_999, 1_000_000_000] {
        assert_eq!(check_donation(&c, 1, amount), Err(ErrorCode::InvalidDonationAmount));
        assert_eq!(
            donate::<u32>(&mut c, acct(DONOR), 1, amount, Ok(()), 3),
            Err(Failure::Rejected(ErrorCode::InvalidDonationAmount))
        );
    }
    assert_eq!(c, before);
    assert_eq!(check_donation(&c, 1, 1_000_000_001), Ok(()));
    let entry = donate::<u32>(&mut c, acct(DONOR), 1, 1_000_000_001, Ok(()), 3).unwrap();
    assert_eq!(entry.sequence, 1);
    assert_eq!(c.amount_raised(), 3_000_000_001);
}

#[test]
fn donation_to_another_campaign_id_is_rejected() {
    let mut state = registry(3);
    let mut c = funded(&mut state, 9_000_000_000, 2_000_000_000);
    let before = c.clone();
    assert_eq!(check_donation(&c, 2, 0), Err(ErrorCode::CampaignNotFound));
    assert_eq!(
        donate::<u32>(&mut c, acct(DONOR), 2, 2_000_000_000, Ok(()), 3),
        Err(Failure::Rejected(ErrorCode::CampaignNotFound))
    );
    assert_eq!(c, before);
}

#[test]
fn failed_transfer_leaves_the_campaign_untouched() {
    let mut state = registry(3);
    let mut c = funded(&mut state, 9_000_000_000, 2_000_000_000);
    let before = c.clone();
    assert_eq!(
        donate(&mut c, acct(DONOR), 1, 2_000_000_000, Err("no funds"), 3),
        Err(Failure::Transfer("no funds"))
    );
    assert_eq!(c, before);
    assert_eq!(
        withdraw(
            &mut c,
            &state,
            acct(CREATOR),
            acct(PLATFORM),
            1,
            1_500_000_000,
            escrow(5_000_000_000, 0),
            Err(17u8),
            4
        ),
        Err(Failure::Transfer(17u8))
    );
    assert_eq!(c, before);
}

#[test]
fn rules_are_checked_before_the_transfer_is_looked_at() {
    let mut state = registry(3);
    let mut c = funded(&mut state, 9_000_000_000, 2_000_000_000);
    assert_eq!(
        donate(&mut c, acct(DONOR), 1, 5, Err("no funds"), 3),
        Err(Failure::Rejected(ErrorCode::InvalidDonationAmount))
    );
    assert_eq!(
        withdraw(
            &mut c,
            &state,
            acct(DONOR),
            acct(PLATFORM),
            1,
            1_500_000_000,
            escrow(5_000_000_000, 0),
            Err(17u8),
            4
        ),
        Err(Failure::Rejected(ErrorCode::UnauthorisedAccess))
    );
}

#[test]
fn withdrawal_of_the_whole_balance_is_rejected() {
    let mut state = registry(3);
    let mut c = funded(&mut state, 9_000_000_000, 4_000_000_000);
    let before = c.clone();
    for amount in [4_000_000_000u64, 4_000_000_001, u64::MAX] {
        assert_eq!(
            withdraw::<u32>(
                &mut c,
                &state,
                acct(CREATOR),
                acct(PLATFORM),
                1,
                amount,
                escrow(u64::MAX, 0),
                Ok(()),
                4
            ),
            Err(Failure::Rejected(ErrorCode::InsufficientFund))
        );
    }
    assert_eq!(c, before);
    let w = withdraw::<u32>(
        &mut c,
        &state,
        acct(CREATOR),
        acct(PLATFORM),
        1,
        3_999_999_999,
        escrow(u64::MAX, 0),
        Ok(()),
        4,
    )
    .unwrap();
    assert_eq!(w.payout.platform_fee_amount, 119_999_999);
    assert_eq!(w.payout.creator_amount, 3_880_000_000);
    assert_eq!(c.balance(), 1);
}

#[test]
fn withdrawal_at_or_below_the_minimum_unit_is_rejected() {
    let mut state = registry(3);
    let c = funded(&mut state, 9_000_000_000, 4_000_000_000);
    for amount in [0u64, 1, 1_000_000_000] {
        assert_eq!(
            plan_withdrawal(
                &c,
                &state,
                acct(CREATOR),
                acct(PLATFORM),
                1,
                amount,
                escrow(u64::MAX, 0)
            ),
            Err(ErrorCode::InvalidWithdrawAmount)
        );
    }
    assert_eq!(
        plan_withdrawal(
            &c,
            &state,
            acct(CREATOR),
            acct(PLATFORM),
            1,
            1_000_000_001,
            escrow(u64::MAX, 0)
        ),
        Ok(Payout { creator_amount: 970_000_001, platform_fee_amount: 30_000_000 })
    );
}

#[test]
fn withdrawal_is_for_the_creator_only() {
    let mut state = registry(3);
    let mut c = funded(&mut state, 9_000_000_000, 4_000_000_000);
    let before = c.clone();
    for other in [DONOR, PLATFORM, 0] {
        assert_eq!(
            withdraw::<u32>(
                &mut c,
                &state,
                acct(other),
                acct(PLATFORM),
                1,
                2_000_000_000,
                escrow(u64::MAX, 0),
                Ok(()),
                4
            ),
            Err(Failure::Rejected(ErrorCode::UnauthorisedAccess))
        );
    }
    assert_eq!(c, before);
}

#[test]
fn withdrawal_checks_the_campaign_id_first() {
    let mut state = registry(3);
    let c = funded(&mut state, 9_000_000_000, 4_000_000_000);
    assert_eq!(
        plan_withdrawal(&c, &state, acct(DONOR), acct(DONOR), 2, 0, escrow(0, 0)),
        Err(ErrorCode::CampaignNotFound)
    );
}

#[test]
fn withdrawal_needs_the_platform_address() {
    let mut state = registry(3);
    let mut c = funded(&mut state, 9_000_000_000, 4_000_000_000);
    let before = c.clone();
    assert_eq!(
        withdraw::<u32>(
            &mut c,
            &state,
            acct(CREATOR),
            acct(CREATOR),
            1,
            2_000_000_000,
            escrow(u64::MAX, 0),
            Ok(()),
            4
        ),
        Err(Failure::Rejected(ErrorCode::InvalidPlatformAddress))
    );
    assert_eq!(c, before);
}

#[test]
fn withdrawal_must_leave_the_reserve_in_escrow() {
    let mut state = registry(3);
    let mut c = funded(&mut state, 9_000_000_000, 4_000_000_000);
    let before = c.clone();
    let ask = |c: &Campaign, e: Escrow| {
        plan_withdrawal(c, &state, acct(CREATOR), acct(PLATFORM), 1, 2_000_000_000, e)
    };
    assert_eq!(ask(&c, escrow(2_000_999_999, 1_000_000)), Err(ErrorCode::InsufficientFund));
    assert_eq!(ask(&c, escrow(1_999_999_999, 0)), Err(ErrorCode::InsufficientFund));
    assert_eq!(ask(&c, escrow(5, 1_000_000)), Err(ErrorCode::InsufficientFund));
    assert_eq!(ask(&c, escrow(0, u64::MAX)), Err(ErrorCode::InsufficientFund));
    assert!(ask(&c, escrow(2_001_000_000, 1_000_000)).is_ok());
    assert!(ask(&c, escrow(2_000_000_000, 0)).is_ok());
    assert_eq!(
        withdraw::<u32>(
            &mut c,
            &state,
            acct(CREATOR),
            acct(PLATFORM),
            1,
            2_000_000_000,
            escrow(2_000_999_999, 1_000_000),
            Ok(()),
            4
        ),
        Err(Failure::Rejected(ErrorCode::InsufficientFund))
    );
    assert_eq!(c, before);
}

#[test]
fn fee_split_rounds_the_fee_down_and_loses_nothing() {
    let cases: [(u64, u64, u64); 8] = [
        (3, 2_000_000_000, 60_000_000),
        (3, 1_000_000_001, 30_000_000),
        (1, 1_000_000_099, 10_000_000),
        (1, 1_000_000_100, 10_000_001),
        (15, 1_000_000_001, 150_000_000),
        (15, 1_000_000_007, 150_000_001),
        (7, 33, 2),
        (15, u64::MAX, 2_767_011_611_056_432_742),
    ];
    for (fee, amount, share) in cases {
        let state = registry(fee);
        let payout = split_fee(&state, amount);
        assert_eq!(payout.platform_fee_amount, share);
        assert_eq!(payout.creator_amount, amount - share);
        assert_eq!(payout.creator_amount + payout.platform_fee_amount, amount);
    }
}

#[test]
fn fee_follows_the_platform_settings() {
    let mut state = registry(15);
    let mut c = funded(&mut state, 90_000_000_000, 40_000_000_000);
    let w = withdraw::<u32>(
        &mut c,
        &state,
        acct(CREATOR),
        acct(PLATFORM),
        1,
        10_000_000_000,
        escrow(u64::MAX, 0),
        Ok(()),
        4,
    )
    .unwrap();
    assert_eq!(w.payout.platform_fee_amount, 1_500_000_000);
    assert_eq!(w.payout.creator_amount, 8_500_000_000);
    update_platform_settings(&mut state, acct(PLATFORM), 1).unwrap();
    let w = withdraw::<u32>(
        &mut c,
        &state,
        acct(CREATOR),
        acct(PLATFORM),
        1,
        10_000_000_000,
        escrow(u64::MAX, 0),
        Ok(()),
        5,
    )
    .unwrap();
    assert_eq!(w.payout.platform_fee_amount, 100_000_000);
    assert_eq!(w.payout.creator_amount, 9_900_000_000);
    assert_eq!(w.entry.sequence, 1);
    assert_eq!(c.balance(), 20_000_000_000);
    assert_eq!(c.withdrawals(), 2);
}

#[test]
fn very_large_amounts_are_handled() {
    let mut state = registry(15);
    let mut c = create_campaign(
        &mut state,
        acct(CREATOR),
        String::new(),
        String::new(),
        String::new(),
        u64::MAX,
        1,
    )
    .unwrap();
    donate::<u32>(&mut c, acct(DONOR), 1, u64::MAX, Ok(()), 2).unwrap();
    assert_eq!(c.amount_raised(), u64::MAX);
    let w = withdraw::<u32>(
        &mut c,
        &state,
        acct(CREATOR),
        acct(PLATFORM),
        1,
        u64::MAX - 1,
        escrow(u64::MAX, 1),
        Ok(()),
        3,
    )
    .unwrap();
    assert_eq!(w.payout.platform_fee_amount, 2_767_011_611_056_432_742);
    assert_eq!(w.payout.creator_amount, u64::MAX - 1 - 2_767_011_611_056_432_742);
    assert_eq!(c.balance(), 1);
}

#[test]
fn donation_that_the_books_cannot_take_changes_nothing() {
    let mut state = registry(3);
    let mut c = funded(&mut state, u64::MAX, u64::MAX - 5);
    let before = c.clone();
    assert_eq!(try_donate::<u32>(&mut c, acct(DONOR), 1, 1_000_000_001, Ok(()), 3), None);
    assert_eq!(c, before);
    assert_eq!(
        try_donate(&mut c, acct(DONOR), 1, 1_000_000_001, Err(4u32), 3),
        Some(Err(Failure::Transfer(4u32)))
    );
    assert_eq!(
        try_donate::<u32>(&mut c, acct(DONOR), 1, 6, Ok(()), 3),
        Some(Err(Failure::Rejected(ErrorCode::InvalidDonationAmount)))
    );
    assert_eq!(
        try_donate::<u32>(&mut c, acct(DONOR), 2, u64::MAX, Ok(()), 3),
        Some(Err(Failure::Rejected(ErrorCode::CampaignNotFound)))
    );
    assert_eq!(c, before);
}

#[test]
fn try_donate_agrees_with_donate_where_the_total_fits() {
    let mut state = registry(3);
    let mut a = funded(&mut state, 9_000_000_000, 2_000_000_000);
    let mut b = a.clone();
    let x = try_donate::<u32>(&mut a, acct(DONOR), 1, 3_000_000_000, Ok(()), 3);
    let y = donate::<u32>(&mut b, acct(DONOR), 1, 3_000_000_000, Ok(()), 3);
    assert_eq!(x, Some(y));
    assert_eq!(a, b);
    assert_eq!(a.amount_raised(), 5_000_000_000);
    assert_eq!(a.balance(), 5_000_000_000);
    assert_eq!(a.donors(), 2);
    assert_eq!(x.unwrap().unwrap().sequence, 1);
}
