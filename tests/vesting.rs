use token_vesting::{
    claim_tokens, claimable_amount, close_vesting_account, init_token_vesting, plan_claim,
    settle_claim, vested_amount, TokenVestingInfo, VestingError,
};

fn grant(total: u64, start: i64, end: i64, cliff: i64) -> TokenVestingInfo {
    init_token_vesting(total, start, end, cliff).unwrap()
}

#[test]
fn create_starts_with_nothing_claimed() {
    let g = grant(1000, 0, 1000, 0);
    assert_eq!(
        g,
        TokenVestingInfo { total_tokens: 1000, claimed_tokens: 0, start_time: 0, end_time: 1000, cliff_period: 0 }
    );
}

#[test]
fn create_rejects_bad_schedules() {
    assert_eq!(init_token_vesting(1000, 10, 10, 0), Err(VestingError::InvalidSchedule));
    assert_eq!(init_token_vesting(1000, 10, 5, 0), Err(VestingError::InvalidSchedule));
    assert_eq!(init_token_vesting(1000, 0, 10, -1), Err(VestingError::InvalidSchedule));
    assert!(init_token_vesting(1000, 0, 10, 20).is_ok());
}

#[test]
fn half_way_claim_pays_half() {
    let mut g = grant(1000, 0, 1000, 0);
    assert_eq!(vested_amount(&g, 500), 500);
    assert_eq!(claimable_amount(&g, 500), 500);
    assert_eq!(claim_tokens(&mut g, 500), Ok(500));
    assert_eq!(g.claimed_tokens, 500);
}

#[test]
fn claim_before_cliff_is_refused() {
    let mut g = grant(1000, 0, 1000, 100);
    assert_eq!(claim_tokens(&mut g, 50), Err(VestingError::CliffPeriodNotReached));
    assert_eq!(g.claimed_tokens, 0);
    assert_eq!(claim_tokens(&mut g, 100), Ok(100));
}

#[test]
fn second_claim_at_same_instant_finds_nothing() {
    let mut g = grant(1000, 0, 1000, 0);
    assert_eq!(claim_tokens(&mut g, 500), Ok(500));
    let before = g;
    assert_eq!(claim_tokens(&mut g, 500), Err(VestingError::NoTokensToClaim));
    assert_eq!(g, before);
}

#[test]
fn claim_past_end_pays_the_rest() {
    let mut g = grant(1000, 0, 1000, 0);
    assert_eq!(claim_tokens(&mut g, 500), Ok(500));
    assert_eq!(vested_amount(&g, 1200), 1000);
    assert_eq!(claimable_amount(&g, 1200), 500);
    assert_eq!(claim_tokens(&mut g, 1200), Ok(500));
    assert_eq!(g.claimed_tokens, 1000);
    assert_eq!(claim_tokens(&mut g, 5000), Err(VestingError::NoTokensToClaim));
}

#[test]
fn vested_amount_truncates() {
    let g = grant(7, 0, 3, 0);
    assert_eq!(vested_amount(&g, 1), 2);
    assert_eq!(vested_amount(&g, 2), 4);
    assert_eq!(vested_amount(&g, 3), 7);
}

#[test]
fn close_returns_whole_custody_balance() {
    let g = grant(1000, 0, 1000, 0);
    assert_eq!(close_vesting_account(g, 1000), 1000);
}

#[test]
fn nothing_vests_before_start() {
    let g = grant(1000, 100, 200, 0);
    assert_eq!(vested_amount(&g, 0), 0);
    assert_eq!(vested_amount(&g, 100), 0);
    assert_eq!(vested_amount(&g, i64::MIN), 0);
    assert_eq!(vested_amount(&g, 150), 500);
    assert_eq!(vested_amount(&g, i64::MAX), 1000);
}

#[test]
fn extreme_values_do_not_overflow() {
    let g = grant(u64::MAX, i64::MIN, i64::MAX, 0);
    assert_eq!(vested_amount(&g, i64::MAX), u64::MAX);
    assert_eq!(vested_amount(&g, 0), 1u64 << 63);
    assert_eq!(vested_amount(&g, i64::MAX - 1), u64::MAX - 1);
    let late = grant(10, i64::MAX - 10, i64::MAX, i64::MAX);
    assert_eq!(plan_claim(&late, i64::MAX), Err(VestingError::CliffPeriodNotReached));
}

#[test]
fn vesting_is_monotone_and_bounded() {
    let g = grant(997, -50, 313, 0);
    let mut last = 0u64;
    let mut t = -100i64;
    while t <= 400 {
        let v = vested_amount(&g, t);
        assert!(v >= last);
        assert!(v <= 997);
        if t >= 313 {
            assert_eq!(v, 997);
        }
        last = v;
        t += 1;
    }
}

#[test]
fn claims_sum_to_claimed_and_never_exceed_total() {
    let mut g = grant(1000, 0, 1000, 10);
    let mut paid = 0u64;
    for t in [0i64, 5, 10, 10, 333, 334, 999, 1000, 1000, 2000] {
        if let Ok(a) = claim_tokens(&mut g, t) {
            paid += a;
        }
        assert_eq!(g.claimed_tokens, paid);
        assert!(g.claimed_tokens <= g.total_tokens);
    }
    assert_eq!(paid, 1000);
}

#[test]
fn failed_transfer_leaves_grant_unchanged() {
    let mut g = grant(1000, 0, 1000, 0);
    let amount = plan_claim(&g, 500).unwrap();
    assert_eq!(amount, 500);
    assert_eq!(g.claimed_tokens, 0);
    assert_eq!(settle_claim(&mut g, amount, false), Err(VestingError::TransferFailed));
    assert_eq!(g.claimed_tokens, 0);
    assert_eq!(settle_claim(&mut g, amount, true), Ok(()));
    assert_eq!(g.claimed_tokens, 500);
}

#[test]
fn record_claim_refuses_to_pass_total() {
    let mut g = grant(1000, 0, 1000, 0);
    assert_eq!(g.record_claim(600), Ok(()));
    assert_eq!(g.record_claim(401), Err(VestingError::ClaimExceedsTotal));
    assert_eq!(g.claimed_tokens, 600);
    assert_eq!(settle_claim(&mut g, 401, true), Err(VestingError::ClaimExceedsTotal));
    assert_eq!(g.record_claim(400), Ok(()));
    assert_eq!(g.claimed_tokens, 1000);
}

#[test]
fn claimable_saturates_at_zero() {
    let g = TokenVestingInfo { total_tokens: 1000, claimed_tokens: 700, start_time: 0, end_time: 1000, cliff_period: 0 };
    assert_eq!(claimable_amount(&g, 500), 0);
    assert_eq!(plan_claim(&g, 500), Err(VestingError::NoTokensToClaim));
    assert_eq!(claimable_amount(&g, 800), 100);
}
