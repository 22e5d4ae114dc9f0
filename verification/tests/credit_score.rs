use chaincircle::address::Address;
use chaincircle::credit_score::{
    CreditScoreContract, MAX_SCORE, MIN_SCORE, PENALTY_DEFAULT, POINTS_PER_CONTRIBUTION,
    POINTS_PER_LOAN_REPAID,
};

fn user() -> Address {
    Address::from_bytes(b"GAUSER0000000000000000000000000000000000000000000000000".to_vec())
}

#[test]
fn test_score_increases_on_contribution() {
    let mut score = CreditScoreContract::initialize(user());
    CreditScoreContract::on_contribution(&mut score);
    CreditScoreContract::on_contribution(&mut score);

    assert_eq!(score.score, 20);
    assert_eq!(score.total_contributions, 2);
}

#[test]
fn test_score_increases_on_loan_repaid() {
    let mut score = CreditScoreContract::initialize(user());
    CreditScoreContract::on_loan_repaid(&mut score);

    assert_eq!(score.score, 50);
}

#[test]
fn test_score_decreases_on_default() {
    let mut score = CreditScoreContract::initialize(user());
    CreditScoreContract::on_contribution(&mut score); // +10
    CreditScoreContract::on_loan_defaulted(&mut score); // -150, floor at 0

    assert_eq!(score.score, 0);
}

#[test]
fn test_loan_eligibility() {
    let mut score = CreditScoreContract::initialize(user());

    assert!(!CreditScoreContract::is_eligible_for_loan(&score, 300));

    for _ in 0..30 {
        CreditScoreContract::on_contribution(&mut score);
    }

    assert!(CreditScoreContract::is_eligible_for_loan(&score, 300));
}

#[test]
fn initialize_starts_empty() {
    let score = CreditScoreContract::initialize(user());
    assert_eq!(score.owner, user());
    assert_eq!(score.score, 0);
    assert_eq!(score.total_contributions, 0);
    assert_eq!(score.total_loans_repaid, 0);
    assert_eq!(score.total_defaults, 0);
}

#[test]
fn constants_are_the_documented_ones() {
    assert_eq!(MAX_SCORE, 1000);
    assert_eq!(MIN_SCORE, 0);
    assert_eq!(POINTS_PER_CONTRIBUTION, 10);
    assert_eq!(POINTS_PER_LOAN_REPAID, 50);
    assert_eq!(PENALTY_DEFAULT, 150);
}

#[test]
fn contributions_cap_at_max_score() {
    let mut score = CreditScoreContract::initialize(user());
    for _ in 0..99 {
        CreditScoreContract::on_contribution(&mut score);
    }
    assert_eq!(score.score, 990);
    CreditScoreContract::on_contribution(&mut score);
    assert_eq!(score.score, 1000);
    for _ in 0..5 {
        CreditScoreContract::on_contribution(&mut score);
    }
    assert_eq!(score.score, 1000);
    assert_eq!(score.total_contributions, 105);
}

#[test]
fn repayments_cap_at_max_score() {
    let mut score = CreditScoreContract::initialize(user());
    score.score = 980;
    CreditScoreContract::on_loan_repaid(&mut score);
    assert_eq!(score.score, 1000);
    assert_eq!(score.total_loans_repaid, 1);
    assert_eq!(score.total_contributions, 0);
}

#[test]
fn default_subtracts_penalty_above_floor() {
    let mut score = CreditScoreContract::initialize(user());
    score.score = 400;
    CreditScoreContract::on_loan_defaulted(&mut score);
    assert_eq!(score.score, 250);
    assert_eq!(score.total_defaults, 1);
    score.score = 150;
    CreditScoreContract::on_loan_defaulted(&mut score);
    assert_eq!(score.score, 0);
    assert_eq!(score.total_defaults, 2);
}

#[test]
fn counters_track_each_event_separately() {
    let mut score = CreditScoreContract::initialize(user());
    CreditScoreContract::on_contribution(&mut score);
    CreditScoreContract::on_loan_repaid(&mut score);
    CreditScoreContract::on_loan_repaid(&mut score);
    CreditScoreContract::on_loan_defaulted(&mut score);
    assert_eq!(score.total_contributions, 1);
    assert_eq!(score.total_loans_repaid, 2);
    assert_eq!(score.total_defaults, 1);
    assert_eq!(score.score, 0);
    assert_eq!(score.owner, user());
}

#[test]
fn eligibility_is_inclusive_at_threshold() {
    let mut score = CreditScoreContract::initialize(user());
    score.score = 300;
    assert!(CreditScoreContract::is_eligible_for_loan(&score, 300));
    assert!(!CreditScoreContract::is_eligible_for_loan(&score, 301));
    assert!(CreditScoreContract::is_eligible_for_loan(&score, -5));
}

#[test]
fn eligibility_survives_rewards_and_is_lost_to_default() {
    let mut score = CreditScoreContract::initialize(user());
    score.score = 300;
    CreditScoreContract::on_contribution(&mut score);
    assert!(CreditScoreContract::is_eligible_for_loan(&score, 300));
    CreditScoreContract::on_loan_defaulted(&mut score);
    assert!(!CreditScoreContract::is_eligible_for_loan(&score, 300));
}

#[test]
fn mixed_history_counts_every_event() {
    let mut score = CreditScoreContract::initialize(user());
    CreditScoreContract::on_loan_defaulted(&mut score);
    CreditScoreContract::on_contribution(&mut score);
    CreditScoreContract::on_loan_repaid(&mut score);
    CreditScoreContract::on_contribution(&mut score);
    CreditScoreContract::on_loan_defaulted(&mut score);
    CreditScoreContract::on_loan_repaid(&mut score);
    CreditScoreContract::on_loan_repaid(&mut score);
    assert_eq!(score.owner, user());
    assert_eq!(score.total_contributions, 2);
    assert_eq!(score.total_loans_repaid, 3);
    assert_eq!(score.total_defaults, 2);
    // 0 -> 0 -> 10 -> 60 -> 70 -> 0 -> 50 -> 100
    assert_eq!(score.score, 100);
}
