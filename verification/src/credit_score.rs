use vstd::prelude::*;

use crate::address::Address;

verus! {

/// Highest score a record can reach.
pub const MAX_SCORE: i32 = 1000;

/// Lowest score a record can fall to.
pub const MIN_SCORE: i32 = 0;

/// Points earned by one contribution to a savings circle.
pub const POINTS_PER_CONTRIBUTION: i32 = 10;

/// Points earned by one repaid loan.
pub const POINTS_PER_LOAN_REPAID: i32 = 50;

/// Points lost by one defaulted loan.
pub const PENALTY_DEFAULT: i32 = 150;

/// The credit history of one user.
#[derive(Debug)]
pub struct CreditScore {
    pub owner: Address,
    pub score: i32,
    pub total_contributions: u32,
    pub total_loans_repaid: u32,
    pub total_defaults: u32,
}

/// What a [`CreditScore`] holds, the owner taken by its bytes.
pub struct CreditScoreView {
    pub owner: Seq<u8>,
    pub score: int,
    pub total_contributions: nat,
    pub total_loans_repaid: nat,
    pub total_defaults: nat,
}

impl View for CreditScore {
    type V = CreditScoreView;

    open spec fn view(&self) -> CreditScoreView {
        CreditScoreView {
            owner: self.owner@,
            score: self.score as int,
            total_contributions: self.total_contributions as nat,
            total_loans_repaid: self.total_loans_repaid as nat,
            total_defaults: self.total_defaults as nat,
        }
    }
}

/// An event of a user's credit history.
#[derive(Clone, Copy, Debug, PartialEq, Eq, Structural)]
pub enum CreditEvent {
    Contribution,
    LoanRepaid,
    LoanDefaulted,
}

/// The credit score contract: each method is one transition of a
/// [`CreditScore`] record.
pub struct CreditScoreContract;

/// `score` raised by `points`, capped at [`MAX_SCORE`].
pub open spec fn raised(score: int, points: int) -> int {
    if score + points < MAX_SCORE {
        score + points
    } else {
        MAX_SCORE as int
    }
}

/// `score` lowered by `penalty`, floored at [`MIN_SCORE`].
pub open spec fn lowered(score: int, penalty: int) -> int {
    if score - penalty > MIN_SCORE {
        score - penalty
    } else {
        MIN_SCORE as int
    }
}

impl CreditScore {
    /// The score lies within `[MIN_SCORE, MAX_SCORE]`.
    pub open spec fn in_range(&self) -> bool {
        MIN_SCORE <= self.score <= MAX_SCORE
    }
}

/// The record after one event.
pub open spec fn apply_event(r: CreditScoreView, e: CreditEvent) -> CreditScoreView {
    match e {
        CreditEvent::Contribution => CreditScoreView {
            score: raised(r.score, POINTS_PER_CONTRIBUTION as int),
            total_contributions: r.total_contributions + 1,
            ..r
        },
        CreditEvent::LoanRepaid => CreditScoreView {
            score: raised(r.score, POINTS_PER_LOAN_REPAID as int),
            total_loans_repaid: r.total_loans_repaid + 1,
            ..r
        },
        CreditEvent::LoanDefaulted => CreditScoreView {
            score: lowered(r.score, PENALTY_DEFAULT as int),
            total_defaults: r.total_defaults + 1,
            ..r
        },
    }
}

/// The record after `events`, applied in order.
pub open spec fn apply_events(r: CreditScoreView, events: Seq<CreditEvent>) -> CreditScoreView
    decreases events.len(),
{
    if events.len() == 0 {
        r
    } else {
        apply_event(apply_events(r, events.drop_last()), events.last())
    }
}

/// How many times `e` occurs in `events`.
pub open spec fn occurrences(events: Seq<CreditEvent>, e: CreditEvent) -> nat
    decreases events.len(),
{
    if events.len() == 0 {
        0
    } else {
        occurrences(events.drop_last(), e) + if events.last() == e {
            1nat
        } else {
            0nat
        }
    }
}

/// A fresh record for `owner`.
pub open spec fn fresh_record(owner: Seq<u8>) -> CreditScoreView {
    CreditScoreView {
        owner,
        score: 0,
        total_contributions: 0,
        total_loans_repaid: 0,
        total_defaults: 0,
    }
}

impl CreditScoreContract {
    /// A fresh record for `owner`: score zero and no history.
    pub fn initialize(owner: Address) -> (record: CreditScore)
        ensures
            record.owner@ == owner@,
            record.score == 0,
            record.total_contributions == 0,
            record.total_loans_repaid == 0,
            record.total_defaults == 0,
            record.in_range(),
            record@ == fresh_record(owner@),
    {
        CreditScore {
            owner,
            score: 0,
            total_contributions: 0,
            total_loans_repaid: 0,
            total_defaults: 0,
        }
    }

    /// Records a successful contribution: the score rises by
    /// [`POINTS_PER_CONTRIBUTION`], capped at [`MAX_SCORE`].
    pub fn on_contribution(record: &mut CreditScore)
        requires
            old(record).score + POINTS_PER_CONTRIBUTION <= i32::MAX,
            old(record).total_contributions < u32::MAX,
        ensures
            final(record)@ == apply_event(old(record)@, CreditEvent::Contribution),
            final(record).score == raised(old(record).score as int, POINTS_PER_CONTRIBUTION as int),
            final(record).total_contributions == old(record).total_contributions + 1,
            final(record).total_loans_repaid == old(record).total_loans_repaid,
            final(record).total_defaults == old(record).total_defaults,
            final(record).owner == old(record).owner,
            old(record).in_range() ==> final(record).in_range(),
            old(record).in_range() ==> final(record).score >= old(record).score,
            old(record).score + POINTS_PER_CONTRIBUTION <= MAX_SCORE ==> final(record).score == old(record).score + POINTS_PER_CONTRIBUTION,
            old(record).score + POINTS_PER_CONTRIBUTION >= MAX_SCORE ==> final(record).score == MAX_SCORE,
    {
        let raised_score = record.score + POINTS_PER_CONTRIBUTION;
        record.score = if raised_score < MAX_SCORE { raised_score } else { MAX_SCORE };
        record.total_contributions = record.total_contributions + 1;
    }

    /// Records a repaid loan: the score rises by [`POINTS_PER_LOAN_REPAID`],
    /// capped at [`MAX_SCORE`].
    pub fn on_loan_repaid(record: &mut CreditScore)
        requires
            old(record).score + POINTS_PER_LOAN_REPAID <= i32::MAX,
            old(record).total_loans_repaid < u32::MAX,
        ensures
            final(record)@ == apply_event(old(record)@, CreditEvent::LoanRepaid),
            final(record).score == raised(old(record).score as int, POINTS_PER_LOAN_REPAID as int),
            final(record).total_loans_repaid == old(record).total_loans_repaid + 1,
            final(record).total_contributions == old(record).total_contributions,
            final(record).total_defaults == old(record).total_defaults,
            final(record).owner == old(record).owner,
            old(record).in_range() ==> final(record).in_range(),
            old(record).in_range() ==> final(record).score >= old(record).score,
            old(record).score + POINTS_PER_LOAN_REPAID <= MAX_SCORE ==> final(record).score == old(record).score + POINTS_PER_LOAN_REPAID,
            old(record).score + POINTS_PER_LOAN_REPAID >= MAX_SCORE ==> final(record).score == MAX_SCORE,
    {
        let raised_score = record.score + POINTS_PER_LOAN_REPAID;
        record.score = if raised_score < MAX_SCORE { raised_score } else { MAX_SCORE };
        record.total_loans_repaid = record.total_loans_repaid + 1;
    }

    /// Records a defaulted loan: the score falls by [`PENALTY_DEFAULT`],
    /// floored at [`MIN_SCORE`].
    pub fn on_loan_defaulted(record: &mut CreditScore)
        requires
            old(record).score - PENALTY_DEFAULT >= i32::MIN,
            old(record).total_defaults < u32::MAX,
        ensures
            final(record)@ == apply_event(old(record)@, CreditEvent::LoanDefaulted),
            final(record).score == lowered(old(record).score as int, PENALTY_DEFAULT as int),
            final(record).total_defaults == old(record).total_defaults + 1,
            final(record).total_contributions == old(record).total_contributions,
            final(record).total_loans_repaid == old(record).total_loans_repaid,
            final(record).owner == old(record).owner,
            old(record).in_range() ==> final(record).in_range(),
            old(record).in_range() ==> final(record).score <= old(record).score,
            old(record).score - PENALTY_DEFAULT >= MIN_SCORE ==> final(record).score == old(record).score - PENALTY_DEFAULT,
            old(record).score - PENALTY_DEFAULT <= MIN_SCORE ==> final(record).score == MIN_SCORE,
    {
        let lowered_score = record.score - PENALTY_DEFAULT;
        record.score = if lowered_score > MIN_SCORE { lowered_score } else { MIN_SCORE };
        record.total_defaults = record.total_defaults + 1;
    }

    /// Whether the record's score reaches `min_score`.
    pub fn is_eligible_for_loan(record: &CreditScore, min_score: i32) -> (eligible: bool)
        ensures
            eligible == (record.score >= min_score),
    {
        record.score >= min_score
    }
}

/// The score after `k` contributions, starting from `score`.
pub open spec fn after_contributions(score: int, k: nat) -> int
    decreases k,
{
    if k == 0 {
        score
    } else {
        raised(after_contributions(score, (k - 1) as nat), POINTS_PER_CONTRIBUTION as int)
    }
}

/// Contributions accumulate: `k` contributions starting from a score in
/// range raise it by `k * POINTS_PER_CONTRIBUTION`, up to [`MAX_SCORE`].
pub proof fn lemma_contributions_accumulate(score: int, k: nat)
    requires
        MIN_SCORE <= score <= MAX_SCORE,
    ensures
        after_contributions(score, k) == if score + k * POINTS_PER_CONTRIBUTION < MAX_SCORE {
            score + k * POINTS_PER_CONTRIBUTION
        } else {
            MAX_SCORE as int
        },
    decreases k,
{
    if k > 0 {
        lemma_contributions_accumulate(score, (k - 1) as nat);
    }
}

/// Eligibility only grows with rewards and only shrinks with penalties: a
/// user eligible at some threshold stays eligible after a contribution or a
/// repayment, and a user ineligible stays ineligible after a default.
pub proof fn lemma_eligibility_follows_score(score: int, min_score: int)
    requires
        MIN_SCORE <= score <= MAX_SCORE,
    ensures
        score >= min_score ==> raised(score, POINTS_PER_CONTRIBUTION as int) >= min_score,
        score >= min_score ==> raised(score, POINTS_PER_LOAN_REPAID as int) >= min_score,
        score < min_score ==> lowered(score, PENALTY_DEFAULT as int) < min_score,
{
}

/// A reward of `points` adds exactly `points` to the score, unless that would
/// pass [`MAX_SCORE`], in which case the score becomes [`MAX_SCORE`]; this
/// holds for contributions and repayments alike, at every score.
pub proof fn lemma_reward_adds_points_up_to_cap(score: int, points: int)
    requires
        points >= 0,
    ensures
        score + points <= MAX_SCORE ==> raised(score, points) == score + points,
        score + points >= MAX_SCORE ==> raised(score, points) == MAX_SCORE,
        score + POINTS_PER_CONTRIBUTION <= MAX_SCORE ==> apply_event(
            CreditScoreView { score, ..fresh_record(Seq::empty()) },
            CreditEvent::Contribution,
        ).score == score + POINTS_PER_CONTRIBUTION,
        score + POINTS_PER_LOAN_REPAID <= MAX_SCORE ==> apply_event(
            CreditScoreView { score, ..fresh_record(Seq::empty()) },
            CreditEvent::LoanRepaid,
        ).score == score + POINTS_PER_LOAN_REPAID,
{
}

/// A default takes exactly [`PENALTY_DEFAULT`] off the score, unless that
/// would fall below [`MIN_SCORE`], in which case the score becomes
/// [`MIN_SCORE`]: at every score, the penalty is taken once.
pub proof fn lemma_default_takes_penalty_down_to_floor(score: int, penalty: int)
    requires
        penalty >= 0,
    ensures
        score - penalty >= MIN_SCORE ==> lowered(score, penalty) == score - penalty,
        score - penalty <= MIN_SCORE ==> lowered(score, penalty) == MIN_SCORE,
        score - PENALTY_DEFAULT >= MIN_SCORE ==> apply_event(
            CreditScoreView { score, ..fresh_record(Seq::empty()) },
            CreditEvent::LoanDefaulted,
        ).score == score - PENALTY_DEFAULT,
        score - PENALTY_DEFAULT <= MIN_SCORE ==> apply_event(
            CreditScoreView { score, ..fresh_record(Seq::empty()) },
            CreditEvent::LoanDefaulted,
        ).score == MIN_SCORE,
{
}

/// Any history of contributions, repayments and defaults, in any order: the
/// owner is kept, each counter grows by the number of events of its kind,
/// and a score in `[MIN_SCORE, MAX_SCORE]` stays there.
pub proof fn lemma_event_history(r: CreditScoreView, events: Seq<CreditEvent>)
    requires
        MIN_SCORE <= r.score <= MAX_SCORE,
    ensures
        apply_events(r, events).owner == r.owner,
        apply_events(r, events).total_contributions == r.total_contributions + occurrences(
            events,
            CreditEvent::Contribution,
        ),
        apply_events(r, events).total_loans_repaid == r.total_loans_repaid + occurrences(
            events,
            CreditEvent::LoanRepaid,
        ),
        apply_events(r, events).total_defaults == r.total_defaults + occurrences(
            events,
            CreditEvent::LoanDefaulted,
        ),
        MIN_SCORE <= apply_events(r, events).score <= MAX_SCORE,
    decreases events.len(),
{
    if events.len() > 0 {
        lemma_event_history(r, events.drop_last());
    }
}

/// The history of a fresh record: starting from [`CreditScoreContract::initialize`],
/// after any interleaving of events the record names the same owner, counts
/// exactly the contributions, repayments and defaults that happened, and
/// holds a score in `[MIN_SCORE, MAX_SCORE]`.
pub proof fn lemma_fresh_history(owner: Seq<u8>, events: Seq<CreditEvent>)
    ensures
        apply_events(fresh_record(owner), events) == (CreditScoreView {
            owner,
            score: apply_events(fresh_record(owner), events).score,
            total_contributions: occurrences(events, CreditEvent::Contribution),
            total_loans_repaid: occurrences(events, CreditEvent::LoanRepaid),
            total_defaults: occurrences(events, CreditEvent::LoanDefaulted),
        }),
        MIN_SCORE <= apply_events(fresh_record(owner), events).score <= MAX_SCORE,
{
    lemma_event_history(fresh_record(owner), events);
}

} // verus!
