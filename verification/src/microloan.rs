use vstd::prelude::*;

use crate::address::Address;

verus! {

/// Basis points in one whole: an interest rate of 250 basis points is 2.5%.
pub const BASIS_POINTS: i128 = 10_000;

/// Where a loan stands.
#[derive(Clone, Copy, Debug, PartialEq, Eq, Structural)]
pub enum LoanStatus {
    Active,
    Repaid,
    Defaulted,
}

/// A microloan: principal, interest rate in basis points, and the ledger
/// after which it may be declared in default.
#[derive(Debug)]
pub struct Loan {
    pub borrower: Address,
    pub amount: i128,
    pub interest_rate_bps: u32,
    pub due_ledger: u32,
    pub status: LoanStatus,
}

/// What a [`Loan`] holds, with the borrower taken by its bytes.
pub struct LoanView {
    pub borrower: Seq<u8>,
    pub amount: i128,
    pub interest_rate_bps: u32,
    pub due_ledger: u32,
    pub status: LoanStatus,
}

impl View for Loan {
    type V = LoanView;

    open spec fn view(&self) -> LoanView {
        LoanView {
            borrower: self.borrower@,
            amount: self.amount,
            interest_rate_bps: self.interest_rate_bps,
            due_ledger: self.due_ledger,
            status: self.status,
        }
    }
}

/// Why a request on a loan was refused.
#[derive(Clone, Copy, Debug, PartialEq, Eq, Structural)]
pub enum LoanError {
    /// The caller is not the borrower of the loan.
    NotBorrower,
    /// The loan has already been repaid or declared in default.
    NotActive,
    /// The due ledger has not yet passed.
    NotPastDue,
}

impl LoanError {
    /// The message with which the contract rejects the request.
    pub fn message(&self) -> (m: &'static str)
        ensures
            *self == LoanError::NotBorrower ==> m@ == "Not the loan borrower"@,
            *self == LoanError::NotActive ==> m@ == "Loan is not active"@,
            *self == LoanError::NotPastDue ==> m@ == "Loan is not yet past due"@,
    {
        match self {
            LoanError::NotBorrower => "Not the loan borrower",
            LoanError::NotActive => "Loan is not active",
            LoanError::NotPastDue => "Loan is not yet past due",
        }
    }
}

/// The microloan contract: each method is one transition of a [`Loan`].
pub struct MicroloanContract;

/// Interest on `amount` at `rate_bps` basis points, rounded toward zero.
pub open spec fn interest(amount: int, rate_bps: int) -> int {
    let product = amount * rate_bps;
    if product >= 0 {
        product / (BASIS_POINTS as int)
    } else {
        -((-product) / (BASIS_POINTS as int))
    }
}

/// Principal plus interest.
pub open spec fn total_due(amount: int, rate_bps: int) -> int {
    amount + interest(amount, rate_bps)
}

/// The outcome of a repayment by `who`: the loan marked repaid, or why not.
pub open spec fn repay_outcome(loan: LoanView, who: Seq<u8>) -> Result<LoanView, LoanError> {
    if loan.borrower != who {
        Err(LoanError::NotBorrower)
    } else if loan.status != LoanStatus::Active {
        Err(LoanError::NotActive)
    } else {
        Ok(LoanView { status: LoanStatus::Repaid, ..loan })
    }
}

/// The outcome of declaring the loan in default at ledger `ledger`.
pub open spec fn default_outcome(loan: LoanView, ledger: u32) -> Result<LoanView, LoanError> {
    if loan.status != LoanStatus::Active {
        Err(LoanError::NotActive)
    } else if ledger <= loan.due_ledger {
        Err(LoanError::NotPastDue)
    } else {
        Ok(LoanView { status: LoanStatus::Defaulted, ..loan })
    }
}

impl MicroloanContract {
    /// A new active loan of `amount` to `borrower`, due `repayment_ledgers`
    /// ledgers after `current_ledger`.
    pub fn disburse(
        current_ledger: u32,
        borrower: Address,
        amount: i128,
        interest_rate_bps: u32,
        repayment_ledgers: u32,
    ) -> (loan: Loan)
        requires
            current_ledger + repayment_ledgers <= u32::MAX,
        ensures
            loan@ == (LoanView {
                borrower: borrower@,
                amount,
                interest_rate_bps,
                due_ledger: (current_ledger + repayment_ledgers) as u32,
                status: LoanStatus::Active,
            }),
    {
        Loan {
            borrower,
            amount,
            interest_rate_bps,
            due_ledger: current_ledger + repayment_ledgers,
            status: LoanStatus::Active,
        }
    }

    /// Records the repayment of the loan by `borrower`. Refused, with the loan
    /// unchanged, when `borrower` is not the loan's borrower or the loan is no
    /// longer active.
    pub fn repay(loan: &mut Loan, borrower: &Address) -> (r: Result<(), LoanError>)
        ensures
            match repay_outcome(old(loan)@, borrower@) {
                Ok(next) => r is Ok && final(loan)@ == next,
                Err(e) => r == Err::<(), LoanError>(e) && final(loan)@ == old(loan)@,
            },
            r is Ok <==> (borrower@ == old(loan).borrower@ && old(loan).status == LoanStatus::Active),
            r is Ok ==> final(loan).status == LoanStatus::Repaid,
            borrower@ != old(loan).borrower@ ==> r == Err::<(), LoanError>(LoanError::NotBorrower),
    {
        if !loan.borrower.same_as(borrower) {
            return Err(LoanError::NotBorrower);
        }
        if loan.status != LoanStatus::Active {
            return Err(LoanError::NotActive);
        }
        loan.status = LoanStatus::Repaid;
        Ok(())
    }

    /// Declares the loan in default at ledger `current_ledger`. Refused, with
    /// the loan unchanged, when the loan is no longer active or its due ledger
    /// has not passed.
    pub fn mark_defaulted(loan: &mut Loan, current_ledger: u32) -> (r: Result<(), LoanError>)
        ensures
            match default_outcome(old(loan)@, current_ledger) {
                Ok(next) => r is Ok && final(loan)@ == next,
                Err(e) => r == Err::<(), LoanError>(e) && final(loan)@ == old(loan)@,
            },
            r is Ok <==> (old(loan).status == LoanStatus::Active && current_ledger > old(loan).due_ledger),
            r is Ok ==> final(loan).status == LoanStatus::Defaulted,
            old(loan).status != LoanStatus::Active ==> r == Err::<(), LoanError>(LoanError::NotActive),
    {
        if loan.status != LoanStatus::Active {
            return Err(LoanError::NotActive);
        }
        if current_ledger <= loan.due_ledger {
            return Err(LoanError::NotPastDue);
        }
        loan.status = LoanStatus::Defaulted;
        Ok(())
    }

    /// The total to repay: principal plus interest, the interest rounded
    /// toward zero.
    pub fn repayment_amount(loan: &Loan) -> (total: i128)
        requires
            i128::MIN <= loan.amount * loan.interest_rate_bps <= i128::MAX,
            i128::MIN <= total_due(loan.amount as int, loan.interest_rate_bps as int) <= i128::MAX,
        ensures
            total == total_due(loan.amount as int, loan.interest_rate_bps as int),
            loan.amount * loan.interest_rate_bps >= 0 ==> 0 <= loan.amount * loan.interest_rate_bps
                - BASIS_POINTS * (total - loan.amount) < BASIS_POINTS,
            loan.amount * loan.interest_rate_bps < 0 ==> -BASIS_POINTS < loan.amount
                * loan.interest_rate_bps - BASIS_POINTS * (total - loan.amount) <= 0,
    {
        proof {
            lemma_interest_rounds_toward_zero(loan.amount as int, loan.interest_rate_bps as int);
        }
        let interest = (loan.amount * (loan.interest_rate_bps as i128)) / BASIS_POINTS;
        loan.amount + interest
    }
}

/// A loan that has been repaid or declared in default is settled: neither a
/// repayment, by anyone, nor a declaration of default, at any ledger, is
/// accepted on it.
pub proof fn lemma_settled_loan_is_final(loan: LoanView, who: Seq<u8>, ledger: u32)
    requires
        loan.status != LoanStatus::Active,
    ensures
        repay_outcome(loan, who) is Err,
        default_outcome(loan, ledger) is Err,
{
}

/// Only the borrower can repay, and an accepted repayment changes nothing
/// but the status.
pub proof fn lemma_only_borrower_repays(loan: LoanView, who: Seq<u8>)
    ensures
        repay_outcome(loan, who) is Ok ==> {
            &&& who == loan.borrower
            &&& loan.status == LoanStatus::Active
            &&& repay_outcome(loan, who)->Ok_0 == (LoanView { status: LoanStatus::Repaid, ..loan })
        },
{
}

/// A repayment is accepted exactly when it comes from the borrower of an
/// active loan, and then the loan becomes repaid with everything else kept;
/// a stranger is refused as such whatever the status, and the borrower of a
/// settled loan is told it is not active.
pub proof fn lemma_repay_accepted_exactly_from_borrower_of_active_loan(loan: LoanView, who: Seq<u8>)
    ensures
        repay_outcome(loan, who) is Ok <==> (who == loan.borrower && loan.status == LoanStatus::Active),
        who == loan.borrower && loan.status == LoanStatus::Active ==> repay_outcome(loan, who)
            == Ok::<LoanView, LoanError>(LoanView { status: LoanStatus::Repaid, ..loan }),
        who != loan.borrower ==> repay_outcome(loan, who) == Err::<LoanView, LoanError>(
            LoanError::NotBorrower,
        ),
        who == loan.borrower && loan.status != LoanStatus::Active ==> repay_outcome(loan, who)
            == Err::<LoanView, LoanError>(LoanError::NotActive),
{
}

/// An active loan is accepted for default at every ledger strictly after its
/// due ledger, and becomes defaulted with everything else kept; it is
/// refused as not yet due at and before the due ledger, and a settled loan
/// is refused as not active at any ledger.
pub proof fn lemma_default_accepted_exactly_after_due(loan: LoanView, ledger: u32)
    ensures
        default_outcome(loan, ledger) is Ok <==> (loan.status == LoanStatus::Active && ledger
            > loan.due_ledger),
        loan.status == LoanStatus::Active && ledger > loan.due_ledger ==> default_outcome(loan, ledger)
            == Ok::<LoanView, LoanError>(LoanView { status: LoanStatus::Defaulted, ..loan }),
        loan.status == LoanStatus::Active && ledger <= loan.due_ledger ==> default_outcome(
            loan,
            ledger,
        ) == Err::<LoanView, LoanError>(LoanError::NotPastDue),
        loan.status != LoanStatus::Active ==> default_outcome(loan, ledger) == Err::<
            LoanView,
            LoanError,
        >(LoanError::NotActive),
{
}

/// The interest is the product of principal and rate divided by
/// [`BASIS_POINTS`] and rounded toward zero: it differs from the exact
/// quotient by less than one, never away from zero. The total due is the
/// principal plus that interest.
pub proof fn lemma_interest_rounds_toward_zero(amount: int, rate_bps: int)
    ensures
        total_due(amount, rate_bps) - amount == interest(amount, rate_bps),
        amount * rate_bps >= 0 ==> 0 <= amount * rate_bps - BASIS_POINTS * interest(amount, rate_bps)
            < BASIS_POINTS,
        amount * rate_bps < 0 ==> -BASIS_POINTS < amount * rate_bps - BASIS_POINTS * interest(
            amount,
            rate_bps,
        ) <= 0,
{
    let p = amount * rate_bps;
    if p >= 0 {
        assert(0 <= p - 10000 * (p / 10000) < 10000);
    } else {
        assert(0 <= (-p) - 10000 * ((-p) / 10000) < 10000);
    }
}

/// A loan is declared in default only once its due ledger has passed.
pub proof fn lemma_no_default_before_due(loan: LoanView, ledger: u32)
    ensures
        default_outcome(loan, ledger) is Ok ==> ledger > loan.due_ledger,
{
}

/// For a non-negative principal and rate, the total to repay is at least the
/// principal.
pub proof fn lemma_total_due_covers_principal(amount: int, rate_bps: int)
    requires
        amount >= 0,
        rate_bps >= 0,
    ensures
        total_due(amount, rate_bps) >= amount,
{
    assert(amount * rate_bps >= 0) by (nonlinear_arith)
        requires
            amount >= 0,
            rate_bps >= 0,
    ;
}

} // verus!
