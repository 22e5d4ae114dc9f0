use vstd::prelude::*;

use crate::address::{list_contains, Address};

verus! {

/// Where a savings circle stands.
#[derive(Clone, Copy, Debug, PartialEq, Eq, Structural)]
pub enum CircleStatus {
    Pending,
    Active,
    Completed,
    Cancelled,
}

/// A rotating savings circle: its members contribute each cycle, and the
/// pot goes to the members of `payout_order` in turn.
///
/// On the ledger the member lists are host vectors, which exist only inside
/// a host environment; here they are ordinary vectors of [`Address`], read
/// and written by the contract layer when the record is loaded and stored.
/// A host vector's length is a `u32`, which [`SavingsCircleContract::trigger_payout`]
/// relies on.
#[derive(Debug)]
pub struct CircleState {
    pub admin: Address,
    pub members: Vec<Address>,
    pub contribution_amount: i128,
    pub current_cycle: u32,
    pub payout_order: Vec<Address>,
    pub status: CircleStatus,
}

/// What a [`CircleState`] holds, each party taken by its bytes.
pub struct CircleView {
    pub admin: Seq<u8>,
    pub members: Seq<Seq<u8>>,
    pub contribution_amount: i128,
    pub current_cycle: nat,
    pub payout_order: Seq<Seq<u8>>,
    pub status: CircleStatus,
}

/// The bytes of each party in `list`.
pub open spec fn parties(list: Seq<Address>) -> Seq<Seq<u8>> {
    list.map_values(|a: Address| a@)
}

impl View for CircleState {
    type V = CircleView;

    open spec fn view(&self) -> CircleView {
        CircleView {
            admin: self.admin@,
            members: parties(self.members@),
            contribution_amount: self.contribution_amount,
            current_cycle: self.current_cycle as nat,
            payout_order: parties(self.payout_order@),
            status: self.status,
        }
    }
}

/// Why a request on a circle was refused.
#[derive(Clone, Copy, Debug, PartialEq, Eq, Structural)]
pub enum CircleError {
    /// Activation asked by someone other than the admin.
    OnlyAdminCanActivate,
    /// Payout asked by someone other than the admin.
    OnlyAdminCanTriggerPayout,
    /// The circle is not active.
    NotActive,
    /// The caller is not a member of the circle.
    NotMember,
    /// Every member of the payout order has been paid.
    AllCyclesCompleted,
}

impl CircleError {
    /// The message with which the contract rejects the request.
    pub fn message(&self) -> (m: &'static str)
        ensures
            *self == CircleError::OnlyAdminCanActivate ==> m@ == "Only admin can activate"@,
            *self == CircleError::OnlyAdminCanTriggerPayout ==> m@
                == "Only admin can trigger payout"@,
            *self == CircleError::NotActive ==> m@ == "Circle is not active"@,
            *self == CircleError::NotMember ==> m@ == "Not a circle member"@,
            *self == CircleError::AllCyclesCompleted ==> m@ == "All cycles completed"@,
    {
        match self {
            CircleError::OnlyAdminCanActivate => "Only admin can activate",
            CircleError::OnlyAdminCanTriggerPayout => "Only admin can trigger payout",
            CircleError::NotActive => "Circle is not active",
            CircleError::NotMember => "Not a circle member",
            CircleError::AllCyclesCompleted => "All cycles completed",
        }
    }
}

/// The savings circle contract: each method is one transition, or one
/// query, of a [`CircleState`].
pub struct SavingsCircleContract;

/// The circle is coherent: the cycle never passes the end of the payout
/// order, and a completed circle has paid every member of it.
pub open spec fn well_formed(c: CircleView) -> bool {
    &&& c.current_cycle <= c.payout_order.len()
    &&& c.status == CircleStatus::Completed ==> c.current_cycle == c.payout_order.len()
}

/// The outcome of an activation asked by `who`.
pub open spec fn activate_outcome(c: CircleView, who: Seq<u8>) -> Result<CircleView, CircleError> {
    if who != c.admin {
        Err(CircleError::OnlyAdminCanActivate)
    } else {
        Ok(CircleView { status: CircleStatus::Active, ..c })
    }
}

/// The outcome of a contribution by `who`.
pub open spec fn contribute_outcome(c: CircleView, who: Seq<u8>) -> Result<(), CircleError> {
    if c.status != CircleStatus::Active {
        Err(CircleError::NotActive)
    } else if !c.members.contains(who) {
        Err(CircleError::NotMember)
    } else {
        Ok(())
    }
}

/// The outcome of a payout asked by `who`: the cycle moves on by one, and
/// the circle completes once every member of the payout order is paid.
pub open spec fn payout_outcome(c: CircleView, who: Seq<u8>) -> Result<CircleView, CircleError> {
    if who != c.admin {
        Err(CircleError::OnlyAdminCanTriggerPayout)
    } else if c.status != CircleStatus::Active {
        Err(CircleError::NotActive)
    } else if c.current_cycle >= c.payout_order.len() {
        Err(CircleError::AllCyclesCompleted)
    } else {
        let cycle = c.current_cycle + 1;
        Ok(
            CircleView {
                current_cycle: cycle,
                status: if cycle >= c.payout_order.len() {
                    CircleStatus::Completed
                } else {
                    c.status
                },
                ..c
            },
        )
    }
}

/// The member to be paid at the next payout.
pub open spec fn next_recipient(c: CircleView) -> Result<Seq<u8>, CircleError> {
    if c.current_cycle < c.payout_order.len() {
        Ok(c.payout_order[c.current_cycle as int])
    } else {
        Err(CircleError::AllCyclesCompleted)
    }
}

impl SavingsCircleContract {
    /// A new pending circle at cycle zero.
    pub fn create_circle(
        admin: Address,
        members: Vec<Address>,
        contribution_amount: i128,
        payout_order: Vec<Address>,
    ) -> (circle: CircleState)
        ensures
            circle@ == (CircleView {
                admin: admin@,
                members: parties(members@),
                contribution_amount,
                current_cycle: 0,
                payout_order: parties(payout_order@),
                status: CircleStatus::Pending,
            }),
            well_formed(circle@),
    {
        CircleState {
            admin,
            members,
            contribution_amount,
            current_cycle: 0,
            payout_order,
            status: CircleStatus::Pending,
        }
    }

    /// Activates the circle, at the request of `admin`. Refused, with the
    /// circle unchanged, when `admin` is not the circle's admin.
    pub fn activate(circle: &mut CircleState, admin: &Address) -> (r: Result<(), CircleError>)
        ensures
            match activate_outcome(old(circle)@, admin@) {
                Ok(next) => r is Ok && final(circle)@ == next,
                Err(e) => r == Err::<(), CircleError>(e) && final(circle)@ == old(circle)@,
            },
            well_formed(old(circle)@) ==> well_formed(final(circle)@),
            r is Ok <==> admin@ == old(circle).admin@,
            r is Ok ==> final(circle).status == CircleStatus::Active,
            final(circle).current_cycle == old(circle).current_cycle,
    {
        if !circle.admin.same_as(admin) {
            return Err(CircleError::OnlyAdminCanActivate);
        }
        circle.status = CircleStatus::Active;
        Ok(())
    }

    /// Accepts a contribution from `member` when the circle is active and
    /// `member` belongs to it.
    pub fn contribute(circle: &CircleState, member: &Address) -> (r: Result<(), CircleError>)
        ensures
            r == contribute_outcome(circle@, member@),
            r is Ok <==> (circle.status == CircleStatus::Active && exists|i: int|
                0 <= i < circle.members@.len() && #[trigger] circle.members@[i]@ == member@),
            circle.status != CircleStatus::Active ==> r == Err::<(), CircleError>(
                CircleError::NotActive,
            ),
    {
        if circle.status != CircleStatus::Active {
            return Err(CircleError::NotActive);
        }
        let found = list_contains(&circle.members, member);
        proof {
            let ms = parties(circle.members@);
            if found {
                let i = choose|i: int| 0 <= i < circle.members@.len() && #[trigger] circle.members@[i]@ == member@;
                assert(ms[i] == member@);
            } else {
                assert forall|i: int| 0 <= i < ms.len() implies ms[i] != member@ by {
                    assert(circle.members@[i]@ != member@);
                }
            }
        }
        if !found {
            return Err(CircleError::NotMember);
        }
        Ok(())
    }

    /// Pays out the current cycle, at the request of `admin`, and moves to the
    /// next one; the circle completes after the last member of the payout
    /// order. Refused, with the circle unchanged, when `admin` is not the
    /// circle's admin, the circle is not active, or every member has been
    /// paid.
    pub fn trigger_payout(circle: &mut CircleState, admin: &Address) -> (r: Result<(), CircleError>)
        requires
            old(circle).payout_order.len() <= u32::MAX,
        ensures
            match payout_outcome(old(circle)@, admin@) {
                Ok(next) => r is Ok && final(circle)@ == next,
                Err(e) => r == Err::<(), CircleError>(e) && final(circle)@ == old(circle)@,
            },
            well_formed(old(circle)@) ==> well_formed(final(circle)@),
            final(circle).current_cycle >= old(circle).current_cycle,
            r is Ok <==> (admin@ == old(circle).admin@ && old(circle).status == CircleStatus::Active
                && old(circle).current_cycle < old(circle).payout_order@.len()),
            r is Ok ==> final(circle).current_cycle == old(circle).current_cycle + 1,
            r is Ok ==> (final(circle).status == CircleStatus::Completed <==> final(circle).current_cycle == old(circle).payout_order@.len()),
            r is Ok ==> (final(circle).status == CircleStatus::Active <==> final(circle).current_cycle < old(circle).payout_order@.len()),
            r is Err ==> final(circle)@ == old(circle)@,
    {
        if !circle.admin.same_as(admin) {
            return Err(CircleError::OnlyAdminCanTriggerPayout);
        }
        if circle.status != CircleStatus::Active {
            return Err(CircleError::NotActive);
        }
        if circle.current_cycle as usize >= circle.payout_order.len() {
            return Err(CircleError::AllCyclesCompleted);
        }
        circle.current_cycle = circle.current_cycle + 1;
        if circle.current_cycle as usize >= circle.payout_order.len() {
            circle.status = CircleStatus::Completed;
        }
        Ok(())
    }

    /// The member to be paid at the next payout.
    pub fn get_next_recipient(circle: &CircleState) -> (r: Result<Address, CircleError>)
        ensures
            match next_recipient(circle@) {
                Ok(who) => r is Ok && r->Ok_0@ == who,
                Err(e) => r is Err && r->Err_0 == e,
            },
            circle.current_cycle < circle.payout_order@.len() ==> r is Ok && r->Ok_0@
                == circle.payout_order@[circle.current_cycle as int]@,
            circle.current_cycle >= circle.payout_order@.len() ==> r is Err && r->Err_0
                == CircleError::AllCyclesCompleted,
    {
        let cycle = circle.current_cycle as usize;
        if cycle >= circle.payout_order.len() {
            return Err(CircleError::AllCyclesCompleted);
        }
        Ok(circle.payout_order[cycle].clone())
    }
}

/// Every member of an active circle may contribute: a contribution is
/// accepted exactly when the circle is active and the contributor is one of
/// its members, whoever else that member is (admin or not); otherwise it is
/// refused as inactive first, and as from a non-member second.
pub proof fn lemma_contribution_accepted_exactly_from_members(c: CircleView, who: Seq<u8>)
    ensures
        contribute_outcome(c, who) is Ok <==> (c.status == CircleStatus::Active && exists|i: int|
            0 <= i < c.members.len() && #[trigger] c.members[i] == who),
        c.status != CircleStatus::Active ==> contribute_outcome(c, who) == Err::<(), CircleError>(
            CircleError::NotActive,
        ),
        c.status == CircleStatus::Active && (forall|i: int|
            0 <= i < c.members.len() ==> #[trigger] c.members[i] != who) ==> contribute_outcome(c, who)
            == Err::<(), CircleError>(CircleError::NotMember),
{
    if c.status == CircleStatus::Active && c.members.contains(who) {
        let i = choose|i: int| 0 <= i < c.members.len() && c.members[i] == who;
        assert(c.members[i] == who);
    }
}

/// The next recipient is the member of the payout order at the current
/// cycle, whatever the status of the circle (pending, active, completed or
/// cancelled); there is none only once the cycle has reached the end of the
/// payout order.
pub proof fn lemma_next_recipient_is_current_slot(c: CircleView)
    ensures
        c.current_cycle < c.payout_order.len() ==> next_recipient(c) == Ok::<Seq<u8>, CircleError>(
            c.payout_order[c.current_cycle as int],
        ),
        c.current_cycle >= c.payout_order.len() ==> next_recipient(c) == Err::<
            Seq<u8>,
            CircleError,
        >(CircleError::AllCyclesCompleted),
{
}

/// Activation is accepted exactly when asked by the admin, from any status,
/// and changes only the status, to active.
pub proof fn lemma_activation_accepted_exactly_from_admin(c: CircleView, who: Seq<u8>)
    ensures
        activate_outcome(c, who) is Ok <==> who == c.admin,
        who == c.admin ==> activate_outcome(c, who) == Ok::<CircleView, CircleError>(
            CircleView { status: CircleStatus::Active, ..c },
        ),
        who != c.admin ==> activate_outcome(c, who) == Err::<CircleView, CircleError>(
            CircleError::OnlyAdminCanActivate,
        ),
{
}

/// A payout is accepted exactly when asked by the admin of an active circle
/// with a member of the payout order still unpaid; it then advances the
/// cycle by one and changes nothing else but the status, which becomes
/// completed exactly when the cycle reaches the end of the payout order.
/// Refusals come in the order: not the admin, not active, all paid.
pub proof fn lemma_payout_accepted_exactly_when_due(c: CircleView, who: Seq<u8>)
    ensures
        payout_outcome(c, who) is Ok <==> (who == c.admin && c.status == CircleStatus::Active
            && c.current_cycle < c.payout_order.len()),
        payout_outcome(c, who) is Ok ==> payout_outcome(c, who)->Ok_0 == (CircleView {
            current_cycle: c.current_cycle + 1,
            status: payout_outcome(c, who)->Ok_0.status,
            ..c
        }),
        payout_outcome(c, who) is Ok ==> (payout_outcome(c, who)->Ok_0.status
            == CircleStatus::Completed <==> c.current_cycle + 1 == c.payout_order.len()),
        payout_outcome(c, who) is Ok ==> (payout_outcome(c, who)->Ok_0.status == CircleStatus::Active
            <==> c.current_cycle + 1 < c.payout_order.len()),
        who != c.admin ==> payout_outcome(c, who) == Err::<CircleView, CircleError>(
            CircleError::OnlyAdminCanTriggerPayout,
        ),
        who == c.admin && c.status != CircleStatus::Active ==> payout_outcome(c, who) == Err::<
            CircleView,
            CircleError,
        >(CircleError::NotActive),
        who == c.admin && c.status == CircleStatus::Active && c.current_cycle
            >= c.payout_order.len() ==> payout_outcome(c, who) == Err::<CircleView, CircleError>(
            CircleError::AllCyclesCompleted,
        ),
{
}

/// The circle after `k` successive payouts asked by `who`, or the first
/// refusal among them.
pub open spec fn payouts(c: CircleView, who: Seq<u8>, k: nat) -> Result<CircleView, CircleError>
    decreases k,
{
    if k == 0 {
        Ok(c)
    } else {
        match payouts(c, who, (k - 1) as nat) {
            Ok(d) => payout_outcome(d, who),
            Err(e) => Err(e),
        }
    }
}

/// The payout rotation: in an active circle at cycle zero, successive
/// payouts asked by the admin are all accepted; before the `k`-th of them
/// the next recipient is `payout_order[k]`, so the members are paid exactly
/// in the payout order, each once; after the last one the circle is
/// completed, and any further payout is refused.
pub proof fn lemma_payout_rotation(c: CircleView, k: nat)
    requires
        c.status == CircleStatus::Active,
        c.current_cycle == 0,
        0 < c.payout_order.len(),
        k <= c.payout_order.len(),
    ensures
        payouts(c, c.admin, k) == Ok::<CircleView, CircleError>(
            CircleView {
                current_cycle: k,
                status: if k == c.payout_order.len() {
                    CircleStatus::Completed
                } else {
                    CircleStatus::Active
                },
                ..c
            },
        ),
        k < c.payout_order.len() ==> next_recipient(payouts(c, c.admin, k)->Ok_0) == Ok::<
            Seq<u8>,
            CircleError,
        >(c.payout_order[k as int]),
        k == c.payout_order.len() ==> payout_outcome(payouts(c, c.admin, k)->Ok_0, c.admin) == Err::<
            CircleView,
            CircleError,
        >(CircleError::NotActive),
    decreases k,
{
    if k > 0 {
        lemma_payout_rotation(c, (k - 1) as nat);
    }
}

} // verus!
