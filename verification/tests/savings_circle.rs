use chaincircle::address::Address;
use chaincircle::savings_circle::{CircleError, CircleStatus, SavingsCircleContract};

fn party(name: &str) -> Address {
    Address::from_bytes(name.as_bytes().to_vec())
}

#[test]
fn test_create_and_activate_circle() {
    let admin = party("GADMIN");
    let member1 = party("GMEMBER1");
    let member2 = party("GMEMBER2");

    let members = vec![admin.clone(), member1.clone(), member2.clone()];
    let payout_order = vec![member1.clone(), member2.clone(), admin.clone()];

    let mut state = SavingsCircleContract::create_circle(admin.clone(), members, 1000, payout_order);

    assert_eq!(state.status, CircleStatus::Pending);
    assert_eq!(state.current_cycle, 0);

    assert_eq!(SavingsCircleContract::activate(&mut state, &admin), Ok(()));
    assert_eq!(state.status, CircleStatus::Active);
}

#[test]
fn test_get_next_recipient() {
    let admin = party("GADMIN");
    let member1 = party("GMEMBER1");

    let members = vec![admin.clone(), member1.clone()];
    let payout_order = vec![member1.clone(), admin.clone()];

    let mut state = SavingsCircleContract::create_circle(admin.clone(), members, 500, payout_order);
    SavingsCircleContract::activate(&mut state, &admin).unwrap();

    let next = SavingsCircleContract::get_next_recipient(&state).unwrap();
    assert_eq!(next, member1);
}

fn active_circle() -> (Address, Address, Address, chaincircle::savings_circle::CircleState) {
    let admin = party("GADMIN");
    let member1 = party("GMEMBER1");
    let member2 = party("GMEMBER2");
    let members = vec![admin.clone(), member1.clone(), member2.clone()];
    let payout_order = vec![member2.clone(), admin.clone(), member1.clone()];
    let mut state = SavingsCircleContract::create_circle(admin.clone(), members, 250, payout_order);
    SavingsCircleContract::activate(&mut state, &admin).unwrap();
    (admin, member1, member2, state)
}

#[test]
fn create_circle_keeps_its_inputs() {
    let (admin, member1, member2, state) = active_circle();
    assert_eq!(state.admin, admin);
    assert_eq!(state.members, vec![admin.clone(), member1.clone(), member2.clone()]);
    assert_eq!(state.payout_order, vec![member2, admin, member1]);
    assert_eq!(state.contribution_amount, 250);
}

#[test]
fn activate_by_non_admin_is_refused() {
    let admin = party("GADMIN");
    let mut state = SavingsCircleContract::create_circle(admin.clone(), vec![admin.clone()], 10, vec![admin]);
    assert_eq!(
        SavingsCircleContract::activate(&mut state, &party("GOTHER")),
        Err(CircleError::OnlyAdminCanActivate)
    );
    assert_eq!(state.status, CircleStatus::Pending);
}

#[test]
fn contribute_checks_status_and_membership() {
    let admin = party("GADMIN");
    let member = party("GMEMBER1");
    let pending = SavingsCircleContract::create_circle(admin.clone(), vec![admin.clone(), member.clone()], 10, vec![member.clone()]);
    assert_eq!(SavingsCircleContract::contribute(&pending, &member), Err(CircleError::NotActive));

    let (_, member1, member2, state) = active_circle();
    assert_eq!(SavingsCircleContract::contribute(&state, &member1), Ok(()));
    assert_eq!(SavingsCircleContract::contribute(&state, &member2), Ok(()));
    assert_eq!(SavingsCircleContract::contribute(&state, &party("GOUTSIDER")), Err(CircleError::NotMember));
    assert_eq!(SavingsCircleContract::contribute(&state, &party("GMEMBER")), Err(CircleError::NotMember));
}

#[test]
fn payout_rotation_follows_payout_order() {
    let (admin, member1, member2, mut state) = active_circle();
    let expected = [member2, admin.clone(), member1];
    for (k, who) in expected.iter().enumerate() {
        assert_eq!(state.current_cycle as usize, k);
        assert_eq!(&SavingsCircleContract::get_next_recipient(&state).unwrap(), who);
        assert_eq!(state.status, CircleStatus::Active);
        assert_eq!(SavingsCircleContract::trigger_payout(&mut state, &admin), Ok(()));
    }
    assert_eq!(state.current_cycle, 3);
    assert_eq!(state.status, CircleStatus::Completed);
    assert_eq!(SavingsCircleContract::get_next_recipient(&state), Err(CircleError::AllCyclesCompleted));
    assert_eq!(SavingsCircleContract::trigger_payout(&mut state, &admin), Err(CircleError::NotActive));
    assert_eq!(state.current_cycle, 3);
}

#[test]
fn payout_by_non_admin_is_refused() {
    let (_, member1, _, mut state) = active_circle();
    assert_eq!(
        SavingsCircleContract::trigger_payout(&mut state, &member1),
        Err(CircleError::OnlyAdminCanTriggerPayout)
    );
    assert_eq!(state.current_cycle, 0);
}

#[test]
fn payout_on_pending_circle_is_refused() {
    let admin = party("GADMIN");
    let mut state = SavingsCircleContract::create_circle(admin.clone(), vec![admin.clone()], 10, vec![admin.clone()]);
    assert_eq!(SavingsCircleContract::trigger_payout(&mut state, &admin), Err(CircleError::NotActive));
}

#[test]
fn reactivated_completed_circle_has_no_cycles_left() {
    let admin = party("GADMIN");
    let mut state = SavingsCircleContract::create_circle(admin.clone(), vec![admin.clone()], 10, vec![admin.clone()]);
    SavingsCircleContract::activate(&mut state, &admin).unwrap();
    SavingsCircleContract::trigger_payout(&mut state, &admin).unwrap();
    assert_eq!(state.status, CircleStatus::Completed);
    SavingsCircleContract::activate(&mut state, &admin).unwrap();
    assert_eq!(state.status, CircleStatus::Active);
    assert_eq!(
        SavingsCircleContract::trigger_payout(&mut state, &admin),
        Err(CircleError::AllCyclesCompleted)
    );
}

#[test]
fn empty_payout_order_has_no_recipient() {
    let admin = party("GADMIN");
    let mut state = SavingsCircleContract::create_circle(admin.clone(), vec![admin.clone()], 10, vec![]);
    SavingsCircleContract::activate(&mut state, &admin).unwrap();
    assert_eq!(SavingsCircleContract::get_next_recipient(&state), Err(CircleError::AllCyclesCompleted));
    assert_eq!(
        SavingsCircleContract::trigger_payout(&mut state, &admin),
        Err(CircleError::AllCyclesCompleted)
    );
}

#[test]
fn circle_error_messages() {
    assert_eq!(CircleError::OnlyAdminCanActivate.message(), "Only admin can activate");
    assert_eq!(CircleError::OnlyAdminCanTriggerPayout.message(), "Only admin can trigger payout");
    assert_eq!(CircleError::NotActive.message(), "Circle is not active");
    assert_eq!(CircleError::NotMember.message(), "Not a circle member");
    assert_eq!(CircleError::AllCyclesCompleted.message(), "All cycles completed");
}
