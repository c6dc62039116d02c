use expense_tracker::entities::money::Model;
use expense_tracker::specific::expence::{delete_money, MoneyDeleteAction, MoneyDeleteEvent, MoneyDeletion};
use expense_tracker::utils::Error;

fn start(id: u128) -> MoneyDeletion {
    let (s, a) = delete_money(MoneyDeletion::Start(id), MoneyDeleteEvent::Begin);
    assert!(matches!(a, MoneyDeleteAction::Lookup(x) if x == id));
    s
}

#[test]
fn money_delete_removes_the_layout_first() {
    let s = start(5);
    let (s, a) = delete_money(s, MoneyDeleteEvent::LookedUp(Ok(Some(Model { id: 5, layout_id: Some(77) }))));
    assert!(matches!(a, MoneyDeleteAction::DeleteLayout(77)));
    let (s, a) = delete_money(s, MoneyDeleteEvent::LayoutDeleted);
    assert!(matches!(a, MoneyDeleteAction::Delete(5)));
    let (s, a) = delete_money(s, MoneyDeleteEvent::Deleted(Ok(1)));
    assert!(matches!(s, MoneyDeletion::Done));
    match a {
        MoneyDeleteAction::Finish { emit_deleted, answer } => {
            assert_eq!(emit_deleted, Some(5));
            assert_eq!(answer.unwrap().affected_rows, 1);
        }
        _ => panic!("expected Finish"),
    }
}

#[test]
fn money_delete_without_layout_goes_straight_to_delete() {
    let s = start(6);
    let (s, a) = delete_money(s, MoneyDeleteEvent::LookedUp(Ok(Some(Model { id: 6, layout_id: None }))));
    assert!(matches!(a, MoneyDeleteAction::Delete(6)));
    let (_, a) = delete_money(s, MoneyDeleteEvent::Deleted(Ok(0)));
    assert!(matches!(a, MoneyDeleteAction::Finish { emit_deleted: Some(6), answer: Ok(r) } if r.affected_rows == 0));
}

#[test]
fn money_delete_passes_over_a_failed_lookup() {
    let s = start(7);
    let (s, a) = delete_money(s, MoneyDeleteEvent::LookedUp(Err(Error::DatabaseInternal("down".to_string()))));
    assert!(matches!(a, MoneyDeleteAction::Delete(7)));
    let (_, a) = delete_money(s, MoneyDeleteEvent::Deleted(Ok(1)));
    assert!(matches!(a, MoneyDeleteAction::Finish { emit_deleted: Some(7), .. }));
}

#[test]
fn money_delete_failure_sends_no_event() {
    let s = start(8);
    let (s, _) = delete_money(s, MoneyDeleteEvent::LookedUp(Ok(None)));
    let (_, a) = delete_money(s, MoneyDeleteEvent::Deleted(Err(Error::DatabaseInternal("x".to_string()))));
    assert!(matches!(a, MoneyDeleteAction::Finish { emit_deleted: None, answer: Err(Error::DatabaseInternal(_)) }));
}

#[test]
fn money_delete_ignores_out_of_place_events() {
    let (s, a) = delete_money(MoneyDeletion::Done, MoneyDeleteEvent::LayoutDeleted);
    assert!(matches!(s, MoneyDeletion::Done));
    assert!(matches!(a, MoneyDeleteAction::Nothing));
}
