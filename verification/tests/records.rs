use expense_tracker::entities::expense::{CreateExpense, Model as Expense, UpdateExpense};
use expense_tracker::entities::receipt::{CreateReceipt, Model as Receipt, UpdateReceipt};
use expense_tracker::specific::UserId;
use expense_tracker::specific::expense::{create_expense, edit_expense, AffectedRows};
use expense_tracker::specific::receipt::{create_receipt, edit_receipt};
use expense_tracker::utils::{require_found, CreatedEntity, Error};
use expense_tracker::values::{Amount, Timestamp};

fn at(secs: i64) -> Timestamp {
    Timestamp { unix_seconds: secs, nanos: 5, offset_seconds: 0 }
}

fn amount(m: i128) -> Amount {
    Amount { mantissa: m, scale: 2 }
}

#[test]
fn created_expense_belongs_to_the_requester() {
    let n = create_expense(&UserId { id: 77 }, CreateExpense { created_at: at(1), value_sum: amount(1250) });
    assert_eq!(n.user_id, 77);
    assert_eq!(n.created_at.unix_seconds, 1);
    assert_eq!(n.value_sum.mantissa, 1250);
}

#[test]
fn editing_a_missing_expense_is_not_found() {
    let r = edit_expense(None, UpdateExpense { created_at: at(2), value_sum: amount(3) });
    assert!(matches!(r, Err(Error::NotFound)));
}

#[test]
fn editing_an_expense_keeps_its_id() {
    let old = Expense { id: 555, created_at: at(1), value_sum: amount(100) };
    let c = edit_expense(Some(old), UpdateExpense { created_at: at(9), value_sum: amount(250) }).unwrap();
    assert_eq!(c.id, 555);
    assert_eq!(c.created_at.unix_seconds, 9);
    assert_eq!(c.value_sum.mantissa, 250);
}

#[test]
fn created_receipt_belongs_to_the_requester() {
    let n = create_receipt(&UserId { id: 8 }, CreateReceipt {
        name: "job".to_string(),
        start_date: at(1),
        stop_date: at(2),
        sallary: amount(100000),
    });
    assert_eq!(n.user_id, 8);
    assert_eq!(n.name, "job");
    assert_eq!(n.sallary.mantissa, 100000);
}

#[test]
fn editing_receipts() {
    let upd = UpdateReceipt { name: "new".to_string(), start_date: at(3), stop_date: at(4), sallary: amount(7) };
    assert!(matches!(edit_receipt(None, upd.clone()), Err(Error::NotFound)));
    let old = Receipt {
        id: 12,
        user_id: Some(8),
        name: "old".to_string(),
        start_date: at(1),
        stop_date: at(2),
        sallary: amount(1),
    };
    let c = edit_receipt(Some(old), upd).unwrap();
    assert_eq!(c.id, 12);
    assert_eq!(c.name, "new");
    assert_eq!(c.stop_date.unix_seconds, 4);
}

#[test]
fn lookups_and_status_codes() {
    assert_eq!(require_found(Some(3)).unwrap(), 3);
    let missing: Result<u8, Error> = require_found(None);
    let e = missing.unwrap_err();
    assert!(matches!(e, Error::NotFound));
    assert_eq!(e.status_code(), 404);
    assert_eq!(Error::DatabaseInternal("down".to_string()).status_code(), 500);
    assert_eq!(Error::InvalidData("bad".to_string()).status_code(), 400);
}

#[test]
fn answers_carry_their_values() {
    assert_eq!(CreatedEntity::new(0xabc).uuid, 0xabc);
    assert_eq!(AffectedRows::new(3).affected_rows, 3);
}
