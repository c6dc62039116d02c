use expense_tracker::query::{Column, Condition, Table, TotalKind, Value};
use expense_tracker::specific::UserId;
use expense_tracker::specific::expense::expense_totals;
use expense_tracker::specific::expense_with_receipt::expense_receipt_totals;

#[test]
fn expense_totals_sum_and_count_the_users_expenses() {
    let user = 0x67e5504410b1426f9247bb680e5fe0c8;
    let p = expense_totals(&UserId { id: user });
    assert_eq!(p.table, Table::Expense);
    assert_eq!(p.conditions.len(), 1);
    assert!(matches!(p.conditions[0], Condition::Eq(Column::UserId, Value::Uuid(u)) if u == user));
    assert_eq!(p.totals.len(), 2);
    assert_eq!(p.totals[0].kind, TotalKind::Sum);
    assert_eq!(p.totals[0].column, Column::ValueSum);
    assert_eq!(p.totals[1].kind, TotalKind::Count);
    assert_eq!(p.totals[1].column, Column::ValueSum);
}

#[test]
fn expense_receipt_totals_cover_amount_and_salary() {
    let p = expense_receipt_totals(&UserId { id: 1 });
    assert_eq!(p.table, Table::ExpenseWithReceipt);
    assert_eq!(p.conditions.len(), 1);
    assert!(matches!(p.conditions[0], Condition::Eq(Column::UserId, Value::Uuid(1))));
    assert_eq!(p.totals.len(), 3);
    assert_eq!((p.totals[0].kind, p.totals[0].column), (TotalKind::Sum, Column::ExpenseAmount));
    assert_eq!((p.totals[1].kind, p.totals[1].column), (TotalKind::Sum, Column::TotalDailySallary));
    assert_eq!((p.totals[2].kind, p.totals[2].column), (TotalKind::Count, Column::TotalDailySallary));
}

#[test]
fn totals_of_two_users_differ_only_in_the_owner() {
    let a = expense_totals(&UserId { id: 10 });
    let b = expense_totals(&UserId { id: 11 });
    assert!(matches!(a.conditions[0], Condition::Eq(Column::UserId, Value::Uuid(10))));
    assert!(matches!(b.conditions[0], Condition::Eq(Column::UserId, Value::Uuid(11))));
}
