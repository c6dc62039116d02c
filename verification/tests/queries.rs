use expense_tracker::query::{Column, Condition, Value, Table};
use expense_tracker::specific::UserId;
use expense_tracker::specific::expense::{
    get_expenses, get_expense, delete_expense, DatePeriod, ExpenseQuery, Field, Pagination, Sort,
    Sorting,
};
use expense_tracker::specific::receipt::{get_receipts, get_receipt, delete_receipt, ReceiptQuery};
use expense_tracker::specific::expense_with_receipt::{get_expenses_receipts, ExpReceiptQuery};
use expense_tracker::specific::expence::{default_archived, money_delete_plan, get_money, get_money_list, get_moneys, moneyQuery};
use expense_tracker::values::Timestamp;

const USER: u128 = 0x67e5504410b1426f9247bb680e5fe0c8;

fn at(secs: i64) -> Timestamp {
    Timestamp { unix_seconds: secs, nanos: 0, offset_seconds: 10800 }
}

fn is_owner(c: &Condition, user: u128) -> bool {
    matches!(c, Condition::Eq(Column::UserId, Value::Uuid(u)) if *u == user)
}

#[test]
fn expenses_without_filters_select_only_the_owner() {
    let p = get_expenses(&UserId { id: USER }, &ExpenseQuery::default());
    assert_eq!(p.table, Table::Expense);
    assert_eq!(p.conditions.len(), 1);
    assert!(is_owner(&p.conditions[0], USER));
    assert!(p.sort.is_none());
    assert!(p.offset.is_none() && p.limit.is_none());
}

#[test]
fn expenses_period_both_ends_and_sorting() {
    let q = ExpenseQuery {
        sort: Some(Sorting { field_name: Field::ValueSum, order: Sort::Desc }),
        pagination: Some(Pagination { offset: Some(5), limit: Some(10) }),
        period: Some(DatePeriod { start: Some(at(100)), stop: Some(at(200)) }),
    };
    let p = get_expenses(&UserId { id: USER }, &q);
    assert_eq!(p.conditions.len(), 3);
    assert!(is_owner(&p.conditions[0], USER));
    assert!(matches!(p.conditions[1], Condition::Gte(Column::CreatedAt, Value::Time(t)) if t.unix_seconds == 100));
    assert!(matches!(p.conditions[2], Condition::Lte(Column::CreatedAt, Value::Time(t)) if t.unix_seconds == 200));
    let k = p.sort.unwrap();
    assert_eq!(k.column, Column::ValueSum);
    assert_eq!(k.order, Sort::Desc);
    // the pagination is not applied
    assert!(p.offset.is_none() && p.limit.is_none());
}

#[test]
fn expenses_period_with_open_start() {
    let q = ExpenseQuery {
        sort: Some(Sorting::default()),
        pagination: None,
        period: Some(DatePeriod { start: None, stop: Some(at(300)) }),
    };
    let p = get_expenses(&UserId { id: 7 }, &q);
    assert_eq!(p.conditions.len(), 2);
    assert!(matches!(p.conditions[1], Condition::Lte(Column::CreatedAt, Value::Time(t)) if t.unix_seconds == 300));
    let k = p.sort.unwrap();
    assert_eq!(k.column, Column::CreatedAt);
    assert_eq!(k.order, Sort::Asc);
}

#[test]
fn empty_period_adds_no_condition() {
    let q = ExpenseQuery { sort: None, pagination: None, period: Some(DatePeriod::default()) };
    let p = get_expenses(&UserId { id: 7 }, &q);
    assert_eq!(p.conditions.len(), 1);
}

#[test]
fn field_columns() {
    assert_eq!(Field::Id.column(), Column::Id);
    assert_eq!(Field::CreatedAt.column(), Column::CreatedAt);
    assert_eq!(Field::ValueSum.column(), Column::ValueSum);
    assert_eq!(Field::default(), Field::CreatedAt);
    assert_eq!(Sort::default(), Sort::Asc);
}

#[test]
fn single_expense_lookup_and_delete_are_owned() {
    let p = get_expense(&UserId { id: USER }, 42);
    assert_eq!(p.table, Table::Expense);
    assert_eq!(p.conditions.len(), 2);
    assert!(matches!(p.conditions[0], Condition::Eq(Column::Id, Value::Uuid(42))));
    assert!(is_owner(&p.conditions[1], USER));
    let d = delete_expense(&UserId { id: USER }, 42);
    assert_eq!(d.table, Table::Expense);
    assert_eq!(d.conditions.len(), 2);
    assert!(matches!(d.conditions[0], Condition::Eq(Column::Id, Value::Uuid(42))));
    assert!(is_owner(&d.conditions[1], USER));
}

#[test]
fn receipts_with_period_and_name() {
    let q = ReceiptQuery {
        period: Some(DatePeriod { start: Some(at(1)), stop: None }),
        name: Some("work%".to_string()),
    };
    let p = get_receipts(&UserId { id: 9 }, q);
    assert_eq!(p.table, Table::Receipt);
    assert_eq!(p.conditions.len(), 3);
    assert!(is_owner(&p.conditions[0], 9));
    assert!(matches!(p.conditions[1], Condition::Gte(Column::StartDate, Value::Time(t)) if t.unix_seconds == 1));
    assert!(matches!(&p.conditions[2], Condition::Like(Column::Name, s) if s == "work%"));
}

#[test]
fn receipt_lookup_and_delete_are_owned() {
    let p = get_receipt(&UserId { id: 3 }, 4);
    assert_eq!(p.table, Table::Receipt);
    assert!(matches!(p.conditions[0], Condition::Eq(Column::Id, Value::Uuid(4))));
    assert!(is_owner(&p.conditions[1], 3));
    let d = delete_receipt(&UserId { id: 3 }, 4);
    assert_eq!(d.table, Table::Receipt);
    assert_eq!(d.conditions.len(), 2);
}

#[test]
fn expenses_with_receipts_ignore_sort_and_pages() {
    let q = ExpReceiptQuery {
        sort: Some(Sorting { field_name: Field::Id, order: Sort::Desc }),
        pagination: Some(Pagination { offset: Some(1), limit: Some(2) }),
        period: Some(DatePeriod { start: Some(at(10)), stop: Some(at(20)) }),
    };
    let p = get_expenses_receipts(&UserId { id: 5 }, &q);
    assert_eq!(p.table, Table::ExpenseWithReceipt);
    assert_eq!(p.conditions.len(), 3);
    assert!(is_owner(&p.conditions[0], 5));
    assert!(matches!(p.conditions[1], Condition::Gte(Column::ExpenseDate, _)));
    assert!(matches!(p.conditions[2], Condition::Lte(Column::ExpenseDate, _)));
    assert!(p.sort.is_none() && p.offset.is_none() && p.limit.is_none());
}

#[test]
fn money_search_builds_prefix_pattern() {
    let q = moneyQuery {
        offset: Some(20),
        limit: Some(10),
        hash: Some("abc".to_string()),
        money_type: Some("card".to_string()),
        name: Some("Coffee".to_string()),
        archived: default_archived(),
    };
    let p = get_moneys(q);
    assert_eq!(p.table, Table::Money);
    assert_eq!(p.offset, Some(20));
    assert_eq!(p.limit, Some(10));
    assert_eq!(p.conditions.len(), 4);
    assert!(matches!(&p.conditions[0], Condition::ILike(Column::Name, s) if s == "Coffee%"));
    assert!(matches!(&p.conditions[1], Condition::Eq(Column::Hash, Value::Text(s)) if s == "abc"));
    assert!(matches!(&p.conditions[2], Condition::Eq(Column::Type, Value::Text(s)) if s == "card"));
    assert!(matches!(p.conditions[3], Condition::Eq(Column::Archived, Value::Bool(false))));
}

#[test]
fn money_list_search_without_filters() {
    let p = get_money_list(moneyQuery::default());
    assert_eq!(p.table, Table::MoneyList);
    assert!(p.conditions.is_empty());
    assert!(p.offset.is_none() && p.limit.is_none());
}

#[test]
fn default_archived_is_not_archived() {
    assert_eq!(default_archived(), Some(false));
}

#[test]
fn money_lookup_by_id() {
    let p = get_money(11);
    assert_eq!(p.table, Table::Money);
    assert_eq!(p.conditions.len(), 1);
    assert!(matches!(p.conditions[0], Condition::Eq(Column::Id, Value::Uuid(11))));
}

#[test]
fn money_delete_by_id() {
    let d = money_delete_plan(12);
    assert_eq!(d.table, Table::Money);
    assert_eq!(d.conditions.len(), 1);
    assert!(matches!(d.conditions[0], Condition::Eq(Column::Id, Value::Uuid(12))));
}

#[test]
fn money_search_name_only() {
    let q = moneyQuery { name: Some("Ab_".to_string()), ..moneyQuery::default() };
    let p = get_moneys(q);
    assert_eq!(p.conditions.len(), 1);
    assert!(matches!(&p.conditions[0], Condition::ILike(Column::Name, s) if s == "Ab_%"));
}
