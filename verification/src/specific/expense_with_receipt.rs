use vstd::prelude::*;
use crate::specific::UserId;
use crate::entities::exp_rec_list::Model as ExpenseWithReceipt;
use crate::query::{
    all_met, instant, lemma_all_met_one, lemma_owned_period_met, lemma_owned_query_rows_agree, lemma_owner_first_scoped, Total, TotalKind, TotalsPlan, owned_by, within_period, period_conditions, push_period, scoped_to, Column, Condition,
    SelectPlan, Table, Value,
};
use crate::specific::expense::{DatePeriod, Pagination, Sorting};

verus! {

/// A request for a user's expenses set against the salary earned each day;
/// only the period is applied.
#[derive(Clone, Copy, Debug)]
pub struct ExpReceiptQuery {
    pub sort: Option<Sorting>,
    pub pagination: Option<Pagination>,
    pub period: Option<DatePeriod>,
}

impl Default for ExpReceiptQuery {
    fn default() -> (q: Self)
        ensures
            q.sort is None,
            q.pagination is None,
            q.period is None,
    {
        ExpReceiptQuery { sort: None, pagination: None, period: None }
    }
}

/// The query for a user's expenses with the salary of their day: those of the
/// user whose date lies within the period where one is given; neither the
/// sorting nor the pagination is applied.
pub fn get_expenses_receipts(user: &UserId, q: &ExpReceiptQuery) -> (p: SelectPlan)
    ensures
        p.table == Table::ExpenseWithReceipt,
        p.conditions@ == seq![owned_by(user.id)] + period_conditions(Column::ExpenseDate, q.period),
        scoped_to(p.conditions@, user.id),
        p.sort is None,
        p.offset is None,
        p.limit is None,
        p.well_formed(),
{
    let mut conditions: Vec<Condition> = Vec::new();
    conditions.push(Condition::Eq(Column::UserId, Value::Uuid(user.id)));
    push_period(&mut conditions, Column::ExpenseDate, q.period);
    let p = SelectPlan {
        table: Table::ExpenseWithReceipt,
        conditions,
        sort: None,
        offset: None,
        limit: None,
    };
    proof {
        lemma_owner_first_scoped(user.id, Column::ExpenseDate, q.period, Seq::empty());
        assert(p.conditions@ =~= seq![owned_by(user.id)] + period_conditions(Column::ExpenseDate, q.period)
            + Seq::<Condition>::empty());
    }
    p
}

/// The totals that a listing of expenses with daily salary answers with: the
/// sum of the expense amounts, the sum of the daily salary and the number of
/// rows with a daily salary, over all of the user's rows (the listing's period
/// does not restrict them).
pub fn expense_receipt_totals(user: &UserId) -> (p: TotalsPlan)
    ensures
        p.table == Table::ExpenseWithReceipt,
        p.conditions@ == seq![owned_by(user.id)],
        scoped_to(p.conditions@, user.id),
        p.totals@ == seq![
            Total { kind: TotalKind::Sum, column: Column::ExpenseAmount },
            Total { kind: TotalKind::Sum, column: Column::TotalDailySallary },
            Total { kind: TotalKind::Count, column: Column::TotalDailySallary },
        ],
        p.well_formed(),
{
    let mut conditions: Vec<Condition> = Vec::new();
    conditions.push(Condition::Eq(Column::UserId, Value::Uuid(user.id)));
    let mut totals: Vec<Total> = Vec::new();
    totals.push(Total { kind: TotalKind::Sum, column: Column::ExpenseAmount });
    totals.push(Total { kind: TotalKind::Sum, column: Column::TotalDailySallary });
    totals.push(Total { kind: TotalKind::Count, column: Column::TotalDailySallary });
    let p = TotalsPlan { table: Table::ExpenseWithReceipt, conditions, totals };
    assert(p.conditions@ =~= seq![owned_by(user.id)]);
    assert(p.conditions@[0] == owned_by(user.id));
    assert(p.totals@ =~= seq![
        Total { kind: TotalKind::Sum, column: Column::ExpenseAmount },
        Total { kind: TotalKind::Sum, column: Column::TotalDailySallary },
        Total { kind: TotalKind::Count, column: Column::TotalDailySallary },
    ]);
    p
}

/// Whether a row of the expense-with-salary view meets a condition. This
/// gives the meaning of the conditions that its queries use: the id or the
/// owner equal to a UUID, the date not before or not after an instant. Any
/// other condition is taken to hold of no row.
pub open spec fn row_meets(row: ExpenseWithReceipt, c: Condition) -> bool {
    match c {
        Condition::Eq(Column::Id, Value::Uuid(v)) => row.id == v,
        Condition::Eq(Column::UserId, Value::Uuid(v)) => row.user_id == v,
        Condition::Gte(Column::ExpenseDate, Value::Time(t)) => instant(row.expense_date) >= instant(t),
        Condition::Lte(Column::ExpenseDate, Value::Time(t)) => instant(row.expense_date) <= instant(t),
        _ => false,
    }
}

/// Whether a query with these conditions selects the row: it meets all of them.
pub open spec fn row_selected(conditions: Seq<Condition>, row: ExpenseWithReceipt) -> bool {
    all_met(|r: ExpenseWithReceipt, c: Condition| row_meets(r, c), conditions, row)
}

/// Whether the row belongs to `user`.
pub open spec fn row_owned_by(row: ExpenseWithReceipt, user: u128) -> bool {
    row.user_id == user
}

/// A user's listing of expenses with daily salary selects exactly the user's
/// rows dated within the asked period: `get_expenses_receipts` never shows
/// another user's row.
pub proof fn lemma_expense_receipt_listing_selects(user: u128, q: ExpReceiptQuery, row: ExpenseWithReceipt)
    ensures
        row_selected(seq![owned_by(user)] + period_conditions(Column::ExpenseDate, q.period), row)
            <==> (row.user_id == user && within_period(q.period, row.expense_date)),
{
    lemma_owned_period_met(
        |r: ExpenseWithReceipt, c: Condition| row_meets(r, c),
        |r: ExpenseWithReceipt, u: u128| row_owned_by(r, u),
        Column::ExpenseDate,
        |r: ExpenseWithReceipt| r.expense_date,
        user,
        q.period,
        row,
    );
}

/// The totals of a user's expenses with daily salary cover exactly the
/// user's rows: `expense_receipt_totals` never counts or sums another user's row.
pub proof fn lemma_expense_receipt_totals_select(user: u128, row: ExpenseWithReceipt)
    ensures
        row_selected(seq![owned_by(user)], row) <==> row.user_id == user,
{
    lemma_all_met_one(|r: ExpenseWithReceipt, c: Condition| row_meets(r, c), owned_by(user), row);
}

/// What a listing of expenses with daily salary answers depends on the
/// user's own rows alone: on two views that hold the same rows of `user`
/// (whatever they hold of other users), the listing of `get_expenses_receipts`
/// and the totals of `expense_receipt_totals` are taken over the same rows.
pub proof fn lemma_expense_receipt_answer_depends_on_own_rows(
    user: u128,
    q: ExpReceiptQuery,
    d1: Seq<ExpenseWithReceipt>,
    d2: Seq<ExpenseWithReceipt>,
)
    requires
        d1.filter(|r: ExpenseWithReceipt| row_owned_by(r, user))
            == d2.filter(|r: ExpenseWithReceipt| row_owned_by(r, user)),
    ensures
        d1.filter(|r: ExpenseWithReceipt| row_selected(seq![owned_by(user)] + period_conditions(Column::ExpenseDate, q.period), r))
            == d2.filter(|r: ExpenseWithReceipt| row_selected(seq![owned_by(user)] + period_conditions(Column::ExpenseDate, q.period), r)),
        d1.filter(|r: ExpenseWithReceipt| row_selected(seq![owned_by(user)], r))
            == d2.filter(|r: ExpenseWithReceipt| row_selected(seq![owned_by(user)], r)),
{
    let owner = |r: ExpenseWithReceipt| row_owned_by(r, user);
    let listing = |r: ExpenseWithReceipt| row_selected(seq![owned_by(user)] + period_conditions(Column::ExpenseDate, q.period), r);
    let totals = |r: ExpenseWithReceipt| row_selected(seq![owned_by(user)], r);
    assert forall|r: ExpenseWithReceipt| #[trigger] listing(r) implies owner(r) by {
        lemma_expense_receipt_listing_selects(user, q, r);
    }
    assert forall|r: ExpenseWithReceipt| #[trigger] totals(r) implies owner(r) by {
        lemma_expense_receipt_totals_select(user, r);
    }
    lemma_owned_query_rows_agree(d1, d2, listing, owner);
    lemma_owned_query_rows_agree(d1, d2, totals, owner);
}

} // verus!
