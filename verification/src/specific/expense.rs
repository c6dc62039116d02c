use vstd::prelude::*;
use crate::utils::{Error, require_found};
use crate::entities::expense::{CreateExpense, ExpenseChange, Model as Expense, NewExpense, UpdateExpense};
use crate::specific::UserId;
use crate::values::{Amount, Timestamp};
use crate::query::{
    all_met, instant, lemma_all_met_one, lemma_owned_record_met, lemma_owned_period_met, lemma_owned_query_rows_agree, lemma_owner_first_scoped, Total, TotalKind, TotalsPlan, owned_by, within_period, owned_record, owned_record_conditions, period_conditions,
    push_period, scoped_to, sort_key, sort_key_of, Column, Condition, DeletePlan, SelectPlan, Table,
    Value,
};

verus! {

/// The answer to a delete request: how many rows it removed.
#[derive(Clone, Copy, Debug)]
pub struct AffectedRows {
    pub affected_rows: u64,
}

impl AffectedRows {
    pub fn new(affected_rows: u64) -> (a: Self)
        ensures
            a.affected_rows == affected_rows,
    {
        AffectedRows { affected_rows }
    }
}

/// Sort direction.
#[derive(Clone, Copy, Debug, PartialEq, Eq, Structural)]
pub enum Sort {
    Desc,
    Asc,
}

impl Default for Sort {
    fn default() -> (s: Self)
        ensures
            s == Sort::Asc,
    {
        Sort::Asc
    }
}

/// The field of an expense that a listing can be sorted by.
#[derive(Clone, Copy, Debug, PartialEq, Eq, Structural)]
pub enum Field {
    Id,
    CreatedAt,
    ValueSum,
}

impl Default for Field {
    fn default() -> (f: Self)
        ensures
            f == Field::CreatedAt,
    {
        Field::CreatedAt
    }
}

impl Field {
    pub open spec fn column_spec(self) -> Column {
        match self {
            Field::Id => Column::Id,
            Field::CreatedAt => Column::CreatedAt,
            Field::ValueSum => Column::ValueSum,
        }
    }

    /// The expense column that the field names.
    pub fn column(self) -> (c: Column)
        ensures
            c == self.column_spec(),
            self == Field::Id ==> c == Column::Id,
            self == Field::CreatedAt ==> c == Column::CreatedAt,
            self == Field::ValueSum ==> c == Column::ValueSum,
    {
        match self {
            Field::Id => Column::Id,
            Field::CreatedAt => Column::CreatedAt,
            Field::ValueSum => Column::ValueSum,
        }
    }
}

/// How a listing asks to be sorted.
#[derive(Clone, Copy, Debug)]
pub struct Sorting {
    pub field_name: Field,
    pub order: Sort,
}

impl Default for Sorting {
    fn default() -> (s: Self)
        ensures
            s.field_name == Field::CreatedAt,
            s.order == Sort::Asc,
    {
        Sorting { field_name: Field::CreatedAt, order: Sort::Asc }
    }
}

/// A page of a listing.
#[derive(Clone, Copy, Debug)]
pub struct Pagination {
    pub offset: Option<u64>,
    pub limit: Option<u64>,
}

impl Default for Pagination {
    fn default() -> (p: Self)
        ensures
            p.offset is None,
            p.limit is None,
    {
        Pagination { offset: None, limit: None }
    }
}

/// A span of time that a listing is restricted to; either end may be open.
#[derive(Clone, Copy, Debug)]
pub struct DatePeriod {
    pub start: Option<Timestamp>,
    pub stop: Option<Timestamp>,
}

impl Default for DatePeriod {
    fn default() -> (p: Self)
        ensures
            p.start is None,
            p.stop is None,
    {
        DatePeriod { start: None, stop: None }
    }
}

/// A request for a user's expenses: how to sort them, which page (not
/// applied), and which period of creation.
#[derive(Clone, Copy, Debug)]
pub struct ExpenseQuery {
    pub sort: Option<Sorting>,
    pub pagination: Option<Pagination>,
    pub period: Option<DatePeriod>,
}

impl Default for ExpenseQuery {
    fn default() -> (q: Self)
        ensures
            q.sort is None,
            q.pagination is None,
            q.period is None,
    {
        ExpenseQuery { sort: None, pagination: None, period: None }
    }
}

/// The expense that a create request inserts: the request's fields, owned by `user`.
pub fn create_expense(user: &UserId, payload: CreateExpense) -> (e: NewExpense)
    ensures
        e.user_id == user.id,
        e.created_at == payload.created_at,
        e.value_sum == payload.value_sum,
{
    NewExpense { user_id: user.id, created_at: payload.created_at, value_sum: payload.value_sum }
}

/// The query for a user's expenses: those of the user, created within the
/// period where one is given, sorted as asked; the pagination is not applied.
pub fn get_expenses(user: &UserId, q: &ExpenseQuery) -> (p: SelectPlan)
    ensures
        p.table == Table::Expense,
        p.conditions@ == seq![owned_by(user.id)] + period_conditions(Column::CreatedAt, q.period),
        scoped_to(p.conditions@, user.id),
        p.sort == sort_key_of(q.sort),
        match q.sort {
            None => p.sort is None,
            Some(s) => p.sort matches Some(k) && k.order == s.order && match s.field_name {
                Field::Id => k.column == Column::Id,
                Field::CreatedAt => k.column == Column::CreatedAt,
                Field::ValueSum => k.column == Column::ValueSum,
            },
        },
        p.offset is None,
        p.limit is None,
        p.well_formed(),
{
    let mut conditions: Vec<Condition> = Vec::new();
    conditions.push(Condition::Eq(Column::UserId, Value::Uuid(user.id)));
    push_period(&mut conditions, Column::CreatedAt, q.period);
    let p = SelectPlan {
        table: Table::Expense,
        conditions,
        sort: sort_key(q.sort),
        offset: None,
        limit: None,
    };
    proof {
        lemma_owner_first_scoped(user.id, Column::CreatedAt, q.period, Seq::empty());
        assert(p.conditions@ =~= seq![owned_by(user.id)] + period_conditions(Column::CreatedAt, q.period)
            + Seq::<Condition>::empty());
    }
    p
}

/// The query for expense `id` of `user`; an expense of another user is not found.
pub fn get_expense(user: &UserId, id: u128) -> (p: SelectPlan)
    ensures
        p.table == Table::Expense,
        p.conditions@ == owned_record(id, user.id),
        scoped_to(p.conditions@, user.id),
        p.sort is None,
        p.offset is None,
        p.limit is None,
        p.well_formed(),
{
    SelectPlan {
        table: Table::Expense,
        conditions: owned_record_conditions(id, user.id),
        sort: None,
        offset: None,
        limit: None,
    }
}

/// The change that an edit request writes, from what the lookup of
/// `get_expense` found: the found expense takes the request's fields; when
/// the user has no such expense, `Error::NotFound`.
pub fn edit_expense(found: Option<Expense>, payload: UpdateExpense) -> (r: Result<ExpenseChange, Error>)
    ensures
        match found {
            Some(old) => r matches Ok(c) && c.id == old.id && c.created_at == payload.created_at
                && c.value_sum == payload.value_sum,
            None => r matches Err(Error::NotFound),
        },
{
    match require_found(found) {
        Ok(old) => Ok(
            ExpenseChange { id: old.id, created_at: payload.created_at, value_sum: payload.value_sum },
        ),
        Err(e) => Err(e),
    }
}

/// The delete of expense `id` of `user`; an expense of another user is left.
pub fn delete_expense(user: &UserId, id: u128) -> (p: DeletePlan)
    ensures
        p.table == Table::Expense,
        p.conditions@ == owned_record(id, user.id),
        scoped_to(p.conditions@, user.id),
        p.well_formed(),
{
    DeletePlan { table: Table::Expense, conditions: owned_record_conditions(id, user.id) }
}

/// The totals of a user's expenses that an expense listing answers with:
/// the sum and the count of `value_sum` over all of the user's expenses (the
/// listing's period does not restrict them).
pub fn expense_totals(user: &UserId) -> (p: TotalsPlan)
    ensures
        p.table == Table::Expense,
        p.conditions@ == seq![owned_by(user.id)],
        scoped_to(p.conditions@, user.id),
        p.totals@ == seq![
            Total { kind: TotalKind::Sum, column: Column::ValueSum },
            Total { kind: TotalKind::Count, column: Column::ValueSum },
        ],
        p.well_formed(),
{
    let mut conditions: Vec<Condition> = Vec::new();
    conditions.push(Condition::Eq(Column::UserId, Value::Uuid(user.id)));
    let mut totals: Vec<Total> = Vec::new();
    totals.push(Total { kind: TotalKind::Sum, column: Column::ValueSum });
    totals.push(Total { kind: TotalKind::Count, column: Column::ValueSum });
    let p = TotalsPlan { table: Table::Expense, conditions, totals };
    assert(p.conditions@ =~= seq![owned_by(user.id)]);
    assert(p.conditions@[0] == owned_by(user.id));
    assert(p.totals@ =~= seq![
        Total { kind: TotalKind::Sum, column: Column::ValueSum },
        Total { kind: TotalKind::Count, column: Column::ValueSum },
    ]);
    p
}

/// An expense row as the database holds it: its fields and its owner.
#[derive(Clone, Copy, Debug)]
pub struct StoredExpense {
    pub id: u128,
    pub user_id: Option<u128>,
    pub created_at: Timestamp,
    pub value_sum: Amount,
}

/// Whether an expense row meets a condition. This gives the meaning of the
/// conditions that the expense queries use: the id or the owner equal to a
/// UUID, the creation time not before or not after an instant. Any other
/// condition is taken to hold of no row.
pub open spec fn expense_meets(row: StoredExpense, c: Condition) -> bool {
    match c {
        Condition::Eq(Column::Id, Value::Uuid(v)) => row.id == v,
        Condition::Eq(Column::UserId, Value::Uuid(v)) => row.user_id == Some(v),
        Condition::Gte(Column::CreatedAt, Value::Time(t)) => instant(row.created_at) >= instant(t),
        Condition::Lte(Column::CreatedAt, Value::Time(t)) => instant(row.created_at) <= instant(t),
        _ => false,
    }
}

/// Whether a query with these conditions selects the row: it meets all of them.
pub open spec fn expense_selected(conditions: Seq<Condition>, row: StoredExpense) -> bool {
    all_met(|r: StoredExpense, c: Condition| expense_meets(r, c), conditions, row)
}

/// Whether the expense belongs to `user`.
pub open spec fn expense_owned_by(row: StoredExpense, user: u128) -> bool {
    row.user_id == Some(user)
}

/// The row that storing `e` with the id `id` that the database gives it makes.
pub open spec fn stored_new_expense(e: NewExpense, id: u128) -> StoredExpense {
    StoredExpense { id, user_id: Some(e.user_id), created_at: e.created_at, value_sum: e.value_sum }
}

/// The row after a change is written to it: the change's fields, its id and owner kept.
pub open spec fn expense_after_change(row: StoredExpense, c: ExpenseChange) -> StoredExpense {
    StoredExpense { created_at: c.created_at, value_sum: c.value_sum, ..row }
}

/// A user's expense listing selects exactly the user's expenses created
/// within the asked period: `get_expenses` never shows another user's expense.
pub proof fn lemma_expense_listing_selects(user: u128, q: ExpenseQuery, row: StoredExpense)
    ensures
        expense_selected(seq![owned_by(user)] + period_conditions(Column::CreatedAt, q.period), row)
            <==> (row.user_id == Some(user) && within_period(q.period, row.created_at)),
{
    lemma_owned_period_met(
        |r: StoredExpense, c: Condition| expense_meets(r, c),
        |r: StoredExpense, u: u128| expense_owned_by(r, u),
        Column::CreatedAt,
        |r: StoredExpense| r.created_at,
        user,
        q.period,
        row,
    );
}

/// The totals of a user's expenses cover exactly the user's expenses:
/// `expense_totals` never counts or sums another user's expense.
pub proof fn lemma_expense_totals_select(user: u128, row: StoredExpense)
    ensures
        expense_selected(seq![owned_by(user)], row) <==> row.user_id == Some(user),
{
    lemma_all_met_one(|r: StoredExpense, c: Condition| expense_meets(r, c), owned_by(user), row);
}

/// What an expense listing answers depends on the user's own expenses alone:
/// on two tables that hold the same expenses of `user` (whatever they hold of
/// other users), the listing of `get_expenses` and the totals of
/// `expense_totals` are taken over the same rows.
pub proof fn lemma_expense_answer_depends_on_own_rows(
    user: u128,
    q: ExpenseQuery,
    d1: Seq<StoredExpense>,
    d2: Seq<StoredExpense>,
)
    requires
        d1.filter(|r: StoredExpense| expense_owned_by(r, user))
            == d2.filter(|r: StoredExpense| expense_owned_by(r, user)),
    ensures
        d1.filter(|r: StoredExpense| expense_selected(seq![owned_by(user)] + period_conditions(Column::CreatedAt, q.period), r))
            == d2.filter(|r: StoredExpense| expense_selected(seq![owned_by(user)] + period_conditions(Column::CreatedAt, q.period), r)),
        d1.filter(|r: StoredExpense| expense_selected(seq![owned_by(user)], r))
            == d2.filter(|r: StoredExpense| expense_selected(seq![owned_by(user)], r)),
{
    let owner = |r: StoredExpense| expense_owned_by(r, user);
    let listing = |r: StoredExpense| expense_selected(seq![owned_by(user)] + period_conditions(Column::CreatedAt, q.period), r);
    let totals = |r: StoredExpense| expense_selected(seq![owned_by(user)], r);
    assert forall|r: StoredExpense| #[trigger] listing(r) implies owner(r) by {
        lemma_expense_listing_selects(user, q, r);
    }
    assert forall|r: StoredExpense| #[trigger] totals(r) implies owner(r) by {
        lemma_expense_totals_select(user, r);
    }
    lemma_owned_query_rows_agree(d1, d2, listing, owner);
    lemma_owned_query_rows_agree(d1, d2, totals, owner);
}

/// The lookup and the delete of expense `id` of `user` reach exactly that
/// expense, and only while it belongs to `user`.
pub proof fn lemma_expense_record_selects(id: u128, user: u128, row: StoredExpense)
    ensures
        expense_selected(owned_record(id, user), row) <==> (row.id == id && row.user_id == Some(user)),
{
    lemma_owned_record_met(|r: StoredExpense, c: Condition| expense_meets(r, c), id, user, row);
}

/// An expense that a user creates is reached by that user's lookup and
/// delete of its id, and by no other user's.
pub proof fn lemma_created_expense_is_the_creators(user: u128, payload: CreateExpense, id: u128, other: u128)
    requires
        other != user,
    ensures
        ({
            let row = stored_new_expense(
                NewExpense { user_id: user, created_at: payload.created_at, value_sum: payload.value_sum },
                id,
            );
            &&& expense_selected(owned_record(id, user), row)
            &&& !expense_selected(owned_record(id, other), row)
        }),
{
    let row = stored_new_expense(
        NewExpense { user_id: user, created_at: payload.created_at, value_sum: payload.value_sum },
        id,
    );
    lemma_expense_record_selects(id, user, row);
    lemma_expense_record_selects(id, other, row);
}

/// Writing the change that `edit_expense` makes of a found expense keeps the
/// expense where the owner's lookup finds it: an edit never moves an expense
/// to another id or another user.
pub proof fn lemma_edit_keeps_expense_owned(id: u128, user: u128, row: StoredExpense, payload: UpdateExpense)
    requires
        expense_selected(owned_record(id, user), row),
    ensures
        ({
            let change = ExpenseChange { id: row.id, created_at: payload.created_at, value_sum: payload.value_sum };
            expense_selected(owned_record(id, user), expense_after_change(row, change))
        }),
{
    let change = ExpenseChange { id: row.id, created_at: payload.created_at, value_sum: payload.value_sum };
    lemma_expense_record_selects(id, user, row);
    lemma_expense_record_selects(id, user, expense_after_change(row, change));
}

} // verus!
