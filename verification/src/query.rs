use vstd::prelude::*;
use crate::values::Timestamp;
use crate::specific::expense::{DatePeriod, Field, Sort, Sorting};

verus! {

/// The tables and views that the service queries.
#[derive(Clone, Copy, Debug, PartialEq, Eq, Structural)]
pub enum Table {
    Expense,
    Receipt,
    ExpenseWithReceipt,
    Money,
    MoneyList,
}

/// The columns that the service filters and sorts on.
#[derive(Clone, Copy, Debug, PartialEq, Eq, Structural)]
pub enum Column {
    Id,
    UserId,
    CreatedAt,
    ValueSum,
    Name,
    StartDate,
    ExpenseDate,
    Hash,
    Type,
    Archived,
    ExpenseAmount,
    TotalDailySallary,
}

/// A value that a column is compared with.
#[derive(Clone, Debug)]
pub enum Value {
    Uuid(u128),
    Time(Timestamp),
    Text(String),
    Bool(bool),
}

/// One condition of a query; a query selects the rows that meet all of its
/// conditions.
#[derive(Clone, Debug)]
pub enum Condition {
    /// `column = value`
    Eq(Column, Value),
    /// `column >= value`
    Gte(Column, Value),
    /// `column <= value`
    Lte(Column, Value),
    /// `column LIKE pattern`
    Like(Column, String),
    /// `column ILIKE pattern`
    ILike(Column, String),
}

impl Condition {
    /// The column that the condition is about.
    pub open spec fn column(self) -> Column {
        match self {
            Condition::Eq(c, _) => c,
            Condition::Gte(c, _) => c,
            Condition::Lte(c, _) => c,
            Condition::Like(c, _) => c,
            Condition::ILike(c, _) => c,
        }
    }
}

/// A column and the direction to sort it in.
#[derive(Clone, Copy, Debug)]
pub struct SortKey {
    pub column: Column,
    pub order: Sort,
}

/// A `SELECT` on one table: the rows that meet every condition, sorted by
/// `sort` when it is set, from `offset` on and at most `limit` of them.
#[derive(Clone, Debug)]
pub struct SelectPlan {
    pub table: Table,
    pub conditions: Vec<Condition>,
    pub sort: Option<SortKey>,
    pub offset: Option<u64>,
    pub limit: Option<u64>,
}

/// A `DELETE` of the rows of a table that meet every condition.
#[derive(Clone, Debug)]
pub struct DeletePlan {
    pub table: Table,
    pub conditions: Vec<Condition>,
}

/// What a total computes over the rows a query selects.
#[derive(Clone, Copy, Debug, PartialEq, Eq, Structural)]
pub enum TotalKind {
    /// `sum(column)`, read as a floating-point number.
    Sum,
    /// `count(column)`: the number of selected rows where the column is not null.
    Count,
}

/// One total of a totals query.
#[derive(Clone, Copy, Debug)]
pub struct Total {
    pub kind: TotalKind,
    pub column: Column,
}

/// A query of totals: each of `totals`, in order, computed over the rows of
/// `table` that meet every condition.
#[derive(Clone, Debug)]
pub struct TotalsPlan {
    pub table: Table,
    pub conditions: Vec<Condition>,
    pub totals: Vec<Total>,
}

/// Whether a table has a column.
pub open spec fn table_has_column(table: Table, column: Column) -> bool {
    match table {
        Table::Expense => column == Column::Id || column == Column::UserId || column
            == Column::CreatedAt || column == Column::ValueSum,
        Table::Receipt => column == Column::Id || column == Column::UserId || column
            == Column::Name || column == Column::StartDate,
        Table::ExpenseWithReceipt => column == Column::Id || column == Column::UserId || column
            == Column::ExpenseDate || column == Column::ExpenseAmount || column == Column::TotalDailySallary,
        Table::Money | Table::MoneyList => column == Column::Id || column == Column::Name
            || column == Column::Hash || column == Column::Type || column == Column::Archived,
    }
}

/// Every condition is about a column of `table`.
pub open spec fn conditions_fit(table: Table, conditions: Seq<Condition>) -> bool {
    forall|i: int| 0 <= i < conditions.len() ==> table_has_column(table, #[trigger] conditions[i].column())
}

impl SelectPlan {
    /// The plan names only columns of its table.
    pub open spec fn well_formed(&self) -> bool {
        &&& conditions_fit(self.table, self.conditions@)
        &&& (self.sort matches Some(k) ==> table_has_column(self.table, k.column))
    }
}

impl TotalsPlan {
    /// The plan names only columns of its table.
    pub open spec fn well_formed(&self) -> bool {
        &&& conditions_fit(self.table, self.conditions@)
        &&& forall|i: int| 0 <= i < self.totals@.len() ==> table_has_column(self.table, #[trigger] self.totals@[i].column)
    }
}

impl DeletePlan {
    /// The plan names only columns of its table.
    pub open spec fn well_formed(&self) -> bool {
        conditions_fit(self.table, self.conditions@)
    }
}

/// Condition `c`, on `column`, is among the conditions, and no other
/// condition is on `column`.
pub open spec fn only_condition_on(conditions: Seq<Condition>, column: Column, c: Condition) -> bool {
    &&& conditions.contains(c)
    &&& forall|i: int| 0 <= i < conditions.len() && (#[trigger] conditions[i]).column() == column
        ==> conditions[i] == c
}

/// No condition is on `column`.
pub open spec fn no_condition_on(conditions: Seq<Condition>, column: Column) -> bool {
    forall|i: int| 0 <= i < conditions.len() ==> (#[trigger] conditions[i]).column() != column
}

/// The conditions on `column` are case-insensitive matches of the text that
/// starts with `prefix` (`ILIKE` with the pattern `prefix` followed by `%`),
/// and there is one.
pub open spec fn only_prefix_search_on(conditions: Seq<Condition>, column: Column, prefix: Seq<char>) -> bool {
    &&& exists|i: int| 0 <= i < conditions.len() && ((#[trigger] conditions[i]) matches Condition::ILike(c, p)
        && c == column && p@ == prefix + seq!['%'])
    &&& forall|i: int| 0 <= i < conditions.len() && (#[trigger] conditions[i]).column() == column
        ==> (conditions[i] matches Condition::ILike(_, p) && p@ == prefix + seq!['%'])
}

/// The condition that keeps a query to the rows of one user.
pub open spec fn owned_by(user: u128) -> Condition {
    Condition::Eq(Column::UserId, Value::Uuid(user))
}

/// The conditions keep a query to the rows of `user`: they require the row's
/// owner to be `user`, and no condition on the owner names anyone else.
pub open spec fn scoped_to(conditions: Seq<Condition>, user: u128) -> bool {
    &&& conditions.contains(owned_by(user))
    &&& forall|i: int| 0 <= i < conditions.len() && (#[trigger] conditions[i]).column() == Column::UserId
        ==> conditions[i] == owned_by(user)
}

/// A listing that starts with the owner condition and then restricts a
/// column other than the owner to a period, followed by conditions on other
/// columns, is scoped to the owner.
pub proof fn lemma_owner_first_scoped(user: u128, column: Column, period: Option<DatePeriod>, rest: Seq<Condition>)
    requires
        column != Column::UserId,
        forall|i: int| 0 <= i < rest.len() ==> (#[trigger] rest[i]).column() != Column::UserId,
    ensures
        scoped_to(seq![owned_by(user)] + period_conditions(column, period) + rest, user),
{
    let c = seq![owned_by(user)] + period_conditions(column, period) + rest;
    assert(c[0] == owned_by(user));
    let pc = period_conditions(column, period);
    assert forall|i: int| 0 <= i < pc.len() implies (#[trigger] pc[i]).column() == column by {}
    assert forall|i: int| 0 <= i < c.len() && (#[trigger] c[i]).column() == Column::UserId
        implies c[i] == owned_by(user) by {
        if 1 <= i < 1 + pc.len() {
            assert(c[i] == pc[i - 1]);
        } else if i >= 1 + pc.len() {
            assert(c[i] == rest[i - 1 - pc.len()]);
        }
    }
}

/// The conditions of a lookup of record `id` that belongs to `user`.
pub open spec fn owned_record(id: u128, user: u128) -> Seq<Condition> {
    seq![Condition::Eq(Column::Id, Value::Uuid(id)), owned_by(user)]
}

/// The conditions that pick record `id` if it belongs to `user`.
pub fn owned_record_conditions(id: u128, user: u128) -> (c: Vec<Condition>)
    ensures
        c@ == owned_record(id, user),
        scoped_to(c@, user),
{
    let mut c: Vec<Condition> = Vec::new();
    c.push(Condition::Eq(Column::Id, Value::Uuid(id)));
    c.push(Condition::Eq(Column::UserId, Value::Uuid(user)));
    assert(c@ =~= owned_record(id, user));
    assert(c@[1] == owned_by(user));
    c
}

/// The conditions that restrict `column` to a period: at or after its start,
/// at or before its stop, each only where it is given.
pub open spec fn period_conditions(column: Column, period: Option<DatePeriod>) -> Seq<Condition> {
    match period {
        None => Seq::empty(),
        Some(p) => {
            let from = match p.start {
                Some(s) => seq![Condition::Gte(column, Value::Time(s))],
                None => Seq::empty(),
            };
            let to = match p.stop {
                Some(s) => seq![Condition::Lte(column, Value::Time(s))],
                None => Seq::empty(),
            };
            from + to
        },
    }
}

/// The instant of a timestamp, in nanoseconds since the Unix epoch; the
/// offset it is shown in does not change it.
pub open spec fn instant(t: Timestamp) -> int {
    t.unix_seconds * 1_000_000_000 + t.nanos
}

/// Whether time `t` lies within a period: not before its start and not after
/// its stop, where they are given.
pub open spec fn within_period(period: Option<DatePeriod>, t: Timestamp) -> bool {
    match period {
        None => true,
        Some(p) => {
            &&& (p.start matches Some(s) ==> instant(t) >= instant(s))
            &&& (p.stop matches Some(s) ==> instant(t) <= instant(s))
        },
    }
}

/// The sort key that a listing's sorting asks for.
pub open spec fn sort_key_of(sort: Option<Sorting>) -> Option<SortKey> {
    match sort {
        Some(s) => Some(SortKey { column: s.field_name.column_spec(), order: s.order }),
        None => None,
    }
}

/// A listing is sorted as asked: with no sorting asked, it has no sort key;
/// with a sorting asked, its key sorts by the column that the asked field
/// names, in the asked direction.
pub proof fn lemma_sort_key_as_asked(sort: Option<Sorting>)
    ensures
        match sort {
            None => sort_key_of(sort) is None,
            Some(s) => sort_key_of(sort) matches Some(k) && k.order == s.order && match s.field_name {
                Field::Id => k.column == Column::Id,
                Field::CreatedAt => k.column == Column::CreatedAt,
                Field::ValueSum => k.column == Column::ValueSum,
            },
        },
{
}

/// Appends to `conditions` those that restrict `column` to `period`.
pub fn push_period(conditions: &mut Vec<Condition>, column: Column, period: Option<DatePeriod>)
    ensures
        final(conditions)@ == old(conditions)@ + period_conditions(column, period),
{
    if let Some(p) = period {
        if let Some(start) = p.start {
            conditions.push(Condition::Gte(column, Value::Time(start)));
        }
        if let Some(stop) = p.stop {
            conditions.push(Condition::Lte(column, Value::Time(stop)));
        }
        assert(final(conditions)@ =~= old(conditions)@ + period_conditions(column, period));
    } else {
        assert(conditions@ =~= old(conditions)@ + period_conditions(column, period));
    }
}

/// The sort key for a listing's sorting: the column its field names, in its order.
pub fn sort_key(sort: Option<Sorting>) -> (k: Option<SortKey>)
    ensures
        k == sort_key_of(sort),
        match sort {
            None => k is None,
            Some(s) => k matches Some(k) && k.order == s.order && match s.field_name {
                Field::Id => k.column == Column::Id,
                Field::CreatedAt => k.column == Column::CreatedAt,
                Field::ValueSum => k.column == Column::ValueSum,
            },
        },
{
    match sort {
        Some(s) => Some(SortKey { column: s.field_name.column(), order: s.order }),
        None => None,
    }
}

/// Whether a row meets every condition, where `meets` says what one
/// condition means for a row of the table.
pub open spec fn all_met<R>(meets: spec_fn(R, Condition) -> bool, conditions: Seq<Condition>, row: R) -> bool {
    forall|i: int| 0 <= i < conditions.len() ==> #[trigger] meets(row, conditions[i])
}

/// A row meets one condition exactly when it meets it.
pub proof fn lemma_all_met_one<R>(meets: spec_fn(R, Condition) -> bool, c: Condition, row: R)
    ensures
        all_met(meets, seq![c], row) <==> meets(row, c),
{
    assert(seq![c][0] == c);
}

/// A row meets the lookup of record `id` of `user` exactly when it meets
/// both of its conditions.
pub proof fn lemma_owned_record_met<R>(meets: spec_fn(R, Condition) -> bool, id: u128, user: u128, row: R)
    ensures
        all_met(meets, owned_record(id, user), row)
            <==> meets(row, Condition::Eq(Column::Id, Value::Uuid(id))) && meets(row, owned_by(user)),
{
    let c = owned_record(id, user);
    assert(c[0] == Condition::Eq(Column::Id, Value::Uuid(id)));
    assert(c[1] == owned_by(user));
}

/// A row meets the conditions of `a + b` exactly when it meets those of `a`
/// and those of `b`.
pub proof fn lemma_all_met_concat<R>(meets: spec_fn(R, Condition) -> bool, a: Seq<Condition>, b: Seq<Condition>, row: R)
    ensures
        all_met(meets, a + b, row) <==> all_met(meets, a, row) && all_met(meets, b, row),
{
    let ab = a + b;
    if all_met(meets, a, row) && all_met(meets, b, row) {
        assert forall|i: int| 0 <= i < ab.len() implies #[trigger] meets(row, ab[i]) by {
            if i < a.len() {
                assert(ab[i] == a[i]);
            } else {
                assert(ab[i] == b[i - a.len()]);
            }
        }
    }
    if all_met(meets, ab, row) {
        assert forall|i: int| 0 <= i < a.len() implies #[trigger] meets(row, a[i]) by {
            assert(ab[i] == a[i]);
        }
        assert forall|i: int| 0 <= i < b.len() implies #[trigger] meets(row, b[i]) by {
            assert(ab[i + a.len()] == b[i]);
        }
    }
}

/// Where the conditions on `column` compare the row's time `time(row)` with
/// an instant, a row meets the period conditions exactly when its time lies
/// within the period.
pub proof fn lemma_period_met<R>(
    meets: spec_fn(R, Condition) -> bool,
    column: Column,
    time: spec_fn(R) -> Timestamp,
    period: Option<DatePeriod>,
    row: R,
)
    requires
        forall|r: R, t: Timestamp| #[trigger] meets(r, Condition::Gte(column, Value::Time(t)))
            == (instant(time(r)) >= instant(t)),
        forall|r: R, t: Timestamp| #[trigger] meets(r, Condition::Lte(column, Value::Time(t)))
            == (instant(time(r)) <= instant(t)),
    ensures
        all_met(meets, period_conditions(column, period), row) <==> within_period(period, time(row)),
{
    if let Some(p) = period {
        let from = match p.start {
            Some(s) => seq![Condition::Gte(column, Value::Time(s))],
            None => Seq::<Condition>::empty(),
        };
        let to = match p.stop {
            Some(s) => seq![Condition::Lte(column, Value::Time(s))],
            None => Seq::<Condition>::empty(),
        };
        lemma_all_met_concat(meets, from, to, row);
        assert(period_conditions(column, period) == from + to);
        if let Some(s) = p.start {
            assert(from[0] == Condition::Gte(column, Value::Time(s)));
            assert(all_met(meets, from, row) <==> meets(row, Condition::Gte(column, Value::Time(s))));
        }
        if let Some(s) = p.stop {
            assert(to[0] == Condition::Lte(column, Value::Time(s)));
            assert(all_met(meets, to, row) <==> meets(row, Condition::Lte(column, Value::Time(s))));
        }
    }
}

/// A row meets the owner condition followed by a period exactly when its
/// owner is `user` (as `owner_is` says) and its time lies within the period.
pub proof fn lemma_owned_period_met<R>(
    meets: spec_fn(R, Condition) -> bool,
    owner_is: spec_fn(R, u128) -> bool,
    column: Column,
    time: spec_fn(R) -> Timestamp,
    user: u128,
    period: Option<DatePeriod>,
    row: R,
)
    requires
        forall|r: R, u: u128| #[trigger] meets(r, owned_by(u)) == owner_is(r, u),
        forall|r: R, t: Timestamp| #[trigger] meets(r, Condition::Gte(column, Value::Time(t)))
            == (instant(time(r)) >= instant(t)),
        forall|r: R, t: Timestamp| #[trigger] meets(r, Condition::Lte(column, Value::Time(t)))
            == (instant(time(r)) <= instant(t)),
    ensures
        all_met(meets, seq![owned_by(user)] + period_conditions(column, period), row)
            <==> owner_is(row, user) && within_period(period, time(row)),
{
    lemma_all_met_concat(meets, seq![owned_by(user)], period_conditions(column, period), row);
    lemma_period_met(meets, column, time, period, row);
    assert(seq![owned_by(user)][0] == owned_by(user));
    assert(meets(row, owned_by(user)) == owner_is(row, user));
}

/// Filtering a sequence by `sel`, where `sel` holds only of elements that
/// `owner` holds of, is filtering first by `owner` and then by `sel`.
pub proof fn lemma_filter_within<A>(s: Seq<A>, sel: spec_fn(A) -> bool, owner: spec_fn(A) -> bool)
    requires
        forall|x: A| #[trigger] sel(x) ==> owner(x),
    ensures
        s.filter(sel) == s.filter(owner).filter(sel),
    decreases s.len(),
{
    reveal(Seq::filter);
    if s.len() > 0 {
        let init = s.drop_last();
        lemma_filter_within(init, sel, owner);
        let fo = s.filter(owner);
        if owner(s.last()) {
            assert(fo == init.filter(owner).push(s.last()));
            assert(fo.drop_last() =~= init.filter(owner));
            assert(fo.last() == s.last());
        } else {
            assert(fo == init.filter(owner));
        }
    }
}

/// Two tables that agree on the rows of one owner give the same rows to any
/// query that keeps to that owner's rows: what such a query returns depends
/// on that owner's rows alone.
pub proof fn lemma_owned_query_rows_agree<A>(
    d1: Seq<A>,
    d2: Seq<A>,
    sel: spec_fn(A) -> bool,
    owner: spec_fn(A) -> bool,
)
    requires
        forall|x: A| #[trigger] sel(x) ==> owner(x),
        d1.filter(owner) == d2.filter(owner),
    ensures
        d1.filter(sel) == d2.filter(sel),
{
    lemma_filter_within(d1, sel, owner);
    lemma_filter_within(d2, sel, owner);
}

} // verus!
