use vstd::prelude::*;
use vstd::string::*;
use crate::entities::money::Model as MoneyModel;
use crate::query::{
    no_condition_on, only_condition_on, only_prefix_search_on, Column, Condition, DeletePlan, SelectPlan,
    Table, Value,
};
use crate::specific::expense::AffectedRows;
use crate::utils::Error;

verus! {

/// A search of the money records: a page (`offset`, `limit`), a name prefix,
/// an exact hash, an exact type, and whether archived records are wanted.
#[allow(non_camel_case_types)]
#[derive(Clone, Debug)]
pub struct moneyQuery {
    pub offset: Option<u64>,
    pub limit: Option<u64>,
    pub hash: Option<String>,
    pub money_type: Option<String>,
    pub name: Option<String>,
    pub archived: Option<bool>,
}

/// The `archived` filter of a search that does not name one: only records
/// that are not archived.
pub fn default_archived() -> (a: Option<bool>)
    ensures
        a == Some(false),
{
    Some(false)
}

impl Default for moneyQuery {
    fn default() -> (q: Self)
        ensures
            q.offset is None,
            q.limit is None,
            q.hash is None,
            q.money_type is None,
            q.name is None,
            q.archived is None,
    {
        moneyQuery { offset: None, limit: None, hash: None, money_type: None, name: None, archived: None }
    }
}

/// The conditions of a money search after its name condition: equal hash,
/// equal type, equal archived flag, each where the search gives one.
pub open spec fn exact_conditions(hash: Option<String>, money_type: Option<String>, archived: Option<bool>) -> Seq<Condition> {
    (match hash {
        Some(h) => seq![Condition::Eq(Column::Hash, Value::Text(h))],
        None => Seq::empty(),
    }) + (match money_type {
        Some(t) => seq![Condition::Eq(Column::Type, Value::Text(t))],
        None => Seq::empty(),
    }) + (match archived {
        Some(a) => seq![Condition::Eq(Column::Archived, Value::Bool(a))],
        None => Seq::empty(),
    })
}

/// The conditions of a money search: where a name is given, first that the
/// name starts with it (case-insensitive `ILIKE` on the name followed by `%`),
/// then `exact_conditions`.
pub open spec fn money_conditions(conditions: Seq<Condition>, q: moneyQuery) -> bool {
    let rest = exact_conditions(q.hash, q.money_type, q.archived);
    match q.name {
        Some(n) => {
            &&& conditions.len() == rest.len() + 1
            &&& conditions[0] matches Condition::ILike(c, p) && c == Column::Name && p@ == n@ + seq!['%']
            &&& conditions.subrange(1, conditions.len() as int) == rest
        },
        None => conditions == rest,
    }
}

/// A money search filters as asked: a name gives exactly one condition on
/// the name, a case-insensitive match of names that start with it; a hash,
/// a type or an archived flag gives exactly one condition on that column,
/// equality with the asked value; a field not asked gives no condition on
/// its column.
pub proof fn lemma_money_search_filters(conditions: Seq<Condition>, q: moneyQuery)
    requires
        money_conditions(conditions, q),
    ensures
        match q.name {
            Some(n) => only_prefix_search_on(conditions, Column::Name, n@),
            None => no_condition_on(conditions, Column::Name),
        },
        match q.hash {
            Some(h) => only_condition_on(conditions, Column::Hash, Condition::Eq(Column::Hash, Value::Text(h))),
            None => no_condition_on(conditions, Column::Hash),
        },
        match q.money_type {
            Some(t) => only_condition_on(conditions, Column::Type, Condition::Eq(Column::Type, Value::Text(t))),
            None => no_condition_on(conditions, Column::Type),
        },
        match q.archived {
            Some(a) => only_condition_on(conditions, Column::Archived, Condition::Eq(Column::Archived, Value::Bool(a))),
            None => no_condition_on(conditions, Column::Archived),
        },
{
    let hs = match q.hash {
        Some(h) => seq![Condition::Eq(Column::Hash, Value::Text(h))],
        None => Seq::<Condition>::empty(),
    };
    let ts = match q.money_type {
        Some(t) => seq![Condition::Eq(Column::Type, Value::Text(t))],
        None => Seq::<Condition>::empty(),
    };
    let ars = match q.archived {
        Some(flag) => seq![Condition::Eq(Column::Archived, Value::Bool(flag))],
        None => Seq::<Condition>::empty(),
    };
    let rest = exact_conditions(q.hash, q.money_type, q.archived);
    assert(rest == hs + ts + ars);
    let off: int = if q.name is Some { 1 } else { 0 };
    assert(conditions.len() == off + hs.len() + ts.len() + ars.len());
    assert forall|i: int| 0 <= i < rest.len() implies rest[i] == conditions[i + off] by {
        if q.name is Some {
            assert(conditions.subrange(1, conditions.len() as int)[i] == conditions[i + 1]);
        }
    }
    // Where each part of the conditions sits, and what it holds.
    assert forall|i: int| 0 <= i < hs.len() implies conditions[off + i] == hs[i] by {
        assert(rest[i] == hs[i]);
    }
    assert forall|i: int| 0 <= i < ts.len() implies conditions[off + hs.len() + i] == ts[i] by {
        assert(rest[hs.len() + i] == ts[i]);
    }
    assert forall|i: int| 0 <= i < ars.len() implies conditions[off + hs.len() + ts.len() + i] == ars[i] by {
        assert(rest[hs.len() + ts.len() + i] == ars[i]);
    }
    assert forall|i: int| 0 <= i < conditions.len() implies {
        let c = #[trigger] conditions[i];
        &&& (c.column() == Column::Name ==> i == 0 && off == 1)
        &&& (c.column() == Column::Hash ==> off <= i < off + hs.len())
        &&& (c.column() == Column::Type ==> off + hs.len() <= i < off + hs.len() + ts.len())
        &&& (c.column() == Column::Archived ==> off + hs.len() + ts.len() <= i)
    } by {
        if i < off {
        } else if i < off + hs.len() {
            assert(conditions[i] == hs[i - off]);
        } else if i < off + hs.len() + ts.len() {
            assert(conditions[i] == ts[i - off - hs.len()]);
        } else {
            assert(conditions[i] == ars[i - off - hs.len() - ts.len()]);
        }
    }
    if let Some(h) = q.hash {
        assert(conditions[off] == hs[0]);
    }
    if let Some(t) = q.money_type {
        assert(conditions[off + hs.len()] == ts[0]);
    }
    if let Some(a) = q.archived {
        assert(conditions[off + hs.len() + ts.len()] == ars[0]);
    }
    if let Some(n) = q.name {
        assert(conditions[0] matches Condition::ILike(c, p) && c == Column::Name && p@ == n@ + seq!['%']);
    }
}

/// The query of a money search on `table`: the search's page and conditions.
fn money_search(table: Table, q: moneyQuery) -> (p: SelectPlan)
    requires
        table == Table::Money || table == Table::MoneyList,
    ensures
        p.table == table,
        money_conditions(p.conditions@, q),
        match q.name {
            Some(n) => only_prefix_search_on(p.conditions@, Column::Name, n@),
            None => no_condition_on(p.conditions@, Column::Name),
        },
        match q.hash {
            Some(h) => only_condition_on(p.conditions@, Column::Hash, Condition::Eq(Column::Hash, Value::Text(h))),
            None => no_condition_on(p.conditions@, Column::Hash),
        },
        match q.money_type {
            Some(t) => only_condition_on(p.conditions@, Column::Type, Condition::Eq(Column::Type, Value::Text(t))),
            None => no_condition_on(p.conditions@, Column::Type),
        },
        match q.archived {
            Some(a) => only_condition_on(p.conditions@, Column::Archived, Condition::Eq(Column::Archived, Value::Bool(a))),
            None => no_condition_on(p.conditions@, Column::Archived),
        },
        p.sort is None,
        p.offset == q.offset,
        p.limit == q.limit,
        p.well_formed(),
{
    let ghost q0 = q;
    let mut conditions: Vec<Condition> = Vec::new();
    if let Some(name) = q.name {
        let mut pattern = name;
        pattern.append("%");
        proof {
            reveal_strlit("%");
            assert("%"@ =~= seq!['%']);
        }
        assert(pattern@ == name@ + seq!['%']);
        conditions.push(Condition::ILike(Column::Name, pattern));
        assert(conditions@.len() == 1);
        assert(conditions@[0] matches Condition::ILike(c, p) && c == Column::Name && p@ == name@ + seq!['%']);
    }
    let ghost named = conditions@;
    if let Some(hash) = q.hash {
        conditions.push(Condition::Eq(Column::Hash, Value::Text(hash)));
    }
    if let Some(t) = q.money_type {
        conditions.push(Condition::Eq(Column::Type, Value::Text(t)));
    }
    if let Some(a) = q.archived {
        conditions.push(Condition::Eq(Column::Archived, Value::Bool(a)));
    }
    assert(conditions@ =~= named + exact_conditions(q0.hash, q0.money_type, q0.archived));
    assert(named.len() == 0 || named.len() == 1);
    assert(conditions@.subrange(named.len() as int, conditions@.len() as int)
        =~= exact_conditions(q0.hash, q0.money_type, q0.archived));
    let p = SelectPlan { table, conditions, sort: None, offset: q.offset, limit: q.limit };
    assert(q0.name is None ==> named.len() == 0);
    assert(q0.name is Some ==> named.len() == 1 && p.conditions@[0] == named[0]);
    proof {
        lemma_money_search_filters(p.conditions@, q0);
    }
    p
}

/// The query of a search of the money records.
pub fn get_moneys(q: moneyQuery) -> (p: SelectPlan)
    ensures
        p.table == Table::Money,
        money_conditions(p.conditions@, q),
        match q.name {
            Some(n) => only_prefix_search_on(p.conditions@, Column::Name, n@),
            None => no_condition_on(p.conditions@, Column::Name),
        },
        match q.hash {
            Some(h) => only_condition_on(p.conditions@, Column::Hash, Condition::Eq(Column::Hash, Value::Text(h))),
            None => no_condition_on(p.conditions@, Column::Hash),
        },
        match q.money_type {
            Some(t) => only_condition_on(p.conditions@, Column::Type, Condition::Eq(Column::Type, Value::Text(t))),
            None => no_condition_on(p.conditions@, Column::Type),
        },
        match q.archived {
            Some(a) => only_condition_on(p.conditions@, Column::Archived, Condition::Eq(Column::Archived, Value::Bool(a))),
            None => no_condition_on(p.conditions@, Column::Archived),
        },
        p.sort is None,
        p.offset == q.offset,
        p.limit == q.limit,
        p.well_formed(),
{
    let ghost q0 = q;
    let p = money_search(Table::Money, q);
    proof {
        lemma_money_search_filters(p.conditions@, q0);
    }
    p
}

/// The query of a search of the money list view.
pub fn get_money_list(q: moneyQuery) -> (p: SelectPlan)
    ensures
        p.table == Table::MoneyList,
        money_conditions(p.conditions@, q),
        match q.name {
            Some(n) => only_prefix_search_on(p.conditions@, Column::Name, n@),
            None => no_condition_on(p.conditions@, Column::Name),
        },
        match q.hash {
            Some(h) => only_condition_on(p.conditions@, Column::Hash, Condition::Eq(Column::Hash, Value::Text(h))),
            None => no_condition_on(p.conditions@, Column::Hash),
        },
        match q.money_type {
            Some(t) => only_condition_on(p.conditions@, Column::Type, Condition::Eq(Column::Type, Value::Text(t))),
            None => no_condition_on(p.conditions@, Column::Type),
        },
        match q.archived {
            Some(a) => only_condition_on(p.conditions@, Column::Archived, Condition::Eq(Column::Archived, Value::Bool(a))),
            None => no_condition_on(p.conditions@, Column::Archived),
        },
        p.sort is None,
        p.offset == q.offset,
        p.limit == q.limit,
        p.well_formed(),
{
    let ghost q0 = q;
    let p = money_search(Table::MoneyList, q);
    proof {
        lemma_money_search_filters(p.conditions@, q0);
    }
    p
}

/// The query for money record `id`.
pub fn get_money(id: u128) -> (p: SelectPlan)
    ensures
        p.table == Table::Money,
        p.conditions@ == seq![Condition::Eq(Column::Id, Value::Uuid(id))],
        p.sort is None,
        p.offset is None,
        p.limit is None,
        p.well_formed(),
{
    let mut conditions: Vec<Condition> = Vec::new();
    conditions.push(Condition::Eq(Column::Id, Value::Uuid(id)));
    let p = SelectPlan { table: Table::Money, conditions, sort: None, offset: None, limit: None };
    assert(p.conditions@ =~= seq![Condition::Eq(Column::Id, Value::Uuid(id))]);
    p
}

/// The delete of money record `id`: by its id alone.
pub fn money_delete_plan(id: u128) -> (p: DeletePlan)
    ensures
        p.table == Table::Money,
        p.conditions@ == seq![Condition::Eq(Column::Id, Value::Uuid(id))],
        p.well_formed(),
{
    let mut conditions: Vec<Condition> = Vec::new();
    conditions.push(Condition::Eq(Column::Id, Value::Uuid(id)));
    let p = DeletePlan { table: Table::Money, conditions };
    assert(p.conditions@ =~= seq![Condition::Eq(Column::Id, Value::Uuid(id))]);
    p
}

/// Where a delete of a money record stands.
#[derive(Clone, Copy, Debug)]
pub enum MoneyDeletion {
    /// Nothing done yet for record `0`.
    Start(u128),
    /// Waiting for the lookup of record `0` (`get_money`).
    LookingUp(u128),
    /// Waiting for the delete of the layout of record `0`.
    DeletingLayout(u128),
    /// Waiting for the delete of record `0` (`money_delete_plan`).
    Deleting(u128),
    /// Answered.
    Done,
}

/// What the service reports back to a money delete.
#[derive(Debug)]
pub enum MoneyDeleteEvent {
    /// The request arrived.
    Begin,
    /// The lookup ended: the record found, none, or the database's error.
    LookedUp(Result<Option<MoneyModel>, Error>),
    /// The delete of the layout ended; how it ended does not matter.
    LayoutDeleted,
    /// The delete of the record ended: the rows it removed, or the database's error.
    Deleted(Result<u64, Error>),
}

/// What a money delete asks the service to do next.
#[derive(Debug)]
pub enum MoneyDeleteAction {
    /// Look up record `0` with `get_money`.
    Lookup(u128),
    /// Delete layout `0`.
    DeleteLayout(u128),
    /// Delete record `0` with `money_delete_plan`.
    Delete(u128),
    /// Send the Delete event for `emit_deleted` where it is set, and answer.
    Finish { emit_deleted: Option<u128>, answer: Result<AffectedRows, Error> },
    /// Nothing: the event does not belong to the state.
    Nothing,
}

/// The layout that a lookup's outcome asks to delete: that of the found
/// record, if it has one. A failed lookup deletes no layout.
pub open spec fn layout_to_delete(lookup: Result<Option<MoneyModel>, Error>) -> Option<u128> {
    match lookup {
        Ok(Some(m)) => m.layout_id,
        _ => None,
    }
}

/// The next state and action of a money delete after an event: look the
/// record up; delete its layout when it has one (whatever the lookup's
/// error, the delete goes on); delete the record by id; then answer with the
/// rows removed and send the Delete event, or answer with the delete's error
/// and send nothing.
pub open spec fn money_delete_next(state: MoneyDeletion, event: MoneyDeleteEvent) -> (MoneyDeletion, MoneyDeleteAction) {
    match (state, event) {
        (MoneyDeletion::Start(id), MoneyDeleteEvent::Begin) => (MoneyDeletion::LookingUp(id), MoneyDeleteAction::Lookup(id)),
        (MoneyDeletion::LookingUp(id), MoneyDeleteEvent::LookedUp(found)) => match layout_to_delete(found) {
            Some(l) => (MoneyDeletion::DeletingLayout(id), MoneyDeleteAction::DeleteLayout(l)),
            None => (MoneyDeletion::Deleting(id), MoneyDeleteAction::Delete(id)),
        },
        (MoneyDeletion::DeletingLayout(id), MoneyDeleteEvent::LayoutDeleted) => (MoneyDeletion::Deleting(id), MoneyDeleteAction::Delete(id)),
        (MoneyDeletion::Deleting(id), MoneyDeleteEvent::Deleted(r)) => (
            MoneyDeletion::Done,
            match r {
                Ok(k) => MoneyDeleteAction::Finish { emit_deleted: Some(id), answer: Ok(AffectedRows { affected_rows: k }) },
                Err(e) => MoneyDeleteAction::Finish { emit_deleted: None, answer: Err(e) },
            },
        ),
        (s, _) => (s, MoneyDeleteAction::Nothing),
    }
}

/// One step of a money delete: the next state and action after `event`, as
/// `money_delete_next` gives them.
pub fn delete_money(state: MoneyDeletion, event: MoneyDeleteEvent) -> (r: (MoneyDeletion, MoneyDeleteAction))
    ensures
        r == money_delete_next(state, event),
{
    match (state, event) {
        (MoneyDeletion::Start(id), MoneyDeleteEvent::Begin) => (MoneyDeletion::LookingUp(id), MoneyDeleteAction::Lookup(id)),
        (MoneyDeletion::LookingUp(id), MoneyDeleteEvent::LookedUp(found)) => {
            let layout = match found {
                Ok(Some(m)) => m.layout_id,
                _ => None,
            };
            match layout {
                Some(l) => (MoneyDeletion::DeletingLayout(id), MoneyDeleteAction::DeleteLayout(l)),
                None => (MoneyDeletion::Deleting(id), MoneyDeleteAction::Delete(id)),
            }
        },
        (MoneyDeletion::DeletingLayout(id), MoneyDeleteEvent::LayoutDeleted) => (MoneyDeletion::Deleting(id), MoneyDeleteAction::Delete(id)),
        (MoneyDeletion::Deleting(id), MoneyDeleteEvent::Deleted(r)) => (
            MoneyDeletion::Done,
            match r {
                Ok(k) => MoneyDeleteAction::Finish { emit_deleted: Some(id), answer: Ok(AffectedRows::new(k)) },
                Err(e) => MoneyDeleteAction::Finish { emit_deleted: None, answer: Err(e) },
            },
        ),
        (s, _) => (s, MoneyDeleteAction::Nothing),
    }
}

/// A whole money delete, for any outcome of the lookup and of the delete:
/// it looks record `id` up first; it deletes the layout once, before the
/// record, exactly when the lookup found the record with a layout (a failed
/// lookup is passed over); it deletes the record by id; and it sends the
/// Delete event for `id` once exactly when that delete succeeded, answering
/// with the rows removed, or else answers with the delete's error.
pub proof fn lemma_money_delete_run(id: u128, lookup: Result<Option<MoneyModel>, Error>, deleted: Result<u64, Error>)
    ensures
        ({
            let (s1, a1) = money_delete_next(MoneyDeletion::Start(id), MoneyDeleteEvent::Begin);
            let (s2, a2) = money_delete_next(s1, MoneyDeleteEvent::LookedUp(lookup));
            let layout = match lookup {
                Ok(Some(m)) => m.layout_id,
                _ => None,
            };
            let s3 = if layout is Some {
                money_delete_next(s2, MoneyDeleteEvent::LayoutDeleted).0
            } else {
                s2
            };
            let a3 = money_delete_next(s2, MoneyDeleteEvent::LayoutDeleted).1;
            let (s4, a4) = money_delete_next(s3, MoneyDeleteEvent::Deleted(deleted));
            &&& a1 == MoneyDeleteAction::Lookup(id)
            &&& match layout {
                Some(l) => a2 == MoneyDeleteAction::DeleteLayout(l) && a3 == MoneyDeleteAction::Delete(id),
                None => a2 == MoneyDeleteAction::Delete(id),
            }
            &&& s4 == MoneyDeletion::Done
            &&& match deleted {
                Ok(k) => a4 == MoneyDeleteAction::Finish {
                    emit_deleted: Some(id),
                    answer: Ok(AffectedRows { affected_rows: k }),
                },
                Err(e) => a4 == MoneyDeleteAction::Finish { emit_deleted: None, answer: Err(e) },
            }
        }),
{
}

} // verus!
