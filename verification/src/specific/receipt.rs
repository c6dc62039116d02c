use vstd::prelude::*;
use crate::utils::{Error, require_found};
use crate::entities::receipt::{CreateReceipt, Model as Receipt, NewReceipt, ReceiptChange, UpdateReceipt};
use crate::specific::UserId;
use crate::query::{
    all_met, instant, lemma_all_met_concat, lemma_all_met_one, lemma_owned_period_met, lemma_owned_query_rows_agree, lemma_owned_record_met, lemma_owner_first_scoped, owned_by, within_period, owned_record, owned_record_conditions, period_conditions,
    push_period, scoped_to, Column, Condition, DeletePlan, SelectPlan, Table, Value,
};
use crate::specific::expense::DatePeriod;

verus! {

/// A request for a user's receipts: the period in which they start, and a
/// `LIKE` pattern for their name.
#[derive(Clone, Debug)]
pub struct ReceiptQuery {
    pub period: Option<DatePeriod>,
    pub name: Option<String>,
}

impl Default for ReceiptQuery {
    fn default() -> (q: Self)
        ensures
            q.period is None,
            q.name is None,
    {
        ReceiptQuery { period: None, name: None }
    }
}

/// The name condition of a receipt search: the name matches the pattern,
/// where one is given.
pub open spec fn name_conditions(name: Option<String>) -> Seq<Condition> {
    match name {
        Some(n) => seq![Condition::Like(Column::Name, n)],
        None => Seq::empty(),
    }
}

/// The receipt that a create request inserts: the request's fields, owned by `user`.
pub fn create_receipt(user: &UserId, payload: CreateReceipt) -> (r: NewReceipt)
    ensures
        r.user_id == user.id,
        r.name == payload.name,
        r.start_date == payload.start_date,
        r.stop_date == payload.stop_date,
        r.sallary == payload.sallary,
{
    NewReceipt {
        user_id: user.id,
        name: payload.name,
        start_date: payload.start_date,
        stop_date: payload.stop_date,
        sallary: payload.sallary,
    }
}

/// The query for a user's receipts: those of the user that start within the
/// period where one is given, and whose name matches the pattern where one is given.
pub fn get_receipts(user: &UserId, q: ReceiptQuery) -> (p: SelectPlan)
    ensures
        p.table == Table::Receipt,
        p.conditions@ == seq![owned_by(user.id)] + period_conditions(Column::StartDate, q.period)
            + name_conditions(q.name),
        scoped_to(p.conditions@, user.id),
        p.sort is None,
        p.offset is None,
        p.limit is None,
        p.well_formed(),
{
    let mut conditions: Vec<Condition> = Vec::new();
    conditions.push(Condition::Eq(Column::UserId, Value::Uuid(user.id)));
    push_period(&mut conditions, Column::StartDate, q.period);
    let ghost before = conditions@;
    if let Some(name) = q.name {
        conditions.push(Condition::Like(Column::Name, name));
    }
    assert(conditions@ =~= before + name_conditions(q.name));
    let p = SelectPlan { table: Table::Receipt, conditions, sort: None, offset: None, limit: None };
    assert(p.conditions@ =~= seq![owned_by(user.id)] + period_conditions(Column::StartDate, q.period)
        + name_conditions(q.name));
    proof {
        lemma_owner_first_scoped(user.id, Column::StartDate, q.period, name_conditions(q.name));
    }
    p
}

/// The query for receipt `id` of `user`; a receipt of another user is not found.
pub fn get_receipt(user: &UserId, id: u128) -> (p: SelectPlan)
    ensures
        p.table == Table::Receipt,
        p.conditions@ == owned_record(id, user.id),
        scoped_to(p.conditions@, user.id),
        p.sort is None,
        p.offset is None,
        p.limit is None,
        p.well_formed(),
{
    SelectPlan {
        table: Table::Receipt,
        conditions: owned_record_conditions(id, user.id),
        sort: None,
        offset: None,
        limit: None,
    }
}

/// The change that an edit request writes, from what the lookup of
/// `get_receipt` found: the found receipt takes the request's fields; when
/// the user has no such receipt, `Error::NotFound`.
pub fn edit_receipt(found: Option<Receipt>, payload: UpdateReceipt) -> (r: Result<ReceiptChange, Error>)
    ensures
        match found {
            Some(old) => r matches Ok(c) && c.id == old.id && c.name == payload.name
                && c.start_date == payload.start_date && c.stop_date == payload.stop_date
                && c.sallary == payload.sallary,
            None => r matches Err(Error::NotFound),
        },
{
    match require_found(found) {
        Ok(old) => Ok(
            ReceiptChange {
                id: old.id,
                name: payload.name,
                start_date: payload.start_date,
                stop_date: payload.stop_date,
                sallary: payload.sallary,
            },
        ),
        Err(e) => Err(e),
    }
}

/// The delete of receipt `id` of `user`; a receipt of another user is left.
pub fn delete_receipt(user: &UserId, id: u128) -> (p: DeletePlan)
    ensures
        p.table == Table::Receipt,
        p.conditions@ == owned_record(id, user.id),
        scoped_to(p.conditions@, user.id),
        p.well_formed(),
{
    DeletePlan { table: Table::Receipt, conditions: owned_record_conditions(id, user.id) }
}

/// Whether `text` matches the SQL `LIKE` pattern `pattern` as a whole: `%`
/// stands for any run of characters, `_` for any one character, and a
/// backslash makes the character after it stand for itself. A pattern that
/// ends in a lone backslash matches nothing (the database refuses it).
pub open spec fn like_matches(pattern: Seq<char>, text: Seq<char>) -> bool
    decreases pattern.len() + text.len(),
{
    if pattern.len() == 0 {
        text.len() == 0
    } else if pattern[0] == '%' {
        like_matches(pattern.drop_first(), text) || (text.len() > 0 && like_matches(pattern, text.drop_first()))
    } else if pattern[0] == '_' {
        text.len() > 0 && like_matches(pattern.drop_first(), text.drop_first())
    } else if pattern[0] == '\\' {
        pattern.len() >= 2 && text.len() > 0 && text[0] == pattern[1]
            && like_matches(pattern.subrange(2, pattern.len() as int), text.drop_first())
    } else {
        text.len() > 0 && text[0] == pattern[0] && like_matches(pattern.drop_first(), text.drop_first())
    }
}

/// Whether a receipt row meets a condition. This gives the meaning of the
/// conditions that the receipt queries use: the id or the owner equal to a
/// UUID, the start not before or not after an instant, the name matching a
/// `LIKE` pattern. Any other condition is taken to hold of no row.
pub open spec fn receipt_meets(row: Receipt, c: Condition) -> bool {
    match c {
        Condition::Eq(Column::Id, Value::Uuid(v)) => row.id == v,
        Condition::Eq(Column::UserId, Value::Uuid(v)) => row.user_id == Some(v),
        Condition::Gte(Column::StartDate, Value::Time(t)) => instant(row.start_date) >= instant(t),
        Condition::Lte(Column::StartDate, Value::Time(t)) => instant(row.start_date) <= instant(t),
        Condition::Like(Column::Name, p) => like_matches(p@, row.name@),
        _ => false,
    }
}

/// Whether a query with these conditions selects the row: it meets all of them.
pub open spec fn receipt_selected(conditions: Seq<Condition>, row: Receipt) -> bool {
    all_met(|r: Receipt, c: Condition| receipt_meets(r, c), conditions, row)
}

/// Whether the receipt belongs to `user`.
pub open spec fn receipt_owned_by(row: Receipt, user: u128) -> bool {
    row.user_id == Some(user)
}

/// Whether a receipt's name answers a search's name: it matches the pattern,
/// where one is given.
pub open spec fn name_wanted(name: Option<String>, row: Receipt) -> bool {
    name matches Some(n) ==> like_matches(n@, row.name@)
}

/// A user's receipt search selects exactly the user's receipts that start
/// within the asked period and whose name matches the asked pattern:
/// `get_receipts` never shows another user's receipt.
pub proof fn lemma_receipt_search_selects(user: u128, q: ReceiptQuery, row: Receipt)
    ensures
        receipt_selected(
            seq![owned_by(user)] + period_conditions(Column::StartDate, q.period) + name_conditions(q.name),
            row,
        ) <==> (row.user_id == Some(user) && within_period(q.period, row.start_date) && name_wanted(q.name, row)),
{
    let meets = |r: Receipt, c: Condition| receipt_meets(r, c);
    lemma_all_met_concat(
        meets,
        seq![owned_by(user)] + period_conditions(Column::StartDate, q.period),
        name_conditions(q.name),
        row,
    );
    lemma_owned_period_met(
        meets,
        |r: Receipt, u: u128| receipt_owned_by(r, u),
        Column::StartDate,
        |r: Receipt| r.start_date,
        user,
        q.period,
        row,
    );
    if let Some(n) = q.name {
        lemma_all_met_one(meets, Condition::Like(Column::Name, n), row);
    }
}

/// What a receipt search answers depends on the user's own receipts alone:
/// on two tables that hold the same receipts of `user` (whatever they hold of
/// other users), `get_receipts` selects the same rows.
pub proof fn lemma_receipt_answer_depends_on_own_rows(user: u128, q: ReceiptQuery, d1: Seq<Receipt>, d2: Seq<Receipt>)
    requires
        d1.filter(|r: Receipt| receipt_owned_by(r, user)) == d2.filter(|r: Receipt| receipt_owned_by(r, user)),
    ensures
        d1.filter(|r: Receipt| receipt_selected(
            seq![owned_by(user)] + period_conditions(Column::StartDate, q.period) + name_conditions(q.name),
            r,
        )) == d2.filter(|r: Receipt| receipt_selected(
            seq![owned_by(user)] + period_conditions(Column::StartDate, q.period) + name_conditions(q.name),
            r,
        )),
{
    let owner = |r: Receipt| receipt_owned_by(r, user);
    let search = |r: Receipt| receipt_selected(
        seq![owned_by(user)] + period_conditions(Column::StartDate, q.period) + name_conditions(q.name),
        r,
    );
    assert forall|r: Receipt| #[trigger] search(r) implies owner(r) by {
        lemma_receipt_search_selects(user, q, r);
    }
    lemma_owned_query_rows_agree(d1, d2, search, owner);
}

/// The lookup and the delete of receipt `id` of `user` reach exactly that
/// receipt, and only while it belongs to `user`.
pub proof fn lemma_receipt_record_selects(id: u128, user: u128, row: Receipt)
    ensures
        receipt_selected(owned_record(id, user), row) <==> (row.id == id && row.user_id == Some(user)),
{
    lemma_owned_record_met(|r: Receipt, c: Condition| receipt_meets(r, c), id, user, row);
}

/// The row that storing `r` with the id `id` that the database gives it makes.
pub open spec fn stored_new_receipt(r: NewReceipt, id: u128) -> Receipt {
    Receipt {
        id,
        user_id: Some(r.user_id),
        name: r.name,
        start_date: r.start_date,
        stop_date: r.stop_date,
        sallary: r.sallary,
    }
}

/// The row after a change is written to it: the change's fields, its id and owner kept.
pub open spec fn receipt_after_change(row: Receipt, c: ReceiptChange) -> Receipt {
    Receipt { name: c.name, start_date: c.start_date, stop_date: c.stop_date, sallary: c.sallary, ..row }
}

/// A receipt that a user creates is reached by that user's lookup and delete
/// of its id, and by no other user's.
pub proof fn lemma_created_receipt_is_the_creators(user: u128, payload: CreateReceipt, id: u128, other: u128)
    requires
        other != user,
    ensures
        ({
            let row = stored_new_receipt(
                NewReceipt {
                    user_id: user,
                    name: payload.name,
                    start_date: payload.start_date,
                    stop_date: payload.stop_date,
                    sallary: payload.sallary,
                },
                id,
            );
            &&& receipt_selected(owned_record(id, user), row)
            &&& !receipt_selected(owned_record(id, other), row)
        }),
{
    let row = stored_new_receipt(
        NewReceipt {
            user_id: user,
            name: payload.name,
            start_date: payload.start_date,
            stop_date: payload.stop_date,
            sallary: payload.sallary,
        },
        id,
    );
    lemma_receipt_record_selects(id, user, row);
    lemma_receipt_record_selects(id, other, row);
}

/// Writing the change that `edit_receipt` makes of a found receipt keeps the
/// receipt where the owner's lookup finds it: an edit never moves a receipt
/// to another id or another user.
pub proof fn lemma_edit_keeps_receipt_owned(id: u128, user: u128, row: Receipt, payload: UpdateReceipt)
    requires
        receipt_selected(owned_record(id, user), row),
    ensures
        ({
            let change = ReceiptChange {
                id: row.id,
                name: payload.name,
                start_date: payload.start_date,
                stop_date: payload.stop_date,
                sallary: payload.sallary,
            };
            receipt_selected(owned_record(id, user), receipt_after_change(row, change))
        }),
{
    let change = ReceiptChange {
        id: row.id,
        name: payload.name,
        start_date: payload.start_date,
        stop_date: payload.stop_date,
        sallary: payload.sallary,
    };
    lemma_receipt_record_selects(id, user, row);
    lemma_receipt_record_selects(id, user, receipt_after_change(row, change));
}

} // verus!
