use vstd::prelude::*;
use crate::values::{Amount, Timestamp};

verus! {

/// A stored expense.
#[derive(Clone, Copy, Debug)]
pub struct Model {
    pub id: u128,
    pub created_at: Timestamp,
    pub value_sum: Amount,
}

/// The body of a request that records an expense.
#[derive(Clone, Copy, Debug)]
pub struct CreateExpense {
    pub created_at: Timestamp,
    pub value_sum: Amount,
}

/// The body of a request that changes an expense.
#[derive(Clone, Copy, Debug)]
pub struct UpdateExpense {
    pub created_at: Timestamp,
    pub value_sum: Amount,
}

/// An expense as it is inserted: the request's fields and its owner; the
/// database gives it its id.
#[derive(Clone, Copy, Debug)]
pub struct NewExpense {
    pub user_id: u128,
    pub created_at: Timestamp,
    pub value_sum: Amount,
}

/// The change written to the expense with id `id`; its owner is left as it is.
#[derive(Clone, Copy, Debug)]
pub struct ExpenseChange {
    pub id: u128,
    pub created_at: Timestamp,
    pub value_sum: Amount,
}

} // verus!
