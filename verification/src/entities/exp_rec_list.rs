use vstd::prelude::*;
use crate::values::{Amount, Timestamp};

verus! {

/// A row of the view that sets each expense against the salary earned that day.
#[derive(Clone, Copy, Debug)]
pub struct Model {
    pub id: u128,
    pub user_id: u128,
    pub expense_date: Timestamp,
    pub expense_amount: Amount,
    pub total_daily_sallary: Amount,
    pub balance: Amount,
}

} // verus!
