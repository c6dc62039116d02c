use vstd::prelude::*;
use crate::values::{Amount, Timestamp};

verus! {

/// A stored receipt of salary over a period of work.
#[derive(Clone, Debug)]
pub struct Model {
    pub id: u128,
    pub user_id: Option<u128>,
    pub name: String,
    pub start_date: Timestamp,
    pub stop_date: Timestamp,
    pub sallary: Amount,
}

/// The body of a request that records a receipt.
#[derive(Clone, Debug)]
pub struct CreateReceipt {
    pub name: String,
    pub start_date: Timestamp,
    pub stop_date: Timestamp,
    pub sallary: Amount,
}

/// The body of a request that changes a receipt.
#[derive(Clone, Debug)]
pub struct UpdateReceipt {
    pub name: String,
    pub start_date: Timestamp,
    pub stop_date: Timestamp,
    pub sallary: Amount,
}

/// A receipt as it is inserted: the request's fields and its owner.
#[derive(Clone, Debug)]
pub struct NewReceipt {
    pub user_id: u128,
    pub name: String,
    pub start_date: Timestamp,
    pub stop_date: Timestamp,
    pub sallary: Amount,
}

/// The change written to the receipt with id `id`; its owner is left as it is.
#[derive(Clone, Debug)]
pub struct ReceiptChange {
    pub id: u128,
    pub name: String,
    pub start_date: Timestamp,
    pub stop_date: Timestamp,
    pub sallary: Amount,
}

} // verus!
