//! The expense, receipt and money requests of the service.

use vstd::prelude::*;

pub mod expence;
pub mod expense;
pub mod expense_with_receipt;
pub mod receipt;

verus! {

/// The user on whose behalf a request is made.
#[derive(Clone, Copy, Debug)]
pub struct UserId {
    pub id: u128,
}

} // verus!
