//! The records that the service stores, and the request bodies that make and change them.

pub mod exp_rec_list;
pub mod expense;
pub mod money;
pub mod receipt;
pub mod user;
