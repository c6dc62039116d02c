//! Registration of users.

pub mod auth;
