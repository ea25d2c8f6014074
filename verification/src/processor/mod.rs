//! The operations, each on the accounts that it is handed.

pub mod clan;
pub mod member;
pub mod root;
