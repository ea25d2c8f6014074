//! The notifications that operations hand back for observers.

pub mod clan;
pub mod member;
pub mod root;
