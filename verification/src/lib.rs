//! A small catalogue service core: categories, ingredients and recipes,
//! each stored as flat rows, listed as plain text and created one row at
//! a time behind a single serialized storage handle.

pub mod handler;
pub mod laws;
pub mod model;
pub mod store;
pub mod text;
