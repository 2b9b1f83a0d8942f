//! Inventory of parts on the production floor: the rules that a part's data
//! must meet, the fixed list of production steps, the SQL statements that store
//! and find parts, and what each HTTP route answers.

pub mod handlers;
pub mod models;
pub mod repository;
pub mod texto;
pub mod validation;
