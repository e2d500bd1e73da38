//! Key self-service usage queries: scoping, paging, quota classification and
//! the projections a key holder is allowed to see.

pub mod text;
pub mod time;
pub mod keys;
pub mod model;
pub mod observability;
pub mod scope;
pub mod accounts;
pub mod presenter;
pub mod account_pages;
pub mod display_laws;
pub mod query_laws;
pub mod routes;
pub mod account_operations;
