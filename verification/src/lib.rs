//! Core data-access layer of a CRUD service over a relational store:
//! identifier validation, construction of parameterized statements, and
//! marshalling between a dynamic value model and the store's native values.
//!
//! Everything here is pure: statements are built as text plus an ordered bind
//! list, and result columns are decoded step by step from the outcomes of the
//! reads that the caller performs against the store.

pub mod ident;
pub mod text;
pub mod value;
pub mod statement;
pub mod marshal;
pub mod notebook;
