//! Client-side building blocks for an incident-management search API.
//!
//! The heart of the crate is [`query_builder`]: a small expression language
//! for composing search-query strings out of typed scalar terms, field
//! comparisons and boolean combinators, with the quoting and grouping rules
//! of the target query language stated and proved. [`pagination`] holds the
//! immutable page-cursor value that the list endpoints take, and [`api`] the
//! plain data records that their responses carry.

pub mod api;
pub mod limits;
pub mod pagination;
pub mod query_builder;
pub mod text;
