//! Composition of search-query strings for an issue tracker's query language,
//! and the fixed vocabularies and column lists that requests to the tracker use.
pub mod enums;
pub mod filter;
pub mod request;
pub mod text;
