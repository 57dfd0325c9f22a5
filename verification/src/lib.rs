//! Search queries for a remote document-search service: a chainable query
//! description, its rendering as a URL query string, and the shape of the
//! service's answer.

pub mod decimal;
pub mod json;
pub mod laws;
pub mod percent;
pub mod search;
