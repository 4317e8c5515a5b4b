//! A library of verified handling of query results, values and schema
//! metadata for a C-style database client interface: a value decoder, a
//! first-row result container, iterators over every kind of collection, and
//! the schema metadata tree.

pub mod collection;
pub mod iterator;
pub mod metadata;
pub mod names;
pub mod query_result;
pub mod raw_value;
pub mod types;
pub mod value;
