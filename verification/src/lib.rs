//! Normalisation of hydrological station data: nested JSON documents become
//! flat, typed, columnar tables whose nested parts are table-valued cells.
//!
//! A transform takes the texts of a batch of responses, parses and decodes
//! them into typed records, flattens the records into rows, builds the
//! table, and prunes the columns that hold no value. Every table that the
//! library makes is well formed: each column has one cell for each row.
//!
//! - `json`: documents as the parser hands them over.
//! - `schema`: the declared fields of each kind of record.
//! - `decode`: flat records from objects of a document.
//! - `table`, `builder`, `prune`: the table, its construction from rows, and
//!   column pruning.
//! - `dataset`, `forecast`, `metadata`, `reference`: the four kinds of
//!   response.
//! - `double`, `geometry`: numbers as bit patterns, points and bounding
//!   boxes.
//! - `error`: the refusal of a document.

pub mod builder;
pub mod dataset;
pub mod decode;
pub mod double;
pub mod error;
pub mod forecast;
pub mod geometry;
pub mod json;
pub mod metadata;
pub mod prune;
pub mod reference;
pub mod schema;
pub mod table;
