//! Verified access to one embedded SQLite database: statements run as they
//! are, reads returned as canonical text, reads served page by page over any
//! statement, and a description of the tables.
//!
//! - `value`: the canonical text of a cell, and how it reads back.
//! - `sql`: normalizing statement text and writing the statements that
//!   count, window and describe.
//! - `page`: page sizes, offsets, whether rows remain, and what pages cover.
//! - `report`: the results and descriptions, built from what the engine
//!   returned.
//! - `db`: the operations on a connection.
use vstd::prelude::*;

pub mod chars;
pub mod db;
pub mod error;
pub mod page;
pub mod report;
pub mod sql;
pub mod value;

verus! {

} // verus!
