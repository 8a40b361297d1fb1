//! From the declared model to SQL and to a protobuf file: the statements,
//! the comparison with a live database, the reading of its catalog.

pub mod catalog;
pub mod database;
pub mod diff;
pub mod emit;
pub mod error;
pub mod protobuf;
pub mod query;
pub mod statement;
pub mod util;
