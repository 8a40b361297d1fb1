//! Declarative schema reconciliation.
//!
//! An application declares its tables: columns, types, nullability,
//! defaults, uniqueness, foreign keys. This crate compares the declared
//! tables with the catalog of a live database and gives the SQL that
//! brings the database into line: `CREATE TABLE` for a table that is
//! absent, and for a live table the `ALTER TABLE` statements that add,
//! change and drop its columns. The crate reads no database: it takes the
//! rows of the catalog query and gives text.
//!
//! - [`database`] is the model of a table, [`protobuf`] that of a message
//!   and a service, [`schema`] and [`service`] what an application
//!   declares of them.
//! - [`compile::statement`] says what a statement is and how it is
//!   written, [`compile::diff`] which statements a comparison yields and
//!   what holds of them, [`compile::catalog`] how the rows of the catalog
//!   are read.
//! - [`compile::database`] is the compiler of tables and
//!   [`compile::protobuf`] that of a protobuf file.
//! - [`declare`] and [`naming`] hold the rules by which a model is
//!   declared, [`workspace`] those of the generated packages.
//! - [`text`] and [`unicode`] are the text helpers underneath.

pub mod app;
pub mod compile;
pub mod database;
pub mod declare;
pub mod naming;
pub mod protobuf;
pub mod schema;
pub mod service;
pub mod text;
pub mod unicode;
pub mod workspace;
