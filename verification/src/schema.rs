//! What the application declares: models, and the roles each one plays.

use crate::database::DatabaseSchema;
use crate::protobuf::ProtobufSchema;
use vstd::prelude::*;
use vstd::std_specs::cmp::PartialEqSpecImpl;

verus! {

/// A role of a model.
#[derive(Clone, Debug)]
pub enum Role {
    /// The model is a table of the database.
    DatabaseTable(DatabaseSchema),
    /// The model holds some columns of a table, as for an insert or an
    /// update; the role carries that table.
    DatabaseSubTable(DatabaseSchema),
    /// The model is a protobuf message.
    ProtobufMessage(ProtobufSchema),
}

/// A field of the type that declares a model: its name and its type, the
/// type written without spaces.
#[derive(Clone, Debug)]
pub struct RustField {
    pub name: String,
    pub ty: String,
}

impl PartialEq for RustField {
    fn eq(&self, other: &Self) -> (r: bool) {
        self.name == other.name && self.ty == other.ty
    }
}

impl PartialEqSpecImpl for RustField {
    open spec fn obeys_eq_spec() -> bool {
        true
    }

    /// Fields are equal where their names and their types are.
    open spec fn eq_spec(&self, other: &Self) -> bool {
        self.name@ == other.name@ && self.ty@ == other.ty@
    }
}

/// A declared model.
#[derive(Clone, Debug)]
pub struct Model {
    pub name: String,
    pub roles: Vec<Role>,
    pub fields: Vec<RustField>,
}

} // verus!
