//! The rules of a declared model: the columns that every table has and
//! what may not be said of them, and the column type and the protobuf type
//! that the type of a field stands for.
//!
//! The type of a field is its text without spaces, as in `Option<Vec<u8>>`.

use crate::compile::util::{
    is_date_time, is_naive_date_time, is_ty_date_time, is_ty_naive_date_time, is_ty_uuid, is_uuid,
};
use crate::database::{DatabaseDefault, DatabaseType, DefaultValue};
use crate::protobuf::{ProtobufSchema, ProtobufType};
use crate::text::{chars_of, starts_with, str_eq};
use vstd::prelude::*;
use vstd::string::{StrSliceExecFns, StringExecFns};

verus! {

/// A column that every table has.
#[derive(Clone, Copy, Debug, PartialEq, Eq, Structural)]
pub enum Reserved {
    Id,
    CreatedAt,
    UpdatedAt,
}

/// What may not be said of a reserved column.
#[derive(Clone, Copy, Debug, PartialEq, Eq, Structural)]
pub enum Rule {
    /// `id` is a UUID; `created_at` and `updated_at` are points in time
    /// with an offset.
    Type,
    /// The column is not optional.
    Required,
    /// The column has the default that the model gives it, and no other.
    Default,
    /// The column is not marked as unique.
    NotUnique,
    /// The column references no other table.
    NoReference,
}

/// The reserved column of that name, if it is one.
pub open spec fn reserved_column(name: Seq<char>) -> Option<Reserved> {
    if name == "id"@ {
        Some(Reserved::Id)
    } else if name == "created_at"@ {
        Some(Reserved::CreatedAt)
    } else if name == "updated_at"@ {
        Some(Reserved::UpdatedAt)
    } else {
        None
    }
}

/// Whether a field of that type can be the reserved column.
pub open spec fn fits(column: Reserved, ty: Seq<char>) -> bool {
    match column {
        Reserved::Id => is_uuid(ty),
        Reserved::CreatedAt => is_date_time(ty),
        Reserved::UpdatedAt => is_date_time(ty),
    }
}

/// What is said to the author of a model that breaks a rule.
pub open spec fn fault(column: Reserved, rule: Rule) -> Seq<char> {
    match (column, rule) {
        (Reserved::Id, Rule::Type) => "`id` must be of type `Uuid`"@,
        (Reserved::CreatedAt, Rule::Type) =>
            "`created_at` must be of type `DateTime<FixedOffset>`"@,
        (Reserved::UpdatedAt, Rule::Type) =>
            "`updated_at` must be of type `DateTime<FixedOffset>`"@,
        (Reserved::Id, Rule::Required) => "`id` cannot be an Option"@,
        (Reserved::CreatedAt, Rule::Required) => "`created_at` cannot be an Option"@,
        (Reserved::UpdatedAt, Rule::Required) => "`updated_at` cannot be an Option"@,
        (Reserved::Id, Rule::Default) => "`id` cannot have a custom default"@,
        (Reserved::CreatedAt, Rule::Default) => "`created_at` cannot have a custom default"@,
        (Reserved::UpdatedAt, Rule::Default) => "`updated_at` cannot have a custom default"@,
        (Reserved::Id, Rule::NotUnique) => "`id` cannot be marked as unique"@,
        (Reserved::CreatedAt, Rule::NotUnique) => "`created_at` cannot be marked as unique"@,
        (Reserved::UpdatedAt, Rule::NotUnique) => "`updated_at` cannot be marked as unique"@,
        (Reserved::Id, Rule::NoReference) => "`id` cannot reference another table"@,
        (Reserved::CreatedAt, Rule::NoReference) => "`created_at` cannot reference another table"@,
        (Reserved::UpdatedAt, Rule::NoReference) => "`updated_at` cannot reference another table"@,
    }
}

/// What is said to the author of a model that lacks a reserved column.
pub open spec fn missing(column: Reserved) -> Seq<char> {
    match column {
        Reserved::Id => "database models must have an `id: Uuid` column"@,
        Reserved::CreatedAt =>
            "database models must have an `created_at: DateTime<FixedOffset>` column"@,
        Reserved::UpdatedAt =>
            "database models must have an `updated_at: DateTime<FixedOffset>` column"@,
    }
}

/// The expression that is the default of a reserved column: a new UUID for
/// `id`, the present time for the other two.
pub open spec fn reserved_default(column: Reserved) -> Seq<char> {
    match column {
        Reserved::Id => "uuid_generate_v4()"@,
        Reserved::CreatedAt => "NOW()"@,
        Reserved::UpdatedAt => "NOW()"@,
    }
}

/// The first reserved column that is not among the names, in the order
/// `id`, `created_at`, `updated_at`.
pub open spec fn first_missing(names: Seq<Seq<char>>) -> Option<Reserved> {
    if !names.contains("id"@) {
        Some(Reserved::Id)
    } else if !names.contains("created_at"@) {
        Some(Reserved::CreatedAt)
    } else if !names.contains("updated_at"@) {
        Some(Reserved::UpdatedAt)
    } else {
        None
    }
}

/// Whether the `Option<` at the start of `ty`, if there is one, is closed:
/// something follows it, and the last character is one byte wide, as a
/// closing bracket is.
pub open spec fn closed(ty: Seq<char>, opening: Seq<char>) -> bool {
    opening.is_prefix_of(ty) ==> ty.len() > opening.len() && (ty.last() as u32) < 0x80
}

/// `ty` without the opening at its start and without its last character;
/// `ty` itself where it does not begin with the opening.
pub open spec fn inside(ty: Seq<char>, opening: Seq<char>) -> Seq<char> {
    if opening.is_prefix_of(ty) {
        ty.subrange(opening.len() as int, ty.len() - 1)
    } else {
        ty
    }
}

/// The column type that a type stands for, `Option<..>` around it or not.
/// A `String` is a text without a length.
pub open spec fn column_type(ty: Seq<char>) -> Option<DatabaseType> {
    let inner = inside(ty, "Option<"@);
    if inner == "i16"@ {
        Some(DatabaseType::SmallInt)
    } else if inner == "i32"@ {
        Some(DatabaseType::Integer)
    } else if inner == "i64"@ {
        Some(DatabaseType::BigInt)
    } else if inner == "f32"@ {
        Some(DatabaseType::Float)
    } else if inner == "f64"@ {
        Some(DatabaseType::Double)
    } else if inner == "String"@ {
        Some(DatabaseType::Text(None))
    } else if inner == "Vec<u8>"@ {
        Some(DatabaseType::Binary)
    } else if is_naive_date_time(inner) {
        Some(DatabaseType::Timestamp)
    } else if is_date_time(inner) {
        Some(DatabaseType::Timestamptz)
    } else if inner == "chrono::NaiveDate"@ || inner == "NaiveDate"@ {
        Some(DatabaseType::Date)
    } else if inner == "chrono::NaiveTime"@ || inner == "NaiveTime"@ {
        Some(DatabaseType::Time)
    } else if inner == "bool"@ {
        Some(DatabaseType::Bool)
    } else if is_uuid(inner) {
        Some(DatabaseType::Uuid)
    } else {
        None
    }
}

/// The scalar protobuf type that a type stands for, if it stands for one.
/// A UUID is held as a string, a point in time as a timestamp.
pub open spec fn scalar_type(ty: Seq<char>) -> Option<ProtobufType> {
    if ty == "f64"@ {
        Some(ProtobufType::Double)
    } else if ty == "f32"@ {
        Some(ProtobufType::Float)
    } else if ty == "i32"@ {
        Some(ProtobufType::Int32)
    } else if ty == "i64"@ {
        Some(ProtobufType::Int64)
    } else if ty == "u32"@ {
        Some(ProtobufType::Uint32)
    } else if ty == "u64"@ {
        Some(ProtobufType::Uint64)
    } else if ty == "bool"@ {
        Some(ProtobufType::Bool)
    } else if ty == "String"@ || ty == "&str"@ {
        Some(ProtobufType::String)
    } else if ty == "Vec<u8>"@ || ty == "&u8"@ {
        Some(ProtobufType::Bytes)
    } else if is_naive_date_time(ty) || is_date_time(ty) {
        Some(ProtobufType::Timestamp)
    } else if is_uuid(ty) {
        Some(ProtobufType::String)
    } else {
        None
    }
}

/// Whether every `Vec<` that the type leads through is closed.
pub open spec fn lists_closed(ty: Seq<char>) -> bool
    decreases ty.len(),
{
    if scalar_type(ty) is None && ty.len() >= 4 && ty.take(4) == "Vec<"@ {
        ty.len() > 4 && (ty.last() as u32) < 0x80 && lists_closed(ty.subrange(4, ty.len() - 1))
    } else {
        true
    }
}

/// Whether `r` is the protobuf type that `ty` stands for: the scalar type
/// where there is one; a list of what the item stands for, for `Vec<..>`;
/// and for any other type a message that is known by its name alone, the
/// name being the type.
pub open spec fn stands_for(ty: Seq<char>, r: ProtobufType) -> bool
    decreases ty.len(),
{
    match scalar_type(ty) {
        Some(scalar) => r == scalar,
        None => if ty.len() >= 4 && ty.take(4) == "Vec<"@ {
            ty.len() > 4 && (r matches ProtobufType::Repeated(item) && stands_for(
                ty.subrange(4, ty.len() - 1),
                *item,
            ))
        } else {
            r matches ProtobufType::Custom(message) && message.name@ == ty && message.fields@.len()
                == 0 && message.generated_code is None
        },
    }
}

/// The reserved column of that name, if it is one.
pub fn reserved(name: &str) -> (r: Option<Reserved>)
    ensures
        r == reserved_column(name@),
{
    if str_eq(name, "id") {
        Some(Reserved::Id)
    } else if str_eq(name, "created_at") {
        Some(Reserved::CreatedAt)
    } else if str_eq(name, "updated_at") {
        Some(Reserved::UpdatedAt)
    } else {
        None
    }
}

impl Reserved {
    /// Whether a field of that type can be the column.
    pub fn fits(&self, ty: &str) -> (r: bool)
        ensures
            r == fits(*self, ty@),
    {
        match self {
            Reserved::Id => is_ty_uuid(ty),
            Reserved::CreatedAt => is_ty_date_time(ty),
            Reserved::UpdatedAt => is_ty_date_time(ty),
        }
    }

    /// What is said to the author of a model that breaks a rule.
    pub fn fault(&self, rule: Rule) -> (message: &'static str)
        ensures
            message@ == fault(*self, rule),
    {
        match (self, rule) {
            (Reserved::Id, Rule::Type) => "`id` must be of type `Uuid`",
            (Reserved::CreatedAt, Rule::Type) =>
                "`created_at` must be of type `DateTime<FixedOffset>`",
            (Reserved::UpdatedAt, Rule::Type) =>
                "`updated_at` must be of type `DateTime<FixedOffset>`",
            (Reserved::Id, Rule::Required) => "`id` cannot be an Option",
            (Reserved::CreatedAt, Rule::Required) => "`created_at` cannot be an Option",
            (Reserved::UpdatedAt, Rule::Required) => "`updated_at` cannot be an Option",
            (Reserved::Id, Rule::Default) => "`id` cannot have a custom default",
            (Reserved::CreatedAt, Rule::Default) => "`created_at` cannot have a custom default",
            (Reserved::UpdatedAt, Rule::Default) => "`updated_at` cannot have a custom default",
            (Reserved::Id, Rule::NotUnique) => "`id` cannot be marked as unique",
            (Reserved::CreatedAt, Rule::NotUnique) => "`created_at` cannot be marked as unique",
            (Reserved::UpdatedAt, Rule::NotUnique) => "`updated_at` cannot be marked as unique",
            (Reserved::Id, Rule::NoReference) => "`id` cannot reference another table",
            (Reserved::CreatedAt, Rule::NoReference) =>
                "`created_at` cannot reference another table",
            (Reserved::UpdatedAt, Rule::NoReference) =>
                "`updated_at` cannot reference another table",
        }
    }

    /// What is said to the author of a model that lacks the column.
    pub fn missing(&self) -> (message: &'static str)
        ensures
            message@ == missing(*self),
    {
        match self {
            Reserved::Id => "database models must have an `id: Uuid` column",
            Reserved::CreatedAt =>
                "database models must have an `created_at: DateTime<FixedOffset>` column",
            Reserved::UpdatedAt =>
                "database models must have an `updated_at: DateTime<FixedOffset>` column",
        }
    }

    /// The default of the column.
    pub fn default(&self) -> (default: DatabaseDefault)
        ensures
            default@ == DefaultValue::Raw(reserved_default(*self)),
    {
        match self {
            Reserved::Id => DatabaseDefault::Raw(String::from_str("uuid_generate_v4()")),
            Reserved::CreatedAt => DatabaseDefault::Raw(String::from_str("NOW()")),
            Reserved::UpdatedAt => DatabaseDefault::Raw(String::from_str("NOW()")),
        }
    }

    /// Whether the column is the primary key: `id` is, and no other.
    pub fn primary_key(&self) -> (r: bool)
        ensures
            r == (*self == Reserved::Id),
    {
        match self {
            Reserved::Id => true,
            _ => false,
        }
    }
}

/// Whether one of the names is `name`.
fn has_name(names: &[String], name: &str) -> (r: bool)
    ensures
        r == name_views(names@).contains(name@),
{
    let n = names.len();
    let mut i: usize = 0;
    while i < n
        invariant
            i <= n,
            n == names.len(),
            forall|j: int| 0 <= j < i ==> name_views(names@)[j] != name@,
        decreases n - i,
    {
        if str_eq(names[i].as_str(), name) {
            assert(name_views(names@)[i as int] == name@);
            return true;
        }
        i = i + 1;
    }
    false
}

/// The values of a list of names.
pub open spec fn name_views(names: Seq<String>) -> Seq<Seq<char>> {
    names.map_values(|name: String| name@)
}

/// The first reserved column that the fields of a table lack, by the names
/// of the fields.
pub fn missing_column(names: &[String]) -> (r: Option<Reserved>)
    ensures
        r == first_missing(name_views(names@)),
{
    if !has_name(names, "id") {
        Some(Reserved::Id)
    } else if !has_name(names, "created_at") {
        Some(Reserved::CreatedAt)
    } else if !has_name(names, "updated_at") {
        Some(Reserved::UpdatedAt)
    } else {
        None
    }
}

/// Whether [`rust_to_db_type`] and [`rust_to_proto_type`] take this type:
/// an `Option<` at its start is closed.
pub fn is_closed_option(ty: &str) -> (r: bool)
    ensures
        r == closed(ty@, "Option<"@),
{
    proof {
        reveal_strlit("Option<");
    }
    if starts_with(ty, "Option<") {
        let chars = chars_of(ty);
        let n = chars.len();
        n > 7 && (chars[n - 1] as u32) < 0x80
    } else {
        true
    }
}

/// `ty` without the `Option<..>` around it.
pub fn option_inside(ty: &str) -> (inner: &str)
    requires
        closed(ty@, "Option<"@),
    ensures
        inner@ == inside(ty@, "Option<"@),
{
    proof {
        reveal_strlit("Option<");
    }
    if starts_with(ty, "Option<") {
        ty.substring_char(7, ty.unicode_len() - 1)
    } else {
        ty
    }
}

/// The column type that the type of a field stands for; `None` for a type
/// that stands for none.
pub fn rust_to_db_type(ty: &str) -> (r: Option<DatabaseType>)
    requires
        closed(ty@, "Option<"@),
    ensures
        r == column_type(ty@),
{
    let inner = option_inside(ty);
    if str_eq(inner, "i16") {
        Some(DatabaseType::SmallInt)
    } else if str_eq(inner, "i32") {
        Some(DatabaseType::Integer)
    } else if str_eq(inner, "i64") {
        Some(DatabaseType::BigInt)
    } else if str_eq(inner, "f32") {
        Some(DatabaseType::Float)
    } else if str_eq(inner, "f64") {
        Some(DatabaseType::Double)
    } else if str_eq(inner, "String") {
        Some(DatabaseType::Text(None))
    } else if str_eq(inner, "Vec<u8>") {
        Some(DatabaseType::Binary)
    } else if is_ty_naive_date_time(inner) {
        Some(DatabaseType::Timestamp)
    } else if is_ty_date_time(inner) {
        Some(DatabaseType::Timestamptz)
    } else if str_eq(inner, "chrono::NaiveDate") || str_eq(inner, "NaiveDate") {
        Some(DatabaseType::Date)
    } else if str_eq(inner, "chrono::NaiveTime") || str_eq(inner, "NaiveTime") {
        Some(DatabaseType::Time)
    } else if str_eq(inner, "bool") {
        Some(DatabaseType::Bool)
    } else if is_ty_uuid(inner) {
        Some(DatabaseType::Uuid)
    } else {
        None
    }
}

/// The scalar protobuf type that a type stands for, if it stands for one.
fn rust_to_scalar(ty: &str) -> (r: Option<ProtobufType>)
    ensures
        r == scalar_type(ty@),
{
    if str_eq(ty, "f64") {
        Some(ProtobufType::Double)
    } else if str_eq(ty, "f32") {
        Some(ProtobufType::Float)
    } else if str_eq(ty, "i32") {
        Some(ProtobufType::Int32)
    } else if str_eq(ty, "i64") {
        Some(ProtobufType::Int64)
    } else if str_eq(ty, "u32") {
        Some(ProtobufType::Uint32)
    } else if str_eq(ty, "u64") {
        Some(ProtobufType::Uint64)
    } else if str_eq(ty, "bool") {
        Some(ProtobufType::Bool)
    } else if str_eq(ty, "String") || str_eq(ty, "&str") {
        Some(ProtobufType::String)
    } else if str_eq(ty, "Vec<u8>") || str_eq(ty, "&u8") {
        Some(ProtobufType::Bytes)
    } else if is_ty_naive_date_time(ty) || is_ty_date_time(ty) {
        Some(ProtobufType::Timestamp)
    } else if is_ty_uuid(ty) {
        Some(ProtobufType::String)
    } else {
        None
    }
}

/// Whether [`rust_str_to_proto_type`] takes this type: every `Vec<` that
/// it leads through is closed.
pub fn are_lists_closed(ty: &str) -> (r: bool)
    ensures
        r == lists_closed(ty@),
    decreases ty@.len(),
{
    proof {
        reveal_strlit("Vec<");
    }
    if rust_to_scalar(ty).is_none() && starts_with(ty, "Vec<") {
        assert(ty@.take(4) =~= ty@.subrange(0, 4));
        let chars = chars_of(ty);
        let n = chars.len();
        if n > 4 && (chars[n - 1] as u32) < 0x80 {
            are_lists_closed(ty.substring_char(4, n - 1))
        } else {
            false
        }
    } else {
        proof {
            if ty@.len() >= 4 {
                assert(ty@.take(4) =~= ty@.subrange(0, 4));
            }
        }
        true
    }
}

/// The protobuf type that a type stands for. A type that is neither a
/// scalar nor a list stands for the message of its name, of which no more
/// than the name is known here.
pub fn rust_str_to_proto_type(ty: &str) -> (r: ProtobufType)
    requires
        lists_closed(ty@),
    ensures
        stands_for(ty@, r),
    decreases ty@.len(),
{
    proof {
        reveal_strlit("Vec<");
    }
    match rust_to_scalar(ty) {
        Some(scalar) => scalar,
        None => {
            if starts_with(ty, "Vec<") {
                assert(ty@.take(4) =~= ty@.subrange(0, 4));
                let item = rust_str_to_proto_type(ty.substring_char(4, ty.unicode_len() - 1));
                ProtobufType::Repeated(Box::new(item))
            } else {
                proof {
                    if ty@.len() >= 4 {
                        assert(ty@.take(4) =~= ty@.subrange(0, 4));
                    }
                }
                ProtobufType::Custom(
                    ProtobufSchema {
                        name: String::from_str(ty),
                        fields: Vec::new(),
                        generated_code: None,
                    },
                )
            }
        },
    }
}

/// The protobuf type that the type of a field stands for, `Option<..>`
/// around it or not.
pub fn rust_to_proto_type(ty: &str) -> (r: ProtobufType)
    requires
        closed(ty@, "Option<"@),
        lists_closed(inside(ty@, "Option<"@)),
    ensures
        stands_for(inside(ty@, "Option<"@), r),
{
    rust_str_to_proto_type(option_inside(ty))
}

} // verus!
