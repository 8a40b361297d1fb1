//! How the type of a field is written: `Option` and `Vec` around it, and
//! the types that are converted in a way of their own.

use crate::text::{chars_of, starts_with, str_eq};
use vstd::prelude::*;
use vstd::string::StrSliceExecFns;

verus! {

/// The way `Option` is written at the start of `ty`: the first of
/// `std::option::Option<`, `option::Option<` and `Option<` that `ty` begins
/// with.
pub open spec fn option_prefix(ty: Seq<char>) -> Option<Seq<char>> {
    if "std::option::Option<"@.is_prefix_of(ty) {
        Some("std::option::Option<"@)
    } else if "option::Option<"@.is_prefix_of(ty) {
        Some("option::Option<"@)
    } else if "Option<"@.is_prefix_of(ty) {
        Some("Option<"@)
    } else {
        None
    }
}

/// Whether `ty` begins with one of the ways in which `Vec` is written:
/// `std::vec::Vec<`, `vec::Vec<` or `Vec<`.
pub open spec fn has_vec_prefix(ty: Seq<char>) -> bool {
    "std::vec::Vec<"@.is_prefix_of(ty) || "vec::Vec<"@.is_prefix_of(ty) || "Vec<"@.is_prefix_of(ty)
}

/// Whether the `Option` around `ty` can be taken off: something follows
/// the opening, and the last character is one byte wide, as a closing
/// bracket is.
pub open spec fn can_strip(ty: Seq<char>) -> bool {
    match option_prefix(ty) {
        Some(prefix) => ty.len() > prefix.len() && (ty.last() as u32) < 0x80,
        None => true,
    }
}

/// `ty` without the `Option` around it: what stands between the opening
/// and the last character. A type that is no `Option` stays as it is.
pub open spec fn stripped(ty: Seq<char>) -> Seq<char> {
    match option_prefix(ty) {
        Some(prefix) => ty.subrange(prefix.len() as int, ty.len() - 1),
        None => ty,
    }
}

/// Whether `ty` is one of the ways in which a point in time with an offset
/// is written.
pub open spec fn is_date_time(ty: Seq<char>) -> bool {
    ty == "chrono::DateTime<chrono::FixedOffset>"@ || ty == "chrono::DateTime<FixedOffset>"@ || ty
        == "DateTime<chrono::FixedOffset>"@ || ty == "DateTime<FixedOffset>"@
}

/// Whether `ty` is one of the ways in which a point in time without an
/// offset is written.
pub open spec fn is_naive_date_time(ty: Seq<char>) -> bool {
    ty == "chrono::NaiveDateTime"@ || ty == "NaiveDateTime"@
}

/// Whether `ty` is one of the ways in which a point in time is written.
pub open spec fn is_timestamp(ty: Seq<char>) -> bool {
    is_naive_date_time(ty) || is_date_time(ty)
}

/// Whether `ty` is one of the ways in which a UUID is written.
pub open spec fn is_uuid(ty: Seq<char>) -> bool {
    ty == "uuid::Uuid"@ || ty == "Uuid"@
}

/// Whether the type is written as a UUID.
pub fn is_ty_uuid(ty: &str) -> (r: bool)
    ensures
        r == is_uuid(ty@),
{
    str_eq(ty, "uuid::Uuid") || str_eq(ty, "Uuid")
}

/// Whether the type is written as a point in time with an offset.
pub fn is_ty_date_time(ty: &str) -> (r: bool)
    ensures
        r == is_date_time(ty@),
{
    str_eq(ty, "chrono::DateTime<chrono::FixedOffset>") || str_eq(
        ty,
        "chrono::DateTime<FixedOffset>",
    ) || str_eq(ty, "DateTime<chrono::FixedOffset>") || str_eq(ty, "DateTime<FixedOffset>")
}

/// Whether the type is written as a point in time without an offset.
pub fn is_ty_naive_date_time(ty: &str) -> (r: bool)
    ensures
        r == is_naive_date_time(ty@),
{
    str_eq(ty, "chrono::NaiveDateTime") || str_eq(ty, "NaiveDateTime")
}

/// How a field goes from the declared type to the generated one and back.
#[derive(Clone, Copy, Debug, PartialEq, Eq, Structural)]
pub enum FieldConversion {
    /// A point in time, which a protobuf message holds as a timestamp.
    Timestamp,
    /// A UUID, which a protobuf message holds as its text.
    Uuid,
    /// A list, converted item by item.
    Collect,
    /// Anything else, converted as a whole.
    Into,
}

/// The conversion of a field in a protobuf message, by its type without
/// the `Option` around it: a point in time, a UUID, a list by its `Vec`,
/// and else a plain value.
pub open spec fn message_conversion(ty: Seq<char>) -> FieldConversion {
    let inner = stripped(ty);
    if is_timestamp(inner) {
        FieldConversion::Timestamp
    } else if is_uuid(inner) {
        FieldConversion::Uuid
    } else if has_vec_prefix(inner) {
        FieldConversion::Collect
    } else {
        FieldConversion::Into
    }
}

/// The conversion of a field in a database model, by its type without the
/// `Option` around it: a list by its `Vec`, and else a plain value.
pub open spec fn model_conversion(ty: Seq<char>) -> FieldConversion {
    if has_vec_prefix(stripped(ty)) {
        FieldConversion::Collect
    } else {
        FieldConversion::Into
    }
}

/// Whether [`strip_ty_option`] takes this type.
pub fn can_strip_ty_option(ty: &str) -> (r: bool)
    ensures
        r == can_strip(ty@),
{
    proof {
        reveal_strlit("std::option::Option<");
        reveal_strlit("option::Option<");
        reveal_strlit("Option<");
    }
    let opening: usize = if starts_with(ty, "std::option::Option<") {
        20
    } else if starts_with(ty, "option::Option<") {
        15
    } else if starts_with(ty, "Option<") {
        7
    } else {
        return true;
    };
    let chars = chars_of(ty);
    let n = chars.len();
    n > opening && (chars[n - 1] as u32) < 0x80
}

/// The type inside `Option<..>`, or the type itself where it is no `Option`.
pub fn strip_ty_option(ty: &str) -> (inner: &str)
    requires
        can_strip(ty@),
    ensures
        inner@ == stripped(ty@),
{
    proof {
        reveal_strlit("std::option::Option<");
        reveal_strlit("option::Option<");
        reveal_strlit("Option<");
    }
    if starts_with(ty, "std::option::Option<") {
        ty.substring_char(20, ty.unicode_len() - 1)
    } else if starts_with(ty, "option::Option<") {
        ty.substring_char(15, ty.unicode_len() - 1)
    } else if starts_with(ty, "Option<") {
        ty.substring_char(7, ty.unicode_len() - 1)
    } else {
        ty
    }
}

/// Whether the type is written as an `Option`.
pub fn is_ty_option(ty: &str) -> (r: bool)
    ensures
        r == option_prefix(ty@) is Some,
{
    starts_with(ty, "std::option::Option<") || starts_with(ty, "option::Option<") || starts_with(
        ty,
        "Option<",
    )
}

/// Whether the type is written as a `Vec`.
pub fn is_ty_vec(ty: &str) -> (r: bool)
    ensures
        r == has_vec_prefix(ty@),
{
    starts_with(ty, "std::vec::Vec<") || starts_with(ty, "vec::Vec<") || starts_with(ty, "Vec<")
}

/// The conversion of a field of that type in a protobuf message.
pub fn conversion_in_message(ty: &str) -> (r: FieldConversion)
    requires
        can_strip(ty@),
    ensures
        r == message_conversion(ty@),
{
    let inner = strip_ty_option(ty);
    if is_ty_naive_date_time(inner) || is_ty_date_time(inner) {
        FieldConversion::Timestamp
    } else if is_ty_uuid(inner) {
        FieldConversion::Uuid
    } else if is_ty_vec(inner) {
        FieldConversion::Collect
    } else {
        FieldConversion::Into
    }
}

/// The conversion of a field of that type in a database model.
pub fn conversion_in_model(ty: &str) -> (r: FieldConversion)
    requires
        can_strip(ty@),
    ensures
        r == model_conversion(ty@),
{
    if is_ty_vec(strip_ty_option(ty)) {
        FieldConversion::Collect
    } else {
        FieldConversion::Into
    }
}

} // verus!
