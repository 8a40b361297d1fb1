//! The model of a protobuf message and of a service.

use crate::text::{starts_with, str_eq};
use vstd::prelude::*;
use vstd::std_specs::cmp::PartialEqSpecImpl;
use vstd::string::StrSliceExecFns;

verus! {

/// The type of a field of a message.
#[derive(Debug)]
pub enum ProtobufType {
    Double,
    Float,
    Int32,
    Int64,
    Uint32,
    Uint64,
    Sint32,
    Sint64,
    Fixed32,
    Fixed64,
    Sfixed32,
    Sfixed64,
    Bool,
    String,
    Bytes,
    Repeated(Box<ProtobufType>),
    Timestamp,
    Custom(ProtobufSchema),
}

/// The error of reading a type name that is not in the vocabulary.
#[derive(Clone, Copy, Debug, PartialEq, Eq, Structural)]
pub struct ProtobufTypeFromStrError;

/// A field of a message.
#[derive(Debug)]
pub struct ProtobufField {
    pub name: String,
    pub ty: ProtobufType,
    pub required: bool,
}

/// A message: its name and its fields, in order.
#[derive(Debug)]
pub struct ProtobufSchema {
    pub name: String,
    pub fields: Vec<ProtobufField>,
    pub generated_code: Option<String>,
}

/// A method of a service: its name, the message it takes and the message
/// it returns, and how the function behind it is called.
#[derive(Clone, Debug)]
pub struct ProtobufMethod {
    pub is_async: bool,
    pub name: String,
    pub param: ProtobufSchema,
    pub returns: ProtobufSchema,
    pub returns_result: bool,
}

/// A service: its name, the module that holds it, and its methods, in
/// order.
#[derive(Clone, Debug)]
pub struct ProtobufService {
    pub methods: Vec<ProtobufMethod>,
    pub module: String,
    pub name: String,
}

/// A type of the application that describes a message.
pub trait IntoProtobufSchema {
    fn protobuf_schema() -> ProtobufSchema;
}

/// A type of the application that describes a service.
pub trait IntoProtobufService {
    fn protobuf_service() -> ProtobufService;
}

/// The scalar type that a type name denotes, if any. Names are matched
/// exactly; the string type is read from `String`.
pub open spec fn parse_scalar(s: Seq<char>) -> Option<ProtobufType> {
    if s == "double"@ {
        Some(ProtobufType::Double)
    } else if s == "float"@ {
        Some(ProtobufType::Float)
    } else if s == "int32"@ {
        Some(ProtobufType::Int32)
    } else if s == "int64"@ {
        Some(ProtobufType::Int64)
    } else if s == "uint32"@ {
        Some(ProtobufType::Uint32)
    } else if s == "uint64"@ {
        Some(ProtobufType::Uint64)
    } else if s == "sint32"@ {
        Some(ProtobufType::Sint32)
    } else if s == "sint64"@ {
        Some(ProtobufType::Sint64)
    } else if s == "fixed32"@ {
        Some(ProtobufType::Fixed32)
    } else if s == "fixed64"@ {
        Some(ProtobufType::Fixed64)
    } else if s == "sfixed32"@ {
        Some(ProtobufType::Sfixed32)
    } else if s == "sfixed64"@ {
        Some(ProtobufType::Sfixed64)
    } else if s == "bool"@ {
        Some(ProtobufType::Bool)
    } else if s == "String"@ {
        Some(ProtobufType::String)
    } else if s == "bytes"@ {
        Some(ProtobufType::Bytes)
    } else if s == "google.protobuf.Timestamp"@ {
        Some(ProtobufType::Timestamp)
    } else {
        None
    }
}

/// The type that a type name denotes, if any: `repeated ` in front of a
/// type name denotes a list of that type.
pub open spec fn parse_protobuf_type(s: Seq<char>) -> Option<ProtobufType>
    decreases s.len(),
{
    if s.len() >= 9 && s.take(9) == "repeated "@ {
        match parse_protobuf_type(s.skip(9)) {
            Some(inner) => Some(ProtobufType::Repeated(Box::new(inner))),
            None => None,
        }
    } else {
        parse_scalar(s)
    }
}

impl ProtobufType {
    /// The name of the type in a protobuf file. A message goes by its name.
    pub open spec fn name(self) -> Seq<char>
        decreases self,
    {
        match self {
            ProtobufType::Double => "double"@,
            ProtobufType::Float => "float"@,
            ProtobufType::Int32 => "int32"@,
            ProtobufType::Int64 => "int64"@,
            ProtobufType::Uint32 => "uint32"@,
            ProtobufType::Uint64 => "uint64"@,
            ProtobufType::Sint32 => "sint32"@,
            ProtobufType::Sint64 => "sint64"@,
            ProtobufType::Fixed32 => "fixed32"@,
            ProtobufType::Fixed64 => "fixed64"@,
            ProtobufType::Sfixed32 => "sfixed32"@,
            ProtobufType::Sfixed64 => "sfixed64"@,
            ProtobufType::Bool => "bool"@,
            ProtobufType::String => "string"@,
            ProtobufType::Bytes => "bytes"@,
            ProtobufType::Repeated(inner) => "repeated "@ + inner.name(),
            ProtobufType::Timestamp => "google.protobuf.Timestamp"@,
            ProtobufType::Custom(inner) => inner.name@,
        }
    }

    /// Reads a type name.
    pub fn from_str(s: &str) -> (r: Result<ProtobufType, ProtobufTypeFromStrError>)
        ensures
            match parse_protobuf_type(s@) {
                Some(ty) => r == Ok::<ProtobufType, ProtobufTypeFromStrError>(ty),
                None => r is Err,
            },
        decreases s@.len(),
    {
        proof {
            reveal_strlit("repeated ");
        }
        if starts_with(s, "repeated ") {
            let inner = s.substring_char(9, s.unicode_len());
            assert(inner@ =~= s@.skip(9));
            assert(s@.take(9) =~= s@.subrange(0, 9));
            return match ProtobufType::from_str(inner) {
                Ok(ty) => Ok(ProtobufType::Repeated(Box::new(ty))),
                Err(e) => Err(e),
            };
        }
        let protobuf_type = if str_eq(s, "double") {
            ProtobufType::Double
        } else if str_eq(s, "float") {
            ProtobufType::Float
        } else if str_eq(s, "int32") {
            ProtobufType::Int32
        } else if str_eq(s, "int64") {
            ProtobufType::Int64
        } else if str_eq(s, "uint32") {
            ProtobufType::Uint32
        } else if str_eq(s, "uint64") {
            ProtobufType::Uint64
        } else if str_eq(s, "sint32") {
            ProtobufType::Sint32
        } else if str_eq(s, "sint64") {
            ProtobufType::Sint64
        } else if str_eq(s, "fixed32") {
            ProtobufType::Fixed32
        } else if str_eq(s, "fixed64") {
            ProtobufType::Fixed64
        } else if str_eq(s, "sfixed32") {
            ProtobufType::Sfixed32
        } else if str_eq(s, "sfixed64") {
            ProtobufType::Sfixed64
        } else if str_eq(s, "bool") {
            ProtobufType::Bool
        } else if str_eq(s, "String") {
            ProtobufType::String
        } else if str_eq(s, "bytes") {
            ProtobufType::Bytes
        } else if str_eq(s, "google.protobuf.Timestamp") {
            ProtobufType::Timestamp
        } else {
            return Err(ProtobufTypeFromStrError);
        };
        Ok(protobuf_type)
    }

    /// Appends the name of the type.
    pub fn write(&self, out: &mut String)
        ensures
            final(out)@ == old(out)@ + self.name(),
        decreases self,
    {
        match self {
            ProtobufType::Double => out.append("double"),
            ProtobufType::Float => out.append("float"),
            ProtobufType::Int32 => out.append("int32"),
            ProtobufType::Int64 => out.append("int64"),
            ProtobufType::Uint32 => out.append("uint32"),
            ProtobufType::Uint64 => out.append("uint64"),
            ProtobufType::Sint32 => out.append("sint32"),
            ProtobufType::Sint64 => out.append("sint64"),
            ProtobufType::Fixed32 => out.append("fixed32"),
            ProtobufType::Fixed64 => out.append("fixed64"),
            ProtobufType::Sfixed32 => out.append("sfixed32"),
            ProtobufType::Sfixed64 => out.append("sfixed64"),
            ProtobufType::Bool => out.append("bool"),
            ProtobufType::String => out.append("string"),
            ProtobufType::Bytes => out.append("bytes"),
            ProtobufType::Repeated(inner) => {
                out.append("repeated ");
                inner.write(out);
                assert(out@ =~= old(out)@ + self.name());
            },
            ProtobufType::Timestamp => out.append("google.protobuf.Timestamp"),
            ProtobufType::Custom(inner) => out.append(inner.name.as_str()),
        }
    }

    /// The name of the type in a protobuf file.
    pub fn to_string(&self) -> (s: String)
        ensures
            s@ == self.name(),
    {
        let mut s = String::new();
        self.write(&mut s);
        assert(s@ =~= self.name());
        s
    }
}

impl std::str::FromStr for ProtobufType {
    type Err = ProtobufTypeFromStrError;

    fn from_str(s: &str) -> (r: Result<Self, Self::Err>)
        ensures
            match parse_protobuf_type(s@) {
                Some(ty) => r == Ok::<ProtobufType, ProtobufTypeFromStrError>(ty),
                None => r is Err,
            },
    {
        ProtobufType::from_str(s)
    }
}

impl PartialEq for ProtobufField {
    fn eq(&self, other: &Self) -> (r: bool) {
        self.name == other.name && self.ty.to_string() == other.ty.to_string() && self.required
            == other.required
    }
}

impl PartialEqSpecImpl for ProtobufField {
    open spec fn obeys_eq_spec() -> bool {
        true
    }

    /// Fields are equal where their names, the names of their types and
    /// their `required` marks are.
    open spec fn eq_spec(&self, other: &Self) -> bool {
        self.name@ == other.name@ && self.ty.name() == other.ty.name() && self.required
            == other.required
    }
}

/// A copy of a type.
fn clone_type(ty: &ProtobufType) -> (copy: ProtobufType)
    ensures
        copy.name() == ty.name(),
    decreases ty,
{
    match ty {
        ProtobufType::Double => ProtobufType::Double,
        ProtobufType::Float => ProtobufType::Float,
        ProtobufType::Int32 => ProtobufType::Int32,
        ProtobufType::Int64 => ProtobufType::Int64,
        ProtobufType::Uint32 => ProtobufType::Uint32,
        ProtobufType::Uint64 => ProtobufType::Uint64,
        ProtobufType::Sint32 => ProtobufType::Sint32,
        ProtobufType::Sint64 => ProtobufType::Sint64,
        ProtobufType::Fixed32 => ProtobufType::Fixed32,
        ProtobufType::Fixed64 => ProtobufType::Fixed64,
        ProtobufType::Sfixed32 => ProtobufType::Sfixed32,
        ProtobufType::Sfixed64 => ProtobufType::Sfixed64,
        ProtobufType::Bool => ProtobufType::Bool,
        ProtobufType::String => ProtobufType::String,
        ProtobufType::Bytes => ProtobufType::Bytes,
        ProtobufType::Repeated(inner) => ProtobufType::Repeated(Box::new(clone_type(inner))),
        ProtobufType::Timestamp => ProtobufType::Timestamp,
        ProtobufType::Custom(inner) => ProtobufType::Custom(clone_schema(inner)),
    }
}

/// A copy of a field.
fn clone_field(field: &ProtobufField) -> (copy: ProtobufField)
    ensures
        copy.name@ == field.name@,
        copy.ty.name() == field.ty.name(),
        copy.required == field.required,
    decreases field,
{
    ProtobufField {
        name: field.name.clone(),
        ty: clone_type(&field.ty),
        required: field.required,
    }
}

/// A copy of a message.
fn clone_schema(schema: &ProtobufSchema) -> (copy: ProtobufSchema)
    ensures
        copy.name@ == schema.name@,
        copy.fields@.len() == schema.fields@.len(),
        forall|i: int|
            0 <= i < copy.fields@.len() ==> {
                &&& (#[trigger] copy.fields@[i]).name@ == schema.fields@[i].name@
                &&& copy.fields@[i].ty.name() == schema.fields@[i].ty.name()
                &&& copy.fields@[i].required == schema.fields@[i].required
            },
    decreases schema,
{
    let mut fields: Vec<ProtobufField> = Vec::new();
    let n = schema.fields.len();
    let mut i: usize = 0;
    while i < n
        invariant
            i <= n,
            n == schema.fields.len(),
            fields@.len() == i,
            forall|k: int|
                0 <= k < i ==> {
                    &&& (#[trigger] fields@[k]).name@ == schema.fields@[k].name@
                    &&& fields@[k].ty.name() == schema.fields@[k].ty.name()
                    &&& fields@[k].required == schema.fields@[k].required
                },
        decreases n - i,
    {
        fields.push(clone_field(&schema.fields[i]));
        i = i + 1;
    }
    ProtobufSchema {
        name: schema.name.clone(),
        fields,
        generated_code: schema.generated_code.clone(),
    }
}

impl Clone for ProtobufType {
    /// The copy has the name of the type.
    fn clone(&self) -> (copy: Self)
        ensures
            copy.name() == self.name(),
    {
        clone_type(self)
    }
}

impl Clone for ProtobufField {
    /// The copy is equal to the field.
    fn clone(&self) -> (copy: Self)
        ensures
            copy.name@ == self.name@,
            copy.ty.name() == self.ty.name(),
            copy.required == self.required,
    {
        clone_field(self)
    }
}

impl Clone for ProtobufSchema {
    /// The copy has the name of the message, and its fields are equal to
    /// the fields of the message, one by one.
    fn clone(&self) -> (copy: Self)
        ensures
            copy.name@ == self.name@,
            copy.fields@.len() == self.fields@.len(),
            forall|i: int|
                0 <= i < copy.fields@.len() ==> {
                    &&& (#[trigger] copy.fields@[i]).name@ == self.fields@[i].name@
                    &&& copy.fields@[i].ty.name() == self.fields@[i].ty.name()
                    &&& copy.fields@[i].required == self.fields@[i].required
                },
    {
        clone_schema(self)
    }
}

} // verus!
