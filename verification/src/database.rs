//! The model of a database table: column types, default values, columns.

use crate::text::{bool_text, decimal, push_bool, push_i64, push_u64, signed_decimal, str_eq};
use crate::unicode::lowercase;
use vstd::prelude::*;
use vstd::std_specs::cmp::PartialEqSpecImpl;

verus! {

/// The type of a column. `Text` carries an optional maximum length and
/// `Numeric` an optional precision and scale; both take part in equality.
#[derive(Clone, Copy, Debug, Eq, PartialOrd, Ord)]
pub enum DatabaseType {
    SmallInt,
    Integer,
    BigInt,
    Numeric(Option<(u16, u16)>),
    Float,
    Double,
    Money,
    Text(Option<i32>),
    Binary,
    Timestamp,
    Timestamptz,
    Date,
    Time,
    Timetz,
    Bool,
    Uuid,
}

impl PartialEq for DatabaseType {
    fn eq(&self, other: &Self) -> (r: bool) {
        match (self, other) {
            (DatabaseType::SmallInt, DatabaseType::SmallInt) => true,
            (DatabaseType::Integer, DatabaseType::Integer) => true,
            (DatabaseType::BigInt, DatabaseType::BigInt) => true,
            (DatabaseType::Numeric(None), DatabaseType::Numeric(None)) => true,
            (DatabaseType::Numeric(Some((p, s))), DatabaseType::Numeric(Some((q, t)))) => *p == *q
                && *s == *t,
            (DatabaseType::Float, DatabaseType::Float) => true,
            (DatabaseType::Double, DatabaseType::Double) => true,
            (DatabaseType::Money, DatabaseType::Money) => true,
            (DatabaseType::Text(None), DatabaseType::Text(None)) => true,
            (DatabaseType::Text(Some(m)), DatabaseType::Text(Some(n))) => *m == *n,
            (DatabaseType::Binary, DatabaseType::Binary) => true,
            (DatabaseType::Timestamp, DatabaseType::Timestamp) => true,
            (DatabaseType::Timestamptz, DatabaseType::Timestamptz) => true,
            (DatabaseType::Date, DatabaseType::Date) => true,
            (DatabaseType::Time, DatabaseType::Time) => true,
            (DatabaseType::Timetz, DatabaseType::Timetz) => true,
            (DatabaseType::Bool, DatabaseType::Bool) => true,
            (DatabaseType::Uuid, DatabaseType::Uuid) => true,
            _ => false,
        }
    }
}

impl PartialEqSpecImpl for DatabaseType {
    open spec fn obeys_eq_spec() -> bool {
        true
    }

    open spec fn eq_spec(&self, other: &Self) -> bool {
        *self == *other
    }
}

/// The error of reading a type name that is not in the vocabulary.
#[derive(Clone, Copy, Debug, PartialEq, Eq, Structural)]
pub struct DatabaseTypeFromStrError;

/// The type that a native type name denotes, if any. Names are matched
/// exactly, case included; no name carries a length or a precision.
pub open spec fn parse_type(s: Seq<char>) -> Option<DatabaseType> {
    if s == "smallint"@ || s == "int2"@ {
        Some(DatabaseType::SmallInt)
    } else if s == "integer"@ || s == "int"@ || s == "int4"@ {
        Some(DatabaseType::Integer)
    } else if s == "bigint"@ || s == "int8"@ {
        Some(DatabaseType::BigInt)
    } else if s == "numeric"@ || s == "decimal"@ {
        Some(DatabaseType::Numeric(None))
    } else if s == "real"@ || s == "float4"@ {
        Some(DatabaseType::Float)
    } else if s == "double precision"@ || s == "float8"@ {
        Some(DatabaseType::Double)
    } else if s == "money"@ {
        Some(DatabaseType::Money)
    } else if s == "character"@ || s == "char"@ || s == "character varying"@ || s == "charvar"@ {
        Some(DatabaseType::Text(None))
    } else if s == "bytea"@ {
        Some(DatabaseType::Binary)
    } else if s == "timestamp"@ {
        Some(DatabaseType::Timestamp)
    } else if s == "timestamp with time zone"@ || s == "timestamptz"@ {
        Some(DatabaseType::Timestamptz)
    } else if s == "date"@ {
        Some(DatabaseType::Date)
    } else if s == "time"@ {
        Some(DatabaseType::Time)
    } else if s == "time with time zone"@ || s == "timetz"@ {
        Some(DatabaseType::Timetz)
    } else if s == "boolean"@ || s == "bool"@ {
        Some(DatabaseType::Bool)
    } else if s == "uuid"@ {
        Some(DatabaseType::Uuid)
    } else {
        None
    }
}

impl DatabaseType {
    /// The canonical native spelling of the type. A length follows `Text`
    /// and a precision and scale follow `Numeric` only where they are set.
    pub open spec fn native_name(self) -> Seq<char> {
        match self {
            DatabaseType::SmallInt => "smallint"@,
            DatabaseType::Integer => "integer"@,
            DatabaseType::BigInt => "bigint"@,
            DatabaseType::Numeric(Some((p, s))) => "numeric("@ + decimal(p as nat) + ", "@
                + decimal(s as nat) + ")"@,
            DatabaseType::Numeric(None) => "numeric"@,
            DatabaseType::Float => "real"@,
            DatabaseType::Double => "double precision"@,
            DatabaseType::Money => "money"@,
            DatabaseType::Text(Some(max)) => "character varying("@ + signed_decimal(max as int)
                + ")"@,
            DatabaseType::Text(None) => "character varying"@,
            DatabaseType::Binary => "bytea"@,
            DatabaseType::Timestamp => "timestamp"@,
            DatabaseType::Timestamptz => "timestamp with time zone"@,
            DatabaseType::Date => "date"@,
            DatabaseType::Time => "time"@,
            DatabaseType::Timetz => "time with time zone"@,
            DatabaseType::Bool => "boolean"@,
            DatabaseType::Uuid => "uuid"@,
        }
    }

    /// Whether the type carries a length or a precision.
    pub open spec fn is_sized(self) -> bool {
        self matches DatabaseType::Numeric(Some(_)) || self matches DatabaseType::Text(Some(_))
    }

    /// Reads a native type name.
    pub fn from_str(s: &str) -> (r: Result<DatabaseType, DatabaseTypeFromStrError>)
        ensures
            match parse_type(s@) {
                Some(ty) => r == Ok::<DatabaseType, DatabaseTypeFromStrError>(ty),
                None => r is Err,
            },
    {
        let database_type = if str_eq(s, "smallint") || str_eq(s, "int2") {
            DatabaseType::SmallInt
        } else if str_eq(s, "integer") || str_eq(s, "int") || str_eq(s, "int4") {
            DatabaseType::Integer
        } else if str_eq(s, "bigint") || str_eq(s, "int8") {
            DatabaseType::BigInt
        } else if str_eq(s, "numeric") || str_eq(s, "decimal") {
            DatabaseType::Numeric(None)
        } else if str_eq(s, "real") || str_eq(s, "float4") {
            DatabaseType::Float
        } else if str_eq(s, "double precision") || str_eq(s, "float8") {
            DatabaseType::Double
        } else if str_eq(s, "money") {
            DatabaseType::Money
        } else if str_eq(s, "character") || str_eq(s, "char") || str_eq(s, "character varying")
            || str_eq(s, "charvar") {
            DatabaseType::Text(None)
        } else if str_eq(s, "bytea") {
            DatabaseType::Binary
        } else if str_eq(s, "timestamp") {
            DatabaseType::Timestamp
        } else if str_eq(s, "timestamp with time zone") || str_eq(s, "timestamptz") {
            DatabaseType::Timestamptz
        } else if str_eq(s, "date") {
            DatabaseType::Date
        } else if str_eq(s, "time") {
            DatabaseType::Time
        } else if str_eq(s, "time with time zone") || str_eq(s, "timetz") {
            DatabaseType::Timetz
        } else if str_eq(s, "boolean") || str_eq(s, "bool") {
            DatabaseType::Bool
        } else if str_eq(s, "uuid") {
            DatabaseType::Uuid
        } else {
            return Err(DatabaseTypeFromStrError);
        };
        Ok(database_type)
    }

    /// Appends the canonical native spelling of the type.
    pub fn write(&self, out: &mut String)
        ensures
            final(out)@ == old(out)@ + self.native_name(),
    {
        match self {
            DatabaseType::SmallInt => out.append("smallint"),
            DatabaseType::Integer => out.append("integer"),
            DatabaseType::BigInt => out.append("bigint"),
            DatabaseType::Numeric(Some((p, s))) => {
                out.append("numeric(");
                push_u64(out, *p as u64);
                out.append(", ");
                push_u64(out, *s as u64);
                out.append(")");
                assert(out@ =~= old(out)@ + self.native_name());
            },
            DatabaseType::Numeric(None) => out.append("numeric"),
            DatabaseType::Float => out.append("real"),
            DatabaseType::Double => out.append("double precision"),
            DatabaseType::Money => out.append("money"),
            DatabaseType::Text(Some(max)) => {
                out.append("character varying(");
                push_i64(out, *max as i64);
                out.append(")");
                assert(out@ =~= old(out)@ + self.native_name());
            },
            DatabaseType::Text(None) => out.append("character varying"),
            DatabaseType::Binary => out.append("bytea"),
            DatabaseType::Timestamp => out.append("timestamp"),
            DatabaseType::Timestamptz => out.append("timestamp with time zone"),
            DatabaseType::Date => out.append("date"),
            DatabaseType::Time => out.append("time"),
            DatabaseType::Timetz => out.append("time with time zone"),
            DatabaseType::Bool => out.append("boolean"),
            DatabaseType::Uuid => out.append("uuid"),
        }
    }

    /// The canonical native spelling of the type.
    pub fn to_string(&self) -> (s: String)
        ensures
            s@ == self.native_name(),
    {
        let mut s = String::new();
        self.write(&mut s);
        assert(s@ =~= self.native_name());
        s
    }
}

impl std::str::FromStr for DatabaseType {
    type Err = DatabaseTypeFromStrError;

    fn from_str(s: &str) -> (r: Result<Self, Self::Err>)
        ensures
            match parse_type(s@) {
                Some(ty) => r == Ok::<DatabaseType, DatabaseTypeFromStrError>(ty),
                None => r is Err,
            },
    {
        DatabaseType::from_str(s)
    }
}

/// The length and the first character of every native type name.
proof fn lemma_type_names()
    ensures
        "smallint"@.len() == 8 && "smallint"@[0] == 's',
        "int2"@.len() == 4 && "int2"@[0] == 'i',
        "integer"@.len() == 7 && "integer"@[0] == 'i',
        "int"@.len() == 3 && "int"@[0] == 'i',
        "int4"@.len() == 4 && "int4"@[0] == 'i',
        "bigint"@.len() == 6 && "bigint"@[0] == 'b',
        "int8"@.len() == 4 && "int8"@[0] == 'i',
        "numeric"@.len() == 7 && "numeric"@[0] == 'n',
        "decimal"@.len() == 7 && "decimal"@[0] == 'd',
        "real"@.len() == 4 && "real"@[0] == 'r',
        "float4"@.len() == 6 && "float4"@[0] == 'f',
        "double precision"@.len() == 16 && "double precision"@[0] == 'd',
        "float8"@.len() == 6 && "float8"@[0] == 'f',
        "money"@.len() == 5 && "money"@[0] == 'm',
        "character"@.len() == 9 && "character"@[0] == 'c',
        "char"@.len() == 4 && "char"@[0] == 'c',
        "character varying"@.len() == 17 && "character varying"@[0] == 'c',
        "charvar"@.len() == 7 && "charvar"@[0] == 'c',
        "bytea"@.len() == 5 && "bytea"@[0] == 'b',
        "timestamp"@.len() == 9 && "timestamp"@[0] == 't',
        "timestamp with time zone"@.len() == 24 && "timestamp with time zone"@[0] == 't',
        "timestamptz"@.len() == 11 && "timestamptz"@[0] == 't',
        "date"@.len() == 4 && "date"@[0] == 'd',
        "time"@.len() == 4 && "time"@[0] == 't',
        "time with time zone"@.len() == 19 && "time with time zone"@[0] == 't',
        "timetz"@.len() == 6 && "timetz"@[0] == 't',
        "boolean"@.len() == 7 && "boolean"@[0] == 'b',
        "bool"@.len() == 4 && "bool"@[0] == 'b',
        "uuid"@.len() == 4 && "uuid"@[0] == 'u',
{
    reveal_strlit("smallint");
    reveal_strlit("int2");
    reveal_strlit("integer");
    reveal_strlit("int");
    reveal_strlit("int4");
    reveal_strlit("bigint");
    reveal_strlit("int8");
    reveal_strlit("numeric");
    reveal_strlit("decimal");
    reveal_strlit("real");
    reveal_strlit("float4");
    reveal_strlit("double precision");
    reveal_strlit("float8");
    reveal_strlit("money");
    reveal_strlit("character");
    reveal_strlit("char");
    reveal_strlit("character varying");
    reveal_strlit("charvar");
    reveal_strlit("bytea");
    reveal_strlit("timestamp");
    reveal_strlit("timestamp with time zone");
    reveal_strlit("timestamptz");
    reveal_strlit("date");
    reveal_strlit("time");
    reveal_strlit("time with time zone");
    reveal_strlit("timetz");
    reveal_strlit("boolean");
    reveal_strlit("bool");
    reveal_strlit("uuid");
}

/// Reading the canonical spelling of a type gives the type back, for every
/// type without a length or a precision. (A spelling with a length or a
/// precision is no type name: the catalog reports those apart.)
pub proof fn native_name_reads_back(ty: DatabaseType)
    requires
        !ty.is_sized(),
    ensures
        parse_type(ty.native_name()) == Some(ty),
{
    lemma_type_names();
}

/// A default value of a column. `Float` holds a signed integer literal and
/// `Int` an unsigned one; `Raw` is an SQL expression, `String` a text literal.
#[derive(Clone, Debug, PartialOrd)]
pub enum DatabaseDefault {
    Bool(bool),
    Float(i64),
    Int(u64),
    Raw(String),
    String(String),
}

/// The value of a [`DatabaseDefault`].
pub enum DefaultValue {
    Bool(bool),
    Float(i64),
    Int(u64),
    Raw(Seq<char>),
    String(Seq<char>),
}

impl DefaultValue {
    /// Equality of default values: `Raw` expressions are equal where their
    /// lowercase forms are; every other kind is equal where the values are.
    pub open spec fn same(self, other: DefaultValue) -> bool {
        match (self, other) {
            (DefaultValue::Bool(a), DefaultValue::Bool(b)) => a == b,
            (DefaultValue::Float(a), DefaultValue::Float(b)) => a == b,
            (DefaultValue::Int(a), DefaultValue::Int(b)) => a == b,
            (DefaultValue::Raw(a), DefaultValue::Raw(b)) => lowercase(a) == lowercase(b),
            (DefaultValue::String(a), DefaultValue::String(b)) => a == b,
            _ => false,
        }
    }

    /// The text of the value in a column definition.
    pub open spec fn sql(self) -> Seq<char> {
        match self {
            DefaultValue::Bool(b) => bool_text(b),
            DefaultValue::Float(i) => signed_decimal(i as int),
            DefaultValue::Int(n) => decimal(n as nat),
            DefaultValue::Raw(s) => s,
            DefaultValue::String(s) => "\""@ + s + "\""@,
        }
    }
}

/// Equality of optional default values: both absent, or both present and
/// the same.
pub open spec fn same_default(a: Option<DefaultValue>, b: Option<DefaultValue>) -> bool {
    match (a, b) {
        (None, None) => true,
        (Some(x), Some(y)) => x.same(y),
        _ => false,
    }
}

impl View for DatabaseDefault {
    type V = DefaultValue;

    open spec fn view(&self) -> DefaultValue {
        match self {
            DatabaseDefault::Bool(b) => DefaultValue::Bool(*b),
            DatabaseDefault::Float(i) => DefaultValue::Float(*i),
            DatabaseDefault::Int(n) => DefaultValue::Int(*n),
            DatabaseDefault::Raw(s) => DefaultValue::Raw(s@),
            DatabaseDefault::String(s) => DefaultValue::String(s@),
        }
    }
}

impl PartialEq for DatabaseDefault {
    fn eq(&self, other: &Self) -> (r: bool) {
        match (self, other) {
            (DatabaseDefault::Bool(a), DatabaseDefault::Bool(b)) => *a == *b,
            (DatabaseDefault::Float(a), DatabaseDefault::Float(b)) => *a == *b,
            (DatabaseDefault::Int(a), DatabaseDefault::Int(b)) => *a == *b,
            (DatabaseDefault::Raw(a), DatabaseDefault::Raw(b)) => a.as_str().to_lowercase()
                == b.as_str().to_lowercase(),
            (DatabaseDefault::String(a), DatabaseDefault::String(b)) => *a == *b,
            _ => false,
        }
    }
}

impl PartialEqSpecImpl for DatabaseDefault {
    open spec fn obeys_eq_spec() -> bool {
        true
    }

    open spec fn eq_spec(&self, other: &Self) -> bool {
        self@.same(other@)
    }
}

impl DatabaseDefault {
    /// Appends the text of the value in a column definition.
    pub fn write(&self, out: &mut String)
        ensures
            final(out)@ == old(out)@ + self@.sql(),
    {
        match self {
            DatabaseDefault::Bool(val) => push_bool(out, *val),
            DatabaseDefault::Float(val) => push_i64(out, *val),
            DatabaseDefault::Int(val) => push_u64(out, *val),
            DatabaseDefault::Raw(val) => out.append(val.as_str()),
            DatabaseDefault::String(val) => {
                out.append("\"");
                out.append(val.as_str());
                out.append("\"");
                assert(out@ =~= old(out)@ + self@.sql());
            },
        }
    }

    /// The text of the value in a column definition.
    pub fn to_string(&self) -> (s: String)
        ensures
            s@ == self@.sql(),
    {
        let mut s = String::new();
        self.write(&mut s);
        assert(s@ =~= self@.sql());
        s
    }
}

/// Whether two optional default values are the same.
pub fn default_eq(a: &Option<DatabaseDefault>, b: &Option<DatabaseDefault>) -> (r: bool)
    ensures
        r == same_default(option_default_view(*a), option_default_view(*b)),
{
    match (a, b) {
        (None, None) => true,
        (Some(x), Some(y)) => x == y,
        _ => false,
    }
}

/// The value of an optional default.
pub open spec fn option_default_view(d: Option<DatabaseDefault>) -> Option<DefaultValue> {
    match d {
        Some(v) => Some(v@),
        None => None,
    }
}

/// The value of an optional text.
pub open spec fn option_text_view(s: Option<String>) -> Option<Seq<char>> {
    match s {
        Some(v) => Some(v@),
        None => None,
    }
}

/// The value of an optional pair of texts.
pub open spec fn option_pair_view(p: Option<(String, String)>) -> Option<(Seq<char>, Seq<char>)> {
    match p {
        Some((a, b)) => Some((a@, b@)),
        None => None,
    }
}

/// A column of a table.
#[derive(Clone, Debug, PartialOrd)]
pub struct DatabaseColumn {
    pub name: String,
    pub ty: DatabaseType,
    pub nullable: bool,
    pub default: Option<DatabaseDefault>,
    pub unique: bool,
    pub constraint: Option<String>,
    pub primary_key: bool,
    pub references: Option<(String, String)>,
}

/// The value of a [`DatabaseColumn`]. `references` names a table and a
/// column of it.
pub struct Column {
    pub name: Seq<char>,
    pub ty: DatabaseType,
    pub nullable: bool,
    pub default: Option<DefaultValue>,
    pub unique: bool,
    pub constraint: Option<Seq<char>>,
    pub primary_key: bool,
    pub references: Option<(Seq<char>, Seq<char>)>,
}

impl Column {
    /// Equality of columns: every attribute equal, defaults as
    /// [`same_default`] has it.
    pub open spec fn same(self, other: Column) -> bool {
        &&& self.name == other.name
        &&& self.ty == other.ty
        &&& self.nullable == other.nullable
        &&& same_default(self.default, other.default)
        &&& self.unique == other.unique
        &&& self.constraint == other.constraint
        &&& self.primary_key == other.primary_key
        &&& self.references == other.references
    }
}

impl View for DatabaseColumn {
    type V = Column;

    open spec fn view(&self) -> Column {
        Column {
            name: self.name@,
            ty: self.ty,
            nullable: self.nullable,
            default: option_default_view(self.default),
            unique: self.unique,
            constraint: option_text_view(self.constraint),
            primary_key: self.primary_key,
            references: option_pair_view(self.references),
        }
    }
}

/// Whether two optional texts are equal.
pub fn option_text_eq(a: &Option<String>, b: &Option<String>) -> (r: bool)
    ensures
        r == (option_text_view(*a) == option_text_view(*b)),
{
    match (a, b) {
        (None, None) => true,
        (Some(x), Some(y)) => *x == *y,
        _ => false,
    }
}

/// Whether two optional references name the same table and column.
pub fn references_eq(a: &Option<(String, String)>, b: &Option<(String, String)>) -> (r: bool)
    ensures
        r == (option_pair_view(*a) == option_pair_view(*b)),
{
    match (a, b) {
        (None, None) => true,
        (Some((t, c)), Some((u, d))) => *t == *u && *c == *d,
        _ => false,
    }
}

impl PartialEq for DatabaseColumn {
    fn eq(&self, other: &Self) -> (r: bool) {
        self.name == other.name && self.ty == other.ty && self.nullable == other.nullable
            && default_eq(&self.default, &other.default) && self.unique == other.unique
            && option_text_eq(&self.constraint, &other.constraint) && self.primary_key
            == other.primary_key && references_eq(&self.references, &other.references)
    }
}

impl PartialEqSpecImpl for DatabaseColumn {
    open spec fn obeys_eq_spec() -> bool {
        true
    }

    open spec fn eq_spec(&self, other: &Self) -> bool {
        self@.same(other@)
    }
}

/// The values of a list of columns, in order.
pub open spec fn column_views(columns: Seq<DatabaseColumn>) -> Seq<Column> {
    columns.map_values(|c: DatabaseColumn| c@)
}

/// The values of a list with one more column are those of the list and
/// that of the column.
pub proof fn lemma_column_views_push(columns: Seq<DatabaseColumn>, column: DatabaseColumn)
    ensures
        column_views(columns.push(column)) == column_views(columns).push(column@),
{
    assert(column_views(columns.push(column)) =~= column_views(columns).push(column@));
}

/// A table as the application declares it: its name and its columns, in
/// the order in which a new table gets them.
#[derive(Clone, Debug)]
pub struct DatabaseSchema {
    pub table_name: String,
    pub columns: Vec<DatabaseColumn>,
    pub generated_code: Option<String>,
}

/// The value of a [`DatabaseSchema`].
pub struct Table {
    pub name: Seq<char>,
    pub columns: Seq<Column>,
    pub generated_code: Option<Seq<char>>,
}

impl View for DatabaseSchema {
    type V = Table;

    open spec fn view(&self) -> Table {
        Table {
            name: self.table_name@,
            columns: column_views(self.columns@),
            generated_code: option_text_view(self.generated_code),
        }
    }
}

/// A type of the application that describes a table.
pub trait IntoDatabaseSchema {
    fn database_schema() -> DatabaseSchema;
}

} // verus!
