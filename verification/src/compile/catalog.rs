//! Reading the catalog of a live database: from the rows of the catalog
//! query to the columns of the model.

use crate::compile::error::ErrorValue;
use crate::database::{
    option_text_view, parse_type, Column, DatabaseColumn, DatabaseDefault, DatabaseType,
    DefaultValue,
};
use crate::text::{
    before_first, chars_of, find_char, parse_i64, parse_u64, signed_literal, str_eq,
    unsigned_literal,
};
use vstd::prelude::*;
use vstd::string::{StrSliceExecFns, StringExecFns};

verus! {

/// One row of the catalog query: a column of a live table, as the database
/// reports it.
#[derive(Clone, Debug)]
pub struct ColumnsQuery {
    pub column_name: String,
    pub column_default: Option<String>,
    pub is_nullable: String,
    pub data_type: String,
    pub character_maximum_length: Option<i32>,
    pub is_primary_key: bool,
    pub is_unique: bool,
    pub reference: Option<String>,
}

/// The value of a [`ColumnsQuery`].
pub struct CatalogRow {
    pub column_name: Seq<char>,
    pub column_default: Option<Seq<char>>,
    pub is_nullable: Seq<char>,
    pub data_type: Seq<char>,
    pub character_maximum_length: Option<i32>,
    pub is_primary_key: bool,
    pub is_unique: bool,
    pub reference: Option<Seq<char>>,
}

impl View for ColumnsQuery {
    type V = CatalogRow;

    open spec fn view(&self) -> CatalogRow {
        CatalogRow {
            column_name: self.column_name@,
            column_default: option_text_view(self.column_default),
            is_nullable: self.is_nullable@,
            data_type: self.data_type@,
            character_maximum_length: self.character_maximum_length,
            is_primary_key: self.is_primary_key,
            is_unique: self.is_unique,
            reference: option_text_view(self.reference),
        }
    }
}

/// The values of a list of rows, in order.
pub open spec fn row_views(rows: Seq<ColumnsQuery>) -> Seq<CatalogRow> {
    rows.map_values(|r: ColumnsQuery| r@)
}

/// The type of a live column: what its native type name denotes, with the
/// reported maximum length where the name denotes text without a length.
pub open spec fn live_type(data_type: Seq<char>, max_len: Option<i32>) -> Option<DatabaseType> {
    match parse_type(data_type) {
        Some(DatabaseType::Text(None)) => if max_len is Some {
            Some(DatabaseType::Text(max_len))
        } else {
            Some(DatabaseType::Text(None))
        },
        other => other,
    }
}

/// The default of a live column, from the expression that the catalog
/// stores. An expression that begins with a quote is a text, whose value
/// runs up to the next quote; `true` and `false` are booleans; an unsigned
/// integer literal is `Int`; any other signed integer literal is `Float`;
/// everything else is `Raw`.
pub open spec fn live_default(expression: Seq<char>) -> DefaultValue {
    if expression.len() > 0 && expression[0] == '\'' {
        DefaultValue::String(before_first(expression.skip(1), '\''))
    } else if expression == "true"@ {
        DefaultValue::Bool(true)
    } else if expression == "false"@ {
        DefaultValue::Bool(false)
    } else if let Some(n) = unsigned_literal(expression) {
        DefaultValue::Int(n)
    } else if let Some(i) = signed_literal(expression) {
        DefaultValue::Float(i)
    } else {
        DefaultValue::Raw(expression)
    }
}

/// The foreign key of a live column, from `<table>:<column>`: the table is
/// what stands before the first colon, the column all that follows it.
/// Without a colon there is no foreign key.
pub open spec fn live_reference(reference: Option<Seq<char>>) -> Option<(Seq<char>, Seq<char>)> {
    match reference {
        Some(r) => match r.index_of_first(':') {
            Some(i) => Some((r.take(i), r.skip(i + 1))),
            None => None,
        },
        None => None,
    }
}

impl CatalogRow {
    /// Whether the type of the column is in the vocabulary of the model.
    pub open spec fn supported(self) -> bool {
        live_type(self.data_type, self.character_maximum_length) is Some
    }

    /// The column that the row describes, for a row whose type is supported.
    /// No check constraint is read from the catalog.
    pub open spec fn column(self) -> Column {
        Column {
            name: self.column_name,
            ty: live_type(self.data_type, self.character_maximum_length).unwrap(),
            nullable: self.is_nullable == "YES"@,
            default: match self.column_default {
                Some(expression) => Some(live_default(expression)),
                None => None,
            },
            unique: self.is_unique,
            constraint: None,
            primary_key: self.is_primary_key,
            references: live_reference(self.reference),
        }
    }
}

/// The position of the first row whose type is not supported.
pub open spec fn first_unsupported(rows: Seq<CatalogRow>) -> Option<int> {
    rows.map_values(|r: CatalogRow| r.supported()).index_of_first(false)
}

/// The columns that the rows describe, in order.
pub open spec fn live_columns(rows: Seq<CatalogRow>) -> Seq<Column> {
    rows.map_values(|r: CatalogRow| r.column())
}

/// What the catalog says of a table: `Ok(None)` where it has no rows, so
/// the table is absent; the first column with an unsupported type where
/// there is one; else the live columns.
pub open spec fn live_table(table: Seq<char>, rows: Seq<CatalogRow>) -> Result<
    Option<Seq<Column>>,
    ErrorValue,
> {
    if rows.len() == 0 {
        Ok(None)
    } else {
        match first_unsupported(rows) {
            Some(k) => Err(ErrorValue::UnsupportedType(table, rows[k].column_name)),
            None => Ok(Some(live_columns(rows))),
        }
    }
}

/// The columns of one more row are those of the rows before it and its own.
pub proof fn lemma_live_columns_take(rows: Seq<CatalogRow>, i: int)
    requires
        0 <= i < rows.len(),
    ensures
        live_columns(rows.take(i + 1)) == live_columns(rows.take(i)).push(rows[i].column()),
{
    assert(live_columns(rows.take(i + 1)) =~= live_columns(rows.take(i)).push(rows[i].column()));
}

/// Reads the default of a live column.
pub fn read_default(expression: &str) -> (default: DatabaseDefault)
    ensures
        default@ == live_default(expression@),
{
    let chars = chars_of(expression);
    if chars.len() > 0 && chars[0] == '\'' {
        let rest = expression.substring_char(1, chars.len());
        assert(rest@ =~= expression@.skip(1));
        let rest_chars = chars_of(rest);
        let end = find_char(&rest_chars, '\'');
        let body = rest.substring_char(0, end);
        assert(body@ =~= before_first(rest@, '\''));
        DatabaseDefault::String(String::from_str(body))
    } else if str_eq(expression, "true") {
        DatabaseDefault::Bool(true)
    } else if str_eq(expression, "false") {
        DatabaseDefault::Bool(false)
    } else if let Some(num) = parse_u64(expression) {
        DatabaseDefault::Int(num)
    } else if let Some(num) = parse_i64(expression) {
        DatabaseDefault::Float(num)
    } else {
        DatabaseDefault::Raw(String::from_str(expression))
    }
}

/// Reads the foreign key of a live column.
pub fn read_reference(reference: &Option<String>) -> (r: Option<(String, String)>)
    ensures
        crate::database::option_pair_view(r) == live_reference(option_text_view(*reference)),
{
    match reference {
        Some(text) => {
            let chars = chars_of(text.as_str());
            let n = chars.len();
            let at = find_char(&chars, ':');
            if at < n {
                let table = text.as_str().substring_char(0, at);
                let column = text.as_str().substring_char(at + 1, n);
                assert(table@ =~= text@.take(at as int));
                assert(column@ =~= text@.skip(at + 1));
                Some((String::from_str(table), String::from_str(column)))
            } else {
                None
            }
        },
        None => None,
    }
}

/// Reads the type of a live column.
pub fn read_type(data_type: &str, max_len: Option<i32>) -> (r: Option<DatabaseType>)
    ensures
        r == live_type(data_type@, max_len),
{
    match DatabaseType::from_str(data_type) {
        Ok(database_type) => {
            if let Some(len) = max_len {
                if let DatabaseType::Text(None) = database_type {
                    return Some(DatabaseType::Text(Some(len)));
                }
            }
            Some(database_type)
        },
        Err(_) => None,
    }
}

impl ColumnsQuery {
    /// The column that the row describes; `None` where its type is not in
    /// the vocabulary of the model.
    pub fn column(&self) -> (r: Option<DatabaseColumn>)
        ensures
            match r {
                Some(c) => self@.supported() && c@ == self@.column(),
                None => !self@.supported(),
            },
    {
        let ty = match read_type(self.data_type.as_str(), self.character_maximum_length) {
            Some(ty) => ty,
            None => {
                return None;
            },
        };
        let default = match &self.column_default {
            Some(expression) => Some(read_default(expression.as_str())),
            None => None,
        };
        Some(
            DatabaseColumn {
                name: self.column_name.clone(),
                ty,
                nullable: str_eq(self.is_nullable.as_str(), "YES"),
                default,
                unique: self.is_unique,
                constraint: None,
                primary_key: self.is_primary_key,
                references: read_reference(&self.reference),
            },
        )
    }
}

} // verus!
