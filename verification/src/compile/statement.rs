//! The statements that change a database, and their SQL text.

use crate::database::{Column, DatabaseType, DefaultValue, Table};
use crate::unicode::tight;
use vstd::prelude::*;

verus! {

/// The definition of a column, as it stands in `CREATE TABLE` and in
/// `ADD COLUMN`: name and type, then each clause that applies, in this order.
pub open spec fn column_sql(c: Column) -> Seq<char> {
    c.name + " "@ + c.ty.native_name() + not_null_clause(c.nullable) + default_clause(c.default)
        + check_clause(c.constraint) + primary_key_clause(c.primary_key) + references_clause(
        c.references,
    )
}

pub open spec fn not_null_clause(nullable: bool) -> Seq<char> {
    if nullable {
        Seq::empty()
    } else {
        " NOT NULL"@
    }
}

pub open spec fn default_clause(default: Option<DefaultValue>) -> Seq<char> {
    match default {
        Some(d) => " DEFAULT "@ + d.sql(),
        None => Seq::empty(),
    }
}

pub open spec fn check_clause(constraint: Option<Seq<char>>) -> Seq<char> {
    match constraint {
        Some(k) => " CHECK ("@ + k + ")"@,
        None => Seq::empty(),
    }
}

pub open spec fn primary_key_clause(primary_key: bool) -> Seq<char> {
    if primary_key {
        " PRIMARY KEY"@
    } else {
        Seq::empty()
    }
}

pub open spec fn references_clause(references: Option<(Seq<char>, Seq<char>)>) -> Seq<char> {
    match references {
        Some((table, column)) => " REFERENCES "@ + table + "("@ + column + ")"@,
        None => Seq::empty(),
    }
}

/// The line of column `i` in `CREATE TABLE`: two spaces, the definition, and
/// a comma unless the column is the last.
pub open spec fn column_line(columns: Seq<Column>, i: int) -> Seq<char> {
    "  "@ + column_sql(columns[i]) + (if i < columns.len() - 1 {
        ",\n"@
    } else {
        "\n"@
    })
}

/// The lines of the first `n` columns, in order.
pub open spec fn column_lines(columns: Seq<Column>, n: nat) -> Seq<char>
    decreases n,
{
    if n == 0 {
        Seq::empty()
    } else {
        column_lines(columns, (n - 1) as nat) + column_line(columns, n - 1)
    }
}

/// The statement that creates a table with its declared columns, in the
/// declared order.
pub open spec fn create_table_sql(table: Table) -> Seq<char> {
    "CREATE TABLE IF NOT EXISTS "@ + table.name + " (\n"@ + column_lines(
        table.columns,
        table.columns.len(),
    ) + ");"@
}

/// One statement of a change set.
pub enum Statement {
    CreateTable { schema: Table },
    AddColumn { table: Seq<char>, definition: Column },
    AlterType { table: Seq<char>, column: Seq<char>, ty: DatabaseType },
    SetNotNull { table: Seq<char>, column: Seq<char> },
    DropNotNull { table: Seq<char>, column: Seq<char> },
    SetDefault { table: Seq<char>, column: Seq<char>, default: DefaultValue },
    DropDefault { table: Seq<char>, column: Seq<char> },
    AddUnique { table: Seq<char>, column: Seq<char> },
    DropUnique { table: Seq<char>, column: Seq<char> },
    AddForeignKey {
        table: Seq<char>,
        column: Seq<char>,
        references_table: Seq<char>,
        references_column: Seq<char>,
    },
    DropForeignKey { table: Seq<char>, column: Seq<char> },
    DropColumn { table: Seq<char>, column: Seq<char> },
}

/// `ALTER TABLE <table> ALTER COLUMN <column> `, the start of every change
/// to one attribute of a column.
pub open spec fn alter_column(table: Seq<char>, column: Seq<char>) -> Seq<char> {
    "ALTER TABLE "@ + table + " ALTER COLUMN "@ + column
}

/// The name of the unique constraint of a column: `<table>_<column>_key`.
pub open spec fn unique_key(table: Seq<char>, column: Seq<char>) -> Seq<char> {
    table + "_"@ + column + "_key"@
}

/// The name of the foreign key of a column: `<table>_<column>_fkey`.
pub open spec fn foreign_key(table: Seq<char>, column: Seq<char>) -> Seq<char> {
    table + "_"@ + column + "_fkey"@
}

impl Statement {
    /// The SQL text of the statement, closed by `;`.
    pub open spec fn sql(self) -> Seq<char> {
        match self {
            Statement::CreateTable { schema } => create_table_sql(schema),
            Statement::AddColumn { table, definition } => "ALTER TABLE "@ + table
                + " ADD COLUMN "@ + column_sql(definition) + ";"@,
            Statement::AlterType { table, column, ty } => alter_column(table, column) + " TYPE "@
                + ty.native_name() + " USING "@ + column + "::"@ + ty.native_name() + ";"@,
            Statement::SetNotNull { table, column } => alter_column(table, column)
                + " SET NOT NULL;"@,
            Statement::DropNotNull { table, column } => alter_column(table, column)
                + " DROP NOT NULL;"@,
            Statement::SetDefault { table, column, default } => alter_column(table, column)
                + " SET DEFAULT "@ + default.sql() + ";"@,
            Statement::DropDefault { table, column } => alter_column(table, column)
                + " DROP DEFAULT;"@,
            Statement::AddUnique { table, column } => "ALTER TABLE "@ + table
                + " ADD CONSTRAINT "@ + unique_key(table, column) + " UNIQUE ("@ + column + ");"@,
            Statement::DropUnique { table, column } => "ALTER TABLE "@ + table
                + " DROP CONSTRAINT "@ + unique_key(table, column) + ";"@,
            Statement::AddForeignKey { table, column, references_table, references_column } =>
                "ALTER TABLE "@ + table + " ADD CONSTRAINT "@ + foreign_key(table, column)
                    + " FOREIGN KEY ("@ + column + ") REFERENCES "@ + references_table + " ("@
                    + references_column + ");"@,
            Statement::DropForeignKey { table, column } => "ALTER TABLE "@ + table
                + " DROP CONSTRAINT "@ + foreign_key(table, column) + ";"@,
            Statement::DropColumn { table, column } => "ALTER TABLE "@ + table + " DROP COLUMN "@
                + column + ";"@,
        }
    }
}

/// The text of a list of statements, each on a line of its own: every
/// statement is followed by a line break.
pub open spec fn script(statements: Seq<Statement>) -> Seq<char>
    decreases statements.len(),
{
    if statements.len() == 0 {
        Seq::empty()
    } else {
        script(statements.drop_last()) + statements.last().sql() + "\n"@
    }
}

/// The text of a list of statements with a line break between each two and
/// none at the end.
pub open spec fn lines(statements: Seq<Statement>) -> Seq<char>
    decreases statements.len(),
{
    if statements.len() == 0 {
        Seq::empty()
    } else if statements.len() == 1 {
        statements.last().sql()
    } else {
        lines(statements.drop_last()) + "\n"@ + statements.last().sql()
    }
}

/// The script of one statement is its text and a line break.
pub proof fn lemma_script_one(s: Statement)
    ensures
        script(seq![s]) == s.sql() + "\n"@,
{
    reveal_with_fuel(script, 2);
    assert(seq![s].drop_last() =~= Seq::<Statement>::empty());
    assert(script(seq![s]) =~= s.sql() + "\n"@);
}

/// The script of two lists, one after the other, is their scripts one after
/// the other.
pub proof fn lemma_script_concat(a: Seq<Statement>, b: Seq<Statement>)
    ensures
        script(a + b) == script(a) + script(b),
    decreases b.len(),
{
    if b.len() == 0 {
        assert(a + b =~= a);
        assert(script(a) + script(b) =~= script(a));
    } else {
        assert((a + b).drop_last() =~= a + b.drop_last());
        assert((a + b).last() == b.last());
        lemma_script_concat(a, b.drop_last());
        assert(script(a + b) =~= script(a) + script(b));
    }
}

/// A script is the lines of its statements and one more line break, unless
/// it is empty.
pub proof fn lemma_script_lines(statements: Seq<Statement>)
    ensures
        statements.len() == 0 ==> script(statements) == Seq::<char>::empty() && lines(statements)
            == Seq::<char>::empty(),
        statements.len() > 0 ==> script(statements) == lines(statements) + "\n"@,
    decreases statements.len(),
{
    if statements.len() > 1 {
        lemma_script_lines(statements.drop_last());
        assert(script(statements) =~= lines(statements) + "\n"@);
    } else if statements.len() == 1 {
        assert(script(statements.drop_last()) =~= Seq::<char>::empty());
        assert(script(statements) =~= lines(statements) + "\n"@);
    }
}

/// The lines of one statement are its text.
pub proof fn lemma_lines_one(s: Statement)
    ensures
        lines(seq![s]) == s.sql(),
{
}

/// A text between a first part and a last part begins as the first part
/// and ends as the last.
proof fn lemma_ends(first: Seq<char>, middle: Seq<char>, last: Seq<char>)
    requires
        first.len() > 0,
        last.len() > 0,
    ensures
        (first + middle + last).len() > 0,
        (first + middle + last).first() == first.first(),
        (first + middle + last).last() == last.last(),
{
}

/// Every statement begins with `ALTER TABLE` or `CREATE TABLE` and ends
/// with `;`, so its text begins and ends with no white space.
pub proof fn lemma_statement_tight(s: Statement)
    ensures
        tight(s.sql()),
        s.sql().last() == ';',
{
    reveal_strlit("ALTER TABLE ");
    reveal_strlit("CREATE TABLE IF NOT EXISTS ");
    reveal_strlit(";");
    reveal_strlit(");");
    reveal_strlit(" SET NOT NULL;");
    reveal_strlit(" DROP NOT NULL;");
    reveal_strlit(" DROP DEFAULT;");
    let alter = "ALTER TABLE "@;
    let end = ";"@;
    match s {
        Statement::CreateTable { schema } => {
            let middle = schema.name + " (\n"@ + column_lines(schema.columns, schema.columns.len());
            lemma_ends("CREATE TABLE IF NOT EXISTS "@, middle, ");"@);
            assert(s.sql() =~= "CREATE TABLE IF NOT EXISTS "@ + middle + ");"@);
        },
        Statement::AddColumn { table, definition } => {
            let middle = table + " ADD COLUMN "@ + column_sql(definition);
            lemma_ends(alter, middle, end);
            assert(s.sql() =~= alter + middle + end);
        },
        Statement::AlterType { table, column, ty } => {
            let middle = table + " ALTER COLUMN "@ + column + " TYPE "@ + ty.native_name()
                + " USING "@ + column + "::"@ + ty.native_name();
            lemma_ends(alter, middle, end);
            assert(s.sql() =~= alter + middle + end);
        },
        Statement::SetNotNull { table, column } => {
            let middle = table + " ALTER COLUMN "@ + column;
            lemma_ends(alter, middle, " SET NOT NULL;"@);
            assert(s.sql() =~= alter + middle + " SET NOT NULL;"@);
        },
        Statement::DropNotNull { table, column } => {
            let middle = table + " ALTER COLUMN "@ + column;
            lemma_ends(alter, middle, " DROP NOT NULL;"@);
            assert(s.sql() =~= alter + middle + " DROP NOT NULL;"@);
        },
        Statement::SetDefault { table, column, default } => {
            let middle = table + " ALTER COLUMN "@ + column + " SET DEFAULT "@ + default.sql();
            lemma_ends(alter, middle, end);
            assert(s.sql() =~= alter + middle + end);
        },
        Statement::DropDefault { table, column } => {
            let middle = table + " ALTER COLUMN "@ + column;
            lemma_ends(alter, middle, " DROP DEFAULT;"@);
            assert(s.sql() =~= alter + middle + " DROP DEFAULT;"@);
        },
        Statement::AddUnique { table, column } => {
            let middle = table + " ADD CONSTRAINT "@ + unique_key(table, column) + " UNIQUE ("@
                + column;
            lemma_ends(alter, middle, ");"@);
            assert(s.sql() =~= alter + middle + ");"@);
        },
        Statement::DropUnique { table, column } => {
            let middle = table + " DROP CONSTRAINT "@ + unique_key(table, column);
            lemma_ends(alter, middle, end);
            assert(s.sql() =~= alter + middle + end);
        },
        Statement::AddForeignKey { table, column, references_table, references_column } => {
            let middle = table + " ADD CONSTRAINT "@ + foreign_key(table, column)
                + " FOREIGN KEY ("@ + column + ") REFERENCES "@ + references_table + " ("@
                + references_column;
            lemma_ends(alter, middle, ");"@);
            assert(s.sql() =~= alter + middle + ");"@);
        },
        Statement::DropForeignKey { table, column } => {
            let middle = table + " DROP CONSTRAINT "@ + foreign_key(table, column);
            lemma_ends(alter, middle, end);
            assert(s.sql() =~= alter + middle + end);
        },
        Statement::DropColumn { table, column } => {
            let middle = table + " DROP COLUMN "@ + column;
            lemma_ends(alter, middle, end);
            assert(s.sql() =~= alter + middle + end);
        },
    }
}

/// The lines of statements, where there is one at least, begin and end
/// with no white space.
pub proof fn lemma_lines_tight(statements: Seq<Statement>)
    requires
        statements.len() > 0,
    ensures
        tight(lines(statements)),
    decreases statements.len(),
{
    lemma_statement_tight(statements.last());
    if statements.len() > 1 {
        lemma_lines_tight(statements.drop_last());
        let front = lines(statements.drop_last());
        let last = statements.last().sql();
        assert(lines(statements) =~= front + "\n"@ + last);
        assert((front + "\n"@ + last).first() == front.first());
        assert((front + "\n"@ + last).last() == last.last());
    }
}

} // verus!
