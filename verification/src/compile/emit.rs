//! The writer of SQL: column definitions, `CREATE TABLE`, and the statements
//! that bring a live table into line with the declared one.

use crate::compile::diff::{
    column_changes, column_statements, declared_statements, default_change, drop_statement,
    dropped_statements, find_column, has_column, lemma_find_column, lemma_no_column,
    nullable_change, references_change, statements, sync_statements, type_change, unique_change,
};
use crate::compile::statement::{
    alter_column, check_clause, column_line, column_lines, column_sql, create_table_sql,
    default_clause, lemma_lines_one, lemma_script_concat, lemma_script_lines, lemma_script_one,
    lines, not_null_clause, primary_key_clause, references_clause, script, Statement,
};
use crate::database::{
    column_views, default_eq, option_default_view, option_pair_view, option_text_view,
    references_eq, DatabaseColumn, DatabaseDefault, DatabaseSchema,
};
use vstd::prelude::*;
use vstd::string::{StrSliceExecFns, StringExecFns};

verus! {

/// Appends `ALTER TABLE <table> ALTER COLUMN <column>`.
fn push_alter_column(out: &mut String, table: &str, column: &str)
    ensures
        final(out)@ == old(out)@ + alter_column(table@, column@),
{
    out.append("ALTER TABLE ");
    out.append(table);
    out.append(" ALTER COLUMN ");
    out.append(column);
    assert(out@ =~= old(out)@ + alter_column(table@, column@));
}

/// Appends `ALTER TABLE <table> <action> <table>_<column><suffix>`, the
/// start of every statement on a named constraint.
fn push_constraint(out: &mut String, table: &str, action: &str, column: &str, suffix: &str)
    ensures
        final(out)@ == old(out)@ + ("ALTER TABLE "@ + table@ + action@ + (table@ + "_"@ + column@
            + suffix@)),
{
    out.append("ALTER TABLE ");
    out.append(table);
    out.append(action);
    out.append(table);
    out.append("_");
    out.append(column);
    out.append(suffix);
    assert(out@ =~= old(out)@ + ("ALTER TABLE "@ + table@ + action@ + (table@ + "_"@ + column@
        + suffix@)));
}

/// Appends the cast of a column to the declared type, where the types differ.
fn push_type_change(out: &mut String, table: &str, want: &DatabaseColumn, have: &DatabaseColumn)
    ensures
        final(out)@ == old(out)@ + script(type_change(table@, want@, have@)),
{
    if want.ty != have.ty {
        let ty = want.ty.to_string();
        push_alter_column(out, table, want.name.as_str());
        out.append(" TYPE ");
        out.append(ty.as_str());
        out.append(" USING ");
        out.append(want.name.as_str());
        out.append("::");
        out.append(ty.as_str());
        out.append(";");
        out.append("\n");
        proof {
            let s = Statement::AlterType { table: table@, column: want@.name, ty: want.ty };
            lemma_script_one(s);
            assert(out@ =~= old(out)@ + (s.sql() + "\n"@));
        }
    } else {
        assert(out@ =~= old(out)@ + script(Seq::<Statement>::empty()));
    }
}

/// Appends the change of nullability, where it differs.
fn push_nullable_change(
    out: &mut String,
    table: &str,
    want: &DatabaseColumn,
    have: &DatabaseColumn,
)
    ensures
        final(out)@ == old(out)@ + script(nullable_change(table@, want@, have@)),
{
    if want.nullable != have.nullable {
        push_alter_column(out, table, want.name.as_str());
        if have.nullable {
            out.append(" SET NOT NULL;");
            out.append("\n");
            proof {
                let s = Statement::SetNotNull { table: table@, column: want@.name };
                lemma_script_one(s);
                assert(out@ =~= old(out)@ + (s.sql() + "\n"@));
            }
        } else {
            out.append(" DROP NOT NULL;");
            out.append("\n");
            proof {
                let s = Statement::DropNotNull { table: table@, column: want@.name };
                lemma_script_one(s);
                assert(out@ =~= old(out)@ + (s.sql() + "\n"@));
            }
        }
    } else {
        assert(out@ =~= old(out)@ + script(Seq::<Statement>::empty()));
    }
}

/// Appends the change of default, where the defaults are not the same.
fn push_default_change(
    out: &mut String,
    table: &str,
    want: &DatabaseColumn,
    have: &DatabaseColumn,
)
    ensures
        final(out)@ == old(out)@ + script(default_change(table@, want@, have@)),
{
    if !default_eq(&want.default, &have.default) {
        push_alter_column(out, table, want.name.as_str());
        match &want.default {
            Some(default) => {
                out.append(" SET DEFAULT ");
                default.write(out);
                out.append(";");
                out.append("\n");
                proof {
                    let s = Statement::SetDefault {
                        table: table@,
                        column: want@.name,
                        default: default@,
                    };
                    lemma_script_one(s);
                    assert(out@ =~= old(out)@ + (s.sql() + "\n"@));
                }
            },
            None => {
                out.append(" DROP DEFAULT;");
                out.append("\n");
                proof {
                    let s = Statement::DropDefault { table: table@, column: want@.name };
                    lemma_script_one(s);
                    assert(out@ =~= old(out)@ + (s.sql() + "\n"@));
                }
            },
        }
    } else {
        assert(out@ =~= old(out)@ + script(Seq::<Statement>::empty()));
    }
}

/// Appends the change of uniqueness, where it differs.
fn push_unique_change(out: &mut String, table: &str, want: &DatabaseColumn, have: &DatabaseColumn)
    ensures
        final(out)@ == old(out)@ + script(unique_change(table@, want@, have@)),
{
    if want.unique != have.unique {
        if have.unique {
            push_constraint(out, table, " DROP CONSTRAINT ", want.name.as_str(), "_key");
            out.append(";");
            out.append("\n");
            proof {
                let s = Statement::DropUnique { table: table@, column: want@.name };
                lemma_script_one(s);
                assert(out@ =~= old(out)@ + (s.sql() + "\n"@));
            }
        } else {
            push_constraint(out, table, " ADD CONSTRAINT ", want.name.as_str(), "_key");
            out.append(" UNIQUE (");
            out.append(want.name.as_str());
            out.append(");");
            out.append("\n");
            proof {
                let s = Statement::AddUnique { table: table@, column: want@.name };
                lemma_script_one(s);
                assert(out@ =~= old(out)@ + (s.sql() + "\n"@));
            }
        }
    } else {
        assert(out@ =~= old(out)@ + script(Seq::<Statement>::empty()));
    }
}

/// Appends the statement that drops the foreign key of a column.
fn push_drop_foreign_key(out: &mut String, table: &str, column: &str)
    ensures
        final(out)@ == old(out)@ + script(
            seq![Statement::DropForeignKey { table: table@, column: column@ }],
        ),
{
    push_constraint(out, table, " DROP CONSTRAINT ", column, "_fkey");
    out.append(";");
    out.append("\n");
    proof {
        let s = Statement::DropForeignKey { table: table@, column: column@ };
        lemma_script_one(s);
        assert(out@ =~= old(out)@ + (s.sql() + "\n"@));
    }
}

/// Appends the statement that adds the foreign key of a column.
fn push_add_foreign_key(
    out: &mut String,
    table: &str,
    column: &str,
    references_table: &str,
    references_column: &str,
)
    ensures
        final(out)@ == old(out)@ + script(
            seq![
                Statement::AddForeignKey {
                    table: table@,
                    column: column@,
                    references_table: references_table@,
                    references_column: references_column@,
                },
            ],
        ),
{
    push_constraint(out, table, " ADD CONSTRAINT ", column, "_fkey");
    out.append(" FOREIGN KEY (");
    out.append(column);
    out.append(") REFERENCES ");
    out.append(references_table);
    out.append(" (");
    out.append(references_column);
    out.append(");");
    out.append("\n");
    proof {
        let s = Statement::AddForeignKey {
            table: table@,
            column: column@,
            references_table: references_table@,
            references_column: references_column@,
        };
        lemma_script_one(s);
        assert(out@ =~= old(out)@ + (s.sql() + "\n"@));
    }
}

/// Appends the change of foreign key, where the references differ.
fn push_references_change(
    out: &mut String,
    table: &str,
    want: &DatabaseColumn,
    have: &DatabaseColumn,
)
    ensures
        final(out)@ == old(out)@ + script(references_change(table@, want@, have@)),
{
    if !references_eq(&want.references, &have.references) {
        match &want.references {
            Some((references_table, references_column)) => {
                let ghost add = Statement::AddForeignKey {
                    table: table@,
                    column: want@.name,
                    references_table: references_table@,
                    references_column: references_column@,
                };
                let ghost drop = Statement::DropForeignKey { table: table@, column: want@.name };
                if have.references.is_some() {
                    push_drop_foreign_key(out, table, want.name.as_str());
                    push_add_foreign_key(
                        out,
                        table,
                        want.name.as_str(),
                        references_table.as_str(),
                        references_column.as_str(),
                    );
                    proof {
                        lemma_script_concat(seq![drop], seq![add]);
                        assert(seq![drop] + seq![add] =~= seq![drop, add]);
                        assert(out@ =~= old(out)@ + (script(seq![drop]) + script(seq![add])));
                    }
                } else {
                    push_add_foreign_key(
                        out,
                        table,
                        want.name.as_str(),
                        references_table.as_str(),
                        references_column.as_str(),
                    );
                }
            },
            None => {
                push_drop_foreign_key(out, table, want.name.as_str());
            },
        }
    } else {
        assert(out@ =~= old(out)@ + script(Seq::<Statement>::empty()));
    }
}

/// Appends the changes to a column that is declared and live.
fn push_column_changes(out: &mut String, table: &str, want: &DatabaseColumn, have: &DatabaseColumn)
    ensures
        final(out)@ == old(out)@ + script(column_changes(table@, want@, have@)),
{
    push_type_change(out, table, want, have);
    push_nullable_change(out, table, want, have);
    push_default_change(out, table, want, have);
    push_unique_change(out, table, want, have);
    push_references_change(out, table, want, have);
    proof {
        let a = type_change(table@, want@, have@);
        let b = nullable_change(table@, want@, have@);
        let c = default_change(table@, want@, have@);
        let d = unique_change(table@, want@, have@);
        let e = references_change(table@, want@, have@);
        lemma_script_concat(a, b);
        lemma_script_concat(a + b, c);
        lemma_script_concat(a + b + c, d);
        lemma_script_concat(a + b + c + d, e);
        assert(out@ =~= old(out)@ + (script(a) + script(b) + script(c) + script(d) + script(e)));
    }
}

/// Appends the name and the type of a column.
fn push_column_head(out: &mut String, column: &DatabaseColumn)
    ensures
        final(out)@ == old(out)@ + (column@.name + " "@ + column.ty.native_name()),
{
    out.append(column.name.as_str());
    out.append(" ");
    column.ty.write(out);
    assert(out@ =~= old(out)@ + (column@.name + " "@ + column.ty.native_name()));
}

/// Appends ` NOT NULL` for a column that is not nullable.
fn push_not_null_clause(out: &mut String, nullable: bool)
    ensures
        final(out)@ == old(out)@ + not_null_clause(nullable),
{
    if !nullable {
        out.append(" NOT NULL");
    } else {
        assert(out@ =~= old(out)@ + not_null_clause(nullable));
    }
}

/// Appends the default of a column, where it has one.
fn push_default_clause(out: &mut String, default: &Option<DatabaseDefault>)
    ensures
        final(out)@ == old(out)@ + default_clause(option_default_view(*default)),
{
    match default {
        Some(value) => {
            out.append(" DEFAULT ");
            value.write(out);
        },
        None => {},
    }
    assert(out@ =~= old(out)@ + default_clause(option_default_view(*default)));
}

/// Appends the check constraint of a column, where it has one.
fn push_check_clause(out: &mut String, constraint: &Option<String>)
    ensures
        final(out)@ == old(out)@ + check_clause(option_text_view(*constraint)),
{
    match constraint {
        Some(text) => {
            out.append(" CHECK (");
            out.append(text.as_str());
            out.append(")");
        },
        None => {},
    }
    assert(out@ =~= old(out)@ + check_clause(option_text_view(*constraint)));
}

/// Appends ` PRIMARY KEY` for a column of the primary key.
fn push_primary_key_clause(out: &mut String, primary_key: bool)
    ensures
        final(out)@ == old(out)@ + primary_key_clause(primary_key),
{
    if primary_key {
        out.append(" PRIMARY KEY");
    } else {
        assert(out@ =~= old(out)@ + primary_key_clause(primary_key));
    }
}

/// Appends the foreign key of a column, where it has one.
fn push_references_clause(out: &mut String, references: &Option<(String, String)>)
    ensures
        final(out)@ == old(out)@ + references_clause(option_pair_view(*references)),
{
    match references {
        Some((table, column)) => {
            out.append(" REFERENCES ");
            out.append(table.as_str());
            out.append("(");
            out.append(column.as_str());
            out.append(")");
        },
        None => {},
    }
    assert(out@ =~= old(out)@ + references_clause(option_pair_view(*references)));
}

/// The position of the first column of that name, if there is one.
pub fn position(columns: &[DatabaseColumn], name: &String) -> (r: Option<usize>)
    ensures
        match r {
            Some(i) => i < columns.len() && find_column(column_views(columns@), name@) == Some(
                columns@[i as int]@,
            ),
            None => find_column(column_views(columns@), name@) is None,
        },
        r is Some == has_column(column_views(columns@), name@),
{
    let n = columns.len();
    let mut i: usize = 0;
    while i < n
        invariant
            i <= n,
            n == columns.len(),
            forall|j: int| 0 <= j < i ==> column_views(columns@)[j].name != name@,
        decreases n - i,
    {
        if columns[i].name == *name {
            proof {
                lemma_find_column(column_views(columns@), name@, i as int);
            }
            return Some(i);
        }
        i = i + 1;
    }
    proof {
        lemma_no_column(column_views(columns@), name@);
    }
    None
}

/// The definition of a column.
pub fn column_definition(column: &DatabaseColumn) -> (sql: String)
    ensures
        sql@ == column_sql(column@),
{
    let mut sql = String::new();
    push_column_head(&mut sql, column);
    push_not_null_clause(&mut sql, column.nullable);
    push_default_clause(&mut sql, &column.default);
    push_check_clause(&mut sql, &column.constraint);
    push_primary_key_clause(&mut sql, column.primary_key);
    push_references_clause(&mut sql, &column.references);
    assert(sql@ =~= column_sql(column@));
    sql
}

/// The statement that creates a table.
pub fn create_table(table: &DatabaseSchema) -> (sql: String)
    ensures
        sql@ == create_table_sql(table@),
        sql@ == lines(statements(table@, None)),
{
    let mut sql = String::new();
    sql.append("CREATE TABLE IF NOT EXISTS ");
    sql.append(table.table_name.as_str());
    sql.append(" (\n");
    let ghost head = sql@;
    let ghost columns = table@.columns;
    let n = table.columns.len();
    let mut i: usize = 0;
    while i < n
        invariant
            i <= n,
            n == table.columns.len(),
            columns == table@.columns,
            head == "CREATE TABLE IF NOT EXISTS "@ + table@.name + " (\n"@,
            sql@ == head + column_lines(columns, i as nat),
        decreases n - i,
    {
        let column = &table.columns[i];
        assert(columns[i as int] == column@);
        let ghost before = sql@;
        sql.append("  ");
        let text = column_definition(column);
        sql.append(text.as_str());
        if i < n - 1 {
            sql.append(",\n");
        } else {
            sql.append("\n");
        }
        assert(sql@ =~= before + column_line(columns, i as int));
        i = i + 1;
        assert(sql@ =~= head + column_lines(columns, i as nat));
    }
    sql.append(");");
    proof {
        assert(sql@ =~= create_table_sql(table@));
        lemma_lines_one(Statement::CreateTable { schema: table@ });
    }
    sql
}

/// The statements that bring a live table into line with the declared
/// one, one to a line and with no line break at the end.
pub fn sync_table(table: &DatabaseSchema, db_columns: &[DatabaseColumn]) -> (sql: String)
    ensures
        sql@ == lines(sync_statements(table@, column_views(db_columns@))),
        sql@ == lines(statements(table@, Some(column_views(db_columns@)))),
{
    let text = sync_script(table, db_columns);
    let ghost change = sync_statements(table@, column_views(db_columns@));
    proof {
        lemma_script_lines(change);
        reveal_strlit("\n");
    }
    let n = text.as_str().unicode_len();
    if n == 0 {
        text
    } else {
        let body = text.as_str().substring_char(0, n - 1);
        assert(body@ =~= lines(change));
        String::from_str(body)
    }
}

/// The statements that bring a live table into line with the declared
/// one, each followed by a line break.
fn sync_script(table: &DatabaseSchema, db_columns: &[DatabaseColumn]) -> (sql: String)
    ensures
        sql@ == script(sync_statements(table@, column_views(db_columns@))),
{
    let mut sql = String::new();
    let ghost name = table@.name;
    let ghost declared = table@.columns;
    let ghost live = column_views(db_columns@);
    let n = table.columns.len();
    let mut i: usize = 0;
    while i < n
        invariant
            i <= n,
            n == table.columns.len(),
            name == table@.name,
            declared == table@.columns,
            live == column_views(db_columns@),
            sql@ == script(declared_statements(name, declared.take(i as int), live)),
        decreases n - i,
    {
        let schema_col = &table.columns[i];
        let ghost before = declared_statements(name, declared.take(i as int), live);
        proof {
            assert(declared.take(i + 1).drop_last() =~= declared.take(i as int));
            assert(declared.take(i + 1).last() == schema_col@);
            lemma_script_concat(before, column_statements(name, schema_col@, live));
        }
        match position(db_columns, &schema_col.name) {
            Some(k) => {
                push_column_changes(
                    &mut sql,
                    table.table_name.as_str(),
                    schema_col,
                    &db_columns[k],
                );
            },
            None => {
                let definition = column_definition(schema_col);
                let ghost old_sql = sql@;
                sql.append("ALTER TABLE ");
                sql.append(table.table_name.as_str());
                sql.append(" ADD COLUMN ");
                sql.append(definition.as_str());
                sql.append(";");
                sql.append("\n");
                proof {
                    let s = Statement::AddColumn { table: name, definition: schema_col@ };
                    lemma_script_one(s);
                    assert(sql@ =~= old_sql + (s.sql() + "\n"@));
                }
            },
        }
        i = i + 1;
    }
    assert(declared.take(n as int) =~= declared);
    let ghost kept = declared_statements(name, declared, live);
    let m = db_columns.len();
    let mut j: usize = 0;
    while j < m
        invariant
            j <= m,
            m == db_columns.len(),
            name == table@.name,
            declared == table@.columns,
            live == column_views(db_columns@),
            kept == declared_statements(name, declared, live),
            sql@ == script(kept) + script(
                dropped_statements(name, declared, live.take(j as int)),
            ),
        decreases m - j,
    {
        let db_col = &db_columns[j];
        let ghost before = dropped_statements(name, declared, live.take(j as int));
        proof {
            assert(live.take(j + 1).drop_last() =~= live.take(j as int));
            assert(live.take(j + 1).last() == db_col@);
            lemma_script_concat(before, drop_statement(name, declared, db_col@));
        }
        if position(table.columns.as_slice(), &db_col.name).is_none() {
            let ghost old_sql = sql@;
            sql.append("ALTER TABLE ");
            sql.append(table.table_name.as_str());
            sql.append(" DROP COLUMN ");
            sql.append(db_col.name.as_str());
            sql.append(";");
            sql.append("\n");
            proof {
                let s = Statement::DropColumn { table: name, column: db_col@.name };
                lemma_script_one(s);
                assert(sql@ =~= old_sql + (s.sql() + "\n"@));
            }
        } else {
            assert(sql@ =~= script(kept) + script(before) + script(
                Seq::<Statement>::empty(),
            ));
        }
        j = j + 1;
    }
    proof {
        assert(live.take(m as int) =~= live);
        lemma_script_concat(kept, dropped_statements(name, declared, live));
    }
    sql
}

} // verus!
