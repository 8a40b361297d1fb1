//! The compiler from declared tables to SQL.

use crate::compile::catalog::{
    lemma_live_columns_take, live_columns, live_table, row_views, CatalogRow, ColumnsQuery,
};
use crate::compile::diff::{find_column, has_column, statements, sync_statements};
use crate::compile::emit::{column_definition, create_table, position, sync_table};
use crate::compile::error::{Error, ErrorValue};
use crate::compile::statement::{
    column_sql, create_table_sql, lemma_lines_tight, lemma_script_lines, lines, script, Statement,
};
use crate::compile::util::{is_ty_option, option_prefix};
use crate::database::{
    column_views, lemma_column_views_push, Column, DatabaseColumn, DatabaseDefault,
    DatabaseSchema, DefaultValue, Table,
};
use crate::schema::{Model, Role, RustField};
use crate::unicode::{blank, lemma_trimmed_blank, lemma_trimmed_tight, tight, trim, trimmed};
use vstd::prelude::*;
use vstd::string::StringExecFns;

verus! {

/// The outcome of compiling the database: how many statements ran, and how
/// many rows they affected in all.
#[derive(Clone, Copy, Debug, Default, PartialEq, Eq, PartialOrd, Ord)]
pub struct CompileDatabaseResult {
    pub queries_executed: usize,
    pub rows_affected: u64,
}

/// The sum of a list of row counts.
pub open spec fn total(rows_affected: Seq<u64>) -> nat
    decreases rows_affected.len(),
{
    if rows_affected.len() == 0 {
        0
    } else {
        total(rows_affected.drop_last()) + rows_affected.last() as nat
    }
}

impl CompileDatabaseResult {
    /// The outcome of a batch, from the number of rows that each of its
    /// statements affected.
    pub fn tally(rows_affected: &[u64]) -> (result: CompileDatabaseResult)
        requires
            total(rows_affected@) <= u64::MAX,
        ensures
            result.queries_executed == rows_affected@.len(),
            result.rows_affected == total(rows_affected@),
    {
        let n = rows_affected.len();
        let mut sum: u64 = 0;
        let mut i: usize = 0;
        while i < n
            invariant
                i <= n,
                n == rows_affected.len(),
                sum == total(rows_affected@.take(i as int)),
                total(rows_affected@) <= u64::MAX,
            decreases n - i,
        {
            proof {
                assert(rows_affected@.take(i + 1).drop_last() =~= rows_affected@.take(i as int));
                lemma_total_prefix(rows_affected@, i + 1);
            }
            sum = sum + rows_affected[i];
            i = i + 1;
        }
        assert(rows_affected@.take(n as int) =~= rows_affected@);
        CompileDatabaseResult { queries_executed: n, rows_affected: sum }
    }
}

/// The sum of a prefix is no more than the sum of the whole list.
pub proof fn lemma_total_prefix(rows_affected: Seq<u64>, k: int)
    requires
        0 <= k <= rows_affected.len(),
    ensures
        total(rows_affected.take(k)) <= total(rows_affected),
    decreases rows_affected.len(),
{
    if k == rows_affected.len() {
        assert(rows_affected.take(k) =~= rows_affected);
    } else {
        assert(rows_affected.drop_last().take(k) =~= rows_affected.take(k));
        lemma_total_prefix(rows_affected.drop_last(), k);
    }
}

/// What the catalog holds of one table: the rows of the catalog query for
/// the table of that name.
#[derive(Clone, Debug)]
pub struct CatalogTable {
    pub name: String,
    pub columns: Vec<ColumnsQuery>,
}

/// The rows that a catalog holds for a table: those of the first entry of
/// that name, and none where there is no such entry.
pub open spec fn catalog_rows(catalog: Seq<CatalogTable>, table: Seq<char>) -> Seq<CatalogRow> {
    match catalog.map_values(|entry: CatalogTable| entry.name@).index_of_first(table) {
        Some(i) => row_views(catalog[i].columns@),
        None => Seq::empty(),
    }
}

/// The change set for a declared table, given the rows that the catalog
/// holds for it, or the error of reading them.
pub open spec fn table_statements(table: Table, rows: Seq<CatalogRow>) -> Result<
    Seq<Statement>,
    ErrorValue,
> {
    match live_table(table.name, rows) {
        Ok(live) => Ok(statements(table, live)),
        Err(e) => Err(e),
    }
}

/// The tables that the models declare: each role `DatabaseTable`, in the
/// order of the models and of their roles, with its model.
pub open spec fn declared_tables(models: Seq<Model>) -> Seq<(Model, DatabaseSchema)>
    decreases models.len(),
{
    if models.len() == 0 {
        Seq::empty()
    } else {
        declared_tables(models.drop_last()) + role_tables(
            models.last(),
            models.last().roles@,
            false,
        )
    }
}

/// The tables that the models hold columns of: each role `DatabaseSubTable`,
/// in the order of the models and of their roles, with its model.
pub open spec fn declared_sub_tables(models: Seq<Model>) -> Seq<(Model, DatabaseSchema)>
    decreases models.len(),
{
    if models.len() == 0 {
        Seq::empty()
    } else {
        declared_sub_tables(models.drop_last()) + role_tables(
            models.last(),
            models.last().roles@,
            true,
        )
    }
}

/// The tables among the roles of a model: those of `DatabaseSubTable` where
/// `sub` is set, those of `DatabaseTable` where it is not.
pub open spec fn role_tables(model: Model, roles: Seq<Role>, sub: bool) -> Seq<
    (Model, DatabaseSchema),
>
    decreases roles.len(),
{
    if roles.len() == 0 {
        Seq::empty()
    } else {
        role_tables(model, roles.drop_last(), sub) + (match roles.last() {
            Role::DatabaseTable(table) => if sub {
                Seq::empty()
            } else {
                seq![(model, table)]
            },
            Role::DatabaseSubTable(table) => if sub {
                seq![(model, table)]
            } else {
                Seq::empty()
            },
            Role::ProtobufMessage(_) => Seq::empty(),
        })
    }
}

/// The SQL for a list of tables, before it is trimmed: the script of each
/// table and a line break after it, in order; or the first error.
pub open spec fn batch(tables: Seq<(Model, DatabaseSchema)>, catalog: Seq<CatalogTable>) -> Result<
    Seq<char>,
    ErrorValue,
>
    decreases tables.len(),
{
    if tables.len() == 0 {
        Ok(Seq::empty())
    } else {
        match batch(tables.drop_last(), catalog) {
            Ok(sql) => {
                let table = tables.last().1@;
                match table_statements(table, catalog_rows(catalog, table.name)) {
                    Ok(statements) => Ok(sql + script(statements) + "\n"@),
                    Err(e) => Err(e),
                }
            },
            Err(e) => Err(e),
        }
    }
}

/// The SQL that brings the database into line with the models: the batch of
/// the declared tables without the white space at its ends; or the first
/// error.
pub open spec fn compiled(models: Seq<Model>, catalog: Seq<CatalogTable>) -> Result<
    Seq<char>,
    ErrorValue,
> {
    match batch(declared_tables(models), catalog) {
        Ok(sql) => Ok(trimmed(sql)),
        Err(e) => Err(e),
    }
}

/// The pairs of a list of references, as values.
pub open spec fn pairs(tables: Seq<(&Model, &DatabaseSchema)>) -> Seq<(Model, DatabaseSchema)> {
    tables.map_values(|p: (&Model, &DatabaseSchema)| (*p.0, *p.1))
}

/// The tables among the roles of the models, each with its model.
fn tables_of(models: &Vec<Model>, sub: bool) -> (tables: Vec<(&Model, &DatabaseSchema)>)
    ensures
        !sub ==> pairs(tables@) == declared_tables(models@),
        sub ==> pairs(tables@) == declared_sub_tables(models@),
{
    let mut tables: Vec<(&Model, &DatabaseSchema)> = Vec::new();
    let n = models.len();
    let mut i: usize = 0;
    assert(pairs(tables@) =~= Seq::empty());
    while i < n
        invariant
            i <= n,
            n == models.len(),
            !sub ==> pairs(tables@) == declared_tables(models@.take(i as int)),
            sub ==> pairs(tables@) == declared_sub_tables(models@.take(i as int)),
        decreases n - i,
    {
        let model = &models[i];
        let ghost before = pairs(tables@);
        let m = model.roles.len();
        let mut j: usize = 0;
        while j < m
            invariant
                j <= m,
                m == model.roles.len(),
                pairs(tables@) == before + role_tables(*model, model.roles@.take(j as int), sub),
            decreases m - j,
        {
            let ghost old_tables = tables@;
            proof {
                assert(model.roles@.take(j + 1).drop_last() =~= model.roles@.take(j as int));
            }
            match &model.roles[j] {
                Role::DatabaseTable(table) => {
                    if !sub {
                        tables.push((model, table));
                        assert(pairs(tables@) =~= pairs(old_tables).push((*model, *table)));
                    }
                },
                Role::DatabaseSubTable(table) => {
                    if sub {
                        tables.push((model, table));
                        assert(pairs(tables@) =~= pairs(old_tables).push((*model, *table)));
                    }
                },
                Role::ProtobufMessage(_) => {},
            }
            j = j + 1;
            assert(pairs(tables@) =~= before + role_tables(
                *model,
                model.roles@.take(j as int),
                sub,
            ));
        }
        proof {
            assert(model.roles@.take(m as int) =~= model.roles@);
            assert(models@.take(i + 1).drop_last() =~= models@.take(i as int));
        }
        i = i + 1;
    }
    assert(models@.take(n as int) =~= models@);
    tables
}

/// The rows that a catalog holds for a table.
fn rows_of<'a>(catalog: &'a [CatalogTable], table: &String) -> (rows: &'a [ColumnsQuery])
    ensures
        row_views(rows@) == catalog_rows(catalog@, table@),
{
    let ghost names = catalog@.map_values(|entry: CatalogTable| entry.name@);
    let n = catalog.len();
    let mut i: usize = 0;
    while i < n
        invariant
            i <= n,
            n == catalog.len(),
            names == catalog@.map_values(|entry: CatalogTable| entry.name@),
            forall|j: int| 0 <= j < i ==> names[j] != table@,
        decreases n - i,
    {
        if catalog[i].name == *table {
            proof {
                names.index_of_first_ensures(table@);
                assert(names[i as int] == table@);
                assert(names.contains(table@));
            }
            return catalog[i].columns.as_slice();
        }
        i = i + 1;
    }
    proof {
        names.index_of_first_ensures(table@);
    }
    let none: &'a [ColumnsQuery] = &[];
    assert(row_views(none@) =~= Seq::empty());
    none
}

/// Compiles declared tables to the SQL that creates them or brings the live
/// tables into line with them.
pub struct DatabaseCompiler {
    pub models: Vec<Model>,
}

impl DatabaseCompiler {
    /// A compiler for these models.
    pub fn new(models: Vec<Model>) -> (compiler: DatabaseCompiler)
        ensures
            compiler.models == models,
    {
        DatabaseCompiler { models }
    }

    /// The definition of a column.
    pub fn write_column_sql(&self, column: &DatabaseColumn) -> (sql: String)
        ensures
            sql@ == column_sql(column@),
    {
        column_definition(column)
    }

    /// The statement that creates a table. It ends with `);`.
    pub fn write_table_create_sql(&self, table: &DatabaseSchema) -> (sql: String)
        ensures
            sql@ == create_table_sql(table@),
            sql@ == lines(statements(table@, None)),
    {
        create_table(table)
    }

    /// The statements that bring a live table into line with the declared
    /// one, one to a line and with no line break at the end. The text is
    /// empty where nothing differs.
    pub fn write_sync_sql(&self, table: &DatabaseSchema, db_columns: &[DatabaseColumn]) -> (sql:
        String)
        ensures
            sql@ == lines(sync_statements(table@, column_views(db_columns@))),
            sql@ == lines(statements(table@, Some(column_views(db_columns@)))),
    {
        sync_table(table, db_columns)
    }

    /// The tables that the models declare, each with its model.
    pub fn database_tables(&self) -> (tables: Vec<(&Model, &DatabaseSchema)>)
        ensures
            pairs(tables@) == declared_tables(self.models@),
    {
        tables_of(&self.models, false)
    }

    /// The tables that the models hold columns of, each with its model.
    pub fn database_sub_tables(&self) -> (tables: Vec<(&Model, &DatabaseSchema)>)
        ensures
            pairs(tables@) == declared_sub_tables(self.models@),
    {
        tables_of(&self.models, true)
    }

    /// What the catalog says of a table, from the rows of the catalog query
    /// for it: the table is absent where there is no row; else its columns,
    /// or the error of the first column whose type is not supported.
    pub fn live_table(&self, table: &DatabaseSchema, raw_columns: &[ColumnsQuery]) -> (r: Result<
        Option<Vec<DatabaseColumn>>,
        Error,
    >)
        ensures
            match live_table(table@.name, row_views(raw_columns@)) {
                Ok(None) => r matches Ok(None),
                Ok(Some(live)) => r matches Ok(Some(columns)) && column_views(columns@) == live,
                Err(e) => r matches Err(error) && error@ == e,
            },
    {
        let n = raw_columns.len();
        if n == 0 {
            return Ok(None);
        }
        let ghost rows = row_views(raw_columns@);
        let ghost flags = rows.map_values(|r: CatalogRow| r.supported());
        let mut columns: Vec<DatabaseColumn> = Vec::new();
        let mut i: usize = 0;
        assert(column_views(columns@) =~= live_columns(rows.take(0)));
        while i < n
            invariant
                i <= n,
                n == raw_columns.len(),
                rows == row_views(raw_columns@),
                flags == rows.map_values(|r: CatalogRow| r.supported()),
                forall|j: int| 0 <= j < i ==> flags[j],
                column_views(columns@) == live_columns(rows.take(i as int)),
            decreases n - i,
        {
            let ghost before = columns@;
            match raw_columns[i].column() {
                Some(column) => {
                    columns.push(column);
                    proof {
                        assert(rows[i as int] == raw_columns@[i as int]@);
                        lemma_column_views_push(before, column);
                        lemma_live_columns_take(rows, i as int);
                    }
                },
                None => {
                    proof {
                        flags.index_of_first_ensures(false);
                        assert(flags[i as int] == false);
                        assert(flags.contains(false));
                    }
                    return Err(
                        Error::UnsupportedType(
                            table.table_name.clone(),
                            raw_columns[i].column_name.clone(),
                        ),
                    );
                },
            }
            i = i + 1;
        }
        proof {
            flags.index_of_first_ensures(false);
            assert(rows.take(n as int) =~= rows);
        }
        Ok(Some(columns))
    }

    /// The SQL for one table, from the rows of the catalog query for it: the
    /// statements that create the table or bring it into line, one to a
    /// line and with no line break at the end.
    pub fn table_sql(&self, table: &DatabaseSchema, raw_columns: &[ColumnsQuery]) -> (r: Result<
        String,
        Error,
    >)
        ensures
            match table_statements(table@, row_views(raw_columns@)) {
                Ok(statements) => r matches Ok(sql) && sql@ == lines(statements),
                Err(e) => r matches Err(error) && error@ == e,
            },
    {
        match self.live_table(table, raw_columns) {
            Ok(Some(db_columns)) => Ok(self.write_sync_sql(table, db_columns.as_slice())),
            Ok(None) => Ok(self.write_table_create_sql(table)),
            Err(e) => Err(e),
        }
    }

    /// The SQL that brings the database into line with the models, from
    /// what the catalog holds of each declared table. The tables are taken
    /// in declared order, each followed by an empty line; the result has no
    /// white space at its ends. A column of an unsupported type fails the
    /// whole run.
    pub fn compile(&self, catalog: &[CatalogTable]) -> (r: Result<String, Error>)
        ensures
            match compiled(self.models@, catalog@) {
                Ok(text) => r matches Ok(sql) && sql@ == text,
                Err(e) => r matches Err(error) && error@ == e,
            },
    {
        let ghost declared = declared_tables(self.models@);
        let mut progress = self.start();
        assert(declared.take(0) =~= Seq::empty());
        loop
            invariant
                declared == declared_tables(self.models@),
                progress.done <= declared.len(),
                batch(declared.take(progress.done as int), catalog@) == Ok::<Seq<char>, ErrorValue>(
                    progress.sql@,
                ),
            decreases declared.len() - progress.done,
        {
            let table = match self.pending(&progress) {
                Some(table) => table,
                None => {
                    assert(declared.take(progress.done as int) =~= declared);
                    return Ok(self.finish(progress));
                },
            };
            proof {
                let next = declared.take(progress.done + 1);
                assert(next.drop_last() =~= declared.take(progress.done as int));
                assert(next.last().1 == *table);
            }
            let rows = rows_of(catalog, &table.table_name);
            match self.fetched(&mut progress, rows) {
                Ok(()) => {},
                Err(e) => {
                    proof {
                        lemma_batch_error(declared, catalog@, progress.done + 1);
                    }
                    return Err(e);
                },
            }
        }
    }
}

/// The value that stands in for a field of a sub-table when it is left
/// out: the default of the column of its name, for an optional field whose
/// column has a default that is no `Raw` expression.
pub open spec fn fallback(table: Table, field: Seq<char>, ty: Seq<char>) -> Option<DefaultValue> {
    if option_prefix(ty) is Some {
        match find_column(table.columns, field) {
            Some(column) => match column.default {
                Some(DefaultValue::Raw(_)) => None,
                other => other,
            },
            None => None,
        }
    } else {
        None
    }
}

impl DatabaseCompiler {
    /// The value that stands in for a field of a sub-table when it is left
    /// out. An optional field has a column of its name in the table.
    pub fn field_fallback<'a>(&self, table: &'a DatabaseSchema, field: &RustField) -> (r: Option<
        &'a DatabaseDefault,
    >)
        requires
            option_prefix(field.ty@) is Some ==> has_column(table@.columns, field.name@),
        ensures
            match fallback(table@, field.name@, field.ty@) {
                Some(value) => r matches Some(default) && default@ == value,
                None => r is None,
            },
    {
        if !is_ty_option(field.ty.as_str()) {
            return None;
        }
        match position(table.columns.as_slice(), &field.name) {
            Some(k) => {
                match &table.columns[k].default {
                    Some(DatabaseDefault::Raw(_)) => None,
                    Some(default) => Some(default),
                    None => None,
                }
            },
            None => None,
        }
    }
}

/// How far a run over the declared tables has come: the number of tables
/// that are done, and the SQL so far.
///
/// A run reads the catalog between its steps. It starts with
/// [`DatabaseCompiler::start`]; while [`DatabaseCompiler::pending`] names a
/// table, the caller reads the catalog for that table and hands the rows
/// to [`DatabaseCompiler::fetched`]; [`DatabaseCompiler::finish`] gives the
/// SQL.
#[derive(Debug)]
pub struct Progress {
    pub done: usize,
    pub sql: String,
}

impl DatabaseCompiler {
    /// The start of a run: no table done, no SQL.
    pub fn start(&self) -> (progress: Progress)
        ensures
            progress.done == 0,
            progress.sql@ == Seq::<char>::empty(),
    {
        Progress { done: 0, sql: String::new() }
    }

    /// The table whose rows the run needs next, in declared order; `None`
    /// when every declared table is done.
    pub fn pending(&self, progress: &Progress) -> (table: Option<&DatabaseSchema>)
        ensures
            match table {
                Some(t) => progress.done < declared_tables(self.models@).len() && *t
                    == declared_tables(self.models@)[progress.done as int].1,
                None => progress.done >= declared_tables(self.models@).len(),
            },
    {
        let tables = self.database_tables();
        assert(pairs(tables@).len() == tables@.len());
        if progress.done < tables.len() {
            let table = tables[progress.done].1;
            assert(pairs(tables@)[progress.done as int].1 == *table);
            Some(table)
        } else {
            None
        }
    }

    /// Takes the rows that the catalog holds for the pending table. The
    /// statements for the table are added, each followed by a line break,
    /// and an empty line after them, and the table is done; or the rows
    /// hold a column of an unsupported type, and the run has failed: the
    /// progress stays as it was.
    pub fn fetched(&self, progress: &mut Progress, raw_columns: &[ColumnsQuery]) -> (r: Result<
        (),
        Error,
    >)
        requires
            old(progress).done < declared_tables(self.models@).len(),
        ensures
            match table_statements(
                declared_tables(self.models@)[old(progress).done as int].1@,
                row_views(raw_columns@),
            ) {
                Ok(statements) => r is Ok && final(progress).done == old(progress).done + 1
                    && final(progress).sql@ == old(progress).sql@ + script(statements) + "\n"@,
                Err(e) => r matches Err(error) && error@ == e && *final(progress) == *old(
                    progress,
                ),
            },
    {
        let tables = self.database_tables();
        assert(pairs(tables@).len() == tables@.len());
        let table = tables[progress.done].1;
        assert(pairs(tables@)[progress.done as int].1 == *table);
        let n = tables.len();
        match self.table_sql(table, raw_columns) {
            Ok(text) => {
                assert(progress.done < n);
                proof {
                    let change = table_statements(table@, row_views(raw_columns@))->Ok_0;
                    lemma_script_lines(change);
                    if change.len() > 0 {
                        lemma_lines_tight(change);
                    }
                }
                if !text.as_str().is_empty() {
                    progress.sql.append(text.as_str());
                    progress.sql.append("\n");
                }
                progress.sql.append("\n");
                progress.done = progress.done + 1;
                assert(progress.sql@ =~= old(progress).sql@ + script(
                    table_statements(table@, row_views(raw_columns@))->Ok_0,
                ) + "\n"@);
                Ok(())
            },
            Err(e) => Err(e),
        }
    }

    /// The SQL of a run: what the steps have added, without the white space
    /// at its ends.
    pub fn finish(&self, progress: Progress) -> (sql: String)
        ensures
            sql@ == trimmed(progress.sql@),
    {
        String::from_str(trim(progress.sql.as_str()))
    }
}

/// An error in the batch of a prefix of the tables is the error of the
/// batch of them all.
pub proof fn lemma_batch_error(
    tables: Seq<(Model, DatabaseSchema)>,
    catalog: Seq<CatalogTable>,
    k: int,
)
    requires
        0 <= k <= tables.len(),
        batch(tables.take(k), catalog) is Err,
    ensures
        batch(tables, catalog) == batch(tables.take(k), catalog),
    decreases tables.len(),
{
    if k == tables.len() {
        assert(tables.take(k) =~= tables);
    } else {
        assert(tables.drop_last().take(k) =~= tables.take(k));
        lemma_batch_error(tables.drop_last(), catalog, k);
    }
}

/// The change set of the table at position `i`, by what the catalog holds
/// of it.
pub open spec fn change(tables: Seq<(Model, DatabaseSchema)>, catalog: Seq<CatalogTable>, i: int)
    -> Result<Seq<Statement>, ErrorValue> {
    table_statements(tables[i].1@, catalog_rows(catalog, tables[i].1@.name))
}

/// The statements of the first `n` tables, one to a line, with one empty
/// line between the statements of each two tables.
pub open spec fn blocks(tables: Seq<(Model, DatabaseSchema)>, catalog: Seq<CatalogTable>, n: nat)
    -> Seq<char>
    decreases n,
{
    if n == 0 {
        Seq::empty()
    } else if n == 1 {
        lines(change(tables, catalog, 0)->Ok_0)
    } else {
        blocks(tables, catalog, (n - 1) as nat) + "\n\n"@ + lines(
            change(tables, catalog, n - 1)->Ok_0,
        )
    }
}

/// Where each of the first `k` tables has statements, their batch is their
/// blocks and an empty line, and the blocks begin and end with no white
/// space.
pub proof fn lemma_batch_blocks(
    tables: Seq<(Model, DatabaseSchema)>,
    catalog: Seq<CatalogTable>,
    k: nat,
)
    requires
        1 <= k <= tables.len(),
        forall|i: int|
            0 <= i < k ==> (#[trigger] change(tables, catalog, i) matches Ok(s) && s.len() > 0),
    ensures
        batch(tables.take(k as int), catalog) == Ok::<Seq<char>, ErrorValue>(
            blocks(tables, catalog, k) + "\n"@ + "\n"@,
        ),
        tight(blocks(tables, catalog, k)),
    decreases k,
{
    reveal_strlit("\n");
    reveal_strlit("\n\n");
    let front = tables.take(k as int);
    assert(front.drop_last() =~= tables.take(k - 1));
    assert(front.last() == tables[k - 1]);
    let last = change(tables, catalog, k - 1)->Ok_0;
    assert(change(tables, catalog, k - 1) is Ok);
    lemma_script_lines(last);
    lemma_lines_tight(last);
    if k == 1 {
        assert(tables.take(0) =~= Seq::empty());
        assert(batch(front, catalog)->Ok_0 =~= blocks(tables, catalog, k) + "\n"@ + "\n"@);
    } else {
        lemma_batch_blocks(tables, catalog, (k - 1) as nat);
        let before = blocks(tables, catalog, (k - 1) as nat);
        assert("\n\n"@ =~= "\n"@ + "\n"@);
        assert(batch(front, catalog)->Ok_0 =~= blocks(tables, catalog, k) + "\n"@ + "\n"@);
        assert((before + "\n\n"@ + lines(last)).first() == before.first());
        assert((before + "\n\n"@ + lines(last)).last() == lines(last).last());
    }
}

/// Where every declared table has statements, the compiled SQL is the
/// statements of the tables in declared order, one to a line, with exactly
/// one empty line between the statements of each two tables.
pub proof fn changes_are_separated_by_one_empty_line(
    models: Seq<Model>,
    catalog: Seq<CatalogTable>,
)
    requires
        forall|i: int|
            0 <= i < declared_tables(models).len() ==> (#[trigger] change(
                declared_tables(models),
                catalog,
                i,
            ) matches Ok(s) && s.len() > 0),
    ensures
        compiled(models, catalog) == Ok::<Seq<char>, ErrorValue>(
            blocks(declared_tables(models), catalog, declared_tables(models).len()),
        ),
{
    let tables = declared_tables(models);
    if tables.len() == 0 {
        lemma_trimmed_blank(Seq::<char>::empty());
    } else {
        reveal_strlit("\n");
        lemma_batch_blocks(tables, catalog, tables.len());
        assert(tables.take(tables.len() as int) =~= tables);
        let text = blocks(tables, catalog, tables.len());
        let tail = "\n"@ + "\n"@;
        assert(Seq::<char>::empty() + text + tail =~= text + "\n"@ + "\n"@);
        lemma_trimmed_tight(Seq::<char>::empty(), text, tail);
    }
}

/// One declared table that is absent from the database compiles to exactly
/// one statement, the `CREATE TABLE` of the table, with every declared
/// column in declared order.
pub proof fn absent_table_compiles_to_create_table(models: Seq<Model>, catalog: Seq<CatalogTable>)
    requires
        declared_tables(models).len() == 1,
        catalog_rows(catalog, declared_tables(models)[0].1@.name).len() == 0,
    ensures
        compiled(models, catalog) == Ok::<Seq<char>, ErrorValue>(
            create_table_sql(declared_tables(models)[0].1@),
        ),
{
    let tables = declared_tables(models);
    let table = tables[0].1@;
    assert(change(tables, catalog, 0) == Ok::<Seq<Statement>, ErrorValue>(
        seq![Statement::CreateTable { schema: table }],
    ));
    changes_are_separated_by_one_empty_line(models, catalog);
}

/// Where no one of the first `k` tables has a statement, their batch is
/// white space.
pub proof fn lemma_batch_blank(
    tables: Seq<(Model, DatabaseSchema)>,
    catalog: Seq<CatalogTable>,
    k: nat,
)
    requires
        k <= tables.len(),
        forall|i: int|
            0 <= i < k ==> #[trigger] change(tables, catalog, i) == Ok::<
                Seq<Statement>,
                ErrorValue,
            >(Seq::empty()),
    ensures
        batch(tables.take(k as int), catalog) matches Ok(text) && blank(text),
    decreases k,
{
    reveal_strlit("\n");
    if k == 0 {
        assert(tables.take(0) =~= Seq::empty());
    } else {
        let front = tables.take(k as int);
        assert(front.drop_last() =~= tables.take(k - 1));
        assert(front.last() == tables[k - 1]);
        assert(change(tables, catalog, k - 1) is Ok);
        lemma_batch_blank(tables, catalog, (k - 1) as nat);
    }
}

/// A database in which every declared table is in line compiles to the
/// empty text.
pub proof fn database_in_line_compiles_to_nothing(models: Seq<Model>, catalog: Seq<CatalogTable>)
    requires
        forall|i: int|
            0 <= i < declared_tables(models).len() ==> #[trigger] change(
                declared_tables(models),
                catalog,
                i,
            ) == Ok::<Seq<Statement>, ErrorValue>(Seq::empty()),
    ensures
        compiled(models, catalog) == Ok::<Seq<char>, ErrorValue>(Seq::empty()),
{
    let tables = declared_tables(models);
    lemma_batch_blank(tables, catalog, tables.len());
    assert(tables.take(tables.len() as int) =~= tables);
    lemma_trimmed_blank(batch(tables, catalog)->Ok_0);
}

/// The SQL that changes a table from its live columns to the declared one:
/// one `CREATE TABLE` where the table is absent, else the statements for
/// the declared columns in declared order and then the drops of the live
/// columns that are not declared, one statement to a line. The text ends
/// without a line break and is empty where nothing differs.
pub fn diff(declared: &DatabaseSchema, live: Option<&[DatabaseColumn]>) -> (sql: String)
    ensures
        sql@ == lines(statements(declared@, live_views(live))),
        live is None ==> sql@ == create_table_sql(declared@),
{
    match live {
        Some(db_columns) => sync_table(declared, db_columns),
        None => create_table(declared),
    }
}

/// The values of the live columns of a table, where it is live.
pub open spec fn live_views(live: Option<&[DatabaseColumn]>) -> Option<Seq<Column>> {
    match live {
        Some(columns) => Some(column_views(columns@)),
        None => None,
    }
}

} // verus!
