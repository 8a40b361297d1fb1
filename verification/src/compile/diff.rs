//! The comparison of a declared table with the columns of a live one: which
//! statements bring the live table into line, and what holds of them.
//!
//! Columns are matched by name. The order of the declared columns decides
//! the order of the statements; the order of the live columns decides only
//! the order in which columns are dropped.

use crate::compile::statement::{column_lines, create_table_sql, lines, script, Statement};
use crate::database::{same_default, Column, DefaultValue, Table};
use crate::unicode::lowercase;
use vstd::prelude::*;

verus! {

/// The names of a list of columns, in order.
pub open spec fn column_names(columns: Seq<Column>) -> Seq<Seq<char>> {
    columns.map_values(|c: Column| c.name)
}

/// Whether a column of that name is in the list.
pub open spec fn has_column(columns: Seq<Column>, name: Seq<char>) -> bool {
    column_names(columns).contains(name)
}

/// The first column of that name in the list.
pub open spec fn find_column(columns: Seq<Column>, name: Seq<char>) -> Option<Column> {
    match column_names(columns).index_of_first(name) {
        Some(i) => Some(columns[i]),
        None => None,
    }
}

/// No two columns of the list have one name.
pub open spec fn distinct_names(columns: Seq<Column>) -> bool {
    forall|i: int, j: int|
        0 <= i < j < columns.len() ==> (#[trigger] columns[i]).name != (#[trigger] columns[j]).name
}

/// The change of type: a cast of the column to the declared type.
pub open spec fn type_change(table: Seq<char>, want: Column, have: Column) -> Seq<Statement> {
    if want.ty != have.ty {
        seq![Statement::AlterType { table, column: want.name, ty: want.ty }]
    } else {
        Seq::empty()
    }
}

/// The change of nullability.
pub open spec fn nullable_change(table: Seq<char>, want: Column, have: Column) -> Seq<Statement> {
    if want.nullable != have.nullable {
        if have.nullable {
            seq![Statement::SetNotNull { table, column: want.name }]
        } else {
            seq![Statement::DropNotNull { table, column: want.name }]
        }
    } else {
        Seq::empty()
    }
}

/// The change of default: the declared one is set, or the live one dropped.
pub open spec fn default_change(table: Seq<char>, want: Column, have: Column) -> Seq<Statement> {
    if !same_default(want.default, have.default) {
        match want.default {
            Some(default) => seq![Statement::SetDefault { table, column: want.name, default }],
            None => seq![Statement::DropDefault { table, column: want.name }],
        }
    } else {
        Seq::empty()
    }
}

/// The change of uniqueness.
pub open spec fn unique_change(table: Seq<char>, want: Column, have: Column) -> Seq<Statement> {
    if want.unique != have.unique {
        if have.unique {
            seq![Statement::DropUnique { table, column: want.name }]
        } else {
            seq![Statement::AddUnique { table, column: want.name }]
        }
    } else {
        Seq::empty()
    }
}

/// The change of foreign key: a live key that differs is dropped before the
/// declared one is added.
pub open spec fn references_change(table: Seq<char>, want: Column, have: Column) -> Seq<
    Statement,
> {
    if want.references != have.references {
        match want.references {
            Some((references_table, references_column)) => {
                let add = Statement::AddForeignKey {
                    table,
                    column: want.name,
                    references_table,
                    references_column,
                };
                if have.references is Some {
                    seq![Statement::DropForeignKey { table, column: want.name }, add]
                } else {
                    seq![add]
                }
            },
            None => seq![Statement::DropForeignKey { table, column: want.name }],
        }
    } else {
        Seq::empty()
    }
}

/// The changes to a column that is declared and live: type, nullability,
/// default, uniqueness, foreign key, each decided by itself. The check
/// constraint and the primary key are not compared.
pub open spec fn column_changes(table: Seq<char>, want: Column, have: Column) -> Seq<Statement> {
    type_change(table, want, have) + nullable_change(table, want, have) + default_change(
        table,
        want,
        have,
    ) + unique_change(table, want, have) + references_change(table, want, have)
}

/// The statements for one declared column: it is added where no live column
/// has its name, and changed to what is declared where one has.
pub open spec fn column_statements(table: Seq<char>, want: Column, live: Seq<Column>) -> Seq<
    Statement,
> {
    match find_column(live, want.name) {
        Some(have) => column_changes(table, want, have),
        None => seq![Statement::AddColumn { table, definition: want }],
    }
}

/// The statements for the declared columns, in declared order.
pub open spec fn declared_statements(
    table: Seq<char>,
    declared: Seq<Column>,
    live: Seq<Column>,
) -> Seq<Statement>
    decreases declared.len(),
{
    if declared.len() == 0 {
        Seq::empty()
    } else {
        declared_statements(table, declared.drop_last(), live) + column_statements(
            table,
            declared.last(),
            live,
        )
    }
}

/// The statement for one live column: it is dropped where no declared
/// column has its name.
pub open spec fn drop_statement(table: Seq<char>, declared: Seq<Column>, have: Column) -> Seq<
    Statement,
> {
    if has_column(declared, have.name) {
        Seq::empty()
    } else {
        seq![Statement::DropColumn { table, column: have.name }]
    }
}

/// The statements that drop the live columns that are not declared, in the
/// order of the live columns.
pub open spec fn dropped_statements(
    table: Seq<char>,
    declared: Seq<Column>,
    live: Seq<Column>,
) -> Seq<Statement>
    decreases live.len(),
{
    if live.len() == 0 {
        Seq::empty()
    } else {
        dropped_statements(table, declared, live.drop_last()) + drop_statement(
            table,
            declared,
            live.last(),
        )
    }
}

/// The statements that bring a live table into line with the declared one:
/// first those for the declared columns, then the drops.
pub open spec fn sync_statements(table: Table, live: Seq<Column>) -> Seq<Statement> {
    declared_statements(table.name, table.columns, live) + dropped_statements(
        table.name,
        table.columns,
        live,
    )
}

/// The change set for a declared table: one `CREATE TABLE` where the table
/// is absent, the statements of [`sync_statements`] where it is live.
pub open spec fn statements(table: Table, live: Option<Seq<Column>>) -> Seq<Statement> {
    match live {
        None => seq![Statement::CreateTable { schema: table }],
        Some(columns) => sync_statements(table, columns),
    }
}

/// Where position `i` holds the first column of that name, `find_column`
/// finds it.
pub proof fn lemma_find_column(columns: Seq<Column>, name: Seq<char>, i: int)
    requires
        0 <= i < columns.len(),
        columns[i].name == name,
        forall|j: int| 0 <= j < i ==> columns[j].name != name,
    ensures
        find_column(columns, name) == Some(columns[i]),
        has_column(columns, name),
{
    let names = column_names(columns);
    names.index_of_first_ensures(name);
    assert(names[i] == name);
    assert(names.contains(name));
    let k = names.index_of_first(name).unwrap();
    assert(names[k] == name);
    if k < i {
        assert(columns[k].name != name);
    }
    if i < k {
        assert(names[i] != name);
    }
}

/// Where no position holds a column of that name, `find_column` finds none.
pub proof fn lemma_no_column(columns: Seq<Column>, name: Seq<char>)
    requires
        forall|j: int| 0 <= j < columns.len() ==> columns[j].name != name,
    ensures
        find_column(columns, name) is None,
        !has_column(columns, name),
{
    let names = column_names(columns);
    names.index_of_first_ensures(name);
    if names.contains(name) {
        let j = choose|j: int| 0 <= j < names.len() && names[j] == name;
        assert(columns[j].name == name);
    }
}

/// Whether the declared and the live column agree in every attribute that
/// is compared: type, nullability, default, uniqueness and foreign key.
/// Defaults agree as [`same_default`] has it, so two `Raw` expressions that
/// differ only in case agree.
pub open spec fn in_line(want: Column, have: Column) -> bool {
    &&& want.ty == have.ty
    &&& want.nullable == have.nullable
    &&& same_default(want.default, have.default)
    &&& want.unique == have.unique
    &&& want.references == have.references
}

/// Whether a statement adds a column of that name.
pub open spec fn adds_column(name: Seq<char>) -> spec_fn(Statement) -> bool {
    |s: Statement| s matches Statement::AddColumn { definition, .. } && definition.name == name
}

/// Whether a statement drops the column of that name.
pub open spec fn drops_column(name: Seq<char>) -> spec_fn(Statement) -> bool {
    |s: Statement| s matches Statement::DropColumn { column, .. } && column == name
}

/// How many of the statements are of that kind.
pub open spec fn count(statements: Seq<Statement>, kind: spec_fn(Statement) -> bool) -> nat {
    statements.filter(kind).len()
}

/// The count over two lists, one after the other, is the sum of the counts.
pub proof fn lemma_count_concat(
    a: Seq<Statement>,
    b: Seq<Statement>,
    kind: spec_fn(Statement) -> bool,
)
    ensures
        count(a + b, kind) == count(a, kind) + count(b, kind),
{
    Seq::filter_distributes_over_add(a, b, kind);
}

/// A list that holds no statement of a kind counts none of it.
pub proof fn lemma_count_none(statements: Seq<Statement>, kind: spec_fn(Statement) -> bool)
    requires
        forall|i: int| 0 <= i < statements.len() ==> !kind(#[trigger] statements[i]),
    ensures
        count(statements, kind) == 0,
    decreases statements.len(),
{
    reveal(Seq::filter);
    if statements.len() > 0 {
        lemma_count_none(statements.drop_last(), kind);
    }
}

/// One statement counts once where it is of the kind, else not at all.
pub proof fn lemma_count_one(s: Statement, kind: spec_fn(Statement) -> bool)
    ensures
        count(seq![s], kind) == if kind(s) {
            1nat
        } else {
            0nat
        },
{
    reveal_with_fuel(Seq::filter, 2);
    assert(seq![s].drop_last() =~= Seq::<Statement>::empty());
}

/// The changes to a column that is declared and live add no column and
/// drop none.
pub proof fn lemma_changes_keep_columns(
    table: Seq<char>,
    want: Column,
    have: Column,
    name: Seq<char>,
)
    ensures
        count(column_changes(table, want, have), adds_column(name)) == 0,
        count(column_changes(table, want, have), drops_column(name)) == 0,
{
    let a = type_change(table, want, have);
    let b = nullable_change(table, want, have);
    let c = default_change(table, want, have);
    let d = unique_change(table, want, have);
    let e = references_change(table, want, have);
    let add = adds_column(name);
    let drop = drops_column(name);
    lemma_count_none(a, add);
    lemma_count_none(b, add);
    lemma_count_none(c, add);
    lemma_count_none(d, add);
    lemma_count_none(e, add);
    lemma_count_concat(a, b, add);
    lemma_count_concat(a + b, c, add);
    lemma_count_concat(a + b + c, d, add);
    lemma_count_concat(a + b + c + d, e, add);
    lemma_count_none(a, drop);
    lemma_count_none(b, drop);
    lemma_count_none(c, drop);
    lemma_count_none(d, drop);
    lemma_count_none(e, drop);
    lemma_count_concat(a, b, drop);
    lemma_count_concat(a + b, c, drop);
    lemma_count_concat(a + b + c, d, drop);
    lemma_count_concat(a + b + c + d, e, drop);
}

/// What the statements for one declared column count: one added column of
/// its name where no live column has that name, and nothing else.
pub proof fn lemma_column_statements_count(
    table: Seq<char>,
    want: Column,
    live: Seq<Column>,
    name: Seq<char>,
)
    ensures
        count(column_statements(table, want, live), adds_column(name)) == if want.name == name
            && !has_column(live, name) {
            1nat
        } else {
            0nat
        },
        count(column_statements(table, want, live), drops_column(name)) == 0,
{
    lemma_find_column_has(live, want.name);
    match find_column(live, want.name) {
        Some(have) => {
            lemma_changes_keep_columns(table, want, have, name);
        },
        None => {
            let s = Statement::AddColumn { table, definition: want };
            lemma_count_one(s, adds_column(name));
            lemma_count_one(s, drops_column(name));
        },
    }
}

/// The statements for the declared columns drop no column, and add none of
/// a name that is not declared or is live.
pub proof fn lemma_declared_count(
    table: Seq<char>,
    declared: Seq<Column>,
    live: Seq<Column>,
    name: Seq<char>,
)
    ensures
        count(declared_statements(table, declared, live), drops_column(name)) == 0,
        !has_column(declared, name) || has_column(live, name) ==> count(
            declared_statements(table, declared, live),
            adds_column(name),
        ) == 0,
    decreases declared.len(),
{
    if declared.len() == 0 {
        lemma_count_none(Seq::<Statement>::empty(), adds_column(name));
        lemma_count_none(Seq::<Statement>::empty(), drops_column(name));
    } else {
        let rest = declared_statements(table, declared.drop_last(), live);
        let last = column_statements(table, declared.last(), live);
        lemma_declared_count(table, declared.drop_last(), live, name);
        lemma_column_statements_count(table, declared.last(), live, name);
        lemma_count_concat(rest, last, adds_column(name));
        lemma_count_concat(rest, last, drops_column(name));
        if !has_column(declared, name) {
            lemma_has_column_drop_last(declared, name);
        }
    }
}

/// A name that is in a list without its last column is in the list, and so
/// is the name of the last column.
pub proof fn lemma_has_column_drop_last(columns: Seq<Column>, name: Seq<char>)
    requires
        columns.len() > 0,
    ensures
        has_column(columns.drop_last(), name) ==> has_column(columns, name),
        has_column(columns, columns.last().name),
        has_column(columns, name) ==> has_column(columns.drop_last(), name) || columns.last().name
            == name,
{
    let names = column_names(columns);
    let front = column_names(columns.drop_last());
    if has_column(columns.drop_last(), name) {
        let j = choose|j: int| 0 <= j < front.len() && front[j] == name;
        assert(names[j] == name);
    }
    assert(names[columns.len() - 1] == columns.last().name);
    if has_column(columns, name) {
        let j = choose|j: int| 0 <= j < names.len() && names[j] == name;
        if j < columns.len() - 1 {
            assert(front[j] == name);
        }
    }
}

/// A column of a list is in the list by its name.
pub proof fn lemma_has_column_at(columns: Seq<Column>, i: int)
    requires
        0 <= i < columns.len(),
    ensures
        has_column(columns, columns[i].name),
{
    assert(column_names(columns)[i] == columns[i].name);
}

/// In a list of distinct names, the declared column at `i` is added once
/// where no live column has its name.
pub proof fn lemma_declared_adds_once(
    table: Seq<char>,
    declared: Seq<Column>,
    live: Seq<Column>,
    i: int,
)
    requires
        distinct_names(declared),
        0 <= i < declared.len(),
        !has_column(live, declared[i].name),
    ensures
        count(declared_statements(table, declared, live), adds_column(declared[i].name)) == 1,
    decreases declared.len(),
{
    let name = declared[i].name;
    let front = declared.drop_last();
    let rest = declared_statements(table, front, live);
    let last = column_statements(table, declared.last(), live);
    lemma_column_statements_count(table, declared.last(), live, name);
    lemma_count_concat(rest, last, adds_column(name));
    if i == declared.len() - 1 {
        assert forall|j: int| 0 <= j < front.len() implies front[j].name != name by {
            assert(front[j] == declared[j]);
        }
        lemma_no_column(front, name);
        lemma_declared_count(table, front, live, name);
    } else {
        assert(front[i] == declared[i]);
        assert(distinct_names(front)) by {
            assert forall|a: int, b: int| 0 <= a < b < front.len() implies (#[trigger] front[a]).name
                != (#[trigger] front[b]).name by {
                assert(front[a] == declared[a]);
                assert(front[b] == declared[b]);
            }
        }
        lemma_declared_adds_once(table, front, live, i);
    }
}

/// The drops add no column, and drop none of a name that is not live or is
/// declared.
pub proof fn lemma_dropped_count(
    table: Seq<char>,
    declared: Seq<Column>,
    live: Seq<Column>,
    name: Seq<char>,
)
    ensures
        count(dropped_statements(table, declared, live), adds_column(name)) == 0,
        !has_column(live, name) || has_column(declared, name) ==> count(
            dropped_statements(table, declared, live),
            drops_column(name),
        ) == 0,
    decreases live.len(),
{
    if live.len() == 0 {
        lemma_count_none(Seq::<Statement>::empty(), adds_column(name));
        lemma_count_none(Seq::<Statement>::empty(), drops_column(name));
    } else {
        let rest = dropped_statements(table, declared, live.drop_last());
        let last = drop_statement(table, declared, live.last());
        lemma_dropped_count(table, declared, live.drop_last(), name);
        lemma_count_none(last, adds_column(name));
        lemma_drop_statement_count(table, declared, live.last(), name);
        lemma_count_concat(rest, last, adds_column(name));
        lemma_count_concat(rest, last, drops_column(name));
        if !has_column(live, name) {
            lemma_has_column_drop_last(live, name);
        }
    }
}

/// What the statement for one live column counts: one dropped column of its
/// name where no declared column has that name.
pub proof fn lemma_drop_statement_count(
    table: Seq<char>,
    declared: Seq<Column>,
    have: Column,
    name: Seq<char>,
)
    ensures
        count(drop_statement(table, declared, have), drops_column(name)) == if have.name == name
            && !has_column(declared, name) {
            1nat
        } else {
            0nat
        },
{
    if has_column(declared, have.name) {
        lemma_count_none(Seq::<Statement>::empty(), drops_column(name));
    } else {
        lemma_count_one(
            Statement::DropColumn { table, column: have.name },
            drops_column(name),
        );
    }
}

/// In a list of distinct names, the live column at `j` is dropped once
/// where no declared column has its name.
pub proof fn lemma_live_drops_once(
    table: Seq<char>,
    declared: Seq<Column>,
    live: Seq<Column>,
    j: int,
)
    requires
        distinct_names(live),
        0 <= j < live.len(),
        !has_column(declared, live[j].name),
    ensures
        count(dropped_statements(table, declared, live), drops_column(live[j].name)) == 1,
    decreases live.len(),
{
    let name = live[j].name;
    let front = live.drop_last();
    let rest = dropped_statements(table, declared, front);
    let last = drop_statement(table, declared, live.last());
    lemma_drop_statement_count(table, declared, live.last(), name);
    lemma_count_concat(rest, last, drops_column(name));
    if j == live.len() - 1 {
        assert forall|k: int| 0 <= k < front.len() implies front[k].name != name by {
            assert(front[k] == live[k]);
        }
        lemma_no_column(front, name);
        lemma_dropped_count(table, declared, front, name);
    } else {
        assert(front[j] == live[j]);
        assert(distinct_names(front)) by {
            assert forall|a: int, b: int| 0 <= a < b < front.len() implies (#[trigger] front[a]).name
                != (#[trigger] front[b]).name by {
                assert(front[a] == live[a]);
                assert(front[b] == live[b]);
            }
        }
        lemma_live_drops_once(table, declared, front, j);
    }
}

/// A declared column that is absent from the live table yields exactly one
/// `ADD COLUMN` of its name, and no `DROP COLUMN` of it. The names of the
/// declared columns are distinct.
pub proof fn absent_column_is_added_once(table: Table, live: Seq<Column>, i: int)
    requires
        distinct_names(table.columns),
        0 <= i < table.columns.len(),
        !has_column(live, table.columns[i].name),
    ensures
        count(sync_statements(table, live), adds_column(table.columns[i].name)) == 1,
        count(sync_statements(table, live), drops_column(table.columns[i].name)) == 0,
{
    let name = table.columns[i].name;
    let kept = declared_statements(table.name, table.columns, live);
    let dropped = dropped_statements(table.name, table.columns, live);
    lemma_declared_adds_once(table.name, table.columns, live, i);
    lemma_declared_count(table.name, table.columns, live, name);
    lemma_dropped_count(table.name, table.columns, live, name);
    lemma_count_concat(kept, dropped, adds_column(name));
    lemma_count_concat(kept, dropped, drops_column(name));
}

/// A live column that is absent from the declared table yields exactly one
/// `DROP COLUMN` of its name, and no `ADD COLUMN` of it. The names of the
/// live columns are distinct.
pub proof fn undeclared_column_is_dropped_once(table: Table, live: Seq<Column>, j: int)
    requires
        distinct_names(live),
        0 <= j < live.len(),
        !has_column(table.columns, live[j].name),
    ensures
        count(sync_statements(table, live), drops_column(live[j].name)) == 1,
        count(sync_statements(table, live), adds_column(live[j].name)) == 0,
{
    let name = live[j].name;
    let kept = declared_statements(table.name, table.columns, live);
    let dropped = dropped_statements(table.name, table.columns, live);
    lemma_live_drops_once(table.name, table.columns, live, j);
    lemma_declared_count(table.name, table.columns, live, name);
    lemma_dropped_count(table.name, table.columns, live, name);
    lemma_has_column_at(live, j);
    lemma_count_concat(kept, dropped, adds_column(name));
    lemma_count_concat(kept, dropped, drops_column(name));
}

/// No change set adds and drops a column of one name: a column is added
/// only where it is declared and not live, and dropped only where it is
/// live and not declared.
pub proof fn never_added_and_dropped(table: Table, live: Seq<Column>, name: Seq<char>)
    ensures
        count(sync_statements(table, live), adds_column(name)) > 0 ==> has_column(
            table.columns,
            name,
        ) && !has_column(live, name),
        count(sync_statements(table, live), drops_column(name)) > 0 ==> has_column(live, name)
            && !has_column(table.columns, name),
        !(count(sync_statements(table, live), adds_column(name)) > 0 && count(
            sync_statements(table, live),
            drops_column(name),
        ) > 0),
{
    let kept = declared_statements(table.name, table.columns, live);
    let dropped = dropped_statements(table.name, table.columns, live);
    lemma_declared_count(table.name, table.columns, live, name);
    lemma_dropped_count(table.name, table.columns, live, name);
    lemma_count_concat(kept, dropped, adds_column(name));
    lemma_count_concat(kept, dropped, drops_column(name));
}

/// Declared columns that are all live and in line yield no statement.
pub proof fn lemma_declared_in_line(table: Seq<char>, declared: Seq<Column>, live: Seq<Column>)
    requires
        forall|i: int|
            0 <= i < declared.len() ==> (find_column(live, (#[trigger] declared[i]).name) matches Some(
                have,
            ) && in_line(declared[i], have)),
    ensures
        declared_statements(table, declared, live) == Seq::<Statement>::empty(),
    decreases declared.len(),
{
    if declared.len() > 0 {
        let front = declared.drop_last();
        assert forall|i: int| 0 <= i < front.len() implies (find_column(
            live,
            (#[trigger] front[i]).name,
        ) matches Some(have) && in_line(front[i], have)) by {
            assert(front[i] == declared[i]);
        }
        lemma_declared_in_line(table, front, live);
        let want = declared.last();
        assert(want == declared[declared.len() - 1]);
        let have = find_column(live, want.name).unwrap();
        assert(column_changes(table, want, have) =~= Seq::<Statement>::empty());
        assert(declared_statements(table, declared, live) =~= Seq::<Statement>::empty());
    }
}

/// Live columns that are all declared yield no drop.
pub proof fn lemma_live_all_declared(table: Seq<char>, declared: Seq<Column>, live: Seq<Column>)
    requires
        forall|j: int| 0 <= j < live.len() ==> has_column(declared, (#[trigger] live[j]).name),
    ensures
        dropped_statements(table, declared, live) == Seq::<Statement>::empty(),
    decreases live.len(),
{
    if live.len() > 0 {
        let front = live.drop_last();
        assert forall|j: int| 0 <= j < front.len() implies has_column(
            declared,
            (#[trigger] front[j]).name,
        ) by {
            assert(front[j] == live[j]);
        }
        lemma_live_all_declared(table, declared, front);
        assert(live.last() == live[live.len() - 1]);
        assert(dropped_statements(table, declared, live) =~= Seq::<Statement>::empty());
    }
}

/// Where the live table is in line with the declared one, nothing is to be
/// done: every declared column is live and agrees with the live column of
/// its name in every attribute that is compared, and every live column is
/// declared. Then the change set is empty, and so is its text.
pub proof fn in_line_needs_nothing(table: Table, live: Seq<Column>)
    requires
        forall|i: int|
            0 <= i < table.columns.len() ==> (find_column(
                live,
                (#[trigger] table.columns[i]).name,
            ) matches Some(have) && in_line(table.columns[i], have)),
        forall|j: int| 0 <= j < live.len() ==> has_column(table.columns, (#[trigger] live[j]).name),
    ensures
        statements(table, Some(live)) == Seq::<Statement>::empty(),
        script(statements(table, Some(live))) == Seq::<char>::empty(),
        lines(statements(table, Some(live))) == Seq::<char>::empty(),
{
    lemma_declared_in_line(table.name, table.columns, live);
    lemma_live_all_declared(table.name, table.columns, live);
    assert(sync_statements(table, live) =~= Seq::<Statement>::empty());
}

/// An absent table yields one statement, the `CREATE TABLE` of the declared
/// table, whose text holds the line of every declared column in declared
/// order.
pub proof fn absent_table_is_created(table: Table)
    ensures
        statements(table, None) == seq![Statement::CreateTable { schema: table }],
        lines(statements(table, None)) == create_table_sql(table),
        create_table_sql(table) == "CREATE TABLE IF NOT EXISTS "@ + table.name + " (\n"@
            + column_lines(table.columns, table.columns.len()) + ");"@,
{
}

/// Two `Raw` defaults with one lowercase form need no change of default.
pub proof fn raw_defaults_ignore_case(table: Seq<char>, want: Column, have: Column)
    requires
        want.default matches Some(DefaultValue::Raw(a)) && have.default matches Some(
            DefaultValue::Raw(b),
        ) && lowercase(a) == lowercase(b),
    ensures
        default_change(table, want, have) == Seq::<Statement>::empty(),
{
}

/// Whether a statement sets or drops the default of the column of that
/// name.
pub open spec fn changes_default(name: Seq<char>) -> spec_fn(Statement) -> bool {
    |s: Statement|
        (s matches Statement::SetDefault { column, .. } && column == name) || (s matches Statement::DropDefault {
            column,
            ..
        } && column == name)
}

/// The changes to a column leave the default of every other column alone,
/// and its own where the declared default and the live one are the same.
pub proof fn lemma_changes_keep_default(
    table: Seq<char>,
    want: Column,
    have: Column,
    name: Seq<char>,
)
    requires
        want.name != name || same_default(want.default, have.default),
    ensures
        count(column_changes(table, want, have), changes_default(name)) == 0,
{
    let a = type_change(table, want, have);
    let b = nullable_change(table, want, have);
    let c = default_change(table, want, have);
    let d = unique_change(table, want, have);
    let e = references_change(table, want, have);
    let kind = changes_default(name);
    lemma_count_none(a, kind);
    lemma_count_none(b, kind);
    lemma_count_none(c, kind);
    lemma_count_none(d, kind);
    lemma_count_none(e, kind);
    lemma_count_concat(a, b, kind);
    lemma_count_concat(a + b, c, kind);
    lemma_count_concat(a + b + c, d, kind);
    lemma_count_concat(a + b + c + d, e, kind);
}

/// The statements for the declared columns leave the default of a column
/// alone, where every declared column of that name has the same default as
/// the live column of that name.
pub proof fn lemma_declared_keep_default(
    table: Seq<char>,
    declared: Seq<Column>,
    live: Seq<Column>,
    name: Seq<char>,
)
    requires
        forall|i: int|
            0 <= i < declared.len() && (#[trigger] declared[i]).name == name ==> (find_column(
                live,
                name,
            ) matches Some(have) ==> same_default(declared[i].default, have.default)),
    ensures
        count(declared_statements(table, declared, live), changes_default(name)) == 0,
    decreases declared.len(),
{
    let kind = changes_default(name);
    if declared.len() == 0 {
        lemma_count_none(Seq::<Statement>::empty(), kind);
    } else {
        let front = declared.drop_last();
        let want = declared.last();
        assert forall|i: int| 0 <= i < front.len() && (#[trigger] front[i]).name == name implies (
        find_column(live, name) matches Some(have) ==> same_default(
            front[i].default,
            have.default,
        )) by {
            assert(front[i] == declared[i]);
        }
        lemma_declared_keep_default(table, front, live, name);
        assert(want == declared[declared.len() - 1]);
        match find_column(live, want.name) {
            Some(have) => {
                lemma_changes_keep_default(table, want, have, name);
            },
            None => {
                lemma_count_none(column_statements(table, want, live), kind);
            },
        }
        lemma_count_concat(
            declared_statements(table, front, live),
            column_statements(table, want, live),
            kind,
        );
    }
}

/// The drops change no default.
pub proof fn lemma_dropped_keep_default(
    table: Seq<char>,
    declared: Seq<Column>,
    live: Seq<Column>,
    name: Seq<char>,
)
    ensures
        count(dropped_statements(table, declared, live), changes_default(name)) == 0,
    decreases live.len(),
{
    let kind = changes_default(name);
    if live.len() == 0 {
        lemma_count_none(Seq::<Statement>::empty(), kind);
    } else {
        lemma_dropped_keep_default(table, declared, live.drop_last(), name);
        lemma_count_none(drop_statement(table, declared, live.last()), kind);
        lemma_count_concat(
            dropped_statements(table, declared, live.drop_last()),
            drop_statement(table, declared, live.last()),
            kind,
        );
    }
}

/// A declared column whose default is the same as that of the live column
/// of its name yields no `SET DEFAULT` and no `DROP DEFAULT`, whatever the
/// other columns and attributes are. The names of the declared columns are
/// distinct.
pub proof fn same_default_is_left_alone(table: Table, live: Seq<Column>, i: int)
    requires
        distinct_names(table.columns),
        0 <= i < table.columns.len(),
        find_column(live, table.columns[i].name) matches Some(have) && same_default(
            table.columns[i].default,
            have.default,
        ),
    ensures
        count(sync_statements(table, live), changes_default(table.columns[i].name)) == 0,
{
    let name = table.columns[i].name;
    let kind = changes_default(name);
    assert forall|j: int|
        0 <= j < table.columns.len() && (#[trigger] table.columns[j]).name == name implies (
    find_column(live, name) matches Some(have) ==> same_default(
        table.columns[j].default,
        have.default,
    )) by {
        if j < i {
            assert(table.columns[j].name != table.columns[i].name);
        }
        if i < j {
            assert(table.columns[i].name != table.columns[j].name);
        }
    }
    lemma_declared_keep_default(table.name, table.columns, live, name);
    lemma_dropped_keep_default(table.name, table.columns, live, name);
    lemma_count_concat(
        declared_statements(table.name, table.columns, live),
        dropped_statements(table.name, table.columns, live),
        kind,
    );
}

/// A declared `Raw` default and a live one that differ only in case yield
/// no `SET DEFAULT` and no `DROP DEFAULT` for their column, whatever the
/// other columns and attributes are. The names of the declared columns are
/// distinct.
pub proof fn raw_default_in_another_case_is_left_alone(
    table: Table,
    live: Seq<Column>,
    i: int,
)
    requires
        distinct_names(table.columns),
        0 <= i < table.columns.len(),
        find_column(live, table.columns[i].name) matches Some(have) && (
        table.columns[i].default matches Some(DefaultValue::Raw(a)) && have.default matches Some(
            DefaultValue::Raw(b),
        ) && lowercase(a) == lowercase(b)),
    ensures
        count(sync_statements(table, live), changes_default(table.columns[i].name)) == 0,
{
    same_default_is_left_alone(table, live, i);
}

/// `find_column` finds a column exactly where one of that name is in the
/// list, and the column it finds has that name.
pub proof fn lemma_find_column_has(columns: Seq<Column>, name: Seq<char>)
    ensures
        find_column(columns, name) is Some <==> has_column(columns, name),
        find_column(columns, name) matches Some(c) ==> c.name == name && columns.contains(c),
{
    let names = column_names(columns);
    names.index_of_first_ensures(name);
    if let Some(i) = names.index_of_first(name) {
        assert(names[i] == columns[i].name);
        assert(columns.contains(columns[i]));
    }
}

} // verus!
