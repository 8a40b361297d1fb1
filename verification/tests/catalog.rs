use awto::compile::catalog::{read_default, read_reference, read_type, ColumnsQuery};
use awto::compile::database::{CatalogTable, CompileDatabaseResult, DatabaseCompiler};
use awto::compile::error::Error;
use awto::compile::query::{FETCH_TABLE_QUERY, SCHEMA_NAMESPACE};
use awto::database::{DatabaseColumn, DatabaseDefault, DatabaseSchema, DatabaseType};
use awto::schema::{Model, Role};

fn row(name: &str, data_type: &str, nullable: bool) -> ColumnsQuery {
    ColumnsQuery {
        column_name: name.to_string(),
        column_default: None,
        is_nullable: if nullable { "YES" } else { "NO" }.to_string(),
        data_type: data_type.to_string(),
        character_maximum_length: None,
        is_primary_key: false,
        is_unique: false,
        reference: None,
    }
}

fn column(name: &str, ty: DatabaseType, nullable: bool) -> DatabaseColumn {
    DatabaseColumn {
        name: name.to_string(),
        ty,
        nullable,
        default: None,
        unique: false,
        constraint: None,
        primary_key: false,
        references: None,
    }
}

fn table(name: &str, columns: Vec<DatabaseColumn>) -> DatabaseSchema {
    DatabaseSchema { table_name: name.to_string(), columns, generated_code: None }
}

fn model(name: &str, roles: Vec<Role>) -> Model {
    Model { name: name.to_string(), roles, fields: Vec::new() }
}

fn product() -> DatabaseSchema {
    table(
        "product",
        vec![
            DatabaseColumn {
                default: Some(DatabaseDefault::Raw("uuid_generate_v4()".to_string())),
                primary_key: true,
                ..column("id", DatabaseType::Uuid, false)
            },
            DatabaseColumn {
                default: Some(DatabaseDefault::Int(0)),
                ..column("price", DatabaseType::BigInt, false)
            },
        ],
    )
}

fn product_rows() -> Vec<ColumnsQuery> {
    vec![
        ColumnsQuery {
            column_default: Some("uuid_generate_v4()".to_string()),
            is_primary_key: true,
            ..row("id", "uuid", false)
        },
        ColumnsQuery { column_default: Some("0".to_string()), ..row("price", "bigint", false) },
    ]
}

fn variant() -> DatabaseSchema {
    table(
        "variant",
        vec![
            column("id", DatabaseType::Uuid, false),
            DatabaseColumn {
                references: Some(("product".to_string(), "id".to_string())),
                ..column("product_id", DatabaseType::Uuid, false)
            },
        ],
    )
}

fn entry(name: &str, columns: Vec<ColumnsQuery>) -> CatalogTable {
    CatalogTable { name: name.to_string(), columns }
}

#[test]
fn stored_defaults_are_sorted_into_kinds() {
    assert_eq!(read_default("'draft'::character varying"), DatabaseDefault::String("draft".to_string()));
    assert_eq!(read_default("'it''s'"), DatabaseDefault::String("it".to_string()));
    assert_eq!(read_default("'open"), DatabaseDefault::String("open".to_string()));
    assert_eq!(read_default("''"), DatabaseDefault::String(String::new()));
    assert_eq!(read_default("'"), DatabaseDefault::String(String::new()));
    assert_eq!(read_default("'12'"), DatabaseDefault::String("12".to_string()));
    assert_eq!(read_default("true"), DatabaseDefault::Bool(true));
    assert_eq!(read_default("false"), DatabaseDefault::Bool(false));
    assert_eq!(read_default("0"), DatabaseDefault::Int(0));
    assert_eq!(read_default("42"), DatabaseDefault::Int(42));
    assert_eq!(read_default("+42"), DatabaseDefault::Int(42));
    assert_eq!(read_default("18446744073709551615"), DatabaseDefault::Int(u64::MAX));
    assert_eq!(read_default("-42"), DatabaseDefault::Float(-42));
    assert_eq!(read_default("-0"), DatabaseDefault::Float(0));
    assert_eq!(read_default("-9223372036854775808"), DatabaseDefault::Float(i64::MIN));
    assert_eq!(read_default("now()"), DatabaseDefault::Raw("now()".to_string()));
    assert_eq!(read_default(""), DatabaseDefault::Raw(String::new()));
    assert_eq!(read_default("1.5"), DatabaseDefault::Raw("1.5".to_string()));
    assert_eq!(
        read_default("18446744073709551616"),
        DatabaseDefault::Raw("18446744073709551616".to_string())
    );
    assert_eq!(
        read_default("-9223372036854775809"),
        DatabaseDefault::Raw("-9223372036854775809".to_string())
    );
}

#[test]
fn kinds_of_stored_defaults_are_told_apart() {
    assert!(matches!(read_default("TRUE"), DatabaseDefault::Raw(_)));
    assert!(matches!(read_default("True"), DatabaseDefault::Raw(_)));
    assert!(matches!(read_default(" true"), DatabaseDefault::Raw(_)));
    assert!(matches!(read_default("7"), DatabaseDefault::Int(7)));
    assert!(matches!(read_default("-7"), DatabaseDefault::Float(-7)));
    assert!(matches!(read_default("'7'"), DatabaseDefault::String(_)));
    assert!(matches!(read_default("(7)"), DatabaseDefault::Raw(_)));
    assert!(matches!(read_default("\"7\""), DatabaseDefault::Raw(_)));
}

#[test]
fn foreign_key_is_split_at_the_first_colon() {
    assert_eq!(
        read_reference(&Some("product:id".to_string())),
        Some(("product".to_string(), "id".to_string()))
    );
    assert_eq!(
        read_reference(&Some("a:b:c".to_string())),
        Some(("a".to_string(), "b:c".to_string()))
    );
    assert_eq!(
        read_reference(&Some("product:".to_string())),
        Some(("product".to_string(), String::new()))
    );
    assert_eq!(read_reference(&Some(":id".to_string())), Some((String::new(), "id".to_string())));
    assert_eq!(read_reference(&Some(":".to_string())), Some((String::new(), String::new())));
    assert_eq!(read_reference(&Some("product".to_string())), None);
    assert_eq!(read_reference(&Some(String::new())), None);
    assert_eq!(read_reference(&None), None);
}

#[test]
fn reported_length_goes_only_to_text() {
    assert_eq!(read_type("character varying", Some(120)), Some(DatabaseType::Text(Some(120))));
    assert_eq!(read_type("character varying", None), Some(DatabaseType::Text(None)));
    assert_eq!(read_type("character", Some(1)), Some(DatabaseType::Text(Some(1))));
    assert_eq!(read_type("char", Some(3)), Some(DatabaseType::Text(Some(3))));
    assert_eq!(read_type("bigint", Some(120)), Some(DatabaseType::BigInt));
    assert_eq!(read_type("numeric", Some(10)), Some(DatabaseType::Numeric(None)));
    assert_eq!(read_type("uuid", None), Some(DatabaseType::Uuid));
    assert_eq!(read_type("jsonb", None), None);
    assert_eq!(read_type("text", Some(5)), None);
    assert_eq!(read_type("CHARACTER VARYING", Some(5)), None);
}

#[test]
fn row_becomes_a_column() {
    let full = ColumnsQuery {
        column_name: "product_id".to_string(),
        column_default: Some("'none'::character varying".to_string()),
        is_nullable: "YES".to_string(),
        data_type: "character varying".to_string(),
        character_maximum_length: Some(36),
        is_primary_key: true,
        is_unique: true,
        reference: Some("product:id".to_string()),
    };
    assert_eq!(
        full.column(),
        Some(DatabaseColumn {
            name: "product_id".to_string(),
            ty: DatabaseType::Text(Some(36)),
            nullable: true,
            default: Some(DatabaseDefault::String("none".to_string())),
            unique: true,
            constraint: None,
            primary_key: true,
            references: Some(("product".to_string(), "id".to_string())),
        })
    );
    assert_eq!(row("n", "integer", false).column(), Some(column("n", DatabaseType::Integer, false)));
    assert_eq!(row("n", "integer", true).column(), Some(column("n", DatabaseType::Integer, true)));
    let odd = ColumnsQuery { is_nullable: "yes".to_string(), ..row("n", "integer", false) };
    assert_eq!(odd.column(), Some(column("n", DatabaseType::Integer, false)));
    assert_eq!(row("n", "hstore", true).column(), None);
}

#[test]
fn table_without_rows_is_absent() {
    let compiler = DatabaseCompiler::new(Vec::new());
    assert!(matches!(compiler.live_table(&product(), &[]), Ok(None)));
}

#[test]
fn rows_become_the_live_columns() {
    let compiler = DatabaseCompiler::new(Vec::new());
    let live = compiler.live_table(&product(), &product_rows()).unwrap().unwrap();
    assert_eq!(live, product().columns);
}

#[test]
fn first_unsupported_type_fails_the_table() {
    let compiler = DatabaseCompiler::new(Vec::new());
    let rows = vec![
        row("id", "uuid", false),
        row("tags", "ARRAY", true),
        row("meta", "jsonb", true),
    ];
    match compiler.live_table(&product(), &rows) {
        Err(Error::UnsupportedType(table, column)) => {
            assert_eq!(table, "product");
            assert_eq!(column, "tags");
        }
        other => panic!("{:?}", other),
    }
    match compiler.table_sql(&product(), &rows) {
        Err(Error::UnsupportedType(table, column)) => {
            assert_eq!(table, "product");
            assert_eq!(column, "tags");
        }
        other => panic!("{:?}", other),
    }
}

#[test]
fn errors_have_messages() {
    assert_eq!(
        Error::UnsupportedType("product".to_string(), "tags".to_string()).to_string(),
        "database has unsupported type in product.tags"
    );
    assert_eq!(
        Error::Introspection("product".to_string(), "connection reset".to_string()).to_string(),
        "database error: connection reset"
    );
    assert_eq!(
        Error::Execution(Some(2), "syntax error".to_string()).to_string(),
        "database error: syntax error"
    );
    assert_eq!(Error::Execution(None, String::new()).to_string(), "database error: ");
}

#[test]
fn sql_of_one_table() {
    let compiler = DatabaseCompiler::new(Vec::new());
    assert_eq!(
        compiler.table_sql(&product(), &[]).unwrap(),
        "CREATE TABLE IF NOT EXISTS product (\n  id uuid NOT NULL DEFAULT uuid_generate_v4() PRIMARY KEY,\n  price bigint NOT NULL DEFAULT 0\n);"
    );
    assert_eq!(compiler.table_sql(&product(), &product_rows()).unwrap(), "");
    let mut rows = product_rows();
    rows[1].is_nullable = "YES".to_string();
    rows.push(row("legacy_sku", "character varying", true));
    assert_eq!(
        compiler.table_sql(&product(), &rows).unwrap(),
        "ALTER TABLE product ALTER COLUMN price SET NOT NULL;\nALTER TABLE product DROP COLUMN legacy_sku;"
    );
}

#[test]
fn tables_are_compiled_in_declared_order_with_an_empty_line_between() {
    let compiler = DatabaseCompiler::new(vec![
        model("Product", vec![Role::DatabaseTable(product())]),
        model("Variant", vec![Role::DatabaseTable(variant())]),
    ]);
    let sql = compiler.compile(&[]).unwrap();
    assert_eq!(
        sql,
        "CREATE TABLE IF NOT EXISTS product (\n  id uuid NOT NULL DEFAULT uuid_generate_v4() PRIMARY KEY,\n  price bigint NOT NULL DEFAULT 0\n);\n\nCREATE TABLE IF NOT EXISTS variant (\n  id uuid NOT NULL,\n  product_id uuid NOT NULL REFERENCES product(id)\n);"
    );
    let mut price = product_rows();
    price[1].column_default = None;
    let catalog = vec![
        entry("variant", vec![row("id", "uuid", false)]),
        entry("product", price),
        entry("product", product_rows()),
    ];
    assert_eq!(
        compiler.compile(&catalog).unwrap(),
        "ALTER TABLE product ALTER COLUMN price SET DEFAULT 0;\n\nALTER TABLE variant ADD COLUMN product_id uuid NOT NULL REFERENCES product(id);"
    );
}

#[test]
fn database_in_line_compiles_to_nothing() {
    let compiler = DatabaseCompiler::new(vec![
        model("Product", vec![Role::DatabaseTable(product())]),
        model("NewProduct", vec![Role::DatabaseSubTable(variant())]),
    ]);
    let catalog = vec![entry("product", product_rows())];
    assert_eq!(compiler.compile(&catalog).unwrap(), "");
    assert_eq!(DatabaseCompiler::new(Vec::new()).compile(&catalog).unwrap(), "");
}

#[test]
fn tables_without_changes_leave_their_empty_lines() {
    let compiler = DatabaseCompiler::new(vec![
        model("A", vec![Role::DatabaseTable(table("a", vec![column("x", DatabaseType::Bool, true)]))]),
        model("Product", vec![Role::DatabaseTable(product())]),
        model("C", vec![Role::DatabaseTable(table("c", vec![column("y", DatabaseType::Date, true)]))]),
        model("Variant", vec![Role::DatabaseTable(product())]),
    ]);
    let catalog = vec![
        entry("product", product_rows()),
        entry("a", vec![row("x", "boolean", false)]),
        entry("c", vec![row("y", "date", false)]),
    ];
    assert_eq!(
        compiler.compile(&catalog).unwrap(),
        "ALTER TABLE a ALTER COLUMN x DROP NOT NULL;\n\n\nALTER TABLE c ALTER COLUMN y DROP NOT NULL;"
    );
}

#[test]
fn unsupported_type_fails_the_whole_run() {
    let compiler = DatabaseCompiler::new(vec![
        model("Product", vec![Role::DatabaseTable(product())]),
        model("Variant", vec![Role::DatabaseTable(variant())]),
        model("Other", vec![Role::DatabaseTable(table("other", Vec::new()))]),
    ]);
    let catalog = vec![
        entry("other", vec![row("blob", "xml", true)]),
        entry("variant", vec![row("id", "uuid", false), row("shape", "polygon", true)]),
    ];
    match compiler.compile(&catalog) {
        Err(Error::UnsupportedType(table, column)) => {
            assert_eq!(table, "variant");
            assert_eq!(column, "shape");
        }
        other => panic!("{:?}", other),
    }
}

#[test]
fn run_goes_table_by_table() {
    let compiler = DatabaseCompiler::new(vec![
        model("Product", vec![Role::DatabaseTable(product())]),
        model("Variant", vec![Role::DatabaseTable(variant())]),
    ]);
    let mut progress = compiler.start();
    assert_eq!(progress.done, 0);
    assert_eq!(progress.sql, "");
    assert_eq!(compiler.pending(&progress).unwrap().table_name, "product");
    let mut rows = product_rows();
    rows[0].is_unique = true;
    compiler.fetched(&mut progress, &rows).unwrap();
    assert_eq!(progress.done, 1);
    assert_eq!(progress.sql, "ALTER TABLE product DROP CONSTRAINT product_id_key;\n\n");
    assert_eq!(compiler.pending(&progress).unwrap().table_name, "variant");
    let failed = compiler.fetched(&mut progress, &[row("id", "cidr", false)]);
    assert!(matches!(failed, Err(Error::UnsupportedType(_, _))));
    assert_eq!(progress.done, 1);
    assert_eq!(progress.sql, "ALTER TABLE product DROP CONSTRAINT product_id_key;\n\n");
    compiler.fetched(&mut progress, &[]).unwrap();
    assert_eq!(progress.done, 2);
    assert!(compiler.pending(&progress).is_none());
    assert_eq!(
        compiler.finish(progress),
        "ALTER TABLE product DROP CONSTRAINT product_id_key;\n\nCREATE TABLE IF NOT EXISTS variant (\n  id uuid NOT NULL,\n  product_id uuid NOT NULL REFERENCES product(id)\n);"
    );
    let nothing = DatabaseCompiler::new(Vec::new());
    let progress = nothing.start();
    assert!(nothing.pending(&progress).is_none());
    assert_eq!(nothing.finish(progress), "");
}

#[test]
fn outcome_counts_statements_and_rows() {
    assert_eq!(
        CompileDatabaseResult::tally(&[]),
        CompileDatabaseResult { queries_executed: 0, rows_affected: 0 }
    );
    assert_eq!(CompileDatabaseResult::tally(&[]), CompileDatabaseResult::default());
    assert_eq!(
        CompileDatabaseResult::tally(&[0, 3, 0, 4]),
        CompileDatabaseResult { queries_executed: 4, rows_affected: 7 }
    );
    assert_eq!(
        CompileDatabaseResult::tally(&[u64::MAX - 1, 1]),
        CompileDatabaseResult { queries_executed: 2, rows_affected: u64::MAX }
    );
}

#[test]
fn catalog_query_asks_for_what_a_row_holds() {
    assert_eq!(SCHEMA_NAMESPACE, "public");
    assert!(FETCH_TABLE_QUERY.starts_with(
        "\nSELECT column_name, column_default, is_nullable, data_type, character_maximum_length,\n"
    ));
    for name in ["as is_primary_key", "as is_unique", "as reference"] {
        assert_eq!(FETCH_TABLE_QUERY.matches(name).count(), 1);
    }
    assert!(FETCH_TABLE_QUERY.ends_with("WHERE table_schema = $1\nAND table_name = $2;\n"));
    assert_eq!(FETCH_TABLE_QUERY.lines().count(), 83);
}

#[test]
fn one_absent_table_compiles_to_its_create_table() {
    let compiler = DatabaseCompiler::new(vec![model(
        "Product",
        vec![Role::DatabaseSubTable(variant()), Role::DatabaseTable(product())],
    )]);
    let catalog = vec![entry("variant", vec![row("id", "uuid", false)]), entry("product", vec![])];
    let sql = compiler.compile(&catalog).unwrap();
    assert_eq!(sql, compiler.write_table_create_sql(&product()));
    assert_eq!(sql, compiler.write_table_create_sql(&product()).trim());
    assert_eq!(sql.matches("CREATE TABLE IF NOT EXISTS").count(), 1);
    assert!(!sql.contains("ALTER TABLE"));
    assert!(sql.find("  id ").unwrap() < sql.find("  price ").unwrap());
}

#[test]
fn tables_with_changes_are_one_empty_line_apart() {
    let compiler = DatabaseCompiler::new(vec![
        model("Product", vec![Role::DatabaseTable(product())]),
        model("Variant", vec![Role::DatabaseTable(variant())]),
        model("Product", vec![Role::DatabaseTable(product())]),
    ]);
    let mut rows = product_rows();
    rows[0].is_nullable = "YES".to_string();
    rows[1].is_unique = true;
    let catalog = vec![entry("product", rows.clone())];
    let product_block = compiler.table_sql(&product(), &rows).unwrap();
    let variant_block = compiler.table_sql(&variant(), &[]).unwrap();
    assert_eq!(product_block.lines().count(), 2);
    assert_eq!(
        compiler.compile(&catalog).unwrap(),
        format!("{}\n\n{}\n\n{}", product_block, variant_block, product_block)
    );
}
