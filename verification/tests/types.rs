use awto::app::AppConfig;
use awto::schema::RustField;
use awto::database::{
    default_eq, option_text_eq, references_eq, DatabaseColumn, DatabaseDefault, DatabaseType,
    DatabaseTypeFromStrError,
};

fn all_plain_types() -> Vec<DatabaseType> {
    vec![
        DatabaseType::SmallInt,
        DatabaseType::Integer,
        DatabaseType::BigInt,
        DatabaseType::Numeric(None),
        DatabaseType::Float,
        DatabaseType::Double,
        DatabaseType::Money,
        DatabaseType::Text(None),
        DatabaseType::Binary,
        DatabaseType::Timestamp,
        DatabaseType::Timestamptz,
        DatabaseType::Date,
        DatabaseType::Time,
        DatabaseType::Timetz,
        DatabaseType::Bool,
        DatabaseType::Uuid,
    ]
}

#[test]
fn every_native_name_is_read() {
    let names = [
        ("smallint", DatabaseType::SmallInt),
        ("int2", DatabaseType::SmallInt),
        ("integer", DatabaseType::Integer),
        ("int", DatabaseType::Integer),
        ("int4", DatabaseType::Integer),
        ("bigint", DatabaseType::BigInt),
        ("int8", DatabaseType::BigInt),
        ("numeric", DatabaseType::Numeric(None)),
        ("decimal", DatabaseType::Numeric(None)),
        ("real", DatabaseType::Float),
        ("float4", DatabaseType::Float),
        ("double precision", DatabaseType::Double),
        ("float8", DatabaseType::Double),
        ("money", DatabaseType::Money),
        ("character", DatabaseType::Text(None)),
        ("char", DatabaseType::Text(None)),
        ("character varying", DatabaseType::Text(None)),
        ("charvar", DatabaseType::Text(None)),
        ("bytea", DatabaseType::Binary),
        ("timestamp", DatabaseType::Timestamp),
        ("timestamp with time zone", DatabaseType::Timestamptz),
        ("timestamptz", DatabaseType::Timestamptz),
        ("date", DatabaseType::Date),
        ("time", DatabaseType::Time),
        ("time with time zone", DatabaseType::Timetz),
        ("timetz", DatabaseType::Timetz),
        ("boolean", DatabaseType::Bool),
        ("bool", DatabaseType::Bool),
        ("uuid", DatabaseType::Uuid),
    ];
    for (name, ty) in names {
        assert_eq!(DatabaseType::from_str(name), Ok(ty), "{}", name);
        assert_eq!(name.parse::<DatabaseType>(), Ok(ty), "{}", name);
    }
}

#[test]
fn other_names_are_not_types() {
    for name in [
        "", "UUID", "Uuid", "varchar", "text", "jsonb", "uuid ", " uuid", "character varying(256)",
        "numeric(10, 2)", "timestamp without time zone", "integer[]", "int16",
    ] {
        assert_eq!(DatabaseType::from_str(name), Err(DatabaseTypeFromStrError), "{:?}", name);
    }
}

#[test]
fn every_type_has_its_canonical_spelling() {
    let spellings = [
        "smallint",
        "integer",
        "bigint",
        "numeric",
        "real",
        "double precision",
        "money",
        "character varying",
        "bytea",
        "timestamp",
        "timestamp with time zone",
        "date",
        "time",
        "time with time zone",
        "boolean",
        "uuid",
    ];
    for (ty, spelling) in all_plain_types().iter().zip(spellings) {
        assert_eq!(ty.to_string(), spelling);
    }
}

#[test]
fn lengths_and_precisions_are_appended() {
    assert_eq!(DatabaseType::Text(Some(256)).to_string(), "character varying(256)");
    assert_eq!(DatabaseType::Text(Some(0)).to_string(), "character varying(0)");
    assert_eq!(DatabaseType::Text(Some(-1)).to_string(), "character varying(-1)");
    assert_eq!(DatabaseType::Text(Some(i32::MAX)).to_string(), "character varying(2147483647)");
    assert_eq!(DatabaseType::Text(Some(i32::MIN)).to_string(), "character varying(-2147483648)");
    assert_eq!(DatabaseType::Numeric(Some((10, 2))).to_string(), "numeric(10, 2)");
    assert_eq!(DatabaseType::Numeric(Some((0, 65535))).to_string(), "numeric(0, 65535)");
}

#[test]
fn type_is_written_at_the_end() {
    let mut s = "x ".to_string();
    DatabaseType::Numeric(Some((4, 1))).write(&mut s);
    assert_eq!(s, "x numeric(4, 1)");
}

#[test]
fn canonical_spelling_reads_back() {
    for ty in all_plain_types() {
        assert_eq!(DatabaseType::from_str(&ty.to_string()), Ok(ty));
    }
}

#[test]
fn sized_spelling_does_not_read_back() {
    assert!(DatabaseType::from_str(&DatabaseType::Text(Some(256)).to_string()).is_err());
    assert!(DatabaseType::from_str(&DatabaseType::Numeric(Some((10, 2))).to_string()).is_err());
}

#[test]
fn length_takes_part_in_type_equality() {
    assert_ne!(DatabaseType::Text(None), DatabaseType::Text(Some(256)));
    assert_ne!(DatabaseType::Text(Some(120)), DatabaseType::Text(Some(256)));
    assert_eq!(DatabaseType::Text(Some(256)), DatabaseType::Text(Some(256)));
    assert_ne!(DatabaseType::Numeric(None), DatabaseType::Numeric(Some((10, 2))));
    assert_ne!(DatabaseType::Numeric(Some((10, 3))), DatabaseType::Numeric(Some((10, 2))));
    assert_ne!(DatabaseType::Numeric(Some((9, 2))), DatabaseType::Numeric(Some((10, 2))));
    assert_eq!(DatabaseType::Numeric(Some((10, 2))), DatabaseType::Numeric(Some((10, 2))));
    let types = all_plain_types();
    for (i, a) in types.iter().enumerate() {
        for (j, b) in types.iter().enumerate() {
            assert_eq!(a == b, i == j);
        }
    }
}

#[test]
fn raw_defaults_are_equal_whatever_their_case() {
    assert_eq!(
        DatabaseDefault::Raw("NOW()".to_string()),
        DatabaseDefault::Raw("now()".to_string())
    );
    assert_eq!(
        DatabaseDefault::Raw("Uuid_Generate_V4()".to_string()),
        DatabaseDefault::Raw("uuid_generate_v4()".to_string())
    );
    assert_eq!(
        DatabaseDefault::Raw("ÀÉ".to_string()),
        DatabaseDefault::Raw("àé".to_string())
    );
    assert_ne!(
        DatabaseDefault::Raw("now()".to_string()),
        DatabaseDefault::Raw("now( )".to_string())
    );
}

#[test]
fn other_defaults_are_equal_by_value() {
    assert_eq!(DatabaseDefault::Bool(true), DatabaseDefault::Bool(true));
    assert_ne!(DatabaseDefault::Bool(true), DatabaseDefault::Bool(false));
    assert_eq!(DatabaseDefault::Int(3), DatabaseDefault::Int(3));
    assert_ne!(DatabaseDefault::Int(3), DatabaseDefault::Int(4));
    assert_eq!(DatabaseDefault::Float(-3), DatabaseDefault::Float(-3));
    assert_ne!(DatabaseDefault::Float(-3), DatabaseDefault::Float(3));
    assert_ne!(DatabaseDefault::Float(3), DatabaseDefault::Int(3));
    assert_eq!(
        DatabaseDefault::String("Abc".to_string()),
        DatabaseDefault::String("Abc".to_string())
    );
    assert_ne!(
        DatabaseDefault::String("Abc".to_string()),
        DatabaseDefault::String("abc".to_string())
    );
    assert_ne!(
        DatabaseDefault::String("now()".to_string()),
        DatabaseDefault::Raw("now()".to_string())
    );
    assert_ne!(DatabaseDefault::Raw("true".to_string()), DatabaseDefault::Bool(true));
}

#[test]
fn optional_defaults() {
    let upper = Some(DatabaseDefault::Raw("NOW()".to_string()));
    let lower = Some(DatabaseDefault::Raw("now()".to_string()));
    assert!(default_eq(&upper, &lower));
    assert!(default_eq(&None, &None));
    assert!(!default_eq(&upper, &None));
    assert!(!default_eq(&None, &lower));
    assert!(!default_eq(&Some(DatabaseDefault::Int(1)), &Some(DatabaseDefault::Int(2))));
}

#[test]
fn optional_texts_and_references() {
    let a = Some("price > 0".to_string());
    assert!(option_text_eq(&a, &a.clone()));
    assert!(option_text_eq(&None, &None));
    assert!(!option_text_eq(&a, &None));
    assert!(!option_text_eq(&a, &Some("price > 1".to_string())));
    let r = Some(("product".to_string(), "id".to_string()));
    assert!(references_eq(&r, &r.clone()));
    assert!(references_eq(&None, &None));
    assert!(!references_eq(&r, &None));
    assert!(!references_eq(&None, &r));
    assert!(!references_eq(&r, &Some(("product".to_string(), "sku".to_string()))));
    assert!(!references_eq(&r, &Some(("variant".to_string(), "id".to_string()))));
}

#[test]
fn defaults_are_written_as_in_a_column_definition() {
    assert_eq!(DatabaseDefault::Bool(true).to_string(), "true");
    assert_eq!(DatabaseDefault::Bool(false).to_string(), "false");
    assert_eq!(DatabaseDefault::Int(0).to_string(), "0");
    assert_eq!(DatabaseDefault::Int(u64::MAX).to_string(), "18446744073709551615");
    assert_eq!(DatabaseDefault::Float(-12).to_string(), "-12");
    assert_eq!(DatabaseDefault::Float(i64::MIN).to_string(), "-9223372036854775808");
    assert_eq!(DatabaseDefault::Raw("NOW()".to_string()).to_string(), "NOW()");
    assert_eq!(DatabaseDefault::String("draft".to_string()).to_string(), "\"draft\"");
    assert_eq!(DatabaseDefault::String(String::new()).to_string(), "\"\"");
    let mut s = "DEFAULT ".to_string();
    DatabaseDefault::Int(5).write(&mut s);
    assert_eq!(s, "DEFAULT 5");
}

#[test]
fn columns_are_equal_attribute_by_attribute() {
    let column = DatabaseColumn {
        name: "created_at".to_string(),
        ty: DatabaseType::Timestamptz,
        nullable: false,
        default: Some(DatabaseDefault::Raw("NOW()".to_string())),
        unique: false,
        constraint: None,
        primary_key: false,
        references: None,
    };
    let mut other = column.clone();
    assert_eq!(column, other);
    other.default = Some(DatabaseDefault::Raw("now()".to_string()));
    assert_eq!(column, other);
    other.default = None;
    assert_ne!(column, other);
    other = DatabaseColumn { name: "updated_at".to_string(), ..column.clone() };
    assert_ne!(column, other);
    other = DatabaseColumn { ty: DatabaseType::Timestamp, ..column.clone() };
    assert_ne!(column, other);
    other = DatabaseColumn { nullable: true, ..column.clone() };
    assert_ne!(column, other);
    other = DatabaseColumn { unique: true, ..column.clone() };
    assert_ne!(column, other);
    other = DatabaseColumn { constraint: Some("x".to_string()), ..column.clone() };
    assert_ne!(column, other);
    other = DatabaseColumn { primary_key: true, ..column.clone() };
    assert_ne!(column, other);
    other =
        DatabaseColumn { references: Some(("a".to_string(), "b".to_string())), ..column.clone() };
    assert_ne!(column, other);
}

#[test]
fn settings_have_a_default() {
    assert_eq!(AppConfig::default(), AppConfig {});
}

#[test]
fn fields_of_a_model_are_equal_by_name_and_type() {
    let field = |name: &str, ty: &str| RustField { name: name.to_string(), ty: ty.to_string() };
    assert_eq!(field("price", "i64"), field("price", "i64"));
    assert_ne!(field("price", "i64"), field("price", "Option<i64>"));
    assert_ne!(field("price", "i64"), field("cost", "i64"));
}

#[test]
fn defaults_and_columns_are_ordered_as_they_are_written() {
    assert!(DatabaseDefault::Bool(false) < DatabaseDefault::Bool(true));
    assert!(DatabaseDefault::Bool(true) < DatabaseDefault::Float(-5));
    assert!(DatabaseDefault::Float(9) < DatabaseDefault::Int(0));
    assert!(DatabaseDefault::Int(1) < DatabaseDefault::Int(2));
    assert!(DatabaseDefault::Int(2) < DatabaseDefault::Raw(String::new()));
    assert!(DatabaseDefault::Raw("b".to_string()) < DatabaseDefault::String("a".to_string()));
    let column = |name: &str, nullable: bool| DatabaseColumn {
        name: name.to_string(),
        ty: DatabaseType::Bool,
        nullable,
        default: None,
        unique: false,
        constraint: None,
        primary_key: false,
        references: None,
    };
    assert!(column("a", true) < column("b", false));
    assert!(column("a", false) < column("a", true));
    assert!(DatabaseType::SmallInt < DatabaseType::Uuid);
}
