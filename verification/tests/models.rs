use awto::compile::database::DatabaseCompiler;
use awto::compile::protobuf::ProtobufCompiler;
use awto::database::{
    DatabaseColumn, DatabaseDefault, DatabaseSchema, DatabaseType, IntoDatabaseSchema,
};
use awto::declare::{
    are_lists_closed, is_closed_option, missing_column, option_inside, reserved, rust_to_db_type,
    rust_to_proto_type, Rule,
};
use awto::naming::{method_name, table_name};
use awto::protobuf::{
    IntoProtobufSchema, IntoProtobufService, ProtobufField, ProtobufMethod, ProtobufSchema,
    ProtobufService, ProtobufType,
};
use awto::schema::{Model, Role, RustField};
use awto::service::Service;

/// A field as a model declares it: its name, its type, and what is said
/// of it besides.
struct Declared {
    name: &'static str,
    ty: &'static str,
    default: Option<DatabaseDefault>,
    max_len: Option<i32>,
    references: Option<(String, String)>,
}

fn declared(name: &'static str, ty: &'static str) -> Declared {
    Declared { name, ty, default: None, max_len: None, references: None }
}

/// The column of a declared field, by the rules of the library.
fn column(field: &Declared) -> DatabaseColumn {
    assert!(is_closed_option(field.ty));
    let special = reserved(field.name);
    if let Some(column) = special {
        assert!(column.fits(field.ty), "{}", column.fault(Rule::Type));
    }
    let ty = match (rust_to_db_type(field.ty).unwrap(), field.max_len) {
        (DatabaseType::Text(None), Some(max_len)) => DatabaseType::Text(Some(max_len)),
        (ty, None) => ty,
        (_, Some(_)) => panic!("max_len can only be used on varchar & char types"),
    };
    DatabaseColumn {
        name: field.name.to_string(),
        ty,
        nullable: field.ty.starts_with("Option<"),
        default: match special {
            Some(column) => Some(column.default()),
            None => field.default.clone(),
        },
        unique: false,
        constraint: None,
        primary_key: special.map(|column| column.primary_key()).unwrap_or(false),
        references: field.references.clone(),
    }
}

/// The table of a declared model, by the rules of the library.
fn table(model: &str, fields: &[Declared]) -> DatabaseSchema {
    let names: Vec<String> = fields.iter().map(|field| field.name.to_string()).collect();
    assert_eq!(missing_column(&names), None);
    DatabaseSchema {
        table_name: table_name(model),
        columns: fields.iter().map(column).collect(),
        generated_code: None,
    }
}

/// The message of a declared model, by the rules of the library.
fn message(model: &str, fields: &[Declared]) -> ProtobufSchema {
    ProtobufSchema {
        name: model.to_string(),
        fields: fields
            .iter()
            .map(|field| {
                assert!(is_closed_option(field.ty));
                assert!(are_lists_closed(option_inside(field.ty)));
                ProtobufField {
                    name: field.name.to_string(),
                    ty: rust_to_proto_type(field.ty),
                    required: !field.ty.starts_with("Option<"),
                }
            })
            .collect(),
        generated_code: None,
    }
}

fn rust_fields(fields: &[Declared]) -> Vec<RustField> {
    fields
        .iter()
        .map(|field| RustField { name: field.name.to_string(), ty: field.ty.to_string() })
        .collect()
}

fn product_fields(max_len: i32) -> Vec<Declared> {
    vec![
        declared("id", "Uuid"),
        declared("created_at", "DateTime<FixedOffset>"),
        declared("updated_at", "DateTime<FixedOffset>"),
        declared("name", "String"),
        Declared { default: Some(DatabaseDefault::Int(0)), ..declared("price", "i64") },
        Declared { max_len: Some(max_len), ..declared("description", "Option<String>") },
    ]
}

struct Product;

impl IntoDatabaseSchema for Product {
    fn database_schema() -> DatabaseSchema {
        table("Product", &product_fields(256))
    }
}

impl IntoProtobufSchema for Product {
    fn protobuf_schema() -> ProtobufSchema {
        message(
            "Product",
            &[
                declared("name", "String"),
                Declared { default: Some(DatabaseDefault::Int(0)), ..declared("price", "i64") },
                Declared { max_len: Some(256), ..declared("description", "Option<String>") },
                declared("comments", "Vec<String>"),
            ],
        )
    }
}

struct Variant;

impl IntoDatabaseSchema for Variant {
    fn database_schema() -> DatabaseSchema {
        let product = Product::database_schema();
        assert!(product.columns.iter().any(|column| column.name == "id"));
        table(
            "Variant",
            &[
                declared("id", "Uuid"),
                declared("created_at", "DateTime<FixedOffset>"),
                declared("updated_at", "DateTime<FixedOffset>"),
                Declared {
                    references: Some((product.table_name, "id".to_string())),
                    ..declared("product_id", "Uuid")
                },
                declared("name", "String"),
                declared("price", "i64"),
            ],
        )
    }
}

fn product_message() -> ProtobufSchema {
    message("Product", &product_fields(120))
}

fn product_id_message() -> ProtobufSchema {
    message("ProductId", &[declared("id", "Uuid")])
}

/// The message of a list of products. The type of its items is known by
/// its name; here the message of that name stands in its place, as it does
/// in a compiled model.
fn product_list_message() -> ProtobufSchema {
    let mut list = message("ProductList", &[declared("products", "Vec<Product>")]);
    assert_eq!(list.fields[0].ty.to_string(), "repeated Product");
    list.fields[0].ty = ProtobufType::Repeated(Box::new(ProtobufType::Custom(product_message())));
    list
}

fn new_product_fields() -> Vec<Declared> {
    vec![
        declared("name", "String"),
        declared("price", "Option<i64>"),
        declared("description", "Option<String>"),
    ]
}

fn product_table() -> DatabaseSchema {
    table("Product", &product_fields(120))
}

fn declared_models() -> Vec<Model> {
    vec![
        Model {
            name: "Product".to_string(),
            roles: vec![
                Role::DatabaseTable(product_table()),
                Role::ProtobufMessage(product_message()),
            ],
            fields: rust_fields(&product_fields(120)),
        },
        Model {
            name: "ProductId".to_string(),
            roles: vec![Role::ProtobufMessage(product_id_message())],
            fields: rust_fields(&[declared("id", "Uuid")]),
        },
        Model {
            name: "ProductList".to_string(),
            roles: vec![Role::ProtobufMessage(product_list_message())],
            fields: rust_fields(&[declared("products", "Vec<Product>")]),
        },
        Model {
            name: "NewProduct".to_string(),
            roles: vec![
                Role::ProtobufMessage(message("NewProduct", &new_product_fields())),
                Role::DatabaseSubTable(product_table()),
            ],
            fields: rust_fields(&new_product_fields()),
        },
    ]
}

struct ProductService;

impl IntoProtobufService for ProductService {
    fn protobuf_service() -> ProtobufService {
        ProtobufService {
            name: "ProductService".to_string(),
            methods: vec![ProtobufMethod {
                is_async: false,
                name: method_name("find_product"),
                param: product_id_message(),
                returns: product_list_message(),
                returns_result: true,
            }],
            module: "service::product".to_string(),
        }
    }
}

#[test]
fn models() {
    println!("{:#?}", &*declared_models());
}

#[test]
fn variant() {
    assert_eq!(
        Variant::database_schema()
            .columns
            .iter()
            .find(|col| col.name == "product_id")
            .unwrap()
            .references,
        Some(("product".to_string(), "id".to_string()))
    );
}

#[test]
fn database_table_name() {
    assert_eq!(Product::database_schema().table_name, "product");
}

#[test]
fn database_columns() {
    let columns = Product::database_schema().columns;
    let expected = vec![
        DatabaseColumn {
            name: "id".to_string(),
            ty: DatabaseType::Uuid,
            nullable: false,
            default: Some(DatabaseDefault::Raw("uuid_generate_v4()".to_string())),
            unique: false,
            constraint: None,
            primary_key: true,
            references: None,
        },
        DatabaseColumn {
            name: "created_at".to_string(),
            ty: DatabaseType::Timestamptz,
            nullable: false,
            default: Some(DatabaseDefault::Raw("NOW()".to_string())),
            unique: false,
            constraint: None,
            primary_key: false,
            references: None,
        },
        DatabaseColumn {
            name: "updated_at".to_string(),
            ty: DatabaseType::Timestamptz,
            nullable: false,
            default: Some(DatabaseDefault::Raw("NOW()".to_string())),
            unique: false,
            constraint: None,
            primary_key: false,
            references: None,
        },
        DatabaseColumn {
            name: "name".to_string(),
            ty: DatabaseType::Text(None),
            nullable: false,
            default: None,
            unique: false,
            constraint: None,
            primary_key: false,
            references: None,
        },
        DatabaseColumn {
            name: "price".to_string(),
            ty: DatabaseType::BigInt,
            nullable: false,
            default: Some(DatabaseDefault::Int(0)),
            unique: false,
            constraint: None,
            primary_key: false,
            references: None,
        },
        DatabaseColumn {
            name: "description".to_string(),
            ty: DatabaseType::Text(Some(256)),
            nullable: true,
            default: None,
            unique: false,
            constraint: None,
            primary_key: false,
            references: None,
        },
    ];
    assert_eq!(columns, expected);
}

#[test]
fn protobuf_message_name() {
    assert_eq!(Product::protobuf_schema().name, "Product");
}

#[test]
fn protobuf_columns() {
    let fields = Product::protobuf_schema().fields;

    let expected = vec![
        ProtobufField {
            name: "name".to_string(),
            ty: ProtobufType::String,
            required: true,
        },
        ProtobufField {
            name: "price".to_string(),
            ty: ProtobufType::Int64,
            required: true,
        },
        ProtobufField {
            name: "description".to_string(),
            ty: ProtobufType::String,
            required: false,
        },
        ProtobufField {
            name: "comments".to_string(),
            ty: ProtobufType::Repeated(Box::new(ProtobufType::String)),
            required: true,
        },
    ];
    assert_eq!(fields, expected);
}

#[test]
fn protobuf_file_of_the_models() {
    let compiler =
        ProtobufCompiler::new(declared_models(), vec![ProductService::protobuf_service()]);
    let protobuf_file = compiler.compile_file();
    assert_eq!(
        protobuf_file,
        r#"syntax = "proto3";

package app;

import "google/protobuf/timestamp.proto";

message Product {
  string id = 1;
  google.protobuf.Timestamp created_at = 2;
  google.protobuf.Timestamp updated_at = 3;
  string name = 4;
  int64 price = 5;
  optional string description = 6;
}

message ProductId {
  string id = 1;
}

message ProductList {
  repeated Product products = 1;
}

message NewProduct {
  string name = 1;
  optional int64 price = 2;
  optional string description = 3;
}

service ProductService {
  rpc FindProduct(ProductId) returns (ProductList);
}"#
    );
}

#[test]
fn tables_and_sub_tables_of_the_models() {
    let compiler = DatabaseCompiler::new(declared_models());
    let tables = compiler.database_tables();
    assert_eq!(tables.len(), 1);
    assert_eq!(tables[0].0.name, "Product");
    assert_eq!(tables[0].1.table_name, "product");
    let sub_tables = compiler.database_sub_tables();
    assert_eq!(sub_tables.len(), 1);
    assert_eq!(sub_tables[0].0.name, "NewProduct");
    assert_eq!(sub_tables[0].1.table_name, "product");
    let messages = ProtobufCompiler::new(declared_models(), Vec::new());
    let names: Vec<String> =
        messages.protobuf_messages().iter().map(|(model, _)| model.name.clone()).collect();
    assert_eq!(names, vec!["Product", "ProductId", "ProductList", "NewProduct"]);
    assert_eq!(messages.all_protobuf_messages().len(), 4);
}

#[test]
fn protobuf_file_without_models_is_the_header() {
    let compiler = ProtobufCompiler::new(Vec::new(), Vec::new());
    assert_eq!(
        compiler.compile_file(),
        "syntax = \"proto3\";\n\npackage app;\n\nimport \"google/protobuf/timestamp.proto\";"
    );
}

struct NoServices;

impl Service for NoServices {}

struct Services;

impl Service for Services {
    fn protobuf_services() -> Vec<ProtobufService> {
        vec![ProductService::protobuf_service()]
    }
}

#[test]
fn application_names_its_services() {
    assert!(NoServices::protobuf_services().is_empty());
    let services = Services::protobuf_services();
    assert_eq!(services.len(), 1);
    assert_eq!(services[0].name, "ProductService");
    assert_eq!(services[0].module, "service::product");
    assert_eq!(services[0].methods[0].name, "FindProduct");
    assert!(services[0].methods[0].returns_result);
    assert!(!services[0].methods[0].is_async);
}
