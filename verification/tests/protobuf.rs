use awto::compile::protobuf::ProtobufCompiler;
use awto::protobuf::{
    ProtobufField, ProtobufMethod, ProtobufSchema, ProtobufService, ProtobufType,
    ProtobufTypeFromStrError,
};

fn message(name: &str, fields: Vec<ProtobufField>) -> ProtobufSchema {
    ProtobufSchema { name: name.to_string(), fields, generated_code: None }
}

fn field(name: &str, ty: ProtobufType, required: bool) -> ProtobufField {
    ProtobufField { name: name.to_string(), ty, required }
}

fn scalars() -> Vec<(&'static str, ProtobufType)> {
    vec![
        ("double", ProtobufType::Double),
        ("float", ProtobufType::Float),
        ("int32", ProtobufType::Int32),
        ("int64", ProtobufType::Int64),
        ("uint32", ProtobufType::Uint32),
        ("uint64", ProtobufType::Uint64),
        ("sint32", ProtobufType::Sint32),
        ("sint64", ProtobufType::Sint64),
        ("fixed32", ProtobufType::Fixed32),
        ("fixed64", ProtobufType::Fixed64),
        ("sfixed32", ProtobufType::Sfixed32),
        ("sfixed64", ProtobufType::Sfixed64),
        ("bool", ProtobufType::Bool),
        ("string", ProtobufType::String),
        ("bytes", ProtobufType::Bytes),
        ("google.protobuf.Timestamp", ProtobufType::Timestamp),
    ]
}

#[test]
fn every_protobuf_type_has_its_name() {
    for (name, ty) in scalars() {
        assert_eq!(ty.to_string(), name);
    }
    assert_eq!(ProtobufType::Repeated(Box::new(ProtobufType::Int32)).to_string(), "repeated int32");
    assert_eq!(
        ProtobufType::Repeated(Box::new(ProtobufType::Repeated(Box::new(ProtobufType::Bytes))))
            .to_string(),
        "repeated repeated bytes"
    );
    assert_eq!(ProtobufType::Custom(message("Product", Vec::new())).to_string(), "Product");
    assert_eq!(
        ProtobufType::Repeated(Box::new(ProtobufType::Custom(message("Product", Vec::new()))))
            .to_string(),
        "repeated Product"
    );
}

#[test]
fn protobuf_type_names_are_read() {
    for (name, ty) in scalars() {
        if name == "string" {
            assert!(ProtobufType::from_str(name).is_err());
            assert_eq!(ProtobufType::from_str("String").unwrap().to_string(), "string");
        } else {
            assert_eq!(ProtobufType::from_str(name).unwrap().to_string(), ty.to_string());
            assert_eq!(name.parse::<ProtobufType>().unwrap().to_string(), name);
        }
    }
    let repeated = ProtobufType::from_str("repeated int64").unwrap();
    assert!(matches!(&repeated, ProtobufType::Repeated(inner) if matches!(**inner, ProtobufType::Int64)));
    let nested = ProtobufType::from_str("repeated repeated String").unwrap();
    assert_eq!(nested.to_string(), "repeated repeated string");
}

#[test]
fn other_names_are_no_protobuf_types() {
    for name in ["", "Product", "Double", "repeated", "repeated ", "repeated  int32", "int32 ",
        "repeated Product", "repeatedint32", "timestamp"]
    {
        assert!(
            matches!(ProtobufType::from_str(name), Err(ProtobufTypeFromStrError)),
            "{:?}",
            name
        );
    }
}

#[test]
fn fields_are_equal_by_name_type_name_and_required() {
    let a = field("owner", ProtobufType::Custom(message("User", Vec::new())), true);
    let b = field(
        "owner",
        ProtobufType::Custom(message("User", vec![field("id", ProtobufType::String, true)])),
        true,
    );
    assert_eq!(a, b);
    assert_ne!(a, field("owner", ProtobufType::Custom(message("Users", Vec::new())), true));
    assert_ne!(a, field("owners", ProtobufType::Custom(message("User", Vec::new())), true));
    assert_ne!(a, field("owner", ProtobufType::Custom(message("User", Vec::new())), false));
    assert_ne!(
        field("n", ProtobufType::Int32, true),
        field("n", ProtobufType::Repeated(Box::new(ProtobufType::Int32)), true)
    );
}

#[test]
fn copies_keep_what_is_written() {
    let list = message(
        "ProductList",
        vec![field(
            "products",
            ProtobufType::Repeated(Box::new(ProtobufType::Custom(message(
                "Product",
                vec![field("id", ProtobufType::String, true)],
            )))),
            false,
        )],
    );
    let copy = list.clone();
    assert_eq!(copy.name, "ProductList");
    assert_eq!(copy.fields, list.fields);
    assert_eq!(format!("{:?}", copy), format!("{:?}", list));
    assert_eq!(format!("{:?}", list.fields[0].ty.clone()), format!("{:?}", list.fields[0].ty));
}

#[test]
fn field_lines() {
    let compiler = ProtobufCompiler::new(Vec::new(), Vec::new());
    assert_eq!(
        compiler.write_protobuf_field(&field("name", ProtobufType::String, true), 0),
        "string name = 1;"
    );
    assert_eq!(
        compiler.write_protobuf_field(&field("price", ProtobufType::Int64, false), 9),
        "optional int64 price = 10;"
    );
    assert_eq!(
        compiler.write_protobuf_field(
            &field("tags", ProtobufType::Repeated(Box::new(ProtobufType::String)), true),
            41
        ),
        "repeated string tags = 42;"
    );
}

#[test]
fn message_and_service_blocks() {
    let compiler = ProtobufCompiler::new(Vec::new(), Vec::new());
    assert_eq!(compiler.write_protobuf_message(&message("Empty", Vec::new())), "message Empty {\n}\n");
    let product = message(
        "Product",
        vec![
            field("id", ProtobufType::String, true),
            field("description", ProtobufType::String, false),
        ],
    );
    assert_eq!(
        compiler.write_protobuf_message(&product),
        "message Product {\n  string id = 1;\n  optional string description = 2;\n}\n"
    );
    let find = ProtobufMethod {
        is_async: true,
        name: "FindProduct".to_string(),
        param: message("ProductId", Vec::new()),
        returns: product.clone(),
        returns_result: true,
    };
    assert_eq!(
        compiler.write_protobuf_method(&find),
        "rpc FindProduct(ProductId) returns (Product);\n"
    );
    let list = ProtobufMethod {
        is_async: false,
        name: "ListProducts".to_string(),
        param: message("Page", Vec::new()),
        returns: message("ProductList", Vec::new()),
        returns_result: false,
    };
    let service = ProtobufService {
        name: "ProductService".to_string(),
        module: "service".to_string(),
        methods: vec![find, list],
    };
    assert_eq!(
        compiler.write_protobuf_service(&service),
        "service ProductService {\n  rpc FindProduct(ProductId) returns (Product);\n  rpc ListProducts(Page) returns (ProductList);\n}\n"
    );
    assert_eq!(
        compiler.write_protobuf_header(),
        "syntax = \"proto3\";\n\npackage app;\n\nimport \"google/protobuf/timestamp.proto\";\n"
    );
    let only_services = ProtobufCompiler::new(Vec::new(), vec![service]);
    assert_eq!(
        only_services.compile_file(),
        "syntax = \"proto3\";\n\npackage app;\n\nimport \"google/protobuf/timestamp.proto\";\n\nservice ProductService {\n  rpc FindProduct(ProductId) returns (Product);\n  rpc ListProducts(Page) returns (ProductList);\n}"
    );
}
