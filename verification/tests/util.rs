use awto::compile::util::{is_ty_option, is_ty_vec, strip_ty_option};

#[test]
fn option_is_taken_off() {
    assert_eq!(strip_ty_option("Option<String>"), "String");
    assert_eq!(strip_ty_option("option::Option<i64>"), "i64");
    assert_eq!(strip_ty_option("std::option::Option<Vec<u8>>"), "Vec<u8>");
    assert_eq!(strip_ty_option("Option<Option<bool>>"), "Option<bool>");
    assert_eq!(strip_ty_option("Option<>"), "");
    assert_eq!(strip_ty_option("Option<é>"), "é");
    assert_eq!(strip_ty_option("Option<Stringx"), "String");
}

#[test]
fn other_types_stay() {
    assert_eq!(strip_ty_option("String"), "String");
    assert_eq!(strip_ty_option("Vec<Option<String>>"), "Vec<Option<String>>");
    assert_eq!(strip_ty_option("core::option::Option<String>"), "core::option::Option<String>");
    assert_eq!(strip_ty_option(""), "");
    assert_eq!(strip_ty_option("Option"), "Option");
    assert_eq!(strip_ty_option("é"), "é");
}

#[test]
fn option_is_recognised_in_three_spellings() {
    assert!(is_ty_option("Option<String>"));
    assert!(is_ty_option("option::Option<String>"));
    assert!(is_ty_option("std::option::Option<String>"));
    assert!(is_ty_option("Option<"));
    assert!(!is_ty_option("core::option::Option<String>"));
    assert!(!is_ty_option("Vec<Option<String>>"));
    assert!(!is_ty_option("Option"));
    assert!(!is_ty_option(""));
}

#[test]
fn vec_is_recognised_in_three_spellings() {
    assert!(is_ty_vec("Vec<u8>"));
    assert!(is_ty_vec("vec::Vec<Product>"));
    assert!(is_ty_vec("std::vec::Vec<Product>"));
    assert!(!is_ty_vec("alloc::vec::Vec<Product>"));
    assert!(!is_ty_vec("Option<Vec<u8>>"));
    assert!(is_ty_vec(strip_ty_option("Option<Vec<u8>>")));
    assert!(!is_ty_vec("Vec"));
    assert!(!is_ty_vec(""));
}
