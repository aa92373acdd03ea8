use lib::cpp_type::CppType;
use lib::errors::InfoError;
use lib::rust_type::{RustName, RustType, RustTypeIndirection};
use lib::string_utils::{decimal_string, join, string_is};

fn name(parts: &[&str]) -> RustName {
    RustName::new(parts.iter().map(|p| p.to_string()).collect()).unwrap()
}

#[test]
fn rust_name_must_not_be_empty() {
    assert_eq!(RustName::new(vec![]), Err(InfoError::EmptyRustName));
    assert_eq!(name(&["a", "b"]).parts, vec!["a".to_string(), "b".to_string()]);
}

#[test]
fn rust_types_compare_structurally() {
    let t = |args: Vec<RustType>| RustType::Common {
        base: name(&["qt_core", "QList"]),
        generic_arguments: Some(args),
        is_const: true,
        is_const2: false,
        indirection: RustTypeIndirection::Ref { lifetime: Some("a".to_string()) },
    };
    assert_eq!(t(vec![RustType::Void]), t(vec![RustType::Void]));
    assert_ne!(t(vec![RustType::Void]), t(vec![]));
    let f = RustType::FunctionPointer { return_type: Box::new(t(vec![])), arguments: vec![RustType::Void] };
    assert_eq!(f.clone(), f);
    assert_ne!(f, RustType::Void);
}

#[test]
fn void_cpp_type() {
    assert_eq!(CppType::void().spelling, "void");
}

#[test]
fn error_messages() {
    assert_eq!(InfoError::InvalidSelfArgumentType.message(), "invalid self argument type");
    assert_eq!(
        InfoError::UnsupportedSelfArgKindsCombination.message(),
        "unsupported self arg kinds combination"
    );
}

#[test]
fn decimal_strings() {
    assert_eq!(decimal_string(0), "0");
    assert_eq!(decimal_string(7), "7");
    assert_eq!(decimal_string(10), "10");
    assert_eq!(decimal_string(4096), "4096");
    assert_eq!(decimal_string(usize::MAX), usize::MAX.to_string());
}

#[test]
fn joining_strings() {
    assert_eq!(join(&vec![], "_"), "");
    assert_eq!(join(&vec!["a".to_string()], "_"), "a");
    assert_eq!(join(&vec!["a".to_string(), "".to_string(), "c".to_string()], "_"), "a__c");
}

#[test]
fn comparing_with_text() {
    assert!(string_is(&"self".to_string(), "self"));
    assert!(!string_is(&"self_".to_string(), "self"));
}
