use lib::cpp_ffi_data::{CppAndFfiMethod, IndirectionChange};
use lib::cpp_method::CppMethodDoc;
use lib::cpp_type::CppType;
use lib::errors::InfoError;
use lib::cross_references::CrossReferenceTable;
use lib::overloads::SelfArgKindSet;
use lib::rust_info::{
    allocation_place_marker, RustCrossReference, RustCrossReferenceKind, RustMethod,
    RustMethodArgument, RustMethodArguments, RustMethodArgumentsVariant,
    RustMethodCaptionStrategy, RustMethodDocItem, RustMethodScope, RustMethodSelfArgKind,
    RustModule, RustSingleMethod,
};
use lib::rust_type::{CompleteType, RustName, RustToCTypeConversion, RustType, RustTypeIndirection};

fn name(parts: &[&str]) -> RustName {
    RustName::new(parts.iter().map(|p| p.to_string()).collect()).unwrap()
}

fn common(base: &[&str], is_const: bool, indirection: RustTypeIndirection) -> RustType {
    RustType::Common {
        base: name(base),
        generic_arguments: None,
        is_const,
        is_const2: false,
        indirection,
    }
}

fn complete(cpp: &str, rust_api_type: RustType) -> CompleteType {
    CompleteType {
        cpp_type: CppType { spelling: cpp.to_string() },
        cpp_ffi_type: CppType { spelling: cpp.to_string() },
        cpp_to_ffi_conversion: IndirectionChange::NoChange,
        rust_ffi_type: rust_api_type.clone(),
        rust_api_type,
        rust_api_to_c_conversion: RustToCTypeConversion::NoConversion,
    }
}

fn arg(arg_name: &str, rust_api_type: RustType) -> RustMethodArgument {
    RustMethodArgument {
        argument_type: complete("int", rust_api_type),
        name: arg_name.to_string(),
        ffi_index: Some(0),
    }
}

fn int_arg(arg_name: &str) -> RustMethodArgument {
    arg(arg_name, common(&["i32"], false, RustTypeIndirection::NoIndirection))
}

fn self_ref(is_const: bool) -> RustMethodArgument {
    arg("self", common(&["qt_core", "QString"], is_const, RustTypeIndirection::Ref { lifetime: None }))
}

fn self_value() -> RustMethodArgument {
    arg("self", common(&["qt_core", "QString"], false, RustTypeIndirection::NoIndirection))
}

fn doc(cpp_refs: &[&str]) -> RustMethodDocItem {
    RustMethodDocItem {
        doc: Some(CppMethodDoc {
            html: "<p>doc</p>".to_string(),
            url: "http://doc".to_string(),
            cross_references: cpp_refs.iter().map(|r| r.to_string()).collect(),
        }),
        rust_fns: vec!["f".to_string()],
        cpp_fn: "QString::f".to_string(),
        rust_cross_references: Vec::new(),
    }
}

fn method(args: Vec<RustMethodArgument>) -> RustSingleMethod {
    RustSingleMethod {
        scope: RustMethodScope::Free,
        is_unsafe: false,
        name: name(&["qt_core", "f"]),
        arguments: RustMethodArgumentsVariant {
            arguments: args,
            cpp_method: CppAndFfiMethod { c_name: "QString_f".to_string() },
            return_type_ffi_index: None,
            return_type: complete("void", RustType::Void),
        },
        doc: None,
    }
}

fn kinds(list: &[RustMethodSelfArgKind]) -> SelfArgKindSet {
    let mut s = SelfArgKindSet::new();
    for k in list {
        s.insert(*k);
    }
    s
}

fn reference(item: &[&str]) -> RustCrossReference {
    RustCrossReference::new(name(item), RustCrossReferenceKind::Type)
}

#[test]
fn self_arg_kind_of_static_methods() {
    assert_eq!(method(vec![]).self_arg_kind(), Ok(RustMethodSelfArgKind::Static));
    assert_eq!(method(vec![int_arg("x")]).self_arg_kind(), Ok(RustMethodSelfArgKind::Static));
}

#[test]
fn self_arg_kind_of_self_arguments() {
    assert_eq!(method(vec![self_ref(true)]).self_arg_kind(), Ok(RustMethodSelfArgKind::ConstRef));
    assert_eq!(
        method(vec![self_ref(false), int_arg("x")]).self_arg_kind(),
        Ok(RustMethodSelfArgKind::MutRef)
    );
    assert_eq!(method(vec![self_value()]).self_arg_kind(), Ok(RustMethodSelfArgKind::Value));
}

#[test]
fn self_arg_kind_rejects_invalid_self_types() {
    let ptr = arg("self", common(&["QString"], true, RustTypeIndirection::Ptr));
    assert_eq!(method(vec![ptr]).self_arg_kind(), Err(InfoError::InvalidSelfArgumentType));
    let void = arg("self", RustType::Void);
    assert_eq!(method(vec![void]).self_arg_kind(), Err(InfoError::InvalidSelfArgumentType));
}

#[test]
fn overloading_requires_same_self_kind() {
    let a = method(vec![self_ref(true), int_arg("x")]);
    let b = method(vec![int_arg("x")]);
    assert_eq!(a.can_be_overloaded_with(&b, &vec![]), Ok(false));
}

#[test]
fn overloading_with_indistinguishable_arguments_is_refused() {
    let a = method(vec![self_ref(true), int_arg("x")]);
    let b = method(vec![self_ref(true), int_arg("y")]);
    assert_eq!(a.can_be_overloaded_with(&b, &vec![true, true]), Ok(false));
    assert_eq!(a.can_be_overloaded_with(&a, &vec![true, true]), Ok(false));
}

#[test]
fn overloading_with_distinguishable_arguments() {
    let a = method(vec![self_ref(true), int_arg("x")]);
    let b = method(vec![self_ref(true), int_arg("x")]);
    assert_eq!(a.can_be_overloaded_with(&b, &vec![true, false]), Ok(true));
    let c = method(vec![self_ref(true)]);
    assert_eq!(a.can_be_overloaded_with(&c, &vec![]), Ok(true));
    assert_eq!(c.can_be_overloaded_with(&a, &vec![]), Ok(true));
}

#[test]
fn overloading_with_different_allocation_markers() {
    let a = method(vec![int_arg("x"), allocation_place_marker("RustManaged").unwrap()]);
    let b = method(vec![int_arg("x"), allocation_place_marker("CppPointer").unwrap()]);
    assert_eq!(a.can_be_overloaded_with(&b, &vec![true, true]), Ok(true));
    assert_eq!(b.can_be_overloaded_with(&a, &vec![true, true]), Ok(true));
    let c = method(vec![int_arg("x"), allocation_place_marker("RustManaged").unwrap()]);
    assert_eq!(a.can_be_overloaded_with(&c, &vec![true, true]), Ok(false));
}

#[test]
fn overloading_reports_invalid_self_arguments() {
    let bad = method(vec![arg("self", RustType::Void)]);
    let good = method(vec![]);
    assert_eq!(bad.can_be_overloaded_with(&good, &vec![]), Err(InfoError::InvalidSelfArgumentType));
    assert_eq!(good.can_be_overloaded_with(&bad, &vec![]), Err(InfoError::InvalidSelfArgumentType));
}

#[test]
fn name_suffix_without_distinction() {
    let m = method(vec![self_ref(true), int_arg("x")]);
    let all = kinds(&[RustMethodSelfArgKind::ConstRef]);
    assert_eq!(m.name_suffix(&RustMethodCaptionStrategy::NoArgs, &all, 0, &vec![]), Ok(None));
}

#[test]
fn name_suffix_of_static_and_mut_methods() {
    let all = kinds(&[RustMethodSelfArgKind::Static, RustMethodSelfArgKind::ConstRef, RustMethodSelfArgKind::MutRef]);
    let s = method(vec![int_arg("x")]);
    assert_eq!(
        s.name_suffix(&RustMethodCaptionStrategy::NoArgs, &all, 0, &vec![]),
        Ok(Some("static".to_string()))
    );
    let m = method(vec![self_ref(false), int_arg("x"), int_arg("y")]);
    assert_eq!(
        m.name_suffix(&RustMethodCaptionStrategy::ArgNames, &all, 0, &vec![]),
        Ok(Some("mut_self_x_y".to_string()))
    );
    let c = method(vec![self_ref(true)]);
    assert_eq!(
        c.name_suffix(&RustMethodCaptionStrategy::Index, &all, 12, &vec![]),
        Ok(Some("12".to_string()))
    );
}

#[test]
fn name_suffix_of_mut_method_without_const_overload() {
    let all = kinds(&[RustMethodSelfArgKind::Static, RustMethodSelfArgKind::MutRef]);
    let m = method(vec![self_ref(false)]);
    assert_eq!(m.name_suffix(&RustMethodCaptionStrategy::NoArgs, &all, 0, &vec![]), Ok(None));
}

#[test]
fn name_suffix_of_value_self_is_unsupported() {
    let all = kinds(&[RustMethodSelfArgKind::Value, RustMethodSelfArgKind::ConstRef]);
    let m = method(vec![self_value()]);
    assert_eq!(
        m.name_suffix(&RustMethodCaptionStrategy::NoArgs, &all, 0, &vec![]),
        Err(InfoError::UnsupportedSelfArgKindsCombination)
    );
}

#[test]
fn name_suffix_by_argument_types() {
    let all = kinds(&[RustMethodSelfArgKind::ConstRef]);
    let m = method(vec![self_ref(true), int_arg("x")]);
    let captions = vec![Ok("q_string_ref".to_string()), Ok("i32".to_string())];
    assert_eq!(
        m.name_suffix(&RustMethodCaptionStrategy::ArgTypes, &all, 0, &captions),
        Ok(Some("q_string_ref_i32".to_string()))
    );
    let failing = vec![Ok("q_string_ref".to_string()), Err(InfoError::ArgumentTypeCaption)];
    assert_eq!(
        m.name_suffix(&RustMethodCaptionStrategy::ArgTypes, &all, 0, &failing),
        Err(InfoError::ArgumentTypeCaption)
    );
    let first_error_wins = vec![Err(InfoError::EmptyRustName), Err(InfoError::ArgumentTypeCaption)];
    assert_eq!(
        m.name_suffix(&RustMethodCaptionStrategy::ArgTypes, &all, 0, &first_error_wins),
        Err(InfoError::EmptyRustName)
    );
}

#[test]
fn name_suffix_of_method_without_arguments() {
    let all = kinds(&[RustMethodSelfArgKind::Static]);
    let m = method(vec![]);
    assert_eq!(
        m.name_suffix(&RustMethodCaptionStrategy::ArgNames, &all, 0, &vec![]),
        Ok(Some("no_args".to_string()))
    );
    assert_eq!(
        m.name_suffix(&RustMethodCaptionStrategy::ArgTypes, &all, 0, &vec![]),
        Ok(Some("no_args".to_string()))
    );
}

#[test]
fn index_suffixes_differ() {
    let all = kinds(&[RustMethodSelfArgKind::Static, RustMethodSelfArgKind::ConstRef]);
    let m = method(vec![int_arg("x")]);
    let a = m.name_suffix(&RustMethodCaptionStrategy::Index, &all, 1, &vec![]).unwrap();
    let b = m.name_suffix(&RustMethodCaptionStrategy::Index, &all, 10, &vec![]).unwrap();
    assert_eq!(a, Some("static_1".to_string()));
    assert_eq!(b, Some("static_10".to_string()));
    assert_ne!(a, b);
}

#[test]
fn to_rust_method_with_doc() {
    let mut m = method(vec![self_ref(true)]);
    m.doc = Some(doc(&["QString::f", "QString"]));
    m.is_unsafe = true;
    let r = m.to_rust_method();
    assert_eq!(r.name, m.name);
    assert_eq!(r.scope, RustMethodScope::Free);
    assert!(r.is_unsafe);
    assert_eq!(r.arguments, RustMethodArguments::SingleVariant(m.arguments.clone()));
    assert_eq!(r.docs, vec![m.doc.clone().unwrap()]);
    assert_eq!(r.cpp_cross_references(), vec!["QString::f".to_string(), "QString".to_string()]);
}

#[test]
fn to_rust_method_without_doc() {
    let m = method(vec![]);
    let r = m.to_rust_method();
    assert!(r.docs.is_empty());
    assert!(r.cpp_cross_references().is_empty());
}

fn rust_method(docs: Vec<RustMethodDocItem>) -> RustMethod {
    let mut r = method(vec![]).to_rust_method();
    r.docs = docs;
    r
}

#[test]
fn cpp_cross_references_concatenates_docs() {
    let mut no_doc = doc(&[]);
    no_doc.doc = None;
    let m = rust_method(vec![doc(&["A", "B"]), no_doc, doc(&["C"])]);
    assert_eq!(
        m.cpp_cross_references(),
        vec!["A".to_string(), "B".to_string(), "C".to_string()]
    );
}

#[test]
fn add_rust_cross_references_resolves_known_names() {
    let mut no_doc = doc(&[]);
    no_doc.doc = None;
    no_doc.rust_cross_references = vec![reference(&["old"])];
    let mut m = rust_method(vec![doc(&["A", "X", "B"]), no_doc]);
    let mut table = CrossReferenceTable::new();
    table.insert("A".to_string(), reference(&["qt", "A"]));
    table.insert("B".to_string(), reference(&["qt", "B"]));
    m.add_rust_cross_references(table);
    assert_eq!(m.docs[0].rust_cross_references, vec![reference(&["qt", "A"]), reference(&["qt", "B"])]);
    assert!(m.docs[1].rust_cross_references.is_empty());
    assert_eq!(m.cpp_cross_references(), vec!["A".to_string(), "X".to_string(), "B".to_string()]);
}

#[test]
fn add_rust_cross_references_twice_is_the_same() {
    let mut m = rust_method(vec![doc(&["A", "A"])]);
    let make_table = || {
        let mut t = CrossReferenceTable::new();
        t.insert("A".to_string(), reference(&["first"]));
        t.insert("A".to_string(), reference(&["second"]));
        t
    };
    m.add_rust_cross_references(make_table());
    let once = m.clone();
    m.add_rust_cross_references(make_table());
    assert_eq!(m, once);
    assert_eq!(m.docs[0].rust_cross_references, vec![reference(&["second"]), reference(&["second"])]);
}

#[test]
fn cross_reference_table_lookup() {
    let mut t = CrossReferenceTable::new();
    assert!(t.get(&"A".to_string()).is_none());
    t.insert("A".to_string(), reference(&["a"]));
    t.insert("B".to_string(), reference(&["b"]));
    t.insert("A".to_string(), reference(&["c"]));
    assert_eq!(t.get(&"A".to_string()), Some(&reference(&["c"])));
    assert_eq!(t.get(&"B".to_string()), Some(&reference(&["b"])));
    assert!(t.get(&"C".to_string()).is_none());
}

#[test]
fn allocation_place_marker_argument() {
    let a = allocation_place_marker("RustManaged").unwrap();
    assert_eq!(a.name, "allocation_place_marker");
    assert_eq!(a.ffi_index, None);
    assert_eq!(a.argument_type.cpp_type, CppType { spelling: "void".to_string() });
    assert_eq!(a.argument_type.cpp_ffi_type, CppType::void());
    assert_eq!(a.argument_type.cpp_to_ffi_conversion, IndirectionChange::NoChange);
    assert_eq!(a.argument_type.rust_ffi_type, RustType::Void);
    assert_eq!(
        a.argument_type.rust_api_type,
        common(&["cpp_utils", "RustManaged"], false, RustTypeIndirection::NoIndirection)
    );
    assert_eq!(a.argument_type.rust_api_to_c_conversion, RustToCTypeConversion::NoConversion);
    assert_eq!(method(vec![a]).self_arg_kind(), Ok(RustMethodSelfArgKind::Static));
}

#[test]
fn caption_strategies_in_order() {
    assert_eq!(
        RustMethodCaptionStrategy::all(),
        &[
            RustMethodCaptionStrategy::NoArgs,
            RustMethodCaptionStrategy::ArgTypes,
            RustMethodCaptionStrategy::ArgNames,
            RustMethodCaptionStrategy::Index,
        ]
    );
}

#[test]
fn self_arg_kind_set_counts_kinds() {
    let mut s = SelfArgKindSet::new();
    assert_eq!(s.len(), 0);
    s.insert(RustMethodSelfArgKind::MutRef);
    s.insert(RustMethodSelfArgKind::MutRef);
    assert_eq!(s.len(), 1);
    s.insert(RustMethodSelfArgKind::Static);
    assert_eq!(s.len(), 2);
    assert!(s.contains(RustMethodSelfArgKind::Static));
    assert!(!s.contains(RustMethodSelfArgKind::ConstRef));
}

#[test]
fn only_first_argument_decides_self_kind() {
    assert_eq!(
        method(vec![int_arg("x"), self_ref(true)]).self_arg_kind(),
        Ok(RustMethodSelfArgKind::Static)
    );
    assert_eq!(
        method(vec![self_ref(true), self_ref(false), arg("self", RustType::Void)]).self_arg_kind(),
        Ok(RustMethodSelfArgKind::ConstRef)
    );
}

#[test]
fn cloned_cross_references_are_equal() {
    let method_ref = RustCrossReference::new(
        name(&["qt_core", "QString", "f"]),
        RustCrossReferenceKind::Method {
            scope: RustMethodScope::Impl {
                target_type: common(&["qt_core", "QString"], false, RustTypeIndirection::NoIndirection),
            },
        },
    );
    assert_eq!(method_ref.clone(), method_ref);
    assert_ne!(method_ref, reference(&["qt_core", "QString", "f"]));
}

#[test]
fn modules_clone_with_their_submodules() {
    let leaf = |n: &str| RustModule {
        name: n.to_string(),
        types: vec![],
        functions: vec![rust_method(vec![doc(&["A"])])],
        trait_impls: vec![],
        submodules: vec![],
    };
    let root = RustModule {
        name: "root".to_string(),
        types: vec![],
        functions: vec![],
        trait_impls: vec![],
        submodules: vec![leaf("a"), leaf("b")],
    };
    let copy = root.clone();
    assert_eq!(copy, root);
    assert_eq!(copy.submodules[1].name, "b");
}
