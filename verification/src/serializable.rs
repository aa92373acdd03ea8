use vstd::prelude::*;

use crate::rust_type::RustType;

verus! {

/// Documentation of one variant of a C++ enum.
#[derive(Debug, Clone, PartialEq, Eq)]
pub struct CppEnumValueDocItem {
    pub variant_name: String,
    pub doc: Option<String>,
}

/// A variant of a generated Rust enum.
#[derive(Debug, Clone, PartialEq, Eq)]
pub struct RustEnumValue {
    pub name: String,
    pub value: i64,
    pub cpp_docs: Vec<CppEnumValueDocItem>,
    pub is_dummy: bool,
}

/// The Rust side of a Qt slot wrapper.
#[derive(Debug, Clone, PartialEq, Eq)]
pub struct RustQtSlotWrapper {
    pub arguments: Vec<RustType>,
    pub receiver_id: String,
    pub public_type_name: String,
    pub callback_name: String,
}

/// What kind of Rust type wraps a C++ type.
#[derive(Debug, Clone, PartialEq, Eq)]
pub enum RustTypeWrapperKind {
    Enum { values: Vec<RustEnumValue>, is_flaggable: bool },
    Struct {
        size_const_name: Option<String>,
        is_deletable: bool,
        slot_wrapper: Option<RustQtSlotWrapper>,
    },
}

} // verus!
