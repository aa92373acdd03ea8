//! Data model and rules for describing generated Rust API items
//! (methods, their arguments and overloads, documentation cross references)
//! and the table of C++ operators that the generator recognizes.

pub mod cpp_data;
pub mod cpp_ffi_data;
pub mod cpp_method;
pub mod cpp_operators;
pub mod cpp_type;
pub mod cross_references;
pub mod errors;
pub mod overloads;
pub mod rust_info;
pub mod rust_type;
pub mod serializable;
pub mod string_utils;
