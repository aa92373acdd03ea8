use vstd::prelude::*;

verus! {

/// Documentation of a C++ type, as taken from the C++ library's reference,
/// with the names of the C++ items it refers to.
#[derive(Debug, Clone, PartialEq, Eq)]
pub struct CppTypeDoc {
    pub html: String,
    pub url: String,
    pub cross_references: Vec<String>,
}

} // verus!
