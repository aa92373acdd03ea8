use vstd::prelude::*;
use vstd::std_specs::cmp::PartialEqSpecImpl;

verus! {

/// A C++ type, held by its canonical spelling (such as `const QString&`).
/// The rules of this crate only ever ask whether two C++ types are the same.
#[derive(Debug)]
pub struct CppType {
    pub spelling: String,
}

impl CppType {
    /// Two C++ types are the same when they are spelled the same.
    pub open spec fn same_as(self, other: CppType) -> bool {
        self.spelling@ == other.spelling@
    }

    /// The `void` type.
    pub fn void() -> (r: CppType)
        ensures
            r.spelling@ == "void"@,
    {
        CppType { spelling: "void".to_string() }
    }
}

impl Clone for CppType {
    fn clone(&self) -> (r: Self)
        ensures
            r == *self,
    {
        CppType { spelling: self.spelling.clone() }
    }
}

impl PartialEq for CppType {
    fn eq(&self, other: &Self) -> (r: bool) {
        self.spelling == other.spelling
    }
}

impl PartialEqSpecImpl for CppType {
    open spec fn obeys_eq_spec() -> bool {
        true
    }

    open spec fn eq_spec(&self, other: &CppType) -> bool {
        self.same_as(*other)
    }
}

impl Eq for CppType {}

} // verus!
