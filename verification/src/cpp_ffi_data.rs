use vstd::prelude::*;

verus! {

/// How a value changes its indirection on its way from the C++ API to the
/// C FFI function that wraps it.
#[derive(Debug, Clone, Copy, PartialEq, Eq, Structural)]
pub enum IndirectionChange {
    NoChange,
    ValueToPointer,
    ReferenceToPointer,
    QFlagsToUInt,
}

/// A C++ method together with the C function that wraps it, identified by
/// the name of that C function.
#[derive(Debug, PartialEq, Eq)]
pub struct CppAndFfiMethod {
    pub c_name: String,
}

impl Clone for CppAndFfiMethod {
    fn clone(&self) -> (r: Self)
        ensures
            r == *self,
    {
        CppAndFfiMethod { c_name: self.c_name.clone() }
    }
}

} // verus!
