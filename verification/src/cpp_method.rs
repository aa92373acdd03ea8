use vstd::prelude::*;

verus! {

/// Documentation of a C++ method, as taken from the C++ library's
/// reference, with the names of the C++ items it refers to.
#[derive(Debug, PartialEq, Eq)]
pub struct CppMethodDoc {
    pub html: String,
    pub url: String,
    pub cross_references: Vec<String>,
}

impl CppMethodDoc {
    /// Two documentation items are the same when all their texts agree.
    pub open spec fn same_as(self, other: CppMethodDoc) -> bool {
        &&& self.html == other.html
        &&& self.url == other.url
        &&& self.cross_references@ == other.cross_references@
    }
}

impl Clone for CppMethodDoc {
    fn clone(&self) -> (r: Self)
        ensures
            r.same_as(*self),
    {
        CppMethodDoc {
            html: self.html.clone(),
            url: self.url.clone(),
            cross_references: self.cross_references.clone(),
        }
    }
}

} // verus!
