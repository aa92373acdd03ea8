use vstd::prelude::*;
use vstd::std_specs::cmp::PartialEqSpecImpl;

use crate::errors::InfoError;
use crate::cpp_type::CppType;
use crate::cpp_ffi_data::IndirectionChange;
use crate::string_utils::{optional_strings_equal, string_lists_equal};

verus! {

/// A fully qualified Rust name, such as `cpp_utils::CppBox`, split into
/// its path components.
#[derive(Debug)]
pub struct RustName {
    pub parts: Vec<String>,
}

impl RustName {
    /// Two names are the same when their components hold the same texts.
    pub open spec fn same_as(self, other: RustName) -> bool {
        self.parts.deep_view() == other.parts.deep_view()
    }

    /// Creates a name from its components; a name cannot be empty.
    pub fn new(parts: Vec<String>) -> (r: Result<RustName, InfoError>)
        ensures
            parts.len() == 0 <==> r is Err,
            r matches Err(e) ==> e == InfoError::EmptyRustName,
            r matches Ok(n) ==> n.parts == parts,
    {
        if parts.len() == 0 {
            Err(InfoError::EmptyRustName)
        } else {
            Ok(RustName { parts })
        }
    }
}

impl Clone for RustName {
    fn clone(&self) -> (r: Self)
        ensures
            r.parts@ == self.parts@,
    {
        RustName { parts: self.parts.clone() }
    }
}

impl PartialEq for RustName {
    fn eq(&self, other: &Self) -> (r: bool) {
        string_lists_equal(&self.parts, &other.parts)
    }
}

impl PartialEqSpecImpl for RustName {
    open spec fn obeys_eq_spec() -> bool {
        true
    }

    open spec fn eq_spec(&self, other: &RustName) -> bool {
        self.same_as(*other)
    }
}

impl Eq for RustName {}

/// How a Rust type is reached: by value, through a pointer or a reference.
#[derive(Debug)]
pub enum RustTypeIndirection {
    NoIndirection,
    Ptr,
    Ref { lifetime: Option<String> },
    PtrPtr,
    PtrRef { lifetime: Option<String> },
}

/// Two optional lifetimes are the same when both are absent or both name
/// the same lifetime.
pub open spec fn same_lifetime(a: Option<String>, b: Option<String>) -> bool {
    match (a, b) {
        (None, None) => true,
        (Some(x), Some(y)) => x@ == y@,
        _ => false,
    }
}

impl RustTypeIndirection {
    pub open spec fn same_as(self, other: RustTypeIndirection) -> bool {
        match (self, other) {
            (RustTypeIndirection::NoIndirection, RustTypeIndirection::NoIndirection) => true,
            (RustTypeIndirection::Ptr, RustTypeIndirection::Ptr) => true,
            (RustTypeIndirection::Ref { lifetime: a }, RustTypeIndirection::Ref { lifetime: b }) =>
                same_lifetime(a, b),
            (RustTypeIndirection::PtrPtr, RustTypeIndirection::PtrPtr) => true,
            (
                RustTypeIndirection::PtrRef { lifetime: a },
                RustTypeIndirection::PtrRef { lifetime: b },
            ) => same_lifetime(a, b),
            _ => false,
        }
    }
}

fn clone_lifetime(a: &Option<String>) -> (r: Option<String>)
    ensures
        r == *a,
{
    match a {
        None => None,
        Some(x) => Some(x.clone()),
    }
}

impl Clone for RustTypeIndirection {
    fn clone(&self) -> (r: Self)
        ensures
            r == *self,
    {
        match self {
            RustTypeIndirection::NoIndirection => RustTypeIndirection::NoIndirection,
            RustTypeIndirection::Ptr => RustTypeIndirection::Ptr,
            RustTypeIndirection::Ref { lifetime } => RustTypeIndirection::Ref {
                lifetime: clone_lifetime(lifetime),
            },
            RustTypeIndirection::PtrPtr => RustTypeIndirection::PtrPtr,
            RustTypeIndirection::PtrRef { lifetime } => RustTypeIndirection::PtrRef {
                lifetime: clone_lifetime(lifetime),
            },
        }
    }
}

impl PartialEq for RustTypeIndirection {
    fn eq(&self, other: &Self) -> (r: bool) {
        match (self, other) {
            (RustTypeIndirection::NoIndirection, RustTypeIndirection::NoIndirection) => true,
            (RustTypeIndirection::Ptr, RustTypeIndirection::Ptr) => true,
            (RustTypeIndirection::Ref { lifetime: a }, RustTypeIndirection::Ref { lifetime: b }) =>
                optional_strings_equal(a, b),
            (RustTypeIndirection::PtrPtr, RustTypeIndirection::PtrPtr) => true,
            (
                RustTypeIndirection::PtrRef { lifetime: a },
                RustTypeIndirection::PtrRef { lifetime: b },
            ) => optional_strings_equal(a, b),
            _ => false,
        }
    }
}

impl PartialEqSpecImpl for RustTypeIndirection {
    open spec fn obeys_eq_spec() -> bool {
        true
    }

    open spec fn eq_spec(&self, other: &RustTypeIndirection) -> bool {
        self.same_as(*other)
    }
}

impl Eq for RustTypeIndirection {}

/// A Rust type as it appears in generated code.
#[derive(Debug)]
pub enum RustType {
    Void,
    Common {
        base: RustName,
        generic_arguments: Option<Vec<RustType>>,
        is_const: bool,
        is_const2: bool,
        indirection: RustTypeIndirection,
    },
    FunctionPointer { return_type: Box<RustType>, arguments: Vec<RustType> },
}

impl RustType {
    /// Structural sameness of two types, comparing names by their texts.
    pub open spec fn same_as(self, other: RustType) -> bool
        decreases self,
    {
        match self {
            RustType::Void => other is Void,
            RustType::Common { base, generic_arguments, is_const, is_const2, indirection } => {
                match other {
                    RustType::Common {
                        base: base2,
                        generic_arguments: generic_arguments2,
                        is_const: is_const_b,
                        is_const2: is_const2_b,
                        indirection: indirection2,
                    } => {
                        &&& base.same_as(base2)
                        &&& is_const == is_const_b
                        &&& is_const2 == is_const2_b
                        &&& indirection.same_as(indirection2)
                        &&& match (generic_arguments, generic_arguments2) {
                            (None, None) => true,
                            (Some(x), Some(y)) => {
                                &&& x.len() == y.len()
                                &&& forall|i: int|
                                    0 <= i < x.len() ==> (#[trigger] x@[i]).same_as(y@[i])
                            },
                            _ => false,
                        }
                    },
                    _ => false,
                }
            },
            RustType::FunctionPointer { return_type, arguments } => {
                match other {
                    RustType::FunctionPointer { return_type: return_type2, arguments: arguments2 } => {
                        &&& (*return_type).same_as(*return_type2)
                        &&& arguments.len() == arguments2.len()
                        &&& forall|i: int|
                            0 <= i < arguments.len() ==> (#[trigger] arguments@[i]).same_as(
                                arguments2@[i],
                            )
                    },
                    _ => false,
                }
            },
        }
    }
}

/// Whether two lists of types are pairwise the same.
pub open spec fn same_types(a: Seq<RustType>, b: Seq<RustType>) -> bool {
    &&& a.len() == b.len()
    &&& forall|i: int| 0 <= i < a.len() ==> (#[trigger] a[i]).same_as(b[i])
}

fn rust_types_equal(a: &RustType, b: &RustType) -> (r: bool)
    ensures
        r == a.same_as(*b),
    decreases a, 1nat,
{
    match (a, b) {
        (RustType::Void, RustType::Void) => true,
        (
            RustType::Common { base, generic_arguments, is_const, is_const2, indirection },
            RustType::Common {
                base: base2,
                generic_arguments: generic_arguments2,
                is_const: is_const_b,
                is_const2: is_const2_b,
                indirection: indirection2,
            },
        ) => {
            if !(*base == *base2) || *is_const != *is_const_b || *is_const2 != *is_const2_b
                || !(*indirection == *indirection2) {
                return false;
            }
            match (generic_arguments, generic_arguments2) {
                (None, None) => true,
                (Some(x), Some(y)) => rust_type_lists_equal(x, y),
                _ => false,
            }
        },
        (
            RustType::FunctionPointer { return_type, arguments },
            RustType::FunctionPointer { return_type: return_type2, arguments: arguments2 },
        ) => {
            if !rust_types_equal(return_type, return_type2) {
                return false;
            }
            rust_type_lists_equal(arguments, arguments2)
        },
        _ => false,
    }
}

fn rust_type_lists_equal(a: &Vec<RustType>, b: &Vec<RustType>) -> (r: bool)
    ensures
        r == same_types(a@, b@),
    decreases a, 0nat,
{
    if a.len() != b.len() {
        return false;
    }
    let n = a.len();
    for i in 0..n
        invariant
            n == a.len(),
            n == b.len(),
            forall|j: int| 0 <= j < i ==> (#[trigger] a@[j]).same_as(b@[j]),
    {
        if !rust_types_equal(&a[i], &b[i]) {
            return false;
        }
    }
    true
}

fn clone_rust_type(a: &RustType) -> (r: RustType)
    ensures
        r.same_as(*a),
    decreases a, 1nat,
{
    match a {
        RustType::Void => RustType::Void,
        RustType::Common { base, generic_arguments, is_const, is_const2, indirection } => {
            let generic_arguments = match generic_arguments {
                None => None,
                Some(x) => Some(clone_rust_type_list(x)),
            };
            RustType::Common {
                base: base.clone(),
                generic_arguments,
                is_const: *is_const,
                is_const2: *is_const2,
                indirection: indirection.clone(),
            }
        },
        RustType::FunctionPointer { return_type, arguments } => RustType::FunctionPointer {
            return_type: Box::new(clone_rust_type(return_type)),
            arguments: clone_rust_type_list(arguments),
        },
    }
}

fn clone_rust_type_list(a: &Vec<RustType>) -> (r: Vec<RustType>)
    ensures
        same_types(r@, a@),
    decreases a, 0nat,
{
    let mut r: Vec<RustType> = Vec::new();
    let n = a.len();
    for i in 0..n
        invariant
            n == a.len(),
            r.len() == i,
            forall|j: int| 0 <= j < i ==> (#[trigger] r@[j]).same_as(a@[j]),
    {
        r.push(clone_rust_type(&a[i]));
    }
    r
}

impl Clone for RustType {
    fn clone(&self) -> (r: Self)
        ensures
            r.same_as(*self),
    {
        clone_rust_type(self)
    }
}

impl PartialEq for RustType {
    fn eq(&self, other: &Self) -> (r: bool) {
        rust_types_equal(self, other)
    }
}

impl PartialEqSpecImpl for RustType {
    open spec fn obeys_eq_spec() -> bool {
        true
    }

    open spec fn eq_spec(&self, other: &RustType) -> bool {
        self.same_as(*other)
    }
}

impl Eq for RustType {}

/// How a value of the Rust API type is turned into the type the FFI
/// function takes.
#[derive(Debug, Clone, Copy, PartialEq, Eq, Structural)]
pub enum RustToCTypeConversion {
    NoConversion,
    RefToPtr,
    ValueToPtr,
    CppBoxToPtr,
    QFlagsToUInt,
}

/// A type as seen on all levels: the C++ type, its FFI counterpart, and
/// the Rust types of the FFI and of the public API, with the conversions
/// between them.
#[derive(Debug)]
pub struct CompleteType {
    pub cpp_type: CppType,
    pub cpp_ffi_type: CppType,
    pub cpp_to_ffi_conversion: IndirectionChange,
    pub rust_ffi_type: RustType,
    pub rust_api_type: RustType,
    pub rust_api_to_c_conversion: RustToCTypeConversion,
}

impl CompleteType {
    /// Two complete types are the same when they agree on every level.
    pub open spec fn same_as(self, other: CompleteType) -> bool {
        &&& self.cpp_type.same_as(other.cpp_type)
        &&& self.cpp_ffi_type.same_as(other.cpp_ffi_type)
        &&& self.cpp_to_ffi_conversion == other.cpp_to_ffi_conversion
        &&& self.rust_ffi_type.same_as(other.rust_ffi_type)
        &&& self.rust_api_type.same_as(other.rust_api_type)
        &&& self.rust_api_to_c_conversion == other.rust_api_to_c_conversion
    }
}

impl Clone for CompleteType {
    fn clone(&self) -> (r: Self)
        ensures
            r.same_as(*self),
    {
        CompleteType {
            cpp_type: self.cpp_type.clone(),
            cpp_ffi_type: self.cpp_ffi_type.clone(),
            cpp_to_ffi_conversion: self.cpp_to_ffi_conversion,
            rust_ffi_type: self.rust_ffi_type.clone(),
            rust_api_type: self.rust_api_type.clone(),
            rust_api_to_c_conversion: self.rust_api_to_c_conversion,
        }
    }
}

impl PartialEq for CompleteType {
    fn eq(&self, other: &Self) -> (r: bool) {
        self.cpp_type == other.cpp_type && self.cpp_ffi_type == other.cpp_ffi_type
            && self.cpp_to_ffi_conversion == other.cpp_to_ffi_conversion
            && self.rust_ffi_type == other.rust_ffi_type
            && self.rust_api_type == other.rust_api_type
            && self.rust_api_to_c_conversion == other.rust_api_to_c_conversion
    }
}

impl PartialEqSpecImpl for CompleteType {
    open spec fn obeys_eq_spec() -> bool {
        true
    }

    open spec fn eq_spec(&self, other: &CompleteType) -> bool {
        self.same_as(*other)
    }
}

impl Eq for CompleteType {}

/// Every type is the same as itself.
pub proof fn lemma_rust_type_same_reflexive(t: RustType)
    ensures
        t.same_as(t),
    decreases t,
{
    match t {
        RustType::Void => {},
        RustType::Common { generic_arguments, indirection, .. } => {
            assert(indirection.same_as(indirection));
            if let Some(x) = generic_arguments {
                assert forall|i: int| 0 <= i < x.len() implies (#[trigger] x@[i]).same_as(x@[i]) by {
                    lemma_rust_type_same_reflexive(x@[i]);
                }
            }
        },
        RustType::FunctionPointer { return_type, arguments } => {
            lemma_rust_type_same_reflexive(*return_type);
            assert forall|i: int| 0 <= i < arguments.len() implies (
            #[trigger] arguments@[i]).same_as(arguments@[i]) by {
                lemma_rust_type_same_reflexive(arguments@[i]);
            }
        },
    }
}

/// Sameness of types does not depend on the order of the two types.
pub proof fn lemma_rust_type_same_symmetric(a: RustType, b: RustType)
    ensures
        a.same_as(b) == b.same_as(a),
    decreases a,
{
    match (a, b) {
        (
            RustType::Common { generic_arguments: Some(x), .. },
            RustType::Common { generic_arguments: Some(y), .. },
        ) => {
            if x.len() == y.len() {
                assert forall|i: int| 0 <= i < x.len() implies (#[trigger] x@[i]).same_as(y@[i])
                    == y@[i].same_as(x@[i]) by {
                    lemma_rust_type_same_symmetric(x@[i], y@[i]);
                }
            }
        },
        (
            RustType::FunctionPointer { return_type: r1, arguments: x },
            RustType::FunctionPointer { return_type: r2, arguments: y },
        ) => {
            lemma_rust_type_same_symmetric(*r1, *r2);
            if x.len() == y.len() {
                assert forall|i: int| 0 <= i < x.len() implies (#[trigger] x@[i]).same_as(y@[i])
                    == y@[i].same_as(x@[i]) by {
                    lemma_rust_type_same_symmetric(x@[i], y@[i]);
                }
            }
        },
        _ => {},
    }
}

/// Sameness of types carries over: a type the same as a second one, which
/// is the same as a third one, is the same as the third one.
pub proof fn lemma_rust_type_same_transitive(a: RustType, b: RustType, c: RustType)
    requires
        a.same_as(b),
        b.same_as(c),
    ensures
        a.same_as(c),
    decreases a,
{
    match (a, b, c) {
        (
            RustType::Common { generic_arguments: Some(x), .. },
            RustType::Common { generic_arguments: Some(y), .. },
            RustType::Common { generic_arguments: Some(z), .. },
        ) => {
            assert forall|i: int| 0 <= i < x.len() implies (#[trigger] x@[i]).same_as(z@[i]) by {
                lemma_rust_type_same_transitive(x@[i], y@[i], z@[i]);
            }
        },
        (
            RustType::FunctionPointer { return_type: r1, arguments: x },
            RustType::FunctionPointer { return_type: r2, arguments: y },
            RustType::FunctionPointer { return_type: r3, arguments: z },
        ) => {
            lemma_rust_type_same_transitive(*r1, *r2, *r3);
            assert forall|i: int| 0 <= i < x.len() implies (#[trigger] x@[i]).same_as(z@[i]) by {
                lemma_rust_type_same_transitive(x@[i], y@[i], z@[i]);
            }
        },
        _ => {},
    }
}

} // verus!
