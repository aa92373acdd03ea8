use vstd::prelude::*;
use vstd::std_specs::cmp::PartialEqSpecImpl;

use crate::cpp_data::CppTypeDoc;
use crate::cpp_ffi_data::{CppAndFfiMethod, IndirectionChange};
use crate::cpp_method::CppMethodDoc;
use crate::cpp_type::CppType;
use crate::errors::InfoError;
use crate::rust_type::{
    lemma_rust_type_same_symmetric, lemma_rust_type_same_transitive, CompleteType, RustName, RustToCTypeConversion, RustType, RustTypeIndirection,
};
use crate::serializable::RustTypeWrapperKind;
use crate::string_utils::string_is;

verus! {

/// Documentation attached to a generated Rust method: the C++ documentation
/// it comes from and the Rust items it refers to.
#[derive(Debug, PartialEq, Eq)]
pub struct RustMethodDocItem {
    pub doc: Option<CppMethodDoc>,
    pub rust_fns: Vec<String>,
    pub cpp_fn: String,
    pub rust_cross_references: Vec<RustCrossReference>,
}

/// Two optional C++ documentation items are both absent or the same.
pub open spec fn same_cpp_doc(a: Option<CppMethodDoc>, b: Option<CppMethodDoc>) -> bool {
    match (a, b) {
        (None, None) => true,
        (Some(x), Some(y)) => x.same_as(y),
        _ => false,
    }
}

impl RustMethodDocItem {
    /// A copy of a documentation item: the same texts, and cross references
    /// to the same items as those of `source`.
    pub open spec fn copied_from(self, source: RustMethodDocItem) -> bool {
        &&& same_cpp_doc(self.doc, source.doc)
        &&& self.rust_fns@ == source.rust_fns@
        &&& self.cpp_fn == source.cpp_fn
        &&& self.rust_cross_references@.len() == source.rust_cross_references@.len()
        &&& forall|j: int|
            0 <= j < self.rust_cross_references@.len() ==> (
            #[trigger] self.rust_cross_references@[j]).same_as(source.rust_cross_references@[j])
    }
}

impl Clone for RustMethodDocItem {
    fn clone(&self) -> (r: Self)
        ensures
            r.copied_from(*self),
    {
        let doc = match &self.doc {
            None => None,
            Some(d) => Some(d.clone()),
        };
        let mut rust_cross_references: Vec<RustCrossReference> = Vec::new();
        let n = self.rust_cross_references.len();
        for i in 0..n
            invariant
                n == self.rust_cross_references.len(),
                rust_cross_references.len() == i,
                forall|j: int|
                    0 <= j < i ==> (#[trigger] rust_cross_references@[j]).same_as(
                        self.rust_cross_references@[j],
                    ),
        {
            rust_cross_references.push(self.rust_cross_references[i].clone());
        }
        RustMethodDocItem {
            doc,
            rust_fns: self.rust_fns.clone(),
            cpp_fn: self.cpp_fn.clone(),
            rust_cross_references,
        }
    }
}

/// Where a generated Rust method lives.
#[derive(Debug)]
pub enum RustMethodScope {
    Impl { target_type: RustType },
    TraitImpl,
    Free,
}

impl RustMethodScope {
    /// Two scopes are the same kind of scope, with the same target type.
    pub open spec fn same_as(self, other: RustMethodScope) -> bool {
        match (self, other) {
            (RustMethodScope::Impl { target_type: a }, RustMethodScope::Impl { target_type: b }) =>
                a.same_as(b),
            (RustMethodScope::TraitImpl, RustMethodScope::TraitImpl) => true,
            (RustMethodScope::Free, RustMethodScope::Free) => true,
            _ => false,
        }
    }
}

impl Clone for RustMethodScope {
    fn clone(&self) -> (r: Self)
        ensures
            r.same_as(*self),
    {
        match self {
            RustMethodScope::Impl { target_type } => RustMethodScope::Impl {
                target_type: target_type.clone(),
            },
            RustMethodScope::TraitImpl => RustMethodScope::TraitImpl,
            RustMethodScope::Free => RustMethodScope::Free,
        }
    }
}

impl PartialEq for RustMethodScope {
    fn eq(&self, other: &Self) -> (r: bool) {
        match (self, other) {
            (RustMethodScope::Impl { target_type: a }, RustMethodScope::Impl { target_type: b }) =>
                *a == *b,
            (RustMethodScope::TraitImpl, RustMethodScope::TraitImpl) => true,
            (RustMethodScope::Free, RustMethodScope::Free) => true,
            _ => false,
        }
    }
}

impl PartialEqSpecImpl for RustMethodScope {
    open spec fn obeys_eq_spec() -> bool {
        true
    }

    open spec fn eq_spec(&self, other: &RustMethodScope) -> bool {
        self.same_as(*other)
    }
}

impl Eq for RustMethodScope {}

/// An argument of a generated Rust method.
#[derive(Debug)]
pub struct RustMethodArgument {
    pub argument_type: CompleteType,
    pub name: String,
    pub ffi_index: Option<i32>,
}

impl RustMethodArgument {
    /// Two arguments are the same when type, name and FFI position agree.
    pub open spec fn same_as(self, other: RustMethodArgument) -> bool {
        &&& self.argument_type.same_as(other.argument_type)
        &&& self.name@ == other.name@
        &&& self.ffi_index == other.ffi_index
    }
}

impl Clone for RustMethodArgument {
    fn clone(&self) -> (r: Self)
        ensures
            r.same_as(*self),
    {
        RustMethodArgument {
            argument_type: self.argument_type.clone(),
            name: self.name.clone(),
            ffi_index: self.ffi_index,
        }
    }
}

/// Whether two argument lists are pairwise the same.
pub open spec fn same_arguments(a: Seq<RustMethodArgument>, b: Seq<RustMethodArgument>) -> bool {
    &&& a.len() == b.len()
    &&& forall|i: int| 0 <= i < a.len() ==> (#[trigger] a[i]).same_as(b[i])
}

impl PartialEq for RustMethodArgument {
    fn eq(&self, other: &Self) -> (r: bool) {
        let same_index = match (self.ffi_index, other.ffi_index) {
            (None, None) => true,
            (Some(a), Some(b)) => a == b,
            _ => false,
        };
        self.argument_type == other.argument_type && self.name == other.name && same_index
    }
}

impl PartialEqSpecImpl for RustMethodArgument {
    open spec fn obeys_eq_spec() -> bool {
        true
    }

    open spec fn eq_spec(&self, other: &RustMethodArgument) -> bool {
        self.same_as(*other)
    }
}

impl Eq for RustMethodArgument {}

/// One way of calling a generated Rust method: its arguments, the C++
/// method and FFI function behind it, and its return type.
#[derive(Debug, PartialEq, Eq)]
pub struct RustMethodArgumentsVariant {
    pub arguments: Vec<RustMethodArgument>,
    pub cpp_method: CppAndFfiMethod,
    pub return_type_ffi_index: Option<i32>,
    pub return_type: CompleteType,
}

impl RustMethodArgumentsVariant {
    /// Two variants agree on arguments, C++ method and return type.
    pub open spec fn same_as(self, other: RustMethodArgumentsVariant) -> bool {
        &&& same_arguments(self.arguments@, other.arguments@)
        &&& self.cpp_method == other.cpp_method
        &&& self.return_type_ffi_index == other.return_type_ffi_index
        &&& self.return_type.same_as(other.return_type)
    }
}

impl Clone for RustMethodArgumentsVariant {
    fn clone(&self) -> (r: Self)
        ensures
            r.same_as(*self),
    {
        let mut arguments: Vec<RustMethodArgument> = Vec::new();
        let n = self.arguments.len();
        for i in 0..n
            invariant
                n == self.arguments.len(),
                arguments.len() == i,
                forall|j: int| 0 <= j < i ==> (#[trigger] arguments@[j]).same_as(self.arguments@[j]),
        {
            arguments.push(self.arguments[i].clone());
        }
        RustMethodArgumentsVariant {
            arguments,
            cpp_method: self.cpp_method.clone(),
            return_type_ffi_index: self.return_type_ffi_index,
            return_type: self.return_type.clone(),
        }
    }
}

/// The arguments of a generated Rust method: a single variant, or several
/// variants selected through a parameters trait.
#[derive(Debug, PartialEq, Eq, Clone)]
pub enum RustMethodArguments {
    SingleVariant(RustMethodArgumentsVariant),
    MultipleVariants {
        params_trait_name: String,
        params_trait_lifetime: Option<String>,
        params_trait_return_type: Option<RustType>,
        shared_arguments: Vec<RustMethodArgument>,
        variant_argument_name: String,
        cpp_method_name: String,
    },
}

/// A generated Rust method, possibly with several argument variants.
#[derive(Debug, PartialEq, Eq, Clone)]
pub struct RustMethod {
    pub scope: RustMethodScope,
    pub is_unsafe: bool,
    pub name: RustName,
    pub arguments: RustMethodArguments,
    pub docs: Vec<RustMethodDocItem>,
}

/// A generated Rust method with a single argument variant.
#[derive(Debug, PartialEq, Eq, Clone)]
pub struct RustSingleMethod {
    pub scope: RustMethodScope,
    pub is_unsafe: bool,
    pub name: RustName,
    pub arguments: RustMethodArgumentsVariant,
    pub doc: Option<RustMethodDocItem>,
}

/// How a method receives `self`.
#[derive(Debug, PartialEq, Eq, Clone, Copy, Hash, Structural)]
pub enum RustMethodSelfArgKind {
    Static,
    ConstRef,
    MutRef,
    Value,
}

/// The kind of `self` argument that an argument list declares: a method
/// whose first argument is not named `self` is static; a `self` argument
/// must be a value or a reference.
pub open spec fn self_arg_kind_of(args: Seq<RustMethodArgument>) -> Result<
    RustMethodSelfArgKind,
    InfoError,
> {
    if args.len() == 0 || args[0].name@ != "self"@ {
        Ok(RustMethodSelfArgKind::Static)
    } else {
        match args[0].argument_type.rust_api_type {
            RustType::Common { indirection, is_const, .. } => match indirection {
                RustTypeIndirection::Ref { .. } => if is_const {
                    Ok(RustMethodSelfArgKind::ConstRef)
                } else {
                    Ok(RustMethodSelfArgKind::MutRef)
                },
                RustTypeIndirection::NoIndirection => Ok(RustMethodSelfArgKind::Value),
                _ => Err(InfoError::InvalidSelfArgumentType),
            },
            _ => Err(InfoError::InvalidSelfArgumentType),
        }
    }
}

fn detect_self_arg_kind(args: &[RustMethodArgument]) -> (r: Result<RustMethodSelfArgKind, InfoError>)
    ensures
        r == self_arg_kind_of(args@),
{
    if args.len() == 0 {
        return Ok(RustMethodSelfArgKind::Static);
    }
    let arg = &args[0];
    if string_is(&arg.name, "self") {
        match &arg.argument_type.rust_api_type {
            RustType::Common { indirection, is_const, .. } => match indirection {
                RustTypeIndirection::Ref { .. } => {
                    if *is_const {
                        Ok(RustMethodSelfArgKind::ConstRef)
                    } else {
                        Ok(RustMethodSelfArgKind::MutRef)
                    }
                },
                RustTypeIndirection::NoIndirection => Ok(RustMethodSelfArgKind::Value),
                _ => Err(InfoError::InvalidSelfArgumentType),
            },
            _ => Err(InfoError::InvalidSelfArgumentType),
        }
    } else {
        Ok(RustMethodSelfArgKind::Static)
    }
}

/// Only the first argument decides how a method takes `self`: arguments
/// after it, even one named `self`, change nothing.
pub proof fn law_only_first_argument_decides_self_kind(
    args: Seq<RustMethodArgument>,
    more: Seq<RustMethodArgument>,
)
    requires
        args.len() >= 1,
    ensures
        self_arg_kind_of(args + more) == self_arg_kind_of(args),
        self_arg_kind_of(args) == self_arg_kind_of(args.take(1)),
{
    assert((args + more)[0] == args[0]);
    assert(args.take(1)[0] == args[0]);
}

/// How a method whose first argument is named `self` receives it is decided
/// by the Rust API type of that argument alone: a reference, whatever its
/// lifetime, is a constant or a mutable reference by its constness; a plain
/// value is taken by value; pointers and non-common types are refused. A
/// method whose first argument has another name is static.
pub proof fn law_self_kind_by_first_argument(args: Seq<RustMethodArgument>)
    requires
        args.len() >= 1,
    ensures
        args[0].name@ != seq!['s', 'e', 'l', 'f'] ==> self_arg_kind_of(args) == Ok::<
            RustMethodSelfArgKind,
            InfoError,
        >(RustMethodSelfArgKind::Static),
        args[0].name@ == seq!['s', 'e', 'l', 'f'] ==> match args[0].argument_type.rust_api_type {
            RustType::Common { indirection, is_const, .. } => match indirection {
                RustTypeIndirection::Ref { lifetime } => self_arg_kind_of(args) == Ok::<
                    RustMethodSelfArgKind,
                    InfoError,
                >(if is_const { RustMethodSelfArgKind::ConstRef } else { RustMethodSelfArgKind::MutRef }),
                RustTypeIndirection::NoIndirection => self_arg_kind_of(args) == Ok::<
                    RustMethodSelfArgKind,
                    InfoError,
                >(RustMethodSelfArgKind::Value),
                _ => self_arg_kind_of(args) == Err::<RustMethodSelfArgKind, InfoError>(
                    InfoError::InvalidSelfArgumentType,
                ),
            },
            _ => self_arg_kind_of(args) == Err::<RustMethodSelfArgKind, InfoError>(
                InfoError::InvalidSelfArgumentType,
            ),
        },
{
    reveal_strlit("self");
    assert("self"@ =~= seq!['s', 'e', 'l', 'f']);
}

/// The lifetime of a `self` reference never matters: two argument lists
/// whose first arguments differ only in that lifetime take `self` the same way.
pub proof fn law_self_reference_lifetime_is_irrelevant(
    args1: Seq<RustMethodArgument>,
    args2: Seq<RustMethodArgument>,
    base: RustName,
    generic_arguments: Option<Vec<RustType>>,
    is_const: bool,
    is_const2: bool,
    lifetime1: Option<String>,
    lifetime2: Option<String>,
)
    requires
        args1.len() >= 1,
        args2.len() >= 1,
        args1[0].name@ == args2[0].name@,
        args1[0].argument_type.rust_api_type == (RustType::Common {
            base,
            generic_arguments,
            is_const,
            is_const2,
            indirection: RustTypeIndirection::Ref { lifetime: lifetime1 },
        }),
        args2[0].argument_type.rust_api_type == (RustType::Common {
            base,
            generic_arguments,
            is_const,
            is_const2,
            indirection: RustTypeIndirection::Ref { lifetime: lifetime2 },
        }),
    ensures
        self_arg_kind_of(args1) == self_arg_kind_of(args2),
        self_arg_kind_of(args1) is Ok,
{
}

/// The names of the C++ items that a method's documentation refers to,
/// in the order of the documentation items.
pub open spec fn docs_cpp_cross_references(docs: Seq<RustMethodDocItem>) -> Seq<String>
    decreases docs.len(),
{
    if docs.len() == 0 {
        Seq::empty()
    } else {
        docs_cpp_cross_references(docs.drop_last()) + match docs.last().doc {
            Some(d) => d.cross_references@,
            None => Seq::empty(),
        }
    }
}

impl RustMethod {
    /// The C++ cross references of all documentation items, concatenated.
    pub fn cpp_cross_references(&self) -> (r: Vec<String>)
        ensures
            r@ == docs_cpp_cross_references(self.docs@),
    {
        let mut r: Vec<String> = Vec::new();
        let n = self.docs.len();
        for i in 0..n
            invariant
                n == self.docs.len(),
                r@ == docs_cpp_cross_references(self.docs@.take(i as int)),
        {
            assert(self.docs@.take(i + 1).drop_last() =~= self.docs@.take(i as int));
            if let Some(doc) = &self.docs[i].doc {
                let mut refs = doc.cross_references.clone();
                assert(refs@ =~= doc.cross_references@);
                r.append(&mut refs);
            }
        }
        assert(self.docs@.take(n as int) =~= self.docs@);
        r
    }
}

impl RustSingleMethod {
    /// The same method as a method with a single argument variant.
    pub fn to_rust_method(&self) -> (r: RustMethod)
        ensures
            r.name.same_as(self.name),
            r.arguments matches RustMethodArguments::SingleVariant(v) && v.same_as(self.arguments),
            match self.doc {
                Some(d) => r.docs@.len() == 1 && r.docs@[0].copied_from(d),
                None => r.docs@.len() == 0,
            },
            r.is_unsafe == self.is_unsafe,
            r.scope.same_as(self.scope),
            docs_cpp_cross_references(r.docs@) == match self.doc {
                Some(d) => match d.doc {
                    Some(c) => c.cross_references@,
                    None => Seq::empty(),
                },
                None => Seq::empty(),
            },
    {
        let r = RustMethod {
            name: self.name.clone(),
            arguments: RustMethodArguments::SingleVariant(self.arguments.clone()),
            docs: if let Some(doc) = &self.doc {
                vec![doc.clone()]
            } else {
                Vec::new()
            },
            is_unsafe: self.is_unsafe,
            scope: self.scope.clone(),
        };
        proof {
            reveal_with_fuel(docs_cpp_cross_references, 2);
            if r.docs@.len() == 1 {
                assert(r.docs@.drop_last() =~= Seq::<RustMethodDocItem>::empty());
            }
        }
        r
    }

    /// How this method receives `self`.
    pub fn self_arg_kind(&self) -> (r: Result<RustMethodSelfArgKind, InfoError>)
        ensures
            r == self_arg_kind_of(self.arguments.arguments@),
    {
        detect_self_arg_kind(self.arguments.arguments.as_slice())
    }
}

/// Extra information attached to a trait implementation.
#[derive(Debug, PartialEq, Eq, Clone)]
pub enum TraitImplExtra {
    CppDeletable { deleter_name: String },
}

/// A generated implementation of a trait for a type.
#[derive(Debug, PartialEq, Eq, Clone)]
pub struct TraitImpl {
    pub target_type: RustType,
    pub trait_type: RustType,
    pub extra: Option<TraitImplExtra>,
    pub methods: Vec<RustMethod>,
}

/// What a Rust cross reference points to.
#[derive(Debug)]
pub enum RustCrossReferenceKind {
    Method { scope: RustMethodScope },
    Type,
}

impl RustCrossReferenceKind {
    /// Two kinds are the same kind, with the same method scope.
    pub open spec fn same_as(self, other: RustCrossReferenceKind) -> bool {
        match (self, other) {
            (RustCrossReferenceKind::Method { scope: a }, RustCrossReferenceKind::Method { scope: b }) =>
                a.same_as(b),
            (RustCrossReferenceKind::Type, RustCrossReferenceKind::Type) => true,
            _ => false,
        }
    }
}

impl Clone for RustCrossReferenceKind {
    fn clone(&self) -> (r: Self)
        ensures
            r.same_as(*self),
    {
        match self {
            RustCrossReferenceKind::Method { scope } => RustCrossReferenceKind::Method {
                scope: scope.clone(),
            },
            RustCrossReferenceKind::Type => RustCrossReferenceKind::Type,
        }
    }
}

impl PartialEq for RustCrossReferenceKind {
    fn eq(&self, other: &Self) -> (r: bool) {
        match (self, other) {
            (RustCrossReferenceKind::Method { scope: a }, RustCrossReferenceKind::Method { scope: b }) =>
                *a == *b,
            (RustCrossReferenceKind::Type, RustCrossReferenceKind::Type) => true,
            _ => false,
        }
    }
}

impl PartialEqSpecImpl for RustCrossReferenceKind {
    open spec fn obeys_eq_spec() -> bool {
        true
    }

    open spec fn eq_spec(&self, other: &RustCrossReferenceKind) -> bool {
        self.same_as(*other)
    }
}

impl Eq for RustCrossReferenceKind {}

/// A reference from documentation to a generated Rust item.
#[derive(Debug)]
pub struct RustCrossReference {
    name: RustName,
    kind: RustCrossReferenceKind,
}

impl RustCrossReference {
    /// A reference to the item `name` of the given kind.
    pub fn new(name: RustName, kind: RustCrossReferenceKind) -> (r: RustCrossReference)
        ensures
            r.name() == name,
            r.kind() == kind,
    {
        RustCrossReference { name, kind }
    }

    /// The referenced item's name.
    pub closed spec fn name(self) -> RustName {
        self.name
    }

    /// The referenced item's kind.
    pub closed spec fn kind(self) -> RustCrossReferenceKind {
        self.kind
    }

    /// Two references point to the same item: same name, same kind.
    pub open spec fn same_as(self, other: RustCrossReference) -> bool {
        self.name().same_as(other.name()) && self.kind().same_as(other.kind())
    }
}

/// Two references that point to the same item as a third one point to the
/// same item as each other.
pub proof fn lemma_cross_reference_same_as_common(
    a: RustCrossReference,
    b: RustCrossReference,
    c: RustCrossReference,
)
    requires
        a.same_as(c),
        b.same_as(c),
    ensures
        a.same_as(b),
{
    if let (
        RustCrossReferenceKind::Method { scope: RustMethodScope::Impl { target_type: ta } },
        RustCrossReferenceKind::Method { scope: RustMethodScope::Impl { target_type: tb } },
        RustCrossReferenceKind::Method { scope: RustMethodScope::Impl { target_type: tc } },
    ) = (a.kind(), b.kind(), c.kind()) {
        lemma_rust_type_same_symmetric(tb, tc);
        lemma_rust_type_same_transitive(ta, tc, tb);
    }
}

impl Clone for RustCrossReference {
    fn clone(&self) -> (r: Self)
        ensures
            r.same_as(*self),
    {
        RustCrossReference { name: self.name.clone(), kind: self.kind.clone() }
    }
}

impl PartialEq for RustCrossReference {
    fn eq(&self, other: &Self) -> (r: bool) {
        self.name == other.name && self.kind == other.kind
    }
}

impl PartialEqSpecImpl for RustCrossReference {
    open spec fn obeys_eq_spec() -> bool {
        true
    }

    open spec fn eq_spec(&self, other: &RustCrossReference) -> bool {
        self.same_as(*other)
    }
}

impl Eq for RustCrossReference {}

/// Whether a Qt receiver is a signal or a slot.
#[derive(Debug, PartialEq, Eq, Clone, Copy, Structural)]
pub enum RustQtReceiverType {
    Signal,
    Slot,
}

/// A Qt signal or slot exposed in the generated API.
#[derive(Debug, PartialEq, Eq, Clone)]
pub struct RustQtReceiverDeclaration {
    pub rust_type_name: String,
    pub method_name: String,
    pub receiver_type: RustQtReceiverType,
    pub receiver_id: String,
    pub arguments: Vec<RustType>,
}

/// What a generated Rust type declaration declares.
#[derive(Debug, PartialEq, Eq, Clone)]
pub enum RustTypeDeclarationKind {
    CppTypeWrapper {
        kind: RustTypeWrapperKind,
        cpp_type_name: String,
        cpp_template_arguments: Option<Vec<CppType>>,
        cpp_doc: Option<CppTypeDoc>,
        rust_cross_references: Vec<RustCrossReference>,
        methods: Vec<RustMethod>,
        trait_impls: Vec<TraitImpl>,
        qt_receivers: Vec<RustQtReceiverDeclaration>,
    },
    MethodParametersTrait {
        lifetime: Option<String>,
        shared_arguments: Vec<RustMethodArgument>,
        return_type: Option<RustType>,
        impls: Vec<RustMethodArgumentsVariant>,
        method_scope: RustMethodScope,
        method_name: RustName,
        is_unsafe: bool,
    },
}

/// A generated Rust type declaration.
#[derive(Debug, PartialEq, Eq, Clone)]
pub struct RustTypeDeclaration {
    pub is_public: bool,
    pub name: RustName,
    pub kind: RustTypeDeclarationKind,
}

/// A generated Rust module.
#[derive(Debug, PartialEq, Eq)]
pub struct RustModule {
    pub name: String,
    pub types: Vec<RustTypeDeclaration>,
    pub functions: Vec<RustMethod>,
    pub trait_impls: Vec<TraitImpl>,
    pub submodules: Vec<RustModule>,
}

impl RustModule {
    /// A copy of a module: the same name, clones of its types, functions
    /// and trait implementations, and a copy of each submodule, in order.
    pub open spec fn copied_from(self, source: RustModule) -> bool
        decreases source,
    {
        &&& self.name == source.name
        &&& cloned(source.types, self.types)
        &&& cloned(source.functions, self.functions)
        &&& cloned(source.trait_impls, self.trait_impls)
        &&& self.submodules@.len() == source.submodules@.len()
        &&& forall|i: int|
            0 <= i < source.submodules@.len() ==> (#[trigger] self.submodules@[i]).copied_from(
                source.submodules@[i],
            )
    }
}

fn clone_module(m: &RustModule) -> (r: RustModule)
    ensures
        r.copied_from(*m),
    decreases m,
{
    let mut submodules: Vec<RustModule> = Vec::new();
    let n = m.submodules.len();
    for i in 0..n
        invariant
            n == m.submodules.len(),
            submodules.len() == i,
            forall|j: int|
                0 <= j < i ==> (#[trigger] submodules@[j]).copied_from(m.submodules@[j]),
    {
        submodules.push(clone_module(&m.submodules[i]));
    }
    RustModule {
        name: m.name.clone(),
        types: m.types.clone(),
        functions: m.functions.clone(),
        trait_impls: m.trait_impls.clone(),
        submodules,
    }
}

impl Clone for RustModule {
    fn clone(&self) -> (r: Self)
        ensures
            r.copied_from(*self),
    {
        clone_module(self)
    }
}

/// How overloaded methods that share a name are told apart by a suffix.
#[derive(Debug, PartialEq, Eq, Clone, Copy, Structural)]
pub enum RustMethodCaptionStrategy {
    NoArgs,
    ArgTypes,
    ArgNames,
    Index,
}

impl RustMethodCaptionStrategy {
    /// Every strategy, from the least to the most specific one that is tried.
    pub fn all() -> (r: &'static [RustMethodCaptionStrategy])
        ensures
            r@ == seq![
                RustMethodCaptionStrategy::NoArgs,
                RustMethodCaptionStrategy::ArgTypes,
                RustMethodCaptionStrategy::ArgNames,
                RustMethodCaptionStrategy::Index,
            ],
    {
        &[
            RustMethodCaptionStrategy::NoArgs,
            RustMethodCaptionStrategy::ArgTypes,
            RustMethodCaptionStrategy::ArgNames,
            RustMethodCaptionStrategy::Index,
        ]
    }
}

/// The argument that marks where a method allocates its result: named
/// `allocation_place_marker`, with a `void` C++ type and the Rust API type
/// `cpp_utils::<marker_name>` passed by value.
pub open spec fn is_allocation_place_marker_for(arg: RustMethodArgument, marker_name: Seq<char>) -> bool {
    &&& arg.name@ == "allocation_place_marker"@
    &&& arg.ffi_index is None
    &&& arg.argument_type.cpp_type.spelling@ == "void"@
    &&& arg.argument_type.cpp_ffi_type.spelling@ == "void"@
    &&& arg.argument_type.cpp_to_ffi_conversion == IndirectionChange::NoChange
    &&& arg.argument_type.rust_ffi_type is Void
    &&& arg.argument_type.rust_api_type matches RustType::Common {
        base,
        generic_arguments,
        is_const,
        is_const2,
        indirection,
    } && base.parts.deep_view() == seq!["cpp_utils"@, marker_name] && generic_arguments is None
        && !is_const && !is_const2 && indirection is NoIndirection
    &&& arg.argument_type.rust_api_to_c_conversion == RustToCTypeConversion::NoConversion
}

/// The argument that marks where a method allocates its result, for the
/// marker type `cpp_utils::<marker_name>`.
pub fn allocation_place_marker(marker_name: &'static str) -> (r: Result<RustMethodArgument, InfoError>)
    ensures
        r matches Ok(arg) && is_allocation_place_marker_for(arg, marker_name@),
{
    let mut parts: Vec<String> = Vec::new();
    parts.push("cpp_utils".to_string());
    parts.push(marker_name.to_string());
    assert(parts.deep_view() =~= seq!["cpp_utils"@, marker_name@]);
    let base = match RustName::new(parts) {
        Ok(n) => n,
        Err(e) => return Err(e),
    };
    Ok(RustMethodArgument {
        name: "allocation_place_marker".to_string(),
        ffi_index: None,
        argument_type: CompleteType {
            cpp_type: CppType::void(),
            cpp_ffi_type: CppType::void(),
            cpp_to_ffi_conversion: IndirectionChange::NoChange,
            rust_ffi_type: RustType::Void,
            rust_api_type: RustType::Common {
                base,
                generic_arguments: None,
                is_const: false,
                is_const2: false,
                indirection: RustTypeIndirection::NoIndirection,
            },
            rust_api_to_c_conversion: RustToCTypeConversion::NoConversion,
        },
    })
}

} // verus!
