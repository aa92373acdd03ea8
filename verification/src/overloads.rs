use vstd::prelude::*;

use crate::errors::InfoError;
use crate::rust_info::{
    is_allocation_place_marker_for, self_arg_kind_of, RustMethodArgument,
    RustMethodCaptionStrategy, RustMethodSelfArgKind, RustSingleMethod,
};
use crate::rust_type::{lemma_rust_type_same_reflexive, lemma_rust_type_same_symmetric};
use crate::string_utils::{decimal, decimal_string, join, joined, lemma_decimal_injective, string_is};

verus! {

/// A set of kinds of `self` arguments, such as the kinds found among a
/// group of overloaded methods.
#[derive(Debug, Clone, Copy, PartialEq, Eq, Structural)]
pub struct SelfArgKindSet {
    has_static: bool,
    has_const_ref: bool,
    has_mut_ref: bool,
    has_value: bool,
}

impl View for SelfArgKindSet {
    type V = Set<RustMethodSelfArgKind>;

    closed spec fn view(&self) -> Set<RustMethodSelfArgKind> {
        let s0 = Set::<RustMethodSelfArgKind>::empty();
        let s1 = if self.has_static {
            s0.insert(RustMethodSelfArgKind::Static)
        } else {
            s0
        };
        let s2 = if self.has_const_ref {
            s1.insert(RustMethodSelfArgKind::ConstRef)
        } else {
            s1
        };
        let s3 = if self.has_mut_ref {
            s2.insert(RustMethodSelfArgKind::MutRef)
        } else {
            s2
        };
        if self.has_value {
            s3.insert(RustMethodSelfArgKind::Value)
        } else {
            s3
        }
    }
}

impl SelfArgKindSet {
    /// The empty set.
    pub fn new() -> (r: SelfArgKindSet)
        ensures
            r@ == Set::<RustMethodSelfArgKind>::empty(),
    {
        let r = SelfArgKindSet {
            has_static: false,
            has_const_ref: false,
            has_mut_ref: false,
            has_value: false,
        };
        assert(r@ =~= Set::<RustMethodSelfArgKind>::empty());
        r
    }

    /// Adds a kind to the set.
    pub fn insert(&mut self, kind: RustMethodSelfArgKind)
        ensures
            final(self)@ == old(self)@.insert(kind),
    {
        match kind {
            RustMethodSelfArgKind::Static => self.has_static = true,
            RustMethodSelfArgKind::ConstRef => self.has_const_ref = true,
            RustMethodSelfArgKind::MutRef => self.has_mut_ref = true,
            RustMethodSelfArgKind::Value => self.has_value = true,
        }
        assert(self@ =~= old(self)@.insert(kind));
    }

    /// Whether the set holds `kind`.
    pub fn contains(&self, kind: RustMethodSelfArgKind) -> (r: bool)
        ensures
            r == self@.contains(kind),
    {
        match kind {
            RustMethodSelfArgKind::Static => self.has_static,
            RustMethodSelfArgKind::ConstRef => self.has_const_ref,
            RustMethodSelfArgKind::MutRef => self.has_mut_ref,
            RustMethodSelfArgKind::Value => self.has_value,
        }
    }

    /// The number of kinds in the set.
    pub fn len(&self) -> (r: usize)
        ensures
            r == self@.len(),
            self@.finite(),
    {
        let mut n: usize = 0;
        if self.has_static {
            n = n + 1;
        }
        if self.has_const_ref {
            n = n + 1;
        }
        if self.has_mut_ref {
            n = n + 1;
        }
        if self.has_value {
            n = n + 1;
        }
        n
    }
}

/// The part of a name suffix that tells apart how overloads receive
/// `self`, given the kinds found among all overloads.
pub open spec fn self_kind_caption(
    kind: RustMethodSelfArgKind,
    all_self_args: Set<RustMethodSelfArgKind>,
) -> Result<Option<Seq<char>>, InfoError> {
    if all_self_args.len() == 1 || kind == RustMethodSelfArgKind::ConstRef {
        Ok(None)
    } else if kind == RustMethodSelfArgKind::Static {
        Ok(Some("static"@))
    } else if kind == RustMethodSelfArgKind::MutRef {
        if all_self_args.contains(RustMethodSelfArgKind::ConstRef) {
            Ok(Some("mut"@))
        } else {
            Ok(None)
        }
    } else {
        Err(InfoError::UnsupportedSelfArgKindsCombination)
    }
}

/// The names of the arguments, in order.
pub open spec fn argument_names(args: Seq<RustMethodArgument>) -> Seq<Seq<char>> {
    args.map_values(|a: RustMethodArgument| a.name@)
}

/// Whether every argument type has a caption.
pub open spec fn all_captions_known(captions: Seq<Result<String, InfoError>>) -> bool {
    forall|i: int| 0 <= i < captions.len() ==> (#[trigger] captions[i]) is Ok
}

/// Position `i` holds the first caption that could not be produced.
pub open spec fn is_first_caption_error(captions: Seq<Result<String, InfoError>>, i: int) -> bool {
    &&& 0 <= i < captions.len()
    &&& captions[i] is Err
    &&& forall|j: int| 0 <= j < i ==> (#[trigger] captions[j]) is Ok
}

/// The error of the first caption that could not be produced.
pub open spec fn first_caption_error(captions: Seq<Result<String, InfoError>>) -> InfoError {
    captions[choose|i: int| is_first_caption_error(captions, i)]->Err_0
}

/// The texts of the argument type captions, in order.
pub open spec fn caption_texts(captions: Seq<Result<String, InfoError>>) -> Seq<Seq<char>> {
    captions.map_values(|c: Result<String, InfoError>| c->Ok_0@)
}

/// The part of a name suffix chosen by the caption strategy.
pub open spec fn strategy_caption(
    strategy: RustMethodCaptionStrategy,
    args: Seq<RustMethodArgument>,
    index: usize,
    arg_type_captions: Seq<Result<String, InfoError>>,
) -> Result<Option<Seq<char>>, InfoError> {
    match strategy {
        RustMethodCaptionStrategy::NoArgs => Ok(None),
        RustMethodCaptionStrategy::Index => Ok(Some(decimal(index as nat))),
        RustMethodCaptionStrategy::ArgNames => if args.len() == 0 {
            Ok(Some("no_args"@))
        } else {
            Ok(Some(joined(argument_names(args), "_"@)))
        },
        RustMethodCaptionStrategy::ArgTypes => if args.len() == 0 {
            Ok(Some("no_args"@))
        } else if !all_captions_known(arg_type_captions) {
            Err(first_caption_error(arg_type_captions))
        } else {
            Ok(Some(joined(caption_texts(arg_type_captions), "_"@)))
        },
    }
}

/// Both parts of a name suffix, joined with `_`; none when both are absent.
pub open spec fn combined_caption(a: Option<Seq<char>>, b: Option<Seq<char>>) -> Option<Seq<char>> {
    match (a, b) {
        (None, None) => None,
        (Some(x), None) => Some(x),
        (None, Some(y)) => Some(y),
        (Some(x), Some(y)) => Some(x + "_"@ + y),
    }
}

/// The suffix that tells an overloaded method apart from the others.
pub open spec fn name_suffix_of(
    args: Seq<RustMethodArgument>,
    strategy: RustMethodCaptionStrategy,
    all_self_args: Set<RustMethodSelfArgKind>,
    index: usize,
    arg_type_captions: Seq<Result<String, InfoError>>,
) -> Result<Option<Seq<char>>, InfoError> {
    match self_arg_kind_of(args) {
        Err(e) => Err(e),
        Ok(kind) => match self_kind_caption(kind, all_self_args) {
            Err(e) => Err(e),
            Ok(self_caption) => match strategy_caption(strategy, args, index, arg_type_captions) {
                Err(e) => Err(e),
                Ok(other_caption) => Ok(combined_caption(self_caption, other_caption)),
            },
        },
    }
}

/// The text view of an optional string result.
pub open spec fn optional_text(r: Result<Option<String>, InfoError>) -> Result<
    Option<Seq<char>>,
    InfoError,
> {
    match r {
        Ok(Some(s)) => Ok(Some(s@)),
        Ok(None) => Ok(None),
        Err(e) => Err(e),
    }
}

fn self_kind_caption_exec(kind: RustMethodSelfArgKind, all_self_args: &SelfArgKindSet) -> (r:
    Result<Option<String>, InfoError>)
    ensures
        optional_text(r) == self_kind_caption(kind, all_self_args@),
{
    if all_self_args.len() == 1 || kind == RustMethodSelfArgKind::ConstRef {
        Ok(None)
    } else if kind == RustMethodSelfArgKind::Static {
        Ok(Some("static".to_string()))
    } else if kind == RustMethodSelfArgKind::MutRef {
        if all_self_args.contains(RustMethodSelfArgKind::ConstRef) {
            Ok(Some("mut".to_string()))
        } else {
            Ok(None)
        }
    } else {
        Err(InfoError::UnsupportedSelfArgKindsCombination)
    }
}

fn collect_argument_names(args: &Vec<RustMethodArgument>) -> (r: Vec<String>)
    ensures
        r.deep_view() == argument_names(args@),
{
    let mut r: Vec<String> = Vec::new();
    let n = args.len();
    for i in 0..n
        invariant
            n == args.len(),
            r.len() == i,
            forall|j: int| 0 <= j < i ==> (#[trigger] r@[j])@ == args@[j].name@,
    {
        r.push(args[i].name.clone());
    }
    assert(r.deep_view() =~= argument_names(args@));
    r
}

fn collect_captions(captions: &Vec<Result<String, InfoError>>) -> (r: Result<Vec<String>, InfoError>)
    ensures
        r is Ok <==> all_captions_known(captions@),
        r matches Ok(v) ==> v.deep_view() == caption_texts(captions@),
        r matches Err(e) ==> e == first_caption_error(captions@),
{
    let mut r: Vec<String> = Vec::new();
    let n = captions.len();
    for i in 0..n
        invariant
            n == captions.len(),
            r.len() == i,
            forall|j: int| 0 <= j < i ==> (#[trigger] captions@[j]) is Ok,
            forall|j: int| 0 <= j < i ==> (#[trigger] r@[j])@ == captions@[j]->Ok_0@,
    {
        match &captions[i] {
            Ok(c) => r.push(c.clone()),
            Err(e) => {
                proof {
                    assert(is_first_caption_error(captions@, i as int));
                    let k = choose|k: int| is_first_caption_error(captions@, k);
                    if k < i {
                        assert(captions@[k] is Ok);
                    } else if k > i {
                        assert(captions@[i as int] is Ok);
                    }
                }
                return Err(*e);
            },
        }
    }
    assert(r.deep_view() =~= caption_texts(captions@));
    Ok(r)
}

impl RustSingleMethod {
    /// The suffix added to this method's name to tell it apart from the
    /// other overloads: a caption for its `self` kind where the overloads
    /// differ in it, and a caption chosen by `caption_strategy`.
    /// `all_self_args` holds the `self` kinds of all the overloads, `index`
    /// is the position of this method among them, and `arg_type_captions`
    /// holds, per argument, the caption of its Rust API type, or the error
    /// met while producing it.
    pub fn name_suffix(
        &self,
        caption_strategy: &RustMethodCaptionStrategy,
        all_self_args: &SelfArgKindSet,
        index: usize,
        arg_type_captions: &Vec<Result<String, InfoError>>,
    ) -> (r: Result<Option<String>, InfoError>)
        requires
            *caption_strategy == RustMethodCaptionStrategy::ArgTypes ==> arg_type_captions.len()
                == self.arguments.arguments.len(),
        ensures
            optional_text(r) == name_suffix_of(
                self.arguments.arguments@,
                *caption_strategy,
                all_self_args@,
                index,
                arg_type_captions@,
            ),
    {
        let self_arg_kind = match self.self_arg_kind() {
            Ok(k) => k,
            Err(e) => return Err(e),
        };
        let self_arg_kind_caption = match self_kind_caption_exec(self_arg_kind, all_self_args) {
            Ok(c) => c,
            Err(e) => return Err(e),
        };
        let args = &self.arguments.arguments;
        let other_caption: Option<String> = match caption_strategy {
            RustMethodCaptionStrategy::NoArgs => None,
            RustMethodCaptionStrategy::Index => Some(decimal_string(index)),
            RustMethodCaptionStrategy::ArgNames => {
                if args.len() == 0 {
                    Some("no_args".to_string())
                } else {
                    Some(join(&collect_argument_names(args), "_"))
                }
            },
            RustMethodCaptionStrategy::ArgTypes => {
                if args.len() == 0 {
                    Some("no_args".to_string())
                } else {
                    match collect_captions(arg_type_captions) {
                        Ok(texts) => Some(join(&texts, "_")),
                        Err(e) => return Err(e),
                    }
                }
            },
        };
        let mut key_caption_items: Vec<String> = Vec::new();
        if let Some(c) = self_arg_kind_caption {
            key_caption_items.push(c);
        }
        if let Some(c) = other_caption {
            key_caption_items.push(c);
        }
        if key_caption_items.len() == 0 {
            Ok(None)
        } else {
            let r = join(&key_caption_items, "_");
            proof {
                reveal_with_fuel(joined, 3);
            }
            Ok(Some(r))
        }
    }
}

/// Whether two arguments at the same position leave two overloads
/// indistinguishable: their C++ types can be the same, and they are not two
/// different allocation place markers.
pub open spec fn indistinguishable_arguments(
    a: RustMethodArgument,
    b: RustMethodArgument,
    cpp_types_can_match: bool,
) -> bool {
    &&& cpp_types_can_match
    &&& !(a.name@ == "allocation_place_marker"@ && b.name@ == "allocation_place_marker"@
        && !a.same_as(b))
}

/// Whether two argument lists have the same length and are indistinguishable
/// at every position.
pub open spec fn indistinguishable_argument_lists(
    a: Seq<RustMethodArgument>,
    b: Seq<RustMethodArgument>,
    cpp_types_can_match: Seq<bool>,
) -> bool {
    &&& a.len() == b.len()
    &&& forall|i: int|
        0 <= i < a.len() ==> indistinguishable_arguments(
            #[trigger] a[i],
            b[i],
            cpp_types_can_match[i],
        )
}

/// Whether a method with arguments `a` can be overloaded with a method with
/// arguments `b`: they must take `self` the same way, and their argument
/// lists must be distinguishable.
pub open spec fn overloadable(
    a: Seq<RustMethodArgument>,
    b: Seq<RustMethodArgument>,
    cpp_types_can_match: Seq<bool>,
) -> Result<bool, InfoError> {
    match self_arg_kind_of(a) {
        Err(e) => Err(e),
        Ok(kind_a) => match self_arg_kind_of(b) {
            Err(e) => Err(e),
            Ok(kind_b) => if kind_a != kind_b {
                Ok(false)
            } else {
                Ok(!indistinguishable_argument_lists(a, b, cpp_types_can_match))
            },
        },
    }
}

fn is_allocation_place_marker(arg: &RustMethodArgument) -> (r: bool)
    ensures
        r == (arg.name@ == "allocation_place_marker"@),
{
    string_is(&arg.name, "allocation_place_marker")
}

impl RustSingleMethod {
    /// Whether this method and `other_method` can be overloads of one name.
    /// `cpp_types_can_match[i]` tells whether the C++ types of the two
    /// methods' arguments at position `i` can be the same type; it is read
    /// only when both methods have the same number of arguments.
    pub fn can_be_overloaded_with(
        &self,
        other_method: &RustSingleMethod,
        cpp_types_can_match: &Vec<bool>,
    ) -> (r: Result<bool, InfoError>)
        requires
            self.arguments.arguments.len() == other_method.arguments.arguments.len()
                ==> cpp_types_can_match.len() == self.arguments.arguments.len(),
        ensures
            r == overloadable(
                self.arguments.arguments@,
                other_method.arguments.arguments@,
                cpp_types_can_match@,
            ),
    {
        let kind = match self.self_arg_kind() {
            Ok(k) => k,
            Err(e) => return Err(e),
        };
        let other_kind = match other_method.self_arg_kind() {
            Ok(k) => k,
            Err(e) => return Err(e),
        };
        if kind != other_kind {
            return Ok(false);
        }
        let a = &self.arguments.arguments;
        let b = &other_method.arguments.arguments;
        if a.len() == b.len() {
            let n = a.len();
            let mut all_match = true;
            let mut i: usize = 0;
            while i < n
                invariant
                    n == a.len(),
                    n == b.len(),
                    n == cpp_types_can_match.len(),
                    i <= n,
                    all_match == (forall|j: int|
                        0 <= j < i ==> indistinguishable_arguments(
                            #[trigger] a@[j],
                            b@[j],
                            cpp_types_can_match@[j],
                        )),
                decreases n - i,
            {
                let markers = is_allocation_place_marker(&a[i]) && is_allocation_place_marker(
                    &b[i],
                );
                let same = cpp_types_can_match[i] && !(markers && a[i] != b[i]);
                all_match = all_match && same;
                i = i + 1;
            }
            if all_match {
                return Ok(false);
            }
        }
        Ok(true)
    }
}

proof fn lemma_argument_same_reflexive(a: RustMethodArgument)
    ensures
        a.same_as(a),
{
    lemma_rust_type_same_reflexive(a.argument_type.rust_ffi_type);
    lemma_rust_type_same_reflexive(a.argument_type.rust_api_type);
}

proof fn lemma_argument_same_symmetric(a: RustMethodArgument, b: RustMethodArgument)
    ensures
        a.same_as(b) == b.same_as(a),
{
    lemma_rust_type_same_symmetric(a.argument_type.rust_ffi_type, b.argument_type.rust_ffi_type);
    lemma_rust_type_same_symmetric(a.argument_type.rust_api_type, b.argument_type.rust_api_type);
}

/// Whether two methods can be overloads of one name does not depend on
/// which of the two is asked, given the same answers on whether their C++
/// argument types can be the same.
pub proof fn law_overloading_is_symmetric(
    a: Seq<RustMethodArgument>,
    b: Seq<RustMethodArgument>,
    cpp_types_can_match: Seq<bool>,
)
    ensures
        overloadable(a, b, cpp_types_can_match) == overloadable(b, a, cpp_types_can_match),
{
    if a.len() == b.len() {
        assert forall|i: int| 0 <= i < a.len() implies indistinguishable_arguments(
            #[trigger] a[i],
            b[i],
            cpp_types_can_match[i],
        ) == indistinguishable_arguments(b[i], a[i], cpp_types_can_match[i]) by {
            lemma_argument_same_symmetric(a[i], b[i]);
        }
        assert(indistinguishable_argument_lists(a, b, cpp_types_can_match)
            == indistinguishable_argument_lists(b, a, cpp_types_can_match));
    }
}

/// A method can never be overloaded with itself, since every C++ argument
/// type can be the same as itself.
pub proof fn law_method_is_not_overloadable_with_itself(args: Seq<RustMethodArgument>)
    requires
        self_arg_kind_of(args) is Ok,
    ensures
        overloadable(args, args, Seq::new(args.len(), |i: int| true)) == Ok::<bool, InfoError>(
            false,
        ),
{
    let m = Seq::new(args.len(), |i: int| true);
    assert forall|i: int| 0 <= i < args.len() implies indistinguishable_arguments(
        #[trigger] args[i],
        args[i],
        m[i],
    ) by {
        lemma_argument_same_reflexive(args[i]);
    }
}

/// Methods that take `self` the same way but have different numbers of
/// arguments can always be overloads of one name.
pub proof fn law_different_arity_is_overloadable(
    a: Seq<RustMethodArgument>,
    b: Seq<RustMethodArgument>,
    cpp_types_can_match: Seq<bool>,
)
    requires
        self_arg_kind_of(a) is Ok,
        self_arg_kind_of(a) == self_arg_kind_of(b),
        a.len() != b.len(),
    ensures
        overloadable(a, b, cpp_types_can_match) == Ok::<bool, InfoError>(true),
{
}

/// Two allocation place markers for different marker types never make two
/// overloads indistinguishable, whatever is known of their C++ types.
pub proof fn law_distinct_allocation_markers_distinguish(
    a: RustMethodArgument,
    b: RustMethodArgument,
    marker_a: Seq<char>,
    marker_b: Seq<char>,
    cpp_types_can_match: bool,
)
    requires
        is_allocation_place_marker_for(a, marker_a),
        is_allocation_place_marker_for(b, marker_b),
        marker_a != marker_b,
    ensures
        !indistinguishable_arguments(a, b, cpp_types_can_match),
{
    let pa = a.argument_type.rust_api_type->base.parts.deep_view();
    let pb = b.argument_type.rust_api_type->base.parts.deep_view();
    assert(pa[1] != pb[1]);
}

/// An allocation place marker is not a `self` argument: a method whose
/// first argument is such a marker is static.
pub proof fn law_allocation_marker_is_static(args: Seq<RustMethodArgument>, marker: Seq<char>)
    requires
        args.len() > 0,
        is_allocation_place_marker_for(args[0], marker),
    ensures
        self_arg_kind_of(args) == Ok::<RustMethodSelfArgKind, InfoError>(
            RustMethodSelfArgKind::Static,
        ),
{
    reveal_strlit("self");
    reveal_strlit("allocation_place_marker");
    assert(args[0].name@[0] != "self"@[0]);
}

/// Overloads told apart by their index always get different suffixes:
/// the same method at two different positions is named differently.
pub proof fn law_index_suffixes_differ(
    args: Seq<RustMethodArgument>,
    all_self_args: Set<RustMethodSelfArgKind>,
    index1: usize,
    index2: usize,
    captions: Seq<Result<String, InfoError>>,
)
    requires
        index1 != index2,
        name_suffix_of(args, RustMethodCaptionStrategy::Index, all_self_args, index1, captions) is Ok,
    ensures
        name_suffix_of(args, RustMethodCaptionStrategy::Index, all_self_args, index1, captions)
            != name_suffix_of(args, RustMethodCaptionStrategy::Index, all_self_args, index2, captions),
{
    let kind = self_arg_kind_of(args)->Ok_0;
    let sc = self_kind_caption(kind, all_self_args)->Ok_0;
    let d1 = decimal(index1 as nat);
    let d2 = decimal(index2 as nat);
    if sc is Some {
        let p = sc->0 + "_"@;
        if p + d1 == p + d2 {
            assert(d1 =~= (p + d1).subrange(p.len() as int, (p + d1).len() as int));
            assert(d2 =~= (p + d2).subrange(p.len() as int, (p + d2).len() as int));
            lemma_decimal_injective(index1 as nat, index2 as nat);
        }
        assert(sc->0 + "_"@ + d1 =~= p + d1);
        assert(sc->0 + "_"@ + d2 =~= p + d2);
    } else {
        lemma_decimal_injective(index1 as nat, index2 as nat);
    }
}

/// When all overloads take `self` the same way, their self kind adds
/// nothing to the suffix, and the `NoArgs` strategy adds no suffix at all.
pub proof fn law_single_self_kind_needs_no_suffix(
    args: Seq<RustMethodArgument>,
    all_self_args: Set<RustMethodSelfArgKind>,
    index: usize,
    captions: Seq<Result<String, InfoError>>,
)
    requires
        self_arg_kind_of(args) is Ok,
        all_self_args.len() == 1,
    ensures
        name_suffix_of(args, RustMethodCaptionStrategy::NoArgs, all_self_args, index, captions)
            == Ok::<Option<Seq<char>>, InfoError>(None),
{
}

/// A method that takes `self` by constant reference never gets a caption
/// for its self kind, whatever the other overloads take.
pub proof fn law_const_ref_self_has_no_self_caption(all_self_args: Set<RustMethodSelfArgKind>)
    ensures
        self_kind_caption(RustMethodSelfArgKind::ConstRef, all_self_args) == Ok::<
            Option<Seq<char>>,
            InfoError,
        >(None),
{
}

/// Two methods that take `self` the same way and have as many arguments
/// can be overloads of one name as soon as, at some position (the first one
/// included), their C++ argument types cannot be the same.
pub proof fn law_incompatible_argument_types_allow_overloading(
    a: Seq<RustMethodArgument>,
    b: Seq<RustMethodArgument>,
    cpp_types_can_match: Seq<bool>,
    i: int,
)
    requires
        self_arg_kind_of(a) is Ok,
        self_arg_kind_of(a) == self_arg_kind_of(b),
        a.len() == b.len(),
        0 <= i < a.len(),
        !cpp_types_can_match[i],
    ensures
        overloadable(a, b, cpp_types_can_match) == Ok::<bool, InfoError>(true),
{
    assert(!indistinguishable_arguments(a[i], b[i], cpp_types_can_match[i]));
}

/// Among overloads that take `self` in different ways, a static method is
/// always captioned `static`.
pub proof fn law_static_methods_are_captioned_static(all_self_args: Set<RustMethodSelfArgKind>)
    requires
        all_self_args.len() > 1,
    ensures
        self_kind_caption(RustMethodSelfArgKind::Static, all_self_args) == Ok::<
            Option<Seq<char>>,
            InfoError,
        >(Some(seq!['s', 't', 'a', 't', 'i', 'c'])),
{
    reveal_strlit("static");
    assert("static"@ =~= seq!['s', 't', 'a', 't', 'i', 'c']);
}

spec fn caption_length(c: Option<Seq<char>>) -> int {
    match c {
        None => 0,
        Some(x) => x.len() as int + 1,
    }
}

/// Two overloads of one group that take `self` in different ways never get
/// the same suffix, when the caption strategy gives them the same caption.
pub proof fn law_different_self_kinds_get_different_suffixes(
    args1: Seq<RustMethodArgument>,
    args2: Seq<RustMethodArgument>,
    all_self_args: Set<RustMethodSelfArgKind>,
    strategy: RustMethodCaptionStrategy,
    index1: usize,
    index2: usize,
    captions1: Seq<Result<String, InfoError>>,
    captions2: Seq<Result<String, InfoError>>,
)
    requires
        all_self_args.finite(),
        self_arg_kind_of(args1) is Ok,
        self_arg_kind_of(args2) is Ok,
        self_arg_kind_of(args1) != self_arg_kind_of(args2),
        all_self_args.contains(self_arg_kind_of(args1)->Ok_0),
        all_self_args.contains(self_arg_kind_of(args2)->Ok_0),
        name_suffix_of(args1, strategy, all_self_args, index1, captions1) is Ok,
        name_suffix_of(args2, strategy, all_self_args, index2, captions2) is Ok,
        strategy_caption(strategy, args1, index1, captions1) == strategy_caption(
            strategy,
            args2,
            index2,
            captions2,
        ),
    ensures
        name_suffix_of(args1, strategy, all_self_args, index1, captions1) != name_suffix_of(
            args2,
            strategy,
            all_self_args,
            index2,
            captions2,
        ),
{
    let k1 = self_arg_kind_of(args1)->Ok_0;
    let k2 = self_arg_kind_of(args2)->Ok_0;
    let rest = all_self_args.remove(k1);
    assert(rest.contains(k2));
    vstd::set_lib::lemma_set_empty_equivalency_len(rest);
    assert(all_self_args.len() > 1);
    reveal_strlit("static");
    reveal_strlit("mut");
    reveal_strlit("_");
    let sc1 = self_kind_caption(k1, all_self_args)->Ok_0;
    let sc2 = self_kind_caption(k2, all_self_args)->Ok_0;
    assert(caption_length(sc1) != caption_length(sc2));
    let oc = strategy_caption(strategy, args1, index1, captions1)->Ok_0;
    match oc {
        None => {},
        Some(y) => {
            match (sc1, sc2) {
                (Some(x1), Some(x2)) => {
                    assert((x1 + "_"@ + y).len() != (x2 + "_"@ + y).len());
                },
                (Some(x1), None) => {
                    assert((x1 + "_"@ + y).len() != y.len());
                },
                (None, Some(x2)) => {
                    assert((x2 + "_"@ + y).len() != y.len());
                },
                _ => {},
            }
        },
    }
}

} // verus!
