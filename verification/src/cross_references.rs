use vstd::prelude::*;

use crate::rust_info::{
    docs_cpp_cross_references, lemma_cross_reference_same_as_common, RustCrossReference, RustMethod,
    RustMethodDocItem,
};

verus! {

/// A table from C++ item names to the Rust items that stand for them.
pub struct CrossReferenceTable {
    entries: Vec<(String, RustCrossReference)>,
}

/// The map that a list of entries builds when they are inserted in order:
/// a later entry for a name replaces an earlier one.
pub open spec fn entries_map(entries: Seq<(String, RustCrossReference)>) -> Map<
    Seq<char>,
    RustCrossReference,
>
    decreases entries.len(),
{
    if entries.len() == 0 {
        Map::empty()
    } else {
        entries_map(entries.drop_last()).insert(entries.last().0@, entries.last().1)
    }
}

proof fn lemma_entries_map_absent(entries: Seq<(String, RustCrossReference)>, key: Seq<char>)
    requires
        forall|j: int| 0 <= j < entries.len() ==> (#[trigger] entries[j]).0@ != key,
    ensures
        !entries_map(entries).dom().contains(key),
    decreases entries.len(),
{
    if entries.len() > 0 {
        let rest = entries.drop_last();
        assert forall|j: int| 0 <= j < rest.len() implies (#[trigger] rest[j]).0@ != key by {
            assert(rest[j] == entries[j]);
        }
        lemma_entries_map_absent(rest, key);
    }
}

proof fn lemma_entries_map_last(entries: Seq<(String, RustCrossReference)>, i: int)
    requires
        0 <= i < entries.len(),
        forall|j: int| i < j < entries.len() ==> (#[trigger] entries[j]).0@ != entries[i].0@,
    ensures
        entries_map(entries).dom().contains(entries[i].0@),
        entries_map(entries)[entries[i].0@] == entries[i].1,
    decreases entries.len(),
{
    if i < entries.len() - 1 {
        let rest = entries.drop_last();
        assert forall|j: int| i < j < rest.len() implies (#[trigger] rest[j]).0@ != rest[i].0@ by {
            assert(rest[j] == entries[j]);
        }
        lemma_entries_map_last(rest, i);
    }
}

impl View for CrossReferenceTable {
    type V = Map<Seq<char>, RustCrossReference>;

    closed spec fn view(&self) -> Map<Seq<char>, RustCrossReference> {
        entries_map(self.entries@)
    }
}

impl CrossReferenceTable {
    /// The empty table.
    pub fn new() -> (r: CrossReferenceTable)
        ensures
            r@ == Map::<Seq<char>, RustCrossReference>::empty(),
    {
        CrossReferenceTable { entries: Vec::new() }
    }

    /// Sets the Rust item that the C++ name `key` refers to.
    pub fn insert(&mut self, key: String, value: RustCrossReference)
        ensures
            final(self)@ == old(self)@.insert(key@, value),
    {
        let ghost k = key@;
        self.entries.push((key, value));
        proof {
            assert(self.entries@.drop_last() =~= old(self).entries@);
        }
    }

    /// The Rust item that the C++ name `key` refers to, if any.
    pub fn get(&self, key: &String) -> (r: Option<&RustCrossReference>)
        ensures
            r is Some <==> self@.dom().contains(key@),
            r matches Some(x) ==> *x == self@[key@],
    {
        let mut i = self.entries.len();
        while i > 0
            invariant
                i <= self.entries.len(),
                forall|j: int|
                    i <= j < self.entries.len() ==> (#[trigger] self.entries@[j]).0@ != key@,
            decreases i,
        {
            i = i - 1;
            if self.entries[i].0 == *key {
                proof {
                    lemma_entries_map_last(self.entries@, i as int);
                }
                return Some(&self.entries[i].1);
            }
        }
        proof {
            lemma_entries_map_absent(self.entries@, key@);
        }
        None
    }
}

/// The Rust items that the C++ names `refs` refer to in `table`, in order;
/// names the table does not know are left out.
pub open spec fn resolve_references(
    table: Map<Seq<char>, RustCrossReference>,
    refs: Seq<String>,
) -> Seq<RustCrossReference>
    decreases refs.len(),
{
    if refs.len() == 0 {
        Seq::empty()
    } else {
        let rest = resolve_references(table, refs.drop_last());
        if table.dom().contains(refs.last()@) {
            rest.push(table[refs.last()@])
        } else {
            rest
        }
    }
}

/// The Rust cross references that a documentation item gets from `table`.
pub open spec fn doc_rust_cross_references(
    table: Map<Seq<char>, RustCrossReference>,
    doc: RustMethodDocItem,
) -> Seq<RustCrossReference> {
    match doc.doc {
        Some(d) => resolve_references(table, d.cross_references@),
        None => Seq::empty(),
    }
}

/// `copies` holds, in order, references to the same items as `sources`.
pub open spec fn same_references(
    copies: Seq<RustCrossReference>,
    sources: Seq<RustCrossReference>,
) -> bool {
    &&& copies.len() == sources.len()
    &&& forall|j: int| 0 <= j < copies.len() ==> (#[trigger] copies[j]).same_as(sources[j])
}

/// `after` is `before` with the Rust cross references of every
/// documentation item replaced by those its C++ cross references resolve to
/// in `table`.
pub open spec fn cross_references_added(
    table: Map<Seq<char>, RustCrossReference>,
    before: Seq<RustMethodDocItem>,
    after: Seq<RustMethodDocItem>,
) -> bool {
    &&& after.len() == before.len()
    &&& forall|i: int|
        0 <= i < after.len() ==> {
            &&& (#[trigger] after[i]).doc == before[i].doc
            &&& after[i].rust_fns == before[i].rust_fns
            &&& after[i].cpp_fn == before[i].cpp_fn
            &&& same_references(
                after[i].rust_cross_references@,
                doc_rust_cross_references(table, before[i]),
            )
        }
}

fn resolve_doc_references(table: &CrossReferenceTable, doc: &RustMethodDocItem) -> (r: Vec<
    RustCrossReference,
>)
    ensures
        same_references(r@, doc_rust_cross_references(table@, *doc)),
{
    let mut result: Vec<RustCrossReference> = Vec::new();
    if let Some(cpp_doc) = &doc.doc {
        let refs = &cpp_doc.cross_references;
        let n = refs.len();
        for i in 0..n
            invariant
                n == refs.len(),
                same_references(result@, resolve_references(table@, refs@.take(i as int))),
        {
            assert(refs@.take(i + 1).drop_last() =~= refs@.take(i as int));
            if let Some(r) = table.get(&refs[i]) {
                result.push(r.clone());
            }
        }
        assert(refs@.take(n as int) =~= refs@);
    }
    result
}

impl RustMethod {
    /// Replaces the Rust cross references of every documentation item by
    /// the Rust items that its C++ cross references stand for in `table`.
    pub fn add_rust_cross_references(&mut self, table: CrossReferenceTable)
        ensures
            final(self).scope == old(self).scope,
            final(self).is_unsafe == old(self).is_unsafe,
            final(self).name == old(self).name,
            final(self).arguments == old(self).arguments,
            cross_references_added(table@, old(self).docs@, final(self).docs@),
    {
        let n = self.docs.len();
        for i in 0..n
            invariant
                n == self.docs.len(),
                self.scope == old(self).scope,
                self.is_unsafe == old(self).is_unsafe,
                self.name == old(self).name,
                self.arguments == old(self).arguments,
                self.docs@.len() == old(self).docs@.len(),
                forall|j: int|
                    i <= j < n ==> #[trigger] self.docs@[j] == old(self).docs@[j],
                forall|j: int|
                    0 <= j < i ==> {
                        &&& (#[trigger] self.docs@[j]).doc == old(self).docs@[j].doc
                        &&& self.docs@[j].rust_fns == old(self).docs@[j].rust_fns
                        &&& self.docs@[j].cpp_fn == old(self).docs@[j].cpp_fn
                        &&& same_references(
                            self.docs@[j].rust_cross_references@,
                            doc_rust_cross_references(table@, old(self).docs@[j]),
                        )
                    },
        {
            let result = resolve_doc_references(&table, &self.docs[i]);
            let mut doc = self.docs.remove(i);
            doc.rust_cross_references = result;
            self.docs.insert(i, doc);
        }
    }
}

/// Adding Rust cross references leaves the C++ cross references of a
/// method unchanged: they depend only on the C++ documentation items.
pub proof fn law_cpp_cross_references_depend_only_on_cpp_docs(
    before: Seq<RustMethodDocItem>,
    after: Seq<RustMethodDocItem>,
)
    requires
        before.len() == after.len(),
        forall|i: int| 0 <= i < before.len() ==> (#[trigger] before[i]).doc == after[i].doc,
    ensures
        docs_cpp_cross_references(after) == docs_cpp_cross_references(before),
    decreases before.len(),
{
    if before.len() > 0 {
        let b = before.drop_last();
        let a = after.drop_last();
        assert forall|i: int| 0 <= i < b.len() implies (#[trigger] b[i]).doc == a[i].doc by {
            assert(b[i] == before[i]);
            assert(a[i] == after[i]);
        }
        law_cpp_cross_references_depend_only_on_cpp_docs(b, a);
    }
}

/// Adding Rust cross references a second time with the same table changes
/// nothing: every documentation item keeps its texts, and its Rust cross
/// references point to the same items, in the same order, as before.
pub proof fn law_adding_cross_references_again_changes_nothing(
    table: Map<Seq<char>, RustCrossReference>,
    initial: Seq<RustMethodDocItem>,
    once: Seq<RustMethodDocItem>,
    twice: Seq<RustMethodDocItem>,
)
    requires
        cross_references_added(table, initial, once),
        cross_references_added(table, once, twice),
    ensures
        twice.len() == once.len(),
        forall|i: int|
            0 <= i < twice.len() ==> {
                &&& (#[trigger] twice[i]).doc == once[i].doc
                &&& twice[i].rust_fns == once[i].rust_fns
                &&& twice[i].cpp_fn == once[i].cpp_fn
                &&& same_references(
                    twice[i].rust_cross_references@,
                    once[i].rust_cross_references@,
                )
            },
{
    assert forall|i: int| 0 <= i < twice.len() implies same_references(
        (#[trigger] twice[i]).rust_cross_references@,
        once[i].rust_cross_references@,
    ) by {
        let resolved = doc_rust_cross_references(table, initial[i]);
        assert(doc_rust_cross_references(table, once[i]) == resolved);
        let a = twice[i].rust_cross_references@;
        let b = once[i].rust_cross_references@;
        assert forall|j: int| 0 <= j < a.len() implies (#[trigger] a[j]).same_as(b[j]) by {
            lemma_cross_reference_same_as_common(a[j], b[j], resolved[j]);
        }
    }
}

/// Resolving C++ names keeps their order, drops the names the table does
/// not know, and yields at most one Rust item per name.
pub proof fn law_resolved_references(table: Map<Seq<char>, RustCrossReference>, refs: Seq<String>)
    ensures
        resolve_references(table, refs).len() <= refs.len(),
        (forall|i: int| 0 <= i < refs.len() ==> table.dom().contains(#[trigger] refs[i]@))
            ==> resolve_references(table, refs) == refs.map_values(
            |r: String| table[r@],
        ),
        (forall|i: int| 0 <= i < refs.len() ==> !table.dom().contains(#[trigger] refs[i]@))
            ==> resolve_references(table, refs).len() == 0,
    decreases refs.len(),
{
    if refs.len() > 0 {
        let rest = refs.drop_last();
        law_resolved_references(table, rest);
        if forall|i: int| 0 <= i < refs.len() ==> table.dom().contains(#[trigger] refs[i]@) {
            assert forall|i: int| 0 <= i < rest.len() implies table.dom().contains(
                #[trigger] rest[i]@,
            ) by {
                assert(rest[i] == refs[i]);
            }
            assert(refs.last() == refs[refs.len() - 1]);
            assert(resolve_references(table, refs) =~= refs.map_values(|r: String| table[r@]));
        }
        if forall|i: int| 0 <= i < refs.len() ==> !table.dom().contains(#[trigger] refs[i]@) {
            assert forall|i: int| 0 <= i < rest.len() implies !table.dom().contains(
                #[trigger] rest[i]@,
            ) by {
                assert(rest[i] == refs[i]);
            }
            assert(refs.last() == refs[refs.len() - 1]);
        }
    }
}

} // verus!
