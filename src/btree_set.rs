//! The ordered set adapter: elements in ascending order.
use vstd::prelude::*;
use std::collections::BTreeSet;
use vstd::std_specs::btree::{axiom_increasing_seq_meaning, increasing_seq, key_obeys_cmp_spec, spec_btree_keys_iter};
use vstd::laws_cmp::{lemma_ref_obeys_cmp_spec, obeys_cmp};
use vstd::std_specs::cmp::OrdSpec;
use vstd::std_specs::iter::IteratorSpec;
use crate::render::{ColorDisplay, Format};
use crate::sequence::{
    all_plain, all_render, all_traversable, framed, lemma_appended, lemma_framed_escape_free,
    lemma_items_monochrome, lemma_listing_members, lemma_render_unref, write_sequence,
};

verus! {

/// How an ordered set is rendered: like a slice of its elements.
#[derive(Clone, Copy)]
pub struct BTreeSetFormat<TF> {
    pub prefix_newlines: u16,
    pub intersperse_newlines: u16,
    pub suffix_newlines: u16,
    pub item_format: TF,
}

/// Collects references to the elements in ascending order.
fn collect_elements<'a, T: Ord>(s: &'a BTreeSet<T>) -> (r: Vec<&'a T>)
    requires
        key_obeys_cmp_spec::<T>(),
    ensures
        r@.unref().to_set() == s@,
        r@.no_duplicates(),
        r@.len() == s@.len(),
        increasing_seq(r@),
{
    let mut items: Vec<&'a T> = Vec::new();
    for x in it: s.iter()
        invariant
            it.seq() == spec_btree_keys_iter(s).remaining(),
            items@ == it.history(),
    {
        items.push(x);
    }
    assert(items@ =~= spec_btree_keys_iter(s).remaining());
    items
}

/// The elements are in strictly ascending order.
pub open spec fn ascending<T: Ord>(elems: Seq<T>) -> bool {
    forall|i: int, j: int| 0 <= i < j < elems.len() ==> (#[trigger] elems[i].cmp_spec(&elems[j])) is Less
}

/// `elems` lists the members of `members` once each, in ascending order.
pub open spec fn ascending_listing<T: Ord>(elems: Seq<T>, members: Set<T>) -> bool {
    &&& ascending(elems)
    &&& elems.no_duplicates()
    &&& elems.to_set() == members
}

impl<TF, T: ColorDisplay<TF> + Ord> ColorDisplay<BTreeSetFormat<TF>> for BTreeSet<T> {
    open spec fn renders(&self, format: &BTreeSetFormat<TF>, out: Seq<char>) -> bool {
        exists|elems: Seq<T>, pieces: Seq<Seq<char>>|
            #[trigger] all_render(elems, format.item_format, pieces)
                && ascending_listing(elems, self@)
                && out == framed(format.prefix_newlines, format.intersperse_newlines, format.suffix_newlines, pieces)
    }

    open spec fn traversable(&self) -> bool {
        &&& key_obeys_cmp_spec::<T>()
        &&& forall|x: T| self@.contains(x) ==> #[trigger] x.traversable()
    }

    open spec fn monochrome(format: &BTreeSetFormat<TF>) -> bool {
        T::monochrome(&format.item_format)
    }

    open spec fn plain_payload(&self) -> bool {
        forall|x: T| self@.contains(x) ==> #[trigger] x.plain_payload()
    }

    fn color_fmt(&self, sink: &mut String, format: &BTreeSetFormat<TF>) {
        let ghost start = sink@;
        let items = collect_elements(self);
        proof {
            lemma_listing_members::<T, TF>(items@, self@);
            assert(all_traversable::<&T, TF>(items@));
        }
        let pieces = write_sequence(
            sink,
            items.as_slice(),
            format.prefix_newlines,
            format.intersperse_newlines,
            format.suffix_newlines,
            &format.item_format,
        );
        proof {
            let out = framed(format.prefix_newlines, format.intersperse_newlines, format.suffix_newlines, pieces@);
            lemma_appended(start, sink@, out);
            let elems = items@.unref();
            lemma_render_unref(items@, format.item_format, pieces@);
            assert(obeys_cmp::<T>());
            broadcast use lemma_ref_obeys_cmp_spec, axiom_increasing_seq_meaning;
            assert(increasing_seq(items@));
            assert(ascending(elems)) by {
                assert forall|i: int, j: int| 0 <= i < j < elems.len() implies (#[trigger] elems[i].cmp_spec(&elems[j])) is Less by {
                    assert(<&T as OrdSpec>::cmp_spec(&items@[i], &items@[j]) is Less);
                }
            }
            assert(elems.no_duplicates()) by {
                assert forall|i: int, j: int| 0 <= i < elems.len() && 0 <= j < elems.len() && i != j implies elems[i] != elems[j] by {
                    assert(items@[i] != items@[j]);
                }
            }
            assert(all_render(elems, format.item_format, pieces@));
        }
    }

    proof fn lemma_monochrome(&self, format: &BTreeSetFormat<TF>, out: Seq<char>) {
        let (elems, pieces) = choose|elems: Seq<T>, pieces: Seq<Seq<char>>|
            #[trigger] all_render(elems, format.item_format, pieces)
                && ascending_listing(elems, self@)
                && out == framed(format.prefix_newlines, format.intersperse_newlines, format.suffix_newlines, pieces);
        assert(all_plain::<T, TF>(elems)) by {
            assert forall|i: int| 0 <= i < elems.len() implies #[trigger] elems[i].plain_payload() by {
                assert(elems.contains(elems[i]));
                assert(self@.contains(elems[i]));
            }
        }
        lemma_items_monochrome(elems, format.item_format, pieces);
        lemma_framed_escape_free(format.prefix_newlines, format.intersperse_newlines, format.suffix_newlines, pieces);
    }
}

/// An ordered set renders its elements in ascending order, and what it
/// renders depends on its contents alone: a set with the same elements,
/// inserted in any other order, renders the same text.
pub proof fn lemma_ordered_set_ascending<TF, T: ColorDisplay<TF> + Ord>(
    first: BTreeSet<T>,
    second: BTreeSet<T>,
    format: BTreeSetFormat<TF>,
    out: Seq<char>,
)
    requires
        first@ == second@,
        first.renders(&format, out),
    ensures
        second.renders(&format, out),
        exists|elems: Seq<T>, pieces: Seq<Seq<char>>|
            #[trigger] all_render(elems, format.item_format, pieces)
                && ascending(elems)
                && elems.to_set() == first@
                && out == framed(format.prefix_newlines, format.intersperse_newlines, format.suffix_newlines, pieces),
{
}

impl<TF: Format> Format for BTreeSetFormat<TF> {
    open spec fn colored_spec(indent: u16) -> BTreeSetFormat<TF> {
        BTreeSetFormat { prefix_newlines: 0, intersperse_newlines: 1, suffix_newlines: 0, item_format: TF::colored_spec(indent) }
    }

    open spec fn monochrome_spec(indent: u16) -> BTreeSetFormat<TF> {
        BTreeSetFormat { prefix_newlines: 0, intersperse_newlines: 1, suffix_newlines: 0, item_format: TF::monochrome_spec(indent) }
    }

    fn colored(indent: u16) -> BTreeSetFormat<TF> {
        BTreeSetFormat { prefix_newlines: 0, intersperse_newlines: 1, suffix_newlines: 0, item_format: TF::colored(indent) }
    }

    fn monochrome(indent: u16) -> BTreeSetFormat<TF> {
        BTreeSetFormat { prefix_newlines: 0, intersperse_newlines: 1, suffix_newlines: 0, item_format: TF::monochrome(indent) }
    }

    fn standard(indent: u16) -> BTreeSetFormat<TF> {
        BTreeSetFormat::colored(indent)
    }
}

} // verus!
