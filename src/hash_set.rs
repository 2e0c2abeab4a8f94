//! The hash set adapter: elements in the order the set yields them.
use vstd::prelude::*;
use std::collections::HashSet;
use vstd::std_specs::hash::{obeys_key_model, spec_hash_keys_iter};
use vstd::std_specs::iter::IteratorSpec;
use crate::render::{ColorDisplay, Format};
use crate::sequence::{
    all_plain, all_render, all_traversable, framed, lemma_appended, lemma_framed_escape_free,
    lemma_items_monochrome, lemma_listing_members, lemma_render_unref, write_sequence,
};

verus! {

/// How a hash set is rendered: like a slice of its elements.
#[derive(Clone, Copy)]
pub struct HashSetFormat<TF> {
    pub prefix_newlines: u16,
    pub intersperse_newlines: u16,
    pub suffix_newlines: u16,
    pub item_format: TF,
}

/// Collects references to the elements in the order the set yields them.
fn collect_elements<'a, T>(s: &'a HashSet<T>) -> (r: Vec<&'a T>)
    requires
        obeys_key_model::<T>(),
    ensures
        r@.unref().to_set() == s@,
        r@.no_duplicates(),
{
    let mut items: Vec<&'a T> = Vec::new();
    for x in it: s.iter()
        invariant
            it.seq() == spec_hash_keys_iter(s).remaining(),
            items@ == it.history(),
    {
        items.push(x);
    }
    assert(items@ =~= spec_hash_keys_iter(s).remaining());
    items
}

/// `elems` lists the members of `members` once each.
pub open spec fn listing<T>(elems: Seq<T>, members: Set<T>) -> bool {
    &&& elems.no_duplicates()
    &&& elems.to_set() == members
}

impl<TF, T: ColorDisplay<TF>> ColorDisplay<HashSetFormat<TF>> for HashSet<T> {
    open spec fn renders(&self, format: &HashSetFormat<TF>, out: Seq<char>) -> bool {
        exists|elems: Seq<T>, pieces: Seq<Seq<char>>|
            #[trigger] all_render(elems, format.item_format, pieces)
                && listing(elems, self@)
                && out == framed(format.prefix_newlines, format.intersperse_newlines, format.suffix_newlines, pieces)
    }

    open spec fn traversable(&self) -> bool {
        &&& obeys_key_model::<T>()
        &&& forall|x: T| self@.contains(x) ==> #[trigger] x.traversable()
    }

    open spec fn monochrome(format: &HashSetFormat<TF>) -> bool {
        T::monochrome(&format.item_format)
    }

    open spec fn plain_payload(&self) -> bool {
        forall|x: T| self@.contains(x) ==> #[trigger] x.plain_payload()
    }

    fn color_fmt(&self, sink: &mut String, format: &HashSetFormat<TF>) {
        let ghost start = sink@;
        let items = collect_elements(self);
        proof {
            lemma_listing_members::<T, TF>(items@, self@);
            assert(all_traversable::<&T, TF>(items@));
        }
        let pieces = write_sequence(
            sink,
            items.as_slice(),
            format.prefix_newlines,
            format.intersperse_newlines,
            format.suffix_newlines,
            &format.item_format,
        );
        proof {
            let out = framed(format.prefix_newlines, format.intersperse_newlines, format.suffix_newlines, pieces@);
            lemma_appended(start, sink@, out);
            let elems = items@.unref();
            lemma_render_unref(items@, format.item_format, pieces@);
            assert(elems.no_duplicates()) by {
                assert forall|i: int, j: int| 0 <= i < elems.len() && 0 <= j < elems.len() && i != j implies elems[i] != elems[j] by {
                    assert(items@[i] != items@[j]);
                }
            }
            assert(all_render(elems, format.item_format, pieces@));
        }
    }

    proof fn lemma_monochrome(&self, format: &HashSetFormat<TF>, out: Seq<char>) {
        let (elems, pieces) = choose|elems: Seq<T>, pieces: Seq<Seq<char>>|
            #[trigger] all_render(elems, format.item_format, pieces)
                && listing(elems, self@)
                && out == framed(format.prefix_newlines, format.intersperse_newlines, format.suffix_newlines, pieces);
        assert(all_plain::<T, TF>(elems)) by {
            assert forall|i: int| 0 <= i < elems.len() implies #[trigger] elems[i].plain_payload() by {
                assert(elems.contains(elems[i]));
                assert(self@.contains(elems[i]));
            }
        }
        lemma_items_monochrome(elems, format.item_format, pieces);
        lemma_framed_escape_free(format.prefix_newlines, format.intersperse_newlines, format.suffix_newlines, pieces);
    }
}

impl<TF: Format> Format for HashSetFormat<TF> {
    open spec fn colored_spec(indent: u16) -> HashSetFormat<TF> {
        HashSetFormat { prefix_newlines: 0, intersperse_newlines: 1, suffix_newlines: 0, item_format: TF::colored_spec(indent) }
    }

    open spec fn monochrome_spec(indent: u16) -> HashSetFormat<TF> {
        HashSetFormat { prefix_newlines: 0, intersperse_newlines: 1, suffix_newlines: 0, item_format: TF::monochrome_spec(indent) }
    }

    fn colored(indent: u16) -> HashSetFormat<TF> {
        HashSetFormat { prefix_newlines: 0, intersperse_newlines: 1, suffix_newlines: 0, item_format: TF::colored(indent) }
    }

    fn monochrome(indent: u16) -> HashSetFormat<TF> {
        HashSetFormat { prefix_newlines: 0, intersperse_newlines: 1, suffix_newlines: 0, item_format: TF::monochrome(indent) }
    }

    fn standard(indent: u16) -> HashSetFormat<TF> {
        HashSetFormat::colored(indent)
    }
}

} // verus!
