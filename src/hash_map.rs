//! The hash map adapter: entries in the order the map yields them.
use vstd::prelude::*;
use std::collections::HashMap;
use vstd::std_specs::hash::{obeys_key_model, spec_hash_map_iter};
use vstd::std_specs::iter::IteratorSpec;
use crate::keyed::{
    all_entries_render, entry_listing, lemma_entries_monochrome, lemma_entry_listing_members, map_plain,
    map_traversable, write_entries,
};
use crate::render::{escape_free, write_newlines, ColorDisplay, Format};
use crate::sequence::{framed, lemma_appended, lemma_framed_escape_free};

verus! {

/// How a hash map is rendered: blank lines before, between and after its
/// entries; each entry as its key, the separator literal, then its value.
#[derive(Clone, Copy)]
pub struct HashMapFormat<KF, VF> {
    pub prefix_newlines: u16,
    pub intersperse_newlines: u16,
    pub suffix_newlines: u16,
    pub key_value_separator: &'static str,
    pub key_format: KF,
    pub value_format: VF,
}

/// Collects references to the entries in the order the map yields them.
fn collect_entries<'a, K, V>(m: &'a HashMap<K, V>) -> (r: Vec<(&'a K, &'a V)>)
    requires
        obeys_key_model::<K>(),
    ensures
        entry_listing(r@.unref(), m@),
{
    let mut items: Vec<(&'a K, &'a V)> = Vec::new();
    let iter = m.iter();
    for x in it: iter
        invariant
            it.seq() == spec_hash_map_iter(m).remaining(),
            items@ == it.history(),
    {
        items.push(x);
    }
    let ghost entries = spec_hash_map_iter(m).remaining();
    assert(items@ =~= entries);
    proof {
        let u = items@.unref();
        assert(u.no_duplicates()) by {
            assert forall|i: int, j: int| 0 <= i < u.len() && 0 <= j < u.len() && i != j implies u[i] != u[j] by {
                assert(items@[i] != items@[j]);
            }
        }
    }
    items
}

impl<KF, VF, K: ColorDisplay<KF>, V: ColorDisplay<VF>> ColorDisplay<HashMapFormat<KF, VF>> for HashMap<K, V> {
    open spec fn renders(&self, format: &HashMapFormat<KF, VF>, out: Seq<char>) -> bool {
        exists|entries: Seq<(K, V)>, pieces: Seq<Seq<char>>|
            #[trigger] all_entries_render(entries, format.key_format, format.key_value_separator@, format.value_format, pieces)
                && entry_listing(entries, self@)
                && out == framed(format.prefix_newlines, format.intersperse_newlines, format.suffix_newlines, pieces)
    }

    open spec fn traversable(&self) -> bool {
        obeys_key_model::<K>() && map_traversable::<K, V, KF, VF>(self@)
    }

    open spec fn monochrome(format: &HashMapFormat<KF, VF>) -> bool {
        &&& K::monochrome(&format.key_format)
        &&& V::monochrome(&format.value_format)
        &&& escape_free(format.key_value_separator@)
    }

    open spec fn plain_payload(&self) -> bool {
        map_plain::<K, V, KF, VF>(self@)
    }

    fn color_fmt(&self, sink: &mut String, format: &HashMapFormat<KF, VF>) {
        let ghost start = sink@;
        let entries = collect_entries(self);
        proof {
            lemma_entry_listing_members(entries@.unref(), self@);
            assert forall|i: int| 0 <= i < entries@.len() implies (#[trigger] entries@[i]).0.traversable() && entries@[i].1.traversable() by {
                assert(entries@.unref()[i] == (*entries@[i].0, *entries@[i].1));
                assert(self@.contains_key(*entries@[i].0));
            }
        }
        write_newlines(sink, format.prefix_newlines);
        let pieces = write_entries(
            sink,
            entries.as_slice(),
            format.intersperse_newlines,
            &format.key_format,
            format.key_value_separator,
            &format.value_format,
        );
        write_newlines(sink, format.suffix_newlines);
        proof {
            let out = framed(format.prefix_newlines, format.intersperse_newlines, format.suffix_newlines, pieces@);
            assert(sink@ =~= start + out);
            lemma_appended(start, sink@, out);
            assert(all_entries_render(entries@.unref(), format.key_format, format.key_value_separator@, format.value_format, pieces@));
        }
    }

    proof fn lemma_monochrome(&self, format: &HashMapFormat<KF, VF>, out: Seq<char>) {
        let (entries, pieces) = choose|entries: Seq<(K, V)>, pieces: Seq<Seq<char>>|
            #[trigger] all_entries_render(entries, format.key_format, format.key_value_separator@, format.value_format, pieces)
                && entry_listing(entries, self@)
                && out == framed(format.prefix_newlines, format.intersperse_newlines, format.suffix_newlines, pieces);
        lemma_entry_listing_members(entries, self@);
        assert forall|i: int| 0 <= i < entries.len() implies (#[trigger] entries[i]).0.plain_payload() && entries[i].1.plain_payload() by {
            assert(self@.contains_key(entries[i].0));
        }
        lemma_entries_monochrome(entries, format.key_format, format.key_value_separator@, format.value_format, pieces);
        lemma_framed_escape_free(format.prefix_newlines, format.intersperse_newlines, format.suffix_newlines, pieces);
    }
}

impl<KF: Format, VF: Format> Format for HashMapFormat<KF, VF> {
    open spec fn colored_spec(indent: u16) -> HashMapFormat<KF, VF> {
        HashMapFormat {
            prefix_newlines: 0,
            intersperse_newlines: 1,
            suffix_newlines: 0,
            key_value_separator: ": ",
            key_format: KF::colored_spec(indent),
            value_format: VF::colored_spec(indent),
        }
    }

    open spec fn monochrome_spec(indent: u16) -> HashMapFormat<KF, VF> {
        HashMapFormat {
            prefix_newlines: 0,
            intersperse_newlines: 1,
            suffix_newlines: 0,
            key_value_separator: ": ",
            key_format: KF::monochrome_spec(indent),
            value_format: VF::monochrome_spec(indent),
        }
    }

    fn colored(indent: u16) -> HashMapFormat<KF, VF> {
        HashMapFormat {
            prefix_newlines: 0,
            intersperse_newlines: 1,
            suffix_newlines: 0,
            key_value_separator: ": ",
            key_format: KF::colored(indent),
            value_format: VF::colored(indent),
        }
    }

    fn monochrome(indent: u16) -> HashMapFormat<KF, VF> {
        HashMapFormat {
            prefix_newlines: 0,
            intersperse_newlines: 1,
            suffix_newlines: 0,
            key_value_separator: ": ",
            key_format: KF::monochrome(indent),
            value_format: VF::monochrome(indent),
        }
    }

    fn standard(indent: u16) -> HashMapFormat<KF, VF> {
        HashMapFormat::colored(indent)
    }
}

} // verus!
