//! The ordered map adapter: entries in ascending key order.
use vstd::prelude::*;
use std::collections::BTreeMap;
use vstd::laws_cmp::obeys_cmp;
use vstd::std_specs::btree::{axiom_increasing_seq_meaning, increasing_seq, key_obeys_cmp_spec, spec_btree_map_iter};
use vstd::std_specs::cmp::OrdSpec;
use vstd::std_specs::iter::IteratorSpec;
use crate::keyed::{
    all_entries_render, entry_listing, lemma_entries_monochrome, lemma_entry_listing_members, map_plain,
    map_traversable, write_entries,
};
use crate::render::{escape_free, write_newlines, ColorDisplay, Format};
use crate::sequence::{framed, lemma_appended, lemma_framed_escape_free};

verus! {

/// How an ordered map is rendered: blank lines before, between and after its
/// entries; each entry as its key, the separator literal, then its value.
#[derive(Clone, Copy)]
pub struct BTreeMapFormat<KF, VF> {
    pub prefix_newlines: u16,
    pub intersperse_newlines: u16,
    pub suffix_newlines: u16,
    pub key_value_separator: &'static str,
    pub key_format: KF,
    pub value_format: VF,
}

/// The keys of the entries are in strictly ascending order.
pub open spec fn ascending_keys<K: Ord, V>(entries: Seq<(K, V)>) -> bool {
    forall|i: int, j: int| 0 <= i < j < entries.len() ==> (#[trigger] entries[i].0.cmp_spec(&entries[j].0)) is Less
}

/// Collects references to the entries in ascending key order.
fn collect_entries<'a, K: Ord, V>(m: &'a BTreeMap<K, V>) -> (r: Vec<(&'a K, &'a V)>)
    requires
        key_obeys_cmp_spec::<K>(),
    ensures
        entry_listing(r@.unref(), m@),
        ascending_keys(r@.unref()),
{
    let mut items: Vec<(&'a K, &'a V)> = Vec::new();
    let iter = m.iter();
    let ghost keys = spec_btree_map_iter(m).remaining().map_values(|kv: (&K, &V)| *kv.0);
    assert(increasing_seq(keys));
    for x in it: iter
        invariant
            it.seq() == spec_btree_map_iter(m).remaining(),
            items@ == it.history(),
    {
        items.push(x);
    }
    let ghost entries = spec_btree_map_iter(m).remaining();
    assert(items@ =~= entries);
    proof {
        let u = items@.unref();
        assert(u.no_duplicates()) by {
            assert forall|i: int, j: int| 0 <= i < u.len() && 0 <= j < u.len() && i != j implies u[i] != u[j] by {
                assert(items@[i] != items@[j]);
            }
        }
        assert(obeys_cmp::<K>());
        broadcast use axiom_increasing_seq_meaning;
        assert(ascending_keys(u)) by {
            assert forall|i: int, j: int| 0 <= i < j < u.len() implies (#[trigger] u[i].0.cmp_spec(&u[j].0)) is Less by {
                assert(keys[i] == u[i].0);
                assert(keys[j] == u[j].0);
                assert(keys[i].cmp_spec(&keys[j]) is Less);
            }
        }
    }
    items
}

/// `entries` lists the entries of `m` once each, in ascending key order.
pub open spec fn ascending_entry_listing<K: Ord, V>(entries: Seq<(K, V)>, m: Map<K, V>) -> bool {
    entry_listing(entries, m) && ascending_keys(entries)
}

impl<KF, VF, K: ColorDisplay<KF> + Ord, V: ColorDisplay<VF>> ColorDisplay<BTreeMapFormat<KF, VF>> for BTreeMap<K, V> {
    open spec fn renders(&self, format: &BTreeMapFormat<KF, VF>, out: Seq<char>) -> bool {
        exists|entries: Seq<(K, V)>, pieces: Seq<Seq<char>>|
            #[trigger] all_entries_render(entries, format.key_format, format.key_value_separator@, format.value_format, pieces)
                && ascending_entry_listing(entries, self@)
                && out == framed(format.prefix_newlines, format.intersperse_newlines, format.suffix_newlines, pieces)
    }

    open spec fn traversable(&self) -> bool {
        key_obeys_cmp_spec::<K>() && map_traversable::<K, V, KF, VF>(self@)
    }

    open spec fn monochrome(format: &BTreeMapFormat<KF, VF>) -> bool {
        &&& K::monochrome(&format.key_format)
        &&& V::monochrome(&format.value_format)
        &&& escape_free(format.key_value_separator@)
    }

    open spec fn plain_payload(&self) -> bool {
        map_plain::<K, V, KF, VF>(self@)
    }

    fn color_fmt(&self, sink: &mut String, format: &BTreeMapFormat<KF, VF>) {
        let ghost start = sink@;
        let entries = collect_entries(self);
        proof {
            lemma_entry_listing_members(entries@.unref(), self@);
            assert forall|i: int| 0 <= i < entries@.len() implies (#[trigger] entries@[i]).0.traversable() && entries@[i].1.traversable() by {
                assert(entries@.unref()[i] == (*entries@[i].0, *entries@[i].1));
                assert(self@.contains_key(*entries@[i].0));
            }
        }
        write_newlines(sink, format.prefix_newlines);
        let pieces = write_entries(
            sink,
            entries.as_slice(),
            format.intersperse_newlines,
            &format.key_format,
            format.key_value_separator,
            &format.value_format,
        );
        write_newlines(sink, format.suffix_newlines);
        proof {
            let out = framed(format.prefix_newlines, format.intersperse_newlines, format.suffix_newlines, pieces@);
            assert(sink@ =~= start + out);
            lemma_appended(start, sink@, out);
            assert(all_entries_render(entries@.unref(), format.key_format, format.key_value_separator@, format.value_format, pieces@));
        }
    }

    proof fn lemma_monochrome(&self, format: &BTreeMapFormat<KF, VF>, out: Seq<char>) {
        let (entries, pieces) = choose|entries: Seq<(K, V)>, pieces: Seq<Seq<char>>|
            #[trigger] all_entries_render(entries, format.key_format, format.key_value_separator@, format.value_format, pieces)
                && ascending_entry_listing(entries, self@)
                && out == framed(format.prefix_newlines, format.intersperse_newlines, format.suffix_newlines, pieces);
        lemma_entry_listing_members(entries, self@);
        assert forall|i: int| 0 <= i < entries.len() implies (#[trigger] entries[i]).0.plain_payload() && entries[i].1.plain_payload() by {
            assert(self@.contains_key(entries[i].0));
        }
        lemma_entries_monochrome(entries, format.key_format, format.key_value_separator@, format.value_format, pieces);
        lemma_framed_escape_free(format.prefix_newlines, format.intersperse_newlines, format.suffix_newlines, pieces);
    }
}

/// An ordered map renders its entries in ascending key order, and what it
/// renders depends on its contents alone: a map with the same entries,
/// inserted in any other order, renders the same text.
pub proof fn lemma_ordered_map_ascending<KF, VF, K: ColorDisplay<KF> + Ord, V: ColorDisplay<VF>>(
    first: BTreeMap<K, V>,
    second: BTreeMap<K, V>,
    format: BTreeMapFormat<KF, VF>,
    out: Seq<char>,
)
    requires
        first@ == second@,
        first.renders(&format, out),
    ensures
        second.renders(&format, out),
        exists|entries: Seq<(K, V)>, pieces: Seq<Seq<char>>|
            #[trigger] all_entries_render(entries, format.key_format, format.key_value_separator@, format.value_format, pieces)
                && ascending_keys(entries)
                && entry_listing(entries, first@)
                && out == framed(format.prefix_newlines, format.intersperse_newlines, format.suffix_newlines, pieces),
{
}

impl<KF: Format, VF: Format> Format for BTreeMapFormat<KF, VF> {
    open spec fn colored_spec(indent: u16) -> BTreeMapFormat<KF, VF> {
        BTreeMapFormat {
            prefix_newlines: 0,
            intersperse_newlines: 1,
            suffix_newlines: 0,
            key_value_separator: ": ",
            key_format: KF::colored_spec(indent),
            value_format: VF::colored_spec(indent),
        }
    }

    open spec fn monochrome_spec(indent: u16) -> BTreeMapFormat<KF, VF> {
        BTreeMapFormat {
            prefix_newlines: 0,
            intersperse_newlines: 1,
            suffix_newlines: 0,
            key_value_separator: ": ",
            key_format: KF::monochrome_spec(indent),
            value_format: VF::monochrome_spec(indent),
        }
    }

    fn colored(indent: u16) -> BTreeMapFormat<KF, VF> {
        BTreeMapFormat {
            prefix_newlines: 0,
            intersperse_newlines: 1,
            suffix_newlines: 0,
            key_value_separator: ": ",
            key_format: KF::colored(indent),
            value_format: VF::colored(indent),
        }
    }

    fn monochrome(indent: u16) -> BTreeMapFormat<KF, VF> {
        BTreeMapFormat {
            prefix_newlines: 0,
            intersperse_newlines: 1,
            suffix_newlines: 0,
            key_value_separator: ": ",
            key_format: KF::monochrome(indent),
            value_format: VF::monochrome(indent),
        }
    }

    fn standard(indent: u16) -> BTreeMapFormat<KF, VF> {
        BTreeMapFormat::colored(indent)
    }
}

} // verus!
