//! Rendering of key/value entries, shared by the map adapters.
use vstd::prelude::*;
use crate::render::{escape_free, newlines, write_newlines, ColorDisplay};
use crate::sequence::{all_escape_free, join, lemma_join_push, sep_if};

verus! {

/// `out` is the rendering of `key`, the separator, then the rendering of
/// `value`.
pub open spec fn entry_renders<K: ColorDisplay<KF>, V: ColorDisplay<VF>, KF, VF>(
    key: K,
    value: V,
    key_format: KF,
    separator: Seq<char>,
    value_format: VF,
    out: Seq<char>,
) -> bool {
    exists|kp: Seq<char>, vp: Seq<char>|
        #![trigger key.renders(&key_format, kp), value.renders(&value_format, vp)]
        key.renders(&key_format, kp) && value.renders(&value_format, vp) && out == kp + separator + vp
}

/// Each entry renders as the piece at its position.
pub open spec fn all_entries_render<K: ColorDisplay<KF>, V: ColorDisplay<VF>, KF, VF>(
    entries: Seq<(K, V)>,
    key_format: KF,
    separator: Seq<char>,
    value_format: VF,
    pieces: Seq<Seq<char>>,
) -> bool {
    &&& pieces.len() == entries.len()
    &&& forall|i: int|
        0 <= i < entries.len() ==> #[trigger] entry_renders(
            entries[i].0,
            entries[i].1,
            key_format,
            separator,
            value_format,
            pieces[i],
        )
}

/// Every key and value of the map satisfies `traversable`.
pub open spec fn map_traversable<K: ColorDisplay<KF>, V: ColorDisplay<VF>, KF, VF>(m: Map<K, V>) -> bool {
    forall|k: K| #[trigger] m.contains_key(k) ==> k.traversable() && m[k].traversable()
}

/// Every key and value of the map has a plain payload.
pub open spec fn map_plain<K: ColorDisplay<KF>, V: ColorDisplay<VF>, KF, VF>(m: Map<K, V>) -> bool {
    forall|k: K| #[trigger] m.contains_key(k) ==> k.plain_payload() && m[k].plain_payload()
}

/// `entries` lists the entries of `m` once each.
pub open spec fn entry_listing<K, V>(entries: Seq<(K, V)>, m: Map<K, V>) -> bool {
    &&& entries.no_duplicates()
    &&& entries.to_set() == m.kv_pairs()
}

/// Appends the entries, each as key, separator, value, with
/// `intersperse_newlines` newlines between each two.
pub fn write_entries<K: ColorDisplay<KF>, V: ColorDisplay<VF>, KF, VF>(
    sink: &mut String,
    entries: &[(&K, &V)],
    intersperse_newlines: u16,
    key_format: &KF,
    separator: &str,
    value_format: &VF,
) -> (pieces: Ghost<Seq<Seq<char>>>)
    requires
        forall|i: int| 0 <= i < entries@.len() ==> (#[trigger] entries@[i]).0.traversable() && entries@[i].1.traversable(),
    ensures
        all_entries_render(entries@.unref(), *key_format, separator@, *value_format, pieces@),
        final(sink)@ == old(sink)@ + join(pieces@, newlines(intersperse_newlines as nat)),
{
    let ghost sep = newlines(intersperse_newlines as nat);
    let ghost mut done: Seq<Seq<char>> = Seq::empty();
    let mut idx: usize = 0;
    while idx < entries.len()
        invariant
            idx <= entries@.len(),
            forall|i: int| 0 <= i < entries@.len() ==> (#[trigger] entries@[i]).0.traversable() && entries@[i].1.traversable(),
            sep == newlines(intersperse_newlines as nat),
            all_entries_render(entries@.unref().take(idx as int), *key_format, separator@, *value_format, done),
            sink@ == old(sink)@ + join(done, sep),
        decreases entries@.len() - idx,
    {
        let ghost before = sink@;
        if idx > 0 {
            write_newlines(sink, intersperse_newlines);
        }
        let ghost mid = sink@;
        proof {
            assert(done.len() == idx);
            if idx > 0 {
                assert(mid == before + sep);
            } else {
                assert(mid =~= before + sep_if(done.len() > 0, sep));
            }
        }
        let (key, value) = entries[idx];
        assert(entries@[idx as int].0.traversable());
        key.color_fmt(sink, key_format);
        let ghost after_key = sink@;
        sink.append(separator);
        let ghost after_sep = sink@;
        value.color_fmt(sink, value_format);
        let ghost kp = after_key.subrange(mid.len() as int, after_key.len() as int);
        let ghost vp = sink@.subrange(after_sep.len() as int, sink@.len() as int);
        let ghost piece = kp + separator@ + vp;
        proof {
            assert(after_key =~= mid + kp);
            assert(sink@ =~= after_sep + vp);
            assert(sink@ =~= mid + piece);
            lemma_join_push(done, piece, sep);
            assert(sink@ =~= old(sink)@ + join(done.push(piece), sep));
            let all = entries@.unref();
            let taken = all.take(idx as int + 1);
            assert(all[idx as int] == (*key, *value));
            assert(key.renders(key_format, kp));
            assert(value.renders(value_format, vp));
            assert(entry_renders(*key, *value, *key_format, separator@, *value_format, piece));
            assert forall|i: int| 0 <= i < taken.len() implies #[trigger] entry_renders(
                taken[i].0,
                taken[i].1,
                *key_format,
                separator@,
                *value_format,
                done.push(piece)[i],
            ) by {
                if i < idx {
                    assert(all.take(idx as int)[i] == taken[i]);
                } else {
                    assert(taken[i] == (*key, *value));
                }
            }
            done = done.push(piece);
        }
        idx = idx + 1;
    }
    assert(entries@.unref().take(entries@.len() as int) =~= entries@.unref());
    Ghost(done)
}

/// Entries whose keys and values render escape-free, around an escape-free
/// separator, give escape-free pieces.
pub proof fn lemma_entries_monochrome<K: ColorDisplay<KF>, V: ColorDisplay<VF>, KF, VF>(
    entries: Seq<(K, V)>,
    key_format: KF,
    separator: Seq<char>,
    value_format: VF,
    pieces: Seq<Seq<char>>,
)
    requires
        K::monochrome(&key_format),
        V::monochrome(&value_format),
        escape_free(separator),
        forall|i: int| 0 <= i < entries.len() ==> (#[trigger] entries[i]).0.plain_payload() && entries[i].1.plain_payload(),
        all_entries_render(entries, key_format, separator, value_format, pieces),
    ensures
        all_escape_free(pieces),
{
    assert forall|i: int| 0 <= i < pieces.len() implies escape_free(#[trigger] pieces[i]) by {
        assert(entry_renders(entries[i].0, entries[i].1, key_format, separator, value_format, pieces[i]));
        let (kp, vp) = choose|kp: Seq<char>, vp: Seq<char>|
            #![trigger entries[i].0.renders(&key_format, kp), entries[i].1.renders(&value_format, vp)]
            entries[i].0.renders(&key_format, kp) && entries[i].1.renders(&value_format, vp)
                && pieces[i] == kp + separator + vp;
        assert(entries[i].0.plain_payload());
        entries[i].0.lemma_monochrome(&key_format, kp);
        entries[i].1.lemma_monochrome(&value_format, vp);
        assert(pieces[i] == kp + separator + vp);
    }
}

/// A listing of a map's entries holds only keys and values of the map.
pub proof fn lemma_entry_listing_members<K, V>(entries: Seq<(K, V)>, m: Map<K, V>)
    requires
        entries.to_set() == m.kv_pairs(),
    ensures
        forall|i: int| 0 <= i < entries.len() ==> m.contains_key((#[trigger] entries[i]).0) && m[entries[i].0] == entries[i].1,
{
    assert forall|i: int| 0 <= i < entries.len() implies m.contains_key((#[trigger] entries[i]).0) && m[entries[i].0] == entries[i].1 by {
        assert(entries.contains(entries[i]));
        assert(m.kv_pairs().contains(entries[i]));
    }
}

} // verus!
