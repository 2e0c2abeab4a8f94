//! Rendering of element sequences: leading, interspersed and trailing blank
//! lines around the elements' own renderings.
use vstd::prelude::*;
use crate::render::{escape_free, newline_token, newlines, write_newlines, ColorDisplay};
use crate::leaf::lemma_repeat_escape_free;

verus! {

/// The pieces in order, with `sep` between each two consecutive ones.
pub open spec fn join(pieces: Seq<Seq<char>>, sep: Seq<char>) -> Seq<char>
    decreases pieces.len(),
{
    if pieces.len() == 0 {
        Seq::empty()
    } else if pieces.len() == 1 {
        pieces[0]
    } else {
        join(pieces.drop_last(), sep) + sep + pieces.last()
    }
}

/// `sep` when `cond` holds, else nothing.
pub open spec fn sep_if(cond: bool, sep: Seq<char>) -> Seq<char> {
    if cond {
        sep
    } else {
        Seq::empty()
    }
}

/// The rendering of a sequence whose elements rendered as `pieces`.
pub open spec fn framed(prefix_newlines: u16, intersperse_newlines: u16, suffix_newlines: u16, pieces: Seq<Seq<char>>) -> Seq<char> {
    newlines(prefix_newlines as nat) + join(pieces, newlines(intersperse_newlines as nat)) + newlines(suffix_newlines as nat)
}

/// Each item renders as the piece at its position under `format`.
pub open spec fn all_render<T: ColorDisplay<F>, F>(items: Seq<T>, format: F, pieces: Seq<Seq<char>>) -> bool {
    &&& pieces.len() == items.len()
    &&& forall|i: int| 0 <= i < items.len() ==> #[trigger] items[i].renders(&format, pieces[i])
}

pub open spec fn all_traversable<T: ColorDisplay<F>, F>(items: Seq<T>) -> bool {
    forall|i: int| 0 <= i < items.len() ==> #[trigger] items[i].traversable()
}

pub open spec fn all_plain<T: ColorDisplay<F>, F>(items: Seq<T>) -> bool {
    forall|i: int| 0 <= i < items.len() ==> #[trigger] items[i].plain_payload()
}

pub open spec fn all_escape_free(pieces: Seq<Seq<char>>) -> bool {
    forall|i: int| 0 <= i < pieces.len() ==> escape_free(#[trigger] pieces[i])
}

pub proof fn lemma_join_push(pieces: Seq<Seq<char>>, x: Seq<char>, sep: Seq<char>)
    ensures
        join(pieces.push(x), sep) == join(pieces, sep) + sep_if(pieces.len() > 0, sep) + x,
{
    assert(pieces.push(x).drop_last() =~= pieces);
    if pieces.len() == 0 {
        assert(join(pieces.push(x), sep) =~= join(pieces, sep) + sep_if(pieces.len() > 0, sep) + x);
    }
}

/// Joining two runs of pieces joins their joins, with one separator between
/// them when both are non-empty.
pub proof fn lemma_join_append(a: Seq<Seq<char>>, b: Seq<Seq<char>>, sep: Seq<char>)
    ensures
        join(a + b, sep) == join(a, sep) + sep_if(a.len() > 0 && b.len() > 0, sep) + join(b, sep),
    decreases b.len(),
{
    if b.len() == 0 {
        assert(a + b =~= a);
        assert(join(a + b, sep) =~= join(a, sep) + sep_if(a.len() > 0 && b.len() > 0, sep) + join(b, sep));
    } else {
        let b0 = b.drop_last();
        let x = b.last();
        assert(a + b =~= (a + b0).push(x));
        assert(b =~= b0.push(x));
        lemma_join_append(a, b0, sep);
        lemma_join_push(a + b0, x, sep);
        lemma_join_push(b0, x, sep);
        assert(join(a + b, sep) =~= join(a, sep) + sep_if(a.len() > 0 && b.len() > 0, sep) + join(b, sep));
    }
}

pub proof fn lemma_join_escape_free(pieces: Seq<Seq<char>>, sep: Seq<char>)
    requires
        all_escape_free(pieces),
        escape_free(sep),
    ensures
        escape_free(join(pieces, sep)),
    decreases pieces.len(),
{
    if pieces.len() > 1 {
        let init = pieces.drop_last();
        assert(all_escape_free(init)) by {
            assert forall|i: int| 0 <= i < init.len() implies escape_free(#[trigger] init[i]) by {
                assert(init[i] == pieces[i]);
            }
        }
        lemma_join_escape_free(init, sep);
        assert(escape_free(pieces[pieces.len() - 1]));
        let j = join(pieces, sep);
        assert(j == join(init, sep) + sep + pieces.last());
    } else if pieces.len() == 1 {
        assert(escape_free(pieces[0]));
    }
}

/// Newline runs hold no escape character.
pub proof fn lemma_newlines_escape_free(count: nat)
    ensures
        escape_free(newlines(count)),
{
    lemma_repeat_escape_free(newline_token(), count);
}

/// The rendering of a sequence of escape-free pieces is escape-free.
pub proof fn lemma_framed_escape_free(p: u16, n: u16, s: u16, pieces: Seq<Seq<char>>)
    requires
        all_escape_free(pieces),
    ensures
        escape_free(framed(p, n, s, pieces)),
{
    lemma_newlines_escape_free(p as nat);
    lemma_newlines_escape_free(n as nat);
    lemma_newlines_escape_free(s as nat);
    lemma_join_escape_free(pieces, newlines(n as nat));
}

/// Items that render escape-free one by one give escape-free pieces.
pub proof fn lemma_items_monochrome<T: ColorDisplay<F>, F>(items: Seq<T>, format: F, pieces: Seq<Seq<char>>)
    requires
        T::monochrome(&format),
        all_plain(items),
        all_render(items, format, pieces),
    ensures
        all_escape_free(pieces),
{
    assert forall|i: int| 0 <= i < pieces.len() implies escape_free(#[trigger] pieces[i]) by {
        assert(items[i].renders(&format, pieces[i]));
        assert(items[i].plain_payload());
        items[i].lemma_monochrome(&format, pieces[i]);
    }
}

/// The join of a run of pieces, cut around two consecutive pieces.
pub proof fn lemma_join_split(pieces: Seq<Seq<char>>, sep: Seq<char>, i: int)
    requires
        0 <= i,
        i + 1 < pieces.len(),
    ensures
        join(pieces, sep) == join(pieces.take(i), sep) + sep_if(i > 0, sep) + pieces[i] + sep + pieces[i + 1]
            + sep_if(i + 2 < pieces.len(), sep) + join(pieces.skip(i + 2), sep),
{
    let a = pieces.take(i);
    let mid = seq![pieces[i], pieces[i + 1]];
    let b = pieces.skip(i + 2);
    assert(pieces =~= a + mid + b);
    assert(join(mid.drop_last(), sep) == pieces[i]);
    let jm = join(mid, sep);
    assert(jm == pieces[i] + sep + pieces[i + 1]);
    lemma_join_append(a, mid, sep);
    let left = join(a + mid, sep);
    assert(left == join(a, sep) + sep_if(i > 0, sep) + jm);
    lemma_join_append(a + mid, b, sep);
    assert(join(pieces, sep) == left + sep_if(i + 2 < pieces.len(), sep) + join(b, sep));
    assert(join(pieces, sep) =~= join(a, sep) + sep_if(i > 0, sep) + pieces[i] + sep + pieces[i + 1]
        + sep_if(i + 2 < pieces.len(), sep) + join(b, sep));
}

/// Between the renderings of elements `i` and `i + 1` of a sequence stand
/// exactly `intersperse_newlines` newlines, whatever the elements hold.
pub proof fn lemma_blank_lines_exact(
    prefix_newlines: u16,
    intersperse_newlines: u16,
    suffix_newlines: u16,
    pieces: Seq<Seq<char>>,
    i: int,
)
    requires
        0 <= i,
        i + 1 < pieces.len(),
    ensures
        framed(prefix_newlines, intersperse_newlines, suffix_newlines, pieces)
            == newlines(prefix_newlines as nat)
            + join(pieces.take(i), newlines(intersperse_newlines as nat))
            + sep_if(i > 0, newlines(intersperse_newlines as nat))
            + pieces[i]
            + newlines(intersperse_newlines as nat)
            + pieces[i + 1]
            + sep_if(i + 2 < pieces.len(), newlines(intersperse_newlines as nat))
            + join(pieces.skip(i + 2), newlines(intersperse_newlines as nat))
            + newlines(suffix_newlines as nat),
{
    let sep = newlines(intersperse_newlines as nat);
    lemma_join_split(pieces, sep, i);
    let pre = newlines(prefix_newlines as nat);
    let post = newlines(suffix_newlines as nat);
    let j1 = join(pieces.take(i), sep);
    let s1 = sep_if(i > 0, sep);
    let s2 = sep_if(i + 2 < pieces.len(), sep);
    let j2 = join(pieces.skip(i + 2), sep);
    assert(pre + (j1 + s1 + pieces[i] + sep + pieces[i + 1] + s2 + j2) + post
        =~= pre + j1 + s1 + pieces[i] + sep + pieces[i + 1] + s2 + j2 + post);
}

/// Appends the renderings of `items` under `format`, `intersperse_newlines`
/// newlines between each two, and hands back the pieces each item wrote.
pub fn write_items<T: ColorDisplay<F>, F>(sink: &mut String, items: &[T], intersperse_newlines: u16, format: &F) -> (pieces: Ghost<Seq<Seq<char>>>)
    requires
        all_traversable(items@),
    ensures
        all_render(items@, *format, pieces@),
        final(sink)@ == old(sink)@ + join(pieces@, newlines(intersperse_newlines as nat)),
{
    let ghost sep = newlines(intersperse_newlines as nat);
    let ghost mut done: Seq<Seq<char>> = Seq::empty();
    let mut idx: usize = 0;
    while idx < items.len()
        invariant
            idx <= items@.len(),
            all_traversable(items@),
            sep == newlines(intersperse_newlines as nat),
            all_render(items@.take(idx as int), *format, done),
            sink@ == old(sink)@ + join(done, sep),
        decreases items@.len() - idx,
    {
        let ghost before = sink@;
        if idx > 0 {
            write_newlines(sink, intersperse_newlines);
        }
        let ghost mid = sink@;
        proof {
            assert(done.len() == idx);
            if idx > 0 {
                assert(mid == before + sep);
            } else {
                assert(mid =~= before + sep_if(done.len() > 0, sep));
            }
        }
        let item = &items[idx];
        assert(items@[idx as int].traversable());
        item.color_fmt(sink, format);
        let ghost piece = sink@.subrange(mid.len() as int, sink@.len() as int);
        proof {
            assert(sink@ =~= mid + piece);
            lemma_join_push(done, piece, sep);
            assert(sink@ =~= old(sink)@ + join(done.push(piece), sep));
            let taken = items@.take(idx as int + 1);
            assert forall|i: int| 0 <= i < taken.len() implies #[trigger] taken[i].renders(format, done.push(piece)[i]) by {
                if i < idx {
                    assert(items@.take(idx as int)[i] == taken[i]);
                } else {
                    assert(taken[i] == items@[idx as int]);
                }
            }
            done = done.push(piece);
        }
        idx = idx + 1;
    }
    assert(items@.take(items@.len() as int) =~= items@);
    Ghost(done)
}

/// Appends the rendering of a whole sequence: leading newlines, the items
/// with interspersed newlines, trailing newlines.
pub fn write_sequence<T: ColorDisplay<F>, F>(
    sink: &mut String,
    items: &[T],
    prefix_newlines: u16,
    intersperse_newlines: u16,
    suffix_newlines: u16,
    format: &F,
) -> (pieces: Ghost<Seq<Seq<char>>>)
    requires
        all_traversable(items@),
    ensures
        all_render(items@, *format, pieces@),
        final(sink)@ == old(sink)@ + framed(prefix_newlines, intersperse_newlines, suffix_newlines, pieces@),
{
    write_newlines(sink, prefix_newlines);
    let pieces = write_items(sink, items, intersperse_newlines, format);
    write_newlines(sink, suffix_newlines);
    assert(sink@ =~= old(sink)@ + framed(prefix_newlines, intersperse_newlines, suffix_newlines, pieces@));
    pieces
}

pub proof fn lemma_appended(before: Seq<char>, after: Seq<char>, out: Seq<char>)
    requires
        after == before + out,
    ensures
        after.len() >= before.len(),
        after.subrange(0, before.len() as int) == before,
        after.subrange(before.len() as int, after.len() as int) == out,
{
    assert(after.subrange(0, before.len() as int) =~= before);
    assert(after.subrange(before.len() as int, after.len() as int) =~= out);
}

impl<'a, F, T: ColorDisplay<F> + ?Sized> ColorDisplay<F> for &'a T {
    open spec fn renders(&self, format: &F, out: Seq<char>) -> bool {
        (**self).renders(format, out)
    }

    open spec fn traversable(&self) -> bool {
        (**self).traversable()
    }

    open spec fn monochrome(format: &F) -> bool {
        T::monochrome(format)
    }

    open spec fn plain_payload(&self) -> bool {
        (**self).plain_payload()
    }

    fn color_fmt(&self, sink: &mut String, format: &F) {
        (**self).color_fmt(sink, format);
    }

    proof fn lemma_monochrome(&self, format: &F, out: Seq<char>) {
        (**self).lemma_monochrome(format, out);
    }
}

/// Rendering through references renders the referenced values.
pub proof fn lemma_render_unref<T: ColorDisplay<F>, F>(refs: Seq<&T>, format: F, pieces: Seq<Seq<char>>)
    requires
        all_render(refs, format, pieces),
    ensures
        all_render(refs.unref(), format, pieces),
{
    assert forall|i: int| 0 <= i < refs.unref().len() implies #[trigger] refs.unref()[i].renders(&format, pieces[i]) by {
        assert(<&T as ColorDisplay<F>>::renders(&refs[i], &format, pieces[i]));
    }
}

/// Every element of a listing of a set has the properties that every member
/// of the set has.
pub proof fn lemma_listing_members<T: ColorDisplay<F>, F>(refs: Seq<&T>, members: Set<T>)
    requires
        refs.unref().to_set() == members,
    ensures
        forall|i: int| 0 <= i < refs.len() ==> members.contains(#[trigger] *refs[i]),
{
    assert forall|i: int| 0 <= i < refs.len() implies members.contains(#[trigger] *refs[i]) by {
        assert(refs.unref()[i] == *refs[i]);
        assert(refs.unref().contains(*refs[i]));
    }
}

} // verus!
