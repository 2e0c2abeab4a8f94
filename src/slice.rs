//! The slice and vector adapters.
use vstd::prelude::*;
use crate::render::{ColorDisplay, Format};
use crate::render::newlines;
use crate::sequence::{
    all_plain, all_render, all_traversable, framed, join, lemma_appended, lemma_blank_lines_exact,
    lemma_framed_escape_free, lemma_items_monochrome, sep_if, write_sequence,
};

verus! {

/// How a slice is rendered: blank lines before, between and after its
/// elements, and the descriptor of the elements.
#[derive(Clone, Copy)]
pub struct SliceFormat<TF> {
    pub prefix_newlines: u16,
    pub intersperse_newlines: u16,
    pub suffix_newlines: u16,
    pub item_format: TF,
}

impl<TF, T: ColorDisplay<TF>> ColorDisplay<SliceFormat<TF>> for [T] {
    open spec fn renders(&self, format: &SliceFormat<TF>, out: Seq<char>) -> bool {
        exists|pieces: Seq<Seq<char>>|
            #[trigger] all_render(self@, format.item_format, pieces)
                && out == framed(format.prefix_newlines, format.intersperse_newlines, format.suffix_newlines, pieces)
    }

    open spec fn traversable(&self) -> bool {
        all_traversable(self@)
    }

    open spec fn monochrome(format: &SliceFormat<TF>) -> bool {
        T::monochrome(&format.item_format)
    }

    open spec fn plain_payload(&self) -> bool {
        all_plain(self@)
    }

    fn color_fmt(&self, sink: &mut String, format: &SliceFormat<TF>) {
        let ghost start = sink@;
        let pieces = write_sequence(
            sink,
            self,
            format.prefix_newlines,
            format.intersperse_newlines,
            format.suffix_newlines,
            &format.item_format,
        );
        proof {
            let out = framed(format.prefix_newlines, format.intersperse_newlines, format.suffix_newlines, pieces@);
            lemma_appended(start, sink@, out);
            assert(all_render(self@, format.item_format, pieces@));
        }
    }

    proof fn lemma_monochrome(&self, format: &SliceFormat<TF>, out: Seq<char>) {
        let pieces = choose|pieces: Seq<Seq<char>>|
            #[trigger] all_render(self@, format.item_format, pieces)
                && out == framed(format.prefix_newlines, format.intersperse_newlines, format.suffix_newlines, pieces);
        lemma_items_monochrome(self@, format.item_format, pieces);
        lemma_framed_escape_free(format.prefix_newlines, format.intersperse_newlines, format.suffix_newlines, pieces);
    }
}

impl<TF: Format> Format for SliceFormat<TF> {
    open spec fn colored_spec(indent: u16) -> SliceFormat<TF> {
        SliceFormat { prefix_newlines: 0, intersperse_newlines: 1, suffix_newlines: 0, item_format: TF::colored_spec(indent) }
    }

    open spec fn monochrome_spec(indent: u16) -> SliceFormat<TF> {
        SliceFormat { prefix_newlines: 0, intersperse_newlines: 1, suffix_newlines: 0, item_format: TF::monochrome_spec(indent) }
    }

    fn colored(indent: u16) -> SliceFormat<TF> {
        SliceFormat { prefix_newlines: 0, intersperse_newlines: 1, suffix_newlines: 0, item_format: TF::colored(indent) }
    }

    fn monochrome(indent: u16) -> SliceFormat<TF> {
        SliceFormat { prefix_newlines: 0, intersperse_newlines: 1, suffix_newlines: 0, item_format: TF::monochrome(indent) }
    }

    fn standard(indent: u16) -> SliceFormat<TF> {
        SliceFormat::colored(indent)
    }
}

/// How a vector is rendered: as the slice of its elements.
#[derive(Clone, Copy)]
pub struct VecFormat<TF> {
    pub prefix_newlines: u16,
    pub intersperse_newlines: u16,
    pub suffix_newlines: u16,
    pub item_format: TF,
}

impl<TF, T: ColorDisplay<TF>> ColorDisplay<VecFormat<TF>> for Vec<T> {
    open spec fn renders(&self, format: &VecFormat<TF>, out: Seq<char>) -> bool {
        exists|pieces: Seq<Seq<char>>|
            #[trigger] all_render(self@, format.item_format, pieces)
                && out == framed(format.prefix_newlines, format.intersperse_newlines, format.suffix_newlines, pieces)
    }

    open spec fn traversable(&self) -> bool {
        all_traversable(self@)
    }

    open spec fn monochrome(format: &VecFormat<TF>) -> bool {
        T::monochrome(&format.item_format)
    }

    open spec fn plain_payload(&self) -> bool {
        all_plain(self@)
    }

    fn color_fmt(&self, sink: &mut String, format: &VecFormat<TF>) {
        let ghost start = sink@;
        let pieces = write_sequence(
            sink,
            self.as_slice(),
            format.prefix_newlines,
            format.intersperse_newlines,
            format.suffix_newlines,
            &format.item_format,
        );
        proof {
            let out = framed(format.prefix_newlines, format.intersperse_newlines, format.suffix_newlines, pieces@);
            lemma_appended(start, sink@, out);
            assert(all_render(self@, format.item_format, pieces@));
        }
    }

    proof fn lemma_monochrome(&self, format: &VecFormat<TF>, out: Seq<char>) {
        let pieces = choose|pieces: Seq<Seq<char>>|
            #[trigger] all_render(self@, format.item_format, pieces)
                && out == framed(format.prefix_newlines, format.intersperse_newlines, format.suffix_newlines, pieces);
        lemma_items_monochrome(self@, format.item_format, pieces);
        lemma_framed_escape_free(format.prefix_newlines, format.intersperse_newlines, format.suffix_newlines, pieces);
    }
}

/// In any rendering of a vector, the renderings of elements `i` and `i + 1`
/// are separated by exactly `intersperse_newlines` newlines, whatever the
/// elements hold.
pub proof fn lemma_vec_blank_lines<TF, T: ColorDisplay<TF>>(v: Vec<T>, format: VecFormat<TF>, out: Seq<char>, i: int)
    requires
        v.renders(&format, out),
        0 <= i,
        i + 1 < v@.len(),
    ensures
        exists|pieces: Seq<Seq<char>>|
            #[trigger] all_render(v@, format.item_format, pieces)
                && out == newlines(format.prefix_newlines as nat)
                    + join(pieces.take(i), newlines(format.intersperse_newlines as nat))
                    + sep_if(i > 0, newlines(format.intersperse_newlines as nat))
                    + pieces[i]
                    + newlines(format.intersperse_newlines as nat)
                    + pieces[i + 1]
                    + sep_if(i + 2 < pieces.len(), newlines(format.intersperse_newlines as nat))
                    + join(pieces.skip(i + 2), newlines(format.intersperse_newlines as nat))
                    + newlines(format.suffix_newlines as nat),
{
    let pieces = choose|pieces: Seq<Seq<char>>|
        #[trigger] all_render(v@, format.item_format, pieces)
            && out == framed(format.prefix_newlines, format.intersperse_newlines, format.suffix_newlines, pieces);
    lemma_blank_lines_exact(format.prefix_newlines, format.intersperse_newlines, format.suffix_newlines, pieces, i);
}

impl<TF: Format> Format for VecFormat<TF> {
    open spec fn colored_spec(indent: u16) -> VecFormat<TF> {
        VecFormat { prefix_newlines: 0, intersperse_newlines: 1, suffix_newlines: 0, item_format: TF::colored_spec(indent) }
    }

    open spec fn monochrome_spec(indent: u16) -> VecFormat<TF> {
        VecFormat { prefix_newlines: 0, intersperse_newlines: 1, suffix_newlines: 0, item_format: TF::monochrome_spec(indent) }
    }

    fn colored(indent: u16) -> VecFormat<TF> {
        VecFormat { prefix_newlines: 0, intersperse_newlines: 1, suffix_newlines: 0, item_format: TF::colored(indent) }
    }

    fn monochrome(indent: u16) -> VecFormat<TF> {
        VecFormat { prefix_newlines: 0, intersperse_newlines: 1, suffix_newlines: 0, item_format: TF::monochrome(indent) }
    }

    fn standard(indent: u16) -> VecFormat<TF> {
        VecFormat::colored(indent)
    }
}

} // verus!
