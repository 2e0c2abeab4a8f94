//! The double-ended queue adapter: the queue's front segment, a divider
//! line, then its back segment.
use vstd::prelude::*;
use std::collections::VecDeque;
use crate::leaf::lemma_repeat_escape_free;
use crate::render::{escape_free, newline_token, newlines, repeat, write_newlines, write_repeated, ColorDisplay, Format};
use crate::sequence::{
    all_plain, all_render, all_traversable, join, lemma_appended, lemma_items_monochrome,
    lemma_join_escape_free, lemma_newlines_escape_free, write_items,
};

verus! {

/// How a double-ended queue is rendered: like a sequence, with a divider of
/// `front_back_separator_count` copies of `front_back_separator_token`, on a
/// line of its own, between the front and the back segment.
#[derive(Clone, Copy)]
pub struct VecDequeFormat<TF> {
    pub prefix_newlines: u16,
    pub intersperse_newlines: u16,
    pub suffix_newlines: u16,
    pub front_back_separator_token: &'static str,
    pub front_back_separator_count: u16,
    pub item_format: TF,
}

/// The rendering of a queue whose front segment rendered as `front` and
/// whose back segment rendered as `back`.
pub open spec fn deque_text<TF>(format: VecDequeFormat<TF>, front: Seq<Seq<char>>, back: Seq<Seq<char>>) -> Seq<char> {
    let sep = newlines(format.intersperse_newlines as nat);
    newlines(format.prefix_newlines as nat) + join(front, sep) + newline_token()
        + repeat(format.front_back_separator_token@, format.front_back_separator_count as nat)
        + newline_token() + join(back, sep) + newlines(format.suffix_newlines as nat)
}

/// Relies on `VecDeque::as_slices`: two slices that hold, in order, the
/// contents of the queue. Where the queue is cut depends on its layout.
#[verifier::external_body]
fn deque_segments<'a, T>(q: &'a VecDeque<T>) -> (r: (&'a [T], &'a [T]))
    ensures
        r.0@ + r.1@ == q@,
{
    q.as_slices()
}

impl<TF, T: ColorDisplay<TF>> ColorDisplay<VecDequeFormat<TF>> for VecDeque<T> {
    open spec fn renders(&self, format: &VecDequeFormat<TF>, out: Seq<char>) -> bool {
        exists|cut: int, front: Seq<Seq<char>>, back: Seq<Seq<char>>|
            #![trigger all_render(self@.take(cut), format.item_format, front), all_render(self@.skip(cut), format.item_format, back)]
            0 <= cut <= self@.len()
                && all_render(self@.take(cut), format.item_format, front)
                && all_render(self@.skip(cut), format.item_format, back)
                && out == deque_text(*format, front, back)
    }

    open spec fn traversable(&self) -> bool {
        all_traversable(self@)
    }

    open spec fn monochrome(format: &VecDequeFormat<TF>) -> bool {
        T::monochrome(&format.item_format) && escape_free(format.front_back_separator_token@)
    }

    open spec fn plain_payload(&self) -> bool {
        all_plain(self@)
    }

    fn color_fmt(&self, sink: &mut String, format: &VecDequeFormat<TF>) {
        let ghost start = sink@;
        write_newlines(sink, format.prefix_newlines);
        let (front, back) = deque_segments(self);
        let ghost cut = front@.len() as int;
        proof {
            assert(front@ =~= self@.take(cut));
            assert(back@ =~= self@.skip(cut));
            assert(all_traversable(front@)) by {
                assert forall|i: int| 0 <= i < front@.len() implies #[trigger] front@[i].traversable() by {
                    assert(front@[i] == self@[i]);
                }
            }
            assert(all_traversable(back@)) by {
                assert forall|i: int| 0 <= i < back@.len() implies #[trigger] back@[i].traversable() by {
                    assert(back@[i] == self@[cut + i]);
                }
            }
        }
        let front_pieces = write_items(sink, front, format.intersperse_newlines, &format.item_format);
        write_newlines(sink, 1);
        write_repeated(sink, format.front_back_separator_token, format.front_back_separator_count);
        write_newlines(sink, 1);
        let back_pieces = write_items(sink, back, format.intersperse_newlines, &format.item_format);
        write_newlines(sink, format.suffix_newlines);
        proof {
            assert(repeat(newline_token(), 0) =~= Seq::<char>::empty());
            assert(newlines(1) =~= newline_token());
            let out = deque_text(*format, front_pieces@, back_pieces@);
            assert(sink@ =~= start + out);
            lemma_appended(start, sink@, out);
            assert(all_render(self@.take(cut), format.item_format, front_pieces@));
            assert(all_render(self@.skip(cut), format.item_format, back_pieces@));
        }
    }

    proof fn lemma_monochrome(&self, format: &VecDequeFormat<TF>, out: Seq<char>) {
        let (cut, front, back) = choose|cut: int, front: Seq<Seq<char>>, back: Seq<Seq<char>>|
            #![trigger all_render(self@.take(cut), format.item_format, front), all_render(self@.skip(cut), format.item_format, back)]
            0 <= cut <= self@.len()
                && all_render(self@.take(cut), format.item_format, front)
                && all_render(self@.skip(cut), format.item_format, back)
                && out == deque_text(*format, front, back);
        assert(all_plain(self@.take(cut))) by {
            assert forall|i: int| 0 <= i < self@.take(cut).len() implies #[trigger] self@.take(cut)[i].plain_payload() by {
                assert(self@.take(cut)[i] == self@[i]);
            }
        }
        assert(all_plain(self@.skip(cut))) by {
            assert forall|i: int| 0 <= i < self@.skip(cut).len() implies #[trigger] self@.skip(cut)[i].plain_payload() by {
                assert(self@.skip(cut)[i] == self@[cut + i]);
            }
        }
        lemma_items_monochrome(self@.take(cut), format.item_format, front);
        lemma_items_monochrome(self@.skip(cut), format.item_format, back);
        let sep = newlines(format.intersperse_newlines as nat);
        lemma_newlines_escape_free(format.intersperse_newlines as nat);
        lemma_newlines_escape_free(format.prefix_newlines as nat);
        lemma_newlines_escape_free(format.suffix_newlines as nat);
        lemma_join_escape_free(front, sep);
        lemma_join_escape_free(back, sep);
        lemma_repeat_escape_free(format.front_back_separator_token@, format.front_back_separator_count as nat);
        assert(escape_free(newline_token()));
    }
}

impl<TF: Format> Format for VecDequeFormat<TF> {
    open spec fn colored_spec(indent: u16) -> VecDequeFormat<TF> {
        VecDequeFormat {
            prefix_newlines: 0,
            intersperse_newlines: 1,
            suffix_newlines: 0,
            front_back_separator_token: "-",
            front_back_separator_count: 40,
            item_format: TF::colored_spec(indent),
        }
    }

    open spec fn monochrome_spec(indent: u16) -> VecDequeFormat<TF> {
        VecDequeFormat {
            prefix_newlines: 0,
            intersperse_newlines: 1,
            suffix_newlines: 0,
            front_back_separator_token: "-",
            front_back_separator_count: 40,
            item_format: TF::monochrome_spec(indent),
        }
    }

    fn colored(indent: u16) -> VecDequeFormat<TF> {
        VecDequeFormat {
            prefix_newlines: 0,
            intersperse_newlines: 1,
            suffix_newlines: 0,
            front_back_separator_token: "-",
            front_back_separator_count: 40,
            item_format: TF::colored(indent),
        }
    }

    fn monochrome(indent: u16) -> VecDequeFormat<TF> {
        VecDequeFormat {
            prefix_newlines: 0,
            intersperse_newlines: 1,
            suffix_newlines: 0,
            front_back_separator_token: "-",
            front_back_separator_count: 40,
            item_format: TF::monochrome(indent),
        }
    }

    fn standard(indent: u16) -> VecDequeFormat<TF> {
        VecDequeFormat::colored(indent)
    }
}

} // verus!
