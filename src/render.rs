//! The render protocol shared by every adapter, and its text model.
use vstd::prelude::*;

verus! {

/// The indentation token, written `indent` times before a leaf.
pub const INDENTATION: &'static str = "    ";

/// The newline token used for blank lines between elements.
pub const NEWLINE: &'static str = "\n";

pub open spec fn indent_token() -> Seq<char> {
    seq![' ', ' ', ' ', ' ']
}

pub open spec fn newline_token() -> Seq<char> {
    seq!['\n']
}

/// `token` repeated `count` times.
pub open spec fn repeat(token: Seq<char>, count: nat) -> Seq<char>
    decreases count,
{
    if count == 0 {
        Seq::empty()
    } else {
        repeat(token, (count - 1) as nat) + token
    }
}

pub open spec fn indentation(count: nat) -> Seq<char> {
    repeat(indent_token(), count)
}

pub open spec fn newlines(count: nat) -> Seq<char> {
    repeat(newline_token(), count)
}

/// `s` holds no escape character, the one that starts every terminal escape
/// sequence.
pub open spec fn escape_free(s: Seq<char>) -> bool {
    forall|i: int| 0 <= i < s.len() ==> s[i] != '\x1b'
}

/// A value that renders itself into a text sink under a format descriptor of
/// type `F`.
pub trait ColorDisplay<F> {
    /// `out` is a text that rendering `self` under `format` may write. For
    /// most types there is exactly one; collections whose traversal order or
    /// layout is not a function of their contents admit one per order.
    spec fn renders(&self, format: &F, out: Seq<char>) -> bool;

    /// Every collection inside the value has a specified traversal: ordered
    /// keys obey the laws of `Ord`, hashed keys the model of `Hash` and `Eq`.
    spec fn traversable(&self) -> bool;

    /// The descriptor carries no style anywhere and no escape character in
    /// any of its literals.
    spec fn monochrome(format: &F) -> bool;

    /// The value's own text holds no escape character.
    spec fn plain_payload(&self) -> bool;

    /// Appends the rendering of `self` under `format` to `sink`.
    fn color_fmt(&self, sink: &mut String, format: &F)
        requires
            self.traversable(),
        ensures
            final(sink)@.len() >= old(sink)@.len(),
            final(sink)@.subrange(0, old(sink)@.len() as int) == old(sink)@,
            self.renders(format, final(sink)@.subrange(old(sink)@.len() as int, final(sink)@.len() as int)),
    ;

    /// Under a monochrome descriptor, a value with a plain payload renders
    /// without any escape sequence.
    proof fn lemma_monochrome(&self, format: &F, out: Seq<char>)
        requires
            Self::monochrome(format),
            self.plain_payload(),
            self.renders(format, out),
        ensures
            escape_free(out),
    ;
}

/// Constructors of format descriptors with the usual defaults.
pub trait Format: Sized {
    /// The colored descriptor at `indent`.
    spec fn colored_spec(indent: u16) -> Self;

    /// The monochrome descriptor at `indent`.
    spec fn monochrome_spec(indent: u16) -> Self;

    /// Descriptors that style their leaves with the default accent colors.
    fn colored(indent: u16) -> (r: Self)
        ensures
            r == Self::colored_spec(indent),
    ;

    /// Descriptors without any style.
    fn monochrome(indent: u16) -> (r: Self)
        ensures
            r == Self::monochrome_spec(indent),
    ;

    /// The default descriptor: the colored one.
    fn standard(indent: u16) -> (r: Self)
        ensures
            r == Self::colored_spec(indent),
    ;
}

/// Appends `token` `count` times.
pub fn write_repeated(sink: &mut String, token: &str, count: u16)
    ensures
        final(sink)@ == old(sink)@ + repeat(token@, count as nat),
{
    let mut i: u16 = 0;
    while i < count
        invariant
            i <= count,
            sink@ == old(sink)@ + repeat(token@, i as nat),
        decreases count - i,
    {
        sink.append(token);
        i = i + 1;
        assert(sink@ =~= old(sink)@ + repeat(token@, i as nat));
    }
}

/// Appends `count` indentation tokens.
pub fn write_indentation(sink: &mut String, count: u16)
    ensures
        final(sink)@ == old(sink)@ + indentation(count as nat),
{
    proof {
        reveal_strlit("    ");
    }
    assert(INDENTATION@ =~= indent_token());
    write_repeated(sink, INDENTATION, count);
}

/// Appends `count` newline tokens.
pub fn write_newlines(sink: &mut String, count: u16)
    ensures
        final(sink)@ == old(sink)@ + newlines(count as nat),
{
    proof {
        reveal_strlit("\n");
    }
    assert(NEWLINE@ =~= newline_token());
    write_repeated(sink, NEWLINE, count);
}

} // verus!
