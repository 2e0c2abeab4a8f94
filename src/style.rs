//! Style attribute sets and their resolution into terminal styles.
use vstd::prelude::*;

verus! {

/// A named terminal color.
#[derive(Clone, Copy, Debug, PartialEq, Eq, Structural)]
pub enum Color {
    Black,
    Red,
    Green,
    Yellow,
    Blue,
    Purple,
    Cyan,
    White,
}

/// A style attribute set: a color and four independent text attributes.
#[derive(Clone, Copy, Debug, PartialEq, Eq, Structural)]
pub struct StyleDesc {
    pub color: Color,
    pub bold: bool,
    pub italic: bool,
    pub underline: bool,
    pub dimmed: bool,
}

/// A concrete terminal style: an optional foreground color and the text
/// attributes that are switched on. `TermStyle::plain()` writes no escape
/// codes at all.
#[derive(Clone, Copy, Debug, PartialEq, Eq, Structural)]
pub struct TermStyle {
    pub foreground: Option<Color>,
    pub bold: bool,
    pub dimmed: bool,
    pub italic: bool,
    pub underline: bool,
}

impl TermStyle {
    pub open spec fn spec_plain() -> TermStyle {
        TermStyle { foreground: None, bold: false, dimmed: false, italic: false, underline: false }
    }

    pub open spec fn is_plain(self) -> bool {
        self == TermStyle::spec_plain()
    }

    /// The style with no properties set.
    pub fn plain() -> (r: TermStyle)
        ensures
            r == TermStyle::spec_plain(),
    {
        TermStyle { foreground: None, bold: false, dimmed: false, italic: false, underline: false }
    }

    /// The style with the foreground set to `color` and nothing else.
    pub fn normal(color: Color) -> (r: TermStyle)
        ensures
            r == (TermStyle { foreground: Some(color), ..TermStyle::spec_plain() }),
    {
        TermStyle { foreground: Some(color), bold: false, dimmed: false, italic: false, underline: false }
    }
}

/// What a style that is not plain makes of `text` when written to a
/// terminal: the escape codes that switch the style on, the text, and the
/// code that resets it.
pub uninterp spec fn painted(style: TermStyle, text: Seq<char>) -> Seq<char>;

/// The resolution policy: no attribute set gives the plain style; an
/// attribute set starts from its color and switches on each flag it holds.
pub open spec fn resolve(desc: Option<StyleDesc>) -> TermStyle {
    match desc {
        None => TermStyle::spec_plain(),
        Some(d) => TermStyle {
            foreground: Some(d.color),
            bold: d.bold,
            dimmed: d.dimmed,
            italic: d.italic,
            underline: d.underline,
        },
    }
}

/// What `style` makes of `text`: the text itself under the plain style.
pub open spec fn paint_text(style: TermStyle, text: Seq<char>) -> Seq<char> {
    if style.is_plain() {
        text
    } else {
        painted(style, text)
    }
}

/// What a leaf payload becomes under an optional attribute set.
pub open spec fn styled(desc: Option<StyleDesc>, text: Seq<char>) -> Seq<char> {
    paint_text(resolve(desc), text)
}

impl StyleDesc {
    /// Resolves an optional attribute set into a concrete terminal style.
    pub fn style_from_desc(desc: Option<StyleDesc>) -> (r: TermStyle)
        ensures
            r == resolve(desc),
    {
        match desc {
            None => TermStyle::plain(),
            Some(d) => {
                let mut style = TermStyle::normal(d.color);
                if d.bold {
                    style.bold = true;
                }
                if d.italic {
                    style.italic = true;
                }
                if d.underline {
                    style.underline = true;
                }
                if d.dimmed {
                    style.dimmed = true;
                }
                style
            },
        }
    }
}

/// ansi_term's color type, carried through opaquely.
#[verifier::external_type_specification]
#[verifier::external_body]
pub struct ExColour(ansi_term::Colour);

/// Relies on ansi_term's `Colour` variants of the same names.
#[verifier::external_body]
fn ansi_colour(c: Color) -> ansi_term::Colour {
    match c {
        Color::Black => ansi_term::Colour::Black,
        Color::Red => ansi_term::Colour::Red,
        Color::Green => ansi_term::Colour::Green,
        Color::Yellow => ansi_term::Colour::Yellow,
        Color::Blue => ansi_term::Colour::Blue,
        Color::Purple => ansi_term::Colour::Purple,
        Color::Cyan => ansi_term::Colour::Cyan,
        Color::White => ansi_term::Colour::White,
    }
}

/// Relies on ansi_term's `Style::paint` and its `Display`: the text wrapped in
/// the style's escape codes, and the text alone when the style is plain (a
/// `Style` equal to `Style::default()` writes no prefix and no suffix).
#[verifier::external_body]
pub(crate) fn paint(style: TermStyle, text: &str) -> (r: String)
    ensures
        !style.is_plain() ==> r@ == painted(style, text@),
        style.is_plain() ==> r@ == text@,
{
    let s = ansi_term::Style {
        foreground: style.foreground.map(ansi_colour),
        is_bold: style.bold,
        is_dimmed: style.dimmed,
        is_italic: style.italic,
        is_underline: style.underline,
        ..ansi_term::Style::default()
    };
    format!("{}", s.paint(text))
}

/// Resolving the same optional attribute set twice gives the same style, and
/// so byte-identical escape codes around any text.
pub proof fn lemma_resolution_idempotent(desc: Option<StyleDesc>, first: TermStyle, second: TermStyle, text: Seq<char>)
    requires
        first == resolve(desc),
        second == resolve(desc),
    ensures
        first == second,
        paint_text(first, text) == paint_text(second, text),
{
}


} // verus!
