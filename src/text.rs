//! The string and character adapters.
use vstd::prelude::*;
use crate::leaf::{leaf_monochrome, leaf_text, lemma_leaf_monochrome, write_leaf};
use crate::render::{escape_free, ColorDisplay, Format};
use crate::style::{Color, StyleDesc};

verus! {

/// How a string is rendered; the delimiter is written on both sides of the
/// styled text.
#[derive(Clone, Copy)]
pub struct StrFormat {
    pub indent: u16,
    pub delimiter: &'static str,
    pub prefix: &'static str,
    pub style_desc: Option<StyleDesc>,
}

impl ColorDisplay<StrFormat> for str {
    open spec fn renders(&self, format: &StrFormat, out: Seq<char>) -> bool {
        out == leaf_text(format.indent, format.prefix@, format.delimiter@, format.style_desc, self@)
    }

    open spec fn traversable(&self) -> bool {
        true
    }

    open spec fn monochrome(format: &StrFormat) -> bool {
        leaf_monochrome(format.prefix@, format.delimiter@, format.style_desc)
    }

    open spec fn plain_payload(&self) -> bool {
        escape_free(self@)
    }

    fn color_fmt(&self, sink: &mut String, format: &StrFormat) {
        let ghost start = sink@;
        write_leaf(sink, format.indent, format.prefix, format.delimiter, format.style_desc, self);
        assert(sink@.subrange(start.len() as int, sink@.len() as int)
            =~= leaf_text(format.indent, format.prefix@, format.delimiter@, format.style_desc, self@));
        assert(sink@.subrange(0, start.len() as int) =~= start);
    }

    proof fn lemma_monochrome(&self, format: &StrFormat, out: Seq<char>) {
        lemma_leaf_monochrome(format.indent, format.prefix@, format.delimiter@, format.style_desc, self@);
    }
}

impl Format for StrFormat {
    open spec fn colored_spec(indent: u16) -> StrFormat {
        StrFormat {
            indent,
            delimiter: "",
            prefix: "",
            style_desc: Some(StyleDesc { color: Color::Green, bold: false, italic: false, underline: false, dimmed: false }),
        }
    }

    open spec fn monochrome_spec(indent: u16) -> StrFormat {
        StrFormat { indent, delimiter: "", prefix: "", style_desc: None }
    }

    fn colored(indent: u16) -> StrFormat {
        StrFormat {
            indent,
            delimiter: "",
            prefix: "",
            style_desc: Some(StyleDesc { color: Color::Green, bold: false, italic: false, underline: false, dimmed: false }),
        }
    }

    fn monochrome(indent: u16) -> StrFormat {
        StrFormat { indent, delimiter: "", prefix: "", style_desc: None }
    }

    fn standard(indent: u16) -> StrFormat {
        StrFormat::colored(indent)
    }
}

/// How a character is rendered; the delimiter is written on both sides of
/// the styled character.
#[derive(Clone, Copy)]
pub struct CharFormat {
    pub indent: u16,
    pub delimiter: &'static str,
    pub prefix: &'static str,
    pub style_desc: Option<StyleDesc>,
}

/// Relies on `char::to_string`: the string of that one character.
#[verifier::external_body]
fn char_text(c: char) -> (r: String)
    ensures
        r@ == seq![c],
{
    c.to_string()
}

impl ColorDisplay<CharFormat> for char {
    open spec fn renders(&self, format: &CharFormat, out: Seq<char>) -> bool {
        out == leaf_text(format.indent, format.prefix@, format.delimiter@, format.style_desc, seq![*self])
    }

    open spec fn traversable(&self) -> bool {
        true
    }

    open spec fn monochrome(format: &CharFormat) -> bool {
        leaf_monochrome(format.prefix@, format.delimiter@, format.style_desc)
    }

    open spec fn plain_payload(&self) -> bool {
        *self != '\x1b'
    }

    fn color_fmt(&self, sink: &mut String, format: &CharFormat) {
        let ghost start = sink@;
        let text = char_text(*self);
        write_leaf(sink, format.indent, format.prefix, format.delimiter, format.style_desc, text.as_str());
        assert(sink@.subrange(start.len() as int, sink@.len() as int)
            =~= leaf_text(format.indent, format.prefix@, format.delimiter@, format.style_desc, seq![*self]));
        assert(sink@.subrange(0, start.len() as int) =~= start);
    }

    proof fn lemma_monochrome(&self, format: &CharFormat, out: Seq<char>) {
        lemma_leaf_monochrome(format.indent, format.prefix@, format.delimiter@, format.style_desc, seq![*self]);
    }
}

impl Format for CharFormat {
    open spec fn colored_spec(indent: u16) -> CharFormat {
        CharFormat {
            indent,
            delimiter: "",
            prefix: "",
            style_desc: Some(StyleDesc { color: Color::Green, bold: false, italic: false, underline: false, dimmed: false }),
        }
    }

    open spec fn monochrome_spec(indent: u16) -> CharFormat {
        CharFormat { indent, delimiter: "", prefix: "", style_desc: None }
    }

    fn colored(indent: u16) -> CharFormat {
        CharFormat {
            indent,
            delimiter: "",
            prefix: "",
            style_desc: Some(StyleDesc { color: Color::Green, bold: false, italic: false, underline: false, dimmed: false }),
        }
    }

    fn monochrome(indent: u16) -> CharFormat {
        CharFormat { indent, delimiter: "", prefix: "", style_desc: None }
    }

    fn standard(indent: u16) -> CharFormat {
        CharFormat::colored(indent)
    }
}

} // verus!
