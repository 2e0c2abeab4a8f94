//! The boolean adapter.
use vstd::prelude::*;
use crate::leaf::{leaf_monochrome, leaf_text, lemma_leaf_monochrome, write_leaf};
use crate::render::{ColorDisplay, Format};
use crate::style::{Color, StyleDesc};

verus! {

/// How a boolean is rendered.
#[derive(Clone, Copy)]
pub struct BoolFormat {
    pub indent: u16,
    pub prefix: &'static str,
    pub delimiter: &'static str,
    pub style_desc: Option<StyleDesc>,
}

/// The words a boolean is written as.
pub open spec fn bool_text(b: bool) -> Seq<char> {
    if b {
        seq!['t', 'r', 'u', 'e']
    } else {
        seq!['f', 'a', 'l', 's', 'e']
    }
}

impl ColorDisplay<BoolFormat> for bool {
    open spec fn renders(&self, format: &BoolFormat, out: Seq<char>) -> bool {
        out == leaf_text(format.indent, format.prefix@, format.delimiter@, format.style_desc, bool_text(*self))
    }

    open spec fn traversable(&self) -> bool {
        true
    }

    open spec fn monochrome(format: &BoolFormat) -> bool {
        leaf_monochrome(format.prefix@, format.delimiter@, format.style_desc)
    }

    open spec fn plain_payload(&self) -> bool {
        true
    }

    fn color_fmt(&self, sink: &mut String, format: &BoolFormat) {
        let ghost start = sink@;
        proof {
            reveal_strlit("true");
            reveal_strlit("false");
        }
        let text: &str = if *self { "true" } else { "false" };
        assert(text@ =~= bool_text(*self));
        write_leaf(sink, format.indent, format.prefix, format.delimiter, format.style_desc, text);
        assert(sink@.subrange(start.len() as int, sink@.len() as int)
            =~= leaf_text(format.indent, format.prefix@, format.delimiter@, format.style_desc, bool_text(*self)));
        assert(sink@.subrange(0, start.len() as int) =~= start);
    }

    proof fn lemma_monochrome(&self, format: &BoolFormat, out: Seq<char>) {
        lemma_leaf_monochrome(format.indent, format.prefix@, format.delimiter@, format.style_desc, bool_text(*self));
    }
}

impl Format for BoolFormat {
    open spec fn colored_spec(indent: u16) -> BoolFormat {
        BoolFormat {
            indent,
            prefix: "",
            delimiter: "",
            style_desc: Some(StyleDesc { color: Color::Purple, bold: true, italic: false, underline: false, dimmed: false }),
        }
    }

    open spec fn monochrome_spec(indent: u16) -> BoolFormat {
        BoolFormat { indent, prefix: "", delimiter: "", style_desc: None }
    }

    fn colored(indent: u16) -> BoolFormat {
        BoolFormat {
            indent,
            prefix: "",
            delimiter: "",
            style_desc: Some(StyleDesc { color: Color::Purple, bold: true, italic: false, underline: false, dimmed: false }),
        }
    }

    fn monochrome(indent: u16) -> BoolFormat {
        BoolFormat { indent, prefix: "", delimiter: "", style_desc: None }
    }

    fn standard(indent: u16) -> BoolFormat {
        BoolFormat::colored(indent)
    }
}

} // verus!
