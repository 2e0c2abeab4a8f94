//! The integer adapters: one descriptor type shared by every fixed-width
//! integer, which renders in decimal.
use vstd::prelude::*;
use crate::leaf::{leaf_monochrome, leaf_text, lemma_leaf_monochrome, write_leaf};
use crate::render::{ColorDisplay, Format};
use crate::style::{Color, StyleDesc};

verus! {

/// How an integer is rendered.
#[derive(Clone, Copy)]
pub struct NumFormat {
    pub indent: u16,
    pub prefix: &'static str,
    pub delimiter: &'static str,
    pub style_desc: Option<StyleDesc>,
}

pub type I8Format = NumFormat;
pub type I16Format = NumFormat;
pub type I32Format = NumFormat;
pub type I64Format = NumFormat;
pub type I128Format = NumFormat;
pub type IsizeFormat = NumFormat;
pub type U8Format = NumFormat;
pub type U16Format = NumFormat;
pub type U32Format = NumFormat;
pub type U64Format = NumFormat;
pub type U128Format = NumFormat;
pub type UsizeFormat = NumFormat;

/// The character of a decimal digit.
pub open spec fn digit_char(d: nat) -> char {
    seq!['0', '1', '2', '3', '4', '5', '6', '7', '8', '9'][d as int]
}

/// The decimal digits of `n`, most significant first, without leading zeros.
pub open spec fn decimal(n: nat) -> Seq<char>
    decreases n,
{
    if n < 10 {
        seq![digit_char(n)]
    } else {
        decimal(n / 10) + seq![digit_char(n % 10)]
    }
}

/// `n` in decimal, with a leading minus sign when it is negative.
pub open spec fn signed_decimal(n: int) -> Seq<char> {
    if n < 0 {
        seq!['-'] + decimal((-n) as nat)
    } else {
        decimal(n as nat)
    }
}

/// The rendering of the integer `n` under `format`.
pub open spec fn num_text(format: NumFormat, n: int) -> Seq<char> {
    leaf_text(format.indent, format.prefix@, format.delimiter@, format.style_desc, signed_decimal(n))
}

/// Relies on the `Display` of `u128` (through `to_string`): the decimal
/// digits, without sign or leading zeros.
#[verifier::external_body]
fn unsigned_text(n: u128) -> (r: String)
    ensures
        r@ == decimal(n as nat),
{
    n.to_string()
}

/// Relies on the `Display` of `i128` (through `to_string`): a minus sign for
/// a negative number, then the decimal digits of its magnitude.
#[verifier::external_body]
fn signed_text(n: i128) -> (r: String)
    ensures
        r@ == signed_decimal(n as int),
{
    n.to_string()
}

/// Appends the rendering of `n`, whose decimal text is `text`.
fn write_number(sink: &mut String, format: &NumFormat, text: &str, n: Ghost<int>)
    requires
        text@ == signed_decimal(n@),
    ensures
        final(sink)@.len() >= old(sink)@.len(),
        final(sink)@.subrange(0, old(sink)@.len() as int) == old(sink)@,
        final(sink)@.subrange(old(sink)@.len() as int, final(sink)@.len() as int) == num_text(*format, n@),
{
    let ghost start = sink@;
    write_leaf(sink, format.indent, format.prefix, format.delimiter, format.style_desc, text);
    assert(sink@.subrange(start.len() as int, sink@.len() as int) =~= num_text(*format, n@));
    assert(sink@.subrange(0, start.len() as int) =~= start);
}

impl ColorDisplay<NumFormat> for i8 {
    open spec fn renders(&self, format: &NumFormat, out: Seq<char>) -> bool {
        out == num_text(*format, *self as int)
    }

    open spec fn traversable(&self) -> bool {
        true
    }

    open spec fn monochrome(format: &NumFormat) -> bool {
        leaf_monochrome(format.prefix@, format.delimiter@, format.style_desc)
    }

    open spec fn plain_payload(&self) -> bool {
        true
    }

    fn color_fmt(&self, sink: &mut String, format: &NumFormat) {
        let text = signed_text(*self as i128);
        write_number(sink, format, text.as_str(), Ghost(*self as int));
    }

    proof fn lemma_monochrome(&self, format: &NumFormat, out: Seq<char>) {
        lemma_decimal_escape_free(*self as int);
        lemma_leaf_monochrome(format.indent, format.prefix@, format.delimiter@, format.style_desc, signed_decimal(*self as int));
    }
}

impl ColorDisplay<NumFormat> for i16 {
    open spec fn renders(&self, format: &NumFormat, out: Seq<char>) -> bool {
        out == num_text(*format, *self as int)
    }

    open spec fn traversable(&self) -> bool {
        true
    }

    open spec fn monochrome(format: &NumFormat) -> bool {
        leaf_monochrome(format.prefix@, format.delimiter@, format.style_desc)
    }

    open spec fn plain_payload(&self) -> bool {
        true
    }

    fn color_fmt(&self, sink: &mut String, format: &NumFormat) {
        let text = signed_text(*self as i128);
        write_number(sink, format, text.as_str(), Ghost(*self as int));
    }

    proof fn lemma_monochrome(&self, format: &NumFormat, out: Seq<char>) {
        lemma_decimal_escape_free(*self as int);
        lemma_leaf_monochrome(format.indent, format.prefix@, format.delimiter@, format.style_desc, signed_decimal(*self as int));
    }
}

impl ColorDisplay<NumFormat> for i32 {
    open spec fn renders(&self, format: &NumFormat, out: Seq<char>) -> bool {
        out == num_text(*format, *self as int)
    }

    open spec fn traversable(&self) -> bool {
        true
    }

    open spec fn monochrome(format: &NumFormat) -> bool {
        leaf_monochrome(format.prefix@, format.delimiter@, format.style_desc)
    }

    open spec fn plain_payload(&self) -> bool {
        true
    }

    fn color_fmt(&self, sink: &mut String, format: &NumFormat) {
        let text = signed_text(*self as i128);
        write_number(sink, format, text.as_str(), Ghost(*self as int));
    }

    proof fn lemma_monochrome(&self, format: &NumFormat, out: Seq<char>) {
        lemma_decimal_escape_free(*self as int);
        lemma_leaf_monochrome(format.indent, format.prefix@, format.delimiter@, format.style_desc, signed_decimal(*self as int));
    }
}

impl ColorDisplay<NumFormat> for i64 {
    open spec fn renders(&self, format: &NumFormat, out: Seq<char>) -> bool {
        out == num_text(*format, *self as int)
    }

    open spec fn traversable(&self) -> bool {
        true
    }

    open spec fn monochrome(format: &NumFormat) -> bool {
        leaf_monochrome(format.prefix@, format.delimiter@, format.style_desc)
    }

    open spec fn plain_payload(&self) -> bool {
        true
    }

    fn color_fmt(&self, sink: &mut String, format: &NumFormat) {
        let text = signed_text(*self as i128);
        write_number(sink, format, text.as_str(), Ghost(*self as int));
    }

    proof fn lemma_monochrome(&self, format: &NumFormat, out: Seq<char>) {
        lemma_decimal_escape_free(*self as int);
        lemma_leaf_monochrome(format.indent, format.prefix@, format.delimiter@, format.style_desc, signed_decimal(*self as int));
    }
}

impl ColorDisplay<NumFormat> for i128 {
    open spec fn renders(&self, format: &NumFormat, out: Seq<char>) -> bool {
        out == num_text(*format, *self as int)
    }

    open spec fn traversable(&self) -> bool {
        true
    }

    open spec fn monochrome(format: &NumFormat) -> bool {
        leaf_monochrome(format.prefix@, format.delimiter@, format.style_desc)
    }

    open spec fn plain_payload(&self) -> bool {
        true
    }

    fn color_fmt(&self, sink: &mut String, format: &NumFormat) {
        let text = signed_text(*self as i128);
        write_number(sink, format, text.as_str(), Ghost(*self as int));
    }

    proof fn lemma_monochrome(&self, format: &NumFormat, out: Seq<char>) {
        lemma_decimal_escape_free(*self as int);
        lemma_leaf_monochrome(format.indent, format.prefix@, format.delimiter@, format.style_desc, signed_decimal(*self as int));
    }
}

impl ColorDisplay<NumFormat> for isize {
    open spec fn renders(&self, format: &NumFormat, out: Seq<char>) -> bool {
        out == num_text(*format, *self as int)
    }

    open spec fn traversable(&self) -> bool {
        true
    }

    open spec fn monochrome(format: &NumFormat) -> bool {
        leaf_monochrome(format.prefix@, format.delimiter@, format.style_desc)
    }

    open spec fn plain_payload(&self) -> bool {
        true
    }

    fn color_fmt(&self, sink: &mut String, format: &NumFormat) {
        let text = signed_text(*self as i128);
        write_number(sink, format, text.as_str(), Ghost(*self as int));
    }

    proof fn lemma_monochrome(&self, format: &NumFormat, out: Seq<char>) {
        lemma_decimal_escape_free(*self as int);
        lemma_leaf_monochrome(format.indent, format.prefix@, format.delimiter@, format.style_desc, signed_decimal(*self as int));
    }
}

impl ColorDisplay<NumFormat> for u8 {
    open spec fn renders(&self, format: &NumFormat, out: Seq<char>) -> bool {
        out == num_text(*format, *self as int)
    }

    open spec fn traversable(&self) -> bool {
        true
    }

    open spec fn monochrome(format: &NumFormat) -> bool {
        leaf_monochrome(format.prefix@, format.delimiter@, format.style_desc)
    }

    open spec fn plain_payload(&self) -> bool {
        true
    }

    fn color_fmt(&self, sink: &mut String, format: &NumFormat) {
        let text = unsigned_text(*self as u128);
        write_number(sink, format, text.as_str(), Ghost(*self as int));
    }

    proof fn lemma_monochrome(&self, format: &NumFormat, out: Seq<char>) {
        lemma_decimal_escape_free(*self as int);
        lemma_leaf_monochrome(format.indent, format.prefix@, format.delimiter@, format.style_desc, signed_decimal(*self as int));
    }
}

impl ColorDisplay<NumFormat> for u16 {
    open spec fn renders(&self, format: &NumFormat, out: Seq<char>) -> bool {
        out == num_text(*format, *self as int)
    }

    open spec fn traversable(&self) -> bool {
        true
    }

    open spec fn monochrome(format: &NumFormat) -> bool {
        leaf_monochrome(format.prefix@, format.delimiter@, format.style_desc)
    }

    open spec fn plain_payload(&self) -> bool {
        true
    }

    fn color_fmt(&self, sink: &mut String, format: &NumFormat) {
        let text = unsigned_text(*self as u128);
        write_number(sink, format, text.as_str(), Ghost(*self as int));
    }

    proof fn lemma_monochrome(&self, format: &NumFormat, out: Seq<char>) {
        lemma_decimal_escape_free(*self as int);
        lemma_leaf_monochrome(format.indent, format.prefix@, format.delimiter@, format.style_desc, signed_decimal(*self as int));
    }
}

impl ColorDisplay<NumFormat> for u32 {
    open spec fn renders(&self, format: &NumFormat, out: Seq<char>) -> bool {
        out == num_text(*format, *self as int)
    }

    open spec fn traversable(&self) -> bool {
        true
    }

    open spec fn monochrome(format: &NumFormat) -> bool {
        leaf_monochrome(format.prefix@, format.delimiter@, format.style_desc)
    }

    open spec fn plain_payload(&self) -> bool {
        true
    }

    fn color_fmt(&self, sink: &mut String, format: &NumFormat) {
        let text = unsigned_text(*self as u128);
        write_number(sink, format, text.as_str(), Ghost(*self as int));
    }

    proof fn lemma_monochrome(&self, format: &NumFormat, out: Seq<char>) {
        lemma_decimal_escape_free(*self as int);
        lemma_leaf_monochrome(format.indent, format.prefix@, format.delimiter@, format.style_desc, signed_decimal(*self as int));
    }
}

impl ColorDisplay<NumFormat> for u64 {
    open spec fn renders(&self, format: &NumFormat, out: Seq<char>) -> bool {
        out == num_text(*format, *self as int)
    }

    open spec fn traversable(&self) -> bool {
        true
    }

    open spec fn monochrome(format: &NumFormat) -> bool {
        leaf_monochrome(format.prefix@, format.delimiter@, format.style_desc)
    }

    open spec fn plain_payload(&self) -> bool {
        true
    }

    fn color_fmt(&self, sink: &mut String, format: &NumFormat) {
        let text = unsigned_text(*self as u128);
        write_number(sink, format, text.as_str(), Ghost(*self as int));
    }

    proof fn lemma_monochrome(&self, format: &NumFormat, out: Seq<char>) {
        lemma_decimal_escape_free(*self as int);
        lemma_leaf_monochrome(format.indent, format.prefix@, format.delimiter@, format.style_desc, signed_decimal(*self as int));
    }
}

impl ColorDisplay<NumFormat> for u128 {
    open spec fn renders(&self, format: &NumFormat, out: Seq<char>) -> bool {
        out == num_text(*format, *self as int)
    }

    open spec fn traversable(&self) -> bool {
        true
    }

    open spec fn monochrome(format: &NumFormat) -> bool {
        leaf_monochrome(format.prefix@, format.delimiter@, format.style_desc)
    }

    open spec fn plain_payload(&self) -> bool {
        true
    }

    fn color_fmt(&self, sink: &mut String, format: &NumFormat) {
        let text = unsigned_text(*self as u128);
        write_number(sink, format, text.as_str(), Ghost(*self as int));
    }

    proof fn lemma_monochrome(&self, format: &NumFormat, out: Seq<char>) {
        lemma_decimal_escape_free(*self as int);
        lemma_leaf_monochrome(format.indent, format.prefix@, format.delimiter@, format.style_desc, signed_decimal(*self as int));
    }
}

impl ColorDisplay<NumFormat> for usize {
    open spec fn renders(&self, format: &NumFormat, out: Seq<char>) -> bool {
        out == num_text(*format, *self as int)
    }

    open spec fn traversable(&self) -> bool {
        true
    }

    open spec fn monochrome(format: &NumFormat) -> bool {
        leaf_monochrome(format.prefix@, format.delimiter@, format.style_desc)
    }

    open spec fn plain_payload(&self) -> bool {
        true
    }

    fn color_fmt(&self, sink: &mut String, format: &NumFormat) {
        let text = unsigned_text(*self as u128);
        write_number(sink, format, text.as_str(), Ghost(*self as int));
    }

    proof fn lemma_monochrome(&self, format: &NumFormat, out: Seq<char>) {
        lemma_decimal_escape_free(*self as int);
        lemma_leaf_monochrome(format.indent, format.prefix@, format.delimiter@, format.style_desc, signed_decimal(*self as int));
    }
}

/// Decimal text holds digits and at most a minus sign.
pub proof fn lemma_decimal_escape_free(n: int)
    ensures
        crate::render::escape_free(signed_decimal(n)),
{
    lemma_digits_escape_free(if n < 0 { (-n) as nat } else { n as nat });
}

proof fn lemma_digits_escape_free(n: nat)
    ensures
        crate::render::escape_free(decimal(n)),
    decreases n,
{
    if n >= 10 {
        lemma_digits_escape_free(n / 10);
    }
}

impl Format for NumFormat {
    open spec fn colored_spec(indent: u16) -> NumFormat {
        NumFormat {
            indent,
            prefix: "",
            delimiter: "",
            style_desc: Some(StyleDesc { color: Color::Blue, bold: true, italic: false, underline: false, dimmed: false }),
        }
    }

    open spec fn monochrome_spec(indent: u16) -> NumFormat {
        NumFormat { indent, prefix: "", delimiter: "", style_desc: None }
    }

    fn colored(indent: u16) -> NumFormat {
        NumFormat {
            indent,
            prefix: "",
            delimiter: "",
            style_desc: Some(StyleDesc { color: Color::Blue, bold: true, italic: false, underline: false, dimmed: false }),
        }
    }

    fn monochrome(indent: u16) -> NumFormat {
        NumFormat { indent, prefix: "", delimiter: "", style_desc: None }
    }

    fn standard(indent: u16) -> NumFormat {
        NumFormat::colored(indent)
    }
}

} // verus!
