//! Rendering of leaf values: indentation, prefix, delimited styled payload.
use vstd::prelude::*;
use crate::render::{escape_free, indent_token, indentation, repeat, write_indentation};
use crate::style::{paint, resolve, styled, StyleDesc, TermStyle};

verus! {

/// The text of a leaf: `indent` indentation tokens, the prefix literal, then
/// the styled payload between two copies of the delimiter.
pub open spec fn leaf_text(
    indent: u16,
    prefix: Seq<char>,
    delimiter: Seq<char>,
    style: Option<StyleDesc>,
    payload: Seq<char>,
) -> Seq<char> {
    indentation(indent as nat) + prefix + delimiter + styled(style, payload) + delimiter
}

/// The literals of a leaf descriptor carry no escape character and it sets
/// no style.
pub open spec fn leaf_monochrome(prefix: Seq<char>, delimiter: Seq<char>, style: Option<StyleDesc>) -> bool {
    &&& style is None
    &&& escape_free(prefix)
    &&& escape_free(delimiter)
}

/// Appends the text of a leaf to `sink`.
pub fn write_leaf(
    sink: &mut String,
    indent: u16,
    prefix: &str,
    delimiter: &str,
    style: Option<StyleDesc>,
    payload: &str,
)
    ensures
        final(sink)@ == old(sink)@ + leaf_text(indent, prefix@, delimiter@, style, payload@),
{
    write_indentation(sink, indent);
    sink.append(prefix);
    sink.append(delimiter);
    let term: TermStyle = StyleDesc::style_from_desc(style);
    let painted = paint(term, payload);
    sink.append(painted.as_str());
    sink.append(delimiter);
    assert(sink@ =~= old(sink)@ + leaf_text(indent, prefix@, delimiter@, style, payload@));
}

pub proof fn lemma_repeat_escape_free(token: Seq<char>, count: nat)
    requires
        escape_free(token),
    ensures
        escape_free(repeat(token, count)),
    decreases count,
{
    if count > 0 {
        lemma_repeat_escape_free(token, (count - 1) as nat);
    }
}

/// Under no style, with escape-free literals and payload, a leaf renders
/// without escape sequences.
pub proof fn lemma_leaf_monochrome(
    indent: u16,
    prefix: Seq<char>,
    delimiter: Seq<char>,
    style: Option<StyleDesc>,
    payload: Seq<char>,
)
    requires
        leaf_monochrome(prefix, delimiter, style),
        escape_free(payload),
    ensures
        escape_free(leaf_text(indent, prefix, delimiter, style, payload)),
{
    lemma_repeat_escape_free(indent_token(), indent as nat);
    assert(resolve(style).is_plain());
    let t = leaf_text(indent, prefix, delimiter, style, payload);
    assert(t == indentation(indent as nat) + prefix + delimiter + payload + delimiter);
}

/// Rendering a leaf one indentation level deeper writes the same text with
/// exactly one more indentation token in front.
pub proof fn lemma_indentation_linear(
    indent: u16,
    prefix: Seq<char>,
    delimiter: Seq<char>,
    style: Option<StyleDesc>,
    payload: Seq<char>,
)
    requires
        indent < u16::MAX,
    ensures
        leaf_text((indent + 1) as u16, prefix, delimiter, style, payload)
            == indent_token() + leaf_text(indent, prefix, delimiter, style, payload),
{
    lemma_repeat_prepend(indent_token(), indent as nat);
    assert(leaf_text((indent + 1) as u16, prefix, delimiter, style, payload)
        =~= indent_token() + leaf_text(indent, prefix, delimiter, style, payload));
}

/// One more repetition may be taken at the front as well as at the back.
pub proof fn lemma_repeat_prepend(token: Seq<char>, count: nat)
    ensures
        repeat(token, count + 1) == token + repeat(token, count),
    decreases count,
{
    if count == 0 {
        assert(repeat(token, 1) =~= token + repeat(token, 0));
    } else {
        lemma_repeat_prepend(token, (count - 1) as nat);
        assert(repeat(token, count + 1) =~= token + repeat(token, count));
    }
}

} // verus!
