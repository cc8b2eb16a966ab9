//! SVG element types and their serialization to SVG markup.
//!
//! An element carries its coordinates already formatted as text (coordinate
//! formatting of floating-point positions is the backend's job) and its
//! attribute list as key-value pairs.  Serialization to markup — tag syntax,
//! quoting, attribute spacing, indentation — is owned and verified here.

use vstd::prelude::*;

verus! {

/// An SVG element that can be rendered.
#[derive(Debug, Clone)]
pub enum SvgElement {
    /// A background rectangle
    Rect { x: String, y: String, width: String, height: String, fill: String },
    /// A path element
    Path { d: String, attrs: Vec<(String, String)> },
    /// A text element
    Text { content: String, x: String, y: String, attrs: Vec<(String, String)> },
}

/// The markup of one attribute: a leading space, the key, `="`, the value,
/// and a closing quote.
pub open spec fn attr_svg_spec(key: Seq<char>, value: Seq<char>) -> Seq<char> {
    seq![' '] + key + "=\""@ + value + "\""@
}

/// The markup of an attribute list, in order.
pub open spec fn attrs_svg_spec(attrs: Seq<(String, String)>) -> Seq<char>
    decreases attrs.len(),
{
    if attrs.len() == 0 {
        Seq::empty()
    } else {
        attrs_svg_spec(attrs.drop_last()) + attr_svg_spec(attrs.last().0@, attrs.last().1@)
    }
}

/// `n` levels of two-space indentation.
pub open spec fn indent_spec(n: int) -> Seq<char>
    decreases n,
{
    if n <= 0 {
        Seq::empty()
    } else {
        indent_spec(n - 1) + "  "@
    }
}

/// The complete markup of an element at the given indentation level.
pub open spec fn element_svg_spec(e: SvgElement, indent: int) -> Seq<char> {
    match e {
        SvgElement::Rect { x, y, width, height, fill } => indent_spec(indent) + "<rect x=\""@ + x@
            + "\" y=\""@ + y@ + "\" width=\""@ + width@ + "\" height=\""@ + height@ + "\" fill=\""@
            + fill@ + "\" />"@,
        SvgElement::Path { d, attrs } => indent_spec(indent) + "<path d=\""@ + d@ + "\""@
            + attrs_svg_spec(attrs@) + " />"@,
        SvgElement::Text { content, x, y, attrs } => indent_spec(indent) + "<text x=\""@ + x@
            + "\" y=\""@ + y@ + "\""@ + attrs_svg_spec(attrs@) + ">"@ + content@ + "</text>"@,
    }
}

/// Appends `n` levels of two-space indentation to `out`.
fn append_indent(out: &mut String, n: usize)
    ensures
        final(out)@ == old(out)@ + indent_spec(n as int),
{
    let mut i: usize = 0;
    while i < n
        invariant
            i <= n,
            out@ == old(out)@ + indent_spec(i as int),
        decreases n - i,
    {
        out.append("  ");
        i = i + 1;
    }
}

/// Appends the markup of every attribute in the list to `out`.
fn append_attrs(out: &mut String, attrs: &Vec<(String, String)>)
    ensures
        final(out)@ == old(out)@ + attrs_svg_spec(attrs@),
{
    let mut i: usize = 0;
    while i < attrs.len()
        invariant
            i <= attrs@.len(),
            out@ == old(out)@ + attrs_svg_spec(attrs@.take(i as int)),
        decreases attrs@.len() - i,
    {
        let pair = &attrs[i];
        out.push(' ');
        out.append(pair.0.as_str());
        out.append("=\"");
        out.append(pair.1.as_str());
        out.append("\"");
        proof {
            let t = attrs@.take(i as int + 1);
            assert(t.drop_last() =~= attrs@.take(i as int));
            assert(t.last() == attrs@[i as int]);
            assert(out@ =~= old(out)@ + attrs_svg_spec(t));
        }
        i = i + 1;
    }
    proof {
        assert(attrs@.take(attrs@.len() as int) =~= attrs@);
    }
}

impl SvgElement {
    /// Converts the element to an SVG string.
    pub fn to_svg_string(&self, indent: usize) -> (r: String)
        ensures
            r@ == element_svg_spec(*self, indent as int),
    {
        let mut result = String::new();
        append_indent(&mut result, indent);
        match self {
            SvgElement::Rect { x, y, width, height, fill } => {
                result.append("<rect x=\"");
                result.append(x.as_str());
                result.append("\" y=\"");
                result.append(y.as_str());
                result.append("\" width=\"");
                result.append(width.as_str());
                result.append("\" height=\"");
                result.append(height.as_str());
                result.append("\" fill=\"");
                result.append(fill.as_str());
                result.append("\" />");
            },
            SvgElement::Path { d, attrs } => {
                result.append("<path d=\"");
                result.append(d.as_str());
                result.append("\"");
                append_attrs(&mut result, attrs);
                result.append(" />");
            },
            SvgElement::Text { content, x, y, attrs } => {
                result.append("<text x=\"");
                result.append(x.as_str());
                result.append("\" y=\"");
                result.append(y.as_str());
                result.append("\"");
                append_attrs(&mut result, attrs);
                result.append(">");
                result.append(content.as_str());
                result.append("</text>");
            },
        }
        assert(result@ =~= element_svg_spec(*self, indent as int));
        result
    }
}

} // verus!
