//! SVG rendering backend: element accumulation and document assembly.
//!
//! The renderer collects SVG elements for one frame and serializes them into
//! a complete SVG document with a centered coordinate system: the `viewBox`
//! places the origin in the middle of the canvas and a group flips the Y axis
//! so that positive Y points up.  Coordinates arriving from path and text
//! drawing are already formatted as text by the backend edge; everything the
//! document contains beyond them — header, viewBox arithmetic, element
//! markup, footer — is specified exactly here.

use vstd::prelude::*;

use crate::color::{to_hex_spec, Color};
use crate::error::Error;
use crate::svg_elements::{element_svg_spec, SvgElement};
use crate::svg_text::{escape_spec, escape_xml};
use crate::text::{dec_spec, u32_to_string};

verus! {

/// The decimal form of half of `n`: the whole part of `n / 2`, with `.5`
/// appended when `n` is odd.  This is how the halved canvas dimension prints.
pub open spec fn half_spec(n: u32) -> Seq<char> {
    if n % 2 == 0 {
        dec_spec(n as int / 2)
    } else {
        dec_spec(n as int / 2) + ".5"@
    }
}

/// The negated half of `n` as text: a minus sign followed by `half_spec`.
/// Note that this yields `-0` for zero, as floating-point negation of an
/// exact half does when printed.
pub open spec fn neg_half_spec(n: u32) -> Seq<char> {
    seq!['-'] + half_spec(n)
}

/// The SVG document header: XML declaration and the opening `<svg>` tag with
/// the canvas dimensions, a centered `viewBox`, and the Y-flipping group.
pub open spec fn header_spec(width: u32, height: u32) -> Seq<char> {
    "<?xml version=\"1.0\" encoding=\"UTF-8\"?>\n"@ + "<svg "@ + "width=\""@ + dec_spec(
        width as int,
    ) + "\" "@ + "height=\""@ + dec_spec(height as int) + "\" "@ + "viewBox=\""@ + neg_half_spec(
        width,
    ) + seq![' '] + neg_half_spec(height) + seq![' '] + dec_spec(width as int) + seq![' ']
        + dec_spec(height as int) + "\" "@ + "xmlns=\"http://www.w3.org/2000/svg\" "@
        + "version=\"1.1\">\n"@ + "  <g transform=\"scale(1, -1)\">\n"@
}

/// The markup of the element list: each element at indentation level 2,
/// followed by a newline.
pub open spec fn elements_svg_spec(es: Seq<SvgElement>) -> Seq<char>
    decreases es.len(),
{
    if es.len() == 0 {
        Seq::empty()
    } else {
        elements_svg_spec(es.drop_last()) + element_svg_spec(es.last(), 2) + "\n"@
    }
}

/// The complete SVG document for a renderer state.
pub open spec fn document_spec(r: SvgRenderer) -> Seq<char> {
    header_spec(r.width, r.height) + elements_svg_spec(r.elements@) + "  </g>\n"@ + "</svg>\n"@
}

/// Whether an element is a background rectangle covering the whole canvas of
/// the given dimensions, filled with the given color's hex form.
pub open spec fn background_rect_spec(e: SvgElement, width: u32, height: u32, c: Color) -> bool {
    match e {
        SvgElement::Rect { x, y, width: w, height: h, fill } => x@ == neg_half_spec(width) && y@
            == neg_half_spec(height) && w@ == dec_spec(width as int) && h@ == dec_spec(
            height as int,
        ) && fill@ == to_hex_spec(c),
        _ => false,
    }
}

/// SVG rendering backend state.
#[derive(Debug, Clone)]
pub struct SvgRenderer {
    pub width: u32,
    pub height: u32,
    pub background: Color,
    pub elements: Vec<SvgElement>,
}

/// The negated half of `n` formatted as text.
fn neg_half_string(n: u32) -> (r: String)
    ensures
        r@ == neg_half_spec(n),
{
    let mut s = String::new();
    s.push('-');
    let whole = u32_to_string(n / 2);
    s.append(whole.as_str());
    if n % 2 == 1 {
        s.append(".5");
    }
    assert(s@ =~= neg_half_spec(n));
    s
}

impl SvgRenderer {
    /// Creates a new SVG renderer with the specified dimensions, a black
    /// background, and no elements.
    pub fn new(width: u32, height: u32) -> (r: Self)
        ensures
            r.width == width,
            r.height == height,
            r.background == Color::black(),
            r.elements@.len() == 0,
    {
        SvgRenderer { width, height, background: Color::black(), elements: Vec::new() }
    }

    /// Returns the current viewport dimensions in pixels.
    pub fn dimensions(&self) -> (r: (u32, u32))
        ensures
            r.0 == self.width,
            r.1 == self.height,
    {
        (self.width, self.height)
    }

    /// Begins rendering a new frame: discards the accumulated elements.
    pub fn begin_frame(&mut self) -> (r: Result<(), Error>)
        ensures
            final(self).elements@.len() == 0,
            final(self).width == old(self).width,
            final(self).height == old(self).height,
            final(self).background == old(self).background,
            r is Ok,
    {
        self.elements.clear();
        Ok(())
    }

    /// Finalizes the current frame.  The document is already stored, so this
    /// changes nothing.
    pub fn end_frame(&mut self) -> (r: Result<(), Error>)
        ensures
            *final(self) == *old(self),
            r is Ok,
    {
        Ok(())
    }

    /// Clears the frame to the given color: records it as the background and
    /// appends a rectangle covering the whole canvas.
    pub fn clear(&mut self, color: Color) -> (r: Result<(), Error>)
        ensures
            final(self).width == old(self).width,
            final(self).height == old(self).height,
            final(self).background == color,
            final(self).elements@.len() == old(self).elements@.len() + 1,
            final(self).elements@.drop_last() == old(self).elements@,
            background_rect_spec(
                final(self).elements@.last(),
                old(self).width,
                old(self).height,
                color,
            ),
            r is Ok,
    {
        self.background = color;
        let rect = SvgElement::Rect {
            x: neg_half_string(self.width),
            y: neg_half_string(self.height),
            width: u32_to_string(self.width),
            height: u32_to_string(self.height),
            fill: color.to_hex(),
        };
        self.elements.push(rect);
        proof {
            assert(self.elements@.drop_last() =~= old(self).elements@);
        }
        Ok(())
    }

    /// Appends a path element with the given path data and attributes.
    /// An empty path draws nothing and leaves the document unchanged.
    pub fn draw_path_element(&mut self, d: String, attrs: Vec<(String, String)>) -> (r: Result<
        (),
        Error,
    >)
        ensures
            final(self).width == old(self).width,
            final(self).height == old(self).height,
            final(self).background == old(self).background,
            d@.len() == 0 ==> final(self).elements@ == old(self).elements@,
            d@.len() > 0 ==> final(self).elements@ == old(self).elements@.push(
                SvgElement::Path { d, attrs },
            ),
            r is Ok,
    {
        if d.as_str().unicode_len() == 0 {
            return Ok(());
        }
        self.elements.push(SvgElement::Path { d, attrs });
        Ok(())
    }

    /// Appends a text element at the given formatted position: the content is
    /// XML-escaped here, the attributes are stored as given.
    pub fn draw_text(&mut self, text: &str, x: String, y: String, attrs: Vec<(String, String)>)
        -> (r: Result<(), Error>)
        ensures
            final(self).width == old(self).width,
            final(self).height == old(self).height,
            final(self).background == old(self).background,
            final(self).elements@.len() == old(self).elements@.len() + 1,
            final(self).elements@.drop_last() == old(self).elements@,
            ({
                match final(self).elements@.last() {
                    SvgElement::Text { content, x: ex, y: ey, attrs: ea } => content@
                        == escape_spec(text@) && ex == x && ey == y && ea == attrs,
                    _ => false,
                }
            }),
            r is Ok,
    {
        let content = escape_xml(text);
        self.elements.push(SvgElement::Text { content, x, y, attrs });
        proof {
            assert(self.elements@.drop_last() =~= old(self).elements@);
        }
        Ok(())
    }

    /// Converts the renderer's content to a complete SVG document string.
    pub fn to_svg_string(&self) -> (r: String)
        ensures
            r@ == document_spec(*self),
    {
        let mut result = String::new();
        result.append("<?xml version=\"1.0\" encoding=\"UTF-8\"?>\n");
        result.append("<svg ");
        result.append("width=\"");
        let w = u32_to_string(self.width);
        result.append(w.as_str());
        result.append("\" ");
        result.append("height=\"");
        let h = u32_to_string(self.height);
        result.append(h.as_str());
        result.append("\" ");
        result.append("viewBox=\"");
        let nhw = neg_half_string(self.width);
        result.append(nhw.as_str());
        result.push(' ');
        let nhh = neg_half_string(self.height);
        result.append(nhh.as_str());
        result.push(' ');
        result.append(w.as_str());
        result.push(' ');
        result.append(h.as_str());
        result.append("\" ");
        result.append("xmlns=\"http://www.w3.org/2000/svg\" ");
        result.append("version=\"1.1\">\n");
        result.append("  <g transform=\"scale(1, -1)\">\n");
        assert(result@ =~= header_spec(self.width, self.height));
        let mut i: usize = 0;
        while i < self.elements.len()
            invariant
                i <= self.elements@.len(),
                result@ == header_spec(self.width, self.height) + elements_svg_spec(
                    self.elements@.take(i as int),
                ),
            decreases self.elements@.len() - i,
        {
            let piece = self.elements[i].to_svg_string(2);
            result.append(piece.as_str());
            result.append("\n");
            proof {
                let t = self.elements@.take(i as int + 1);
                assert(t.drop_last() =~= self.elements@.take(i as int));
                assert(t.last() == self.elements@[i as int]);
                assert(result@ =~= header_spec(self.width, self.height) + elements_svg_spec(t));
            }
            i = i + 1;
        }
        result.append("  </g>\n");
        result.append("</svg>\n");
        proof {
            assert(self.elements@.take(self.elements@.len() as int) =~= self.elements@);
            assert(result@ =~= document_spec(*self));
        }
        result
    }
}

} // verus!
