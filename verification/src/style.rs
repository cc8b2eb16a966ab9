//! Rendering style enumerations.
//!
//! These enumerations configure how paths and text are rendered by backends:
//! the fill rule for deciding which regions of a path are "inside", the font
//! weight, and the horizontal text alignment.  Each also maps to the SVG
//! attribute value that a vector backend emits for it.

use vstd::prelude::*;

verus! {

/// Fill rule for path rendering.
///
/// Determines which areas are considered "inside" a path when filling.
#[derive(Debug, Clone, Copy, PartialEq, Eq, Structural)]
pub enum PathFillRule {
    /// Non-zero winding rule (default for most graphics systems).
    ///
    /// A point is inside if a ray from the point crosses a non-zero net number
    /// of path segments.
    NonZero,
    /// Even-odd rule.
    ///
    /// A point is inside if a ray from the point crosses an odd number of path
    /// segments.
    EvenOdd,
}

impl Default for PathFillRule {
    /// The default fill rule is the non-zero winding rule.
    fn default() -> (r: Self)
        ensures
            r == PathFillRule::NonZero,
    {
        PathFillRule::NonZero
    }
}

/// Font weight for text rendering.
#[derive(Debug, Clone, Copy, PartialEq, Eq, Structural)]
pub enum FontWeight {
    /// Normal weight (400)
    Normal,
    /// Bold weight (700)
    Bold,
}

impl Default for FontWeight {
    /// The default font weight is normal.
    fn default() -> (r: Self)
        ensures
            r == FontWeight::Normal,
    {
        FontWeight::Normal
    }
}

/// Text alignment options.
#[derive(Debug, Clone, Copy, PartialEq, Eq, Structural)]
pub enum TextAlignment {
    /// Align text to the left
    Left,
    /// Center text
    Center,
    /// Align text to the right
    Right,
}

impl Default for TextAlignment {
    /// The default alignment is left.
    fn default() -> (r: Self)
        ensures
            r == TextAlignment::Left,
    {
        TextAlignment::Left
    }
}

/// The SVG `fill-rule` attribute value for a fill rule.
pub fn fill_rule_svg_name(rule: PathFillRule) -> (r: &'static str)
    ensures
        rule == PathFillRule::NonZero ==> r@ == "nonzero"@,
        rule == PathFillRule::EvenOdd ==> r@ == "evenodd"@,
{
    match rule {
        PathFillRule::NonZero => "nonzero",
        PathFillRule::EvenOdd => "evenodd",
    }
}

/// The SVG `font-weight` attribute value for a font weight.
pub fn font_weight_svg_name(weight: FontWeight) -> (r: &'static str)
    ensures
        weight == FontWeight::Normal ==> r@ == "normal"@,
        weight == FontWeight::Bold ==> r@ == "bold"@,
{
    match weight {
        FontWeight::Normal => "normal",
        FontWeight::Bold => "bold",
    }
}

/// The SVG `text-anchor` attribute value for a text alignment.
pub fn text_anchor_svg_name(alignment: TextAlignment) -> (r: &'static str)
    ensures
        alignment == TextAlignment::Left ==> r@ == "start"@,
        alignment == TextAlignment::Center ==> r@ == "middle"@,
        alignment == TextAlignment::Right ==> r@ == "end"@,
{
    match alignment {
        TextAlignment::Left => "start",
        TextAlignment::Center => "middle",
        TextAlignment::Right => "end",
    }
}

} // verus!
