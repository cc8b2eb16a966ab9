//! Verified core of a 2D vector-graphics toolkit.
//!
//! The crate covers the parts of the engine whose behaviour is exact and
//! machine-checkable: XML escaping and SVG document assembly, RGBA colors with
//! hex parsing and formatting, rendering style enumerations, the error type,
//! scene configuration, and the path command buffer — the command wire
//! format, its append and cache-invalidation discipline, point extraction
//! and pointwise traversal — generic over the point type.  Coordinate
//! arithmetic itself (vectors, transforms, Bézier evaluation, bounding-box
//! folds) is floating point, which the verifier does not take, and lives
//! outside the verified library.

pub mod color;
pub mod error;
pub mod path;
pub mod scene;
pub mod style;
pub mod svg_elements;
pub mod svg_path;
pub mod svg_renderer;
pub mod svg_text;
pub mod text;

pub use color::Color;
pub use path::{Path, PathCommand, PathCursor};
pub use error::Error;
pub use scene::{Scene, SceneConfig};
pub use style::{FontWeight, PathFillRule, TextAlignment};
pub use svg_text::escape_xml;
