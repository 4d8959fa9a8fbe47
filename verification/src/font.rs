//! Font support: styles, system font lookup, and the positioning of
//! shaped glyph geometry.
//!
//! Shaping and glyph-outline tessellation themselves are a platform
//! concern: the core only consumes their result, a flat vertex and index
//! buffer in font units, and positions, scales and colors it.

/// System font lookup.
pub mod load;
/// Glyph geometry in font units, and its transforms to canvas space.
pub mod shape;
/// Font styles: weight, italic, underline.
pub mod style;
