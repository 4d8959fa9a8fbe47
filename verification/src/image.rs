//! Texture metadata.
//!
//! The scene core only positions and masks textures; decoding an image file
//! and uploading its RGBA8 pixels to a device texture is the platform
//! layer's work.  This type is what the core keeps of a texture: where it
//! came from and how large it is.  The platform layer keys its device
//! textures by `source`.

use vstd::prelude::*;

verus! {

/// A decoded image as the scene core sees it.
#[derive(Debug, Clone, PartialEq, Eq)]
pub struct Image {
    /// The source path of the image.
    pub source: String,
    /// The width of the image in pixels.
    pub width: u32,
    /// The height of the image in pixels.
    pub height: u32,
}

impl Image {
    /// Creates image metadata from a source path and pixel size.
    pub fn from_parts(source: String, width: u32, height: u32) -> (r: Self)
        ensures
            r == (Image { source, width, height }),
    {
        Image { source, width, height }
    }
}

} // verus!
