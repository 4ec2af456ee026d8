//! The parts of egui's image updates that the texture bookkeeping reads,
//! held as plain values.
use vstd::prelude::*;

verus! {

/// An RGBA colour with premultiplied alpha, one byte per channel.
#[derive(Clone, Copy, PartialEq, Eq, Structural, Debug)]
pub struct Color32 {
    pub r: u8,
    pub g: u8,
    pub b: u8,
    pub a: u8,
}

/// An RGBA image: `size` is `[width, height]` in texels, `pixels` holds the
/// rows from top to bottom.
#[derive(Debug)]
pub struct ColorImage {
    pub size: [usize; 2],
    pub pixels: Vec<Color32>,
}

/// The contents of a texture update.
#[derive(Debug)]
pub enum ImageData {
    Color(ColorImage),
}

/// Width in texels of `image`.
pub open spec fn image_width(image: ImageData) -> nat {
    match image {
        ImageData::Color(c) => c.size@[0] as nat,
    }
}

/// Height in texels of `image`.
pub open spec fn image_height(image: ImageData) -> nat {
    match image {
        ImageData::Color(c) => c.size@[1] as nat,
    }
}

impl ImageData {
    pub fn width(&self) -> (r: usize)
        ensures
            r == image_width(*self),
    {
        match self {
            ImageData::Color(c) => c.size[0],
        }
    }

    pub fn height(&self) -> (r: usize)
        ensures
            r == image_height(*self),
    {
        match self {
            ImageData::Color(c) => c.size[1],
        }
    }
}

/// How texels are sampled when a texture is scaled.
#[derive(Clone, Copy, PartialEq, Eq, Structural, Debug)]
pub enum TextureFilter {
    Nearest,
    Linear,
}

/// How texture coordinates outside `[0, 1]` are treated.
#[derive(Clone, Copy, PartialEq, Eq, Structural, Debug)]
pub enum TextureWrapMode {
    ClampToEdge,
    Repeat,
    MirroredRepeat,
}

/// Sampling options of a texture.
#[derive(Clone, Copy, PartialEq, Eq, Structural, Debug)]
pub struct TextureOptions {
    pub magnification: TextureFilter,
    pub minification: TextureFilter,
    pub wrap_mode: TextureWrapMode,
}

/// An update to one texture: the whole texture when `pos` is `None`,
/// otherwise a patch whose top-left corner is at `pos = [x, y]`.
#[derive(Debug)]
pub struct ImageDelta {
    pub image: ImageData,
    pub options: TextureOptions,
    pub pos: Option<[usize; 2]>,
}

} // verus!
