//! A GPU texture as the bookkeeping sees it: its size, format and mipmap
//! setting, next to the handle the GPU library gave for it.
use vstd::prelude::*;

verus! {

/// The texel formats this backend uploads.
#[derive(Clone, Copy, PartialEq, Eq, Structural, Debug)]
pub enum TexFormat {
    /// Four bytes per texel: red, green, blue, alpha.
    Rgba8,
    /// One alpha byte per texel.
    A8,
}

/// Bytes per texel of `f`.
pub open spec fn bytes_per_pixel(f: TexFormat) -> nat {
    match f {
        TexFormat::Rgba8 => 4,
        TexFormat::A8 => 1,
    }
}

/// A texture on the GPU; `internal` is the handle of the GPU library.
pub struct Texture<H> {
    pub internal: H,
    pub width: u16,
    pub height: u16,
    pub format: TexFormat,
    pub mipmap: bool,
}

} // verus!
