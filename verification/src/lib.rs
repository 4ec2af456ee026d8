//! Verified core of an egui backend for the Nintendo 3DS: the input-method
//! (software keyboard) state machine and the texture-delta bookkeeping that
//! turns egui image updates into GPU texture uploads.
use vstd::prelude::*;

pub mod image;
pub mod ime;
pub mod texdelta;
pub mod texmap;
pub mod texture;

use crate::texture::Texture;

verus! {

/// Which of the two 3DS screens a piece of UI is drawn on.
#[derive(Clone, Copy, PartialEq, Eq, Structural, Debug)]
pub enum Screen {
    Top,
    Bottom,
}

/// Byte `k` (0 = least significant) of `w`.
pub open spec fn le_byte(w: u32, k: int) -> u8 {
    if k == 0 {
        (w % 256) as u8
    } else if k == 1 {
        (w / 256 % 256) as u8
    } else if k == 2 {
        (w / 65536 % 256) as u8
    } else {
        (w / 16777216) as u8
    }
}

/// The bytes of the words `ws` laid out in memory, little-endian when
/// `little` holds and big-endian otherwise.
pub open spec fn word_bytes(ws: Seq<u32>, little: bool) -> Seq<u8> {
    Seq::new(
        4 * ws.len(),
        |i: int|
            if little {
                le_byte(ws[i / 4], i % 4)
            } else {
                le_byte(ws[i / 4], 3 - i % 4)
            },
    )
}

/// Calls `bytemuck::cast_slice` to view 32-bit words as their bytes. The
/// bytes are those of the words in the machine's byte order, which is either
/// little- or big-endian; which one is not stated.
#[verifier::external_body]
fn cast_words_to_bytes(words: &[u32]) -> (r: &[u8])
    ensures
        r@ == word_bytes(words@, true) || r@ == word_bytes(words@, false),
{
    bytemuck::cast_slice(words)
}

/// The CPU-side copy of a texture's texels.
#[derive(Debug)]
pub enum ImgDat {
    /// One packed RGBA word per texel (red in the low byte).
    Rgba8(Vec<u32>),
    /// One alpha byte per texel.
    Alpha8(Vec<u8>),
}

impl ImgDat {
    /// The texels as bytes, as they are handed to the GPU.
    pub fn as_bytes(&self) -> (r: &[u8])
        ensures
            match *self {
                ImgDat::Rgba8(v) => r@ == word_bytes(v@, true) || r@ == word_bytes(v@, false),
                ImgDat::Alpha8(v) => r@ == v@,
            },
    {
        match self {
            ImgDat::Rgba8(v) => cast_words_to_bytes(v.as_slice()),
            ImgDat::Alpha8(v) => v.as_slice(),
        }
    }

    /// Chooses the texture-combiner setup for drawing these texels.
    pub fn texenv(&self) -> (r: TexEnvKind)
        ensures
            r == texenv_for(*self),
    {
        match self {
            ImgDat::Rgba8(..) => TexEnvKind::Rgba8,
            ImgDat::Alpha8(..) => TexEnvKind::Font,
        }
    }
}

/// The texture-combiner setup that draws texels of a given kind.
#[derive(Clone, Copy, PartialEq, Eq, Structural, Debug)]
pub enum TexEnvKind {
    /// Colour and alpha both come from the texture, modulated by the vertex
    /// colour.
    Rgba8,
    /// Colour comes from the vertex; alpha is the texture's alpha modulated
    /// by the vertex alpha (glyph atlases).
    Font,
}

/// The texture-combiner setup for texels of `data`'s kind.
pub open spec fn texenv_for(data: ImgDat) -> TexEnvKind {
    match data {
        ImgDat::Rgba8(..) => TexEnvKind::Rgba8,
        ImgDat::Alpha8(..) => TexEnvKind::Font,
    }
}

/// A texture together with the CPU-side copy of its texels.
pub struct TexAndData<H> {
    pub tex: Texture<H>,
    pub data: ImgDat,
}

} // verus!
