//! Applying egui's texture updates: deciding whether a texture is created,
//! reused or patched, building its texels, and preparing the swizzled bytes
//! the 3DS GPU reads.
use vstd::prelude::*;

use crate::image::{image_height, image_width, Color32, ImageData, ImageDelta};
use crate::texture::{bytes_per_pixel, TexFormat, Texture};
use crate::{le_byte, word_bytes, ImgDat, TexAndData};

verus! {

/// The packed RGBA word of `c`: its bytes, least significant first, are red,
/// green, blue and alpha.
pub open spec fn rgba_word(c: Color32) -> u32 {
    (c.r as int + c.g as int * 256 + c.b as int * 65536 + c.a as int * 16777216) as u32
}

/// Packing is lossless: the bytes of a colour's packed word, least
/// significant first, are its red, green, blue and alpha channels.
pub proof fn lemma_rgba_word_bytes(c: Color32)
    ensures
        le_byte(rgba_word(c), 0) == c.r,
        le_byte(rgba_word(c), 1) == c.g,
        le_byte(rgba_word(c), 2) == c.b,
        le_byte(rgba_word(c), 3) == c.a,
{
    let r = c.r as int;
    let g = c.g as int;
    let b = c.b as int;
    let a = c.a as int;
    let w = rgba_word(c) as int;
    assert(w == r + g * 256 + b * 65536 + a * 16777216);
    let q1 = g + b * 256 + a * 65536;
    let q2 = b + a * 256;
    assert(w == q1 * 256 + r) by (nonlinear_arith)
        requires
            w == r + g * 256 + b * 65536 + a * 16777216,
            q1 == g + b * 256 + a * 65536,
    ;
    vstd::arithmetic::div_mod::lemma_fundamental_div_mod_converse(w, 256, q1, r);
    assert(q1 == q2 * 256 + g) by (nonlinear_arith)
        requires
            q1 == g + b * 256 + a * 65536,
            q2 == b + a * 256,
    ;
    vstd::arithmetic::div_mod::lemma_fundamental_div_mod_converse(q1, 256, q2, g);
    assert(w == q2 * 65536 + (g * 256 + r)) by (nonlinear_arith)
        requires
            w == r + g * 256 + b * 65536 + a * 16777216,
            q2 == b + a * 256,
    ;
    vstd::arithmetic::div_mod::lemma_fundamental_div_mod_converse(w, 65536, q2, g * 256 + r);
    vstd::arithmetic::div_mod::lemma_fundamental_div_mod_converse(q2, 256, a, b);
    assert(w == a * 16777216 + (b * 65536 + g * 256 + r));
    vstd::arithmetic::div_mod::lemma_fundamental_div_mod_converse(w, 16777216, a, b * 65536 + g * 256 + r);
}

/// Packs each colour into one RGBA word (red in the low byte).
pub fn convert_color32_to_rgba8(x: &Vec<Color32>) -> (r: Vec<u32>)
    ensures
        r@ == x@.map_values(|c: Color32| rgba_word(c)),
        r@.len() == x@.len(),
        forall|i: int|
            0 <= i < x@.len() ==> {
                &&& le_byte(#[trigger] r@[i], 0) == x@[i].r
                &&& le_byte(r@[i], 1) == x@[i].g
                &&& le_byte(r@[i], 2) == x@[i].b
                &&& le_byte(r@[i], 3) == x@[i].a
            },
{
    let mut out: Vec<u32> = Vec::with_capacity(x.len());
    let mut i: usize = 0;
    while i < x.len()
        invariant
            i <= x@.len(),
            out@ == x@.take(i as int).map_values(|c: Color32| rgba_word(c)),
        decreases x@.len() - i,
    {
        let c = x[i];
        let w: u32 = c.r as u32 + (c.g as u32) * 256 + (c.b as u32) * 65536 + (c.a as u32)
            * 16777216;
        out.push(w);
        proof {
            assert(x@.take(i + 1) =~= x@.take(i as int).push(c));
        }
        i = i + 1;
    }
    proof {
        assert(x@.take(x@.len() as int) =~= x@);
        assert forall|i: int| 0 <= i < x@.len() implies {
            &&& le_byte(#[trigger] out@[i], 0) == x@[i].r
            &&& le_byte(out@[i], 1) == x@[i].g
            &&& le_byte(out@[i], 2) == x@[i].b
            &&& le_byte(out@[i], 3) == x@[i].a
        } by {
            lemma_rgba_word_bytes(x@[i]);
        }
    }
    out
}

/// The CPU-side texels an update carries.
pub open spec fn delta_texels(delta: ImageDelta) -> Seq<u32> {
    match delta.image {
        ImageData::Color(c) => c.pixels@.map_values(|p: Color32| rgba_word(p)),
    }
}

/// Builds the CPU-side texels of an update: colour images become packed
/// RGBA words.
pub fn delta_to_data(delta: &ImageDelta) -> (r: ImgDat)
    ensures
        r matches ImgDat::Rgba8(v) && v@ == delta_texels(*delta),
        r matches ImgDat::Rgba8(v) && match delta.image {
            ImageData::Color(c) => {
                &&& v@.len() == c.pixels@.len()
                &&& forall|i: int|
                    0 <= i < c.pixels@.len() ==> {
                        &&& le_byte(#[trigger] v@[i], 0) == c.pixels@[i].r
                        &&& le_byte(v@[i], 1) == c.pixels@[i].g
                        &&& le_byte(v@[i], 2) == c.pixels@[i].b
                        &&& le_byte(v@[i], 3) == c.pixels@[i].a
                    }
            },
        },
{
    proof {
        lemma_delta_texels_bytes(*delta);
    }
    match &delta.image {
        ImageData::Color(color_image) => ImgDat::Rgba8(convert_color32_to_rgba8(&color_image.pixels)),
    }
}

/// The texels built from an update are its pixels packed one by one: there
/// is one word per pixel, and the bytes of each word, least significant
/// first, are that pixel's red, green, blue and alpha.
pub proof fn lemma_delta_texels_bytes(delta: ImageDelta)
    ensures
        match delta.image {
            ImageData::Color(c) => {
                &&& delta_texels(delta).len() == c.pixels@.len()
                &&& forall|i: int|
                    0 <= i < c.pixels@.len() ==> {
                        &&& le_byte(#[trigger] delta_texels(delta)[i], 0) == c.pixels@[i].r
                        &&& le_byte(delta_texels(delta)[i], 1) == c.pixels@[i].g
                        &&& le_byte(delta_texels(delta)[i], 2) == c.pixels@[i].b
                        &&& le_byte(delta_texels(delta)[i], 3) == c.pixels@[i].a
                    }
            },
        },
{
    match delta.image {
        ImageData::Color(c) => {
            assert forall|i: int| 0 <= i < c.pixels@.len() implies {
                &&& le_byte(#[trigger] delta_texels(delta)[i], 0) == c.pixels@[i].r
                &&& le_byte(delta_texels(delta)[i], 1) == c.pixels@[i].g
                &&& le_byte(delta_texels(delta)[i], 2) == c.pixels@[i].b
                &&& le_byte(delta_texels(delta)[i], 3) == c.pixels@[i].a
            } by {
                lemma_rgba_word_bytes(c.pixels@[i]);
            }
        },
    }
}


/// What an update means for the texture it targets.
#[derive(Clone, Copy, PartialEq, Eq, Structural, Debug)]
pub enum ComparisonResult {
    /// The whole texture is replaced by an image of the same size and kind:
    /// keep the GPU texture, replace the texels.
    ReuseTexture,
    /// A patch at `(x, y)` that fits inside the texture.
    PatchTexture { x: usize, y: usize },
    /// A new GPU texture is needed.
    CreateNewTexture,
    /// A patch whose kind of texels differs from the texture's.
    Panic,
    /// A patch that reaches past the texture's edge.
    Oob,
}

/// Whether the texels of `tad` are of the kind that `delta` carries.
pub open spec fn same_data_type<H>(tad: &TexAndData<H>, delta: ImageDelta) -> bool {
    (tad.data is Rgba8) == (delta.image is Color)
}

/// The classification of `delta` against the texture `tad` it targets, if
/// there is one.
pub open spec fn comparison<H>(tad: Option<&TexAndData<H>>, delta: ImageDelta) -> ComparisonResult {
    match tad {
        None => ComparisonResult::CreateNewTexture,
        Some(t) => {
            let dw = image_width(delta.image);
            let dh = image_height(delta.image);
            match delta.pos {
                Some(p) => if same_data_type(t, delta) {
                    if p@[0] + dw > t.tex.width || p@[1] + dh > t.tex.height {
                        ComparisonResult::Oob
                    } else {
                        ComparisonResult::PatchTexture { x: p@[0], y: p@[1] }
                    }
                } else {
                    ComparisonResult::Panic
                },
                None => if same_data_type(t, delta) && dw == t.tex.width && dh == t.tex.height {
                    ComparisonResult::ReuseTexture
                } else {
                    ComparisonResult::CreateNewTexture
                },
            }
        },
    }
}

/// The patch placed at `delta.pos` lies inside the texture `t`.
pub open spec fn patch_fits<H>(t: &TexAndData<H>, delta: ImageDelta) -> bool {
    &&& delta.pos.unwrap()@[0] + image_width(delta.image) <= t.tex.width
    &&& delta.pos.unwrap()@[1] + image_height(delta.image) <= t.tex.height
}

/// How updates are classified: with no texture under the id a new one is
/// made; a patch of an RGBA texture is applied at its position exactly when
/// it fits and is out of bounds otherwise, and a patch of an alpha texture
/// is refused; a whole-image update reuses the texture exactly when it is
/// an RGBA texture of the same size, and makes a new one otherwise.
pub proof fn lemma_compare_classification<H>(tad: Option<&TexAndData<H>>, delta: ImageDelta)
    ensures
        tad is None ==> comparison(tad, delta) == ComparisonResult::CreateNewTexture,
        tad is Some && delta.pos is Some && tad.unwrap().data is Rgba8 ==> {
            &&& patch_fits(tad.unwrap(), delta) ==> comparison(tad, delta)
                == ComparisonResult::PatchTexture {
                x: delta.pos.unwrap()@[0],
                y: delta.pos.unwrap()@[1],
            }
            &&& !patch_fits(tad.unwrap(), delta) ==> comparison(tad, delta)
                == ComparisonResult::Oob
        },
        tad is Some && delta.pos is Some && tad.unwrap().data is Alpha8 ==> comparison(tad, delta)
            == ComparisonResult::Panic,
        tad is Some && delta.pos is None ==> {
            &&& comparison(tad, delta) == ComparisonResult::ReuseTexture <==> (tad.unwrap().data is Rgba8
                && image_width(delta.image) == tad.unwrap().tex.width && image_height(delta.image)
                == tad.unwrap().tex.height)
            &&& (comparison(tad, delta) == ComparisonResult::ReuseTexture || comparison(tad, delta)
                == ComparisonResult::CreateNewTexture)
        },
{
}

/// Classifies an update against the texture it targets (`None` when there
/// is no texture under its id yet).
pub fn compare_tad_with_delta<H>(tad: Option<&TexAndData<H>>, delta: &ImageDelta) -> (r: ComparisonResult)
    ensures
        r == comparison(tad, *delta),
        tad is None ==> r == ComparisonResult::CreateNewTexture,
        tad is Some && delta.pos is Some && tad.unwrap().data is Rgba8 ==> {
            &&& patch_fits(tad.unwrap(), *delta) ==> r == ComparisonResult::PatchTexture {
                x: delta.pos.unwrap()@[0],
                y: delta.pos.unwrap()@[1],
            }
            &&& !patch_fits(tad.unwrap(), *delta) ==> r == ComparisonResult::Oob
        },
        tad is Some && delta.pos is Some && tad.unwrap().data is Alpha8 ==> r
            == ComparisonResult::Panic,
        tad is Some && delta.pos is None ==> {
            &&& r == ComparisonResult::ReuseTexture <==> (tad.unwrap().data is Rgba8 && image_width(
                delta.image,
            ) == tad.unwrap().tex.width && image_height(delta.image) == tad.unwrap().tex.height)
            &&& (r == ComparisonResult::ReuseTexture || r == ComparisonResult::CreateNewTexture)
        },
{
    proof {
        lemma_compare_classification(tad, *delta);
    }
    let tad = match tad {
        Some(t) => t,
        None => {
            return ComparisonResult::CreateNewTexture;
        },
    };
    let same_data_type = match (&tad.data, &delta.image) {
        (ImgDat::Rgba8(..), ImageData::Color(..)) => true,
        (ImgDat::Alpha8(..), ImageData::Color(..)) => false,
    };
    let dw = delta.image.width();
    let dh = delta.image.height();
    let tw = tad.tex.width as usize;
    let th = tad.tex.height as usize;
    if let Some(pos) = delta.pos {
        let x = pos[0];
        let y = pos[1];
        return if same_data_type {
            if dw > tw || x > tw - dw || dh > th || y > th - dh {
                ComparisonResult::Oob
            } else {
                ComparisonResult::PatchTexture { x, y }
            }
        } else {
            ComparisonResult::Panic
        };
    }
    if same_data_type && dw == tw && dh == th {
        ComparisonResult::ReuseTexture
    } else {
        ComparisonResult::CreateNewTexture
    }
}


/// How many rows a patch writes: as many as both the texels of the patch
/// (`src_len / dw` whole rows) and the texture below row `y`
/// (`target_len / tw` whole rows) have.
pub open spec fn patch_rows(target_len: nat, tw: nat, src_len: nat, dw: nat, y: nat) -> nat {
    let target_rows = target_len / tw;
    let avail: nat = if y < target_rows {
        (target_rows - y) as nat
    } else {
        0
    };
    let src_rows = src_len / dw;
    if avail < src_rows {
        avail
    } else {
        src_rows
    }
}

/// Whether the texel at (`row`, `col`) is written once rows `y..y+k` are
/// done and the first `c` columns of row `y+k`; a patch row covers columns
/// `x..x+dw`.
pub open spec fn patch_covers(row: int, col: int, x: int, y: int, dw: int, k: int, c: int) -> bool {
    ||| (y <= row < y + k && x <= col < x + dw)
    ||| (row == y + k && x <= col < x + c)
}

/// `old` (rows of `tw` texels) after the first `k` rows of the patch `src`
/// (rows of `dw` texels) and the first `c` texels of its next row are
/// written at column `x`, row `y`.
pub open spec fn patched_upto<T>(
    old: Seq<T>,
    src: Seq<T>,
    tw: nat,
    dw: nat,
    x: nat,
    y: nat,
    k: nat,
    c: nat,
) -> Seq<T> {
    Seq::new(
        old.len(),
        |i: int|
            {
                let row = i / (tw as int);
                let col = i % (tw as int);
                if patch_covers(row, col, x as int, y as int, dw as int, k as int, c as int) {
                    src[(row - y) * dw + (col - x)]
                } else {
                    old[i]
                }
            },
    )
}

/// `old` (rows of `tw` texels) with the patch `src` (rows of `dw` texels)
/// written with its top-left corner at column `x`, row `y`; rows of the
/// patch that fall below the texture, and texels past the last whole row,
/// are left out.
pub open spec fn patched<T>(old: Seq<T>, src: Seq<T>, tw: nat, dw: nat, x: nat, y: nat) -> Seq<T> {
    patched_upto(old, src, tw, dw, x, y, patch_rows(old.len(), tw, src.len(), dw, y), 0)
}

/// Row `a` of width `w` lies inside a buffer of `len` items when `a` is
/// below the number of whole rows.
proof fn lemma_row_in_bounds(a: int, w: int, len: int)
    requires
        0 <= a,
        w > 0,
        len >= 0,
        a < len / w,
    ensures
        a * w + w <= len,
{
    vstd::arithmetic::div_mod::lemma_fundamental_div_mod(len, w);
    vstd::arithmetic::div_mod::lemma_mod_pos_bound(len, w);
    assert(a * w + w <= len) by (nonlinear_arith)
        requires
            0 <= a,
            w > 0,
            a + 1 <= len / w,
            len == w * (len / w) + len % w,
            len % w >= 0,
    ;
}

/// An index is determined by its row and column.
proof fn lemma_index_of_row_col(j: int, w: int)
    requires
        w > 0,
    ensures
        j == (j / w) * w + j % w,
{
    vstd::arithmetic::div_mod::lemma_fundamental_div_mod(j, w);
    vstd::arithmetic::mul::lemma_mul_is_commutative(w, j / w);
}

/// Writes the patch `vec` (rows of the update's width) into `to_patch` (rows
/// of the texture's width) with its top-left corner at column `x`, row `y`.
pub fn patch_texture<T: Copy, H>(
    delta: &ImageDelta,
    tex: &Texture<H>,
    vec: Vec<T>,
    to_patch: &mut Vec<T>,
    x: usize,
    y: usize,
)
    requires
        tex.width > 0,
        image_width(delta.image) > 0,
        patch_rows(
            old(to_patch)@.len(),
            tex.width as nat,
            vec@.len(),
            image_width(delta.image),
            y as nat,
        ) == 0 || x + image_width(delta.image) <= tex.width,
    ensures
        final(to_patch)@ == patched(
            old(to_patch)@,
            vec@,
            tex.width as nat,
            image_width(delta.image),
            x as nat,
            y as nat,
        ),
{
    let tw = tex.width as usize;
    let dw = delta.image.width();
    let target_rows = to_patch.len() / tw;
    let avail = if y < target_rows {
        target_rows - y
    } else {
        0
    };
    let src_rows = vec.len() / dw;
    let n = if avail < src_rows {
        avail
    } else {
        src_rows
    };
    let ghost old_seq = to_patch@;
    assert(to_patch@ =~= patched_upto(old_seq, vec@, tw as nat, dw as nat, x as nat, y as nat, 0, 0));
    let mut r: usize = 0;
    while r < n
        invariant
            tw == tex.width,
            tw > 0,
            dw == image_width(delta.image),
            dw > 0,
            n == patch_rows(old_seq.len(), tw as nat, vec@.len(), dw as nat, y as nat),
            n == 0 || x + dw <= tw,
            r <= n,
            to_patch@.len() == old_seq.len(),
            old_seq.len() <= usize::MAX,
            vec@.len() <= usize::MAX,
            to_patch@ == patched_upto(old_seq, vec@, tw as nat, dw as nat, x as nat, y as nat, r as nat, 0),
        decreases n - r,
    {
        let mut c: usize = 0;
        while c < dw
            invariant
                tw > 0,
                dw > 0,
                x + dw <= tw,
                r < n,
                n == patch_rows(old_seq.len(), tw as nat, vec@.len(), dw as nat, y as nat),
                c <= dw,
                to_patch@.len() == old_seq.len(),
                old_seq.len() <= usize::MAX,
                vec@.len() <= usize::MAX,
                to_patch@ == patched_upto(old_seq, vec@, tw as nat, dw as nat, x as nat, y as nat, r as nat, c as nat),
            decreases dw - c,
        {
            proof {
                lemma_row_in_bounds((y + r) as int, tw as int, old_seq.len() as int);
                lemma_row_in_bounds(r as int, dw as int, vec@.len() as int);
                assert((y + r) * tw + tw <= old_seq.len());
                assert(r * dw + dw <= vec@.len());
            }
            let idx = (y + r) * tw + x + c;
            let v = vec[r * dw + c];
            let ghost before = to_patch@;
            to_patch.set(idx, v);
            proof {
                vstd::arithmetic::div_mod::lemma_fundamental_div_mod_converse(
                    idx as int,
                    tw as int,
                    (y + r) as int,
                    (x + c) as int,
                );
                let next = patched_upto(old_seq, vec@, tw as nat, dw as nat, x as nat, y as nat, r as nat, (c + 1) as nat);
                assert forall|j: int| 0 <= j < old_seq.len() implies #[trigger] to_patch@[j] == next[j] by {
                    if j != idx {
                        if j / (tw as int) == y + r && j % (tw as int) == x + c {
                            lemma_index_of_row_col(j, tw as int);
                        }
                    }
                }
                assert(to_patch@ =~= next);
            }
            c = c + 1;
        }
        proof {
            assert(patched_upto(old_seq, vec@, tw as nat, dw as nat, x as nat, y as nat, r as nat, dw as nat)
                =~= patched_upto(old_seq, vec@, tw as nat, dw as nat, x as nat, y as nat, (r + 1) as nat, 0));
        }
        r = r + 1;
    }
}


/// The texel format the GPU is told an update's image has.
pub fn pixel_format_swizzle(x: &ImageData) -> (r: TexFormat)
    ensures
        r == TexFormat::Rgba8,
{
    match x {
        ImageData::Color(..) => TexFormat::Rgba8,
    }
}

/// `n` is a power of two.
pub open spec fn is_pow2(n: nat) -> bool
    decreases n,
{
    if n == 0 {
        false
    } else if n == 1 {
        true
    } else {
        n % 2 == 0 && is_pow2(n / 2)
    }
}

/// A `width` by `height` image can be swizzled: both sides are powers of
/// two and multiples of 8, so the image is a whole number of 8x8 tiles.
pub open spec fn swizzlable(width: nat, height: nat) -> bool {
    &&& is_pow2(width)
    &&& is_pow2(height)
    &&& width % 8 == 0
    &&& height % 8 == 0
}

/// Decides whether `n` is a power of two.
fn check_pow2(n: usize) -> (r: bool)
    ensures
        r == is_pow2(n as nat),
{
    if n == 0 {
        return false;
    }
    let mut m = n;
    while m > 1 && m % 2 == 0
        invariant
            m > 0,
            is_pow2(n as nat) == is_pow2(m as nat),
        decreases m,
    {
        m = m / 2;
    }
    m == 1
}

/// Decides whether a `width` by `height` image can be swizzled.
pub fn check_swizzlable(width: usize, height: usize) -> (r: bool)
    ensures
        r == swizzlable(width as nat, height as nat),
        r == swizzlable(height as nat, width as nat),
{
    proof {
        lemma_swizzlable_symmetric(width as nat, height as nat);
    }
    check_pow2(width) && check_pow2(height) && width % 8 == 0 && height % 8 == 0
}

/// Whether a size can be swizzled does not depend on which side is the
/// width.
pub proof fn lemma_swizzlable_symmetric(width: nat, height: nat)
    ensures
        swizzlable(width, height) == swizzlable(height, width),
{
}

/// Every power of two is one.
pub proof fn lemma_pow2_is_pow2(k: nat)
    ensures
        is_pow2(vstd::arithmetic::power2::pow2(k)),
    decreases k,
{
    if k == 0 {
        vstd::arithmetic::power2::lemma2_to64();
    } else {
        vstd::arithmetic::power2::lemma_pow2_unfold(k);
        vstd::arithmetic::power2::lemma_pow2_pos((k - 1) as nat);
        lemma_pow2_is_pow2((k - 1) as nat);
        let p = vstd::arithmetic::power2::pow2((k - 1) as nat);
        assert((2 * p) / 2 == p);
        assert((2 * p) % 2 == 0);
    }
}

/// Any size whose sides are both powers of two of at least 8 can be
/// swizzled, whichever side is longer.
pub proof fn lemma_pow2_sides_swizzlable(k: nat, m: nat)
    requires
        k >= 3,
        m >= 3,
    ensures
        swizzlable(vstd::arithmetic::power2::pow2(k), vstd::arithmetic::power2::pow2(m)),
{
    lemma_pow2_is_pow2(k);
    lemma_pow2_is_pow2(m);
    vstd::arithmetic::power2::lemma2_to64();
    vstd::arithmetic::power2::lemma_pow2_adds(3, (k - 3) as nat);
    vstd::arithmetic::power2::lemma_pow2_adds(3, (m - 3) as nat);
    let a = vstd::arithmetic::power2::pow2((k - 3) as nat);
    let b = vstd::arithmetic::power2::pow2((m - 3) as nat);
    assert((8 * a) % 8 == 0) by (nonlinear_arith);
    assert((8 * b) % 8 == 0) by (nonlinear_arith);
}

/// Column, inside an 8x8 tile, of the `i`-th texel the GPU reads from the
/// tile: the tile is walked in Morton order, the bits of `i` alternating
/// between column and row, column first.
pub open spec fn tile_col(i: int) -> int {
    i % 2 + 2 * (i / 4 % 2) + 4 * (i / 16 % 2)
}

/// Row, inside an 8x8 tile, of the `i`-th texel the GPU reads from the tile.
pub open spec fn tile_row(i: int) -> int {
    i / 2 % 2 + 2 * (i / 8 % 2) + 4 * (i / 32 % 2)
}

/// Index into the row-major image bytes of the byte that lands at index `o`
/// of the swizzled bytes, for an image `width` texels wide with `bpp` bytes
/// per texel: the 8x8 tiles follow each other row by row, the texels of a
/// tile follow in Morton order, and the bytes of each texel are reversed.
pub open spec fn swizzle_source(o: int, width: nat, bpp: nat) -> int {
    let tile_bytes = 64 * bpp;
    let t = o / (tile_bytes as int);
    let p = o % (tile_bytes as int) / (bpp as int);
    let k = o % (bpp as int);
    let tiles_per_row = (width / 8) as int;
    let x = t % tiles_per_row * 8 + tile_col(p);
    let y = t / tiles_per_row * 8 + tile_row(p);
    (y * width + x) * bpp + (bpp - 1 - k)
}

/// The bytes of a `width` by `height` image of texel format `format` in the
/// 3DS GPU's tiled layout, given the image's row-major bytes.
pub open spec fn swizzled(bytes: Seq<u8>, width: nat, height: nat, format: TexFormat) -> Seq<u8> {
    Seq::new(bytes.len(), |o: int| bytes[swizzle_source(o, width, bytes_per_pixel(format))])
}

/// Calls `swizzle_3ds::swizzle_image` on the image with the given bytes,
/// size and texel format, and returns the bytes of the swizzled image: as
/// the crate's source writes them, 8x8 tiles row by row, the texels of each
/// tile in Morton order (its 64-entry index table), each texel's bytes
/// reversed (`swizzled`). The crate panics unless both sides are powers of
/// two and multiples of 8 and the byte count matches the size.
#[verifier::external_body]
fn swizzle_image(bytes: &[u8], width: usize, height: usize, format: TexFormat) -> (r: Vec<u8>)
    requires
        swizzlable(width as nat, height as nat),
        bytes@.len() == width * height * bytes_per_pixel(format),
    ensures
        r@ == swizzled(bytes@, width as nat, height as nat, format),
        r@.len() == bytes@.len(),
{
    let format = match format {
        TexFormat::Rgba8 => swizzle_3ds::pix::ImageFormat::Rgba8,
        TexFormat::A8 => swizzle_3ds::pix::ImageFormat::Alpha8,
    };
    swizzle_3ds::swizzle_image(&swizzle_3ds::pix::ImageView::new(bytes, width, height, format)).as_raw().to_vec()
}

/// The number of bytes of `data`.
pub open spec fn data_byte_len(data: ImgDat) -> nat {
    match data {
        ImgDat::Rgba8(v) => 4 * v@.len(),
        ImgDat::Alpha8(v) => v@.len(),
    }
}

/// `b` is one of the possible byte layouts of `data` (the byte order of the
/// packed words is the machine's).
pub open spec fn data_bytes(data: ImgDat, b: Seq<u8>) -> bool {
    match data {
        ImgDat::Rgba8(v) => b == word_bytes(v@, true) || b == word_bytes(v@, false),
        ImgDat::Alpha8(v) => b == v@,
    }
}

/// Whether a texture of this size, holding `data`, can be uploaded as an
/// image of the given format: it can be swizzled and `data` has exactly the
/// bytes its size needs.
pub open spec fn uploadable(width: nat, height: nat, data: ImgDat, format: TexFormat) -> bool {
    &&& swizzlable(width, height)
    &&& data_byte_len(data) == width * height * bytes_per_pixel(format)
}

/// Prepares the bytes uploaded to the GPU after `delta` was applied to
/// `tad`: its texels, swizzled at the texture's size. `None` when the
/// texture cannot be uploaded so (its sides are not powers of two of at
/// least 8, or its texels do not match its size).
pub fn swizzle_for_upload<H>(tad: &TexAndData<H>, delta: &ImageDelta) -> (r: Option<Vec<u8>>)
    ensures
        r is Some <==> uploadable(
            tad.tex.width as nat,
            tad.tex.height as nat,
            tad.data,
            TexFormat::Rgba8,
        ),
        r matches Some(v) ==> {
            &&& v@.len() == tad.tex.width * tad.tex.height * 4
            &&& exists|b: Seq<u8>|
                data_bytes(tad.data, b) && v@ == #[trigger] swizzled(
                    b,
                    tad.tex.width as nat,
                    tad.tex.height as nat,
                    TexFormat::Rgba8,
                )
        },
{
    let format = pixel_format_swizzle(&delta.image);
    let w = tad.tex.width as usize;
    let h = tad.tex.height as usize;
    let bytes = tad.data.as_bytes();
    let w64 = tad.tex.width as u64;
    let h64 = tad.tex.height as u64;
    assert(w64 * h64 <= 65535 * 65535) by (nonlinear_arith)
        requires
            w64 <= 65535,
            h64 <= 65535,
    ;
    let need: u64 = w64 * h64 * 4;
    if !check_swizzlable(w, h) || bytes.len() as u64 != need {
        return None;
    }
    let out = swizzle_image(bytes, w, h, format);
    proof {
        assert(data_bytes(tad.data, bytes@));
    }
    Some(out)
}


/// What remains to be done on the GPU after an update was applied.
#[derive(Debug)]
pub enum DeltaAction {
    /// Upload the texels of the entry now in the slot to its texture.
    Upload,
    /// Create a texture of this size, format and mipmapping, pair it with
    /// `data`, put it into the slot in place of what is there, and upload it.
    Create { width: u16, height: u16, format: TexFormat, mipmap: bool, data: ImgDat },
}

/// The texture in `slot`, if any, borrowed.
pub open spec fn slot_ref<H>(slot: &Option<TexAndData<H>>) -> Option<&TexAndData<H>> {
    match slot {
        Some(t) => Some(t),
        None => None,
    }
}

/// The texture format and mipmapping a new texture for `data` gets.
pub open spec fn texture_params(data: ImgDat) -> (TexFormat, bool) {
    match data {
        ImgDat::Rgba8(..) => (TexFormat::Rgba8, false),
        ImgDat::Alpha8(..) => (TexFormat::A8, true),
    }
}

/// The contract of `single_delta` for the texture `old` found under the
/// update's id, the update `delta`, the outcome `r` and the slot's content
/// `new` afterwards.
pub open spec fn single_delta_outcome<H>(
    old: Option<TexAndData<H>>,
    delta: ImageDelta,
    r: DeltaAction,
    new: Option<TexAndData<H>>,
) -> bool {
    match comparison(slot_ref(&old), delta) {
        ComparisonResult::ReuseTexture => {
            &&& r matches DeltaAction::Upload
            &&& new matches Some(t)
            &&& t.tex == old.unwrap().tex
            &&& t.data matches ImgDat::Rgba8(v)
            &&& v@ == delta_texels(delta)
        },
        ComparisonResult::PatchTexture { x, y } => {
            &&& r matches DeltaAction::Upload
            &&& new matches Some(t)
            &&& t.tex == old.unwrap().tex
            &&& t.data matches ImgDat::Rgba8(v)
            &&& old.unwrap().data matches ImgDat::Rgba8(ov)
            &&& v@ == patched(
                ov@,
                delta_texels(delta),
                t.tex.width as nat,
                image_width(delta.image),
                x as nat,
                y as nat,
            )
        },
        ComparisonResult::CreateNewTexture => {
            &&& new == old
            &&& r matches DeltaAction::Create { width, height, format, mipmap, data }
            &&& width == #[verifier::truncate] (image_width(delta.image) as u16)
            &&& height == #[verifier::truncate] (image_height(delta.image) as u16)
            &&& (format, mipmap) == texture_params(data)
            &&& data matches ImgDat::Rgba8(v)
            &&& v@ == delta_texels(delta)
        },
        ComparisonResult::Panic => false,
        ComparisonResult::Oob => false,
    }
}

/// The update `delta` can be applied to the texture `old` found under its
/// id: it is not a patch of a different kind of texels or one reaching past
/// the texture's edge, and a patch is at least one texel wide.
pub open spec fn delta_applicable<H>(old: Option<&TexAndData<H>>, delta: ImageDelta) -> bool {
    match comparison(old, delta) {
        ComparisonResult::Panic => false,
        ComparisonResult::Oob => false,
        ComparisonResult::PatchTexture { .. } => image_width(delta.image) > 0,
        _ => true,
    }
}

/// Applies one texture update to the CPU-side copy of the texture stored
/// under its id (`slot`, `None` when there is none): replaces or patches
/// the texels in place, or describes the new texture that must be created.
/// A patch of the wrong texel kind or reaching past the texture's edge is
/// not applicable (`compare_tad_with_delta` tells `Panic` and `Oob`).
pub fn single_delta<H>(slot: &mut Option<TexAndData<H>>, delta: &ImageDelta) -> (r: DeltaAction)
    requires
        delta_applicable(slot_ref(old(slot)), *delta),
    ensures
        single_delta_outcome(*old(slot), *delta, r, *final(slot)),
{
    let kind = match &*slot {
        Some(t) => compare_tad_with_delta(Some(t), delta),
        None => compare_tad_with_delta::<H>(None, delta),
    };
    match kind {
        ComparisonResult::PatchTexture { x, y } => {
            let new_data = delta_to_data(delta);
            match slot.take() {
                Some(TexAndData { tex, data }) => match (new_data, data) {
                    (ImgDat::Rgba8(vec), ImgDat::Rgba8(mut internal)) => {
                        patch_texture(delta, &tex, vec, &mut internal, x, y);
                        *slot = Some(TexAndData { tex, data: ImgDat::Rgba8(internal) });
                        DeltaAction::Upload
                    },
                    (ImgDat::Alpha8(vec), ImgDat::Alpha8(mut internal)) => {
                        patch_texture(delta, &tex, vec, &mut internal, x, y);
                        *slot = Some(TexAndData { tex, data: ImgDat::Alpha8(internal) });
                        DeltaAction::Upload
                    },
                    _ => vstd::pervasive::unreached(),
                },
                None => vstd::pervasive::unreached(),
            }
        },
        ComparisonResult::ReuseTexture => match slot.take() {
            Some(TexAndData { tex, .. }) => {
                *slot = Some(TexAndData { tex, data: delta_to_data(delta) });
                DeltaAction::Upload
            },
            None => vstd::pervasive::unreached(),
        },
        ComparisonResult::CreateNewTexture => {
            let data = delta_to_data(delta);
            let (format, mipmap) = match &data {
                ImgDat::Rgba8(..) => (TexFormat::Rgba8, false),
                ImgDat::Alpha8(..) => (TexFormat::A8, true),
            };
            DeltaAction::Create {
                width: #[verifier::truncate] (delta.image.width() as u16),
                height: #[verifier::truncate] (delta.image.height() as u16),
                format,
                mipmap,
                data,
            }
        },
        ComparisonResult::Panic => vstd::pervasive::unreached(),
        ComparisonResult::Oob => vstd::pervasive::unreached(),
    }
}


/// A patch that `compare_tad_with_delta` accepts lies inside the texture
/// and targets texels of the same kind; a whole-image update is only
/// applied in place when it has exactly the texture's size.
pub proof fn lemma_accepted_updates_fit<H>(tad: &TexAndData<H>, delta: ImageDelta)
    ensures
        comparison(Some(tad), delta) matches ComparisonResult::PatchTexture { x, y } ==> {
            &&& x + image_width(delta.image) <= tad.tex.width
            &&& y + image_height(delta.image) <= tad.tex.height
            &&& tad.data is Rgba8
        },
        comparison(Some(tad), delta) is ReuseTexture ==> {
            &&& delta.pos is None
            &&& image_width(delta.image) == tad.tex.width
            &&& image_height(delta.image) == tad.tex.height
            &&& tad.data is Rgba8
        },
{
}

/// Patching a texture whose texels fill it (`tw * th`) with a patch whose
/// texels fill it (`dw * dh`), placed inside the texture: every texel of the
/// patch lands at its place, and every texel outside the patch's rectangle
/// keeps its value.
pub proof fn lemma_patch_semantics<T>(
    old: Seq<T>,
    src: Seq<T>,
    tw: nat,
    th: nat,
    dw: nat,
    dh: nat,
    x: nat,
    y: nat,
)
    requires
        tw > 0,
        dw > 0,
        old.len() == tw * th,
        src.len() == dw * dh,
        x + dw <= tw,
        y + dh <= th,
    ensures
        patch_rows(old.len(), tw, src.len(), dw, y) == dh,
        patched(old, src, tw, dw, x, y).len() == old.len(),
        forall|r: int, c: int|
            0 <= r < dh && 0 <= c < dw ==> #[trigger] patched(old, src, tw, dw, x, y)[(y + r) * tw
                + x + c] == src[r * dw + c],
        forall|i: int|
            0 <= i < old.len() && !(y <= i / (tw as int) < y + dh && x <= i % (tw as int) < x
                + dw) ==> #[trigger] patched(old, src, tw, dw, x, y)[i] == old[i],
{
    vstd::arithmetic::div_mod::lemma_div_multiples_vanish(th as int, tw as int);
    vstd::arithmetic::div_mod::lemma_div_multiples_vanish(dh as int, dw as int);
    vstd::arithmetic::mul::lemma_mul_is_commutative(tw as int, th as int);
    vstd::arithmetic::mul::lemma_mul_is_commutative(dw as int, dh as int);
    assert(patch_rows(old.len(), tw, src.len(), dw, y) == dh);
    let p = patched(old, src, tw, dw, x, y);
    assert forall|r: int, c: int| 0 <= r < dh && 0 <= c < dw implies #[trigger] p[(y + r) * tw + x
        + c] == src[r * dw + c] by {
        let i = (y + r) * tw + x + c;
        vstd::arithmetic::div_mod::lemma_fundamental_div_mod_converse(
            i as int,
            tw as int,
            (y + r) as int,
            (x + c) as int,
        );
        assert((y + r) * tw + tw <= tw * th) by (nonlinear_arith)
            requires
                y + r + 1 <= th,
        ;
    }
}

/// The texture entry `t` can be uploaded: it is an RGBA texture, its sides
/// can be swizzled, and its texels fill it exactly, so the uploaded buffer
/// matches the texture's width, height and format.
pub open spec fn entry_uploadable<H>(t: TexAndData<H>) -> bool {
    &&& t.tex.format == TexFormat::Rgba8
    &&& uploadable(t.tex.width as nat, t.tex.height as nat, t.data, t.tex.format)
}

/// The image of an update holds one colour per texel.
pub open spec fn image_wf(delta: ImageDelta) -> bool {
    match delta.image {
        ImageData::Color(c) => c.pixels@.len() == c.size@[0] * c.size@[1],
    }
}

/// Applying updates keeps every stored texture uploadable: when the texture
/// found under an id could be uploaded, and the update's image holds one
/// colour per texel, has sides that can be swizzled and fits a texture's
/// 16-bit size, then the texture stored afterwards (or the one to be
/// created) can be uploaded too.
#[verifier::spinoff_prover]
pub proof fn lemma_single_delta_keeps_uploadable<H>(
    old: Option<TexAndData<H>>,
    delta: ImageDelta,
    r: DeltaAction,
    new: Option<TexAndData<H>>,
)
    requires
        single_delta_outcome(old, delta, r, new),
        old matches Some(t) ==> entry_uploadable(t),
        image_wf(delta),
        swizzlable(image_width(delta.image), image_height(delta.image)),
        image_width(delta.image) <= u16::MAX,
        image_height(delta.image) <= u16::MAX,
    ensures
        new matches Some(t) ==> entry_uploadable(t),
        r matches DeltaAction::Create { width, height, format, mipmap, data } ==> {
            &&& format == TexFormat::Rgba8
            &&& !mipmap
            &&& uploadable(width as nat, height as nat, data, format)
        },
{
    let dw = image_width(delta.image);
    let dh = image_height(delta.image);
    assert(delta_texels(delta).len() == dw * dh);
    assert(4 * (dw * dh) == dw * dh * 4) by (nonlinear_arith);
    match comparison(slot_ref(&old), delta) {
        ComparisonResult::PatchTexture { x, y } => {
            let t = new.unwrap();
            let ot = old.unwrap();
            let ov = ot.data->Rgba8_0;
            let v = t.data->Rgba8_0;
            assert(v@.len() == ov@.len());
            assert(data_byte_len(t.data) == data_byte_len(ot.data));
            assert(t.tex == ot.tex);
        },
        ComparisonResult::ReuseTexture => {
            let t = new.unwrap();
            let ot = old.unwrap();
            assert(t.tex == ot.tex);
            assert(t.tex.width == dw && t.tex.height == dh);
            assert(data_byte_len(t.data) == 4 * (dw * dh));
        },
        ComparisonResult::CreateNewTexture => {
            let width = r->width;
            let height = r->height;
            let data = r->data;
            assert(width as nat == dw);
            assert(height as nat == dh);
            assert(data_byte_len(data) == 4 * (dw * dh));
            assert(new == old);
        },
        _ => {},
    }
}

} // verus!
