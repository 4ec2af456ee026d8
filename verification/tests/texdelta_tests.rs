use egui3ds::image::{
    Color32, ColorImage, ImageData, ImageDelta, TextureFilter, TextureOptions, TextureWrapMode,
};
use egui3ds::texdelta::{
    check_swizzlable, compare_tad_with_delta, convert_color32_to_rgba8, delta_to_data,
    patch_texture, pixel_format_swizzle, single_delta, swizzle_for_upload, ComparisonResult,
    DeltaAction,
};
use egui3ds::texture::{TexFormat, Texture};
use egui3ds::{ImgDat, TexAndData, TexEnvKind};

fn opts() -> TextureOptions {
    TextureOptions {
        magnification: TextureFilter::Linear,
        minification: TextureFilter::Nearest,
        wrap_mode: TextureWrapMode::ClampToEdge,
    }
}

fn grey(v: u8) -> Color32 {
    Color32 { r: v, g: v, b: v, a: 255 }
}

fn delta(w: usize, h: usize, first: u8, pos: Option<[usize; 2]>) -> ImageDelta {
    let pixels = (0..w * h).map(|i| grey(first.wrapping_add(i as u8))).collect();
    ImageDelta {
        image: ImageData::Color(ColorImage { size: [w, h], pixels }),
        options: opts(),
        pos,
    }
}

fn tex(w: u16, h: u16) -> Texture<u32> {
    Texture { internal: 7, width: w, height: h, format: TexFormat::Rgba8, mipmap: false }
}

fn tad(w: u16, h: u16, data: ImgDat) -> TexAndData<u32> {
    TexAndData { tex: tex(w, h), data }
}

fn word(v: u8) -> u32 {
    u32::from_le_bytes([v, v, v, 255])
}

#[test]
fn packs_red_in_low_byte() {
    let w = convert_color32_to_rgba8(&vec![Color32 { r: 1, g: 2, b: 3, a: 4 }, grey(0)]);
    assert_eq!(w, vec![0x0403_0201, 0xFF00_0000]);
    assert_eq!(w[0].to_le_bytes(), [1, 2, 3, 4]);
}

#[test]
fn delta_data_is_rgba8_words() {
    match delta_to_data(&delta(2, 1, 10, None)) {
        ImgDat::Rgba8(v) => assert_eq!(v, vec![word(10), word(11)]),
        ImgDat::Alpha8(_) => panic!("colour images become RGBA words"),
    }
    assert_eq!(pixel_format_swizzle(&delta(1, 1, 0, None).image), TexFormat::Rgba8);
}

#[test]
fn as_bytes_lays_out_words() {
    let d = ImgDat::Rgba8(vec![0x0403_0201, 0x0807_0605]);
    let b = d.as_bytes();
    assert_eq!(b.len(), 8);
    let le = [1u8, 2, 3, 4, 5, 6, 7, 8];
    let be = [4u8, 3, 2, 1, 8, 7, 6, 5];
    assert!(b == le || b == be);
    let a = ImgDat::Alpha8(vec![9, 8, 7]);
    assert_eq!(a.as_bytes(), &[9, 8, 7]);
}

#[test]
fn texenv_follows_texel_kind() {
    assert_eq!(ImgDat::Rgba8(vec![]).texenv(), TexEnvKind::Rgba8);
    assert_eq!(ImgDat::Alpha8(vec![]).texenv(), TexEnvKind::Font);
}

#[test]
fn compare_covers_every_case() {
    let t = tad(4, 4, ImgDat::Rgba8(vec![0; 16]));
    let a = tad(4, 4, ImgDat::Alpha8(vec![0; 16]));
    assert_eq!(compare_tad_with_delta::<u32>(None, &delta(4, 4, 0, None)), ComparisonResult::CreateNewTexture);
    assert_eq!(compare_tad_with_delta(Some(&t), &delta(4, 4, 0, None)), ComparisonResult::ReuseTexture);
    assert_eq!(compare_tad_with_delta(Some(&t), &delta(8, 4, 0, None)), ComparisonResult::CreateNewTexture);
    assert_eq!(compare_tad_with_delta(Some(&a), &delta(4, 4, 0, None)), ComparisonResult::CreateNewTexture);
    assert_eq!(
        compare_tad_with_delta(Some(&t), &delta(2, 2, 0, Some([2, 1]))),
        ComparisonResult::PatchTexture { x: 2, y: 1 }
    );
    assert_eq!(compare_tad_with_delta(Some(&t), &delta(2, 2, 0, Some([3, 0]))), ComparisonResult::Oob);
    assert_eq!(compare_tad_with_delta(Some(&t), &delta(2, 2, 0, Some([0, 3]))), ComparisonResult::Oob);
    assert_eq!(
        compare_tad_with_delta(Some(&t), &delta(1, 1, 0, Some([usize::MAX, 0]))),
        ComparisonResult::Oob
    );
    assert_eq!(compare_tad_with_delta(Some(&a), &delta(2, 2, 0, Some([0, 0]))), ComparisonResult::Panic);
}

#[test]
fn patch_writes_the_rectangle_only() {
    let mut target: Vec<u32> = (0..16).collect();
    let src: Vec<u32> = vec![100, 101, 102, 103];
    patch_texture(&delta(2, 2, 0, None), &tex(4, 4), src, &mut target, 1, 2);
    assert_eq!(
        target,
        vec![0, 1, 2, 3, 4, 5, 6, 7, 8, 100, 101, 11, 12, 102, 103, 15]
    );
}

#[test]
fn patch_drops_rows_past_the_bottom() {
    let mut target: Vec<u8> = vec![0; 6];
    patch_texture(&delta(1, 3, 0, None), &tex(2, 3), vec![7, 8, 9], &mut target, 1, 1);
    assert_eq!(target, vec![0, 0, 0, 7, 0, 8]);
}

#[test]
fn full_patch_equals_replacement() {
    let mut target: Vec<u32> = vec![5; 4];
    patch_texture(&delta(2, 2, 0, None), &tex(2, 2), vec![1, 2, 3, 4], &mut target, 0, 0);
    assert_eq!(target, vec![1, 2, 3, 4]);
}

#[test]
fn single_delta_creates_new_texture() {
    let mut slot: Option<TexAndData<u32>> = None;
    match single_delta(&mut slot, &delta(8, 8, 0, None)) {
        DeltaAction::Create { width, height, format, mipmap, data } => {
            assert_eq!((width, height, format, mipmap), (8, 8, TexFormat::Rgba8, false));
            match data {
                ImgDat::Rgba8(v) => assert_eq!(v.len(), 64),
                ImgDat::Alpha8(_) => panic!("expected RGBA texels"),
            }
        }
        _ => panic!("expected a new texture"),
    }
    assert!(slot.is_none());
}

#[test]
fn single_delta_reuses_same_size_texture() {
    let mut slot = Some(tad(2, 1, ImgDat::Rgba8(vec![0, 0])));
    assert!(matches!(single_delta(&mut slot, &delta(2, 1, 3, None)), DeltaAction::Upload));
    let t = slot.unwrap();
    assert_eq!(t.tex.internal, 7);
    match t.data {
        ImgDat::Rgba8(v) => assert_eq!(v, vec![word(3), word(4)]),
        ImgDat::Alpha8(_) => panic!(),
    }
}

#[test]
fn single_delta_patches_in_place() {
    let mut slot = Some(tad(2, 2, ImgDat::Rgba8(vec![1, 2, 3, 4])));
    assert!(matches!(single_delta(&mut slot, &delta(1, 1, 9, Some([1, 1]))), DeltaAction::Upload));
    match slot.unwrap().data {
        ImgDat::Rgba8(v) => assert_eq!(v, vec![1, 2, 3, word(9)]),
        ImgDat::Alpha8(_) => panic!(),
    }
}

#[test]
fn bad_patches_are_classified_before_applying() {
    let t = tad(2, 2, ImgDat::Rgba8(vec![1, 2, 3, 4]));
    assert_eq!(compare_tad_with_delta(Some(&t), &delta(2, 1, 0, Some([1, 0]))), ComparisonResult::Oob);
    let a = tad(2, 2, ImgDat::Alpha8(vec![0; 4]));
    assert_eq!(compare_tad_with_delta(Some(&a), &delta(1, 1, 0, Some([0, 0]))), ComparisonResult::Panic);
}

#[test]
fn single_delta_truncates_sizes_to_sixteen_bits() {
    let d = ImageDelta {
        image: ImageData::Color(ColorImage { size: [65537, 0], pixels: vec![] }),
        options: opts(),
        pos: None,
    };
    let mut slot: Option<TexAndData<u32>> = None;
    match single_delta(&mut slot, &d) {
        DeltaAction::Create { width, height, .. } => assert_eq!((width, height), (1, 0)),
        _ => panic!(),
    }
}

#[test]
fn swizzle_checks() {
    assert!(check_swizzlable(8, 8));
    assert!(check_swizzlable(64, 1024));
    assert!(!check_swizzlable(4, 8));
    assert!(!check_swizzlable(24, 8));
    assert!(!check_swizzlable(0, 8));
    assert!(!check_swizzlable(8, 12));
}

#[test]
fn upload_bytes_are_swizzled() {
    let words: Vec<u32> = (0..64u32).map(|i| u32::from_le_bytes([i as u8, 0, 0, 0])).collect();
    let t = tad(8, 8, ImgDat::Rgba8(words));
    let d = delta(8, 8, 0, None);
    let out = swizzle_for_upload(&t, &d).expect("8x8 can be swizzled");
    assert_eq!(out.len(), 256);
    assert_ne!(out.as_slice(), t.data.as_bytes());
    // The tile order puts texel 8 (second row) at position 2; each texel's
    // bytes are reversed, so its red byte comes last.
    assert_eq!(&out[0..4], &[0, 0, 0, 0]);
    assert_eq!(&out[4..8], &[0, 0, 0, 1]);
    assert_eq!(&out[8..12], &[0, 0, 0, 8]);
}

#[test]
fn upload_refuses_mismatched_textures() {
    let d = delta(8, 8, 0, None);
    assert!(swizzle_for_upload(&tad(8, 8, ImgDat::Rgba8(vec![0; 63])), &d).is_none());
    assert!(swizzle_for_upload(&tad(12, 8, ImgDat::Rgba8(vec![0; 96])), &d).is_none());
    assert!(swizzle_for_upload(&tad(4, 4, ImgDat::Rgba8(vec![0; 16])), &d).is_none());
}

#[test]
fn textures_stay_uploadable_across_updates() {
    let mut slot: Option<TexAndData<u32>> = None;
    let first = delta(8, 16, 0, None);
    let created = match single_delta(&mut slot, &first) {
        DeltaAction::Create { width, height, format, mipmap, data } => TexAndData {
            tex: Texture { internal: 1, width, height, format, mipmap },
            data,
        },
        _ => panic!("expected a new texture"),
    };
    assert_eq!(swizzle_for_upload(&created, &first).map(|v| v.len()), Some(8 * 16 * 4));
    slot = Some(created);
    let patch = delta(8, 8, 3, Some([0, 8]));
    assert!(matches!(single_delta(&mut slot, &patch), DeltaAction::Upload));
    assert!(swizzle_for_upload(slot.as_ref().unwrap(), &patch).is_some());
    let whole = delta(8, 16, 5, None);
    assert!(matches!(single_delta(&mut slot, &whole), DeltaAction::Upload));
    assert_eq!(slot.as_ref().unwrap().tex.internal, 1);
    assert!(swizzle_for_upload(slot.as_ref().unwrap(), &whole).is_some());
}

fn tile_col(i: usize) -> usize {
    i % 2 + 2 * (i / 4 % 2) + 4 * (i / 16 % 2)
}

fn tile_row(i: usize) -> usize {
    i / 2 % 2 + 2 * (i / 8 % 2) + 4 * (i / 32 % 2)
}

#[test]
fn swizzle_layout_matches_tiles_morton_order_and_byte_reversal() {
    let (w, h) = (16usize, 16usize);
    let words: Vec<u32> = (0..w * h).map(|i| u32::from_le_bytes([i as u8, 1, 2, 3])).collect();
    let t = tad(w as u16, h as u16, ImgDat::Rgba8(words));
    let out = swizzle_for_upload(&t, &delta(w, h, 0, None)).unwrap();
    let bytes = t.data.as_bytes();
    assert_eq!(out.len(), bytes.len());
    for o in 0..out.len() {
        let tile = o / 256;
        let p = o % 256 / 4;
        let k = o % 4;
        let x = tile % (w / 8) * 8 + tile_col(p);
        let y = tile / (w / 8) * 8 + tile_row(p);
        assert_eq!(out[o], bytes[(y * w + x) * 4 + (3 - k)], "byte {o}");
    }
}
