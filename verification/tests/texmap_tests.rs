use egui3ds::image::{
    Color32, ColorImage, ImageData, ImageDelta, TextureFilter, TextureOptions, TextureWrapMode,
};
use egui3ds::texdelta::DeltaAction;
use egui3ds::texmap::{TexId, TexMap};
use egui3ds::texture::{TexFormat, Texture};
use egui3ds::{ImgDat, TexAndData};

fn entry(handle: u32, texels: Vec<u32>) -> TexAndData<u32> {
    TexAndData {
        tex: Texture { internal: handle, width: 2, height: 1, format: TexFormat::Rgba8, mipmap: false },
        data: ImgDat::Rgba8(texels),
    }
}

fn words(t: &TexAndData<u32>) -> Vec<u32> {
    match &t.data {
        ImgDat::Rgba8(v) => v.clone(),
        ImgDat::Alpha8(_) => panic!("expected RGBA texels"),
    }
}

fn whole(v: u8) -> ImageDelta {
    ImageDelta {
        image: ImageData::Color(ColorImage {
            size: [2, 1],
            pixels: vec![Color32 { r: v, g: 0, b: 0, a: 0 }; 2],
        }),
        options: TextureOptions {
            magnification: TextureFilter::Linear,
            minification: TextureFilter::Linear,
            wrap_mode: TextureWrapMode::Repeat,
        },
        pos: None,
    }
}

#[test]
fn managed_and_user_ids_are_distinct() {
    let mut m: TexMap<u32> = TexMap::new();
    assert!(m.put(TexId::Managed(3), entry(1, vec![1, 1])).is_none());
    assert!(m.put(TexId::User(3), entry(2, vec![2, 2])).is_none());
    assert_eq!(m.get(TexId::Managed(3)).unwrap().tex.internal, 1);
    assert_eq!(m.get(TexId::User(3)).unwrap().tex.internal, 2);
    let old = m.put(TexId::User(3), entry(5, vec![5, 5])).unwrap();
    assert_eq!(old.tex.internal, 2);
    assert!(m.get(TexId::Managed(4)).is_none());
}

#[test]
fn take_removes_only_its_entry() {
    let mut m: TexMap<u32> = TexMap::new();
    m.put(TexId::Managed(0), entry(1, vec![0, 0]));
    m.put(TexId::Managed(1), entry(2, vec![0, 0]));
    assert_eq!(m.take(TexId::Managed(0)).unwrap().tex.internal, 1);
    assert!(m.take(TexId::Managed(0)).is_none());
    assert!(m.get(TexId::Managed(1)).is_some());
}

#[test]
fn an_update_changes_only_its_own_entry() {
    let mut m: TexMap<u32> = TexMap::new();
    m.put(TexId::Managed(0), entry(1, vec![0, 0]));
    m.put(TexId::User(0), entry(2, vec![9, 9]));
    assert!(matches!(m.apply_delta(TexId::Managed(0), &whole(7)), DeltaAction::Upload));
    assert_eq!(words(m.get(TexId::Managed(0)).unwrap()), vec![7, 7]);
    assert_eq!(words(m.get(TexId::User(0)).unwrap()), vec![9, 9]);
    // A new texture is only described; the map keeps what it had.
    assert!(matches!(m.apply_delta(TexId::Managed(5), &whole(1)), DeltaAction::Create { .. }));
    assert!(m.get(TexId::Managed(5)).is_none());
}

#[test]
fn free_removes_the_listed_ids() {
    let mut m: TexMap<u32> = TexMap::new();
    for k in 0..4 {
        m.put(TexId::Managed(k), entry(k as u32, vec![0, 0]));
    }
    m.free(&vec![TexId::Managed(1), TexId::Managed(3), TexId::User(1), TexId::Managed(1)]);
    assert!(m.get(TexId::Managed(0)).is_some());
    assert!(m.get(TexId::Managed(1)).is_none());
    assert!(m.get(TexId::Managed(2)).is_some());
    assert!(m.get(TexId::Managed(3)).is_none());
}
