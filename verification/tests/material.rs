use std::io::Cursor;

use hallways::gpu::buffer::storage::material_index::{Data, TextureRef, WriteError, MAX_FRAMES};
use hallways::level::manifest::{Manifest, ManifestData, Material, TextureAddressing};
use hallways::level::material::{find_texture_bucket, get_texture_addressing_mode, load, LoadError};

fn png(w: u32, h: u32) -> Vec<u8> {
    let img = image::RgbaImage::from_pixel(w, h, image::Rgba([10, 20, 30, 255]));
    let mut out = Cursor::new(Vec::new());
    img.write_to(&mut out, image::ImageFormat::Png).unwrap();
    out.into_inner()
}

fn mat(frames: &[&str], addressing: Option<TextureAddressing>, style: u8) -> Material<u8> {
    Material { frames: Some(frames.iter().map(|s| s.to_string()).collect()), texture_addressing: addressing, style }
}

fn manifest(materials: Vec<(String, Material<u8>)>, assets: Vec<(String, Vec<u8>)>) -> Manifest<u8> {
    let mut m = Manifest::from_data(ManifestData {
        version: "coco".to_string(),
        model: "m.glb".to_string(),
        collider: None,
        track: None,
        materials,
        portals: Vec::new(),
    })
    .unwrap();
    m.attach_assets(assets);
    m
}

#[test]
fn texture_buckets() {
    assert_eq!(find_texture_bucket(2048, 2048), Some(0));
    assert_eq!(find_texture_bucket(256, 256), Some(3));
    assert_eq!(find_texture_bucket(64, 64), Some(5));
    assert_eq!(find_texture_bucket(64, 128), None);
    assert_eq!(find_texture_bucket(100, 100), None);
}

#[test]
fn addressing_modes() {
    assert_eq!(get_texture_addressing_mode(TextureAddressing::Linear), 0);
    assert_eq!(get_texture_addressing_mode(TextureAddressing::Nearest), 1);
}

#[test]
fn shared_frames_reuse_their_slot() {
    let m = manifest(
        vec![
            ("a".to_string(), mat(&["x.png", "y.png"], None, 7)),
            ("b".to_string(), mat(&["y.png"], Some(TextureAddressing::Nearest), 9)),
        ],
        vec![("x.png".to_string(), png(64, 64)), ("y.png".to_string(), png(128, 128))],
    );
    let materials = vec![m.material("b"), None, m.material("a")];
    let result = load(&m, &materials).unwrap();
    assert_eq!(result.uploads.len(), 2);
    assert_eq!((result.uploads[0].bucket, result.uploads[0].layer), (4, 0));
    assert_eq!((result.uploads[1].bucket, result.uploads[1].layer), (5, 0));
    assert_eq!(result.uploads[0].image.width, 128);
    assert_eq!(result.uploads[0].image.pixels.len(), 128 * 128 * 4);
    let index = &result.material_index;
    let b = index.entry(0).unwrap();
    assert_eq!((b.num_frames, b.offset, b.texture_addressing, b.style), (1, 0, 1, 9));
    assert!(index.entry(1).is_none());
    let a = index.entry(2).unwrap();
    assert_eq!((a.num_frames, a.offset, a.texture_addressing, a.style), (2, 1, 0, 7));
    assert_eq!(index.frame(0), TextureRef { bucket: 4, layer: 0 });
    assert_eq!(index.frame(1), TextureRef { bucket: 5, layer: 0 });
    assert_eq!(index.frame(2), TextureRef { bucket: 4, layer: 0 });
    assert_eq!(index.next_free_frame(), 3);
}

#[test]
fn full_bucket_is_refused() {
    let big = png(2048, 2048);
    let m = manifest(
        vec![("a".to_string(), mat(&["one.png", "two.png"], None, 0))],
        vec![("one.png".to_string(), big.clone()), ("two.png".to_string(), big)],
    );
    let materials = vec![m.material("a")];
    assert!(matches!(
        load(&m, &materials),
        Err(LoadError::TextureBucketFull { width: 2048, height: 2048 })
    ));
}

#[test]
fn unknown_size_and_bad_image() {
    let m = manifest(
        vec![
            ("odd".to_string(), mat(&["odd.png"], None, 0)),
            ("bad".to_string(), mat(&["bad.png"], None, 0)),
        ],
        vec![("odd.png".to_string(), png(100, 50)), ("bad.png".to_string(), vec![1, 2, 3, 4])],
    );
    let materials = vec![m.material("odd")];
    assert!(matches!(load(&m, &materials), Err(LoadError::TextureBucketMissing { width: 100, height: 50 })));
    let materials = vec![m.material("bad")];
    assert!(matches!(load(&m, &materials), Err(LoadError::ImageDecode(_))));
}

#[test]
fn too_many_materials() {
    let m = manifest(vec![("a".to_string(), mat(&[], None, 0))], Vec::new());
    let mut materials = vec![None; 512];
    materials.push(m.material("a"));
    assert!(matches!(
        load(&m, &materials),
        Err(LoadError::MaterialIndex(WriteError::TooManyMaterials))
    ));
    materials.pop();
    materials.push(None);
    materials[511] = m.material("a");
    let result = load(&m, &materials).unwrap();
    assert_eq!(result.material_index.entry(511).unwrap().num_frames, 0);
}

#[test]
fn material_index_writes() {
    let mut d: Data<u8> = Data::create();
    assert_eq!(d.next_free_frame(), 0);
    let refs = vec![TextureRef { bucket: 1, layer: 2 }, TextureRef { bucket: 3, layer: 4 }];
    assert!(d.write(5, 1, &refs, 1).is_ok());
    assert_eq!(d.next_free_frame(), 2);
    assert_eq!(d.frame(1), TextureRef { bucket: 3, layer: 4 });
    assert!(matches!(d.write(512, 1, &refs, 1), Err(WriteError::TooManyMaterials)));
    let many = vec![TextureRef { bucket: 0, layer: 0 }; MAX_FRAMES - 1];
    assert!(matches!(d.write(6, 1, &many, 0), Err(WriteError::TooManyFrames)));
    assert_eq!(d.next_free_frame(), 2);
    assert!(d.write(6, 2, &many[..MAX_FRAMES - 2], 0).is_ok());
    assert_eq!(d.next_free_frame() as usize, MAX_FRAMES);
    assert!(d.write(5, 3, &[], 0).is_ok());
    let e = d.entry(5).unwrap();
    assert_eq!((e.num_frames, e.offset, e.style), (0, MAX_FRAMES as u32, 3));
}
