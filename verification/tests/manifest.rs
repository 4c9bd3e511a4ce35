use hallways::level::manifest::fetch::{resolve, Error as FetchError, Source};
use hallways::level::manifest::{
    LoadError, Manifest, ManifestData, Material, Portal, Target, TextureAddressing,
};
use hallways::level::{build_material_index, collider_href};
use hallways::util::url::LevelUrl;

fn material(frames: &[&str]) -> Material<u8> {
    Material {
        frames: Some(frames.iter().map(|s| s.to_string()).collect()),
        texture_addressing: None,
        style: 0,
    }
}

fn data(version: &str, portals: usize) -> ManifestData<u8> {
    ManifestData {
        version: version.to_string(),
        model: "model.glb".to_string(),
        collider: Some("collider.glb".to_string()),
        track: None,
        materials: vec![
            ("wall".to_string(), material(&["a.png", "b.png"])),
            ("floor".to_string(), material(&["b.png", "model.glb"])),
        ],
        portals: (0..portals)
            .map(|i| {
                (
                    format!("p{i}"),
                    Portal {
                        collider: if i == 0 { "portal.glb".to_string() } else { "collider.glb".to_string() },
                        target: Some(Target { href: "../next/".to_string(), name: "p0".to_string() }),
                    },
                )
            })
            .collect(),
    }
}

#[test]
fn version_is_checked_first() {
    assert!(matches!(Manifest::from_data(data("v2", 9)), Err(LoadError::InvalidVersion)));
}

#[test]
fn too_many_portals() {
    assert!(matches!(Manifest::from_data(data("coco", 5)), Err(LoadError::TooManyPortals)));
    assert!(Manifest::from_data(data("coco", 4)).is_ok());
}

#[test]
fn asset_hrefs_are_listed_once_in_order() {
    let m = Manifest::from_data(data("coco", 2)).unwrap();
    let hrefs = m.asset_hrefs();
    assert_eq!(hrefs, vec!["model.glb", "collider.glb", "portal.glb", "a.png", "b.png"]);
}

#[test]
fn assets_lookup() {
    let mut m = Manifest::from_data(data("coco", 1)).unwrap();
    assert_eq!(m.asset("model.glb"), None);
    m.attach_assets(vec![("model.glb".to_string(), vec![1, 2, 3]), ("a.png".to_string(), vec![9])]);
    assert_eq!(m.asset("model.glb"), Some(&[1u8, 2, 3][..]));
    assert_eq!(m.asset("a.png"), Some(&[9u8][..]));
    assert_eq!(m.asset("b.png"), None);
    assert_eq!(m.model, "model.glb");
}

#[test]
fn materials_and_collider() {
    let mut d = data("coco", 0);
    d.materials[1].1.texture_addressing = Some(TextureAddressing::Nearest);
    let m = Manifest::from_data(d).unwrap();
    assert!(m.material("floor").is_some());
    assert_eq!(m.material("floor").unwrap().texture_addressing, Some(TextureAddressing::Nearest));
    assert!(m.material("ceiling").is_none());
    assert_eq!(m.materials().len(), 2);
    assert_eq!(m.portals().len(), 0);
    let names = vec!["floor".to_string(), "glass".to_string(), "wall".to_string()];
    let index = build_material_index(&m, &names);
    assert_eq!(index.len(), 3);
    assert_eq!(index[0].unwrap().frames.as_ref().unwrap()[1], "model.glb");
    assert!(index[1].is_none());
    assert_eq!(index[2].unwrap().frames.as_ref().unwrap()[0], "a.png");
    assert_eq!(collider_href(&m), "collider.glb");
    let mut d = data("coco", 0);
    d.collider = None;
    let m = Manifest::from_data(d).unwrap();
    assert_eq!(collider_href(&m), "model.glb");
}

#[test]
fn fetch_sources() {
    let base = LevelUrl::parse("https://example.com/levels/one/").unwrap();
    match resolve(&base, "mesh.glb") {
        Ok(Source::Http(u)) => assert_eq!(u.as_str(), "https://example.com/levels/one/mesh.glb"),
        _ => panic!("expected an http source"),
    }
    match resolve(&base, "../two/") {
        Ok(Source::Http(u)) => assert_eq!(u.as_str(), "https://example.com/levels/two/"),
        _ => panic!("expected an http source"),
    }
    let base = LevelUrl::parse("file:///tmp/level/level.json").unwrap();
    match resolve(&base, "model.glb") {
        Ok(Source::File(u)) => assert_eq!(u.as_str(), "file:///tmp/level/model.glb"),
        _ => panic!("expected a file source"),
    }
    match resolve(&base, "") {
        Ok(Source::File(u)) => assert_eq!(u.as_str(), "file:///tmp/level/level.json"),
        _ => panic!("expected a file source"),
    }
    let base = LevelUrl::parse("ftp://example.com/level/").unwrap();
    assert!(matches!(resolve(&base, "model.glb"), Err(FetchError::InvalidScheme)));
    let base = LevelUrl::parse("https://example.com/").unwrap();
    assert!(matches!(resolve(&base, "http://[::1"), Err(FetchError::URLJoin(_))));
}

#[test]
fn url_parse_and_scheme() {
    let u = LevelUrl::parse("HTTPS://Example.com").unwrap();
    assert_eq!(u.as_str(), "https://example.com/");
    assert_eq!(u.scheme(), "https");
    assert_eq!(u.duplicate().as_str(), "https://example.com/");
    assert!(LevelUrl::parse("not a url").is_err());
    assert_eq!(u.join("a/b").unwrap().as_str(), "https://example.com/a/b");
}
