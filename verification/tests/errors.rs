use hallways::gltf::Error as GltfError;
use hallways::gpu::buffer::storage::material_index::WriteError;
use hallways::gpu::buffer::vertex;
use hallways::level::error::{fetch_error_fmt, LoadError};
use hallways::level::manifest::fetch::Error as FetchError;
use hallways::level::manifest::LoadError as ManifestError;
use hallways::level::material::LoadError as MaterialError;
use hallways::level::model::BuildError;
use hallways::level::portal::geometry::DecodeError;
use hallways::level::portal::LoadError as PortalError;

#[test]
fn fetch_error_reports() {
    let mut s = String::new();
    fetch_error_fmt(&mut s, "level manifest", &FetchError::HTTP("status 404".to_string()));
    assert_eq!(s, "failed to load level manifest: http fetch error (status 404)");
    let mut s = String::from("> ");
    fetch_error_fmt(&mut s, "thing", &FetchError::InvalidScheme);
    assert_eq!(s, "> failed to load thing: invalid URL scheme");
}

#[test]
fn manifest_error_reports() {
    let e = LoadError::Manifest(ManifestError::Fetch(FetchError::IO("no such file".to_string())));
    assert_eq!(e.message(), "failed to load level manifest: io fetch error (no such file)");
    let e = LoadError::Manifest(ManifestError::Fetch(FetchError::URLJoin("empty host".to_string())));
    assert_eq!(e.message(), "failed to load level manifest: URL join error (empty host)");
    let e = LoadError::Manifest(ManifestError::UTF8("bad byte".to_string()));
    assert_eq!(e.message(), "failed to parse level manifest UTF-8: bad byte");
    let e = LoadError::Manifest(ManifestError::Decode("eof".to_string()));
    assert_eq!(e.message(), "failed to decode level manifest JSON: eof");
    assert_eq!(
        LoadError::Manifest(ManifestError::TooManyPortals).message(),
        "failed to parse level manifest: too many portals"
    );
    assert_eq!(
        LoadError::Manifest(ManifestError::InvalidVersion).message(),
        "failed to parse level manifest: invalid manifest version"
    );
}

#[test]
fn mesh_error_reports() {
    assert_eq!(LoadError::Mesh(GltfError::Decode).message(), "failed to load level mesh: GLTF decode error");
    assert_eq!(LoadError::Mesh(GltfError::NoScene).message(), "failed to load level mesh: no scene in GLTF");
    assert_eq!(
        LoadError::Mesh(GltfError::MultipleScenes).message(),
        "failed to load level mesh: multiple scenes in GLTF"
    );
    assert_eq!(
        LoadError::Mesh(GltfError::MeshNotIndexed).message(),
        "failed to load level mesh: mesh is not indexed"
    );
    assert_eq!(
        LoadError::Mesh(GltfError::MaterialUnnamed).message(),
        "failed to load level mesh: material is unnamed"
    );
}

#[test]
fn material_error_reports() {
    assert_eq!(
        LoadError::Material(MaterialError::TextureBucketMissing { width: 100, height: 37 }).message(),
        "failed to load level materials: texture bucket missing for 100x37"
    );
    assert_eq!(
        LoadError::Material(MaterialError::TextureBucketFull { width: 2048, height: 2048 }).message(),
        "failed to load level materials: texture bucket full for 2048x2048"
    );
    assert_eq!(
        LoadError::Material(MaterialError::ImageDecode("unsupported".to_string())).message(),
        "failed to load level materials: image decode error (unsupported)"
    );
    assert_eq!(
        LoadError::Material(MaterialError::MaterialIndex(WriteError::TooManyFrames)).message(),
        "failed to load level materials: material index write error (TooManyFrames)"
    );
    assert_eq!(
        LoadError::Material(MaterialError::MaterialIndex(WriteError::TooManyMaterials)).message(),
        "failed to load level materials: material index write error (TooManyMaterials)"
    );
}

#[test]
fn model_and_portal_error_reports() {
    assert_eq!(
        LoadError::Model(BuildError::MaterialIXMissing).message(),
        "failed to build level model: material index missing on vertex"
    );
    assert_eq!(
        LoadError::Model(BuildError::MaterialConfigMissing).message(),
        "failed to build level model: material config missing for index"
    );
    assert_eq!(
        LoadError::Model(BuildError::Write(vertex::level::WriteError::CapacityExceeded)).message(),
        "failed to build level model: vertex buffer capacity exceeded"
    );
    assert_eq!(
        LoadError::Portal(PortalError::UrlJoin("relative URL without a base".to_string())).message(),
        "failed to load level portals: URL join error (relative URL without a base)"
    );
    assert_eq!(
        LoadError::Portal(PortalError::Gltf(GltfError::NoScene)).message(),
        "failed to load level portals: GLTF decode error (NoScene)"
    );
    assert_eq!(
        LoadError::Portal(PortalError::Geometry(DecodeError::TiltedPortal)).message(),
        "failed to load level portals: portal geometry decode error (TiltedPortal)"
    );
    assert_eq!(
        LoadError::Portal(PortalError::Write(vertex::portal::WriteError::CapacityExceeded)).message(),
        "failed to load level portals: vertex buffer capacity exceeded"
    );
    assert_eq!(
        LoadError::Track("end of stream".to_string()).message(),
        "failed to load level track: decode error (end of stream)"
    );
}

#[test]
fn every_report_starts_alike_and_bare_errors_differ() {
    let bare = vec![
        LoadError::Manifest(ManifestError::TooManyPortals),
        LoadError::Manifest(ManifestError::InvalidVersion),
        LoadError::Mesh(GltfError::Decode),
        LoadError::Mesh(GltfError::NoScene),
        LoadError::Mesh(GltfError::MeshNotIndexed),
        LoadError::Mesh(GltfError::MaterialUnnamed),
    ];
    let texts: Vec<String> = bare.iter().map(|e| e.message()).collect();
    for (i, t) in texts.iter().enumerate() {
        assert!(t.starts_with("failed to "));
        for u in &texts[i + 1..] {
            assert_ne!(t, u);
        }
    }
}
