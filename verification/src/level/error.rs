use vstd::prelude::*;
use crate::gltf::Error as GltfError;
use crate::gpu::buffer::storage::material_index;
use crate::gpu::buffer::vertex;
use crate::level::manifest;
use crate::level::manifest::fetch::Error as FetchError;
use crate::level::material;
use crate::level::model::BuildError;
use crate::level::portal;
use crate::util::strings::{decimal, push_decimal};

verus! {

/// Why a level could not be loaded; `Track` holds the text of the audio decode
/// error.
#[derive(Debug)]
pub enum LoadError {
    Manifest(manifest::LoadError),
    Mesh(GltfError),
    Material(material::LoadError),
    Model(BuildError),
    Portal(portal::LoadError),
    Track(String),
}

/// The variant name of a material index write error, as `{:?}` prints it.
pub open spec fn write_error_text(e: material_index::WriteError) -> Seq<char> {
    match e {
        material_index::WriteError::TooManyMaterials => "TooManyMaterials"@,
        material_index::WriteError::TooManyFrames => "TooManyFrames"@,
    }
}

fn write_error_name(e: material_index::WriteError) -> (res: &'static str)
    ensures
        res@ == write_error_text(e),
{
    match e {
        material_index::WriteError::TooManyMaterials => "TooManyMaterials",
        material_index::WriteError::TooManyFrames => "TooManyFrames",
    }
}

/// What follows "failed to " in the report of a failed asset fetch while
/// loading `context`.
pub open spec fn fetch_error_detail(context: Seq<char>, err: FetchError) -> Seq<char> {
    match err {
        FetchError::HTTP(e) => "load "@ + context + ": http fetch error ("@ + e@ + ")"@,
        FetchError::IO(e) => "load "@ + context + ": io fetch error ("@ + e@ + ")"@,
        FetchError::URLJoin(e) => "load "@ + context + ": URL join error ("@ + e@ + ")"@,
        FetchError::InvalidScheme => "load "@ + context + ": invalid URL scheme"@,
    }
}

/// The report of a failed asset fetch while loading `context`.
pub open spec fn fetch_error_text(context: Seq<char>, err: FetchError) -> Seq<char> {
    "failed to "@ + fetch_error_detail(context, err)
}

/// What follows "failed to " in the report of a failed level load.
pub open spec fn load_error_detail(err: LoadError) -> Seq<char> {
    match err {
        LoadError::Manifest(e) => match e {
            manifest::LoadError::Fetch(f) => fetch_error_detail("level manifest"@, f),
            manifest::LoadError::UTF8(m) => "parse level manifest UTF-8: "@ + m@,
            manifest::LoadError::Decode(m) => "decode level manifest JSON: "@ + m@,
            manifest::LoadError::TooManyPortals => "parse level manifest: too many portals"@,
            manifest::LoadError::InvalidVersion => "parse level manifest: invalid manifest version"@,
        },
        LoadError::Mesh(g) => match g {
            GltfError::Decode => "load level mesh: GLTF decode error"@,
            GltfError::NoScene => "load level mesh: no scene in GLTF"@,
            GltfError::MultipleScenes => "load level mesh: multiple scenes in GLTF"@,
            GltfError::MeshNotIndexed => "load level mesh: mesh is not indexed"@,
            GltfError::MaterialUnnamed => "load level mesh: material is unnamed"@,
        },
        LoadError::Material(e) => match e {
            material::LoadError::ImageDecode(m) =>
                "load level materials: image decode error ("@ + m@ + ")"@,
            material::LoadError::TextureBucketMissing { width, height } =>
                "load level materials: texture bucket missing for "@ + decimal(width as nat) + "x"@
                    + decimal(height as nat),
            material::LoadError::TextureBucketFull { width, height } =>
                "load level materials: texture bucket full for "@ + decimal(width as nat) + "x"@
                    + decimal(height as nat),
            material::LoadError::MaterialIndex(w) =>
                "load level materials: material index write error ("@ + write_error_text(w) + ")"@,
        },
        LoadError::Model(e) => match e {
            BuildError::MaterialIXMissing => "build level model: material index missing on vertex"@,
            BuildError::MaterialConfigMissing => "build level model: material config missing for index"@,
            BuildError::Write(vertex::level::WriteError::CapacityExceeded) =>
                "build level model: vertex buffer capacity exceeded"@,
        },
        LoadError::Portal(e) => match e {
            portal::LoadError::UrlJoin(m) => "load level portals: URL join error ("@ + m@ + ")"@,
            portal::LoadError::Gltf(g) => "load level portals: GLTF decode error ("@ + g.debug_text() + ")"@,
            portal::LoadError::Geometry(d) =>
                "load level portals: portal geometry decode error ("@ + d.debug_text() + ")"@,
            portal::LoadError::Write(vertex::portal::WriteError::CapacityExceeded) =>
                "load level portals: vertex buffer capacity exceeded"@,
        },
        LoadError::Track(m) => "load level track: decode error ("@ + m@ + ")"@,
    }
}

/// The report of a failed level load, as the load screen shows it.
pub open spec fn load_error_text(err: LoadError) -> Seq<char> {
    "failed to "@ + load_error_detail(err)
}

fn push_fetch_detail(f: &mut String, context: &str, err: &FetchError)
    ensures
        final(f)@ == old(f)@ + fetch_error_detail(context@, *err),
{
    let ghost start = f@;
    f.append("load ");
    f.append(context);
    match err {
        FetchError::HTTP(e) => append3(f, ": http fetch error (", e.as_str(), ")"),
        FetchError::IO(e) => append3(f, ": io fetch error (", e.as_str(), ")"),
        FetchError::URLJoin(e) => append3(f, ": URL join error (", e.as_str(), ")"),
        FetchError::InvalidScheme => f.append(": invalid URL scheme"),
    }
    assert(f@ =~= start + fetch_error_detail(context@, *err));
}

/// Appends the report of a failed asset fetch while loading `context`.
pub fn fetch_error_fmt(f: &mut String, context: &str, err: &FetchError)
    ensures
        final(f)@ == old(f)@ + fetch_error_text(context@, *err),
{
    let ghost start = f@;
    f.append("failed to ");
    push_fetch_detail(f, context, err);
    assert(f@ =~= start + fetch_error_text(context@, *err));
}

fn append2(f: &mut String, a: &str, b: &str)
    ensures
        final(f)@ == old(f)@ + a@ + b@,
{
    f.append(a);
    f.append(b);
}

fn append3(f: &mut String, a: &str, b: &str, c: &str)
    ensures
        final(f)@ == old(f)@ + a@ + b@ + c@,
{
    f.append(a);
    f.append(b);
    f.append(c);
}

fn append_size(f: &mut String, a: &str, width: u32, height: u32)
    ensures
        final(f)@ == old(f)@ + a@ + decimal(width as nat) + "x"@ + decimal(height as nat),
{
    f.append(a);
    push_decimal(f, width);
    f.append("x");
    push_decimal(f, height);
}

fn push_detail(f: &mut String, err: &LoadError)
    ensures
        final(f)@ == old(f)@ + load_error_detail(*err),
{
    let ghost start = f@;
    match err {
        LoadError::Manifest(e) => match e {
            manifest::LoadError::Fetch(fe) => push_fetch_detail(f, "level manifest", fe),
            manifest::LoadError::UTF8(m) => append2(f, "parse level manifest UTF-8: ", m.as_str()),
            manifest::LoadError::Decode(m) => append2(f, "decode level manifest JSON: ", m.as_str()),
            manifest::LoadError::TooManyPortals => f.append("parse level manifest: too many portals"),
            manifest::LoadError::InvalidVersion => f.append("parse level manifest: invalid manifest version"),
        },
        LoadError::Mesh(g) => match g {
            GltfError::Decode => f.append("load level mesh: GLTF decode error"),
            GltfError::NoScene => f.append("load level mesh: no scene in GLTF"),
            GltfError::MultipleScenes => f.append("load level mesh: multiple scenes in GLTF"),
            GltfError::MeshNotIndexed => f.append("load level mesh: mesh is not indexed"),
            GltfError::MaterialUnnamed => f.append("load level mesh: material is unnamed"),
        },
        LoadError::Material(e) => match e {
            material::LoadError::ImageDecode(m) =>
                append3(f, "load level materials: image decode error (", m.as_str(), ")"),
            material::LoadError::TextureBucketMissing { width, height } =>
                append_size(f, "load level materials: texture bucket missing for ", *width, *height),
            material::LoadError::TextureBucketFull { width, height } =>
                append_size(f, "load level materials: texture bucket full for ", *width, *height),
            material::LoadError::MaterialIndex(w) =>
                append3(f, "load level materials: material index write error (", write_error_name(*w), ")"),
        },
        LoadError::Model(e) => match e {
            BuildError::MaterialIXMissing => f.append("build level model: material index missing on vertex"),
            BuildError::MaterialConfigMissing => f.append("build level model: material config missing for index"),
            BuildError::Write(vertex::level::WriteError::CapacityExceeded) =>
                f.append("build level model: vertex buffer capacity exceeded"),
        },
        LoadError::Portal(e) => match e {
            portal::LoadError::UrlJoin(m) => append3(f, "load level portals: URL join error (", m.as_str(), ")"),
            portal::LoadError::Gltf(g) =>
                append3(f, "load level portals: GLTF decode error (", g.debug_name(), ")"),
            portal::LoadError::Geometry(d) =>
                append3(f, "load level portals: portal geometry decode error (", d.debug_name(), ")"),
            portal::LoadError::Write(vertex::portal::WriteError::CapacityExceeded) =>
                f.append("load level portals: vertex buffer capacity exceeded"),
        },
        LoadError::Track(m) => append3(f, "load level track: decode error (", m.as_str(), ")"),
    }
    assert(f@ =~= start + load_error_detail(*err));
}

/// Whether an error is one that carries no text or number of its own.
pub open spec fn payload_free(err: LoadError) -> bool {
    match err {
        LoadError::Manifest(e) => match e {
            manifest::LoadError::Fetch(FetchError::InvalidScheme) => true,
            manifest::LoadError::TooManyPortals => true,
            manifest::LoadError::InvalidVersion => true,
            _ => false,
        },
        LoadError::Mesh(_) => true,
        LoadError::Model(_) => true,
        LoadError::Portal(portal::LoadError::Write(_)) => true,
        _ => false,
    }
}

/// The length and the character at position 18 of the report detail of an
/// error that carries nothing of its own; no two such errors share both.
spec fn detail_key(err: LoadError) -> (nat, char) {
    match err {
        LoadError::Manifest(manifest::LoadError::Fetch(_)) => (39, 't'),
        LoadError::Manifest(manifest::LoadError::TooManyPortals) => (38, 's'),
        LoadError::Manifest(_) => (46, 's'),
        LoadError::Mesh(GltfError::Decode) => (34, 'L'),
        LoadError::Mesh(GltfError::NoScene) => (33, 'o'),
        LoadError::Mesh(GltfError::MultipleScenes) => (40, 'u'),
        LoadError::Mesh(GltfError::MeshNotIndexed) => (36, 'e'),
        LoadError::Mesh(GltfError::MaterialUnnamed) => (36, 'a'),
        LoadError::Model(BuildError::MaterialIXMissing) => (51, ' '),
        LoadError::Model(BuildError::MaterialConfigMissing) => (52, ' '),
        LoadError::Model(_) => (50, ' '),
        _ => (51, ':'),
    }
}

proof fn lemma_detail_key(err: LoadError)
    requires
        payload_free(err),
    ensures
        load_error_detail(err).len() == detail_key(err).0,
        load_error_detail(err)[18] == detail_key(err).1,
{
    reveal_strlit("load ");
    reveal_strlit("level manifest");
    reveal_strlit(": invalid URL scheme");
    reveal_strlit("parse level manifest: too many portals");
    reveal_strlit("parse level manifest: invalid manifest version");
    reveal_strlit("load level mesh: GLTF decode error");
    reveal_strlit("load level mesh: no scene in GLTF");
    reveal_strlit("load level mesh: multiple scenes in GLTF");
    reveal_strlit("load level mesh: mesh is not indexed");
    reveal_strlit("load level mesh: material is unnamed");
    reveal_strlit("build level model: material index missing on vertex");
    reveal_strlit("build level model: material config missing for index");
    reveal_strlit("build level model: vertex buffer capacity exceeded");
    reveal_strlit("load level portals: vertex buffer capacity exceeded");
}

/// Error report law: every report begins with "failed to ", and two different
/// errors that carry nothing of their own never give the same report.
pub proof fn lemma_error_reports(e1: LoadError, e2: LoadError)
    ensures
        "failed to "@.is_prefix_of(load_error_text(e1)),
        payload_free(e1) && payload_free(e2) && e1 != e2 ==> load_error_text(e1) != load_error_text(e2),
{
    let p = "failed to "@;
    assert(load_error_text(e1).subrange(0, p.len() as int) =~= p);
    if payload_free(e1) && payload_free(e2) && e1 != e2 && load_error_text(e1) == load_error_text(e2) {
        let t = load_error_text(e1);
        assert(t.subrange(p.len() as int, t.len() as int) =~= load_error_detail(e1));
        assert(load_error_text(e2).subrange(p.len() as int, t.len() as int) =~= load_error_detail(e2));
        lemma_detail_key(e1);
        lemma_detail_key(e2);
        assert(detail_key(e1) == detail_key(e2));
        assert(false);
    }
}

impl LoadError {
    /// The report of this error, as the load screen shows it.
    pub fn message(&self) -> (res: String)
        ensures
            res@ == load_error_text(*self),
    {
        let mut f = String::new();
        f.append("failed to ");
        push_detail(&mut f, self);
        proof {
            assert(f@ =~= load_error_text(*self));
        }
        f
    }
}

} // verus!
