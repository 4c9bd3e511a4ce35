use vstd::prelude::*;
use crate::gltf::Error as GltfError;
use crate::gpu::buffer::vertex::portal::WriteError;
use crate::level::manifest;
use crate::util::url::{LevelUrl, url_join};

pub mod geometry;

verus! {

/// Why a portal of a level could not be loaded; `UrlJoin` holds the text of the
/// URL parse error.
#[derive(Debug)]
pub enum LoadError {
    UrlJoin(String),
    Gltf(GltfError),
    Geometry(geometry::DecodeError),
    Write(WriteError),
}

/// Where a loaded portal leads: the URL of a level manifest and a portal in it.
pub struct Target {
    pub url: LevelUrl,
    pub name: String,
}

/// Resolves a portal's target against the URL of its level's manifest; a
/// portal without a target has none, and a target whose href does not join
/// is an error.
pub fn resolve_target(base_url: &LevelUrl, target: Option<&manifest::Target>) -> (res: Result<Option<Target>, LoadError>)
    ensures
        match target {
            None => res matches Ok(None),
            Some(t) => match url_join(base_url@, t.href@) {
                Ok(u) => (res matches Ok(Some(r)) && r.url@ == u && r.name == t.name),
                Err(e) => (res matches Err(LoadError::UrlJoin(m)) && m@ == e),
            },
        },
{
    match target {
        None => Ok(None),
        Some(t) => match base_url.join(t.href.as_str()) {
            Ok(url) => Ok(Some(Target { url, name: t.name.clone() })),
            Err(e) => Err(LoadError::UrlJoin(e)),
        },
    }
}

} // verus!
