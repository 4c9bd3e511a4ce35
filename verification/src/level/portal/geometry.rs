use vstd::prelude::*;

verus! {

/// Why a portal's geometry could not be decoded from its mesh.
#[derive(Clone, Copy, Debug, PartialEq, Eq, Structural)]
pub enum DecodeError {
    InsufficientVertices,
    DegenerateGeometry,
    NotCoplanar,
    TiltedPortal,
    UnstableAnchor,
}

impl DecodeError {
    /// The variant's name, as `{:?}` prints it.
    pub open spec fn debug_text(self) -> Seq<char> {
        match self {
            DecodeError::InsufficientVertices => "InsufficientVertices"@,
            DecodeError::DegenerateGeometry => "DegenerateGeometry"@,
            DecodeError::NotCoplanar => "NotCoplanar"@,
            DecodeError::TiltedPortal => "TiltedPortal"@,
            DecodeError::UnstableAnchor => "UnstableAnchor"@,
        }
    }

    pub fn debug_name(&self) -> (res: &'static str)
        ensures
            res@ == self.debug_text(),
    {
        match self {
            DecodeError::InsufficientVertices => "InsufficientVertices",
            DecodeError::DegenerateGeometry => "DegenerateGeometry",
            DecodeError::NotCoplanar => "NotCoplanar",
            DecodeError::TiltedPortal => "TiltedPortal",
            DecodeError::UnstableAnchor => "UnstableAnchor",
        }
    }
}

/// How a portal is oriented: in a wall (`Horizontal`, looked through
/// sideways) or in a floor or ceiling (`Vertical`).
#[derive(Clone, Copy, Debug, PartialEq, Eq, Structural)]
pub enum Kind {
    Vertical,
    Horizontal,
}

/// Whether two portals can be linked: two wall portals always can; two floor or
/// ceiling portals can when their normals agree (`normals_close`); a wall portal
/// never links with a floor or ceiling portal.
pub open spec fn kinds_match_spec(own: Kind, other: Kind, normals_close: bool) -> bool {
    match (own, other) {
        (Kind::Horizontal, Kind::Horizontal) => true,
        (Kind::Vertical, Kind::Vertical) => normals_close,
        _ => false,
    }
}

pub fn kinds_match(own: Kind, other: Kind, normals_close: bool) -> (res: bool)
    ensures
        res == kinds_match_spec(own, other, normals_close),
{
    match (own, other) {
        (Kind::Horizontal, Kind::Horizontal) => true,
        (Kind::Vertical, Kind::Vertical) => normals_close,
        _ => false,
    }
}

/// Linking is symmetric: if portal A can link to portal B, B can link to A.
pub proof fn lemma_kinds_match_symmetric(a: Kind, b: Kind, normals_close: bool)
    ensures
        kinds_match_spec(a, b, normals_close) == kinds_match_spec(b, a, normals_close),
{
}

} // verus!
