//! Portals: where they lead, which pairs of portals may be linked, and which
//! portal a recursive render pass leaves out.
use vstd::prelude::*;
use crate::manifest::LevelManifestPortalTarget;
use crate::mesh::{GLTFMeshError, ModelUploadError};
use crate::trimesh::TriMeshFromPositionsError;
use crate::weburl::{joined_url, url_join};

verus! {

/// Why the shape of a portal could not be derived from its model.
#[derive(Clone, Copy, PartialEq, Eq, Structural, Debug)]
pub enum LevelPortalGeometryFromGLTFError {
    InsufficientVertices,
    DegenerateGeometry,
    NotCoplanar,
    TiltedPortal,
    InconsistentColors,
    MissingAnchorColor,
    AmbiguousAnchorColor,
    UnstableAnchor,
}

/// The name of a `LevelPortalGeometryFromGLTFError` variant, as its `Debug`
/// form prints it.
pub open spec fn geometry_error_name(e: LevelPortalGeometryFromGLTFError) -> Seq<char> {
    match e {
        LevelPortalGeometryFromGLTFError::InsufficientVertices => "InsufficientVertices"@,
        LevelPortalGeometryFromGLTFError::DegenerateGeometry => "DegenerateGeometry"@,
        LevelPortalGeometryFromGLTFError::NotCoplanar => "NotCoplanar"@,
        LevelPortalGeometryFromGLTFError::TiltedPortal => "TiltedPortal"@,
        LevelPortalGeometryFromGLTFError::InconsistentColors => "InconsistentColors"@,
        LevelPortalGeometryFromGLTFError::MissingAnchorColor => "MissingAnchorColor"@,
        LevelPortalGeometryFromGLTFError::AmbiguousAnchorColor => "AmbiguousAnchorColor"@,
        LevelPortalGeometryFromGLTFError::UnstableAnchor => "UnstableAnchor"@,
    }
}

impl LevelPortalGeometryFromGLTFError {
    /// The variant's name, as its `Debug` form prints it.
    pub fn debug_name(&self) -> (s: &'static str)
        ensures
            s@ == geometry_error_name(*self),
    {
        match self {
            LevelPortalGeometryFromGLTFError::InsufficientVertices => "InsufficientVertices",
            LevelPortalGeometryFromGLTFError::DegenerateGeometry => "DegenerateGeometry",
            LevelPortalGeometryFromGLTFError::NotCoplanar => "NotCoplanar",
            LevelPortalGeometryFromGLTFError::TiltedPortal => "TiltedPortal",
            LevelPortalGeometryFromGLTFError::InconsistentColors => "InconsistentColors",
            LevelPortalGeometryFromGLTFError::MissingAnchorColor => "MissingAnchorColor",
            LevelPortalGeometryFromGLTFError::AmbiguousAnchorColor => "AmbiguousAnchorColor",
            LevelPortalGeometryFromGLTFError::UnstableAnchor => "UnstableAnchor",
        }
    }
}

/// How a portal stands: in a wall (horizontal travel through it) or in a
/// floor or ceiling (vertical travel through it).
#[derive(Clone, Copy, PartialEq, Eq, Structural, Debug)]
pub enum LevelPortalKind {
    Vertical,
    Horizontal,
}

/// Two portals of kinds `a` and `b` may be linked: two horizontal portals
/// always, two vertical portals when their normals agree, mixed kinds never.
pub open spec fn kinds_link(a: LevelPortalKind, b: LevelPortalKind, normals_agree: bool) -> bool {
    (a == LevelPortalKind::Horizontal && b == LevelPortalKind::Horizontal)
        || (a == LevelPortalKind::Vertical && b == LevelPortalKind::Vertical && normals_agree)
}

/// Two wall portals always link, whatever their normals; a wall portal and
/// a floor or ceiling portal never do; two floor or ceiling portals link
/// exactly when their normals agree; and linking does not depend on which
/// portal is the source.
pub proof fn law_portal_kinds_link(a: LevelPortalKind, b: LevelPortalKind, normals_agree: bool)
    ensures
        kinds_link(LevelPortalKind::Horizontal, LevelPortalKind::Horizontal, normals_agree),
        !kinds_link(LevelPortalKind::Horizontal, LevelPortalKind::Vertical, normals_agree),
        !kinds_link(LevelPortalKind::Vertical, LevelPortalKind::Horizontal, normals_agree),
        kinds_link(LevelPortalKind::Vertical, LevelPortalKind::Vertical, normals_agree) <==> normals_agree,
        kinds_link(a, b, normals_agree) == kinds_link(b, a, normals_agree),
        kinds_link(a, b, normals_agree) ==> a == b,
{
}

impl LevelPortalKind {
    /// Whether two portals may be linked: two horizontal portals always, two
    /// vertical portals when their normals agree, mixed kinds never.
    pub fn link_compatible(self, other: LevelPortalKind, normals_agree: bool) -> (r: bool)
        ensures
            r == kinds_link(self, other, normals_agree),
    {
        match (self, other) {
            (LevelPortalKind::Horizontal, LevelPortalKind::Horizontal) => true,
            (LevelPortalKind::Vertical, LevelPortalKind::Vertical) => normals_agree,
            _ => false,
        }
    }
}

/// What a portal's link learns of its destination: the destination level is
/// not ready yet, or it is and has no portal of the target's name, or it has
/// one: its index, its kind, and whether its normal agrees with this
/// portal's.
#[derive(Clone, Copy, PartialEq, Eq, Structural, Debug)]
pub enum LinkDestination {
    NotReady,
    NoPortal,
    Portal { index: usize, kind: LevelPortalKind, normals_agree: bool },
}

/// The index of the portal that a portal of kind `kind` links to: none
/// without a target, while the destination level is not ready, where it has
/// no portal of the target's name, or where the two portals cannot be
/// linked.
pub fn portal_link(target: Option<&LevelPortalTarget>, kind: LevelPortalKind, destination: LinkDestination) -> (r: Option<usize>)
    ensures
        r == match (target, destination) {
            (Some(_), LinkDestination::Portal { index, kind: k, normals_agree }) => if kinds_link(kind, k, normals_agree) {
                Some(index)
            } else {
                None
            },
            _ => None,
        },
{
    if target.is_none() {
        return None;
    }
    match destination {
        LinkDestination::Portal { index, kind: k, normals_agree } => {
            if kind.link_compatible(k, normals_agree) {
                Some(index)
            } else {
                None
            }
        },
        _ => None,
    }
}

/// Why a portal of a level could not be loaded.
#[derive(Debug)]
pub enum LevelPortalLoadError {
    URLJoin(url::ParseError),
    GLTF(GLTFMeshError),
    GeometryFromGLTF(LevelPortalGeometryFromGLTFError),
    ModelUpload(ModelUploadError),
    Collider(TriMeshFromPositionsError),
}

/// Where a portal leads: the serialized URL of a level manifest and the
/// name of a portal in it.
#[derive(Debug)]
pub struct LevelPortalTarget {
    url: String,
    name: String,
}

impl LevelPortalTarget {
    /// The destination manifest's URL.
    pub closed spec fn url_spec(&self) -> Seq<char> {
        self.url@
    }

    /// The destination portal's name.
    pub closed spec fn name_spec(&self) -> Seq<char> {
        self.name@
    }

    /// The target of a manifest portal, its href resolved against the URL of
    /// the manifest.
    pub fn resolve(base_url: &str, target: &LevelManifestPortalTarget) -> (r: Result<
        LevelPortalTarget,
        LevelPortalLoadError,
    >)
        ensures
            r is Ok <==> joined_url(base_url@, target.href@) is Some,
            r matches Ok(t) ==> Some(t.url_spec()) == joined_url(base_url@, target.href@)
                && t.name_spec() == target.name@,
            r is Err ==> r matches Err(LevelPortalLoadError::URLJoin(_)),
    {
        match url_join(base_url, target.href.as_str()) {
            Ok(url) => Ok(LevelPortalTarget { url, name: target.name.clone() }),
            Err(e) => Err(LevelPortalLoadError::URLJoin(e)),
        }
    }

    /// The destination manifest's URL.
    pub fn url(&self) -> (r: &str)
        ensures
            r@ == self.url_spec(),
    {
        self.url.as_str()
    }

    /// The destination portal's name.
    pub fn name(&self) -> (r: &str)
        ensures
            r@ == self.name_spec(),
    {
        self.name.as_str()
    }

    /// Whether this target is the portal `portal_name` of the level at
    /// `level_url`: a link is walked through only when the destination
    /// portal leads back to the portal it was entered by.
    pub fn leads_to(&self, level_url: &str, portal_name: &str) -> (r: bool)
        ensures
            r == (self.url_spec() == level_url@ && self.name_spec() == portal_name@),
    {
        self.url == level_url.to_owned() && self.name == portal_name.to_owned()
    }
}

/// Which level a render pass draws: the player's own, or the one seen
/// through a portal, entered by the portal of the given index.
#[derive(Clone, Copy, PartialEq, Eq, Structural, Debug)]
pub enum LevelRenderSchema {
    Current,
    Portal { index: usize },
}

impl LevelRenderSchema {
    /// Whether the pass leaves out the portal of index `portal_index`: a pass
    /// seen through a portal does not draw the portal it looks out of.
    pub fn skips_portal(&self, portal_index: usize) -> (r: bool)
        ensures
            r == (*self == LevelRenderSchema::Portal { index: portal_index }),
    {
        match self {
            LevelRenderSchema::Current => false,
            LevelRenderSchema::Portal { index } => *index == portal_index,
        }
    }
}

} // verus!
