//! Why a level could not be loaded, and the message that says so.
use vstd::prelude::*;
use vstd::string::{to_string_from_display_ensures, StringExecFns};
use crate::fetch::FetchError;
use crate::manifest::{LevelManifestAssetsError, LevelManifestLoadError};
use crate::material::LevelMaterialLoadError;
use crate::mesh::{gltf_error_name, GLTFMeshError, LevelMeshLoadError, LevelModelBuildError};
use crate::portal::{geometry_error_name, LevelPortalLoadError};
use crate::text::string_push;
use crate::trimesh::{trimesh_error_name, TriMeshFromPositionsError};

verus! {

/// Why the music track of a level could not be decoded, by the text of the
/// audio decoder's error.
#[derive(Debug)]
pub enum LevelTrackLoadError {
    Decode(String),
}

/// Why a level could not be loaded.
#[derive(Debug)]
pub enum LevelLoadError {
    ManifestLoad(LevelManifestLoadError),
    ManifestAssets(LevelManifestAssetsError),
    MeshLoad(LevelMeshLoadError),
    ColliderBuild(TriMeshFromPositionsError),
    MaterialLoad(LevelMaterialLoadError),
    ModelBuild(LevelModelBuildError),
    PortalLoad(LevelPortalLoadError),
    TrackLoad(LevelTrackLoadError),
}

/// The decimal digits of `n`.
pub open spec fn decimal(n: nat) -> Seq<char>
    decreases n,
{
    if n < 10 {
        seq![digit_char(n)]
    } else {
        decimal(n / 10) + seq![digit_char(n % 10)]
    }
}

/// The character of the decimal digit `d`.
pub open spec fn digit_char(d: nat) -> char {
    (d + 48) as char
}

/// Appends the decimal digits of `n`.
pub fn push_decimal(s: &mut String, n: u32)
    ensures
        final(s)@ == old(s)@ + decimal(n as nat),
    decreases n,
{
    if n >= 10 {
        push_decimal(s, n / 10);
    }
    let d = (n % 10) as u8;
    let c = (48u8 + d) as char;
    assert(c == digit_char((n % 10) as nat));
    string_push(s, c);
}

/// The message of a failed fetch of `context`, around the text of the
/// underlying error.
pub open spec fn fetch_error_message(context: Seq<char>, err: FetchError, detail: Seq<char>) -> Seq<
    char,
> {
    match err {
        FetchError::HTTP(_) => "failed to load "@ + context + ": http fetch error ("@ + detail
            + ")"@,
        FetchError::IO(_) => "failed to load "@ + context + ": io fetch error ("@ + detail + ")"@,
        FetchError::URLJoin(_) => "failed to load "@ + context + ": URL join error ("@ + detail
            + ")"@,
        FetchError::InvalidScheme => "failed to load "@ + context + ": invalid URL scheme"@,
    }
}

/// `detail` is the text that the error underlying a failed fetch displays.
pub open spec fn fetch_error_detail(err: FetchError, detail: String) -> bool {
    match err {
        FetchError::HTTP(e) => to_string_from_display_ensures::<Box<ureq::Error>>(&e, detail),
        FetchError::IO(e) => to_string_from_display_ensures::<std::io::Error>(&e, detail),
        FetchError::URLJoin(e) => to_string_from_display_ensures::<url::ParseError>(&e, detail),
        FetchError::InvalidScheme => detail@ == Seq::<char>::empty(),
    }
}

/// The message of a load error, around the text that its underlying outside
/// error displays (where it has one).
pub open spec fn load_error_message(err: LevelLoadError, detail: Seq<char>) -> Seq<char> {
    match err {
        LevelLoadError::ManifestLoad(e) => match e {
            LevelManifestLoadError::Fetch(f) => fetch_error_message("level manifest"@, f, detail),
            LevelManifestLoadError::UTF8(_) => "failed to parse level manifest UTF-8: "@ + detail,
            LevelManifestLoadError::Decode(_) => "failed to decode level manifest JSON: "@ + detail,
            LevelManifestLoadError::TooManyPortals =>
                "failed to parse level manifest: too many portals"@,
            LevelManifestLoadError::InvalidVersion =>
                "failed to parse level manifest: invalid manifest version"@,
        },
        LevelLoadError::ManifestAssets(LevelManifestAssetsError::Fetch(f)) => fetch_error_message(
            "level asset manifest"@,
            f,
            detail,
        ),
        LevelLoadError::MeshLoad(LevelMeshLoadError::GLTF(g)) => match g {
            GLTFMeshError::GLTF => "failed to load level mesh: GLTF decode error"@,
            GLTFMeshError::NoScene => "failed to load level mesh: no scene in GLTF"@,
            GLTFMeshError::MultipleScenes => "failed to load level mesh: multiple scenes in GLTF"@,
            GLTFMeshError::InconsistentDiffuseUVs =>
                "failed to load level mesh: inconsistent diffuse UV data in GLTF"@,
            GLTFMeshError::InconsistentColors =>
                "failed to load level mesh: inconsistent vertex color data in GLTF"@,
        },
        LevelLoadError::ColliderBuild(c) => match c {
            TriMeshFromPositionsError::EmptyVertexSet =>
                "failed to build level collider: empty vertex set"@,
            TriMeshFromPositionsError::VertexCountNotMultipleOf3 =>
                "failed to build level collider: vertex count is not multiple of 3"@,
        },
        LevelLoadError::MaterialLoad(m) => match m {
            LevelMaterialLoadError::ImageDecode(_) =>
                "failed to load level materials: image decode error ("@ + detail + ")"@,
            LevelMaterialLoadError::TextureBucketMissing { width, height } =>
                "failed to load level materials: texture bucket missing for "@ + decimal(
                width as nat,
            ) + "x"@ + decimal(height as nat),
            LevelMaterialLoadError::TextureArrayWrite(w) =>
                "failed to load level materials: texture write error (TextureArrayWriteError { width: "@
                + decimal(w.width as nat) + ", height: "@ + decimal(w.height as nat) + ", layers: "@
                + decimal(w.layers as nat) + " })"@,
            LevelMaterialLoadError::MaterialIndex(w) =>
                "failed to load level materials: material index write error ("@ + w.debug@
                + ")"@,
        },
        LevelLoadError::ModelBuild(b) => match b {
            LevelModelBuildError::MaterialIXMissing =>
                "failed to build level model: material index missing on vertex"@,
            LevelModelBuildError::MaterialConfigMissing =>
                "failed to build level model: material config missing for index"@,
            LevelModelBuildError::ModelUpload(_) =>
                "failed to build level model: model upload vertices exceed capacity"@,
        },
        LevelLoadError::PortalLoad(p) => match p {
            LevelPortalLoadError::URLJoin(_) => "failed to load level portals: URL join error ("@
                + detail + ")"@,
            LevelPortalLoadError::GLTF(g) => "failed to load level portals: GLTF decode error ("@
                + gltf_error_name(g) + ")"@,
            LevelPortalLoadError::GeometryFromGLTF(g) =>
                "failed to load level portals: portal geometry decode error ("@
                + geometry_error_name(g) + ")"@,
            LevelPortalLoadError::ModelUpload(_) =>
                "failed to load level portals: model upload error ("@ + "VerticesExceedCapacity"@
                + ")"@,
            LevelPortalLoadError::Collider(c) =>
                "failed to load level portals: collider build error ("@ + trimesh_error_name(c)
                + ")"@,
        },
        LevelLoadError::TrackLoad(LevelTrackLoadError::Decode(d)) =>
            "failed to load level track: decode error ("@ + d@ + ")"@,
    }
}

/// `detail` is the text that the outside error under a load error displays;
/// for load errors without one, it is empty.
pub open spec fn load_error_detail(err: LevelLoadError, detail: String) -> bool {
    match err {
        LevelLoadError::ManifestLoad(LevelManifestLoadError::Fetch(f)) => fetch_error_detail(
            f,
            detail,
        ),
        LevelLoadError::ManifestLoad(LevelManifestLoadError::UTF8(e)) =>
            to_string_from_display_ensures::<std::str::Utf8Error>(&e, detail),
        LevelLoadError::ManifestLoad(LevelManifestLoadError::Decode(e)) =>
            to_string_from_display_ensures::<serde_json::Error>(&e, detail),
        LevelLoadError::ManifestAssets(LevelManifestAssetsError::Fetch(f)) => fetch_error_detail(
            f,
            detail,
        ),
        LevelLoadError::MaterialLoad(LevelMaterialLoadError::ImageDecode(e)) =>
            to_string_from_display_ensures::<image::ImageError>(&e, detail),
        LevelLoadError::PortalLoad(LevelPortalLoadError::URLJoin(e)) =>
            to_string_from_display_ensures::<url::ParseError>(&e, detail),
        _ => detail@ == Seq::<char>::empty(),
    }
}

/// The text of the error under a failed fetch.
fn fetch_error_detail_text(err: &FetchError) -> (d: String)
    ensures
        fetch_error_detail(*err, d),
{
    match err {
        FetchError::HTTP(e) => e.to_string(),
        FetchError::IO(e) => e.to_string(),
        FetchError::URLJoin(e) => e.to_string(),
        FetchError::InvalidScheme => String::new(),
    }
}

/// The message of a failed fetch of `context`.
fn fetch_error_message_text(context: &str, err: &FetchError, detail: &str) -> (m: String)
    ensures
        m@ == fetch_error_message(context@, *err, detail@),
{
    let mut m = "failed to load ".to_owned();
    m.append(context);
    match err {
        FetchError::HTTP(_) => {
            m.append(": http fetch error (");
            m.append(detail);
            m.append(")");
        },
        FetchError::IO(_) => {
            m.append(": io fetch error (");
            m.append(detail);
            m.append(")");
        },
        FetchError::URLJoin(_) => {
            m.append(": URL join error (");
            m.append(detail);
            m.append(")");
        },
        FetchError::InvalidScheme => {
            m.append(": invalid URL scheme");
        },
    }
    m
}

/// `prefix`, then `rest`.
fn joined2(prefix: &str, rest: &str) -> (m: String)
    ensures
        m@ == prefix@ + rest@,
{
    let mut m = prefix.to_owned();
    m.append(rest);
    m
}

/// `prefix`, then `middle`, then `suffix`.
fn joined3(prefix: &str, middle: &str, suffix: &str) -> (m: String)
    ensures
        m@ == prefix@ + middle@ + suffix@,
{
    let mut m = prefix.to_owned();
    m.append(middle);
    m.append(suffix);
    m
}

impl LevelLoadError {
    /// The text of the outside error under this one, empty where there is none.
    pub fn detail(&self) -> (d: String)
        ensures
            load_error_detail(*self, d),
    {
        match self {
            LevelLoadError::ManifestLoad(LevelManifestLoadError::Fetch(f)) => fetch_error_detail_text(f),
            LevelLoadError::ManifestLoad(LevelManifestLoadError::UTF8(e)) => e.to_string(),
            LevelLoadError::ManifestLoad(LevelManifestLoadError::Decode(e)) => e.to_string(),
            LevelLoadError::ManifestAssets(LevelManifestAssetsError::Fetch(f)) => fetch_error_detail_text(f),
            LevelLoadError::MaterialLoad(LevelMaterialLoadError::ImageDecode(e)) => e.to_string(),
            LevelLoadError::PortalLoad(LevelPortalLoadError::URLJoin(e)) => e.to_string(),
            _ => String::new(),
        }
    }

    /// The message of this error around the given outside error text.
    pub fn message_with(&self, detail: &str) -> (m: String)
        ensures
            m@ == load_error_message(*self, detail@),
    {
        match self {
            LevelLoadError::ManifestLoad(e) => match e {
                LevelManifestLoadError::Fetch(f) => fetch_error_message_text(
                    "level manifest",
                    f,
                    detail,
                ),
                LevelManifestLoadError::UTF8(_) => joined2("failed to parse level manifest UTF-8: ", detail),
                LevelManifestLoadError::Decode(_) => joined2("failed to decode level manifest JSON: ", detail),
                LevelManifestLoadError::TooManyPortals => "failed to parse level manifest: too many portals".to_owned(),
                LevelManifestLoadError::InvalidVersion => "failed to parse level manifest: invalid manifest version".to_owned(),
            },
            LevelLoadError::ManifestAssets(LevelManifestAssetsError::Fetch(f)) => fetch_error_message_text(
                "level asset manifest",
                f,
                detail,
            ),
            LevelLoadError::MeshLoad(LevelMeshLoadError::GLTF(g)) => match g {
                GLTFMeshError::GLTF => "failed to load level mesh: GLTF decode error".to_owned(),
                GLTFMeshError::NoScene => "failed to load level mesh: no scene in GLTF".to_owned(),
                GLTFMeshError::MultipleScenes => "failed to load level mesh: multiple scenes in GLTF".to_owned(),
                GLTFMeshError::InconsistentDiffuseUVs => "failed to load level mesh: inconsistent diffuse UV data in GLTF".to_owned(),
                GLTFMeshError::InconsistentColors => "failed to load level mesh: inconsistent vertex color data in GLTF".to_owned(),
            },
            LevelLoadError::ColliderBuild(c) => match c {
                TriMeshFromPositionsError::EmptyVertexSet => "failed to build level collider: empty vertex set".to_owned(),
                TriMeshFromPositionsError::VertexCountNotMultipleOf3 => "failed to build level collider: vertex count is not multiple of 3".to_owned(),
            },
            LevelLoadError::MaterialLoad(m) => match m {
                LevelMaterialLoadError::ImageDecode(_) => joined3(
                    "failed to load level materials: image decode error (",
                    detail,
                    ")",
                ),
                LevelMaterialLoadError::TextureBucketMissing { width, height } => {
                    let mut s = "failed to load level materials: texture bucket missing for ".to_owned();
                    push_decimal(&mut s, *width);
                    s.append("x");
                    push_decimal(&mut s, *height);
                    s
                },
                LevelMaterialLoadError::TextureArrayWrite(w) => {
                    let mut s = "failed to load level materials: texture write error (TextureArrayWriteError { width: ".to_owned();
                    push_decimal(&mut s, w.width);
                    s.append(", height: ");
                    push_decimal(&mut s, w.height);
                    s.append(", layers: ");
                    push_decimal(&mut s, w.layers);
                    s.append(" })");
                    s
                },
                LevelMaterialLoadError::MaterialIndex(w) => joined3(
                    "failed to load level materials: material index write error (",
                    w.debug.as_str(),
                    ")",
                ),
            },
            LevelLoadError::ModelBuild(b) => match b {
                LevelModelBuildError::MaterialIXMissing => "failed to build level model: material index missing on vertex".to_owned(),
                LevelModelBuildError::MaterialConfigMissing => "failed to build level model: material config missing for index".to_owned(),
                LevelModelBuildError::ModelUpload(_) => "failed to build level model: model upload vertices exceed capacity".to_owned(),
            },
            LevelLoadError::PortalLoad(p) => match p {
                LevelPortalLoadError::URLJoin(_) => joined3(
                    "failed to load level portals: URL join error (",
                    detail,
                    ")",
                ),
                LevelPortalLoadError::GLTF(g) => joined3(
                    "failed to load level portals: GLTF decode error (",
                    g.debug_name(),
                    ")",
                ),
                LevelPortalLoadError::GeometryFromGLTF(g) => joined3(
                    "failed to load level portals: portal geometry decode error (",
                    g.debug_name(),
                    ")",
                ),
                LevelPortalLoadError::ModelUpload(u) => joined3(
                    "failed to load level portals: model upload error (",
                    u.debug_name(),
                    ")",
                ),
                LevelPortalLoadError::Collider(c) => joined3(
                    "failed to load level portals: collider build error (",
                    c.debug_name(),
                    ")",
                ),
            },
            LevelLoadError::TrackLoad(LevelTrackLoadError::Decode(d)) => joined3(
                "failed to load level track: decode error (",
                d.as_str(),
                ")",
            ),
        }
    }

    /// The message of this error: what failed, and the text of the outside
    /// error under it where there is one.
    pub fn message(&self) -> (m: String)
        ensures
            exists|d: String| load_error_detail(*self, d) && m@ == load_error_message(*self, d@),
    {
        let d = self.detail();
        self.message_with(d.as_str())
    }
}

} // verus!
