//! The level model: each vertex names a material of the model, and each
//! material of the model must be configured by the manifest.
use vstd::prelude::*;
use crate::manifest::{LevelManifest, LevelManifestMaterial};

verus! {

/// Why a glTF model could not be read.
#[derive(Clone, Copy, PartialEq, Eq, Structural, Debug)]
pub enum GLTFMeshError {
    GLTF,
    NoScene,
    MultipleScenes,
    InconsistentDiffuseUVs,
    InconsistentColors,
}

/// The name of a `GLTFMeshError` variant, as its `Debug` form prints it.
pub open spec fn gltf_error_name(e: GLTFMeshError) -> Seq<char> {
    match e {
        GLTFMeshError::GLTF => "GLTF"@,
        GLTFMeshError::NoScene => "NoScene"@,
        GLTFMeshError::MultipleScenes => "MultipleScenes"@,
        GLTFMeshError::InconsistentDiffuseUVs => "InconsistentDiffuseUVs"@,
        GLTFMeshError::InconsistentColors => "InconsistentColors"@,
    }
}

impl GLTFMeshError {
    /// The variant's name, as its `Debug` form prints it.
    pub fn debug_name(&self) -> (s: &'static str)
        ensures
            s@ == gltf_error_name(*self),
    {
        match self {
            GLTFMeshError::GLTF => "GLTF",
            GLTFMeshError::NoScene => "NoScene",
            GLTFMeshError::MultipleScenes => "MultipleScenes",
            GLTFMeshError::InconsistentDiffuseUVs => "InconsistentDiffuseUVs",
            GLTFMeshError::InconsistentColors => "InconsistentColors",
        }
    }
}

/// Why the level mesh could not be loaded.
#[derive(Clone, Copy, PartialEq, Eq, Structural, Debug)]
pub enum LevelMeshLoadError {
    GLTF(GLTFMeshError),
}

/// Why vertices could not be uploaded to a model.
#[derive(Clone, Copy, PartialEq, Eq, Structural, Debug)]
pub enum ModelUploadError {
    VerticesExceedCapacity,
}

impl ModelUploadError {
    /// The variant's name, as its `Debug` form prints it.
    pub fn debug_name(&self) -> (s: &'static str)
        ensures
            s@ == "VerticesExceedCapacity"@,
    {
        "VerticesExceedCapacity"
    }
}

/// Why the level model could not be built.
#[derive(Clone, Copy, PartialEq, Eq, Structural, Debug)]
pub enum LevelModelBuildError {
    MaterialIXMissing,
    MaterialConfigMissing,
    ModelUpload(ModelUploadError),
}

/// The manifest's configuration of each material of the model, in the
/// model's order; a material without a name, or whose name the manifest does
/// not configure, has none.
pub open spec fn material_index_spec(
    manifest: LevelManifest,
    names: Seq<Option<String>>,
    i: int,
) -> Option<LevelManifestMaterial> {
    match names[i] {
        Some(n) => if manifest.level.material_map().dom().contains(n@) {
            Some(manifest.level.material_map()[n@])
        } else {
            None
        },
        None => None,
    }
}

/// Looks up, for each material of the model, the manifest's configuration.
pub fn material_index_build<'a>(
    manifest: &'a LevelManifest,
    mesh_materials: &Vec<Option<String>>,
) -> (r: Vec<Option<&'a LevelManifestMaterial>>)
    ensures
        r@.len() == mesh_materials@.len(),
        forall|i: int|
            0 <= i < r@.len() ==> (match #[trigger] r@[i] {
                Some(m) => material_index_spec(*manifest, mesh_materials@, i) == Some(*m),
                None => material_index_spec(*manifest, mesh_materials@, i) is None,
            }),
{
    let mut mapped: Vec<Option<&'a LevelManifestMaterial>> = Vec::new();
    let mut i: usize = 0;
    while i < mesh_materials.len()
        invariant
            i <= mesh_materials@.len(),
            mapped@.len() == i,
            forall|j: int|
                0 <= j < i ==> (match #[trigger] mapped@[j] {
                    Some(m) => material_index_spec(*manifest, mesh_materials@, j) == Some(*m),
                    None => material_index_spec(*manifest, mesh_materials@, j) is None,
                }),
        decreases mesh_materials@.len() - i,
    {
        let material = match &mesh_materials[i] {
            Some(name) => manifest.level.material(name.as_str()),
            None => None,
        };
        mapped.push(material);
        i = i + 1;
    }
    mapped
}

/// What is wrong with a vertex of the given material index, if anything:
/// it has none, or the manifest does not configure that material.
pub open spec fn vertex_material_error(
    material_ix: Option<u32>,
    materials: Seq<Option<&LevelManifestMaterial>>,
) -> Option<LevelModelBuildError> {
    match material_ix {
        None => Some(LevelModelBuildError::MaterialIXMissing),
        Some(ix) => if ix < materials.len() && materials[ix as int] is Some {
            None
        } else {
            Some(LevelModelBuildError::MaterialConfigMissing)
        },
    }
}

/// Checks the material index of every vertex, in order, and gives them
/// back; the first vertex that fails decides the error.
pub fn model_vertex_materials(
    vertex_material_ixs: &Vec<Option<u32>>,
    materials: &Vec<Option<&LevelManifestMaterial>>,
) -> (r: Result<Vec<u32>, LevelModelBuildError>)
    ensures
        r is Ok <==> forall|i: int|
            0 <= i < vertex_material_ixs@.len() ==> #[trigger] vertex_material_error(
                vertex_material_ixs@[i],
                materials@,
            ) is None,
        r matches Ok(v) ==> v@.len() == vertex_material_ixs@.len() && forall|i: int|
            0 <= i < v@.len() ==> Some(#[trigger] v@[i]) == vertex_material_ixs@[i],
        r matches Err(e) ==> exists|i: int|
            0 <= i < vertex_material_ixs@.len() && vertex_material_error(
                vertex_material_ixs@[i],
                materials@,
            ) == Some(e) && forall|j: int|
                0 <= j < i ==> #[trigger] vertex_material_error(
                    vertex_material_ixs@[j],
                    materials@,
                ) is None,
{
    let mut out: Vec<u32> = Vec::new();
    let mut i: usize = 0;
    while i < vertex_material_ixs.len()
        invariant
            i <= vertex_material_ixs@.len(),
            out@.len() == i,
            forall|j: int|
                0 <= j < i ==> #[trigger] vertex_material_error(
                    vertex_material_ixs@[j],
                    materials@,
                ) is None,
            forall|j: int| 0 <= j < i ==> Some(#[trigger] out@[j]) == vertex_material_ixs@[j],
        decreases vertex_material_ixs@.len() - i,
    {
        let material_ix = match vertex_material_ixs[i] {
            Some(ix) => ix,
            None => {
                assert(vertex_material_error(vertex_material_ixs@[i as int], materials@)
                    == Some(LevelModelBuildError::MaterialIXMissing));
                return Err(LevelModelBuildError::MaterialIXMissing);
            },
        };
        let configured = (material_ix as usize) < materials.len() && materials[material_ix
            as usize].is_some();
        if !configured {
            assert(vertex_material_error(vertex_material_ixs@[i as int], materials@)
                == Some(LevelModelBuildError::MaterialConfigMissing));
            return Err(LevelModelBuildError::MaterialConfigMissing);
        }
        out.push(material_ix);
        i = i + 1;
    }
    Ok(out)
}

} // verus!
