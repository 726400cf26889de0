//! Materials of a level: where each texture frame goes in the renderer's
//! texture arrays, and the values a material takes when the manifest leaves
//! them out.
use vstd::prelude::*;
use crate::assets::AssetManifest;
use crate::color::Color;
use crate::keyed::KeyedTable;
use crate::manifest::{LevelManifestMaterial, LevelManifestMaterialTextureAddressing};

verus! {

/// The number of texture arrays, one per texture size.
pub const TEXTURE_BUCKET_COUNT: usize = 6;

/// The default animation speed, 0.5, as the bit pattern of a 32-bit float.
pub const DEFAULT_ANIMATION_SPEED_BITS: u32 = 0x3f00_0000;

/// The sampler mode numbers that the renderer reads.
pub const TEXTURE_ADDRESSING_LINEAR: u32 = 0;
pub const TEXTURE_ADDRESSING_NEAREST: u32 = 1;

/// A texture array: the size of its textures and how many it holds.
#[derive(Clone, Copy, PartialEq, Eq, Structural, Debug)]
pub struct TextureBucket {
    pub width: u32,
    pub height: u32,
    pub layers: u32,
}

/// The texture arrays, largest first: 2048² (1 texture), 1024² (4),
/// 512² (8), 256² (32), 128² (64) and 64² (256).
pub open spec fn texture_bucket_spec(i: int) -> TextureBucket {
    if i == 0 {
        TextureBucket { width: 2048, height: 2048, layers: 1 }
    } else if i == 1 {
        TextureBucket { width: 1024, height: 1024, layers: 4 }
    } else if i == 2 {
        TextureBucket { width: 512, height: 512, layers: 8 }
    } else if i == 3 {
        TextureBucket { width: 256, height: 256, layers: 32 }
    } else if i == 4 {
        TextureBucket { width: 128, height: 128, layers: 64 }
    } else {
        TextureBucket { width: 64, height: 64, layers: 256 }
    }
}

/// The texture array of index `i`.
pub fn texture_bucket(i: usize) -> (b: TextureBucket)
    requires
        i < TEXTURE_BUCKET_COUNT,
    ensures
        b == texture_bucket_spec(i as int),
{
    if i == 0 {
        TextureBucket { width: 2048, height: 2048, layers: 1 }
    } else if i == 1 {
        TextureBucket { width: 1024, height: 1024, layers: 4 }
    } else if i == 2 {
        TextureBucket { width: 512, height: 512, layers: 8 }
    } else if i == 3 {
        TextureBucket { width: 256, height: 256, layers: 32 }
    } else if i == 4 {
        TextureBucket { width: 128, height: 128, layers: 64 }
    } else {
        TextureBucket { width: 64, height: 64, layers: 256 }
    }
}

/// The texture array `i` holds textures of `w` by `h` pixels.
pub open spec fn bucket_fits(i: int, w: u32, h: u32) -> bool {
    texture_bucket_spec(i).width == w && texture_bucket_spec(i).height == h
}

/// The first texture array that holds textures of `w` by `h` pixels.
pub open spec fn texture_bucket_for(w: u32, h: u32) -> Option<int> {
    if exists|i: int| 0 <= i < TEXTURE_BUCKET_COUNT && bucket_fits(i, w, h) {
        Some(choose|i: int| 0 <= i < TEXTURE_BUCKET_COUNT && bucket_fits(i, w, h))
    } else {
        None
    }
}

/// The sizes of the arrays differ, so at most one array fits a size.
proof fn lemma_bucket_sizes_distinct(i: int, j: int, w: u32, h: u32)
    requires
        0 <= i < TEXTURE_BUCKET_COUNT,
        0 <= j < TEXTURE_BUCKET_COUNT,
        bucket_fits(i, w, h),
        bucket_fits(j, w, h),
    ensures
        i == j,
{
}

/// The array that fits a size is the first that does.
proof fn lemma_bucket_for_is(i: int, w: u32, h: u32)
    requires
        0 <= i < TEXTURE_BUCKET_COUNT,
        bucket_fits(i, w, h),
    ensures
        texture_bucket_for(w, h) == Some(i),
{
    let c = choose|c: int| 0 <= c < TEXTURE_BUCKET_COUNT && bucket_fits(c, w, h);
    lemma_bucket_sizes_distinct(i, c, w, h);
}

/// The texture arrays are the table of texture sizes: square textures of
/// 2048, 1024, 512, 256, 128 and 64 pixels each have an array, holding 1,
/// 4, 8, 32, 64 and 256 textures; a texture of any other size has none.
pub proof fn law_texture_sizes_and_limits(w: u32, h: u32)
    ensures
        texture_bucket_for(2048, 2048) matches Some(b) && texture_bucket_spec(b).layers == 1,
        texture_bucket_for(1024, 1024) matches Some(b) && texture_bucket_spec(b).layers == 4,
        texture_bucket_for(512, 512) matches Some(b) && texture_bucket_spec(b).layers == 8,
        texture_bucket_for(256, 256) matches Some(b) && texture_bucket_spec(b).layers == 32,
        texture_bucket_for(128, 128) matches Some(b) && texture_bucket_spec(b).layers == 64,
        texture_bucket_for(64, 64) matches Some(b) && texture_bucket_spec(b).layers == 256,
        texture_bucket_for(w, h) is Some ==> w == h && (w == 2048 || w == 1024 || w == 512 || w
            == 256 || w == 128 || w == 64),
        texture_bucket_for(w, h) matches Some(b) ==> 0 <= b < TEXTURE_BUCKET_COUNT
            && texture_bucket_spec(b).width == w && texture_bucket_spec(b).height == h,
{
    lemma_bucket_for_is(0, 2048, 2048);
    lemma_bucket_for_is(1, 1024, 1024);
    lemma_bucket_for_is(2, 512, 512);
    lemma_bucket_for_is(3, 256, 256);
    lemma_bucket_for_is(4, 128, 128);
    lemma_bucket_for_is(5, 64, 64);
    if texture_bucket_for(w, h) is Some {
        let c = choose|c: int| 0 <= c < TEXTURE_BUCKET_COUNT && bucket_fits(c, w, h);
        assert(bucket_fits(c, w, h));
    }
}

/// The index of the texture array that holds textures of `w` by `h` pixels.
pub fn find_texture_bucket(w: u32, h: u32) -> (r: Option<usize>)
    ensures
        r matches Some(b) ==> texture_bucket_for(w, h) == Some(b as int),
        r is None ==> texture_bucket_for(w, h) is None,
{
    let mut i: usize = 0;
    while i < TEXTURE_BUCKET_COUNT
        invariant
            i <= TEXTURE_BUCKET_COUNT,
            forall|j: int| 0 <= j < i ==> !#[trigger] bucket_fits(j, w, h),
        decreases TEXTURE_BUCKET_COUNT - i,
    {
        let b = texture_bucket(i);
        if b.width == w && b.height == h {
            proof {
                assert(bucket_fits(i as int, w, h));
                let c = choose|c: int| 0 <= c < TEXTURE_BUCKET_COUNT && bucket_fits(c, w, h);
                lemma_bucket_sizes_distinct(i as int, c, w, h);
            }
            return Some(i);
        }
        i = i + 1;
    }
    None
}

/// Where a frame texture is: its array and its layer in that array.
#[derive(Clone, Copy, PartialEq, Eq, Structural, Debug)]
pub struct MaterialTextureRef {
    pub bucket: u16,
    pub layer: u16,
}

/// A texture that its array has no room for: the array of `width` by
/// `height` textures already holds all its `layers` layers.
#[derive(Debug)]
pub struct TextureArrayWriteError {
    pub width: u32,
    pub height: u32,
    pub layers: u32,
}

/// A failed write into the material index of the renderer, by the debug text
/// of the renderer's error.
#[derive(Debug)]
pub struct MaterialIndexStorageBufferDataWriteError {
    pub debug: String,
}

/// Why the materials of a level could not be loaded.
#[derive(Debug)]
pub enum LevelMaterialLoadError {
    ImageDecode(image::ImageError),
    TextureBucketMissing { width: u32, height: u32 },
    TextureArrayWrite(TextureArrayWriteError),
    MaterialIndex(MaterialIndexStorageBufferDataWriteError),
}

/// A layer just given to a frame: the array, the layer, and the reference
/// that materials use for it.
#[derive(Clone, Copy, PartialEq, Eq, Structural, Debug)]
pub struct TextureSlot {
    pub bucket: usize,
    pub layer: usize,
    pub texture_ref: MaterialTextureRef,
}

/// The number of frames whose slot is in array `b`.
pub open spec fn bucket_count(m: Map<Seq<char>, TextureSlot>, b: int) -> nat {
    m.dom().filter(|p: Seq<char>| m[p].bucket == b).len()
}

/// Giving a new path a slot in one array counts one more frame there and
/// leaves the other arrays' counts.
proof fn lemma_bucket_count_insert(m: Map<Seq<char>, TextureSlot>, path: Seq<char>, slot: TextureSlot, b: int)
    requires
        m.dom().finite(),
        !m.dom().contains(path),
    ensures
        bucket_count(m.insert(path, slot), b) == bucket_count(m, b) + (if slot.bucket == b { 1int } else { 0int }),
{
    let n = m.insert(path, slot);
    let old_f = m.dom().filter(|p: Seq<char>| m[p].bucket == b);
    let new_f = n.dom().filter(|p: Seq<char>| n[p].bucket == b);
    m.dom().lemma_len_filter(|p: Seq<char>| m[p].bucket == b);
    if slot.bucket == b {
        assert(new_f =~= old_f.insert(path));
    } else {
        assert(new_f =~= old_f);
    }
}

/// Hands out texture layers to the frames of a level's materials: each frame
/// path gets one layer, in the array of its size, the next free one there;
/// a path met again reuses its layer.
pub struct MaterialFrameAllocator {
    next_free: [usize; 6],
    cache: KeyedTable<TextureSlot>,
}

impl MaterialFrameAllocator {
    /// The next free layer of array `b`.
    pub closed spec fn next_free_layer(&self, b: int) -> usize {
        self.next_free@[b]
    }

    /// The slot given to each frame path so far.
    pub closed spec fn slot_map(&self) -> Map<Seq<char>, TextureSlot> {
        self.cache@
    }

    /// Every slot lies below the next free layer of its array and is named by
    /// its reference; the next free layer of each array is the number of
    /// frames in it, which is at most the layers it holds; no two frames
    /// share a slot.
    pub closed spec fn wf(&self) -> bool {
        &&& self.cache@.dom().finite()
        &&& forall|b: int|
            0 <= b < TEXTURE_BUCKET_COUNT ==> #[trigger] self.next_free@[b] == bucket_count(self.cache@, b)
                && self.next_free@[b] <= texture_bucket_spec(b).layers
        &&& forall|p: Seq<char>| #[trigger]
            self.cache@.dom().contains(p) ==> {
                let s = self.cache@[p];
                &&& s.bucket < TEXTURE_BUCKET_COUNT
                &&& s.layer < self.next_free@[s.bucket as int]
                &&& s.texture_ref == (MaterialTextureRef {
                    bucket: s.bucket as u16,
                    layer: s.layer as u16,
                })
            }
        &&& forall|p: Seq<char>, q: Seq<char>|
            #![trigger self.cache@[p], self.cache@[q]]
            self.cache@.dom().contains(p) && self.cache@.dom().contains(q) && p != q ==> (
            self.cache@[p].bucket, self.cache@[p].layer) != (self.cache@[q].bucket, self.cache@[
                q
            ].layer)
    }

    /// Array `bucket` holds all its layers.
    pub open spec fn array_full_at(self, bucket: int) -> bool {
        self.next_free_layer(bucket) >= texture_bucket_spec(bucket).layers
    }

    /// `new` is `self` with nothing given out.
    pub open spec fn unchanged(self, new: Self) -> bool {
        &&& new.slot_map() == self.slot_map()
        &&& forall|b: int| 0 <= b < TEXTURE_BUCKET_COUNT ==> #[trigger] new.next_free_layer(b) == self.next_free_layer(b)
    }

    /// `new` is `self` after giving `path` the next free layer of array
    /// `bucket`, as `slot`.
    pub open spec fn allocated(self, new: Self, path: Seq<char>, bucket: int, slot: TextureSlot) -> bool {
        let layer = self.next_free_layer(bucket);
        &&& slot.bucket == bucket
        &&& slot.layer == layer
        &&& slot.texture_ref == (MaterialTextureRef { bucket: bucket as u16, layer: layer as u16 })
        &&& new.slot_map() == self.slot_map().insert(path, slot)
        &&& new.next_free_layer(bucket) == layer + 1
        &&& forall|b: int|
            0 <= b < TEXTURE_BUCKET_COUNT && b != bucket ==> #[trigger] new.next_free_layer(b)
                == self.next_free_layer(b)
    }

    /// No layer given yet.
    pub fn new() -> (a: Self)
        ensures
            a.wf(),
            a.slot_map() == Map::<Seq<char>, TextureSlot>::empty(),
            forall|b: int| 0 <= b < TEXTURE_BUCKET_COUNT ==> #[trigger] a.next_free_layer(b) == 0,
    {
        let a = MaterialFrameAllocator { next_free: [0; 6], cache: KeyedTable::new() };
        proof {
            assert(a.cache@.dom() =~= Set::<Seq<char>>::empty());
            assert forall|b: int| 0 <= b < TEXTURE_BUCKET_COUNT implies #[trigger] a.next_free@[b] == bucket_count(a.cache@, b)
                && a.next_free@[b] <= texture_bucket_spec(b).layers by {
                assert(a.cache@.dom().filter(|p: Seq<char>| a.cache@[p].bucket == b) =~= Set::<Seq<char>>::empty());
            }
        }
        a
    }

    /// The layer already given to `path`, if any.
    pub fn cached(&self, path: &str) -> (r: Option<MaterialTextureRef>)
        ensures
            r is Some <==> self.slot_map().dom().contains(path@),
            r matches Some(t) ==> t == self.slot_map()[path@].texture_ref,
    {
        match self.cache.get(path) {
            Some(slot) => Some(slot.texture_ref),
            None => None,
        }
    }

    /// Gives the frame `path`, a texture of `width` by `height` pixels, the
    /// next free layer of the array of its size; an array that holds all its
    /// layers has no room for it.
    pub fn allocate(&mut self, path: String, width: u32, height: u32) -> (r: Result<
        TextureSlot,
        LevelMaterialLoadError,
    >)
        requires
            old(self).wf(),
            !old(self).slot_map().dom().contains(path@),
        ensures
            final(self).wf(),
            texture_bucket_for(width, height) is None ==> (r matches Err(
                LevelMaterialLoadError::TextureBucketMissing { width: w, height: h },
            ) && w == width && h == height),
            texture_bucket_for(width, height) is None ==> old(self).unchanged(*final(self)),
            texture_bucket_for(width, height) matches Some(bucket) ==> if old(self).array_full_at(bucket) {
                &&& r matches Err(LevelMaterialLoadError::TextureArrayWrite(e)) && e.width == width
                    && e.height == height && e.layers == texture_bucket_spec(bucket).layers
                &&& old(self).unchanged(*final(self))
            } else {
                r matches Ok(slot) && old(self).allocated(*final(self), path@, bucket, slot)
            },
    {
        let bucket = match find_texture_bucket(width, height) {
            Some(b) => b,
            None => return Err(LevelMaterialLoadError::TextureBucketMissing { width, height }),
        };
        let layers = texture_bucket(bucket).layers;
        let layer = self.next_free[bucket];
        if layer >= layers as usize {
            return Err(LevelMaterialLoadError::TextureArrayWrite(TextureArrayWriteError { width, height, layers }));
        }
        let texture_ref = MaterialTextureRef { bucket: bucket as u16, layer: layer as u16 };
        let slot = TextureSlot { bucket, layer, texture_ref };
        let ghost old_map = self.cache@;
        let before = self.cache.len();
        self.cache.insert(path, slot);
        let after = self.cache.len();
        assert(after == before + 1);
        self.next_free[bucket] = layer + 1;
        proof {
            let ghost m = self.cache@;
            assert(m.dom() =~= old_map.dom().insert(path@));
            assert forall|b: int| 0 <= b < TEXTURE_BUCKET_COUNT implies #[trigger] self.next_free@[b] == bucket_count(self.cache@, b)
                && self.next_free@[b] <= texture_bucket_spec(b).layers by {
                lemma_bucket_count_insert(old_map, path@, slot, b);
            }
            assert forall|p: Seq<char>, q: Seq<char>|
                #![trigger self.cache@[p], self.cache@[q]]
                self.cache@.dom().contains(p) && self.cache@.dom().contains(q) && p != q implies (
                self.cache@[p].bucket, self.cache@[p].layer) != (self.cache@[q].bucket,
                self.cache@[q].layer) by {
                if p != path@ && q != path@ {
                    assert(old_map.dom().contains(p) && old_map.dom().contains(q));
                    assert(old_map[p] == self.cache@[p] && old_map[q] == self.cache@[q]);
                } else if p == path@ {
                    assert(old_map.dom().contains(q));
                } else {
                    assert(old_map.dom().contains(p));
                }
            }
        }
        Ok(slot)
    }
}

/// The image that the `image` crate decodes from `data` in the format it
/// recognises by its first bytes (`image::guess_format`, the crate's own
/// signatures), under the default limits, converted to 8-bit RGBA: its width,
/// height and pixel bytes; `None` where no format is recognised or the data
/// does not decode in it.
pub uninterp spec fn decoded_rgba(data: Seq<u8>) -> Option<(u32, u32, Seq<u8>)>;

/// Decodes image data as `image::load_from_memory` does, recognising the
/// format by `image::guess_format` and decoding it with
/// `ImageReader::with_format(..).decode()` under the default limits, then
/// converting with `to_rgba8`. The format is named directly, so the
/// crate's registry of format hooks plays no part. The contract claims that
/// the outcome is the decoding named `decoded_rgba` of exactly these bytes:
/// its size and pixels on success, an error exactly where it has none; it
/// says nothing of which error.
#[verifier::external_body]
fn image_decode_rgba(data: &[u8]) -> (r: Result<(u32, u32, Vec<u8>), image::ImageError>)
    ensures
        match r {
            Ok((w, h, px)) => decoded_rgba(data@) == Some((w, h, px@)),
            Err(_) => decoded_rgba(data@) is None,
        },
{
    let format = image::guess_format(data)?;
    let reader = image::ImageReader::with_format(std::io::Cursor::new(data), format);
    let rgba = reader.decode()?.to_rgba8();
    let (w, h) = rgba.dimensions();
    Ok((w, h, rgba.into_raw()))
}

/// The decoded image of the asset at `path`.
pub open spec fn frame_image(assets: AssetManifest, path: Seq<char>) -> Option<(u32, u32, Seq<u8>)> {
    decoded_rgba(assets.asset_map()[path]@)
}

/// The asset at `path` decodes to an image of a size that some texture
/// array holds.
pub open spec fn frame_fits(assets: AssetManifest, path: Seq<char>) -> bool {
    frame_image(assets, path) matches Some((w, h, _)) && texture_bucket_for(w, h) is Some
}

/// Pixels for the renderer to write into a texture layer: the frame's path,
/// its slot, and its decoded RGBA image.
#[derive(Debug)]
pub struct FrameUpload {
    pub path: String,
    pub slot: TextureSlot,
    pub width: u32,
    pub height: u32,
    pub pixels: Vec<u8>,
}

/// What loading one frame gives: the layer its path already has, or a new
/// layer with the pixels to write into it.
#[derive(Debug)]
pub enum FrameLoad {
    Cached(MaterialTextureRef),
    Upload(FrameUpload),
}

impl MaterialFrameAllocator {
    /// Loads the frame at `path`: the layer it already has; else its asset
    /// decoded and given the next free layer of the array of its size. An
    /// asset that does not decode, or of a size no array holds, is an error
    /// and leaves the allocator as it was.
    pub fn frame_ref_load(&mut self, assets: &AssetManifest, path: &String) -> (r: Result<
        FrameLoad,
        LevelMaterialLoadError,
    >)
        requires
            old(self).wf(),
            assets.asset_map().dom().contains(path@),
        ensures
            final(self).wf(),
            old(self).slot_map().dom().contains(path@) ==> {
                &&& r matches Ok(FrameLoad::Cached(t)) && t == old(self).slot_map()[path@].texture_ref
                &&& old(self).unchanged(*final(self))
            },
            !old(self).slot_map().dom().contains(path@) ==> match frame_image(*assets, path@) {
                None => r matches Err(LevelMaterialLoadError::ImageDecode(_))
                    && old(self).unchanged(*final(self)),
                Some((w, h, px)) => match texture_bucket_for(w, h) {
                    None => (r matches Err(
                        LevelMaterialLoadError::TextureBucketMissing { width, height },
                    ) && width == w && height == h) && old(self).unchanged(*final(self)),
                    Some(bucket) => if old(self).array_full_at(bucket) {
                        &&& r matches Err(LevelMaterialLoadError::TextureArrayWrite(e)) && e.width == w
                            && e.height == h && e.layers == texture_bucket_spec(bucket).layers
                        &&& old(self).unchanged(*final(self))
                    } else {
                        r matches Ok(FrameLoad::Upload(u)) && {
                            &&& u.path@ == path@
                            &&& u.width == w && u.height == h && u.pixels@ == px
                            &&& old(self).allocated(*final(self), path@, bucket, u.slot)
                        }
                    },
                },
            },
    {
        if let Some(t) = self.cached(path.as_str()) {
            return Ok(FrameLoad::Cached(t));
        }
        let data = assets.asset_get(path.as_str()).unwrap();
        let (width, height, pixels) = match image_decode_rgba(data) {
            Ok(img) => img,
            Err(e) => return Err(LevelMaterialLoadError::ImageDecode(e)),
        };
        let slot = self.allocate(path.clone(), width, height)?;
        Ok(FrameLoad::Upload(FrameUpload { path: path.clone(), slot, width, height, pixels }))
    }
}

/// The array that holds the decoded image of the asset at `path`, if any.
pub open spec fn frame_bucket(assets: AssetManifest, path: Seq<char>) -> Option<int> {
    match frame_image(assets, path) {
        Some((w, h, _)) => texture_bucket_for(w, h),
        None => None,
    }
}

/// The error for a frame that the allocator `a` cannot give a layer: its
/// asset does not decode, no array holds its size, or its array is full.
pub open spec fn frame_error_at(
    e: LevelMaterialLoadError,
    a: MaterialFrameAllocator,
    assets: AssetManifest,
    path: Seq<char>,
) -> bool {
    match frame_image(assets, path) {
        None => e is ImageDecode,
        Some((w, h, _)) => match texture_bucket_for(w, h) {
            None => e matches LevelMaterialLoadError::TextureBucketMissing { width, height }
                && width == w && height == h,
            Some(b) => a.array_full_at(b) && (e matches LevelMaterialLoadError::TextureArrayWrite(x)
                && x.width == w && x.height == h && x.layers == texture_bucket_spec(b).layers),
        },
    }
}

/// The uploads that took the slot map `old` to `new`: each gives a path new
/// since `old` its slot and decoded image, no path comes twice, and every
/// path new since `old` has one.
pub open spec fn uploads_cover(
    old: Map<Seq<char>, TextureSlot>,
    new: Map<Seq<char>, TextureSlot>,
    assets: AssetManifest,
    uploads: Seq<FrameUpload>,
) -> bool {
    &&& forall|j: int| 0 <= j < uploads.len() ==> {
        let u = #[trigger] uploads[j];
        &&& !old.dom().contains(u.path@)
        &&& new.dom().contains(u.path@)
        &&& new[u.path@] == u.slot
        &&& frame_image(assets, u.path@) == Some((u.width, u.height, u.pixels@))
    }
    &&& forall|j: int, k: int|
        0 <= j < uploads.len() && 0 <= k < uploads.len() && j != k ==> #[trigger] uploads[j].path@
            != #[trigger] uploads[k].path@
    &&& forall|p: Seq<char>|
        #[trigger] new.dom().contains(p) && !old.dom().contains(p) ==> exists|j: int|
            0 <= j < uploads.len() && #[trigger] uploads[j].path@ == p
}

impl MaterialFrameAllocator {
    /// Loads the frames of a material, in order: the texture reference of
    /// each, and the pixels to write for the frames that got a new layer. The
    /// first frame that cannot be given a layer gives the error, and the
    /// allocator keeps the layers given before it.
    pub fn frame_refs_load(&mut self, assets: &AssetManifest, frame_paths: &[String]) -> (r: Result<
        (Vec<MaterialTextureRef>, Vec<FrameUpload>),
        LevelMaterialLoadError,
    >)
        requires
            old(self).wf(),
            forall|i: int| 0 <= i < frame_paths@.len() ==> assets.asset_map().dom().contains(#[trigger] frame_paths@[i]@),
        ensures
            final(self).wf(),
            forall|p: Seq<char>| #[trigger] old(self).slot_map().dom().contains(p) ==> final(self).slot_map().dom().contains(p)
                && final(self).slot_map()[p] == old(self).slot_map()[p],
            forall|p: Seq<char>| #[trigger] final(self).slot_map().dom().contains(p) && !old(self).slot_map().dom().contains(p)
                ==> frame_fits(*assets, p) && frame_bucket(*assets, p) == Some(final(self).slot_map()[p].bucket as int),
            r matches Ok((refs, uploads)) ==> {
                &&& refs@.len() == frame_paths@.len()
                &&& forall|i: int| 0 <= i < frame_paths@.len() ==> {
                    &&& final(self).slot_map().dom().contains(#[trigger] frame_paths@[i]@)
                    &&& refs@[i] == final(self).slot_map()[frame_paths@[i]@].texture_ref
                }
                &&& forall|p: Seq<char>| #[trigger] final(self).slot_map().dom().contains(p) <==> (
                    old(self).slot_map().dom().contains(p) || exists|i: int|
                        0 <= i < frame_paths@.len() && #[trigger] frame_paths@[i]@ == p)
                &&& uploads_cover(old(self).slot_map(), final(self).slot_map(), *assets, uploads@)
            },
            r matches Err(e) ==> exists|i: int| {
                &&& 0 <= i < frame_paths@.len()
                &&& forall|p: Seq<char>| #[trigger] final(self).slot_map().dom().contains(p) <==> (
                    old(self).slot_map().dom().contains(p) || exists|j: int|
                        0 <= j < i && #[trigger] frame_paths@[j]@ == p)
                &&& !final(self).slot_map().dom().contains(frame_paths@[i]@)
                &&& frame_error_at(e, *final(self), *assets, #[trigger] frame_paths@[i]@)
            },
    {
        let ghost start = *self;
        let ghost paths = frame_paths@;
        let mut refs: Vec<MaterialTextureRef> = Vec::new();
        let mut uploads: Vec<FrameUpload> = Vec::new();
        let mut i: usize = 0;
        while i < frame_paths.len()
            invariant
                self.wf(),
                start == *old(self),
                paths == frame_paths@,
                i <= paths.len(),
                forall|k: int| 0 <= k < paths.len() ==> assets.asset_map().dom().contains(#[trigger] paths[k]@),
                refs@.len() == i,
                forall|j: int| 0 <= j < i ==> {
                    &&& self.slot_map().dom().contains(#[trigger] paths[j]@)
                    &&& refs@[j] == self.slot_map()[paths[j]@].texture_ref
                },
                forall|p: Seq<char>| #[trigger] self.slot_map().dom().contains(p) <==> (
                    start.slot_map().dom().contains(p) || exists|j: int| 0 <= j < i && #[trigger] paths[j]@ == p),
                forall|p: Seq<char>| #[trigger] start.slot_map().dom().contains(p) ==> self.slot_map()[p] == start.slot_map()[p],
                uploads_cover(start.slot_map(), self.slot_map(), *assets, uploads@),
                forall|p: Seq<char>| #[trigger] self.slot_map().dom().contains(p) && !start.slot_map().dom().contains(p)
                    ==> frame_fits(*assets, p) && frame_bucket(*assets, p) == Some(self.slot_map()[p].bucket as int),
            decreases paths.len() - i,
        {
            let path = &frame_paths[i];
            let ghost before = *self;
            match self.frame_ref_load(assets, path) {
                Ok(FrameLoad::Cached(t)) => {
                    refs.push(t);
                },
                Ok(FrameLoad::Upload(u)) => {
                    refs.push(u.slot.texture_ref);
                    let ghost up = uploads@;
                    uploads.push(u);
                    proof {
                        assert forall|j: int, k: int|
                            0 <= j < uploads@.len() && 0 <= k < uploads@.len() && j != k implies #[trigger] uploads@[j].path@
                                != #[trigger] uploads@[k].path@ by {
                            if j < up.len() && k < up.len() {
                                assert(up[j] == uploads@[j] && up[k] == uploads@[k]);
                            } else if j < up.len() {
                                assert(before.slot_map().dom().contains(up[j].path@));
                            } else {
                                assert(before.slot_map().dom().contains(up[k].path@));
                            }
                        }
                        assert forall|p: Seq<char>|
                            #[trigger] self.slot_map().dom().contains(p) && !start.slot_map().dom().contains(p) implies exists|j: int|
                                0 <= j < uploads@.len() && #[trigger] uploads@[j].path@ == p by {
                            if p == path@ {
                                assert(uploads@[up.len() as int].path@ == p);
                            } else {
                                assert(before.slot_map().dom().contains(p));
                                let j = choose|j: int| 0 <= j < up.len() && #[trigger] up[j].path@ == p;
                                assert(uploads@[j] == up[j]);
                            }
                        }
                    }
                },
                Err(e) => {
                    proof {
                        assert(paths[i as int]@ == path@);
                        assert(frame_error_at(e, *self, *assets, paths[i as int]@));
                    }
                    return Err(e);
                },
            }
            proof {
                assert forall|p: Seq<char>| #[trigger] self.slot_map().dom().contains(p) <==> (
                    start.slot_map().dom().contains(p) || exists|j: int| 0 <= j < i + 1 && #[trigger] paths[j]@ == p) by {
                    if exists|j: int| 0 <= j < i + 1 && #[trigger] paths[j]@ == p {
                        let j = choose|j: int| 0 <= j < i + 1 && #[trigger] paths[j]@ == p;
                        if j < i {
                            assert(before.slot_map().dom().contains(p));
                        }
                    }
                    if before.slot_map().dom().contains(p) && !start.slot_map().dom().contains(p) {
                        let j = choose|j: int| 0 <= j < i && #[trigger] paths[j]@ == p;
                        assert(paths[j]@ == p);
                    }
                }
            }
            i = i + 1;
        }
        Ok((refs, uploads))
    }
}

/// The frame paths of a material slot: none for an empty slot.
pub open spec fn material_frame_paths(m: Option<&LevelManifestMaterial>) -> Seq<String> {
    match m {
        Some(m) => match m.frames {
            Some(f) => f@,
            None => Seq::empty(),
        },
        None => Seq::empty(),
    }
}

/// The frame paths of all the material slots, in order.
pub open spec fn all_frame_paths(ms: Seq<Option<&LevelManifestMaterial>>) -> Seq<String>
    decreases ms.len(),
{
    if ms.len() == 0 {
        Seq::empty()
    } else {
        all_frame_paths(ms.drop_last()) + material_frame_paths(ms.last())
    }
}

/// The frame paths of the first `n` slots begin those of all slots.
proof fn lemma_frame_paths_prefix(ms: Seq<Option<&LevelManifestMaterial>>, n: int)
    requires
        0 <= n <= ms.len(),
    ensures
        all_frame_paths(ms.take(n)).len() <= all_frame_paths(ms).len(),
        forall|j: int| 0 <= j < all_frame_paths(ms.take(n)).len() ==> #[trigger] all_frame_paths(ms.take(n))[j] == all_frame_paths(ms)[j],
    decreases ms.len(),
{
    if n == ms.len() {
        assert(ms.take(n) =~= ms);
    } else {
        lemma_frame_paths_prefix(ms.drop_last(), n);
        assert(ms.drop_last().take(n) =~= ms.take(n));
    }
}

/// What the renderer's material index holds for one material: its index
/// among the level's materials, its animation speed (as float bits), its
/// frames, its tint and its sampler mode.
#[derive(Debug)]
pub struct MaterialIndexEntry {
    pub index: u32,
    pub animation_speed: u32,
    pub frames: Vec<MaterialTextureRef>,
    pub color: Color,
    pub texture_addressing_mode: u32,
}

/// The materials of a level, loaded: an entry for each material slot that
/// has a material, where each frame went, and the pixels to write there.
pub struct LevelMaterialLoadResult {
    pub entries: Vec<Option<MaterialIndexEntry>>,
    pub frames: MaterialFrameAllocator,
    pub uploads: Vec<FrameUpload>,
}

/// The entry of material slot `i` is what the material gives, with each
/// frame where `slots` put it.
pub open spec fn entry_matches(
    e: Option<MaterialIndexEntry>,
    m: Option<&LevelManifestMaterial>,
    i: int,
    slots: Map<Seq<char>, TextureSlot>,
) -> bool {
    match m {
        None => e is None,
        Some(m) => e matches Some(e) && {
            let paths = material_frame_paths(Some(m));
            &&& e.index == i as u32
            &&& e.animation_speed == match m.animation_speed {
                Some(s) => s,
                None => DEFAULT_ANIMATION_SPEED_BITS,
            }
            &&& e.color == match m.color {
                Some(c) => c,
                None => Color { r: 255, g: 255, b: 255, a: 255 },
            }
            &&& e.texture_addressing_mode == match m.texture_addressing {
                Some(LevelManifestMaterialTextureAddressing::Nearest) => TEXTURE_ADDRESSING_NEAREST,
                _ => TEXTURE_ADDRESSING_LINEAR,
            }
            &&& e.frames@.len() == paths.len()
            &&& forall|k: int|
                0 <= k < paths.len() ==> slots.dom().contains(#[trigger] paths[k]@) && e.frames@[k]
                    == slots[paths[k]@].texture_ref
        },
    }
}

/// The distinct frame paths among `s` whose images array `b` holds.
pub open spec fn paths_in_bucket(assets: AssetManifest, s: Seq<String>, b: int) -> Set<Seq<char>> {
    Set::new(|p: Seq<char>| (exists|j: int| 0 <= j < s.len() && #[trigger] s[j]@ == p) && frame_bucket(assets, p) == Some(b))
}

/// No array is asked to hold more distinct frames of `s` than its layers.
pub open spec fn within_array_limits(assets: AssetManifest, s: Seq<String>) -> bool {
    forall|b: int| 0 <= b < TEXTURE_BUCKET_COUNT ==> #[trigger] paths_in_bucket(assets, s, b).len() <= texture_bucket_spec(b).layers
}

/// The error for the frame `s[j]`, met after the frames before it got their
/// layers: its asset does not decode, no array holds its size, or its array
/// is already full with frames before it.
pub open spec fn load_error_at(e: LevelMaterialLoadError, assets: AssetManifest, s: Seq<String>, j: int) -> bool {
    match frame_image(assets, s[j]@) {
        None => e is ImageDecode,
        Some((w, h, _)) => match texture_bucket_for(w, h) {
            None => e matches LevelMaterialLoadError::TextureBucketMissing { width, height }
                && width == w && height == h,
            Some(b) => paths_in_bucket(assets, s.take(j), b).len() == texture_bucket_spec(b).layers
                && (e matches LevelMaterialLoadError::TextureArrayWrite(x) && x.width == w
                && x.height == h && x.layers == texture_bucket_spec(b).layers),
        },
    }
}

/// Where the slots hold exactly the paths of `s`, each in the array of its
/// image, the slots in array `b` are the paths of `s` that array holds.
proof fn lemma_bucket_set(m: Map<Seq<char>, TextureSlot>, assets: AssetManifest, s: Seq<String>, b: int)
    requires
        forall|p: Seq<char>| #[trigger] m.dom().contains(p) <==> exists|j: int| 0 <= j < s.len() && #[trigger] s[j]@ == p,
        forall|p: Seq<char>| #[trigger] m.dom().contains(p) ==> frame_bucket(assets, p) == Some(m[p].bucket as int),
    ensures
        m.dom().filter(|p: Seq<char>| m[p].bucket == b) == paths_in_bucket(assets, s, b),
{
    assert(m.dom().filter(|p: Seq<char>| m[p].bucket == b) =~= paths_in_bucket(assets, s, b));
}

/// There are finitely many distinct paths in a sequence.
proof fn lemma_paths_in_bucket_finite(assets: AssetManifest, s: Seq<String>, b: int)
    ensures
        paths_in_bucket(assets, s, b).finite(),
    decreases s.len(),
{
    if s.len() == 0 {
        assert(paths_in_bucket(assets, s, b) =~= Set::<Seq<char>>::empty());
    } else {
        let t = s.drop_last();
        lemma_paths_in_bucket_finite(assets, t, b);
        let bigger = paths_in_bucket(assets, t, b).insert(s.last()@);
        assert forall|p: Seq<char>| paths_in_bucket(assets, s, b).contains(p) implies bigger.contains(p) by {
            let j = choose|j: int| 0 <= j < s.len() && #[trigger] s[j]@ == p;
            if j < t.len() {
                assert(t[j] == s[j]);
            }
        }
        vstd::set_lib::lemma_set_subset_finite(bigger, paths_in_bucket(assets, s, b));
    }
}

/// A frame refused because its array is full with the frames before it is
/// one frame too many for that array among all the frames.
proof fn lemma_full_array_breaks_limits(e: LevelMaterialLoadError, assets: AssetManifest, s: Seq<String>, j: int)
    requires
        0 <= j < s.len(),
        load_error_at(e, assets, s, j),
        frame_fits(assets, s[j]@),
        forall|l: int| 0 <= l < j ==> #[trigger] s[l]@ != s[j]@,
    ensures
        !within_array_limits(assets, s),
{
    let b = frame_bucket(assets, s[j]@)->0;
    let before = paths_in_bucket(assets, s.take(j), b);
    let all = paths_in_bucket(assets, s, b);
    lemma_paths_in_bucket_finite(assets, s.take(j), b);
    lemma_paths_in_bucket_finite(assets, s, b);
    assert(!before.contains(s[j]@)) by {
        if before.contains(s[j]@) {
            let l = choose|l: int| 0 <= l < s.take(j).len() && #[trigger] s.take(j)[l]@ == s[j]@;
            assert(s.take(j)[l] == s[l]);
        }
    }
    assert forall|p: Seq<char>| before.insert(s[j]@).contains(p) implies all.contains(p) by {
        if p != s[j]@ {
            let l = choose|l: int| 0 <= l < s.take(j).len() && #[trigger] s.take(j)[l]@ == p;
            assert(s.take(j)[l] == s[l]);
        }
    }
    vstd::set_lib::lemma_len_subset(before.insert(s[j]@), all);
}

/// Loads the materials of a level, slot by slot: each frame path gets a
/// texture layer the first time it is met, and each material an entry for
/// the material index. It succeeds exactly when every frame decodes to a
/// size that a texture array holds and no array gets more distinct frames
/// than its layers; else the first frame that cannot be given a layer gives
/// the error.
pub fn level_material_load(assets: &AssetManifest, materials: &[Option<&LevelManifestMaterial>]) -> (r: Result<
    LevelMaterialLoadResult,
    LevelMaterialLoadError,
>)
    requires
        forall|j: int| 0 <= j < all_frame_paths(materials@).len() ==> assets.asset_map().dom().contains(#[trigger] all_frame_paths(materials@)[j]@),
    ensures
        r is Ok <==> (forall|j: int| 0 <= j < all_frame_paths(materials@).len() ==> frame_fits(*assets, #[trigger] all_frame_paths(materials@)[j]@))
            && within_array_limits(*assets, all_frame_paths(materials@)),
        r matches Err(e) ==> exists|j: int| {
            &&& 0 <= j < all_frame_paths(materials@).len()
            &&& forall|l: int| 0 <= l < j ==> frame_fits(*assets, #[trigger] all_frame_paths(materials@)[l]@)
            &&& forall|l: int| 0 <= l < j ==> #[trigger] all_frame_paths(materials@)[l]@ != all_frame_paths(materials@)[j]@
            &&& within_array_limits(*assets, all_frame_paths(materials@).take(j))
            &&& load_error_at(e, *assets, all_frame_paths(materials@), j)
        },
        r matches Ok(res) ==> {
            &&& res.frames.wf()
            &&& res.entries@.len() == materials@.len()
            &&& forall|i: int| 0 <= i < materials@.len() ==> entry_matches(#[trigger] res.entries@[i], materials@[i], i, res.frames.slot_map())
            &&& forall|p: Seq<char>| #[trigger] res.frames.slot_map().dom().contains(p) <==> exists|j: int|
                0 <= j < all_frame_paths(materials@).len() && #[trigger] all_frame_paths(materials@)[j]@ == p
            &&& uploads_cover(Map::empty(), res.frames.slot_map(), *assets, res.uploads@)
        },
{
    let ghost ms = materials@;
    let ghost all = all_frame_paths(ms);
    let mut frames = MaterialFrameAllocator::new();
    let mut entries: Vec<Option<MaterialIndexEntry>> = Vec::new();
    let mut uploads: Vec<FrameUpload> = Vec::new();
    let mut i: usize = 0;
    while i < materials.len()
        invariant
            ms == materials@,
            all == all_frame_paths(ms),
            i <= ms.len(),
            forall|j: int| 0 <= j < all.len() ==> assets.asset_map().dom().contains(#[trigger] all[j]@),
            frames.wf(),
            entries@.len() == i,
            forall|k: int| 0 <= k < i ==> entry_matches(#[trigger] entries@[k], ms[k], k, frames.slot_map()),
            forall|p: Seq<char>| #[trigger] frames.slot_map().dom().contains(p) <==> exists|j: int|
                0 <= j < all_frame_paths(ms.take(i as int)).len() && #[trigger] all_frame_paths(ms.take(i as int))[j]@ == p,
            forall|j: int| 0 <= j < all_frame_paths(ms.take(i as int)).len() ==> frame_fits(*assets, #[trigger] all_frame_paths(ms.take(i as int))[j]@),
            forall|p: Seq<char>| #[trigger] frames.slot_map().dom().contains(p) ==> frame_fits(*assets, p)
                && frame_bucket(*assets, p) == Some(frames.slot_map()[p].bucket as int),
            uploads_cover(Map::empty(), frames.slot_map(), *assets, uploads@),
        decreases ms.len() - i,
    {
        let ghost prefix = all_frame_paths(ms.take(i as int));
        let ghost next = all_frame_paths(ms.take(i + 1));
        proof {
            assert(ms.take(i + 1).drop_last() =~= ms.take(i as int));
            assert(next =~= prefix + material_frame_paths(ms[i as int]));
            lemma_frame_paths_prefix(ms, i + 1);
        }
        match materials[i] {
            None => {
                entries.push(None);
                proof {
                    assert(next =~= prefix);
                }
            },
            Some(m) => {
                let paths = m.frames_or_empty();
                let ghost before = frames;
                let ghost up = uploads@;
                let ghost old_entries = entries@;
                let ghost ps = paths@;
                proof {
                    assert(ps == material_frame_paths(ms[i as int]));
                    assert forall|k: int| 0 <= k < ps.len() implies assets.asset_map().dom().contains(#[trigger] ps[k]@) by {
                        assert(next[prefix.len() + k] == ps[k]);
                        assert(all[prefix.len() + k] == next[prefix.len() + k]);
                    }
                }
                match frames.frame_refs_load(assets, paths) {
                    Ok((refs, new_uploads)) => {
                        let ghost nu = new_uploads@;
                        entries.push(Some(MaterialIndexEntry {
                            index: i as u32,
                            animation_speed: m.animation_speed_or_default(),
                            frames: refs,
                            color: m.color_or_default(),
                            texture_addressing_mode: m.texture_addressing_mode(),
                        }));
                        let mut new_uploads = new_uploads;
                        uploads.append(&mut new_uploads);
                        proof {
                            let after = frames.slot_map();
                            let bm = before.slot_map();
                            assert forall|k: int| 0 <= k < ps.len() implies frame_fits(*assets, #[trigger] ps[k]@) by {
                                assert(after.dom().contains(ps[k]@));
                            }
                            assert forall|k: int| 0 <= k <= i implies entry_matches(#[trigger] entries@[k], ms[k], k, after) by {
                                if k < i {
                                    assert(entries@[k] == old_entries[k]);
                                    assert(entry_matches(old_entries[k], ms[k], k, bm));
                                }
                            }
                            assert forall|p: Seq<char>| #[trigger] after.dom().contains(p) implies frame_fits(*assets, p)
                                && frame_bucket(*assets, p) == Some(after[p].bucket as int) by {
                                if bm.dom().contains(p) {
                                    assert(after[p] == bm[p]);
                                }
                            }
                            assert forall|p: Seq<char>| #[trigger] after.dom().contains(p) <==> exists|j: int|
                                0 <= j < next.len() && #[trigger] next[j]@ == p by {
                                if after.dom().contains(p) {
                                    if bm.dom().contains(p) {
                                        let j = choose|j: int| 0 <= j < prefix.len() && #[trigger] prefix[j]@ == p;
                                        assert(next[j] == prefix[j]);
                                    } else {
                                        let k = choose|k: int| 0 <= k < ps.len() && #[trigger] ps[k]@ == p;
                                        assert(next[prefix.len() + k] == ps[k]);
                                    }
                                }
                                if exists|j: int| 0 <= j < next.len() && #[trigger] next[j]@ == p {
                                    let j = choose|j: int| 0 <= j < next.len() && #[trigger] next[j]@ == p;
                                    if j < prefix.len() {
                                        assert(next[j] == prefix[j]);
                                        assert(bm.dom().contains(p));
                                    } else {
                                        assert(next[j] == ps[j - prefix.len()]);
                                        assert(after.dom().contains(ps[j - prefix.len()]@));
                                    }
                                }
                            }
                            assert forall|j: int| 0 <= j < next.len() implies frame_fits(*assets, #[trigger] next[j]@) by {
                                if j < prefix.len() {
                                    assert(next[j] == prefix[j]);
                                } else {
                                    assert(next[j] == ps[j - prefix.len()]);
                                }
                            }
                            let ups = uploads@;
                            assert(ups =~= up + nu);
                            assert forall|j: int| 0 <= j < ups.len() implies {
                                let u = #[trigger] ups[j];
                                &&& !Map::<Seq<char>, TextureSlot>::empty().dom().contains(u.path@)
                                &&& after.dom().contains(u.path@)
                                &&& after[u.path@] == u.slot
                                &&& frame_image(*assets, u.path@) == Some((u.width, u.height, u.pixels@))
                            } by {
                                if j < up.len() {
                                    assert(ups[j] == up[j]);
                                    assert(bm.dom().contains(up[j].path@));
                                } else {
                                    assert(ups[j] == nu[j - up.len()]);
                                }
                            }
                            assert forall|j: int, k: int|
                                0 <= j < ups.len() && 0 <= k < ups.len() && j != k implies #[trigger] ups[j].path@
                                    != #[trigger] ups[k].path@ by {
                                if j < up.len() && k < up.len() {
                                    assert(ups[j] == up[j] && ups[k] == up[k]);
                                } else if j < up.len() {
                                    assert(ups[j] == up[j] && ups[k] == nu[k - up.len()]);
                                    assert(bm.dom().contains(up[j].path@));
                                } else if k < up.len() {
                                    assert(ups[k] == up[k] && ups[j] == nu[j - up.len()]);
                                    assert(bm.dom().contains(up[k].path@));
                                } else {
                                    assert(ups[j] == nu[j - up.len()] && ups[k] == nu[k - up.len()]);
                                }
                            }
                            assert forall|p: Seq<char>|
                                #[trigger] after.dom().contains(p) && !Map::<Seq<char>, TextureSlot>::empty().dom().contains(p) implies exists|j: int|
                                    0 <= j < ups.len() && #[trigger] ups[j].path@ == p by {
                                if bm.dom().contains(p) {
                                    let j = choose|j: int| 0 <= j < up.len() && #[trigger] up[j].path@ == p;
                                    assert(ups[j] == up[j]);
                                } else {
                                    let j = choose|j: int| 0 <= j < nu.len() && #[trigger] nu[j].path@ == p;
                                    assert(ups[up.len() + j] == nu[j]);
                                }
                            }
                        }
                    },
                    Err(e) => {
                        proof {
                            let f = frames.slot_map();
                            let bm = before.slot_map();
                            let k = choose|k: int| {
                                &&& 0 <= k < ps.len()
                                &&& forall|p: Seq<char>| #[trigger] f.dom().contains(p) <==> (
                                    bm.dom().contains(p) || exists|l: int| 0 <= l < k && #[trigger] ps[l]@ == p)
                                &&& !f.dom().contains(ps[k]@)
                                &&& frame_error_at(e, frames, *assets, #[trigger] ps[k]@)
                            };
                            let j = prefix.len() + k;
                            let head = all.take(j);
                            assert(next[j] == ps[k]);
                            assert(all[j] == ps[k]);
                            assert forall|l: int| 0 <= l < j implies #[trigger] head[l] == all[l] && all[l] == (if l < prefix.len() {
                                prefix[l]
                            } else {
                                ps[l - prefix.len()]
                            }) by {
                                assert(all[l] == next[l]);
                            }
                            assert forall|p: Seq<char>| #[trigger] f.dom().contains(p) <==> exists|l: int|
                                0 <= l < head.len() && #[trigger] head[l]@ == p by {
                                if f.dom().contains(p) {
                                    if bm.dom().contains(p) {
                                        let l = choose|l: int| 0 <= l < prefix.len() && #[trigger] prefix[l]@ == p;
                                        assert(head[l] == prefix[l]);
                                    } else {
                                        let l = choose|l: int| 0 <= l < k && #[trigger] ps[l]@ == p;
                                        assert(head[prefix.len() + l] == ps[l]);
                                    }
                                }
                                if exists|l: int| 0 <= l < head.len() && #[trigger] head[l]@ == p {
                                    let l = choose|l: int| 0 <= l < head.len() && #[trigger] head[l]@ == p;
                                    if l < prefix.len() {
                                        assert(bm.dom().contains(prefix[l]@));
                                    } else {
                                        assert(head[l] == ps[l - prefix.len()]);
                                    }
                                }
                            }
                            assert forall|p: Seq<char>| #[trigger] f.dom().contains(p) implies frame_fits(*assets, p)
                                && frame_bucket(*assets, p) == Some(f[p].bucket as int) by {
                                if bm.dom().contains(p) {
                                    assert(f[p] == bm[p]);
                                }
                            }
                            assert forall|l: int| 0 <= l < j implies frame_fits(*assets, #[trigger] all[l]@) by {
                                assert(head[l] == all[l]);
                                assert(f.dom().contains(head[l]@));
                            }
                            assert forall|l: int| 0 <= l < j implies #[trigger] all[l]@ != all[j]@ by {
                                assert(head[l] == all[l]);
                                assert(f.dom().contains(head[l]@));
                            }
                            assert forall|b: int| 0 <= b < TEXTURE_BUCKET_COUNT implies #[trigger] paths_in_bucket(*assets, head, b).len()
                                == frames.next_free_layer(b) by {
                                lemma_bucket_set(f, *assets, head, b);
                            }
                            assert(within_array_limits(*assets, head));
                            assert(load_error_at(e, *assets, all, j));
                            if frame_fits(*assets, all[j]@) {
                                lemma_full_array_breaks_limits(e, *assets, all, j);
                            }
                        }
                        return Err(e);
                    },
                }
            },
        }
        i = i + 1;
    }
    proof {
        assert(ms.take(ms.len() as int) =~= ms);
        assert(all_frame_paths(ms.take(i as int)) == all);
        assert forall|b: int| 0 <= b < TEXTURE_BUCKET_COUNT implies #[trigger] paths_in_bucket(*assets, all, b).len()
            <= texture_bucket_spec(b).layers by {
            lemma_bucket_set(frames.slot_map(), *assets, all, b);
            assert(frames.next_free_layer(b) <= texture_bucket_spec(b).layers);
        }
    }
    Ok(LevelMaterialLoadResult { entries, frames, uploads })
}

/// A frame is loaded once however many materials use it: in the loaded
/// materials, wherever the same frame path appears, the entries refer to
/// the same texture layer.
pub proof fn law_shared_frames_share_a_layer(
    res: LevelMaterialLoadResult,
    materials: Seq<Option<&LevelManifestMaterial>>,
    i: int,
    k: int,
    j: int,
    l: int,
)
    requires
        res.entries@.len() == materials.len(),
        forall|m: int| 0 <= m < materials.len() ==> entry_matches(#[trigger] res.entries@[m], materials[m], m, res.frames.slot_map()),
        0 <= i < materials.len(),
        0 <= j < materials.len(),
        0 <= k < material_frame_paths(materials[i]).len(),
        0 <= l < material_frame_paths(materials[j]).len(),
        material_frame_paths(materials[i])[k]@ == material_frame_paths(materials[j])[l]@,
    ensures
        res.entries@[i] is Some && res.entries@[j] is Some,
        res.entries@[i]->Some_0.frames@[k] == res.entries@[j]->Some_0.frames@[l],
{
    assert(entry_matches(res.entries@[i], materials[i], i, res.frames.slot_map()));
    assert(entry_matches(res.entries@[j], materials[j], j, res.frames.slot_map()));
}

/// Every frame gets a layer of its own: two frame paths never share a slot
/// or a texture reference, and each layer lies within its array's layers.
pub proof fn law_frames_get_their_own_layers(a: MaterialFrameAllocator, p: Seq<char>, q: Seq<char>)
    requires
        a.wf(),
        a.slot_map().dom().contains(p),
        a.slot_map().dom().contains(q),
        p != q,
    ensures
        (a.slot_map()[p].bucket, a.slot_map()[p].layer) != (a.slot_map()[q].bucket,
        a.slot_map()[q].layer),
        a.slot_map()[p].layer < a.next_free_layer(a.slot_map()[p].bucket as int),
        a.slot_map()[p].layer < texture_bucket_spec(a.slot_map()[p].bucket as int).layers,
        a.slot_map()[p].texture_ref != a.slot_map()[q].texture_ref,
{
    let sp = a.cache@[p];
    let sq = a.cache@[q];
    assert((sp.bucket, sp.layer) != (sq.bucket, sq.layer));
    assert(a.next_free@[sp.bucket as int] <= texture_bucket_spec(sp.bucket as int).layers);
    assert(a.next_free@[sq.bucket as int] <= texture_bucket_spec(sq.bucket as int).layers);
    assert(texture_bucket_spec(sp.bucket as int).layers <= 256);
    assert(texture_bucket_spec(sq.bucket as int).layers <= 256);
}

/// The sampler mode number of a texture addressing.
pub fn texture_addressing_mode_get(addressing: LevelManifestMaterialTextureAddressing) -> (m: u32)
    ensures
        addressing == LevelManifestMaterialTextureAddressing::Linear ==> m
            == TEXTURE_ADDRESSING_LINEAR,
        addressing == LevelManifestMaterialTextureAddressing::Nearest ==> m
            == TEXTURE_ADDRESSING_NEAREST,
{
    match addressing {
        LevelManifestMaterialTextureAddressing::Linear => TEXTURE_ADDRESSING_LINEAR,
        LevelManifestMaterialTextureAddressing::Nearest => TEXTURE_ADDRESSING_NEAREST,
    }
}

impl LevelManifestMaterial {
    /// The frame paths, none when the manifest gives none.
    pub fn frames_or_empty(&self) -> (r: &[String])
        ensures
            r@ == match self.frames {
                Some(f) => f@,
                None => Seq::<String>::empty(),
            },
    {
        match &self.frames {
            Some(f) => f.as_slice(),
            None => &[],
        }
    }

    /// The animation speed, 0.5 when the manifest gives none (as float bits).
    pub fn animation_speed_or_default(&self) -> (s: u32)
        ensures
            s == match self.animation_speed {
                Some(s) => s,
                None => DEFAULT_ANIMATION_SPEED_BITS,
            },
    {
        match self.animation_speed {
            Some(s) => s,
            None => DEFAULT_ANIMATION_SPEED_BITS,
        }
    }

    /// The tint, white when the manifest gives none.
    pub fn color_or_default(&self) -> (c: Color)
        ensures
            c == match self.color {
                Some(c) => c,
                None => Color { r: 255, g: 255, b: 255, a: 255 },
            },
    {
        match self.color {
            Some(c) => c,
            None => Color::white(),
        }
    }

    /// The sampler mode number, linear when the manifest gives none.
    pub fn texture_addressing_mode(&self) -> (m: u32)
        ensures
            m == match self.texture_addressing {
                Some(LevelManifestMaterialTextureAddressing::Nearest) => TEXTURE_ADDRESSING_NEAREST,
                _ => TEXTURE_ADDRESSING_LINEAR,
            },
    {
        match self.texture_addressing {
            Some(a) => texture_addressing_mode_get(a),
            None => texture_addressing_mode_get(LevelManifestMaterialTextureAddressing::Linear),
        }
    }
}

} // verus!
