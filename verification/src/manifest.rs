//! The level manifest: what a level is made of and where its assets are.
//!
//! The JSON text of a manifest is decoded outside the library; what it
//! decodes to is held here, checked here, and read here.
use vstd::prelude::*;
use vstd::utf8::valid_utf8;
use vstd::string::StringSliceAdditionalSpecFns;
use crate::color::Color;
use crate::fetch::FetchError;
use crate::keyed::{entries_map, keys_unique, lemma_entries_map_lookup, KeyedTable};

verus! {

/// The most portals that a level may have.
pub const MAX_PORTALS: usize = 4;

/// The manifest format this library reads is version "coco", with at most
/// four portals.
pub proof fn law_manifest_format()
    ensures
        manifest_version() == "coco"@,
        MAX_PORTALS == 4,
{
}

/// The manifest format version that this library reads.
pub open spec fn manifest_version() -> Seq<char> {
    "coco"@
}

/// How a material's texture is sampled.
#[derive(Clone, Copy, PartialEq, Eq, Structural, Debug)]
pub enum LevelManifestMaterialTextureAddressing {
    Linear,
    Nearest,
}

/// The appearance of one material of the level model. The animation speed
/// is a 32-bit float, held as its IEEE-754 bit pattern.
#[derive(Debug)]
pub struct LevelManifestMaterial {
    pub frames: Option<Vec<String>>,
    pub animation_speed: Option<u32>,
    pub color: Option<Color>,
    pub texture_addressing: Option<LevelManifestMaterialTextureAddressing>,
}

/// Where a portal leads: a manifest (relative to this one) and a portal in it.
#[derive(Debug)]
pub struct LevelManifestPortalTarget {
    pub href: String,
    pub name: String,
}

/// A portal of the level: its collider model and, optionally, its target.
#[derive(Debug)]
pub struct LevelManifestPortal {
    pub collider: String,
    pub target: Option<LevelManifestPortalTarget>,
}

/// The level itself. The spawn position is three 32-bit floats, held as
/// their IEEE-754 bit patterns.
#[derive(Debug)]
pub struct LevelManifestLevel {
    pub model: String,
    pub collider: Option<String>,
    pub track: Option<String>,
    pub spawn: Option<[u32; 3]>,
    pub materials: KeyedTable<LevelManifestMaterial>,
}

/// The name and author shown for a level.
#[derive(Debug)]
pub struct LevelManifestMeta {
    pub name: String,
    pub author: Option<String>,
}

/// A decoded level manifest.
#[derive(Debug)]
pub struct LevelManifest {
    pub version: String,
    pub meta: LevelManifestMeta,
    pub level: LevelManifestLevel,
    pub portals: KeyedTable<LevelManifestPortal>,
}

/// Why a manifest could not be loaded.
#[derive(Debug)]
pub enum LevelManifestLoadError {
    Fetch(FetchError),
    UTF8(std::str::Utf8Error),
    Decode(serde_json::Error),
    TooManyPortals,
    InvalidVersion,
}

/// Why the assets of a manifest could not be fetched.
#[derive(Debug)]
pub enum LevelManifestAssetsError {
    Fetch(FetchError),
}

/// Calls `std::str::from_utf8`, which accepts exactly the byte strings that
/// are valid UTF-8 and then views the same bytes as text.
#[verifier::external_body]
fn str_from_utf8(data: &[u8]) -> (r: Result<&str, std::str::Utf8Error>)
    ensures
        r is Ok <==> valid_utf8(data@),
        r matches Ok(s) ==> s.spec_bytes() == data@,
{
    std::str::from_utf8(data)
}

impl LevelManifestLevel {
    /// The materials of the level, by name.
    pub open spec fn material_map(&self) -> Map<Seq<char>, LevelManifestMaterial> {
        self.materials@
    }

    /// A level whose materials are the given pairs, inserted in order (a later
    /// pair replaces an earlier one of the same name).
    pub fn new(
        model: String,
        collider: Option<String>,
        track: Option<String>,
        spawn: Option<[u32; 3]>,
        materials: Vec<(String, LevelManifestMaterial)>,
    ) -> (l: Self)
        ensures
            l.model == model,
            l.collider == collider,
            l.track == track,
            l.spawn == spawn,
            l.material_map() == entries_map(materials@),
    {
        LevelManifestLevel {
            model,
            collider,
            track,
            spawn,
            materials: KeyedTable::from_pairs(materials),
        }
    }

    /// The model the level's collider is built from: the collider model where
    /// the manifest names one, else the level's own model.
    pub fn collider_href(&self) -> (r: &str)
        ensures
            r@ == match self.collider {
                Some(c) => c@,
                None => self.model@,
            },
    {
        match &self.collider {
            Some(c) => c.as_str(),
            None => self.model.as_str(),
        }
    }

    /// The material of the given name.
    pub fn material(&self, name: &str) -> (r: Option<&LevelManifestMaterial>)
        ensures
            r is Some <==> self.material_map().dom().contains(name@),
            r matches Some(m) ==> *m == self.material_map()[name@],
    {
        self.materials.get(name)
    }

    /// Every material of the level once, with its name.
    pub fn material_iter(&self) -> (r: &Vec<(String, LevelManifestMaterial)>)
        ensures
            keys_unique(r@),
            self.material_map() == entries_map(r@),
    {
        self.materials.entries()
    }
}

/// The hrefs that an optional href contributes.
pub open spec fn optional_href(h: Option<String>) -> Set<Seq<char>> {
    match h {
        Some(s) => set![s@],
        None => Set::empty(),
    }
}

/// The material lists `h` among its frames.
pub open spec fn material_has_frame(m: LevelManifestMaterial, h: Seq<char>) -> bool {
    m.frames matches Some(fs) && exists|i: int| 0 <= i < fs.len() && #[trigger] fs[i]@ == h
}

/// Every asset that the manifest refers to: the model, the collider and the
/// track if given, the collider of each portal and every frame of every
/// material.
pub open spec fn referenced_hrefs(m: LevelManifest) -> Set<Seq<char>> {
    set![m.level.model@].union(optional_href(m.level.collider)).union(
        optional_href(m.level.track),
    ).union(
        Set::new(
            |h: Seq<char>|
                exists|k: Seq<char>| #[trigger]
                    m.portal_map().dom().contains(k) && m.portal_map()[k].collider@ == h,
        ),
    ).union(
        Set::new(
            |h: Seq<char>|
                exists|k: Seq<char>| #[trigger]
                    m.level.material_map().dom().contains(k) && material_has_frame(
                        m.level.material_map()[k],
                        h,
                    ),
        ),
    )
}

/// The hrefs in a list, as text.
pub open spec fn href_set(v: Seq<String>) -> Set<Seq<char>> {
    Set::new(|h: Seq<char>| exists|i: int| 0 <= i < v.len() && #[trigger] v[i]@ == h)
}

/// No href occurs twice in the list.
pub open spec fn hrefs_distinct(v: Seq<String>) -> bool {
    forall|i: int, j: int|
        0 <= i < v.len() && 0 <= j < v.len() && i != j ==> #[trigger] v[i]@ != #[trigger] v[j]@
}

/// Adds `h` to a list of distinct hrefs unless it is there already.
fn href_insert(hrefs: &mut Vec<String>, h: String)
    requires
        hrefs_distinct(old(hrefs)@),
    ensures
        hrefs_distinct(final(hrefs)@),
        href_set(final(hrefs)@) == href_set(old(hrefs)@).insert(h@),
{
    let ghost before = hrefs@;
    let mut i: usize = 0;
    while i < hrefs.len()
        invariant
            hrefs@ == before,
            hrefs_distinct(before),
            i <= hrefs@.len(),
            forall|j: int| 0 <= j < i ==> #[trigger] hrefs@[j]@ != h@,
        decreases hrefs@.len() - i,
    {
        if hrefs[i] == h {
            assert(href_set(before).insert(h@) =~= href_set(before)) by {
                assert(before[i as int]@ == h@);
            }
            return;
        }
        i = i + 1;
    }
    hrefs.push(h);
    assert(hrefs@.drop_last() == before);
    assert forall|x: Seq<char>|
        href_set(hrefs@).contains(x) <==> href_set(before).insert(h@).contains(x) by {
        if href_set(before).contains(x) {
            let j = choose|j: int| 0 <= j < before.len() && #[trigger] before[j]@ == x;
            assert(hrefs@[j]@ == x);
        }
        if x == h@ {
            assert(hrefs@[before.len() as int]@ == x);
        }
    }
    assert(href_set(hrefs@) =~= href_set(before).insert(h@));
}

impl LevelManifest {
    /// The portals of the level, by name.
    pub open spec fn portal_map(&self) -> Map<Seq<char>, LevelManifestPortal> {
        self.portals@
    }

    /// A manifest whose portals are the given pairs, inserted in order (a
    /// later pair replaces an earlier one of the same name).
    pub fn new(
        version: String,
        meta: LevelManifestMeta,
        level: LevelManifestLevel,
        portals: Vec<(String, LevelManifestPortal)>,
    ) -> (m: Self)
        ensures
            m.version == version,
            m.meta == meta,
            m.level == level,
            m.portal_map() == entries_map(portals@),
    {
        LevelManifest { version, meta, level, portals: KeyedTable::from_pairs(portals) }
    }

    /// Every portal of the level once, with its name.
    pub fn portal_iter(&self) -> (r: &Vec<(String, LevelManifestPortal)>)
        ensures
            keys_unique(r@),
            self.portal_map() == entries_map(r@),
    {
        self.portals.entries()
    }

    /// The portal of the given name.
    pub fn portal(&self, name: &str) -> (r: Option<&LevelManifestPortal>)
        ensures
            r is Some <==> self.portal_map().dom().contains(name@),
            r matches Some(p) ==> *p == self.portal_map()[name@],
    {
        self.portals.get(name)
    }

    /// The text of a fetched manifest: the bytes must be UTF-8.
    pub fn decode_text(data: &[u8]) -> (r: Result<&str, LevelManifestLoadError>)
        ensures
            r is Ok <==> valid_utf8(data@),
            r matches Ok(s) ==> s.spec_bytes() == data@,
            r is Err ==> r matches Err(LevelManifestLoadError::UTF8(_)),
    {
        match str_from_utf8(data) {
            Ok(s) => Ok(s),
            Err(e) => Err(LevelManifestLoadError::UTF8(e)),
        }
    }

    /// Accepts a decoded manifest of the supported version with at most
    /// `MAX_PORTALS` portals; the version is checked first.
    pub fn validate(self) -> (r: Result<LevelManifest, LevelManifestLoadError>)
        ensures
            r matches Err(LevelManifestLoadError::InvalidVersion) <==> self.version@
                != manifest_version(),
            r matches Err(LevelManifestLoadError::TooManyPortals) <==> self.version@
                == manifest_version() && self.portal_map().dom().len() > MAX_PORTALS,
            r is Ok <==> self.version@ == manifest_version() && self.portal_map().dom().len()
                <= MAX_PORTALS,
            r matches Ok(m) ==> m == self,
    {
        let expected = "coco".to_owned();
        if self.version != expected {
            return Err(LevelManifestLoadError::InvalidVersion);
        }
        if self.portals.len() > MAX_PORTALS {
            return Err(LevelManifestLoadError::TooManyPortals);
        }
        Ok(self)
    }

    /// Every asset that the manifest refers to, each once.
    pub fn asset_hrefs(&self) -> (r: Vec<String>)
        ensures
            hrefs_distinct(r@),
            href_set(r@) == referenced_hrefs(*self),
    {
        let mut hrefs: Vec<String> = Vec::new();
        href_insert(&mut hrefs, self.level.model.clone());
        match &self.level.collider {
            Some(c) => href_insert(&mut hrefs, c.clone()),
            None => {},
        }
        match &self.level.track {
            Some(t) => href_insert(&mut hrefs, t.clone()),
            None => {},
        }
        let ghost fixed = set![self.level.model@].union(optional_href(self.level.collider)).union(
            optional_href(self.level.track),
        );
        assert(href_set(hrefs@) =~= fixed);

        let portals = self.portal_iter();
        let mut i: usize = 0;
        while i < portals.len()
            invariant
                i <= portals@.len(),
                hrefs_distinct(hrefs@),
                href_set(hrefs@) == fixed.union(
                    Set::new(
                        |h: Seq<char>|
                            exists|j: int| 0 <= j < i && #[trigger] portals@[j].1.collider@ == h,
                    ),
                ),
            decreases portals@.len() - i,
        {
            let ghost seen = Set::new(
                |h: Seq<char>| exists|j: int| 0 <= j < i && #[trigger] portals@[j].1.collider@ == h,
            );
            href_insert(&mut hrefs, portals[i].1.collider.clone());
            i = i + 1;
            let ghost seen_next = Set::new(
                |h: Seq<char>| exists|j: int| 0 <= j < i && #[trigger] portals@[j].1.collider@ == h,
            );
            assert forall|h: Seq<char>| #[trigger]
                seen_next.contains(h) <==> seen.insert(portals@[i - 1].1.collider@).contains(h) by {
                if seen_next.contains(h) {
                    let j = choose|j: int| 0 <= j < i && #[trigger] portals@[j].1.collider@ == h;
                    if j < i - 1 {
                        assert(seen.contains(h));
                    }
                }
            }
            assert(seen_next =~= seen.insert(portals@[i - 1].1.collider@));
            assert(href_set(hrefs@) =~= fixed.union(seen_next));
        }
        let ghost with_portals = href_set(hrefs@);
        let ghost by_pairs = Set::new(
            |h: Seq<char>|
                exists|j: int| 0 <= j < portals@.len() && #[trigger] portals@[j].1.collider@ == h,
        );
        let ghost by_map = Set::new(
            |h: Seq<char>|
                exists|k: Seq<char>| #[trigger]
                    self.portal_map().dom().contains(k) && self.portal_map()[k].collider@ == h,
        );
        assert forall|h: Seq<char>| #[trigger] by_map.contains(h) <==> by_pairs.contains(h) by {
            if by_map.contains(h) {
                let k = choose|k: Seq<char>| #[trigger]
                    self.portal_map().dom().contains(k) && self.portal_map()[k].collider@ == h;
                lemma_entries_map_lookup(portals@, k);
                let j = choose|j: int| 0 <= j < portals@.len() && #[trigger] portals@[j].0@ == k;
                assert(portals@[j].1.collider@ == h);
            }
            if by_pairs.contains(h) {
                let j = choose|j: int|
                    0 <= j < portals@.len() && #[trigger] portals@[j].1.collider@ == h;
                let k = portals@[j].0@;
                lemma_entries_map_lookup(portals@, k);
                assert(self.portal_map().dom().contains(k) && self.portal_map()[k].collider@ == h);
            }
        }
        assert(by_map =~= by_pairs);

        let materials = self.level.material_iter();
        let mut m: usize = 0;
        while m < materials.len()
            invariant
                m <= materials@.len(),
                hrefs_distinct(hrefs@),
                href_set(hrefs@) == with_portals.union(
                    Set::new(
                        |h: Seq<char>|
                            exists|j: int|
                                0 <= j < m && #[trigger] material_has_frame(
                                    materials@[j].1,
                                    h,
                                ),
                    ),
                ),
            decreases materials@.len() - m,
        {
            let ghost before = href_set(hrefs@);
            match &materials[m].1.frames {
                Some(frames) => {
                    let mut f: usize = 0;
                    while f < frames.len()
                        invariant
                            f <= frames@.len(),
                            m < materials@.len(),
                            materials@[m as int].1.frames == Some(*frames),
                            hrefs_distinct(hrefs@),
                            href_set(hrefs@) == before.union(
                                Set::new(
                                    |h: Seq<char>|
                                        exists|g: int| 0 <= g < f && #[trigger] frames@[g]@ == h,
                                ),
                            ),
                        decreases frames@.len() - f,
                    {
                        let ghost seen = Set::new(
                            |h: Seq<char>| exists|g: int| 0 <= g < f && #[trigger] frames@[g]@ == h,
                        );
                        href_insert(&mut hrefs, frames[f].clone());
                        f = f + 1;
                        let ghost seen_next = Set::new(
                            |h: Seq<char>| exists|g: int| 0 <= g < f && #[trigger] frames@[g]@ == h,
                        );
                        assert forall|h: Seq<char>| #[trigger]
                            seen_next.contains(h) <==> seen.insert(frames@[f - 1]@).contains(h) by {
                            if seen_next.contains(h) {
                                let g = choose|g: int| 0 <= g < f && #[trigger] frames@[g]@ == h;
                                if g < f - 1 {
                                    assert(seen.contains(h));
                                }
                            }
                        }
                        assert(seen_next =~= seen.insert(frames@[f - 1]@));
                        assert(href_set(hrefs@) =~= before.union(seen_next));
                    }
                    let ghost all_frames = Set::new(
                        |h: Seq<char>|
                            exists|g: int| 0 <= g < frames@.len() && #[trigger] frames@[g]@ == h,
                    );
                    assert forall|h: Seq<char>| #[trigger]
                        all_frames.contains(h) <==> material_has_frame(
                            materials@[m as int].1,
                            h,
                        ) by {}
                },
                None => {},
            }
            let ghost seen = Set::new(
                |h: Seq<char>|
                    exists|j: int| 0 <= j < m && #[trigger] material_has_frame(materials@[j].1, h),
            );
            m = m + 1;
            let ghost seen_next = Set::new(
                |h: Seq<char>|
                    exists|j: int| 0 <= j < m && #[trigger] material_has_frame(materials@[j].1, h),
            );
            let ghost this_frames = Set::new(
                |h: Seq<char>| material_has_frame(materials@[m - 1].1, h),
            );
            assert forall|h: Seq<char>| #[trigger]
                seen_next.contains(h) <==> seen.union(this_frames).contains(h) by {
                if seen_next.contains(h) {
                    let j = choose|j: int|
                        0 <= j < m && #[trigger] material_has_frame(materials@[j].1, h);
                    if j < m - 1 {
                        assert(seen.contains(h));
                    }
                }
                if this_frames.contains(h) {
                    assert(material_has_frame(materials@[m - 1].1, h));
                }
            }
            assert(seen_next =~= seen.union(this_frames));
            assert(href_set(hrefs@) =~= with_portals.union(seen_next));
        }
        let ghost frames_by_pairs = Set::new(
            |h: Seq<char>|
                exists|j: int|
                    0 <= j < materials@.len() && #[trigger] material_has_frame(materials@[j].1, h),
        );
        let ghost frames_by_map = Set::new(
            |h: Seq<char>|
                exists|k: Seq<char>| #[trigger]
                    self.level.material_map().dom().contains(k) && material_has_frame(
                        self.level.material_map()[k],
                        h,
                    ),
        );
        assert forall|h: Seq<char>| #[trigger]
            frames_by_map.contains(h) <==> frames_by_pairs.contains(h) by {
            if frames_by_map.contains(h) {
                let k = choose|k: Seq<char>| #[trigger]
                    self.level.material_map().dom().contains(k) && material_has_frame(
                        self.level.material_map()[k],
                        h,
                    );
                lemma_entries_map_lookup(materials@, k);
                let j = choose|j: int| 0 <= j < materials@.len() && #[trigger] materials@[j].0@ == k;
                assert(material_has_frame(materials@[j].1, h));
            }
            if frames_by_pairs.contains(h) {
                let j = choose|j: int|
                    0 <= j < materials@.len() && #[trigger] material_has_frame(materials@[j].1, h);
                let k = materials@[j].0@;
                lemma_entries_map_lookup(materials@, k);
                assert(self.level.material_map().dom().contains(k) && material_has_frame(
                    self.level.material_map()[k],
                    h,
                ));
            }
        }
        assert(frames_by_map =~= frames_by_pairs);
        assert(href_set(hrefs@) =~= referenced_hrefs(*self));
        hrefs
    }
}

} // verus!
