use hallways::assets::AssetManifest;
use hallways::color::Color;
use hallways::fetch::FetchError;
use hallways::manifest::{
    LevelManifest, LevelManifestLevel, LevelManifestLoadError, LevelManifestMaterial,
    LevelManifestMaterialTextureAddressing, LevelManifestMeta, LevelManifestPortal,
    LevelManifestPortalTarget,
};

// Each test gives the manifest's JSON text and the value that the JSON
// decoder makes of it (decoding itself happens outside the library); loading
// checks the text's encoding and then the manifest.
fn load_manifest_json(
    json: &str,
    decoded: LevelManifest,
) -> Result<LevelManifest, LevelManifestLoadError> {
    LevelManifest::decode_text(json.as_bytes())?;
    if let Ok(value) = serde_json::from_str::<serde_json::Value>(json) {
        json_agrees(&value, &decoded);
    }
    decoded.validate()
}

fn opt_str(v: &serde_json::Value) -> Option<&str> {
    v.as_str()
}

// The hand-built value says what the JSON text says, field by field.
fn json_agrees(value: &serde_json::Value, decoded: &LevelManifest) {
    assert_eq!(value["_version"].as_str(), Some(decoded.version.as_str()));
    assert_eq!(value["meta"]["name"].as_str(), Some(decoded.meta.name.as_str()));
    assert_eq!(opt_str(&value["meta"]["author"]), decoded.meta.author.as_deref());
    let level = &value["level"];
    assert_eq!(level["model"].as_str(), Some(decoded.level.model.as_str()));
    assert_eq!(opt_str(&level["collider"]), decoded.level.collider.as_deref());
    assert_eq!(opt_str(&level["track"]), decoded.level.track.as_deref());
    match level["spawn"].as_array() {
        Some(xyz) => {
            let spawn = decoded.level.spawn.expect("spawn in the JSON");
            for (i, c) in xyz.iter().enumerate() {
                assert_eq!(c.as_f64().unwrap() as f32, f32::from_bits(spawn[i]));
            }
        }
        None => assert!(decoded.level.spawn.is_none()),
    }
    if let Some(materials) = level["materials"].as_object() {
        assert_eq!(materials.len(), decoded.level.material_iter().len());
        for (name, m) in materials {
            let d = decoded.level.material(name).expect("material in the JSON");
            let frames: Option<Vec<String>> = m["frames"]
                .as_array()
                .map(|f| f.iter().map(|s| s.as_str().unwrap().to_string()).collect());
            assert_eq!(frames, d.frames);
            let speed = m["animation_speed"].as_f64().map(|s| (s as f32).to_bits());
            assert_eq!(speed, d.animation_speed);
            let color = m["color"].as_array().map(|c| {
                Color::new(
                    c[0].as_u64().unwrap() as u8,
                    c[1].as_u64().unwrap() as u8,
                    c[2].as_u64().unwrap() as u8,
                    c[3].as_u64().unwrap() as u8,
                )
            });
            assert_eq!(color, d.color);
            let addressing = m["texture_addressing"].as_str().map(|a| match a {
                "Nearest" => LevelManifestMaterialTextureAddressing::Nearest,
                _ => LevelManifestMaterialTextureAddressing::Linear,
            });
            assert_eq!(addressing, d.texture_addressing);
        }
    }
    if let Some(portals) = value["portals"].as_object() {
        assert_eq!(portals.len(), decoded.portal_iter().len());
        for (name, p) in portals {
            let d = decoded.portal(name).expect("portal in the JSON");
            assert_eq!(p["collider"].as_str(), Some(d.collider.as_str()));
            let target = p["target"].as_object().map(|t| {
                (t["href"].as_str().unwrap().to_string(), t["name"].as_str().unwrap().to_string())
            });
            assert_eq!(target, d.target.as_ref().map(|t| (t.href.clone(), t.name.clone())));
        }
    }
}

fn bits(v: [f32; 3]) -> Option<[u32; 3]> {
    Some([v[0].to_bits(), v[1].to_bits(), v[2].to_bits()])
}

fn target(href: &str, name: &str) -> Option<LevelManifestPortalTarget> {
    Some(LevelManifestPortalTarget {
        href: href.to_string(),
        name: name.to_string(),
    })
}

fn portal(name: &str, collider: &str, href: &str, target_name: &str) -> (String, LevelManifestPortal) {
    (
        name.to_string(),
        LevelManifestPortal {
            collider: collider.to_string(),
            target: target(href, target_name),
        },
    )
}

fn meta(name: &str, author: Option<&str>) -> LevelManifestMeta {
    LevelManifestMeta {
        name: name.to_string(),
        author: author.map(|a| a.to_string()),
    }
}

fn material(
    frames: Option<&[&str]>,
    animation_speed: Option<f32>,
    color: Option<Color>,
    texture_addressing: Option<LevelManifestMaterialTextureAddressing>,
) -> LevelManifestMaterial {
    LevelManifestMaterial {
        frames: frames.map(|f| f.iter().map(|s| s.to_string()).collect()),
        animation_speed: animation_speed.map(|s| s.to_bits()),
        color,
        texture_addressing,
    }
}

fn level(
    model: &str,
    collider: Option<&str>,
    track: Option<&str>,
    spawn: Option<[u32; 3]>,
    materials: Vec<(&str, LevelManifestMaterial)>,
) -> LevelManifestLevel {
    LevelManifestLevel::new(
        model.to_string(),
        collider.map(|c| c.to_string()),
        track.map(|t| t.to_string()),
        spawn,
        materials
            .into_iter()
            .map(|(n, m)| (n.to_string(), m))
            .collect(),
    )
}

fn manifest(
    version: &str,
    meta: LevelManifestMeta,
    level: LevelManifestLevel,
    portals: Vec<(String, LevelManifestPortal)>,
) -> LevelManifest {
    LevelManifest::new(version.to_string(), meta, level, portals)
}

#[test]
fn test_valid_manifest_parsing() {
    let json = r#"{
        "_version": "coco",
        "meta": {
            "name": "Test Level",
            "author": "Test Author"
        },
        "level": {
            "model": "level.glb",
            "spawn": [1.0, 2.0, 3.0],
            "materials": {}
        },
        "portals": {
            "portal_a": {
                "collider": "portal_a.glb",
                "target": { "href": "other.json", "name": "portal_b" }
            }
        }
    }"#;
    let decoded = manifest(
        "coco",
        meta("Test Level", Some("Test Author")),
        level("level.glb", None, None, bits([1.0, 2.0, 3.0]), vec![]),
        vec![portal("portal_a", "portal_a.glb", "other.json", "portal_b")],
    );

    let result = load_manifest_json(json, decoded);
    assert!(result.is_ok());

    let manifest = result.unwrap();
    assert_eq!(manifest.meta.name, "Test Level");
    assert_eq!(manifest.meta.author.as_deref(), Some("Test Author"));
    assert_eq!(manifest.portal_iter().iter().count(), 1);
    assert!(manifest.portal_iter().iter().any(|(name, _)| name == "portal_a"));
    assert_eq!(manifest.level.model, "level.glb");
    assert_eq!(manifest.level.spawn, bits([1.0, 2.0, 3.0]));
}

#[test]
fn test_valid_manifest_without_optional_meta_fields() {
    let json = r#"{
        "_version": "coco",
        "meta": {
            "name": "Test Level"
        },
        "level": {
            "model": "level.glb",
            "spawn": [0.0, 0.0, 0.0],
            "materials": {}
        },
        "portals": {
            "p1": { "collider": "p1.glb", "target": { "href": "a.json", "name": "x" } }
        }
    }"#;
    let decoded = manifest(
        "coco",
        meta("Test Level", None),
        level("level.glb", None, None, bits([0.0, 0.0, 0.0]), vec![]),
        vec![portal("p1", "p1.glb", "a.json", "x")],
    );

    let result = load_manifest_json(json, decoded);
    assert!(result.is_ok());

    let manifest = result.unwrap();
    assert_eq!(manifest.meta.name, "Test Level");
    assert!(manifest.meta.author.as_deref().is_none());
}

#[test]
fn test_portal_without_target_is_accepted() {
    let json = r#"{
        "_version": "coco",
        "meta": {
            "name": "Test Level"
        },
        "level": {
            "model": "level.glb",
            "materials": {}
        },
        "portals": {
            "p1": { "collider": "p1.glb" }
        }
    }"#;
    let decoded = manifest(
        "coco",
        meta("Test Level", None),
        level("level.glb", None, None, None, vec![]),
        vec![(
            "p1".to_string(),
            LevelManifestPortal {
                collider: "p1.glb".to_string(),
                target: None,
            },
        )],
    );

    let manifest = load_manifest_json(json, decoded).unwrap();
    let portal = &manifest.portal_iter().iter().next().unwrap().1;
    assert!(portal.target.is_none());
}

#[test]
fn test_invalid_utf8_returns_utf8_error() {
    let result = LevelManifest::decode_text(&[0xff, 0xfe, 0xfd]);
    assert!(matches!(result, Err(LevelManifestLoadError::UTF8(_))));
}

#[test]
fn test_too_many_portals_returns_error() {
    let json = r#"{
        "_version": "coco",
        "meta": { "name": "Test Level" },
        "level": {
            "model": "level.glb",
            "spawn": [0.0, 0.0, 0.0],
            "materials": {}
        },
        "portals": {
            "p1": { "collider": "p1.glb", "target": { "href": "a.json", "name": "x" } },
            "p2": { "collider": "p2.glb", "target": { "href": "a.json", "name": "x" } },
            "p3": { "collider": "p3.glb", "target": { "href": "a.json", "name": "x" } },
            "p4": { "collider": "p4.glb", "target": { "href": "a.json", "name": "x" } },
            "p5": { "collider": "p5.glb", "target": { "href": "a.json", "name": "x" } }
        }
    }"#;
    let decoded = manifest(
        "coco",
        meta("Test Level", None),
        level("level.glb", None, None, bits([0.0, 0.0, 0.0]), vec![]),
        vec![
            portal("p1", "p1.glb", "a.json", "x"),
            portal("p2", "p2.glb", "a.json", "x"),
            portal("p3", "p3.glb", "a.json", "x"),
            portal("p4", "p4.glb", "a.json", "x"),
            portal("p5", "p5.glb", "a.json", "x"),
        ],
    );

    let result = load_manifest_json(json, decoded);
    assert!(matches!(
        result,
        Err(LevelManifestLoadError::TooManyPortals)
    ));
}

#[test]
fn test_invalid_version_returns_error() {
    let json = r#"{
        "_version": "wrong",
        "meta": { "name": "Test Level" },
        "level": {
            "model": "level.glb",
            "spawn": [0.0, 0.0, 0.0],
            "materials": {}
        },
        "portals": {}
    }"#;
    let decoded = manifest(
        "wrong",
        meta("Test Level", None),
        level("level.glb", None, None, bits([0.0, 0.0, 0.0]), vec![]),
        vec![],
    );

    let result = load_manifest_json(json, decoded);
    assert!(matches!(
        result,
        Err(LevelManifestLoadError::InvalidVersion)
    ));
}

#[test]
fn test_spawn_missing_is_none() {
    let json = r#"{
        "_version": "coco",
        "meta": { "name": "Test Level" },
        "level": {
            "model": "level.glb",
            "materials": {}
        },
        "portals": {
            "portal_a": { "collider": "p1.glb", "target": { "href": "a.json", "name": "x" } }
        }
    }"#;
    let decoded = manifest(
        "coco",
        meta("Test Level", None),
        level("level.glb", None, None, None, vec![]),
        vec![portal("portal_a", "p1.glb", "a.json", "x")],
    );

    let result = load_manifest_json(json, decoded);
    assert!(result.is_ok());
    let manifest = result.unwrap();
    assert_eq!(manifest.level.spawn, None);
}

#[test]
fn test_spawn_accepts_coordinates() {
    let json = r#"{
        "_version": "coco",
        "meta": { "name": "Test Level" },
        "level": {
            "model": "level.glb",
            "spawn": [-12.5, 0.0, 3.75],
            "materials": {}
        },
        "portals": {
            "portal_a": { "collider": "p1.glb", "target": { "href": "a.json", "name": "x" } },
            "portal_b": { "collider": "p2.glb", "target": { "href": "b.json", "name": "x" } }
        }
    }"#;
    let decoded = manifest(
        "coco",
        meta("Test Level", None),
        level("level.glb", None, None, bits([-12.5, 0.0, 3.75]), vec![]),
        vec![
            portal("portal_a", "p1.glb", "a.json", "x"),
            portal("portal_b", "p2.glb", "b.json", "x"),
        ],
    );

    let result = load_manifest_json(json, decoded);
    assert!(result.is_ok());
    let manifest = result.unwrap();
    assert_eq!(manifest.level.spawn, bits([-12.5, 0.0, 3.75]));
}

#[test]
fn test_level_optional_collider_path_parses() {
    let json = r#"{
        "_version": "coco",
        "meta": { "name": "Test Level" },
        "level": {
            "model": "render.glb",
            "collider": "collision.glb",
            "materials": {}
        },
        "portals": {
            "portal_a": { "collider": "p1.glb", "target": { "href": "a.json", "name": "x" } }
        }
    }"#;
    let decoded = manifest(
        "coco",
        meta("Test Level", None),
        level("render.glb", Some("collision.glb"), None, None, vec![]),
        vec![portal("portal_a", "p1.glb", "a.json", "x")],
    );

    let result = load_manifest_json(json, decoded);
    assert!(result.is_ok());
    let manifest = result.unwrap();
    assert_eq!(manifest.level.model, "render.glb");
    assert_eq!(manifest.level.collider.as_deref(), Some("collision.glb"));
}

#[test]
fn test_material_parses_optional_fields() {
    let json = r#"{
        "_version": "coco",
        "meta": { "name": "Test Level" },
        "level": {
            "model": "level.glb",
            "spawn": [0.0, 0.0, 0.0],
            "materials": {
                "wall": {
                    "frames": ["wall.png"],
                    "color": [255, 255, 255, 255]
                }
            }
        },
        "portals": {}
    }"#;
    let decoded = manifest(
        "coco",
        meta("Test Level", None),
        level(
            "level.glb",
            None,
            None,
            bits([0.0, 0.0, 0.0]),
            vec![(
                "wall",
                material(Some(&["wall.png"]), None, Some(Color::new(255, 255, 255, 255)), None),
            )],
        ),
        vec![],
    );

    let result = load_manifest_json(json, decoded);
    assert!(result.is_ok());
    let manifest = result.unwrap();

    let material = manifest.level.material("wall").unwrap();
    let frames = material.frames.as_ref().unwrap();
    assert_eq!(frames.len(), 1);
    assert_eq!(frames[0], "wall.png");
    assert_eq!(material.color, Some(Color::white()));
}

#[test]
fn test_material_missing_frames_is_accepted() {
    let json = r#"{
        "_version": "coco",
        "meta": { "name": "Test Level" },
        "level": {
            "model": "level.glb",
            "spawn": [0.0, 0.0, 0.0],
            "materials": {
                "wall": {}
            }
        },
        "portals": {}
    }"#;
    let decoded = manifest(
        "coco",
        meta("Test Level", None),
        level(
            "level.glb",
            None,
            None,
            bits([0.0, 0.0, 0.0]),
            vec![("wall", material(None, None, None, None))],
        ),
        vec![],
    );

    let result = load_manifest_json(json, decoded);
    assert!(result.is_ok());
    let manifest = result.unwrap();

    let material = manifest.level.material("wall").unwrap();
    assert!(material.frames.is_none());
}

#[test]
fn test_material_optional_appearance_fields_are_accepted() {
    let json = r#"{
        "_version": "coco",
        "meta": { "name": "Test Level" },
        "level": {
            "model": "level.glb",
            "spawn": [0.0, 0.0, 0.0],
            "materials": {
                "wall": {
                    "frames": []
                }
            }
        },
        "portals": {}
    }"#;
    let decoded = manifest(
        "coco",
        meta("Test Level", None),
        level(
            "level.glb",
            None,
            None,
            bits([0.0, 0.0, 0.0]),
            vec![("wall", material(Some(&[]), None, None, None))],
        ),
        vec![],
    );

    let manifest = load_manifest_json(json, decoded).unwrap();
    let material = manifest.level.material("wall").unwrap();
    let frames = material.frames.as_ref().unwrap();
    assert!(frames.is_empty());
    assert!(material.animation_speed.is_none());
    assert_eq!(material.color, None);
    assert_eq!(material.texture_addressing, None);
}

#[test]
fn test_material_appearance_fields_parse() {
    let json = r#"{
        "_version": "coco",
        "meta": { "name": "Test Level" },
        "level": {
            "model": "level.glb",
            "spawn": [0.0, 0.0, 0.0],
            "materials": {
                "wall": {
                    "frames": ["wall.png"],
                    "color": [1, 2, 3, 4]
                },
                "lava": {
                    "frames": ["lava_0.png", "lava_1.png"],
                    "animation_speed": 2.5,
                    "color": [10, 20, 30, 40]
                },
                "paint": {
                    "frames": [],
                    "color": [7, 8, 9, 10]
                }
            }
        },
        "portals": {}
    }"#;
    let decoded = manifest(
        "coco",
        meta("Test Level", None),
        level(
            "level.glb",
            None,
            None,
            bits([0.0, 0.0, 0.0]),
            vec![
                (
                    "wall",
                    material(Some(&["wall.png"]), None, Some(Color::new(1, 2, 3, 4)), None),
                ),
                (
                    "lava",
                    material(
                        Some(&["lava_0.png", "lava_1.png"]),
                        Some(2.5),
                        Some(Color::new(10, 20, 30, 40)),
                        None,
                    ),
                ),
                (
                    "paint",
                    material(Some(&[]), None, Some(Color::new(7, 8, 9, 10)), None),
                ),
            ],
        ),
        vec![],
    );

    let result = load_manifest_json(json, decoded);
    assert!(result.is_ok());
    let manifest = result.unwrap();

    let wall = manifest.level.material("wall").unwrap();
    let wall_frames = wall.frames.as_ref().unwrap();
    assert_eq!(wall_frames.len(), 1);
    assert_eq!(wall_frames[0], "wall.png");
    assert_eq!(wall.color, Some(Color::new(1, 2, 3, 4)));

    let lava = manifest.level.material("lava").unwrap();
    let lava_frames = lava.frames.as_ref().unwrap();
    assert_eq!(lava_frames.len(), 2);
    assert_eq!(lava_frames[0], "lava_0.png");
    assert_eq!(lava_frames[1], "lava_1.png");
    assert_eq!(lava.animation_speed, Some(2.5f32.to_bits()));
    assert_eq!(lava.color, Some(Color::new(10, 20, 30, 40)));

    let paint = manifest.level.material("paint").unwrap();
    let paint_frames = paint.frames.as_ref().unwrap();
    assert!(paint_frames.is_empty());
    assert_eq!(paint.color, Some(Color::new(7, 8, 9, 10)));
    assert_eq!(paint.texture_addressing, None);
}

#[test]
fn test_material_texture_addressing_parses() {
    let json = r#"{
        "_version": "coco",
        "meta": { "name": "Test Level" },
        "level": {
            "model": "level.glb",
            "materials": {
                "wall": {
                    "frames": ["wall.png"],
                    "texture_addressing": "Linear"
                },
                "pixel": {
                    "frames": ["pixel.png"],
                    "texture_addressing": "Nearest"
                }
            }
        },
        "portals": {}
    }"#;
    let decoded = manifest(
        "coco",
        meta("Test Level", None),
        level(
            "level.glb",
            None,
            None,
            None,
            vec![
                (
                    "wall",
                    material(
                        Some(&["wall.png"]),
                        None,
                        None,
                        Some(LevelManifestMaterialTextureAddressing::Linear),
                    ),
                ),
                (
                    "pixel",
                    material(
                        Some(&["pixel.png"]),
                        None,
                        None,
                        Some(LevelManifestMaterialTextureAddressing::Nearest),
                    ),
                ),
            ],
        ),
        vec![],
    );

    let manifest = load_manifest_json(json, decoded).unwrap();
    let wall = manifest.level.material("wall").unwrap();
    assert_eq!(
        wall.texture_addressing,
        Some(LevelManifestMaterialTextureAddressing::Linear)
    );

    let pixel = manifest.level.material("pixel").unwrap();
    assert_eq!(
        pixel.texture_addressing,
        Some(LevelManifestMaterialTextureAddressing::Nearest)
    );
}

#[test]
fn test_material_empty_frames_is_accepted() {
    let json = r#"{
        "_version": "coco",
        "meta": { "name": "Test Level" },
        "level": {
            "model": "level.glb",
            "spawn": [0.0, 0.0, 0.0],
            "materials": {
                "lava": {
                    "frames": [],
                    "animation_speed": 1.0,
                    "color": [255, 255, 255, 255]
                }
            }
        },
        "portals": {}
    }"#;
    let decoded = manifest(
        "coco",
        meta("Test Level", None),
        level(
            "level.glb",
            None,
            None,
            bits([0.0, 0.0, 0.0]),
            vec![(
                "lava",
                material(Some(&[]), Some(1.0), Some(Color::new(255, 255, 255, 255)), None),
            )],
        ),
        vec![],
    );

    let manifest = load_manifest_json(json, decoded).unwrap();
    let material = manifest.level.material("lava").unwrap();
    let frames = material.frames.as_ref().unwrap();
    assert!(frames.is_empty());
}

#[test]
fn test_manifest_load_accepts_reused_asset_paths() {
    let json = r#"{
        "_version": "coco",
        "meta": { "name": "Test Level" },
        "level": {
            "model": "level.glb",
            "track": "music.ogg",
            "spawn": [0.0, 0.0, 0.0],
            "materials": {
                "wall": {
                    "frames": ["shared.png"],
                    "color": [255, 255, 255, 255]
                },
                "lava": {
                    "frames": ["shared.png", "lava_1.png"],
                    "animation_speed": 2.5,
                    "color": [255, 255, 255, 255]
                }
            }
        },
        "portals": {
            "p1": { "collider": "portal_a.glb", "target": { "href": "a.json", "name": "x" } },
            "p2": { "collider": "portal_a.glb", "target": { "href": "b.json", "name": "x" } }
        }
    }"#;
    let white = Some(Color::new(255, 255, 255, 255));
    let decoded = manifest(
        "coco",
        meta("Test Level", None),
        level(
            "level.glb",
            None,
            Some("music.ogg"),
            bits([0.0, 0.0, 0.0]),
            vec![
                ("wall", material(Some(&["shared.png"]), None, white, None)),
                (
                    "lava",
                    material(Some(&["shared.png", "lava_1.png"]), Some(2.5), white, None),
                ),
            ],
        ),
        vec![
            portal("p1", "portal_a.glb", "a.json", "x"),
            portal("p2", "portal_a.glb", "b.json", "x"),
        ],
    );

    let manifest = load_manifest_json(json, decoded).unwrap();
    assert_eq!(manifest.level.model, "level.glb");
    assert_eq!(manifest.portal_iter().iter().count(), 2);
}

// A level's files, served by a fetch that reads them from this table.
fn fetch_from(files: &[(&str, &[u8])], href: &str) -> Result<(String, Vec<u8>), FetchError> {
    match files.iter().find(|(name, _)| *name == href) {
        Some((_, data)) => Ok((href.to_string(), data.to_vec())),
        None => Err(FetchError::InvalidScheme),
    }
}

#[test]
fn test_assets_collects_manifest_hrefs_and_dedupes() {
    let json = r#"{
        "_version": "coco",
        "meta": { "name": "Test Level" },
        "level": {
            "model": "level.glb",
            "collider": "level.glb",
            "track": "music.ogg",
            "materials": {
                "wall": {
                    "frames": ["shared.png", "shared.png"],
                    "color": [255, 255, 255, 255]
                }
            }
        },
        "portals": {
            "p1": { "collider": "portal.glb", "target": { "href": "a.json", "name": "x" } },
            "p2": { "collider": "portal.glb", "target": { "href": "b.json", "name": "x" } }
        }
    }"#;
    let decoded = manifest(
        "coco",
        meta("Test Level", None),
        level(
            "level.glb",
            Some("level.glb"),
            Some("music.ogg"),
            None,
            vec![(
                "wall",
                material(
                    Some(&["shared.png", "shared.png"]),
                    None,
                    Some(Color::new(255, 255, 255, 255)),
                    None,
                ),
            )],
        ),
        vec![
            portal("p1", "portal.glb", "a.json", "x"),
            portal("p2", "portal.glb", "b.json", "x"),
        ],
    );
    let files: [(&str, &[u8]); 4] = [
        ("level.glb", b"mesh"),
        ("music.ogg", b"track"),
        ("shared.png", b"frame"),
        ("portal.glb", b"portal"),
    ];

    let manifest = load_manifest_json(json, decoded).unwrap();
    let hrefs = manifest.asset_hrefs();
    assert_eq!(hrefs.len(), 4);
    let results = hrefs.iter().map(|href| fetch_from(&files, href)).collect();
    let assets = AssetManifest::from_fetch_results(results).unwrap();

    assert_eq!(assets.asset_get("level.glb").unwrap(), b"mesh");
    assert_eq!(assets.asset_get("music.ogg").unwrap(), b"track");
    assert_eq!(assets.asset_get("shared.png").unwrap(), b"frame");
    assert_eq!(assets.asset_get("portal.glb").unwrap(), b"portal");
}
