use hallways::assets::AssetManifest;
use hallways::banner::{banner_lines, banner_visible};
use hallways::cache::{
    level_cache_decide, level_load_failed, level_load_succeeded, LevelCacheDecision, LevelCacheIndex,
    LevelEntryState,
};
use hallways::config::{ConfigControl, ConfigVsyncStatus, KeyBindings};
use hallways::error::{LevelLoadError, LevelTrackLoadError};
use hallways::fetch::{fetch_request, FetchError, FetchTransport};
use hallways::input::{Key, KeyInput};
use hallways::intro::intro_key_event;
use hallways::keyed::KeyedTable;
use hallways::color::Color;
use hallways::log::{Log, LogData, LogSegment};
use hallways::manifest::{
    LevelManifest, LevelManifestLevel, LevelManifestLoadError, LevelManifestMaterial,
    LevelManifestMaterialTextureAddressing, LevelManifestMeta,
};
use hallways::material::{
    find_texture_bucket, level_material_load, texture_addressing_mode_get, FrameLoad,
    LevelMaterialLoadError, MaterialFrameAllocator, MaterialTextureRef, TextureArrayWriteError,
};
use hallways::menu::{MenuSound, OptionState};
use hallways::menu_home::{MenuHome, MenuHomeItem};
use hallways::menu_settings::{MenuSettings, MenuSettingsEffect, MenuSettingsItem, SettingsSlider};
use hallways::menu_visit::{LevelLookup, MenuVisit, MenuVisitItem};
use hallways::mesh::{
    material_index_build, model_vertex_materials, GLTFMeshError, LevelMeshLoadError,
    LevelModelBuildError, ModelUploadError,
};
use hallways::player::{portal_arrival, track_change, PlayerWish, PostureKind, TrackChange};
use hallways::portal::{
    LevelPortalGeometryFromGLTFError, LevelPortalLoadError, LevelPortalTarget, LevelRenderSchema,
};
use hallways::manifest::LevelManifestPortalTarget;
use hallways::status::AppStatus;
use hallways::text::text_edit;
use hallways::trimesh::{trimesh_indices, TriMeshFromPositionsError};
use hallways::window::Window;

fn press(key: Key) -> KeyInput {
    KeyInput { key, pressed: true, repeat: false, text: None }
}

fn typed(text: &str) -> KeyInput {
    KeyInput { key: Key::Other(1), pressed: true, repeat: false, text: Some(text.to_string()) }
}

// ---- home menu ----

#[test]
fn home_menu_cursor_wraps_and_enter_chooses() {
    let mut menu = MenuHome::new();
    let out = menu.key_event(AppStatus::MenuHome, &press(Key::ArrowUp));
    assert_eq!(menu.selected(), 2);
    assert_eq!(out.sound, MenuSound::Move);
    let out = menu.key_event(AppStatus::MenuHome, &press(Key::Enter));
    assert!(out.quit);
    assert_eq!(out.sound, MenuSound::Select);
    menu.key_event(AppStatus::MenuHome, &press(Key::ArrowDown));
    assert_eq!(menu.selected(), 0);
    let out = menu.key_event(AppStatus::MenuHome, &press(Key::Enter));
    assert_eq!(out.status_next, Some(AppStatus::MenuVisit));
    let out = menu.key_event(AppStatus::MenuHome, &press(Key::Escape));
    assert_eq!(out.status_next, Some(AppStatus::Simulation));
}

#[test]
fn home_menu_ignores_other_screens_and_releases() {
    let mut menu = MenuHome::new();
    let out = menu.key_event(AppStatus::Simulation, &press(Key::ArrowDown));
    assert_eq!(menu.selected(), 0);
    assert_eq!(out.sound, MenuSound::Silent);
    let release = KeyInput { key: Key::ArrowDown, pressed: false, repeat: false, text: None };
    menu.key_event(AppStatus::MenuHome, &release);
    assert_eq!(menu.selected(), 0);
    menu.update(AppStatus::MenuHome);
    assert_eq!(menu.selected(), 0);
}

#[test]
fn menu_item_names() {
    assert_eq!(MenuHomeItem::Visit.name(), "VISIT");
    assert_eq!(MenuHomeItem::Settings.name(), "SETTINGS");
    assert_eq!(MenuHomeItem::Quit.name(), "QUIT");
    assert_eq!(MenuSettingsItem::MouseSensitivity.name(), "MOUSE SENS");
    assert_eq!(MenuSettingsItem::Back.name(), "BACKWARDS");
    assert_eq!(MenuSettingsItem::GoBack.name(), "BACK");
    assert_eq!(MenuVisitItem::LevelUrl.name(), "LEVEL URL");
    assert_eq!(MenuVisitItem::GoBack.name(), "BACK");
    assert_eq!(MenuHomeItem::from_index(3), None);
    assert_eq!(MenuSettingsItem::from_index(11), MenuSettingsItem::GoBack);
}

// ---- settings menu ----

#[test]
fn settings_menu_edits_sliders_keys_and_url() {
    let mut menu = MenuSettings::new("https://example.com/level.json".to_string());
    // Volume: select it, step it up, stop editing.
    let out = menu.key_event(AppStatus::MenuSettings, &press(Key::Enter));
    assert_eq!(out.sound, MenuSound::Select);
    assert!(menu.selected());
    let out = menu.key_event(AppStatus::MenuSettings, &press(Key::ArrowRight));
    assert!(matches!(
        out.effect,
        MenuSettingsEffect::SliderStep { slider: SettingsSlider::Volume, up: true }
    ));
    let out = menu.key_event(AppStatus::MenuSettings, &press(Key::Escape));
    assert!(!menu.selected());
    assert_eq!(out.sound, MenuSound::Move);
    // Jump binding: row 6.
    for _ in 0..6 {
        menu.key_event(AppStatus::MenuSettings, &press(Key::ArrowDown));
    }
    assert_eq!(menu.hovered(), 6);
    menu.key_event(AppStatus::MenuSettings, &press(Key::Enter));
    let out = menu.key_event(AppStatus::MenuSettings, &press(Key::Other(57)));
    assert!(matches!(
        out.effect,
        MenuSettingsEffect::KeySet { control: ConfigControl::Jump, key: Key::Other(57) }
    ));
    assert!(!menu.selected());
    // Default URL: row 8; backspace then type.
    menu.key_event(AppStatus::MenuSettings, &press(Key::ArrowDown));
    menu.key_event(AppStatus::MenuSettings, &press(Key::ArrowDown));
    menu.key_event(AppStatus::MenuSettings, &press(Key::Enter));
    let back = KeyInput { key: Key::Backspace, pressed: true, repeat: false, text: None };
    menu.key_event(AppStatus::MenuSettings, &back);
    menu.key_event(AppStatus::MenuSettings, &typed("x\u{7}y"));
    assert_eq!(menu.default_url(), "https://example.com/level.jsoxy");
}

#[test]
fn settings_menu_save_needs_a_valid_url() {
    let mut menu = MenuSettings::new("not a url".to_string());
    assert_eq!(menu.item_option_state(MenuSettingsItem::Save, false), OptionState::Disabled);
    for _ in 0..2 {
        menu.key_event(AppStatus::MenuSettings, &press(Key::ArrowUp));
    }
    assert_eq!(menu.hovered(), 10);
    let out = menu.key_event(AppStatus::MenuSettings, &press(Key::Enter));
    assert!(matches!(out.effect, MenuSettingsEffect::Unchanged));
    assert_eq!(out.status_next, None);
    menu.clear("HTTPS://Example.com/a.json".to_string());
    for _ in 0..2 {
        menu.key_event(AppStatus::MenuSettings, &press(Key::ArrowUp));
    }
    let out = menu.key_event(AppStatus::MenuSettings, &press(Key::Enter));
    match out.effect {
        MenuSettingsEffect::Save { default_url } => {
            assert_eq!(default_url, "https://example.com/a.json")
        }
        _ => panic!("expected a save"),
    }
    assert_eq!(out.status_next, Some(AppStatus::MenuHome));
}

#[test]
fn settings_menu_vsync_toggles() {
    let mut menu = MenuSettings::new("https://example.com".to_string());
    for _ in 0..3 {
        menu.key_event(AppStatus::MenuSettings, &press(Key::ArrowUp));
    }
    assert_eq!(menu.hovered(), 9);
    menu.key_event(AppStatus::MenuSettings, &press(Key::Enter));
    let out = menu.key_event(AppStatus::MenuSettings, &press(Key::ArrowLeft));
    assert!(matches!(out.effect, MenuSettingsEffect::VsyncToggle));
    assert_eq!(ConfigVsyncStatus::Enabled.toggled(), ConfigVsyncStatus::Disabled);
}

// ---- visit menu ----

#[test]
fn visit_menu_visits_a_parsed_url_and_follows_the_load() {
    let mut menu = MenuVisit::new("HTTP://Example.com/level.json".to_string());
    menu.key_event(AppStatus::MenuVisit, &press(Key::ArrowDown));
    let out = menu.key_event(AppStatus::MenuVisit, &press(Key::Enter));
    assert!(out.start_visit);
    assert_eq!(menu.visiting(), Some("http://example.com/level.json"));
    let up = menu.update(AppStatus::MenuVisit, LevelLookup::Loading);
    assert!(up.log.is_none());
    assert_eq!(menu.status_message(), Some("Loading..."));
    let up = menu.update(AppStatus::MenuVisit, LevelLookup::Ready { name: "Hall".to_string() });
    assert_eq!(up.status_next, Some(AppStatus::Simulation));
    assert_eq!(up.spawn.as_deref(), Some("http://example.com/level.json"));
    match up.log {
        Some(LogData::Entered { name, portal_name }) => {
            assert_eq!(name, "Hall");
            assert!(portal_name.is_none());
        }
        _ => panic!("expected an entered message"),
    }
    let again = menu.update(AppStatus::MenuVisit, LevelLookup::Ready { name: "Hall".to_string() });
    assert!(again.spawn.is_none());
    assert_eq!(menu.status_message(), None);
}

#[test]
fn visit_menu_shows_failures_and_escape_abandons() {
    let mut menu = MenuVisit::new("file:///tmp/level.json".to_string());
    menu.key_event(AppStatus::MenuVisit, &press(Key::ArrowDown));
    menu.key_event(AppStatus::MenuVisit, &press(Key::Enter));
    menu.update(AppStatus::MenuVisit, LevelLookup::Failed { message: "boom".to_string() });
    assert_eq!(menu.status_message(), Some("boom"));
    menu.update(AppStatus::MenuVisit, LevelLookup::Failed { message: "other".to_string() });
    assert_eq!(menu.status_message(), Some("boom"));
    let out = menu.key_event(AppStatus::MenuVisit, &press(Key::Escape));
    assert_eq!(out.sound, MenuSound::Move);
    assert_eq!(menu.visiting(), None);
    assert_eq!(menu.status_message(), None);
    assert!(!menu.selected());
}

#[test]
fn visit_menu_refuses_an_invalid_url() {
    let mut menu = MenuVisit::new("nope".to_string());
    assert_eq!(menu.item_option_state(MenuVisitItem::Visit, false), OptionState::Disabled);
    assert_eq!(menu.item_option_state(MenuVisitItem::LevelUrl, true), OptionState::Selected);
    menu.key_event(AppStatus::MenuVisit, &press(Key::ArrowDown));
    let out = menu.key_event(AppStatus::MenuVisit, &press(Key::Enter));
    assert!(!out.start_visit);
    assert_eq!(menu.visiting(), None);
    let out = menu.key_event(AppStatus::MenuVisit, &press(Key::Escape));
    assert_eq!(out.status_next, Some(AppStatus::MenuHome));
}

// ---- text editing ----

#[test]
fn text_edit_backspace_then_typed_text() {
    let mut s = "ab".to_string();
    text_edit(&mut s, &KeyInput { key: Key::Backspace, pressed: true, repeat: false, text: None });
    assert_eq!(s, "a");
    text_edit(&mut s, &typed("\u{1b}é\u{85}z"));
    assert_eq!(s, "aéz");
    let mut empty = String::new();
    text_edit(&mut empty, &KeyInput { key: Key::Backspace, pressed: true, repeat: false, text: None });
    assert_eq!(empty, "");
}

#[test]
fn menus_draw_their_options_only_on_their_screen() {
    let home = MenuHome::new();
    assert!(home.rows(AppStatus::MenuVisit).is_empty());
    let rows = home.rows(AppStatus::MenuHome);
    assert_eq!(rows.len(), 3);
    assert_eq!(rows[2].item, MenuHomeItem::Quit);
    assert!(rows[0].hovered && !rows[1].hovered);
    assert!(rows.iter().all(|r| r.state == OptionState::Unselected));

    let visit = MenuVisit::new("not a url".to_string());
    assert!(visit.rows(AppStatus::MenuHome).is_empty());
    let rows = visit.rows(AppStatus::MenuVisit);
    assert_eq!(rows.len(), 3);
    assert_eq!(rows[1].item, MenuVisitItem::Visit);
    assert_eq!(rows[1].state, OptionState::Disabled);
    assert_eq!(rows[0].state, OptionState::Unselected);

    let settings = MenuSettings::new("https://example.com/level.json".to_string());
    let rows = settings.rows(AppStatus::MenuSettings);
    assert_eq!(rows.len(), 12);
    assert_eq!(rows[10].item, MenuSettingsItem::Save);
    assert_eq!(rows[10].state, OptionState::Unselected);
    assert!(rows[0].hovered);
    assert!(settings.rows(AppStatus::Simulation).is_empty());
}

#[test]
fn option_being_edited_is_drawn_selected() {
    let mut visit = MenuVisit::new("https://example.com/level.json".to_string());
    visit.key_event(AppStatus::MenuVisit, &press(Key::Enter));
    let rows = visit.rows(AppStatus::MenuVisit);
    assert_eq!(rows[0].state, OptionState::Selected);
    assert_eq!(rows[1].state, OptionState::Unselected);
}

// ---- log ----

#[test]
fn log_keeps_the_five_latest_messages() {
    let mut log = Log::new();
    for i in 0..7 {
        log.push(LogData::LoadSucceeded { name: format!("level {}", i) });
    }
    let names: Vec<String> = log
        .entries()
        .iter()
        .map(|e| match e {
            LogData::LoadSucceeded { name } => name.clone(),
            _ => String::new(),
        })
        .collect();
    assert_eq!(names, vec!["level 2", "level 3", "level 4", "level 5", "level 6"]);
}

fn segment_parts(line: &[LogSegment]) -> Vec<(String, Option<usize>, Color)> {
    line.iter().map(|s| (s.text.to_string(), s.max_len, s.color)).collect()
}

#[test]
fn failed_load_is_drawn_in_red_with_its_error() {
    let data = LogData::LoadFailed { url: "https://x/l.json".to_string(), error: "oops".to_string() };
    let white = Color::new(255, 255, 255, 255);
    assert_eq!(
        segment_parts(&data.line()),
        vec![
            ("level: ".to_string(), None, white),
            ("https://x/l.json".to_string(), Some(28), white),
            (" ".to_string(), None, white),
            ("[load failed]".to_string(), None, Color::new(255, 0, 0, 255)),
            (" (".to_string(), None, white),
            ("oops".to_string(), Some(24), white),
            (")".to_string(), None, white),
        ]
    );
}

#[test]
fn entered_names_the_portal_only_when_there_is_one() {
    let white = Color::new(255, 255, 255, 255);
    let blue = Color::new(0, 128, 255, 255);
    let without = LogData::Entered { name: "Hall".to_string(), portal_name: None };
    assert_eq!(
        segment_parts(&without.line()),
        vec![
            ("level: ".to_string(), None, white),
            ("Hall".to_string(), Some(32), white),
            (" ".to_string(), None, white),
            ("[entered]".to_string(), None, blue),
        ]
    );
    let with = LogData::Entered { name: "Hall".to_string(), portal_name: Some("door".to_string()) };
    let parts = segment_parts(&with.line());
    assert_eq!(parts.len(), 7);
    assert_eq!(parts[5], ("door".to_string(), Some(16), white));
    let ok = LogData::LoadSucceeded { name: "Hall".to_string() };
    assert_eq!(segment_parts(&ok.line())[3], ("[load succeeded]".to_string(), None, Color::new(0, 255, 0, 255)));
}

#[test]
fn log_is_drawn_only_over_the_level() {
    let mut log = Log::new();
    log.push(LogData::LoadSucceeded { name: "a".to_string() });
    log.push(LogData::LoadSucceeded { name: "b".to_string() });
    assert_eq!(log.lines(AppStatus::MenuHome).len(), 0);
    assert_eq!(log.lines(AppStatus::Intro).len(), 0);
    let lines = log.lines(AppStatus::Simulation);
    assert_eq!(lines.len(), 2);
    assert_eq!(lines[1][1].text, "b");
}

#[test]
fn vsync_setting_is_shown_by_name() {
    assert_eq!(ConfigVsyncStatus::Enabled.name(), "ENABLED");
    assert_eq!(ConfigVsyncStatus::Disabled.name(), "DISABLED");
    assert_eq!(ConfigVsyncStatus::Enabled.toggled().name(), "DISABLED");
}

#[test]
fn portal_into_another_level_logs_it_and_changes_music() {
    let here = "https://a.example/level.json".to_string();
    let there = "https://b.example/level.json".to_string();
    assert!(portal_arrival(&here, &here, "A", "door", true).is_none());
    let a = portal_arrival(&here, &there, "B", "door", false).unwrap();
    assert_eq!(a.track, TrackChange::FadeOut);
    match a.log {
        LogData::Entered { name, portal_name } => {
            assert_eq!(name, "B");
            assert_eq!(portal_name.as_deref(), Some("door"));
        }
        _ => panic!("expected an entry"),
    }
    assert_eq!(track_change(true), TrackChange::FadeIn);
}

// ---- manifest tables and assets ----

#[test]
fn later_material_of_the_same_name_wins() {
    let first = LevelManifestMaterial { frames: None, animation_speed: None, color: None, texture_addressing: None };
    let second = LevelManifestMaterial {
        frames: None,
        animation_speed: Some(3.0f32.to_bits()),
        color: None,
        texture_addressing: Some(LevelManifestMaterialTextureAddressing::Nearest),
    };
    let level = LevelManifestLevel::new(
        "m.glb".to_string(),
        None,
        None,
        None,
        vec![("wall".to_string(), first), ("wall".to_string(), second)],
    );
    assert_eq!(level.material_iter().len(), 1);
    let wall = level.material("wall").unwrap();
    assert_eq!(wall.animation_speed, Some(3.0f32.to_bits()));
    assert_eq!(wall.texture_addressing_mode(), 1);
    assert!(level.material("floor").is_none());
}

#[test]
fn keyed_table_reads_back_what_was_written() {
    let mut table: KeyedTable<u32> = KeyedTable::new();
    table.insert("a".to_string(), 1);
    table.insert("b".to_string(), 2);
    table.insert("a".to_string(), 3);
    assert_eq!(table.get("a"), Some(&3));
    assert_eq!(table.get("b"), Some(&2));
    assert_eq!(table.get("c"), None);
    assert_eq!(table.len(), 2);
}

#[test]
fn assets_first_failed_fetch_is_the_error() {
    let results = vec![
        Ok(("a".to_string(), vec![1u8])),
        Err(FetchError::InvalidScheme),
        Ok(("b".to_string(), vec![2u8])),
    ];
    assert!(matches!(
        AssetManifest::from_fetch_results(results),
        Err(hallways::manifest::LevelManifestAssetsError::Fetch(FetchError::InvalidScheme))
    ));
    let ok = AssetManifest::from_fetch_results(vec![Ok(("a".to_string(), vec![7u8]))]).unwrap();
    assert_eq!(ok.asset_get("a"), Some(&[7u8][..]));
    assert_eq!(ok.asset_get("b"), None);
}

#[test]
fn manifest_text_is_utf8_decoded() {
    let text = LevelManifest::decode_text("{\"name\": \"héllo\"}".as_bytes()).unwrap();
    assert_eq!(text, "{\"name\": \"héllo\"}");
}

#[test]
fn manifest_with_four_portals_is_accepted() {
    let level = LevelManifestLevel::new("m.glb".to_string(), None, None, None, vec![]);
    let portals = (0..4)
        .map(|i| {
            (
                format!("p{}", i),
                hallways::manifest::LevelManifestPortal { collider: "p.glb".to_string(), target: None },
            )
        })
        .collect();
    let m = LevelManifest::new(
        "coco".to_string(),
        LevelManifestMeta { name: "n".to_string(), author: None },
        level,
        portals,
    );
    assert!(m.validate().is_ok());
}

// ---- fetch ----

#[test]
fn fetch_request_resolves_and_routes_by_scheme() {
    let req = fetch_request("file:///levels/a/level.json", "../b/model.glb").unwrap();
    assert_eq!(req.transport, FetchTransport::File);
    assert_eq!(req.url, "file:///levels/b/model.glb");
    let req = fetch_request("https://example.com/x/level.json", "m.glb").unwrap();
    assert_eq!(req.transport, FetchTransport::Http);
    assert_eq!(req.url, "https://example.com/x/m.glb");
    assert!(matches!(
        fetch_request("ftp://example.com/level.json", "m.glb"),
        Err(FetchError::InvalidScheme)
    ));
    assert!(matches!(fetch_request("not a url", "m.glb"), Err(FetchError::URLJoin(_))));
}

// ---- materials ----

#[test]
fn texture_buckets_by_size() {
    assert_eq!(find_texture_bucket(2048, 2048), Some(0));
    assert_eq!(find_texture_bucket(256, 256), Some(3));
    assert_eq!(find_texture_bucket(64, 64), Some(5));
    assert_eq!(find_texture_bucket(64, 128), None);
    assert_eq!(texture_addressing_mode_get(LevelManifestMaterialTextureAddressing::Linear), 0);
    assert_eq!(texture_addressing_mode_get(LevelManifestMaterialTextureAddressing::Nearest), 1);
}

#[test]
fn frame_allocator_gives_next_layers_and_reuses_paths() {
    let mut alloc = MaterialFrameAllocator::new();
    let a = alloc.allocate("a.png".to_string(), 128, 128).unwrap();
    let b = alloc.allocate("b.png".to_string(), 128, 128).unwrap();
    let c = alloc.allocate("c.png".to_string(), 1024, 1024).unwrap();
    assert_eq!((a.bucket, a.layer), (4, 0));
    assert_eq!((b.bucket, b.layer), (4, 1));
    assert_eq!((c.bucket, c.layer), (1, 0));
    assert_eq!(alloc.cached("b.png"), Some(MaterialTextureRef { bucket: 4, layer: 1 }));
    assert_eq!(alloc.cached("d.png"), None);
    assert!(matches!(
        alloc.allocate("d.png".to_string(), 100, 100),
        Err(LevelMaterialLoadError::TextureBucketMissing { width: 100, height: 100 })
    ));
}

#[test]
fn material_defaults() {
    let m = LevelManifestMaterial { frames: None, animation_speed: None, color: None, texture_addressing: None };
    assert_eq!(f32::from_bits(m.animation_speed_or_default()), 0.5);
    assert_eq!(m.color_or_default(), hallways::color::Color::new(255, 255, 255, 255));
    assert_eq!(m.texture_addressing_mode(), 0);
    assert!(m.frames_or_empty().is_empty());
}

fn png(width: u32, height: u32) -> Vec<u8> {
    let img = image::RgbaImage::from_pixel(width, height, image::Rgba([10, 20, 30, 255]));
    let mut bytes = Vec::new();
    img.write_to(&mut std::io::Cursor::new(&mut bytes), image::ImageFormat::Png).unwrap();
    bytes
}

fn frame_assets(entries: Vec<(&str, Vec<u8>)>) -> AssetManifest {
    let results = entries.into_iter().map(|(h, d)| Ok((h.to_string(), d))).collect();
    AssetManifest::from_fetch_results(results).unwrap()
}

fn material_with_frames(frames: &[&str]) -> LevelManifestMaterial {
    LevelManifestMaterial {
        frames: Some(frames.iter().map(|f| f.to_string()).collect()),
        animation_speed: None,
        color: None,
        texture_addressing: None,
    }
}

#[test]
fn frame_is_decoded_and_given_a_layer_once() {
    let assets = frame_assets(vec![("a.png", png(64, 64))]);
    let mut alloc = MaterialFrameAllocator::new();
    match alloc.frame_ref_load(&assets, &"a.png".to_string()).unwrap() {
        FrameLoad::Upload(u) => {
            assert_eq!((u.width, u.height), (64, 64));
            assert_eq!((u.slot.bucket, u.slot.layer), (5, 0));
            assert_eq!(u.pixels.len(), 64 * 64 * 4);
            assert_eq!(&u.pixels[0..4], &[10, 20, 30, 255]);
        }
        FrameLoad::Cached(_) => panic!("expected an upload"),
    }
    assert!(matches!(
        alloc.frame_ref_load(&assets, &"a.png".to_string()),
        Ok(FrameLoad::Cached(MaterialTextureRef { bucket: 5, layer: 0 }))
    ));
}

#[test]
fn materials_share_frames_and_keep_their_slots() {
    let assets = frame_assets(vec![("a.png", png(64, 64)), ("b.png", png(128, 128)), ("c.png", png(64, 64))]);
    let first = material_with_frames(&["a.png", "b.png"]);
    let second = LevelManifestMaterial {
        frames: Some(vec!["c.png".to_string(), "a.png".to_string()]),
        animation_speed: Some(2.0f32.to_bits()),
        color: Some(hallways::color::Color::new(1, 2, 3, 4)),
        texture_addressing: Some(LevelManifestMaterialTextureAddressing::Nearest),
    };
    let res = level_material_load(&assets, &[Some(&first), None, Some(&second)]).unwrap();
    assert_eq!(res.entries.len(), 3);
    assert!(res.entries[1].is_none());
    let e0 = res.entries[0].as_ref().unwrap();
    assert_eq!(e0.index, 0);
    assert_eq!(e0.frames, vec![MaterialTextureRef { bucket: 5, layer: 0 }, MaterialTextureRef { bucket: 4, layer: 0 }]);
    assert_eq!(f32::from_bits(e0.animation_speed), 0.5);
    assert_eq!(e0.texture_addressing_mode, 0);
    let e2 = res.entries[2].as_ref().unwrap();
    assert_eq!(e2.index, 2);
    assert_eq!(e2.frames, vec![MaterialTextureRef { bucket: 5, layer: 1 }, MaterialTextureRef { bucket: 5, layer: 0 }]);
    assert_eq!(f32::from_bits(e2.animation_speed), 2.0);
    assert_eq!(e2.color, hallways::color::Color::new(1, 2, 3, 4));
    assert_eq!(e2.texture_addressing_mode, 1);
    let paths: Vec<&str> = res.uploads.iter().map(|u| u.path.as_str()).collect();
    assert_eq!(paths, vec!["a.png", "b.png", "c.png"]);
}

#[test]
fn frame_in_another_format_is_recognised_and_decoded() {
    let img = image::RgbaImage::from_pixel(128, 128, image::Rgba([200, 100, 50, 255]));
    let mut jpeg = Vec::new();
    image::DynamicImage::ImageRgba8(img)
        .to_rgb8()
        .write_to(&mut std::io::Cursor::new(&mut jpeg), image::ImageFormat::Jpeg)
        .unwrap();
    let assets = frame_assets(vec![("a.jpg", jpeg)]);
    let mut alloc = MaterialFrameAllocator::new();
    match alloc.frame_ref_load(&assets, &"a.jpg".to_string()).unwrap() {
        FrameLoad::Upload(u) => {
            assert_eq!((u.width, u.height), (128, 128));
            assert_eq!((u.slot.bucket, u.slot.layer), (4, 0));
            assert_eq!(u.pixels.len(), 128 * 128 * 4);
        }
        FrameLoad::Cached(_) => panic!("expected an upload"),
    }
}

#[test]
fn undecodable_frame_is_an_image_error() {
    let assets = frame_assets(vec![("a.png", png(64, 64)), ("bad.png", b"not an image".to_vec())]);
    let m = material_with_frames(&["a.png", "bad.png"]);
    assert!(matches!(level_material_load(&assets, &[Some(&m)]), Err(LevelMaterialLoadError::ImageDecode(_))));
}

#[test]
fn full_texture_array_refuses_another_frame() {
    let mut alloc = MaterialFrameAllocator::new();
    assert!(alloc.allocate("big.png".to_string(), 2048, 2048).is_ok());
    match alloc.allocate("bigger.png".to_string(), 2048, 2048) {
        Err(LevelMaterialLoadError::TextureArrayWrite(e)) => {
            assert_eq!((e.width, e.height, e.layers), (2048, 2048, 1));
        }
        _ => panic!("expected a full array"),
    }
    assert_eq!(alloc.cached("bigger.png"), None);
    for i in 0..256 {
        assert!(alloc.allocate(format!("f{}.png", i), 64, 64).is_ok());
    }
    assert!(matches!(
        alloc.allocate("f256.png".to_string(), 64, 64),
        Err(LevelMaterialLoadError::TextureArrayWrite(TextureArrayWriteError { layers: 256, .. }))
    ));
}

#[test]
fn level_with_too_many_textures_of_a_size_fails() {
    let big = png(1024, 1024);
    let assets = frame_assets(vec![
        ("a.png", big.clone()),
        ("b.png", big.clone()),
        ("c.png", big.clone()),
        ("d.png", big.clone()),
        ("e.png", big),
    ]);
    let first = material_with_frames(&["a.png", "b.png", "a.png"]);
    let second = material_with_frames(&["c.png", "d.png"]);
    assert!(level_material_load(&assets, &[Some(&first), Some(&second)]).is_ok());
    let third = material_with_frames(&["e.png"]);
    assert!(matches!(
        level_material_load(&assets, &[Some(&first), Some(&second), Some(&third)]),
        Err(LevelMaterialLoadError::TextureArrayWrite(TextureArrayWriteError { width: 1024, height: 1024, layers: 4 }))
    ));
}

#[test]
fn frame_of_no_array_size_is_refused() {
    let assets = frame_assets(vec![("odd.png", png(10, 12)), ("bad.png", b"junk".to_vec())]);
    let m = material_with_frames(&["odd.png", "bad.png"]);
    assert!(matches!(
        level_material_load(&assets, &[Some(&m)]),
        Err(LevelMaterialLoadError::TextureBucketMissing { width: 10, height: 12 })
    ));
}

#[test]
fn collider_defaults_to_the_level_model() {
    let without = LevelManifestLevel::new("m.glb".to_string(), None, None, None, vec![]);
    assert_eq!(without.collider_href(), "m.glb");
    let with = LevelManifestLevel::new("m.glb".to_string(), Some("c.glb".to_string()), None, None, vec![]);
    assert_eq!(with.collider_href(), "c.glb");
}

// ---- model ----

#[test]
fn model_vertices_need_configured_materials() {
    let level = LevelManifestLevel::new(
        "m.glb".to_string(),
        None,
        None,
        None,
        vec![(
            "wall".to_string(),
            LevelManifestMaterial { frames: None, animation_speed: None, color: None, texture_addressing: None },
        )],
    );
    let manifest = LevelManifest::new(
        "coco".to_string(),
        LevelManifestMeta { name: "n".to_string(), author: None },
        level,
        vec![],
    );
    let names = vec![Some("wall".to_string()), None, Some("floor".to_string())];
    let index = material_index_build(&manifest, &names);
    assert_eq!(index.len(), 3);
    assert!(index[0].is_some() && index[1].is_none() && index[2].is_none());
    assert_eq!(model_vertex_materials(&vec![Some(0), Some(0)], &index), Ok(vec![0, 0]));
    assert_eq!(
        model_vertex_materials(&vec![Some(0), Some(2), None], &index),
        Err(LevelModelBuildError::MaterialConfigMissing)
    );
    assert_eq!(
        model_vertex_materials(&vec![None, Some(7)], &index),
        Err(LevelModelBuildError::MaterialIXMissing)
    );
}

#[test]
fn trimesh_indices_group_positions_by_three() {
    assert_eq!(trimesh_indices(0), Err(TriMeshFromPositionsError::EmptyVertexSet));
    assert_eq!(trimesh_indices(4), Err(TriMeshFromPositionsError::VertexCountNotMultipleOf3));
    assert_eq!(trimesh_indices(6), Ok(vec![[0, 1, 2], [3, 4, 5]]));
}

// ---- portals and rendering ----

#[test]
fn portal_target_resolves_against_the_manifest_url() {
    let target = LevelManifestPortalTarget { href: "../other/level.json".to_string(), name: "p".to_string() };
    let resolved = LevelPortalTarget::resolve("https://example.com/a/level.json", &target).unwrap();
    assert_eq!(resolved.url(), "https://example.com/other/level.json");
    assert_eq!(resolved.name(), "p");
    assert!(resolved.leads_to("https://example.com/other/level.json", "p"));
    assert!(!resolved.leads_to("https://example.com/other/level.json", "q"));
    assert!(matches!(
        LevelPortalTarget::resolve("nope", &target),
        Err(LevelPortalLoadError::URLJoin(_))
    ));
}

#[test]
fn render_pass_through_a_portal_skips_it() {
    assert!(!LevelRenderSchema::Current.skips_portal(0));
    assert!(LevelRenderSchema::Portal { index: 2 }.skips_portal(2));
    assert!(!LevelRenderSchema::Portal { index: 2 }.skips_portal(1));
}

// ---- errors ----

#[test]
fn load_error_messages() {
    let e = LevelLoadError::ManifestLoad(LevelManifestLoadError::TooManyPortals);
    assert_eq!(e.message(), "failed to parse level manifest: too many portals");
    let e = LevelLoadError::ManifestAssets(hallways::manifest::LevelManifestAssetsError::Fetch(
        FetchError::InvalidScheme,
    ));
    assert_eq!(e.message(), "failed to load level asset manifest: invalid URL scheme");
    let e = LevelLoadError::MaterialLoad(LevelMaterialLoadError::TextureBucketMissing { width: 300, height: 7 });
    assert_eq!(e.message(), "failed to load level materials: texture bucket missing for 300x7");
    let e = LevelLoadError::MeshLoad(LevelMeshLoadError::GLTF(GLTFMeshError::NoScene));
    assert_eq!(e.message(), "failed to load level mesh: no scene in GLTF");
    let e = LevelLoadError::PortalLoad(LevelPortalLoadError::GeometryFromGLTF(
        LevelPortalGeometryFromGLTFError::TiltedPortal,
    ));
    assert_eq!(e.message(), "failed to load level portals: portal geometry decode error (TiltedPortal)");
    let e = LevelLoadError::PortalLoad(LevelPortalLoadError::ModelUpload(ModelUploadError::VerticesExceedCapacity));
    assert_eq!(e.message(), "failed to load level portals: model upload error (VerticesExceedCapacity)");
    let e = LevelLoadError::ModelBuild(LevelModelBuildError::ModelUpload(ModelUploadError::VerticesExceedCapacity));
    assert_eq!(e.message(), "failed to build level model: model upload vertices exceed capacity");
    let e = LevelLoadError::ColliderBuild(TriMeshFromPositionsError::VertexCountNotMultipleOf3);
    assert_eq!(e.message(), "failed to build level collider: vertex count is not multiple of 3");
    let e = LevelLoadError::TrackLoad(LevelTrackLoadError::Decode("bad ogg".to_string()));
    assert_eq!(e.message(), "failed to load level track: decode error (bad ogg)");
    let full = TextureArrayWriteError { width: 1024, height: 1024, layers: 4 };
    let debug = format!("{:?}", full);
    let e = LevelLoadError::MaterialLoad(LevelMaterialLoadError::TextureArrayWrite(full));
    assert_eq!(e.message(), format!("failed to load level materials: texture write error ({})", debug));
    assert_eq!(
        e.message(),
        "failed to load level materials: texture write error (TextureArrayWriteError { width: 1024, height: 1024, layers: 4 })"
    );
    let e = LevelLoadError::PortalLoad(LevelPortalLoadError::URLJoin(url::ParseError::EmptyHost));
    assert_eq!(e.message(), "failed to load level portals: URL join error (empty host)");
}

#[test]
fn utf8_error_message_shows_the_decoder_text() {
    let err = match LevelManifest::decode_text(&[0xff]) {
        Err(LevelManifestLoadError::UTF8(e)) => e,
        _ => panic!("expected a UTF-8 error"),
    };
    let text = err.to_string();
    let e = LevelLoadError::ManifestLoad(LevelManifestLoadError::UTF8(err));
    assert_eq!(e.message(), format!("failed to parse level manifest UTF-8: {}", text));
}

// ---- level cache ----

#[test]
fn level_cache_serves_failures_until_timeout() {
    assert_eq!(level_cache_decide(None, 5, 10), LevelCacheDecision::Reload);
    assert_eq!(level_cache_decide(Some(LevelEntryState::Loading), 5, 10), LevelCacheDecision::Loading);
    assert_eq!(level_cache_decide(Some(LevelEntryState::Ready), 5, 10), LevelCacheDecision::Ready);
    assert_eq!(level_cache_decide(Some(LevelEntryState::Failed { tick: 5 }), 15, 10), LevelCacheDecision::Failed);
    assert_eq!(level_cache_decide(Some(LevelEntryState::Failed { tick: 5 }), 16, 10), LevelCacheDecision::Reload);
    let (state, log) = level_load_succeeded("Hall");
    assert_eq!(state, LevelEntryState::Ready);
    assert!(matches!(log, LogData::LoadSucceeded { name } if name == "Hall"));
    let err = LevelLoadError::ManifestLoad(LevelManifestLoadError::InvalidVersion);
    let (state, log) = level_load_failed("file:///l.json", &err, 42);
    assert_eq!(state, LevelEntryState::Failed { tick: 42 });
    match log {
        LogData::LoadFailed { url, error } => {
            assert_eq!(url, "file:///l.json");
            assert_eq!(error, "failed to parse level manifest: invalid manifest version");
        }
        _ => panic!("expected a failure message"),
    }
}

#[test]
fn level_cache_loads_once_and_serves_the_result() {
    let mut cache = LevelCacheIndex::new(4, 10);
    assert!(cache.pending_front().is_none());
    let r = cache.get("https://a/l.json", 0);
    assert_eq!(r.decision, LevelCacheDecision::Reload);
    assert!(r.evicted.is_none());
    assert_eq!(cache.get("https://a/l.json", 1).decision, LevelCacheDecision::Loading);
    assert_eq!(
        cache.pending_front(),
        Some(("https://a/l.json".to_string(), Some(LevelEntryState::Loading)))
    );
    let log = cache.load_finished(Ok("Hall"), 2);
    assert!(matches!(log, LogData::LoadSucceeded { name } if name == "Hall"));
    assert!(cache.pending_front().is_none());
    assert_eq!(cache.get("https://a/l.json", 3).decision, LevelCacheDecision::Ready);
}

#[test]
fn level_cache_retries_a_failure_after_the_timeout() {
    let mut cache = LevelCacheIndex::new(4, 10);
    cache.get("https://a/l.json", 0);
    let err = LevelLoadError::ManifestLoad(LevelManifestLoadError::InvalidVersion);
    let log = cache.load_finished(Err(&err), 5);
    assert!(matches!(log, LogData::LoadFailed { url, .. } if url == "https://a/l.json"));
    assert_eq!(cache.get("https://a/l.json", 15).decision, LevelCacheDecision::Failed);
    assert_eq!(cache.get("https://a/l.json", 16).decision, LevelCacheDecision::Reload);
    assert_eq!(cache.get("https://a/l.json", 17).decision, LevelCacheDecision::Loading);
}

#[test]
fn full_level_cache_drops_the_least_recently_used() {
    let mut cache = LevelCacheIndex::new(2, 10);
    cache.get("a", 0);
    cache.get("b", 0);
    cache.get("a", 1);
    let r = cache.get("c", 2);
    assert_eq!(r.decision, LevelCacheDecision::Reload);
    assert_eq!(r.evicted.as_deref(), Some("b"));
    assert_eq!(cache.get("a", 3).decision, LevelCacheDecision::Loading);
    cache.clear();
    assert!(cache.pending_front().is_none());
    assert_eq!(cache.get("a", 4).decision, LevelCacheDecision::Reload);
}

// ---- player ----

#[test]
fn double_jump_enters_and_jump_leaves_god_mode() {
    let mut wish = PlayerWish::new();
    wish.key_event(Some(ConfigControl::Jump), true, false, 100, 21);
    assert!(wish.jumping && !wish.float);
    let p = wish.posture_update(PostureKind::Airborne { crouching: false }, true);
    assert_eq!(p, PostureKind::Airborne { crouching: false });
    wish.key_event(Some(ConfigControl::Jump), true, false, 110, 21);
    assert!(wish.float);
    let p = wish.posture_update(p, true);
    assert_eq!(p, PostureKind::Floating);
    wish.key_event(Some(ConfigControl::Jump), true, false, 200, 21);
    assert!(!wish.float);
    let p = wish.posture_update(p, true);
    assert_eq!(p, PostureKind::Airborne { crouching: true });
}

#[test]
fn a_single_jump_press_never_floats() {
    let mut wish = PlayerWish::new();
    wish.key_event(Some(ConfigControl::Jump), true, false, 5, 21);
    assert!(wish.jumping && !wish.float);
    assert_eq!(wish.float_jump_tick, Some(5));
    wish.spawn_reset();
    assert_eq!(wish.float_jump_tick, None);
    wish.key_event(Some(ConfigControl::Jump), true, false, 10, 21);
    assert!(!wish.float);
    wish.key_event(Some(ConfigControl::Jump), true, true, 12, 21);
    assert!(!wish.float);
    wish.key_event(Some(ConfigControl::Jump), true, false, 14, 21);
    assert!(wish.float);
}

#[test]
fn held_controls_give_the_wished_direction() {
    let mut wish = PlayerWish::new();
    wish.key_event(Some(ConfigControl::Forward), true, false, 0, 21);
    wish.key_event(Some(ConfigControl::StrafeRight), true, false, 0, 21);
    wish.key_event(Some(ConfigControl::Crouch), true, false, 0, 21);
    assert_eq!(wish.motion_update(), (1, -1));
    assert!(wish.crouching);
    wish.key_event(Some(ConfigControl::Back), true, false, 0, 21);
    wish.key_event(Some(ConfigControl::StrafeRight), false, false, 0, 21);
    assert_eq!(wish.motion_update(), (0, 0));
    wish.clear();
    assert_eq!(wish.motion_update(), (0, 0));
    assert!(!wish.crouching);
}

#[test]
fn crouching_persists_under_a_low_ceiling() {
    let mut wish = PlayerWish::new();
    let p = wish.posture_update(PostureKind::Grounded { crouching: true }, false);
    assert_eq!(p, PostureKind::Grounded { crouching: true });
    let p = wish.posture_update(p, true);
    assert_eq!(p, PostureKind::Grounded { crouching: false });
    assert!(PostureKind::Floating.crouch_height());
}

#[test]
fn key_bindings_find_the_first_control() {
    let mut keys = KeyBindings { keys: [Key::Other(1), Key::Other(2), Key::Other(3), Key::Other(4), Key::Other(5), Key::Other(6)] };
    assert_eq!(keys.control_for(Key::Other(5)), Some(ConfigControl::Jump));
    keys.key_set(ConfigControl::Forward, Key::Other(5));
    assert_eq!(keys.control_for(Key::Other(5)), Some(ConfigControl::Forward));
    assert_eq!(keys.key_get(ConfigControl::Forward), Key::Other(5));
    assert_eq!(keys.control_for(Key::Escape), None);
}

// ---- intro, banner, window ----

#[test]
fn intro_skips_on_escape_or_enter() {
    assert_eq!(intro_key_event(AppStatus::Intro, &press(Key::Enter)), Some(AppStatus::MenuHome));
    assert_eq!(intro_key_event(AppStatus::Intro, &press(Key::ArrowUp)), None);
    assert_eq!(intro_key_event(AppStatus::MenuHome, &press(Key::Escape)), None);
}

#[test]
fn banner_names_level_and_author() {
    assert!(banner_visible(AppStatus::MenuVisit));
    assert!(!banner_visible(AppStatus::Simulation));
    let meta = LevelManifestMeta { name: "Hall".to_string(), author: None };
    let lines = banner_lines(&meta);
    assert_eq!((lines[0].label, lines[0].value, lines[0].bold), ("LEVEL", "Hall", true));
    assert_eq!((lines[1].label, lines[1].value, lines[1].bold), ("AUTHOR", "N/A", false));
}

#[test]
fn window_keeps_title_and_handler() {
    let mut window = Window::new("Hallways", 5u32);
    assert_eq!(window.title(), "Hallways");
    *window.handler_mut() += 1;
    assert_eq!(*window.handler_mut(), 6);
}
