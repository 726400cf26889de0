use hallways::manifest::LevelManifestPortalTarget;
use hallways::portal::{portal_link, LevelPortalKind, LevelPortalTarget, LinkDestination};

fn target() -> LevelPortalTarget {
    let t = LevelManifestPortalTarget { href: "../b/level.json".to_string(), name: "door".to_string() };
    LevelPortalTarget::resolve("https://example.com/a/level.json", &t).unwrap()
}

#[test]
fn geometry_matches_horizontal_with_horizontal() {
    // Normals Z and X: they disagree, and two wall portals link all the same.
    assert!(LevelPortalKind::Horizontal.link_compatible(LevelPortalKind::Horizontal, false));
}

#[test]
fn geometry_rejects_mixed_kinds() {
    // A wall portal (normal Z) and a floor portal (normal Y).
    assert!(!LevelPortalKind::Horizontal.link_compatible(LevelPortalKind::Vertical, false));
}

#[test]
fn vertical_portals_never_link_to_horizontal_ones() {
    assert!(!LevelPortalKind::Vertical.link_compatible(LevelPortalKind::Horizontal, true));
    assert!(!LevelPortalKind::Horizontal.link_compatible(LevelPortalKind::Vertical, true));
    assert!(LevelPortalKind::Horizontal.link_compatible(LevelPortalKind::Horizontal, false));
    assert!(!LevelPortalKind::Vertical.link_compatible(LevelPortalKind::Vertical, false));
    assert!(LevelPortalKind::Vertical.link_compatible(LevelPortalKind::Vertical, true));
}

#[test]
fn portal_links_to_the_named_portal_of_a_ready_level() {
    let t = target();
    let found = LinkDestination::Portal { index: 3, kind: LevelPortalKind::Horizontal, normals_agree: false };
    assert_eq!(portal_link(Some(&t), LevelPortalKind::Horizontal, found), Some(3));
    assert_eq!(portal_link(None, LevelPortalKind::Horizontal, found), None);
    assert_eq!(portal_link(Some(&t), LevelPortalKind::Horizontal, LinkDestination::NotReady), None);
    assert_eq!(portal_link(Some(&t), LevelPortalKind::Horizontal, LinkDestination::NoPortal), None);
}

#[test]
fn vertical_portal_links_only_with_agreeing_normals() {
    let t = target();
    let agreeing = LinkDestination::Portal { index: 1, kind: LevelPortalKind::Vertical, normals_agree: true };
    let opposed = LinkDestination::Portal { index: 1, kind: LevelPortalKind::Vertical, normals_agree: false };
    assert_eq!(portal_link(Some(&t), LevelPortalKind::Vertical, agreeing), Some(1));
    assert_eq!(portal_link(Some(&t), LevelPortalKind::Vertical, opposed), None);
    assert_eq!(portal_link(Some(&t), LevelPortalKind::Horizontal, agreeing), None);
}
