//! The banner that names the current level and its author over the menus.
use vstd::prelude::*;
use crate::manifest::LevelManifestMeta;
use crate::status::AppStatus;

verus! {

/// The banner shows over the three menus only.
pub fn banner_visible(status: AppStatus) -> (r: bool)
    ensures
        r == (status == AppStatus::MenuHome || status == AppStatus::MenuVisit || status
            == AppStatus::MenuSettings),
{
    match status {
        AppStatus::MenuHome | AppStatus::MenuVisit | AppStatus::MenuSettings => true,
        _ => false,
    }
}

/// One line of the banner: a label, a value, and whether the value is bold.
#[derive(Debug)]
pub struct BannerLine<'a> {
    pub label: &'static str,
    pub value: &'a str,
    pub bold: bool,
}

/// The two lines of the banner: the level's name in bold, then its author,
/// "N/A" when the manifest names none.
pub fn banner_lines<'a>(meta: &'a LevelManifestMeta) -> (r: [BannerLine<'a>; 2])
    ensures
        r[0].label@ == "LEVEL"@ && r[0].value@ == meta.name@ && r[0].bold,
        r[1].label@ == "AUTHOR"@ && !r[1].bold && r[1].value@ == match meta.author {
            Some(a) => a@,
            None => "N/A"@,
        },
{
    let author = match &meta.author {
        Some(a) => a.as_str(),
        None => "N/A",
    };
    [
        BannerLine { label: "LEVEL", value: meta.name.as_str(), bold: true },
        BannerLine { label: "AUTHOR", value: author, bold: false },
    ]
}

} // verus!
