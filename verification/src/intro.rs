//! The intro screen: any of Escape or Enter skips it.
use vstd::prelude::*;
use crate::input::{Key, KeyInput};
use crate::status::AppStatus;

verus! {

/// The screen to go to after a key on the intro: the home menu when Escape
/// or Enter is pressed during the intro, none otherwise.
pub fn intro_key_event(status: AppStatus, input: &KeyInput) -> (r: Option<AppStatus>)
    ensures
        r == if status == AppStatus::Intro && input.pressed && (input.key == Key::Escape
            || input.key == Key::Enter) {
            Some(AppStatus::MenuHome)
        } else {
            None
        },
{
    if status != AppStatus::Intro || !input.pressed {
        return None;
    }
    if input.key == Key::Escape || input.key == Key::Enter {
        Some(AppStatus::MenuHome)
    } else {
        None
    }
}

} // verus!
