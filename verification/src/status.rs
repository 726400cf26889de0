//! The screen the application is on.
use vstd::prelude::*;

verus! {

/// The screen the application is on: the intro, one of the menus, or the
/// level itself.
#[derive(Clone, Copy, PartialEq, Eq, Structural, Debug)]
pub enum AppStatus {
    Intro,
    MenuHome,
    MenuVisit,
    MenuSettings,
    Simulation,
}

} // verus!
