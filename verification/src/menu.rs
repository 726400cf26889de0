//! What the menus share: the sound an event plays and how an option is drawn.
use vstd::prelude::*;

verus! {

/// The sound a menu event plays: none, the cursor sound or the select sound.
#[derive(Clone, Copy, PartialEq, Eq, Structural, Debug)]
pub enum MenuSound {
    Silent,
    Move,
    Select,
}

/// How a menu option is drawn.
#[derive(Clone, Copy, PartialEq, Eq, Structural, Debug)]
pub enum OptionState {
    Unselected,
    Selected,
    Disabled,
}

/// The state of an option that is being edited when `active` and can be
/// chosen when `enabled`.
pub open spec fn option_state_spec(enabled: bool, active: bool) -> OptionState {
    if !enabled {
        OptionState::Disabled
    } else if active {
        OptionState::Selected
    } else {
        OptionState::Unselected
    }
}

/// An option that cannot be chosen is drawn disabled, whether edited or
/// not; one that can is drawn selected exactly while it is being edited.
pub proof fn law_option_states(enabled: bool, active: bool)
    ensures
        !enabled ==> option_state_spec(enabled, active) == OptionState::Disabled,
        enabled ==> (option_state_spec(enabled, active) == OptionState::Selected <==> active),
        enabled ==> option_state_spec(enabled, active) != OptionState::Disabled,
{
}

/// The state of an option: disabled when it cannot be chosen, selected while
/// it is being edited, unselected otherwise.
pub fn option_state(enabled: bool, active: bool) -> (s: OptionState)
    ensures
        s == option_state_spec(enabled, active),
{
    if !enabled {
        OptionState::Disabled
    } else if active {
        OptionState::Selected
    } else {
        OptionState::Unselected
    }
}

/// One option of a menu as it is drawn: the option, whether the cursor is
/// on it, and its state.
#[derive(Debug)]
pub struct MenuRow<I> {
    pub item: I,
    pub hovered: bool,
    pub state: OptionState,
}

} // verus!
