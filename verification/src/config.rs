//! The player's controls and the display settings.
use vstd::prelude::*;
use crate::input::Key;

verus! {

/// The actions that keys are bound to, in the order of their key slots.
#[derive(Clone, Copy, PartialEq, Eq, Structural, Debug)]
pub enum ConfigControl {
    Forward,
    Back,
    StrafeLeft,
    StrafeRight,
    Jump,
    Crouch,
}

/// The number of controls.
pub const CONTROL_COUNT: usize = 6;

/// The slot of a control.
pub open spec fn control_index(c: ConfigControl) -> int {
    match c {
        ConfigControl::Forward => 0,
        ConfigControl::Back => 1,
        ConfigControl::StrafeLeft => 2,
        ConfigControl::StrafeRight => 3,
        ConfigControl::Jump => 4,
        ConfigControl::Crouch => 5,
    }
}

impl ConfigControl {
    /// The slot of this control.
    pub fn index(self) -> (i: usize)
        ensures
            i == control_index(self),
            i < CONTROL_COUNT,
    {
        match self {
            ConfigControl::Forward => 0,
            ConfigControl::Back => 1,
            ConfigControl::StrafeLeft => 2,
            ConfigControl::StrafeRight => 3,
            ConfigControl::Jump => 4,
            ConfigControl::Crouch => 5,
        }
    }
}

/// Whether presentation waits for the display's refresh.
#[derive(Clone, Copy, PartialEq, Eq, Structural, Debug)]
pub enum ConfigVsyncStatus {
    Enabled,
    Disabled,
}

impl ConfigVsyncStatus {
    /// The other setting.
    pub fn toggled(self) -> (r: ConfigVsyncStatus)
        ensures
            r != self,
    {
        match self {
            ConfigVsyncStatus::Enabled => ConfigVsyncStatus::Disabled,
            ConfigVsyncStatus::Disabled => ConfigVsyncStatus::Enabled,
        }
    }

    /// The value the settings menu shows for the setting.
    pub fn name(self) -> (s: &'static str)
        ensures
            s@ == match self {
                ConfigVsyncStatus::Enabled => "ENABLED"@,
                ConfigVsyncStatus::Disabled => "DISABLED"@,
            },
    {
        match self {
            ConfigVsyncStatus::Enabled => "ENABLED",
            ConfigVsyncStatus::Disabled => "DISABLED",
        }
    }
}

/// Each control has a slot of its own: the slots are Forward, Back,
/// StrafeLeft, StrafeRight, Jump and Crouch, and the control at a control's
/// slot is that control.
pub proof fn law_each_control_has_its_slot(c: ConfigControl, d: ConfigControl)
    ensures
        0 <= control_index(c) < CONTROL_COUNT,
        control_at(control_index(c)) == c,
        control_index(c) == control_index(d) ==> c == d,
        control_at(0) == ConfigControl::Forward && control_at(1) == ConfigControl::Back && control_at(2)
            == ConfigControl::StrafeLeft && control_at(3) == ConfigControl::StrafeRight && control_at(4)
            == ConfigControl::Jump && control_at(5) == ConfigControl::Crouch,
{
}

/// The control at slot `i`.
pub open spec fn control_at(i: int) -> ConfigControl {
    if i == 0 {
        ConfigControl::Forward
    } else if i == 1 {
        ConfigControl::Back
    } else if i == 2 {
        ConfigControl::StrafeLeft
    } else if i == 3 {
        ConfigControl::StrafeRight
    } else if i == 4 {
        ConfigControl::Jump
    } else {
        ConfigControl::Crouch
    }
}

impl ConfigControl {
    /// The control at slot `i`.
    pub fn from_index(i: usize) -> (c: ConfigControl)
        requires
            i < CONTROL_COUNT,
        ensures
            c == control_at(i as int),
            control_index(c) == i,
    {
        if i == 0 {
            ConfigControl::Forward
        } else if i == 1 {
            ConfigControl::Back
        } else if i == 2 {
            ConfigControl::StrafeLeft
        } else if i == 3 {
            ConfigControl::StrafeRight
        } else if i == 4 {
            ConfigControl::Jump
        } else {
            ConfigControl::Crouch
        }
    }
}

/// The key bound to each control.
#[derive(Clone, Copy, Debug)]
pub struct KeyBindings {
    pub keys: [Key; 6],
}

impl KeyBindings {
    /// The key bound to `control`.
    pub fn key_get(&self, control: ConfigControl) -> (k: Key)
        ensures
            k == self.keys@[control_index(control)],
    {
        self.keys[control.index()]
    }

    /// Binds `key` to `control`.
    pub fn key_set(&mut self, control: ConfigControl, key: Key)
        ensures
            final(self).keys@ == old(self).keys@.update(control_index(control), key),
    {
        let i = control.index();
        self.keys[i] = key;
    }

    /// The first control, in slot order, that `key` is bound to.
    pub fn control_for(&self, key: Key) -> (r: Option<ConfigControl>)
        ensures
            match r {
                Some(c) => self.keys@[control_index(c)] == key && forall|j: int|
                    0 <= j < control_index(c) ==> #[trigger] self.keys@[j] != key,
                None => forall|j: int| 0 <= j < CONTROL_COUNT ==> #[trigger] self.keys@[j] != key,
            },
    {
        let mut i: usize = 0;
        while i < CONTROL_COUNT
            invariant
                i <= CONTROL_COUNT,
                forall|j: int| 0 <= j < i ==> #[trigger] self.keys@[j] != key,
            decreases CONTROL_COUNT - i,
        {
            if self.keys[i] == key {
                return Some(ConfigControl::from_index(i));
            }
            i = i + 1;
        }
        None
    }
}

} // verus!
