//! The settings menu: sliders, key bindings, the default level URL, vsync;
//! changes are kept aside until saved.
use vstd::prelude::*;
use crate::config::{control_at, ConfigControl};
use crate::input::{Key, KeyInput};
use crate::menu::{option_state, option_state_spec, MenuRow, MenuSound, OptionState};
use crate::status::AppStatus;
use crate::text::{text_after_key, text_edit};
use crate::weburl::{parsed_url, url_is_valid, url_parse};

verus! {

/// The options of the settings menu, top to bottom.
#[derive(Clone, Copy, PartialEq, Eq, Structural, Debug)]
pub enum MenuSettingsItem {
    Volume,
    MouseSensitivity,
    Forward,
    Back,
    StrafeLeft,
    StrafeRight,
    Jump,
    Crouch,
    DefaultUrl,
    Vsync,
    Save,
    GoBack,
}

/// The number of options of the settings menu.
pub const MENU_SETTINGS_ITEM_COUNT: usize = 12;

/// The longest option label and the widest value.
pub const MAX_ITEM_NAME_LEN: usize = 14;
pub const MAX_ITEM_VALUE_LEN: usize = 48;

/// The option at row `i`.
pub open spec fn settings_item(i: int) -> MenuSettingsItem {
    if i == 0 {
        MenuSettingsItem::Volume
    } else if i == 1 {
        MenuSettingsItem::MouseSensitivity
    } else if i == 2 {
        MenuSettingsItem::Forward
    } else if i == 3 {
        MenuSettingsItem::Back
    } else if i == 4 {
        MenuSettingsItem::StrafeLeft
    } else if i == 5 {
        MenuSettingsItem::StrafeRight
    } else if i == 6 {
        MenuSettingsItem::Jump
    } else if i == 7 {
        MenuSettingsItem::Crouch
    } else if i == 8 {
        MenuSettingsItem::DefaultUrl
    } else if i == 9 {
        MenuSettingsItem::Vsync
    } else if i == 10 {
        MenuSettingsItem::Save
    } else {
        MenuSettingsItem::GoBack
    }
}

/// The control that an option binds a key to, if it binds one.
pub open spec fn item_control_spec(item: MenuSettingsItem) -> Option<ConfigControl> {
    match item {
        MenuSettingsItem::Forward => Some(ConfigControl::Forward),
        MenuSettingsItem::Back => Some(ConfigControl::Back),
        MenuSettingsItem::StrafeLeft => Some(ConfigControl::StrafeLeft),
        MenuSettingsItem::StrafeRight => Some(ConfigControl::StrafeRight),
        MenuSettingsItem::Jump => Some(ConfigControl::Jump),
        MenuSettingsItem::Crouch => Some(ConfigControl::Crouch),
        _ => None,
    }
}

/// The options of the settings menu, top to bottom, are VOLUME, MOUSE SENS,
/// the six key bindings, DEFAULT URL, VSYNC, SAVE and BACK; each key-binding
/// option binds the control it is named after, in the order of the
/// controls' slots, and no other option binds a control.
pub proof fn law_options_bind_their_controls(i: int)
    ensures
        item_control_spec(MenuSettingsItem::Forward) == Some(ConfigControl::Forward),
        item_control_spec(MenuSettingsItem::Back) == Some(ConfigControl::Back),
        item_control_spec(MenuSettingsItem::StrafeLeft) == Some(ConfigControl::StrafeLeft),
        item_control_spec(MenuSettingsItem::StrafeRight) == Some(ConfigControl::StrafeRight),
        item_control_spec(MenuSettingsItem::Jump) == Some(ConfigControl::Jump),
        item_control_spec(MenuSettingsItem::Crouch) == Some(ConfigControl::Crouch),
        0 <= i < 6 ==> item_control_spec(settings_item(i + 2)) == Some(control_at(i)),
        0 <= i < 12 && !(2 <= i < 8) ==> item_control_spec(settings_item(i)) is None,
        settings_item(0) == MenuSettingsItem::Volume && settings_item(1) == MenuSettingsItem::MouseSensitivity
            && settings_item(2) == MenuSettingsItem::Forward && settings_item(3) == MenuSettingsItem::Back
            && settings_item(4) == MenuSettingsItem::StrafeLeft && settings_item(5) == MenuSettingsItem::StrafeRight
            && settings_item(6) == MenuSettingsItem::Jump && settings_item(7) == MenuSettingsItem::Crouch
            && settings_item(8) == MenuSettingsItem::DefaultUrl && settings_item(9) == MenuSettingsItem::Vsync
            && settings_item(10) == MenuSettingsItem::Save && settings_item(11) == MenuSettingsItem::GoBack,
{
}

impl MenuSettingsItem {
    /// The option at row `i`.
    pub fn from_index(i: usize) -> (r: MenuSettingsItem)
        requires
            i < MENU_SETTINGS_ITEM_COUNT,
        ensures
            r == settings_item(i as int),
    {
        if i == 0 {
            MenuSettingsItem::Volume
        } else if i == 1 {
            MenuSettingsItem::MouseSensitivity
        } else if i == 2 {
            MenuSettingsItem::Forward
        } else if i == 3 {
            MenuSettingsItem::Back
        } else if i == 4 {
            MenuSettingsItem::StrafeLeft
        } else if i == 5 {
            MenuSettingsItem::StrafeRight
        } else if i == 6 {
            MenuSettingsItem::Jump
        } else if i == 7 {
            MenuSettingsItem::Crouch
        } else if i == 8 {
            MenuSettingsItem::DefaultUrl
        } else if i == 9 {
            MenuSettingsItem::Vsync
        } else if i == 10 {
            MenuSettingsItem::Save
        } else {
            MenuSettingsItem::GoBack
        }
    }

    /// The label of the option.
    pub fn name(&self) -> (s: &'static str)
        ensures
            s@ == match *self {
                MenuSettingsItem::Volume => "VOLUME"@,
                MenuSettingsItem::MouseSensitivity => "MOUSE SENS"@,
                MenuSettingsItem::Forward => "FORWARDS"@,
                MenuSettingsItem::Back => "BACKWARDS"@,
                MenuSettingsItem::StrafeLeft => "STRAFE LEFT"@,
                MenuSettingsItem::StrafeRight => "STRAFE RIGHT"@,
                MenuSettingsItem::Jump => "JUMP"@,
                MenuSettingsItem::Crouch => "CROUCH"@,
                MenuSettingsItem::DefaultUrl => "DEFAULT URL"@,
                MenuSettingsItem::Vsync => "VSYNC"@,
                MenuSettingsItem::Save => "SAVE"@,
                MenuSettingsItem::GoBack => "BACK"@,
            },
    {
        match self {
            MenuSettingsItem::Volume => "VOLUME",
            MenuSettingsItem::MouseSensitivity => "MOUSE SENS",
            MenuSettingsItem::Forward => "FORWARDS",
            MenuSettingsItem::Back => "BACKWARDS",
            MenuSettingsItem::StrafeLeft => "STRAFE LEFT",
            MenuSettingsItem::StrafeRight => "STRAFE RIGHT",
            MenuSettingsItem::Jump => "JUMP",
            MenuSettingsItem::Crouch => "CROUCH",
            MenuSettingsItem::DefaultUrl => "DEFAULT URL",
            MenuSettingsItem::Vsync => "VSYNC",
            MenuSettingsItem::Save => "SAVE",
            MenuSettingsItem::GoBack => "BACK",
        }
    }

    /// The control that the option binds a key to, if it binds one.
    pub fn control(&self) -> (r: Option<ConfigControl>)
        ensures
            r == item_control_spec(*self),
    {
        match self {
            MenuSettingsItem::Forward => Some(ConfigControl::Forward),
            MenuSettingsItem::Back => Some(ConfigControl::Back),
            MenuSettingsItem::StrafeLeft => Some(ConfigControl::StrafeLeft),
            MenuSettingsItem::StrafeRight => Some(ConfigControl::StrafeRight),
            MenuSettingsItem::Jump => Some(ConfigControl::Jump),
            MenuSettingsItem::Crouch => Some(ConfigControl::Crouch),
            _ => None,
        }
    }
}

/// The two settings set with a slider.
#[derive(Clone, Copy, PartialEq, Eq, Structural, Debug)]
pub enum SettingsSlider {
    Volume,
    MouseSensitivity,
}

/// What a key event asks of the settings being edited.
#[derive(Debug)]
pub enum MenuSettingsEffect {
    /// Nothing.
    Unchanged,
    /// Move a slider one step down or up.
    SliderStep { slider: SettingsSlider, up: bool },
    /// Bind the control to the key.
    KeySet { control: ConfigControl, key: Key },
    /// Switch vsync.
    VsyncToggle,
    /// Keep the edited settings, with this default level URL.
    Save { default_url: String },
}

/// What a key event on the settings menu asks of the application.
#[derive(Debug)]
pub struct MenuSettingsOutcome {
    pub sound: MenuSound,
    pub effect: MenuSettingsEffect,
    pub status_next: Option<AppStatus>,
}

/// The outcome is the sound and the screen, with nothing changed.
pub open spec fn plain_outcome(
    out: MenuSettingsOutcome,
    sound: MenuSound,
    status_next: Option<AppStatus>,
) -> bool {
    out.sound == sound && out.effect is Unchanged && out.status_next == status_next
}

/// The outcome of a key on a slider: Left moves it down and Right up.
pub open spec fn slider_outcome(out: MenuSettingsOutcome, slider: SettingsSlider, key: Key) -> bool {
    if key == Key::ArrowLeft || key == Key::ArrowRight {
        out.sound == MenuSound::Move && out.status_next is None && out.effect == (
        MenuSettingsEffect::SliderStep { slider, up: key == Key::ArrowRight })
    } else {
        plain_outcome(out, MenuSound::Silent, None)
    }
}

/// The settings menu: the cursor, whether the option under it is being
/// edited, and the default URL being typed.
pub struct MenuSettings {
    hovered: usize,
    selected: bool,
    default_url: String,
}

impl MenuSettings {
    pub closed spec fn wf(&self) -> bool {
        self.hovered < MENU_SETTINGS_ITEM_COUNT
    }

    /// The row of the cursor.
    pub closed spec fn cursor(&self) -> int {
        self.hovered as int
    }

    /// The option under the cursor is being edited.
    pub closed spec fn editing(&self) -> bool {
        self.selected
    }

    /// The default level URL as typed so far.
    pub closed spec fn url_text(&self) -> Seq<char> {
        self.default_url@
    }

    /// The menu over a configuration whose default level URL is `default_url`.
    pub fn new(default_url: String) -> (m: Self)
        ensures
            m.wf(),
            m.cursor() == 0,
            !m.editing(),
            m.url_text() == default_url@,
    {
        MenuSettings { hovered: 0, selected: false, default_url }
    }

    /// Back to the top, nothing edited, the URL as configured.
    pub fn clear(&mut self, default_url: String)
        ensures
            final(self).wf(),
            final(self).cursor() == 0,
            !final(self).editing(),
            final(self).url_text() == default_url@,
    {
        self.default_url = default_url;
        self.hovered = 0;
        self.selected = false;
    }

    /// Entering the settings menu clears it.
    pub fn status_change_handle(&mut self, status: AppStatus, default_url: String)
        requires
            old(self).wf(),
        ensures
            final(self).wf(),
            status == AppStatus::MenuSettings ==> final(self).cursor() == 0 && !final(self).editing() && final(self).url_text() == default_url@,
            status != AppStatus::MenuSettings ==> final(self).cursor() == old(self).cursor()
                && final(self).editing() == old(self).editing() && final(self).url_text() == old(self).url_text(),
    {
        if status == AppStatus::MenuSettings {
            self.clear(default_url);
        }
    }

    /// The per-frame update: the settings menu has nothing to update.
    pub fn update(&mut self, status: AppStatus)
        ensures
            *final(self) == *old(self),
    {
    }

    /// The row of the cursor.
    pub fn hovered(&self) -> (r: usize)
        ensures
            r == self.cursor(),
    {
        self.hovered
    }

    /// Whether the option under the cursor is being edited.
    pub fn selected(&self) -> (r: bool)
        ensures
            r == self.editing(),
    {
        self.selected
    }

    /// The default level URL as typed so far.
    pub fn default_url(&self) -> (r: &str)
        ensures
            r@ == self.url_text(),
    {
        self.default_url.as_str()
    }

    /// How an option is drawn: Save is disabled while the typed URL does not
    /// parse; an option being edited is selected.
    pub fn item_option_state(&self, item: MenuSettingsItem, active: bool) -> (s: OptionState)
        ensures
            s == option_state_spec(
                !(item == MenuSettingsItem::Save && parsed_url(self.url_text()) is None),
                active,
            ),
    {
        let enabled = !(item == MenuSettingsItem::Save && !url_is_valid(self.default_url.as_str()));
        option_state(enabled, active)
    }

    /// The options as drawn while the settings menu is shown, top to bottom
    /// (none on another screen): the cursor's option hovered, and each in
    /// the state `item_option_state` gives it, active under the cursor while
    /// it is being edited.
    pub fn rows(&self, status: AppStatus) -> (r: Vec<MenuRow<MenuSettingsItem>>)
        requires
            self.wf(),
        ensures
            status != AppStatus::MenuSettings ==> r@.len() == 0,
            status == AppStatus::MenuSettings ==> r@.len() == MENU_SETTINGS_ITEM_COUNT && forall|i: int|
                0 <= i < MENU_SETTINGS_ITEM_COUNT ==> {
                    &&& (#[trigger] r@[i]).item == settings_item(i)
                    &&& r@[i].hovered == (i == self.cursor())
                    &&& r@[i].state == option_state_spec(
                        !(settings_item(i) == MenuSettingsItem::Save && parsed_url(self.url_text()) is None),
                        i == self.cursor() && self.editing(),
                    )
                },
    {
        let mut r: Vec<MenuRow<MenuSettingsItem>> = Vec::new();
        if status != AppStatus::MenuSettings {
            return r;
        }
        let mut i: usize = 0;
        while i < MENU_SETTINGS_ITEM_COUNT
            invariant
                self.wf(),
                i <= MENU_SETTINGS_ITEM_COUNT,
                r@.len() == i,
                forall|j: int|
                    0 <= j < i ==> {
                        &&& (#[trigger] r@[j]).item == settings_item(j)
                        &&& r@[j].hovered == (j == self.cursor())
                        &&& r@[j].state == option_state_spec(
                            !(settings_item(j) == MenuSettingsItem::Save && parsed_url(self.url_text()) is None),
                            j == self.cursor() && self.editing(),
                        )
                    },
            decreases MENU_SETTINGS_ITEM_COUNT - i,
        {
            let item = MenuSettingsItem::from_index(i);
            let hovered = i == self.hovered;
            let state = self.item_option_state(item, hovered && self.selected);
            r.push(MenuRow { item, hovered, state });
            i = i + 1;
        }
        r
    }

    /// Handles a key on the settings menu. While no option is edited, the
    /// arrows move the cursor round the options, Escape returns home and
    /// Enter chooses the option; while one is edited, the key goes to it.
    pub fn key_event(&mut self, status: AppStatus, input: &KeyInput) -> (out: MenuSettingsOutcome)
        requires
            old(self).wf(),
        ensures
            final(self).wf(),
            status != AppStatus::MenuSettings || !input.pressed ==> *final(self) == *old(self)
                && plain_outcome(out, MenuSound::Silent, None),
            status == AppStatus::MenuSettings && input.pressed && !old(self).editing() ==> match input.key {
                Key::ArrowUp => final(self).cursor() == (old(self).cursor() + 11) % 12 && !final(self).editing() && final(self).url_text() == old(self).url_text() && plain_outcome(
                    out,
                    MenuSound::Move,
                    None,
                ),
                Key::ArrowDown => final(self).cursor() == (old(self).cursor() + 1) % 12 && !final(self).editing() && final(self).url_text() == old(self).url_text() && plain_outcome(
                    out,
                    MenuSound::Move,
                    None,
                ),
                Key::Escape => *final(self) == *old(self) && plain_outcome(
                    out,
                    MenuSound::Move,
                    Some(AppStatus::MenuHome),
                ),
                Key::Enter => final(self).cursor() == old(self).cursor() && final(self).url_text()
                    == old(self).url_text() && out.sound == MenuSound::Select && match settings_item(
                    old(self).cursor(),
                ) {
                    MenuSettingsItem::Save => !final(self).editing() && match parsed_url(
                        old(self).url_text(),
                    ) {
                        Some(u) => out.status_next == Some(AppStatus::MenuHome) && (
                        out.effect matches MenuSettingsEffect::Save { default_url } && default_url@
                            == u),
                        None => out.status_next is None && out.effect is Unchanged,
                    },
                    MenuSettingsItem::GoBack => !final(self).editing() && out.status_next == Some(
                        AppStatus::MenuHome,
                    ) && out.effect is Unchanged,
                    _ => final(self).editing() && out.status_next is None
                        && out.effect is Unchanged,
                },
                _ => *final(self) == *old(self) && plain_outcome(out, MenuSound::Silent, None),
            },
            status == AppStatus::MenuSettings && input.pressed && old(self).editing() ==> final(self).cursor() == old(self).cursor() && if input.key == Key::Escape || input.key
                == Key::Enter {
                !final(self).editing() && final(self).url_text() == old(self).url_text()
                    && plain_outcome(out, MenuSound::Move, None)
            } else {
                match settings_item(old(self).cursor()) {
                    MenuSettingsItem::Volume => final(self).editing() && final(self).url_text()
                        == old(self).url_text() && slider_outcome(
                        out,
                        SettingsSlider::Volume,
                        input.key,
                    ),
                    MenuSettingsItem::MouseSensitivity => final(self).editing() && final(self).url_text() == old(self).url_text() && slider_outcome(
                        out,
                        SettingsSlider::MouseSensitivity,
                        input.key,
                    ),
                    MenuSettingsItem::DefaultUrl => final(self).editing() && final(self).url_text()
                        == text_after_key(old(self).url_text(), input.key, input.text_view())
                        && plain_outcome(out, MenuSound::Silent, None),
                    MenuSettingsItem::Vsync => final(self).editing() && final(self).url_text()
                        == old(self).url_text() && if input.key == Key::ArrowLeft || input.key
                        == Key::ArrowRight {
                        out.sound == MenuSound::Move && out.status_next is None
                            && out.effect is VsyncToggle
                    } else {
                        plain_outcome(out, MenuSound::Silent, None)
                    },
                    MenuSettingsItem::Save | MenuSettingsItem::GoBack => final(self).editing()
                        && final(self).url_text() == old(self).url_text() && plain_outcome(
                        out,
                        MenuSound::Silent,
                        None,
                    ),
                    item => !final(self).editing() && final(self).url_text() == old(self).url_text() && out.sound == MenuSound::Move && out.status_next is None
                        && out.effect == (MenuSettingsEffect::KeySet {
                        control: item_control_spec(item)->0,
                        key: input.key,
                    }),
                }
            },
    {
        let quiet = MenuSettingsOutcome {
            sound: MenuSound::Silent,
            effect: MenuSettingsEffect::Unchanged,
            status_next: None,
        };
        if status != AppStatus::MenuSettings || !input.pressed {
            return quiet;
        }
        let item = MenuSettingsItem::from_index(self.hovered);
        if self.selected {
            return self.item_key_event(item, input);
        }
        match input.key {
            Key::ArrowUp => {
                self.hovered = (self.hovered + MENU_SETTINGS_ITEM_COUNT - 1)
                    % MENU_SETTINGS_ITEM_COUNT;
                MenuSettingsOutcome {
                    sound: MenuSound::Move,
                    effect: MenuSettingsEffect::Unchanged,
                    status_next: None,
                }
            },
            Key::ArrowDown => {
                self.hovered = (self.hovered + 1) % MENU_SETTINGS_ITEM_COUNT;
                MenuSettingsOutcome {
                    sound: MenuSound::Move,
                    effect: MenuSettingsEffect::Unchanged,
                    status_next: None,
                }
            },
            Key::Escape => MenuSettingsOutcome {
                sound: MenuSound::Move,
                effect: MenuSettingsEffect::Unchanged,
                status_next: Some(AppStatus::MenuHome),
            },
            Key::Enter => self.item_on_select(item),
            _ => quiet,
        }
    }

    /// Choosing an option: Save keeps the settings when the typed URL
    /// parses, Back returns home, any other option starts being edited.
    fn item_on_select(&mut self, item: MenuSettingsItem) -> (out: MenuSettingsOutcome)
        requires
            old(self).wf(),
            !old(self).editing(),
        ensures
            final(self).wf(),
            final(self).cursor() == old(self).cursor(),
            final(self).url_text() == old(self).url_text(),
            out.sound == MenuSound::Select,
            match item {
                MenuSettingsItem::Save => !final(self).editing() && match parsed_url(
                    old(self).url_text(),
                ) {
                    Some(u) => out.status_next == Some(AppStatus::MenuHome) && (
                    out.effect matches MenuSettingsEffect::Save { default_url } && default_url@
                        == u),
                    None => out.status_next is None && out.effect is Unchanged,
                },
                MenuSettingsItem::GoBack => !final(self).editing() && out.status_next == Some(
                    AppStatus::MenuHome,
                ) && out.effect is Unchanged,
                _ => final(self).editing() && out.status_next is None && out.effect is Unchanged,
            },
    {
        match item {
            MenuSettingsItem::Save => match url_parse(self.default_url.as_str()) {
                Ok(url) => MenuSettingsOutcome {
                    sound: MenuSound::Select,
                    effect: MenuSettingsEffect::Save { default_url: url },
                    status_next: Some(AppStatus::MenuHome),
                },
                Err(_) => MenuSettingsOutcome {
                    sound: MenuSound::Select,
                    effect: MenuSettingsEffect::Unchanged,
                    status_next: None,
                },
            },
            MenuSettingsItem::GoBack => MenuSettingsOutcome {
                sound: MenuSound::Select,
                effect: MenuSettingsEffect::Unchanged,
                status_next: Some(AppStatus::MenuHome),
            },
            _ => {
                self.selected = true;
                MenuSettingsOutcome {
                    sound: MenuSound::Select,
                    effect: MenuSettingsEffect::Unchanged,
                    status_next: None,
                }
            },
        }
    }

    /// A key on the option being edited: Escape and Enter stop editing;
    /// otherwise the option takes the key.
    fn item_key_event(&mut self, item: MenuSettingsItem, input: &KeyInput) -> (out: MenuSettingsOutcome)
        requires
            old(self).wf(),
            old(self).editing(),
            item == settings_item(old(self).cursor()),
        ensures
            final(self).wf(),
            final(self).cursor() == old(self).cursor(),
            if input.key == Key::Escape || input.key == Key::Enter {
                !final(self).editing() && final(self).url_text() == old(self).url_text()
                    && plain_outcome(out, MenuSound::Move, None)
            } else {
                match item {
                    MenuSettingsItem::Volume => final(self).editing() && final(self).url_text()
                        == old(self).url_text() && slider_outcome(
                        out,
                        SettingsSlider::Volume,
                        input.key,
                    ),
                    MenuSettingsItem::MouseSensitivity => final(self).editing() && final(self).url_text() == old(self).url_text() && slider_outcome(
                        out,
                        SettingsSlider::MouseSensitivity,
                        input.key,
                    ),
                    MenuSettingsItem::DefaultUrl => final(self).editing() && final(self).url_text()
                        == text_after_key(old(self).url_text(), input.key, input.text_view())
                        && plain_outcome(out, MenuSound::Silent, None),
                    MenuSettingsItem::Vsync => final(self).editing() && final(self).url_text()
                        == old(self).url_text() && if input.key == Key::ArrowLeft || input.key
                        == Key::ArrowRight {
                        out.sound == MenuSound::Move && out.status_next is None
                            && out.effect is VsyncToggle
                    } else {
                        plain_outcome(out, MenuSound::Silent, None)
                    },
                    MenuSettingsItem::Save | MenuSettingsItem::GoBack => final(self).editing()
                        && final(self).url_text() == old(self).url_text() && plain_outcome(
                        out,
                        MenuSound::Silent,
                        None,
                    ),
                    item => !final(self).editing() && final(self).url_text() == old(self).url_text() && out.sound == MenuSound::Move && out.status_next is None
                        && out.effect == (MenuSettingsEffect::KeySet {
                        control: item_control_spec(item)->0,
                        key: input.key,
                    }),
                }
            },
    {
        let quiet = MenuSettingsOutcome {
            sound: MenuSound::Silent,
            effect: MenuSettingsEffect::Unchanged,
            status_next: None,
        };
        if input.key == Key::Escape || input.key == Key::Enter {
            self.selected = false;
            return MenuSettingsOutcome {
                sound: MenuSound::Move,
                effect: MenuSettingsEffect::Unchanged,
                status_next: None,
            };
        }
        match item {
            MenuSettingsItem::Volume => Self::slider_adjust(SettingsSlider::Volume, input.key),
            MenuSettingsItem::MouseSensitivity => Self::slider_adjust(
                SettingsSlider::MouseSensitivity,
                input.key,
            ),
            MenuSettingsItem::DefaultUrl => {
                text_edit(&mut self.default_url, input);
                quiet
            },
            MenuSettingsItem::Vsync => {
                if input.key == Key::ArrowLeft || input.key == Key::ArrowRight {
                    MenuSettingsOutcome {
                        sound: MenuSound::Move,
                        effect: MenuSettingsEffect::VsyncToggle,
                        status_next: None,
                    }
                } else {
                    quiet
                }
            },
            MenuSettingsItem::Save | MenuSettingsItem::GoBack => quiet,
            _ => {
                let control = match item.control() {
                    Some(c) => c,
                    None => {
                        return quiet;
                    },
                };
                self.selected = false;
                MenuSettingsOutcome {
                    sound: MenuSound::Move,
                    effect: MenuSettingsEffect::KeySet { control, key: input.key },
                    status_next: None,
                }
            },
        }
    }

    /// A key on a slider: Left moves it a step down, Right a step up.
    fn slider_adjust(slider: SettingsSlider, key: Key) -> (out: MenuSettingsOutcome)
        ensures
            slider_outcome(out, slider, key),
    {
        if key == Key::ArrowLeft || key == Key::ArrowRight {
            MenuSettingsOutcome {
                sound: MenuSound::Move,
                effect: MenuSettingsEffect::SliderStep { slider, up: key == Key::ArrowRight },
                status_next: None,
            }
        } else {
            MenuSettingsOutcome {
                sound: MenuSound::Silent,
                effect: MenuSettingsEffect::Unchanged,
                status_next: None,
            }
        }
    }
}

} // verus!
