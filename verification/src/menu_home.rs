//! The home menu: visit a level, change the settings, or quit.
use vstd::prelude::*;
use crate::input::{Key, KeyInput};
use crate::menu::{MenuRow, MenuSound, OptionState};
use crate::status::AppStatus;

verus! {

/// The options of the home menu, top to bottom.
#[derive(Clone, Copy, PartialEq, Eq, Structural, Debug)]
pub enum MenuHomeItem {
    Visit,
    Settings,
    Quit,
}

/// The number of options of the home menu.
pub const MENU_HOME_ITEM_COUNT: usize = 3;

/// The longest option label.
pub const MAX_ITEM_LEN: usize = 12;

/// The option at row `i`.
pub open spec fn home_item(i: int) -> MenuHomeItem {
    if i == 0 {
        MenuHomeItem::Visit
    } else if i == 1 {
        MenuHomeItem::Settings
    } else {
        MenuHomeItem::Quit
    }
}

impl MenuHomeItem {
    /// The option at row `i`, if there is one.
    pub fn from_index(i: usize) -> (r: Option<MenuHomeItem>)
        ensures
            i < MENU_HOME_ITEM_COUNT ==> r == Some(home_item(i as int)),
            i >= MENU_HOME_ITEM_COUNT ==> r is None,
    {
        if i == 0 {
            Some(MenuHomeItem::Visit)
        } else if i == 1 {
            Some(MenuHomeItem::Settings)
        } else if i == 2 {
            Some(MenuHomeItem::Quit)
        } else {
            None
        }
    }

    /// The label of the option.
    pub fn name(&self) -> (s: &'static str)
        ensures
            s@ == match *self {
                MenuHomeItem::Visit => "VISIT"@,
                MenuHomeItem::Settings => "SETTINGS"@,
                MenuHomeItem::Quit => "QUIT"@,
            },
    {
        match self {
            MenuHomeItem::Visit => "VISIT",
            MenuHomeItem::Settings => "SETTINGS",
            MenuHomeItem::Quit => "QUIT",
        }
    }
}

/// What a key event on the home menu asks of the application: a sound, a
/// screen to go to, or to quit.
#[derive(Clone, Copy, PartialEq, Eq, Structural, Debug)]
pub struct MenuHomeOutcome {
    pub sound: MenuSound,
    pub status_next: Option<AppStatus>,
    pub quit: bool,
}

/// Nothing to do.
pub open spec fn home_quiet() -> MenuHomeOutcome {
    MenuHomeOutcome { sound: MenuSound::Silent, status_next: None, quit: false }
}

/// What choosing an option asks for: the select sound, then the menu of
/// the option or quitting.
pub open spec fn home_select(item: MenuHomeItem) -> MenuHomeOutcome {
    match item {
        MenuHomeItem::Visit => MenuHomeOutcome {
            sound: MenuSound::Select,
            status_next: Some(AppStatus::MenuVisit),
            quit: false,
        },
        MenuHomeItem::Settings => MenuHomeOutcome {
            sound: MenuSound::Select,
            status_next: Some(AppStatus::MenuSettings),
            quit: false,
        },
        MenuHomeItem::Quit => MenuHomeOutcome {
            sound: MenuSound::Select,
            status_next: None,
            quit: true,
        },
    }
}

/// Choosing an option of the home menu goes where the option says, with the
/// select sound: VISIT to the visit menu and SETTINGS to the settings menu,
/// neither quitting; QUIT quits and changes no screen. The options, top to
/// bottom, are VISIT, SETTINGS and QUIT.
pub proof fn law_home_options_lead_where_named(item: MenuHomeItem)
    ensures
        home_select(MenuHomeItem::Visit).status_next == Some(AppStatus::MenuVisit),
        home_select(MenuHomeItem::Settings).status_next == Some(AppStatus::MenuSettings),
        home_select(MenuHomeItem::Quit).quit && home_select(MenuHomeItem::Quit).status_next is None,
        home_select(item).sound == MenuSound::Select,
        home_select(item).quit <==> item == MenuHomeItem::Quit,
        home_item(0) == MenuHomeItem::Visit && home_item(1) == MenuHomeItem::Settings && home_item(2)
            == MenuHomeItem::Quit,
{
}

/// The home menu: which option the cursor is on.
pub struct MenuHome {
    selected: usize,
}

impl MenuHome {
    #[verifier::type_invariant]
    spec fn cursor_in_menu(self) -> bool {
        self.selected < MENU_HOME_ITEM_COUNT
    }

    /// The row of the cursor.
    pub closed spec fn cursor(&self) -> int {
        self.selected as int
    }

    /// The cursor on the first option.
    pub fn new() -> (m: Self)
        ensures
            m.cursor() == 0,
    {
        MenuHome { selected: 0 }
    }

    /// The row of the cursor.
    pub fn selected(&self) -> (r: usize)
        ensures
            r == self.cursor(),
            r < MENU_HOME_ITEM_COUNT,
    {
        proof {
            use_type_invariant(self);
        }
        self.selected
    }

    /// The options as drawn while the home menu is shown, top to bottom (none
    /// on another screen): the cursor's option hovered, none selected.
    pub fn rows(&self, status: AppStatus) -> (r: Vec<MenuRow<MenuHomeItem>>)
        ensures
            status != AppStatus::MenuHome ==> r@.len() == 0,
            status == AppStatus::MenuHome ==> r@.len() == MENU_HOME_ITEM_COUNT && forall|i: int|
                0 <= i < MENU_HOME_ITEM_COUNT ==> {
                    &&& (#[trigger] r@[i]).item == home_item(i)
                    &&& r@[i].hovered == (i == self.cursor())
                    &&& r@[i].state == OptionState::Unselected
                },
    {
        proof {
            use_type_invariant(self);
        }
        let mut r: Vec<MenuRow<MenuHomeItem>> = Vec::new();
        if status != AppStatus::MenuHome {
            return r;
        }
        let mut i: usize = 0;
        while i < MENU_HOME_ITEM_COUNT
            invariant
                i <= MENU_HOME_ITEM_COUNT,
                r@.len() == i,
                forall|j: int|
                    0 <= j < i ==> {
                        &&& (#[trigger] r@[j]).item == home_item(j)
                        &&& r@[j].hovered == (j == self.cursor())
                        &&& r@[j].state == OptionState::Unselected
                    },
            decreases MENU_HOME_ITEM_COUNT - i,
        {
            let item = MenuHomeItem::from_index(i).unwrap();
            r.push(MenuRow { item, hovered: i == self.selected, state: OptionState::Unselected });
            i = i + 1;
        }
        r
    }

    /// The per-frame update: the home menu has nothing to update.
    pub fn update(&mut self, status: AppStatus)
        ensures
            final(self).cursor() == old(self).cursor(),
    {
    }

    /// Handles a key on the home menu: the arrows move the cursor round the
    /// options, Escape returns to the level, Enter chooses the option.
    pub fn key_event(&mut self, status: AppStatus, input: &KeyInput) -> (out: MenuHomeOutcome)
        ensures
            status != AppStatus::MenuHome || !input.pressed ==> out == home_quiet()
                && final(self).cursor() == old(self).cursor(),
            status == AppStatus::MenuHome && input.pressed ==> match input.key {
                Key::ArrowUp => final(self).cursor() == (old(self).cursor() + 2) % 3 && out
                    == MenuHomeOutcome { sound: MenuSound::Move, status_next: None, quit: false },
                Key::ArrowDown => final(self).cursor() == (old(self).cursor() + 1) % 3 && out
                    == MenuHomeOutcome { sound: MenuSound::Move, status_next: None, quit: false },
                Key::Escape => final(self).cursor() == old(self).cursor() && out
                    == MenuHomeOutcome {
                    sound: MenuSound::Move,
                    status_next: Some(AppStatus::Simulation),
                    quit: false,
                },
                Key::Enter => final(self).cursor() == old(self).cursor() && out == home_select(
                    home_item(old(self).cursor()),
                ),
                _ => final(self).cursor() == old(self).cursor() && out == home_quiet(),
            },
    {
        proof {
            use_type_invariant(&*self);
        }
        let quiet = MenuHomeOutcome { sound: MenuSound::Silent, status_next: None, quit: false };
        if status != AppStatus::MenuHome || !input.pressed {
            return quiet;
        }
        match input.key {
            Key::ArrowUp => {
                self.selected = (self.selected + MENU_HOME_ITEM_COUNT - 1) % MENU_HOME_ITEM_COUNT;
                MenuHomeOutcome { sound: MenuSound::Move, status_next: None, quit: false }
            },
            Key::ArrowDown => {
                self.selected = (self.selected + 1) % MENU_HOME_ITEM_COUNT;
                MenuHomeOutcome { sound: MenuSound::Move, status_next: None, quit: false }
            },
            Key::Escape => MenuHomeOutcome {
                sound: MenuSound::Move,
                status_next: Some(AppStatus::Simulation),
                quit: false,
            },
            Key::Enter => match MenuHomeItem::from_index(self.selected) {
                Some(item) => Self::item_on_select(item),
                None => quiet,
            },
            _ => quiet,
        }
    }

    /// What choosing `item` asks for.
    fn item_on_select(item: MenuHomeItem) -> (out: MenuHomeOutcome)
        ensures
            out == home_select(item),
    {
        match item {
            MenuHomeItem::Visit => MenuHomeOutcome {
                sound: MenuSound::Select,
                status_next: Some(AppStatus::MenuVisit),
                quit: false,
            },
            MenuHomeItem::Settings => MenuHomeOutcome {
                sound: MenuSound::Select,
                status_next: Some(AppStatus::MenuSettings),
                quit: false,
            },
            MenuHomeItem::Quit => MenuHomeOutcome {
                sound: MenuSound::Select,
                status_next: None,
                quit: true,
            },
        }
    }
}

} // verus!
