//! The visit menu: type a level URL, visit it, and wait for it to load.
use vstd::prelude::*;
use crate::input::{Key, KeyInput};
use crate::log::LogData;
use crate::menu::{option_state, option_state_spec, MenuRow, MenuSound, OptionState};
use crate::status::AppStatus;
use crate::text::{text_after_key, text_edit};
use crate::weburl::{parsed_url, url_is_valid, url_parse};

verus! {

/// The options of the visit menu, top to bottom.
#[derive(Clone, Copy, PartialEq, Eq, Structural, Debug)]
pub enum MenuVisitItem {
    LevelUrl,
    Visit,
    GoBack,
}

/// The number of options of the visit menu.
pub const MENU_VISIT_ITEM_COUNT: usize = 3;

/// The longest option label and the widest value.
pub const MAX_ITEM_NAME_LEN: usize = 14;
pub const MAX_ITEM_VALUE_LEN: usize = 48;

/// The option at row `i`.
pub open spec fn visit_item(i: int) -> MenuVisitItem {
    if i == 0 {
        MenuVisitItem::LevelUrl
    } else if i == 1 {
        MenuVisitItem::Visit
    } else {
        MenuVisitItem::GoBack
    }
}

/// The options of the visit menu, top to bottom, are LEVEL URL, VISIT and
/// BACK.
pub proof fn law_visit_options_in_order()
    ensures
        visit_item(0) == MenuVisitItem::LevelUrl,
        visit_item(1) == MenuVisitItem::Visit,
        visit_item(2) == MenuVisitItem::GoBack,
{
}

impl MenuVisitItem {
    /// The option at row `i`.
    pub fn from_index(i: usize) -> (r: MenuVisitItem)
        requires
            i < MENU_VISIT_ITEM_COUNT,
        ensures
            r == visit_item(i as int),
    {
        if i == 0 {
            MenuVisitItem::LevelUrl
        } else if i == 1 {
            MenuVisitItem::Visit
        } else {
            MenuVisitItem::GoBack
        }
    }

    /// The label of the option.
    pub fn name(&self) -> (s: &'static str)
        ensures
            s@ == match *self {
                MenuVisitItem::LevelUrl => "LEVEL URL"@,
                MenuVisitItem::Visit => "VISIT"@,
                MenuVisitItem::GoBack => "BACK"@,
            },
    {
        match self {
            MenuVisitItem::LevelUrl => "LEVEL URL",
            MenuVisitItem::Visit => "VISIT",
            MenuVisitItem::GoBack => "BACK",
        }
    }
}

/// How far the level being visited has come.
#[derive(Debug)]
pub enum MenuVisitLoadStatus {
    Loading,
    Failed { message: String },
    Ready,
}

/// What the level cache answers for the level being visited: still loading,
/// ready (with the level's name), or failed (with the error's message).
#[derive(Debug)]
pub enum LevelLookup {
    Loading,
    Ready { name: String },
    Failed { message: String },
}

/// What a key event on the visit menu asks of the application. A new visit
/// empties the level cache and takes the player out of any level.
#[derive(Clone, Copy, PartialEq, Eq, Structural, Debug)]
pub struct MenuVisitOutcome {
    pub sound: MenuSound,
    pub start_visit: bool,
    pub status_next: Option<AppStatus>,
}

/// What an update of the visit menu asks of the application: a message for
/// the log, a level to put the player in, a screen to go to.
#[derive(Debug)]
pub struct MenuVisitUpdate {
    pub log: Option<LogData>,
    pub spawn: Option<String>,
    pub status_next: Option<AppStatus>,
}

/// The update asks for nothing.
pub open spec fn update_quiet(u: MenuVisitUpdate) -> bool {
    u.log is None && u.spawn is None && u.status_next is None
}

/// The outcome is only a sound.
pub open spec fn visit_plain(sound: MenuSound) -> MenuVisitOutcome {
    MenuVisitOutcome { sound, start_visit: false, status_next: None }
}

/// The visit menu: the cursor, whether the option under it is being edited
/// (or a visit waited for), the level being visited, the URL being typed and
/// how far the visited level has come.
pub struct MenuVisit {
    hovered: usize,
    selected: bool,
    visiting: Option<String>,
    level_url: String,
    visit_status: Option<MenuVisitLoadStatus>,
}

impl MenuVisit {
    pub closed spec fn wf(&self) -> bool {
        self.hovered < MENU_VISIT_ITEM_COUNT
    }

    /// The row of the cursor.
    pub closed spec fn cursor(&self) -> int {
        self.hovered as int
    }

    /// The option under the cursor is being edited, or a visit waited for.
    pub closed spec fn editing(&self) -> bool {
        self.selected
    }

    /// The URL of the level being visited, if any.
    pub closed spec fn visiting_url(&self) -> Option<Seq<char>> {
        match self.visiting {
            Some(u) => Some(u@),
            None => None,
        }
    }

    /// The level URL as typed so far.
    pub closed spec fn url_text(&self) -> Seq<char> {
        self.level_url@
    }

    /// How far the visited level has come.
    pub closed spec fn load_status(&self) -> Option<MenuVisitLoadStatus> {
        self.visit_status
    }

    /// The menu with `default_url` typed in.
    pub fn new(default_url: String) -> (m: Self)
        ensures
            m.wf(),
            m.cursor() == 0,
            !m.editing(),
            m.visiting_url() is None,
            m.url_text() == default_url@,
            m.load_status() is None,
    {
        MenuVisit {
            hovered: 0,
            selected: false,
            visiting: None,
            level_url: default_url,
            visit_status: None,
        }
    }

    /// Back to the top, nothing edited or visited; the typed URL stays.
    pub fn clear(&mut self)
        ensures
            final(self).wf(),
            final(self).cursor() == 0,
            !final(self).editing(),
            final(self).visiting_url() is None,
            final(self).url_text() == old(self).url_text(),
            final(self).load_status() is None,
    {
        self.hovered = 0;
        self.selected = false;
        self.visiting = None;
        self.visit_status = None;
    }

    /// Entering the visit menu clears it.
    pub fn status_change_handle(&mut self, status: AppStatus)
        requires
            old(self).wf(),
        ensures
            final(self).wf(),
            status == AppStatus::MenuVisit ==> final(self).cursor() == 0 && !final(self).editing()
                && final(self).visiting_url() is None && final(self).load_status() is None,
            status != AppStatus::MenuVisit ==> *final(self) == *old(self),
            final(self).url_text() == old(self).url_text(),
    {
        if status == AppStatus::MenuVisit {
            self.clear();
        }
    }

    /// The row of the cursor.
    pub fn hovered(&self) -> (r: usize)
        ensures
            r == self.cursor(),
    {
        self.hovered
    }

    /// Whether the option under the cursor is being edited.
    pub fn selected(&self) -> (r: bool)
        ensures
            r == self.editing(),
    {
        self.selected
    }

    /// The level URL as typed so far.
    pub fn level_url(&self) -> (r: &str)
        ensures
            r@ == self.url_text(),
    {
        self.level_url.as_str()
    }

    /// The URL of the level being visited, which the level cache is asked for.
    pub fn visiting(&self) -> (r: Option<&str>)
        ensures
            match r {
                Some(u) => self.visiting_url() == Some(u@),
                None => self.visiting_url() is None,
            },
    {
        match &self.visiting {
            Some(u) => Some(u.as_str()),
            None => None,
        }
    }

    /// The status line under the menu: "Loading..." while the visited level
    /// loads, the error's message when it failed, nothing otherwise.
    pub fn status_message(&self) -> (r: Option<&str>)
        ensures
            match self.load_status() {
                Some(MenuVisitLoadStatus::Loading) => r matches Some(m) && m@ == "Loading..."@,
                Some(MenuVisitLoadStatus::Failed { message }) => r matches Some(m) && m@
                    == message@,
                _ => r is None,
            },
    {
        match &self.visit_status {
            Some(MenuVisitLoadStatus::Loading) => Some("Loading..."),
            Some(MenuVisitLoadStatus::Failed { message }) => Some(message.as_str()),
            _ => None,
        }
    }

    /// How an option is drawn: Visit is disabled while the typed URL does
    /// not parse; an option being edited is selected.
    pub fn item_option_state(&self, item: MenuVisitItem, active: bool) -> (s: OptionState)
        ensures
            s == option_state_spec(
                !(item == MenuVisitItem::Visit && parsed_url(self.url_text()) is None),
                active,
            ),
    {
        let enabled = !(item == MenuVisitItem::Visit && !url_is_valid(self.level_url.as_str()));
        option_state(enabled, active)
    }

    /// The options as drawn while the visit menu is shown, top to bottom
    /// (none on another screen): the cursor's option hovered, and each in
    /// the state `item_option_state` gives it, active under the cursor while
    /// it is being edited.
    pub fn rows(&self, status: AppStatus) -> (r: Vec<MenuRow<MenuVisitItem>>)
        requires
            self.wf(),
        ensures
            status != AppStatus::MenuVisit ==> r@.len() == 0,
            status == AppStatus::MenuVisit ==> r@.len() == MENU_VISIT_ITEM_COUNT && forall|i: int|
                0 <= i < MENU_VISIT_ITEM_COUNT ==> {
                    &&& (#[trigger] r@[i]).item == visit_item(i)
                    &&& r@[i].hovered == (i == self.cursor())
                    &&& r@[i].state == option_state_spec(
                        !(visit_item(i) == MenuVisitItem::Visit && parsed_url(self.url_text()) is None),
                        i == self.cursor() && self.editing(),
                    )
                },
    {
        let mut r: Vec<MenuRow<MenuVisitItem>> = Vec::new();
        if status != AppStatus::MenuVisit {
            return r;
        }
        let mut i: usize = 0;
        while i < MENU_VISIT_ITEM_COUNT
            invariant
                self.wf(),
                i <= MENU_VISIT_ITEM_COUNT,
                r@.len() == i,
                forall|j: int|
                    0 <= j < i ==> {
                        &&& (#[trigger] r@[j]).item == visit_item(j)
                        &&& r@[j].hovered == (j == self.cursor())
                        &&& r@[j].state == option_state_spec(
                            !(visit_item(j) == MenuVisitItem::Visit && parsed_url(self.url_text()) is None),
                            j == self.cursor() && self.editing(),
                        )
                    },
            decreases MENU_VISIT_ITEM_COUNT - i,
        {
            let item = MenuVisitItem::from_index(i);
            let hovered = i == self.hovered;
            let state = self.item_option_state(item, hovered && self.selected);
            r.push(MenuRow { item, hovered, state });
            i = i + 1;
        }
        r
    }

    /// Follows the level being visited: the status line shows it loading or
    /// failing; the first time it is ready, the log says so, the player is
    /// put in it and the level is shown.
    pub fn update(&mut self, status: AppStatus, lookup: LevelLookup) -> (u: MenuVisitUpdate)
        requires
            old(self).wf(),
        ensures
            final(self).wf(),
            final(self).cursor() == old(self).cursor(),
            final(self).editing() == old(self).editing(),
            final(self).visiting_url() == old(self).visiting_url(),
            final(self).url_text() == old(self).url_text(),
            status != AppStatus::MenuVisit || old(self).visiting_url() is None ==> *final(self)
                == *old(self) && update_quiet(u),
            status == AppStatus::MenuVisit && old(self).visiting_url() is Some ==> match lookup {
                LevelLookup::Loading => update_quiet(u) && final(self).load_status() == if old(self).load_status() matches Some(MenuVisitLoadStatus::Loading) {
                    old(self).load_status()
                } else {
                    Some(MenuVisitLoadStatus::Loading)
                },
                LevelLookup::Ready { name } => if old(self).load_status() matches Some(
                    MenuVisitLoadStatus::Ready,
                ) {
                    update_quiet(u) && final(self).load_status() == old(self).load_status()
                } else {
                    final(self).load_status() == Some(MenuVisitLoadStatus::Ready) && (
                    u.log matches Some(LogData::Entered { name: n, portal_name: None }) && n@
                        == name@) && (u.spawn matches Some(s) && Some(s@) == old(self).visiting_url()) && u.status_next == Some(AppStatus::Simulation)
                },
                LevelLookup::Failed { message } => update_quiet(u) && if old(self).load_status() matches Some(MenuVisitLoadStatus::Failed { .. }) {
                    final(self).load_status() == old(self).load_status()
                } else {
                    final(self).load_status() == Some(MenuVisitLoadStatus::Failed { message })
                },
            },
    {
        let quiet = MenuVisitUpdate { log: None, spawn: None, status_next: None };
        if status != AppStatus::MenuVisit {
            return quiet;
        }
        let url = match &self.visiting {
            Some(u) => u.clone(),
            None => return quiet,
        };
        match lookup {
            LevelLookup::Loading => {
                if !matches!(self.visit_status, Some(MenuVisitLoadStatus::Loading)) {
                    self.visit_status = Some(MenuVisitLoadStatus::Loading);
                }
                quiet
            },
            LevelLookup::Ready { name } => {
                if matches!(self.visit_status, Some(MenuVisitLoadStatus::Ready)) {
                    return quiet;
                }
                self.visit_status = Some(MenuVisitLoadStatus::Ready);
                MenuVisitUpdate {
                    log: Some(LogData::Entered { name, portal_name: None }),
                    spawn: Some(url),
                    status_next: Some(AppStatus::Simulation),
                }
            },
            LevelLookup::Failed { message } => {
                if !matches!(self.visit_status, Some(MenuVisitLoadStatus::Failed { .. })) {
                    self.visit_status = Some(MenuVisitLoadStatus::Failed { message });
                }
                quiet
            },
        }
    }

    /// Handles a key on the visit menu. While no option is edited, the
    /// arrows move the cursor round the options, Escape returns home and
    /// Enter chooses the option; while one is edited, the key goes to it.
    pub fn key_event(&mut self, status: AppStatus, input: &KeyInput) -> (out: MenuVisitOutcome)
        requires
            old(self).wf(),
        ensures
            final(self).wf(),
            status != AppStatus::MenuVisit || !input.pressed ==> *final(self) == *old(self) && out
                == visit_plain(MenuSound::Silent),
            status == AppStatus::MenuVisit && input.pressed && !old(self).editing() ==> final(self).url_text() == old(self).url_text() && final(self).load_status() == old(self).load_status() && match input.key {
                Key::ArrowUp => final(self).cursor() == (old(self).cursor() + 2) % 3 && !final(self).editing() && final(self).visiting_url() == old(self).visiting_url() && out
                    == visit_plain(MenuSound::Move),
                Key::ArrowDown => final(self).cursor() == (old(self).cursor() + 1) % 3 && !final(self).editing() && final(self).visiting_url() == old(self).visiting_url() && out
                    == visit_plain(MenuSound::Move),
                Key::Escape => *final(self) == *old(self) && out == MenuVisitOutcome {
                    sound: MenuSound::Move,
                    start_visit: false,
                    status_next: Some(AppStatus::MenuHome),
                },
                Key::Enter => final(self).cursor() == old(self).cursor() && match visit_item(
                    old(self).cursor(),
                ) {
                    MenuVisitItem::LevelUrl => final(self).editing() && final(self).visiting_url()
                        == old(self).visiting_url() && out == visit_plain(MenuSound::Select),
                    MenuVisitItem::Visit => match parsed_url(old(self).url_text()) {
                        Some(u) => final(self).editing() && final(self).visiting_url() == Some(u)
                            && out == MenuVisitOutcome {
                            sound: MenuSound::Select,
                            start_visit: true,
                            status_next: None,
                        },
                        None => !final(self).editing() && final(self).visiting_url() == old(self).visiting_url() && out == visit_plain(MenuSound::Select),
                    },
                    MenuVisitItem::GoBack => !final(self).editing() && final(self).visiting_url()
                        == old(self).visiting_url() && out == MenuVisitOutcome {
                        sound: MenuSound::Select,
                        start_visit: false,
                        status_next: Some(AppStatus::MenuHome),
                    },
                },
                _ => *final(self) == *old(self) && out == visit_plain(MenuSound::Silent),
            },
            status == AppStatus::MenuVisit && input.pressed && old(self).editing() ==> final(self).cursor() == old(self).cursor() && if visit_item(old(self).cursor())
                == MenuVisitItem::Visit {
                final(self).url_text() == old(self).url_text() && if old(self).visiting_url() is Some {
                    if input.key == Key::Escape {
                        !final(self).editing() && final(self).visiting_url() is None && final(self).load_status() is None && out == visit_plain(MenuSound::Move)
                    } else {
                        *final(self) == *old(self) && out == visit_plain(MenuSound::Silent)
                    }
                } else {
                    !final(self).editing() && final(self).visiting_url() is None && final(self).load_status() == old(self).load_status() && out == visit_plain(
                        MenuSound::Silent,
                    )
                }
            } else {
                final(self).visiting_url() == old(self).visiting_url() && final(self).load_status()
                    == old(self).load_status() && if input.key == Key::Escape || input.key
                    == Key::Enter {
                    !final(self).editing() && final(self).url_text() == old(self).url_text()
                        && out == visit_plain(MenuSound::Move)
                } else {
                    final(self).editing() && out == visit_plain(MenuSound::Silent) && final(self).url_text() == if visit_item(old(self).cursor())
                        == MenuVisitItem::LevelUrl {
                        text_after_key(old(self).url_text(), input.key, input.text_view())
                    } else {
                        old(self).url_text()
                    }
                }
            },
    {
        let quiet = MenuVisitOutcome {
            sound: MenuSound::Silent,
            start_visit: false,
            status_next: None,
        };
        if status != AppStatus::MenuVisit || !input.pressed {
            return quiet;
        }
        let item = MenuVisitItem::from_index(self.hovered);
        if self.selected {
            return self.item_key_event(item, input);
        }
        match input.key {
            Key::ArrowUp => {
                self.hovered = (self.hovered + MENU_VISIT_ITEM_COUNT - 1) % MENU_VISIT_ITEM_COUNT;
                MenuVisitOutcome { sound: MenuSound::Move, start_visit: false, status_next: None }
            },
            Key::ArrowDown => {
                self.hovered = (self.hovered + 1) % MENU_VISIT_ITEM_COUNT;
                MenuVisitOutcome { sound: MenuSound::Move, start_visit: false, status_next: None }
            },
            Key::Escape => MenuVisitOutcome {
                sound: MenuSound::Move,
                start_visit: false,
                status_next: Some(AppStatus::MenuHome),
            },
            Key::Enter => self.item_on_select(item),
            _ => quiet,
        }
    }

    /// Choosing an option: the URL field starts being edited; Visit starts
    /// a visit of the typed URL when it parses; Back returns home.
    fn item_on_select(&mut self, item: MenuVisitItem) -> (out: MenuVisitOutcome)
        requires
            old(self).wf(),
            !old(self).editing(),
        ensures
            final(self).wf(),
            final(self).cursor() == old(self).cursor(),
            final(self).url_text() == old(self).url_text(),
            final(self).load_status() == old(self).load_status(),
            match item {
                MenuVisitItem::LevelUrl => final(self).editing() && final(self).visiting_url()
                    == old(self).visiting_url() && out == visit_plain(MenuSound::Select),
                MenuVisitItem::Visit => match parsed_url(old(self).url_text()) {
                    Some(u) => final(self).editing() && final(self).visiting_url() == Some(u)
                        && out == MenuVisitOutcome {
                        sound: MenuSound::Select,
                        start_visit: true,
                        status_next: None,
                    },
                    None => !final(self).editing() && final(self).visiting_url() == old(self).visiting_url() && out == visit_plain(MenuSound::Select),
                },
                MenuVisitItem::GoBack => !final(self).editing() && final(self).visiting_url()
                    == old(self).visiting_url() && out == MenuVisitOutcome {
                    sound: MenuSound::Select,
                    start_visit: false,
                    status_next: Some(AppStatus::MenuHome),
                },
            },
    {
        match item {
            MenuVisitItem::LevelUrl => {
                self.selected = true;
                MenuVisitOutcome { sound: MenuSound::Select, start_visit: false, status_next: None }
            },
            MenuVisitItem::Visit => match url_parse(self.level_url.as_str()) {
                Ok(url) => {
                    self.visiting = Some(url);
                    self.selected = true;
                    MenuVisitOutcome {
                        sound: MenuSound::Select,
                        start_visit: true,
                        status_next: None,
                    }
                },
                Err(_) => MenuVisitOutcome {
                    sound: MenuSound::Select,
                    start_visit: false,
                    status_next: None,
                },
            },
            MenuVisitItem::GoBack => MenuVisitOutcome {
                sound: MenuSound::Select,
                start_visit: false,
                status_next: Some(AppStatus::MenuHome),
            },
        }
    }

    /// A key on the option being edited. While a visit is waited for, only
    /// Escape (abandoning it) does anything; otherwise Escape and Enter stop
    /// editing and the URL field takes other keys as text.
    fn item_key_event(&mut self, item: MenuVisitItem, input: &KeyInput) -> (out: MenuVisitOutcome)
        requires
            old(self).wf(),
            old(self).editing(),
            item == visit_item(old(self).cursor()),
        ensures
            final(self).wf(),
            final(self).cursor() == old(self).cursor(),
            if item == MenuVisitItem::Visit {
                final(self).url_text() == old(self).url_text() && if old(self).visiting_url() is Some {
                    if input.key == Key::Escape {
                        !final(self).editing() && final(self).visiting_url() is None && final(self).load_status() is None && out == visit_plain(MenuSound::Move)
                    } else {
                        *final(self) == *old(self) && out == visit_plain(MenuSound::Silent)
                    }
                } else {
                    !final(self).editing() && final(self).visiting_url() is None && final(self).load_status() == old(self).load_status() && out == visit_plain(
                        MenuSound::Silent,
                    )
                }
            } else {
                final(self).visiting_url() == old(self).visiting_url() && final(self).load_status()
                    == old(self).load_status() && if input.key == Key::Escape || input.key
                    == Key::Enter {
                    !final(self).editing() && final(self).url_text() == old(self).url_text()
                        && out == visit_plain(MenuSound::Move)
                } else {
                    final(self).editing() && out == visit_plain(MenuSound::Silent) && final(self).url_text() == if item == MenuVisitItem::LevelUrl {
                        text_after_key(old(self).url_text(), input.key, input.text_view())
                    } else {
                        old(self).url_text()
                    }
                }
            },
    {
        let quiet = MenuVisitOutcome {
            sound: MenuSound::Silent,
            start_visit: false,
            status_next: None,
        };
        if item == MenuVisitItem::Visit {
            if self.visiting.is_some() {
                if input.key == Key::Escape {
                    self.visiting = None;
                    self.selected = false;
                    self.visit_status = None;
                    return MenuVisitOutcome {
                        sound: MenuSound::Move,
                        start_visit: false,
                        status_next: None,
                    };
                }
                return quiet;
            }
            self.selected = false;
            return quiet;
        }
        if input.key == Key::Escape || input.key == Key::Enter {
            self.selected = false;
            return MenuVisitOutcome {
                sound: MenuSound::Move,
                start_visit: false,
                status_next: None,
            };
        }
        if item == MenuVisitItem::LevelUrl {
            text_edit(&mut self.level_url, input);
        }
        quiet
    }
}

} // verus!
