//! The navigation state machine: which screen is shown, the mode within it,
//! the cursors and drafts, and how one key moves it on. Storage is not
//! touched here: a step returns the write it calls for, and whoever runs the
//! machine performs it.
use vstd::prelude::*;

use crate::menu::{item_at, menu_down, menu_up, move_down, move_up, MainItem, MENU_LEN};
use crate::display::display_step;
use crate::profile::{DisplayProfile, DisplayProfileDraft, TasteProfile, TasteProfileDraft, DRAFT_NAME_FIELD};
use crate::taste::taste_step;
use crate::text::{horizontal, vertical};
use crate::wizard::wizard_step;

verus! {

#[derive(Debug, Clone, Copy, PartialEq, Eq, Structural)]
pub enum Screen {
    Main,
    TasteProfiles,
    DisplayProfiles,
    Build,
}

/// Mode of the taste profiles screen; a mode that edits text holds its buffer.
#[derive(Debug, Clone, PartialEq, Eq)]
pub enum TasteScreenMode {
    Browse,
    Detail,
    /// Typing a year of the selected profile.
    EditingDate(String),
    /// Choosing keywords of the selected profile.
    SelectingKeywords,
    /// Moving over the fields of the new profile's draft.
    CreatingProfile,
    /// Typing a year of the draft.
    CreatingEditDate(String),
    /// Choosing keywords of the draft.
    CreatingSelectKeywords,
    /// Typing the draft's name, its last step.
    CreatingName(String),
}

/// Mode of the display profiles screen; a mode that edits text holds its buffer.
#[derive(Debug, Clone, PartialEq, Eq)]
pub enum DisplayScreenMode {
    Browse,
    Detail,
    /// Typing the color or the aspect ratio of the selected profile.
    EditingText(String),
    /// Moving over the fields of the new profile's draft.
    CreatingProfile,
    /// Typing the color or the aspect ratio of the draft.
    CreatingEditText(String),
    /// Typing the draft's name, its last step.
    CreatingName(String),
}

#[derive(Debug, Clone, Copy, PartialEq, Eq, Structural)]
pub enum BuildStep {
    PickTaste,
    PickDisplay,
    PickOutputDir,
}

/// A key press, as the state machine tells keys apart.
#[derive(Debug, Clone, Copy, PartialEq, Eq, Structural)]
pub enum Key {
    Up,
    Down,
    Enter,
    Esc,
    Delete,
    Backspace,
    Char(char),
    Other,
}

/// Up, or `k` where a mode does not take text.
pub open spec fn is_up(key: Key) -> bool {
    key == Key::Up || key == Key::Char('k')
}

/// Down, or `j` where a mode does not take text.
pub open spec fn is_down(key: Key) -> bool {
    key == Key::Down || key == Key::Char('j')
}

pub(crate) fn key_is_up(key: Key) -> (r: bool)
    ensures
        r == is_up(key),
{
    match key {
        Key::Up => true,
        Key::Char(c) => c == 'k',
        _ => false,
    }
}

pub(crate) fn key_is_down(key: Key) -> (r: bool)
    ensures
        r == is_down(key),
{
    match key {
        Key::Down => true,
        Key::Char(c) => c == 'j',
        _ => false,
    }
}

/// A write to storage that a step calls for.
#[derive(Debug, Clone, PartialEq, Eq)]
pub enum StoreOp {
    DeleteTaste { id: i64 },
    UpdateTaste { id: i64, date_start: Option<i64>, date_end: Option<i64>, is_public_domain: bool },
    /// Its identity is handed back through `App::taste_inserted`.
    InsertTaste { name: String, date_start: Option<i64>, date_end: Option<i64>, is_public_domain: bool },
    AddTasteKeyword { profile_id: i64, keyword_id: i64 },
    RemoveTasteKeyword { profile_id: i64, keyword_id: i64 },
    DeleteDisplay { id: i64 },
    UpdateDisplay {
        id: i64,
        wallpaper_color: String,
        frame_style: String,
        orientation: String,
        aspect_ratio: String,
    },
    /// Its identity is handed back through `App::display_inserted`.
    InsertDisplay {
        name: String,
        wallpaper_color: String,
        frame_style: String,
        orientation: String,
        aspect_ratio: String,
    },
}

/// The last field of a taste profile's detail view (reserved for artists).
pub const TASTE_LAST_FIELD: usize = 4;

/// The last field of a display profile's detail view (its aspect ratio).
pub const DISPLAY_LAST_FIELD: usize = 3;

pub struct App {
    pub screen: Screen,
    pub should_quit: bool,
    pub main_selected: usize,
    pub taste_profiles: Vec<TasteProfile>,
    pub taste_selected: usize,
    pub taste_mode: TasteScreenMode,
    /// 0 date start, 1 date end, 2 public domain, 3 keywords, 4 artists.
    pub taste_detail_field: usize,
    /// The keyword catalog: identity and text.
    pub available_keywords: Vec<(i64, String)>,
    pub keyword_cursor: usize,
    pub new_taste_draft: TasteProfileDraft,
    pub display_profiles: Vec<DisplayProfile>,
    pub display_selected: usize,
    pub display_mode: DisplayScreenMode,
    /// 0 color, 1 frame, 2 orientation, 3 aspect ratio.
    pub display_detail_field: usize,
    pub new_display_draft: DisplayProfileDraft,
    pub build_step: BuildStep,
    pub build_taste_idx: usize,
    pub build_display_idx: usize,
    pub build_output_dir: String,
}

/// A list cursor after one step back: stops at the first entry.
pub open spec fn cursor_back(cursor: usize) -> usize {
    if cursor > 0 {
        (cursor - 1) as usize
    } else {
        cursor
    }
}

/// A list cursor after one step on in a list of `len`: stops at the last entry.
pub open spec fn cursor_on(cursor: usize, len: nat) -> usize {
    if len > 0 && cursor < len - 1 {
        (cursor + 1) as usize
    } else {
        cursor
    }
}

/// A field cursor after one step on: stops at `last`.
pub open spec fn field_on(field: usize, last: usize) -> usize {
    if field < last {
        (field + 1) as usize
    } else {
        field
    }
}

/// The selection after the entry under it was deleted from a list, which now
/// holds `len`: kept, or moved onto the new last entry.
pub open spec fn selected_after_delete(selected: usize, len: nat) -> usize {
    if selected > 0 && selected >= len {
        (len - 1) as usize
    } else {
        selected
    }
}

/// A cursor into a list of `len` entries: in range, or 0 when the list is empty.
pub open spec fn cursor_ok(cursor: usize, len: nat) -> bool {
    cursor < len || cursor == 0
}

impl App {
    /// Modes that act on the selected taste profile.
    pub open spec fn taste_mode_on_profile(&self) -> bool {
        self.taste_mode is Detail || self.taste_mode is EditingDate || self.taste_mode is SelectingKeywords
    }

    /// Modes that act on the selected display profile.
    pub open spec fn display_mode_on_profile(&self) -> bool {
        self.display_mode is Detail || self.display_mode is EditingText
    }

    /// The session's invariant: the menu cursor rests on an enabled item,
    /// every cursor indexes its list or is 0 on an empty one, field cursors
    /// stay in their ranges, the draft's orientation is one of its two
    /// values, and a mode that acts on a selected profile has one.
    pub open spec fn wf(&self) -> bool {
        &&& self.main_selected < MENU_LEN
        &&& !item_at(self.main_selected as int).disabled()
        &&& cursor_ok(self.taste_selected, self.taste_profiles@.len())
        &&& cursor_ok(self.display_selected, self.display_profiles@.len())
        &&& cursor_ok(self.keyword_cursor, self.available_keywords@.len())
        &&& self.taste_detail_field <= TASTE_LAST_FIELD
        &&& self.display_detail_field <= DISPLAY_LAST_FIELD
        &&& self.new_taste_draft.current_field <= DRAFT_NAME_FIELD
        &&& self.new_display_draft.current_field <= DRAFT_NAME_FIELD
        &&& (self.new_display_draft.orientation@ == horizontal() || self.new_display_draft.orientation@ == vertical())
        &&& self.taste_mode_on_profile() ==> self.taste_profiles@.len() > 0
        &&& self.display_mode_on_profile() ==> self.display_profiles@.len() > 0
        &&& self.screen == Screen::Build ==> {
            &&& cursor_ok(self.build_taste_idx, self.taste_profiles@.len())
            &&& cursor_ok(self.build_display_idx, self.display_profiles@.len())
        }
    }

    /// A session on the main menu over what storage holds.
    pub fn new(
        taste_profiles: Vec<TasteProfile>,
        display_profiles: Vec<DisplayProfile>,
        available_keywords: Vec<(i64, String)>,
        build_output_dir: String,
    ) -> (r: App)
        ensures
            r.wf(),
            r.screen == Screen::Main,
            !r.should_quit,
            r.main_selected == 0,
            r.taste_profiles == taste_profiles,
            r.taste_selected == 0,
            r.taste_mode == TasteScreenMode::Browse,
            r.taste_detail_field == 0,
            r.available_keywords == available_keywords,
            r.keyword_cursor == 0,
            r.new_taste_draft.is_fresh(),
            r.display_profiles == display_profiles,
            r.display_selected == 0,
            r.display_mode == DisplayScreenMode::Browse,
            r.display_detail_field == 0,
            r.new_display_draft.is_fresh(),
            r.build_step == BuildStep::PickTaste,
            r.build_taste_idx == 0,
            r.build_display_idx == 0,
            r.build_output_dir == build_output_dir,
    {
        App {
            screen: Screen::Main,
            should_quit: false,
            main_selected: 0,
            taste_profiles,
            taste_selected: 0,
            taste_mode: TasteScreenMode::Browse,
            taste_detail_field: 0,
            available_keywords,
            keyword_cursor: 0,
            new_taste_draft: TasteProfileDraft::default(),
            display_profiles,
            display_selected: 0,
            display_mode: DisplayScreenMode::Browse,
            display_detail_field: 0,
            new_display_draft: DisplayProfileDraft::default(),
            build_step: BuildStep::PickTaste,
            build_taste_idx: 0,
            build_display_idx: 0,
            build_output_dir,
        }
    }
}

/// Activating the main menu item under the cursor.
pub open spec fn main_activated(a: App, b: App) -> bool {
    match item_at(a.main_selected as int) {
        MainItem::TasteProfiles => b == App { screen: Screen::TasteProfiles, taste_mode: TasteScreenMode::Browse, ..a },
        MainItem::DisplayProfiles => b == App {
            screen: Screen::DisplayProfiles,
            display_mode: DisplayScreenMode::Browse,
            ..a
        },
        MainItem::Build => b == App {
            screen: Screen::Build,
            build_step: BuildStep::PickTaste,
            build_taste_idx: 0,
            build_display_idx: 0,
            ..a
        },
        MainItem::Prune => b == a,
        MainItem::Exit => b == App { should_quit: true, ..a },
    }
}

/// One key on the main menu.
pub open spec fn main_step(a: App, key: Key, b: App) -> bool {
    if is_up(key) {
        b == App { main_selected: menu_up(a.main_selected as int) as usize, ..a }
    } else if is_down(key) {
        b == App { main_selected: menu_down(a.main_selected as int) as usize, ..a }
    } else if key == Key::Enter {
        main_activated(a, b)
    } else if key == Key::Char('q') || key == Key::Esc {
        b == App { should_quit: true, ..a }
    } else {
        b == a
    }
}

impl App {
    fn main_activate(&mut self)
        requires
            old(self).wf(),
        ensures
            final(self).wf(),
            main_activated(*old(self), *final(self)),
    {
        match MainItem::at(self.main_selected) {
            MainItem::TasteProfiles => {
                self.screen = Screen::TasteProfiles;
                self.taste_mode = TasteScreenMode::Browse;
            },
            MainItem::DisplayProfiles => {
                self.screen = Screen::DisplayProfiles;
                self.display_mode = DisplayScreenMode::Browse;
            },
            MainItem::Build => {
                self.build_step = BuildStep::PickTaste;
                self.build_taste_idx = 0;
                self.build_display_idx = 0;
                self.screen = Screen::Build;
            },
            MainItem::Prune => {},
            MainItem::Exit => {
                self.should_quit = true;
            },
        }
    }

    fn handle_main(&mut self, key: Key)
        requires
            old(self).wf(),
        ensures
            final(self).wf(),
            main_step(*old(self), key, *final(self)),
    {
        if key_is_up(key) {
            self.main_selected = move_up(self.main_selected);
        } else if key_is_down(key) {
            self.main_selected = move_down(self.main_selected);
        } else if key == Key::Enter {
            self.main_activate();
        } else if key == Key::Char('q') || key == Key::Esc {
            self.should_quit = true;
        }
    }
}

/// One key, on whichever screen is shown: the state after it, and the write
/// to storage it calls for, if any.
pub open spec fn app_step(a: App, key: Key, b: App, r: Option<StoreOp>) -> bool {
    match a.screen {
        Screen::Main => r is None && main_step(a, key, b),
        Screen::TasteProfiles => taste_step(a, key, b, r),
        Screen::DisplayProfiles => display_step(a, key, b, r),
        Screen::Build => r is None && wizard_step(a, key, b),
    }
}

impl App {
    /// Moves the machine on by one key and returns the write to storage that
    /// the key calls for. An insert completes through `taste_inserted` or
    /// `display_inserted` once storage has assigned the new identity.
    pub fn handle_key(&mut self, key: Key) -> (r: Option<StoreOp>)
        requires
            old(self).wf(),
        ensures
            final(self).wf(),
            app_step(*old(self), key, *final(self), r),
    {
        match self.screen {
            Screen::Main => {
                self.handle_main(key);
                None
            },
            Screen::TasteProfiles => self.handle_taste(key),
            Screen::DisplayProfiles => self.handle_display(key),
            Screen::Build => {
                self.handle_build(key);
                None
            },
        }
    }
}

/// After a delete on either profile list the selection is an index into
/// what is left, unless nothing is left.
pub proof fn lemma_delete_keeps_selection(a: App, key: Key, b: App, r: Option<StoreOp>)
    requires
        a.wf(),
        key == Key::Delete || key == Key::Char('d'),
        app_step(a, key, b, r),
    ensures
        a.screen == Screen::TasteProfiles && a.taste_mode is Browse ==> {
            &&& b.taste_profiles@.len() == if a.taste_profiles@.len() > 0 {
                a.taste_profiles@.len() - 1
            } else {
                0
            }
            &&& b.taste_profiles@.len() > 0 ==> b.taste_selected < b.taste_profiles@.len()
        },
        a.screen == Screen::DisplayProfiles && a.display_mode is Browse ==> {
            &&& b.display_profiles@.len() == if a.display_profiles@.len() > 0 {
                a.display_profiles@.len() - 1
            } else {
                0
            }
            &&& b.display_profiles@.len() > 0 ==> b.display_selected < b.display_profiles@.len()
        },
{
}

} // verus!
