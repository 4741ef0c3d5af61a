//! The display profiles screen: browsing, editing a stored profile field by
//! field, and staging a new profile in a draft until it is named.
use vstd::prelude::*;

use crate::app::{
    cursor_back, cursor_on, field_on, is_down, is_up, key_is_down, key_is_up, selected_after_delete, App,
    DisplayScreenMode, Key, Screen, StoreOp, DISPLAY_LAST_FIELD,
};
use crate::profile::{DisplayProfile, DisplayProfileDraft, DRAFT_NAME_FIELD};
use crate::text::{display_default_name, flip_orientation, flipped_orientation, pop_char, push_char, suggested_name, without_last};

verus! {

pub open spec fn selected_display(a: App) -> DisplayProfile {
    a.display_profiles@[a.display_selected as int]
}

/// The write that stores a display profile's fields.
pub open spec fn display_update_op(p: DisplayProfile) -> StoreOp {
    StoreOp::UpdateDisplay {
        id: p.id,
        wallpaper_color: p.wallpaper_color,
        frame_style: p.frame_style,
        orientation: p.orientation,
        aspect_ratio: p.aspect_ratio,
    }
}

/// The selected display profile was replaced by `q`, and nothing else changed.
pub open spec fn selected_display_became(a: App, b: App, q: DisplayProfile) -> bool {
    &&& b == App { display_profiles: b.display_profiles, ..a }
    &&& b.display_profiles@ == a.display_profiles@.update(a.display_selected as int, q)
}

/// The display mode changed to `m`, and nothing else.
pub open spec fn display_mode_became(a: App, b: App, m: DisplayScreenMode) -> bool {
    b == App { display_mode: m, ..a }
}

/// The draft changed to `d`, and nothing else.
pub open spec fn display_draft_became(a: App, b: App, d: DisplayProfileDraft) -> bool {
    b == App { new_display_draft: d, ..a }
}

/// Deleting the selected display profile, if there is one.
pub open spec fn display_deleted(a: App, b: App, r: Option<StoreOp>) -> bool {
    let n = a.display_profiles@.len();
    if n > 0 {
        &&& r == Some(StoreOp::DeleteDisplay { id: selected_display(a).id })
        &&& b.display_profiles@ == a.display_profiles@.remove(a.display_selected as int)
        &&& b.display_selected == selected_after_delete(a.display_selected, (n - 1) as nat)
        &&& b == App { display_profiles: b.display_profiles, display_selected: b.display_selected, ..a }
    } else {
        r is None && b == a
    }
}

/// Browse: move over the list, open a profile, start a new one, delete one.
pub open spec fn display_browse_step(a: App, key: Key, b: App, r: Option<StoreOp>) -> bool {
    let n = a.display_profiles@.len();
    let sel = a.display_selected;
    if is_up(key) {
        r is None && b == App { display_selected: if n > 0 { cursor_back(sel) } else { sel }, ..a }
    } else if is_down(key) {
        r is None && b == App { display_selected: cursor_on(sel, n), ..a }
    } else if key == Key::Enter {
        r is None && b == if n > 0 {
            App { display_mode: DisplayScreenMode::Detail, display_detail_field: 0, ..a }
        } else {
            a
        }
    } else if key == Key::Char('a') {
        &&& r is None
        &&& b.new_display_draft.is_fresh()
        &&& b == App {
            new_display_draft: b.new_display_draft,
            display_mode: DisplayScreenMode::CreatingProfile,
            ..a
        }
    } else if key == Key::Char('d') || key == Key::Delete {
        display_deleted(a, b, r)
    } else if key == Key::Esc {
        r is None && b == App { screen: Screen::Main, ..a }
    } else {
        r is None && b == a
    }
}

/// Opening the text editor on the color (field 0) or the aspect ratio of the
/// selected profile.
pub open spec fn display_text_opened(a: App, b: App) -> bool {
    let p = selected_display(a);
    let v = if a.display_detail_field == 0 { p.wallpaper_color } else { p.aspect_ratio };
    display_mode_became(a, b, DisplayScreenMode::EditingText(v))
}

/// Toggling the orientation of the selected profile, written at once.
pub open spec fn display_orientation_toggled(a: App, b: App, r: Option<StoreOp>) -> bool {
    let p = selected_display(a);
    let q = b.display_profiles@[a.display_selected as int];
    &&& selected_display_became(a, b, q)
    &&& q == DisplayProfile { orientation: q.orientation, ..p }
    &&& q.orientation@ == flipped_orientation(p.orientation@)
    &&& r == Some(display_update_op(q))
}

/// Detail: move over the fields of the selected profile and open or toggle one.
pub open spec fn display_detail_step(a: App, key: Key, b: App, r: Option<StoreOp>) -> bool {
    let f = a.display_detail_field;
    if is_up(key) {
        r is None && b == App { display_detail_field: cursor_back(f), ..a }
    } else if is_down(key) {
        r is None && b == App { display_detail_field: field_on(f, DISPLAY_LAST_FIELD), ..a }
    } else if key == Key::Enter {
        if f == 0 || f == 3 {
            r is None && display_text_opened(a, b)
        } else if f == 2 {
            display_orientation_toggled(a, b, r)
        } else {
            r is None && b == a
        }
    } else if key == Key::Char('e') {
        r is None && if f == 0 || f == 3 {
            display_text_opened(a, b)
        } else {
            b == a
        }
    } else if key == Key::Char(' ') {
        if f == 2 {
            display_orientation_toggled(a, b, r)
        } else {
            r is None && b == a
        }
    } else if key == Key::Esc {
        r is None && display_mode_became(a, b, DisplayScreenMode::Browse)
    } else {
        r is None && b == a
    }
}

/// A text buffer taking a key: any character is appended and backspace takes
/// the last one off, with `holds` telling the new mode and its buffer; other
/// keys but Enter and Esc leave all as it was.
pub open spec fn display_text_typed(
    a: App,
    buf: String,
    key: Key,
    b: App,
    holds: spec_fn(DisplayScreenMode, Seq<char>) -> bool,
) -> bool {
    match key {
        Key::Char(c) => b == App { display_mode: b.display_mode, ..a } && holds(b.display_mode, buf@.push(c)),
        Key::Backspace => b == App { display_mode: b.display_mode, ..a } && holds(b.display_mode, without_last(buf@)),
        _ => b == a,
    }
}

pub open spec fn editing_text_holds(m: DisplayScreenMode, s: Seq<char>) -> bool {
    m matches DisplayScreenMode::EditingText(x) && x@ == s
}

pub open spec fn creating_text_holds(m: DisplayScreenMode, s: Seq<char>) -> bool {
    m matches DisplayScreenMode::CreatingEditText(x) && x@ == s
}

pub open spec fn creating_name_holds(m: DisplayScreenMode, s: Seq<char>) -> bool {
    m matches DisplayScreenMode::CreatingName(x) && x@ == s
}

/// Editing the color or the aspect ratio of the selected profile: Enter
/// writes the buffer into the field and stores the profile; Esc drops it.
pub open spec fn display_edit_text_step(a: App, buf: String, key: Key, b: App, r: Option<StoreOp>) -> bool {
    if key == Key::Enter {
        let p = selected_display(a);
        let q = if a.display_detail_field == 0 {
            DisplayProfile { wallpaper_color: buf, ..p }
        } else if a.display_detail_field == 3 {
            DisplayProfile { aspect_ratio: buf, ..p }
        } else {
            p
        };
        &&& r == Some(display_update_op(q))
        &&& b.display_profiles@ == a.display_profiles@.update(a.display_selected as int, q)
        &&& b == App { display_profiles: b.display_profiles, display_mode: DisplayScreenMode::Detail, ..a }
    } else if key == Key::Esc {
        r is None && display_mode_became(a, b, DisplayScreenMode::Detail)
    } else {
        r is None && display_text_typed(a, buf, key, b, |m, s| editing_text_holds(m, s))
    }
}

/// The draft with its orientation toggled.
pub open spec fn draft_orientation_toggled(a: App, b: App) -> bool {
    let d = a.new_display_draft;
    &&& display_draft_became(a, b, DisplayProfileDraft { orientation: b.new_display_draft.orientation, ..d })
    &&& b.new_display_draft.orientation@ == flipped_orientation(d.orientation@)
}

/// The name the naming step starts from: the staged name, or the suggested
/// one when none is staged.
pub open spec fn draft_start_name(d: DisplayProfileDraft) -> Seq<char> {
    if d.name@.len() == 0 {
        suggested_name(d.orientation@, d.aspect_ratio@)
    } else {
        d.name@
    }
}

/// Moving over the draft's fields, and opening or toggling one of them.
pub open spec fn display_creating_step(a: App, key: Key, b: App) -> bool {
    let d = a.new_display_draft;
    let f = d.current_field;
    if is_up(key) {
        display_draft_became(a, b, DisplayProfileDraft { current_field: cursor_back(f), ..d })
    } else if is_down(key) {
        display_draft_became(a, b, DisplayProfileDraft { current_field: field_on(f, DRAFT_NAME_FIELD), ..d })
    } else if key == Key::Enter {
        if f == 0 {
            display_mode_became(a, b, DisplayScreenMode::CreatingEditText(d.wallpaper_color))
        } else if f == 2 {
            draft_orientation_toggled(a, b)
        } else if f == 3 {
            display_mode_became(a, b, DisplayScreenMode::CreatingEditText(d.aspect_ratio))
        } else if f == 4 {
            b == App { display_mode: b.display_mode, ..a } && creating_name_holds(b.display_mode, draft_start_name(d))
        } else {
            b == a
        }
    } else if key == Key::Char(' ') {
        if f == 2 {
            draft_orientation_toggled(a, b)
        } else {
            b == a
        }
    } else if key == Key::Esc {
        display_mode_became(a, b, DisplayScreenMode::Browse)
    } else {
        b == a
    }
}

/// Editing the color or the aspect ratio of the draft: Enter writes the
/// buffer into the draft only; Esc keeps the draft's value.
pub open spec fn display_creating_text_step(a: App, buf: String, key: Key, b: App) -> bool {
    if key == Key::Enter {
        let d = a.new_display_draft;
        let e = if d.current_field == 0 {
            DisplayProfileDraft { wallpaper_color: buf, ..d }
        } else if d.current_field == 3 {
            DisplayProfileDraft { aspect_ratio: buf, ..d }
        } else {
            d
        };
        b == App { new_display_draft: e, display_mode: DisplayScreenMode::CreatingProfile, ..a }
    } else if key == Key::Esc {
        display_mode_became(a, b, DisplayScreenMode::CreatingProfile)
    } else {
        display_text_typed(a, buf, key, b, |m, s| creating_text_holds(m, s))
    }
}

/// Typing the draft's name. Enter with a name asks storage to insert the
/// profile, and the step completes once its identity comes back; Esc keeps
/// the typed name in the draft and returns to its name field.
pub open spec fn display_name_step(a: App, buf: String, key: Key, b: App, r: Option<StoreOp>) -> bool {
    let d = a.new_display_draft;
    if key == Key::Enter {
        b == a && r == if buf@.len() > 0 {
            Some(
                StoreOp::InsertDisplay {
                    name: buf,
                    wallpaper_color: d.wallpaper_color,
                    frame_style: d.frame_style,
                    orientation: d.orientation,
                    aspect_ratio: d.aspect_ratio,
                },
            )
        } else {
            None
        }
    } else if key == Key::Esc {
        r is None && b == App {
            new_display_draft: DisplayProfileDraft { name: buf, current_field: DRAFT_NAME_FIELD, ..d },
            display_mode: DisplayScreenMode::CreatingProfile,
            ..a
        }
    } else {
        r is None && display_text_typed(a, buf, key, b, |m, s| creating_name_holds(m, s))
    }
}

/// One key on the display profiles screen.
pub open spec fn display_step(a: App, key: Key, b: App, r: Option<StoreOp>) -> bool {
    match a.display_mode {
        DisplayScreenMode::Browse => display_browse_step(a, key, b, r),
        DisplayScreenMode::Detail => display_detail_step(a, key, b, r),
        DisplayScreenMode::EditingText(buf) => display_edit_text_step(a, buf, key, b, r),
        DisplayScreenMode::CreatingProfile => r is None && display_creating_step(a, key, b),
        DisplayScreenMode::CreatingEditText(buf) => r is None && display_creating_text_step(a, buf, key, b),
        DisplayScreenMode::CreatingName(buf) => display_name_step(a, buf, key, b, r),
    }
}

/// The new display profile, built from the draft and the name typed, after
/// storage gave it identity `id`.
pub open spec fn display_committed(a: App, id: i64, b: App) -> bool {
    match a.display_mode {
        DisplayScreenMode::CreatingName(buf) => {
            let d = a.new_display_draft;
            let p = DisplayProfile {
                id,
                name: buf,
                wallpaper_color: d.wallpaper_color,
                frame_style: d.frame_style,
                orientation: d.orientation,
                aspect_ratio: d.aspect_ratio,
            };
            &&& b.display_profiles@ == a.display_profiles@.push(p)
            &&& b.display_selected == a.display_profiles@.len()
            &&& b == App {
                display_profiles: b.display_profiles,
                display_selected: b.display_selected,
                display_mode: DisplayScreenMode::Browse,
                ..a
            }
        },
        _ => false,
    }
}

/// A key that types into a free-text buffer: the edited buffer, or `None`
/// when the key does not type.
pub fn typed_text(buf: &String, key: Key) -> (r: Option<String>)
    ensures
        match key {
            Key::Char(c) => r matches Some(x) && x@ == buf@.push(c),
            Key::Backspace => r matches Some(x) && x@ == without_last(buf@),
            _ => r is None,
        },
{
    match key {
        Key::Char(c) => {
            let mut nb = buf.clone();
            push_char(&mut nb, c);
            Some(nb)
        },
        Key::Backspace => {
            let mut nb = buf.clone();
            pop_char(&mut nb);
            Some(nb)
        },
        _ => None,
    }
}

impl App {
    /// Deletes the selected display profile; the selection stays valid.
    fn delete_selected_display(&mut self) -> (r: Option<StoreOp>)
        requires
            old(self).wf(),
            old(self).screen == Screen::DisplayProfiles,
            old(self).display_mode is Browse,
        ensures
            final(self).wf(),
            display_deleted(*old(self), *final(self), r),
            final(self).display_profiles@.len() > 0 ==> final(self).display_selected
                < final(self).display_profiles@.len(),
    {
        if self.display_profiles.len() == 0 {
            return None;
        }
        let id = self.display_profiles[self.display_selected].id;
        self.display_profiles.remove(self.display_selected);
        if self.display_selected > 0 && self.display_selected >= self.display_profiles.len() {
            self.display_selected = self.display_profiles.len() - 1;
        }
        Some(StoreOp::DeleteDisplay { id })
    }

    fn display_browse(&mut self, key: Key) -> (r: Option<StoreOp>)
        requires
            old(self).wf(),
            old(self).screen == Screen::DisplayProfiles,
            old(self).display_mode is Browse,
        ensures
            final(self).wf(),
            display_browse_step(*old(self), key, *final(self), r),
    {
        if key_is_up(key) {
            if self.display_profiles.len() > 0 && self.display_selected > 0 {
                self.display_selected = self.display_selected - 1;
            }
        } else if key_is_down(key) {
            if self.display_profiles.len() > 0 && self.display_selected < self.display_profiles.len() - 1 {
                self.display_selected = self.display_selected + 1;
            }
        } else if key == Key::Enter {
            if self.display_profiles.len() > 0 {
                self.display_mode = DisplayScreenMode::Detail;
                self.display_detail_field = 0;
            }
        } else if key == Key::Char('a') {
            self.new_display_draft = DisplayProfileDraft::default();
            self.display_mode = DisplayScreenMode::CreatingProfile;
        } else if key == Key::Char('d') || key == Key::Delete {
            return self.delete_selected_display();
        } else if key == Key::Esc {
            self.screen = Screen::Main;
        }
        None
    }

    /// Opens the text editor on the selected profile's color or aspect ratio.
    fn open_display_text(&mut self)
        requires
            old(self).wf(),
            old(self).display_mode is Detail,
        ensures
            final(self).wf(),
            display_text_opened(*old(self), *final(self)),
    {
        let p = &self.display_profiles[self.display_selected];
        let v = if self.display_detail_field == 0 {
            p.wallpaper_color.clone()
        } else {
            p.aspect_ratio.clone()
        };
        self.display_mode = DisplayScreenMode::EditingText(v);
    }

    fn toggle_orientation(&mut self) -> (r: Option<StoreOp>)
        requires
            old(self).wf(),
            old(self).display_mode_on_profile(),
        ensures
            final(self).wf(),
            display_orientation_toggled(*old(self), *final(self), r),
    {
        let idx = self.display_selected;
        let o = flip_orientation(&self.display_profiles[idx].orientation);
        self.display_profiles[idx].orientation = o;
        let p = &self.display_profiles[idx];
        Some(
            StoreOp::UpdateDisplay {
                id: p.id,
                wallpaper_color: p.wallpaper_color.clone(),
                frame_style: p.frame_style.clone(),
                orientation: p.orientation.clone(),
                aspect_ratio: p.aspect_ratio.clone(),
            },
        )
    }

    fn display_detail(&mut self, key: Key) -> (r: Option<StoreOp>)
        requires
            old(self).wf(),
            old(self).display_mode is Detail,
        ensures
            final(self).wf(),
            display_detail_step(*old(self), key, *final(self), r),
    {
        let f = self.display_detail_field;
        if key_is_up(key) {
            if f > 0 {
                self.display_detail_field = f - 1;
            }
        } else if key_is_down(key) {
            if f < DISPLAY_LAST_FIELD {
                self.display_detail_field = f + 1;
            }
        } else if key == Key::Enter {
            if f == 0 || f == 3 {
                self.open_display_text();
            } else if f == 2 {
                return self.toggle_orientation();
            }
        } else if key == Key::Char('e') {
            if f == 0 || f == 3 {
                self.open_display_text();
            }
        } else if key == Key::Char(' ') {
            if f == 2 {
                return self.toggle_orientation();
            }
        } else if key == Key::Esc {
            self.display_mode = DisplayScreenMode::Browse;
        }
        None
    }

    fn display_edit_text(&mut self, key: Key, buf: String) -> (r: Option<StoreOp>)
        requires
            old(self).wf(),
            old(self).display_mode == DisplayScreenMode::EditingText(buf),
        ensures
            final(self).wf(),
            display_edit_text_step(*old(self), buf, key, *final(self), r),
    {
        if key == Key::Enter {
            let idx = self.display_selected;
            if self.display_detail_field == 0 {
                self.display_profiles[idx].wallpaper_color = buf;
            } else if self.display_detail_field == 3 {
                self.display_profiles[idx].aspect_ratio = buf;
            } else {
                assert(self.display_profiles@.update(idx as int, self.display_profiles@[idx as int])
                    =~= self.display_profiles@);
            }
            let p = &self.display_profiles[idx];
            let op = StoreOp::UpdateDisplay {
                id: p.id,
                wallpaper_color: p.wallpaper_color.clone(),
                frame_style: p.frame_style.clone(),
                orientation: p.orientation.clone(),
                aspect_ratio: p.aspect_ratio.clone(),
            };
            self.display_mode = DisplayScreenMode::Detail;
            Some(op)
        } else if key == Key::Esc {
            self.display_mode = DisplayScreenMode::Detail;
            None
        } else {
            match typed_text(&buf, key) {
                Some(nb) => {
                    self.display_mode = DisplayScreenMode::EditingText(nb);
                },
                None => {},
            }
            None
        }
    }

    fn display_creating(&mut self, key: Key)
        requires
            old(self).wf(),
            old(self).display_mode is CreatingProfile,
        ensures
            final(self).wf(),
            display_creating_step(*old(self), key, *final(self)),
    {
        let f = self.new_display_draft.current_field;
        if key_is_up(key) {
            if f > 0 {
                self.new_display_draft.current_field = f - 1;
            }
        } else if key_is_down(key) {
            if f < DRAFT_NAME_FIELD {
                self.new_display_draft.current_field = f + 1;
            }
        } else if key == Key::Enter {
            if f == 0 {
                self.display_mode = DisplayScreenMode::CreatingEditText(self.new_display_draft.wallpaper_color.clone());
            } else if f == 2 {
                self.new_display_draft.orientation = flip_orientation(&self.new_display_draft.orientation);
            } else if f == 3 {
                self.display_mode = DisplayScreenMode::CreatingEditText(self.new_display_draft.aspect_ratio.clone());
            } else if f == 4 {
                let start = if self.new_display_draft.name.as_str().is_empty() {
                    display_default_name(&self.new_display_draft.orientation, &self.new_display_draft.aspect_ratio)
                } else {
                    self.new_display_draft.name.clone()
                };
                self.display_mode = DisplayScreenMode::CreatingName(start);
            }
        } else if key == Key::Char(' ') {
            if f == 2 {
                self.new_display_draft.orientation = flip_orientation(&self.new_display_draft.orientation);
            }
        } else if key == Key::Esc {
            self.display_mode = DisplayScreenMode::Browse;
        }
    }

    fn display_creating_text(&mut self, key: Key, buf: String)
        requires
            old(self).wf(),
            old(self).display_mode == DisplayScreenMode::CreatingEditText(buf),
        ensures
            final(self).wf(),
            display_creating_text_step(*old(self), buf, key, *final(self)),
    {
        if key == Key::Enter {
            if self.new_display_draft.current_field == 0 {
                self.new_display_draft.wallpaper_color = buf;
            } else if self.new_display_draft.current_field == 3 {
                self.new_display_draft.aspect_ratio = buf;
            }
            self.display_mode = DisplayScreenMode::CreatingProfile;
        } else if key == Key::Esc {
            self.display_mode = DisplayScreenMode::CreatingProfile;
        } else {
            match typed_text(&buf, key) {
                Some(nb) => {
                    self.display_mode = DisplayScreenMode::CreatingEditText(nb);
                },
                None => {},
            }
        }
    }

    fn display_name(&mut self, key: Key, buf: String) -> (r: Option<StoreOp>)
        requires
            old(self).wf(),
            old(self).display_mode == DisplayScreenMode::CreatingName(buf),
        ensures
            final(self).wf(),
            display_name_step(*old(self), buf, key, *final(self), r),
    {
        if key == Key::Enter {
            if buf.as_str().is_empty() {
                None
            } else {
                let d = &self.new_display_draft;
                Some(
                    StoreOp::InsertDisplay {
                        name: buf,
                        wallpaper_color: d.wallpaper_color.clone(),
                        frame_style: d.frame_style.clone(),
                        orientation: d.orientation.clone(),
                        aspect_ratio: d.aspect_ratio.clone(),
                    },
                )
            }
        } else if key == Key::Esc {
            self.new_display_draft.name = buf;
            self.new_display_draft.current_field = DRAFT_NAME_FIELD;
            self.display_mode = DisplayScreenMode::CreatingProfile;
            None
        } else {
            match typed_text(&buf, key) {
                Some(nb) => {
                    self.display_mode = DisplayScreenMode::CreatingName(nb);
                },
                None => {},
            }
            None
        }
    }

    pub(crate) fn handle_display(&mut self, key: Key) -> (r: Option<StoreOp>)
        requires
            old(self).wf(),
            old(self).screen == Screen::DisplayProfiles,
        ensures
            final(self).wf(),
            display_step(*old(self), key, *final(self), r),
    {
        match &self.display_mode {
            DisplayScreenMode::Browse => self.display_browse(key),
            DisplayScreenMode::Detail => self.display_detail(key),
            DisplayScreenMode::EditingText(buf) => {
                let buf = buf.clone();
                self.display_edit_text(key, buf)
            },
            DisplayScreenMode::CreatingProfile => {
                self.display_creating(key);
                None
            },
            DisplayScreenMode::CreatingEditText(buf) => {
                let buf = buf.clone();
                self.display_creating_text(key, buf);
                None
            },
            DisplayScreenMode::CreatingName(buf) => {
                let buf = buf.clone();
                self.display_name(key, buf)
            },
        }
    }

    /// Completes the naming step once storage has inserted the profile that
    /// `StoreOp::InsertDisplay` asked for and assigned it `id`: the profile
    /// joins the list, selected.
    pub fn display_inserted(&mut self, id: i64)
        requires
            old(self).wf(),
            old(self).display_mode matches DisplayScreenMode::CreatingName(buf) && buf@.len() > 0,
        ensures
            final(self).wf(),
            display_committed(*old(self), id, *final(self)),
    {
        let name = match &self.display_mode {
            DisplayScreenMode::CreatingName(buf) => buf.clone(),
            _ => String::new(),
        };
        let d = &self.new_display_draft;
        let p = DisplayProfile {
            id,
            name,
            wallpaper_color: d.wallpaper_color.clone(),
            frame_style: d.frame_style.clone(),
            orientation: d.orientation.clone(),
            aspect_ratio: d.aspect_ratio.clone(),
        };
        self.display_profiles.push(p);
        self.display_selected = self.display_profiles.len() - 1;
        self.display_mode = DisplayScreenMode::Browse;
    }
}

/// Toggling the orientation of a profile twice, from its detail view, gives
/// back its orientation, horizontal or vertical, and changes nothing else.
pub proof fn lemma_orientation_toggle_twice(a: App, b: App, c: App, r1: Option<StoreOp>, r2: Option<StoreOp>)
    requires
        a.wf(),
        a.screen == Screen::DisplayProfiles,
        a.display_mode is Detail,
        a.display_detail_field == 2,
        selected_display(a).orientation@ == crate::text::horizontal() || selected_display(a).orientation@
            == crate::text::vertical(),
        (crate::app::app_step(a, Key::Char(' '), b, r1)),
        (crate::app::app_step(b, Key::Char(' '), c, r2)),
    ensures
        (c == App { display_profiles: c.display_profiles, ..a }),
        c.display_profiles@.len() == a.display_profiles@.len(),
        forall|j: int|
            0 <= j < a.display_profiles@.len() && j != a.display_selected ==> c.display_profiles@[j]
                == a.display_profiles@[j],
        (c.display_profiles@[a.display_selected as int] == DisplayProfile {
            orientation: c.display_profiles@[a.display_selected as int].orientation,
            ..selected_display(a)
        }),
        c.display_profiles@[a.display_selected as int].orientation@ == selected_display(a).orientation@,
{
    crate::text::lemma_orientation_flip_twice(selected_display(a).orientation@);
}

/// Leaving the naming step with Esc keeps what was typed: opening it again
/// from the name field shows the same text, when some text was typed.
pub proof fn lemma_display_name_survives_esc(
    a: App,
    buf: String,
    b: App,
    c: App,
    r1: Option<StoreOp>,
    r2: Option<StoreOp>,
)
    requires
        a.wf(),
        a.screen == Screen::DisplayProfiles,
        a.display_mode == DisplayScreenMode::CreatingName(buf),
        buf@.len() > 0,
        crate::app::app_step(a, Key::Esc, b, r1),
        crate::app::app_step(b, Key::Enter, c, r2),
    ensures
        b.display_mode is CreatingProfile,
        c.display_mode matches DisplayScreenMode::CreatingName(x) && x@ == buf@,
{
}

/// Toggling the draft's orientation twice gives back its orientation and
/// changes nothing else.
pub proof fn lemma_draft_orientation_toggle_twice(a: App, b: App, c: App, r1: Option<StoreOp>, r2: Option<StoreOp>)
    requires
        a.wf(),
        a.screen == Screen::DisplayProfiles,
        a.display_mode is CreatingProfile,
        a.new_display_draft.current_field == 2,
        (crate::app::app_step(a, Key::Char(' '), b, r1)),
        (crate::app::app_step(b, Key::Char(' '), c, r2)),
    ensures
        (c == App { new_display_draft: c.new_display_draft, ..a }),
        (c.new_display_draft == DisplayProfileDraft {
            orientation: c.new_display_draft.orientation,
            ..a.new_display_draft
        }),
        c.new_display_draft.orientation@ == a.new_display_draft.orientation@,
{
    crate::text::lemma_orientation_flip_twice(a.new_display_draft.orientation@);
}

} // verus!
