//! The taste profiles screen: browsing, editing a stored profile field by
//! field, and staging a new profile in a draft until it is named.
use vstd::prelude::*;

use crate::app::{
    cursor_back, cursor_on, field_on, is_down, is_up, key_is_down, key_is_up, selected_after_delete, App, Key, Screen,
    StoreOp, TasteScreenMode, TASTE_LAST_FIELD,
};
use crate::profile::{
    contains_keyword, has_keyword, toggle_keyword_in, toggled_keywords,
    TasteProfile, TasteProfileDraft, DRAFT_NAME_FIELD, MAX_KEYWORDS,
};
use crate::text::{
    committed_year, parse_year, pop_char, push_char, without_last, year_accepts, year_accepts_char, year_buffer,
    year_text,
};

verus! {

pub open spec fn selected_taste(a: App) -> TasteProfile {
    a.taste_profiles@[a.taste_selected as int]
}

/// The write that stores a taste profile's dates and public-domain flag.
pub open spec fn taste_update_op(p: TasteProfile) -> StoreOp {
    StoreOp::UpdateTaste {
        id: p.id,
        date_start: p.date_start,
        date_end: p.date_end,
        is_public_domain: p.is_public_domain,
    }
}

/// The selected taste profile was replaced by `q`, and nothing else changed.
pub open spec fn selected_taste_became(a: App, b: App, q: TasteProfile) -> bool {
    &&& b == App { taste_profiles: b.taste_profiles, ..a }
    &&& b.taste_profiles@ == a.taste_profiles@.update(a.taste_selected as int, q)
}

/// The selected taste profile's keyword set became `ks`, and nothing else changed.
pub open spec fn taste_keywords_became(a: App, b: App, ks: Seq<String>) -> bool {
    let q = b.taste_profiles@[a.taste_selected as int];
    &&& selected_taste_became(a, b, q)
    &&& q == TasteProfile { keywords: q.keywords, ..selected_taste(a) }
    &&& q.keywords@ == ks
}

/// The taste mode changed to `m`, and nothing else.
pub open spec fn taste_mode_became(a: App, b: App, m: TasteScreenMode) -> bool {
    b == App { taste_mode: m, ..a }
}

/// The draft changed to `d`, and nothing else.
pub open spec fn taste_draft_became(a: App, b: App, d: TasteProfileDraft) -> bool {
    b == App { new_taste_draft: d, ..a }
}

/// Browse: move over the list, open a profile, start a new one, delete one.
pub open spec fn taste_browse_step(a: App, key: Key, b: App, r: Option<StoreOp>) -> bool {
    let n = a.taste_profiles@.len();
    let sel = a.taste_selected;
    if is_up(key) {
        r is None && b == App { taste_selected: if n > 0 { cursor_back(sel) } else { sel }, ..a }
    } else if is_down(key) {
        r is None && b == App { taste_selected: cursor_on(sel, n), ..a }
    } else if key == Key::Enter {
        r is None && b == if n > 0 {
            App { taste_mode: TasteScreenMode::Detail, taste_detail_field: 0, ..a }
        } else {
            a
        }
    } else if key == Key::Char('a') {
        &&& r is None
        &&& b.new_taste_draft.is_fresh()
        &&& b == App { new_taste_draft: b.new_taste_draft, taste_mode: TasteScreenMode::CreatingProfile, ..a }
    } else if key == Key::Char('d') || key == Key::Delete {
        taste_deleted(a, b, r)
    } else if key == Key::Esc {
        r is None && b == App { screen: Screen::Main, ..a }
    } else {
        r is None && b == a
    }
}

/// Deleting the selected taste profile, if there is one.
pub open spec fn taste_deleted(a: App, b: App, r: Option<StoreOp>) -> bool {
    let n = a.taste_profiles@.len();
    if n > 0 {
        &&& r == Some(StoreOp::DeleteTaste { id: selected_taste(a).id })
        &&& b.taste_profiles@ == a.taste_profiles@.remove(a.taste_selected as int)
        &&& b.taste_selected == selected_after_delete(a.taste_selected, (n - 1) as nat)
        &&& b == App { taste_profiles: b.taste_profiles, taste_selected: b.taste_selected, ..a }
    } else {
        r is None && b == a
    }
}

/// Opening the year editor on a field of the selected profile.
pub open spec fn taste_date_opened(a: App, b: App) -> bool {
    let p = selected_taste(a);
    let v = if a.taste_detail_field == 0 { p.date_start } else { p.date_end };
    &&& b == App { taste_mode: b.taste_mode, ..a }
    &&& b.taste_mode matches TasteScreenMode::EditingDate(buf) && buf@ == year_text(v)
}

/// Toggling the public-domain flag of the selected profile, written at once.
pub open spec fn taste_public_domain_toggled(a: App, b: App, r: Option<StoreOp>) -> bool {
    let p = selected_taste(a);
    let q = TasteProfile { is_public_domain: !p.is_public_domain, ..p };
    selected_taste_became(a, b, q) && r == Some(taste_update_op(q))
}

/// Detail: move over the fields of the selected profile and open or toggle one.
pub open spec fn taste_detail_step(a: App, key: Key, b: App, r: Option<StoreOp>) -> bool {
    let f = a.taste_detail_field;
    if is_up(key) {
        r is None && b == App { taste_detail_field: cursor_back(f), ..a }
    } else if is_down(key) {
        r is None && b == App { taste_detail_field: field_on(f, TASTE_LAST_FIELD), ..a }
    } else if key == Key::Enter {
        if f == 0 || f == 1 {
            r is None && taste_date_opened(a, b)
        } else if f == 2 {
            taste_public_domain_toggled(a, b, r)
        } else if f == 3 {
            r is None && b == App { taste_mode: TasteScreenMode::SelectingKeywords, keyword_cursor: 0, ..a }
        } else {
            r is None && b == a
        }
    } else if key == Key::Char('e') {
        r is None && if f == 0 || f == 1 {
            taste_date_opened(a, b)
        } else {
            b == a
        }
    } else if key == Key::Char(' ') {
        if f == 2 {
            taste_public_domain_toggled(a, b, r)
        } else {
            r is None && b == a
        }
    } else if key == Key::Esc {
        r is None && taste_mode_became(a, b, TasteScreenMode::Browse)
    } else {
        r is None && b == a
    }
}

/// A year buffer taking a key: digits, a leading `-`, and backspace edit it;
/// anything else but Enter and Esc leaves all as it was.
pub open spec fn year_typed(a: App, buf: String, key: Key, b: App, editing: bool) -> bool {
    let nb_ok = |nb: Seq<char>|
        b == App { taste_mode: b.taste_mode, ..a } && if editing {
            b.taste_mode matches TasteScreenMode::EditingDate(x) && x@ == nb
        } else {
            b.taste_mode matches TasteScreenMode::CreatingEditDate(x) && x@ == nb
        };
    match key {
        Key::Char(c) => if year_accepts(buf@, c) {
            nb_ok(buf@.push(c))
        } else {
            b == a
        },
        Key::Backspace => nb_ok(without_last(buf@)),
        _ => b == a,
    }
}

/// Editing a year of the selected profile: Enter writes what the buffer
/// reads, or unset, into the field and stores the profile; Esc drops it.
pub open spec fn taste_edit_date_step(a: App, buf: String, key: Key, b: App, r: Option<StoreOp>) -> bool {
    if key == Key::Enter {
        let p = selected_taste(a);
        let v = committed_year(buf@);
        let q = if a.taste_detail_field == 0 {
            TasteProfile { date_start: v, ..p }
        } else if a.taste_detail_field == 1 {
            TasteProfile { date_end: v, ..p }
        } else {
            p
        };
        &&& r == Some(taste_update_op(q))
        &&& b.taste_profiles@ == a.taste_profiles@.update(a.taste_selected as int, q)
        &&& b == App { taste_profiles: b.taste_profiles, taste_mode: TasteScreenMode::Detail, ..a }
    } else if key == Key::Esc {
        r is None && taste_mode_became(a, b, TasteScreenMode::Detail)
    } else {
        r is None && year_typed(a, buf, key, b, true)
    }
}

/// Toggling the catalog keyword under the cursor in the selected profile,
/// subject to the cap, with the association written at once.
pub open spec fn taste_keyword_toggled(a: App, b: App, r: Option<StoreOp>) -> bool {
    if a.available_keywords@.len() == 0 {
        r is None && b == a
    } else {
        let entry = a.available_keywords@[a.keyword_cursor as int];
        let p = selected_taste(a);
        &&& taste_keywords_became(a, b, toggled_keywords(p.keywords@, entry.1))
        &&& r == if has_keyword(p.keywords@, entry.1@) {
            Some(StoreOp::RemoveTasteKeyword { profile_id: p.id, keyword_id: entry.0 })
        } else if p.keywords@.len() < MAX_KEYWORDS {
            Some(StoreOp::AddTasteKeyword { profile_id: p.id, keyword_id: entry.0 })
        } else {
            None
        }
    }
}

/// Moving the keyword cursor, or `None` for a key that does not move it.
pub open spec fn keyword_cursor_moved(a: App, key: Key) -> Option<usize> {
    if is_up(key) {
        Some(cursor_back(a.keyword_cursor))
    } else if is_down(key) {
        Some(cursor_on(a.keyword_cursor, a.available_keywords@.len()))
    } else {
        None
    }
}

/// Choosing keywords of the selected profile.
pub open spec fn taste_keywords_step(a: App, key: Key, b: App, r: Option<StoreOp>) -> bool {
    match keyword_cursor_moved(a, key) {
        Some(c) => r is None && b == App { keyword_cursor: c, ..a },
        None => if key == Key::Char(' ') || key == Key::Enter {
            taste_keyword_toggled(a, b, r)
        } else if key == Key::Esc {
            r is None && taste_mode_became(a, b, TasteScreenMode::Detail)
        } else {
            r is None && b == a
        },
    }
}

/// Moving over the draft's fields, and opening or toggling one of them.
pub open spec fn taste_creating_step(a: App, key: Key, b: App) -> bool {
    let d = a.new_taste_draft;
    let f = d.current_field;
    if is_up(key) {
        taste_draft_became(a, b, TasteProfileDraft { current_field: cursor_back(f), ..d })
    } else if is_down(key) {
        taste_draft_became(a, b, TasteProfileDraft { current_field: field_on(f, DRAFT_NAME_FIELD), ..d })
    } else if key == Key::Enter {
        if f == 0 || f == 1 {
            let v = if f == 0 { d.date_start } else { d.date_end };
            &&& b == App { taste_mode: b.taste_mode, ..a }
            &&& b.taste_mode matches TasteScreenMode::CreatingEditDate(buf) && buf@ == year_text(v)
        } else if f == 2 {
            taste_draft_became(a, b, TasteProfileDraft { is_public_domain: !d.is_public_domain, ..d })
        } else if f == 3 {
            b == App { taste_mode: TasteScreenMode::CreatingSelectKeywords, keyword_cursor: 0, ..a }
        } else {
            &&& b == App { taste_mode: b.taste_mode, ..a }
            &&& b.taste_mode matches TasteScreenMode::CreatingName(buf) && buf@ == d.name@
        }
    } else if key == Key::Char(' ') {
        if f == 2 {
            taste_draft_became(a, b, TasteProfileDraft { is_public_domain: !d.is_public_domain, ..d })
        } else {
            b == a
        }
    } else if key == Key::Esc {
        taste_mode_became(a, b, TasteScreenMode::Browse)
    } else {
        b == a
    }
}

/// Editing a year of the draft: Enter writes what the buffer reads, or
/// unset, into the draft only; Esc keeps the draft's value.
pub open spec fn taste_creating_date_step(a: App, buf: String, key: Key, b: App) -> bool {
    if key == Key::Enter {
        let d = a.new_taste_draft;
        let v = committed_year(buf@);
        let e = if d.current_field == 0 {
            TasteProfileDraft { date_start: v, ..d }
        } else if d.current_field == 1 {
            TasteProfileDraft { date_end: v, ..d }
        } else {
            d
        };
        b == App { new_taste_draft: e, taste_mode: TasteScreenMode::CreatingProfile, ..a }
    } else if key == Key::Esc {
        taste_mode_became(a, b, TasteScreenMode::CreatingProfile)
    } else {
        year_typed(a, buf, key, b, false)
    }
}

/// Choosing keywords of the draft: toggles change the draft only.
pub open spec fn taste_creating_keywords_step(a: App, key: Key, b: App) -> bool {
    match keyword_cursor_moved(a, key) {
        Some(c) => b == App { keyword_cursor: c, ..a },
        None => if key == Key::Char(' ') || key == Key::Enter {
            if a.available_keywords@.len() == 0 {
                b == a
            } else {
                let d = a.new_taste_draft;
                let kw = a.available_keywords@[a.keyword_cursor as int].1;
                &&& taste_draft_became(a, b, TasteProfileDraft { keywords: b.new_taste_draft.keywords, ..d })
                &&& b.new_taste_draft.keywords@ == toggled_keywords(d.keywords@, kw)
            }
        } else if key == Key::Esc {
            taste_mode_became(a, b, TasteScreenMode::CreatingProfile)
        } else {
            b == a
        },
    }
}

/// Typing the draft's name. Enter with a name asks storage to insert the
/// profile, and the step completes once its identity comes back; Esc keeps
/// the typed name in the draft and returns to its name field.
pub open spec fn taste_name_step(a: App, buf: String, key: Key, b: App, r: Option<StoreOp>) -> bool {
    let d = a.new_taste_draft;
    match key {
        Key::Char(c) => {
            &&& r is None
            &&& b == App { taste_mode: b.taste_mode, ..a }
            &&& b.taste_mode matches TasteScreenMode::CreatingName(x) && x@ == buf@.push(c)
        },
        Key::Backspace => {
            &&& r is None
            &&& b == App { taste_mode: b.taste_mode, ..a }
            &&& b.taste_mode matches TasteScreenMode::CreatingName(x) && x@ == without_last(buf@)
        },
        Key::Enter => b == a && r == if buf@.len() > 0 {
            Some(
                StoreOp::InsertTaste {
                    name: buf,
                    date_start: d.date_start,
                    date_end: d.date_end,
                    is_public_domain: d.is_public_domain,
                },
            )
        } else {
            None
        },
        Key::Esc => r is None && b == App {
            new_taste_draft: TasteProfileDraft { name: buf, current_field: DRAFT_NAME_FIELD, ..d },
            taste_mode: TasteScreenMode::CreatingProfile,
            ..a
        },
        _ => r is None && b == a,
    }
}

/// One key on the taste profiles screen.
pub open spec fn taste_step(a: App, key: Key, b: App, r: Option<StoreOp>) -> bool {
    match a.taste_mode {
        TasteScreenMode::Browse => taste_browse_step(a, key, b, r),
        TasteScreenMode::Detail => taste_detail_step(a, key, b, r),
        TasteScreenMode::EditingDate(buf) => taste_edit_date_step(a, buf, key, b, r),
        TasteScreenMode::SelectingKeywords => taste_keywords_step(a, key, b, r),
        TasteScreenMode::CreatingProfile => r is None && taste_creating_step(a, key, b),
        TasteScreenMode::CreatingEditDate(buf) => r is None && taste_creating_date_step(a, buf, key, b),
        TasteScreenMode::CreatingSelectKeywords => r is None && taste_creating_keywords_step(a, key, b),
        TasteScreenMode::CreatingName(buf) => taste_name_step(a, buf, key, b, r),
    }
}

impl App {
    /// Deletes the selected taste profile; the selection stays valid.
    fn delete_selected_taste(&mut self) -> (r: Option<StoreOp>)
        requires
            old(self).wf(),
            old(self).screen == Screen::TasteProfiles,
            old(self).taste_mode is Browse,
        ensures
            final(self).wf(),
            taste_deleted(*old(self), *final(self), r),
            final(self).taste_profiles@.len() > 0 ==> final(self).taste_selected < final(self).taste_profiles@.len(),
    {
        if self.taste_profiles.len() == 0 {
            return None;
        }
        let id = self.taste_profiles[self.taste_selected].id;
        self.taste_profiles.remove(self.taste_selected);
        if self.taste_selected > 0 && self.taste_selected >= self.taste_profiles.len() {
            self.taste_selected = self.taste_profiles.len() - 1;
        }
        Some(StoreOp::DeleteTaste { id })
    }

    fn taste_browse(&mut self, key: Key) -> (r: Option<StoreOp>)
        requires
            old(self).wf(),
            old(self).screen == Screen::TasteProfiles,
            old(self).taste_mode is Browse,
        ensures
            final(self).wf(),
            taste_browse_step(*old(self), key, *final(self), r),
    {
        if key_is_up(key) {
            if self.taste_profiles.len() > 0 && self.taste_selected > 0 {
                self.taste_selected = self.taste_selected - 1;
            }
        } else if key_is_down(key) {
            if self.taste_profiles.len() > 0 && self.taste_selected < self.taste_profiles.len() - 1 {
                self.taste_selected = self.taste_selected + 1;
            }
        } else if key == Key::Enter {
            if self.taste_profiles.len() > 0 {
                self.taste_mode = TasteScreenMode::Detail;
                self.taste_detail_field = 0;
            }
        } else if key == Key::Char('a') {
            self.new_taste_draft = TasteProfileDraft::default();
            self.taste_mode = TasteScreenMode::CreatingProfile;
        } else if key == Key::Char('d') || key == Key::Delete {
            return self.delete_selected_taste();
        } else if key == Key::Esc {
            self.screen = Screen::Main;
        }
        None
    }

    /// Opens the year editor on the selected profile's date field.
    fn open_taste_date(&mut self)
        requires
            old(self).wf(),
            old(self).taste_mode is Detail,
        ensures
            final(self).wf(),
            taste_date_opened(*old(self), *final(self)),
    {
        let p = &self.taste_profiles[self.taste_selected];
        let v = if self.taste_detail_field == 0 {
            p.date_start
        } else {
            p.date_end
        };
        self.taste_mode = TasteScreenMode::EditingDate(year_buffer(v));
    }

    fn toggle_public_domain(&mut self) -> (r: Option<StoreOp>)
        requires
            old(self).wf(),
            old(self).taste_mode_on_profile(),
        ensures
            final(self).wf(),
            taste_public_domain_toggled(*old(self), *final(self), r),
    {
        let idx = self.taste_selected;
        self.taste_profiles[idx].is_public_domain = !self.taste_profiles[idx].is_public_domain;
        let p = &self.taste_profiles[idx];
        Some(
            StoreOp::UpdateTaste {
                id: p.id,
                date_start: p.date_start,
                date_end: p.date_end,
                is_public_domain: p.is_public_domain,
            },
        )
    }

    fn taste_detail(&mut self, key: Key) -> (r: Option<StoreOp>)
        requires
            old(self).wf(),
            old(self).taste_mode is Detail,
        ensures
            final(self).wf(),
            taste_detail_step(*old(self), key, *final(self), r),
    {
        let f = self.taste_detail_field;
        if key_is_up(key) {
            if f > 0 {
                self.taste_detail_field = f - 1;
            }
        } else if key_is_down(key) {
            if f < TASTE_LAST_FIELD {
                self.taste_detail_field = f + 1;
            }
        } else if key == Key::Enter {
            if f == 0 || f == 1 {
                self.open_taste_date();
            } else if f == 2 {
                return self.toggle_public_domain();
            } else if f == 3 {
                self.taste_mode = TasteScreenMode::SelectingKeywords;
                self.keyword_cursor = 0;
            }
        } else if key == Key::Char('e') {
            if f == 0 || f == 1 {
                self.open_taste_date();
            }
        } else if key == Key::Char(' ') {
            if f == 2 {
                return self.toggle_public_domain();
            }
        } else if key == Key::Esc {
            self.taste_mode = TasteScreenMode::Browse;
        }
        None
    }

    /// A key that types into a year buffer: the edited buffer, or `None` when
    /// the key leaves it as it is.
    fn typed_year(buf: &String, key: Key) -> (r: Option<String>)
        ensures
            match key {
                Key::Char(c) => if year_accepts(buf@, c) {
                    r matches Some(x) && x@ == buf@.push(c)
                } else {
                    r is None
                },
                Key::Backspace => r matches Some(x) && x@ == without_last(buf@),
                _ => r is None,
            },
    {
        match key {
            Key::Char(c) => {
                if year_accepts_char(buf, c) {
                    let mut nb = buf.clone();
                    push_char(&mut nb, c);
                    Some(nb)
                } else {
                    None
                }
            },
            Key::Backspace => {
                let mut nb = buf.clone();
                pop_char(&mut nb);
                Some(nb)
            },
            _ => None,
        }
    }

    fn taste_edit_date(&mut self, key: Key, buf: String) -> (r: Option<StoreOp>)
        requires
            old(self).wf(),
            old(self).taste_mode == TasteScreenMode::EditingDate(buf),
        ensures
            final(self).wf(),
            taste_edit_date_step(*old(self), buf, key, *final(self), r),
    {
        if key == Key::Enter {
            let value = parse_year(&buf);
            let idx = self.taste_selected;
            if self.taste_detail_field == 0 {
                self.taste_profiles[idx].date_start = value;
            } else if self.taste_detail_field == 1 {
                self.taste_profiles[idx].date_end = value;
            } else {
                assert(self.taste_profiles@.update(idx as int, self.taste_profiles@[idx as int])
                    =~= self.taste_profiles@);
            }
            let p = &self.taste_profiles[idx];
            let op = StoreOp::UpdateTaste {
                id: p.id,
                date_start: p.date_start,
                date_end: p.date_end,
                is_public_domain: p.is_public_domain,
            };
            self.taste_mode = TasteScreenMode::Detail;
            Some(op)
        } else if key == Key::Esc {
            self.taste_mode = TasteScreenMode::Detail;
            None
        } else {
            match Self::typed_year(&buf, key) {
                Some(nb) => {
                    self.taste_mode = TasteScreenMode::EditingDate(nb);
                },
                None => {},
            }
            None
        }
    }

    fn toggle_keyword(&mut self) -> (r: Option<StoreOp>)
        requires
            old(self).wf(),
            old(self).taste_mode_on_profile(),
        ensures
            final(self).wf(),
            taste_keyword_toggled(*old(self), *final(self), r),
    {
        if self.available_keywords.len() == 0 {
            return None;
        }
        let kw_id = self.available_keywords[self.keyword_cursor].0;
        let kw = self.available_keywords[self.keyword_cursor].1.clone();
        let idx = self.taste_selected;
        let profile_id = self.taste_profiles[idx].id;
        let op = if contains_keyword(&self.taste_profiles[idx].keywords, &kw) {
            Some(StoreOp::RemoveTasteKeyword { profile_id, keyword_id: kw_id })
        } else if self.taste_profiles[idx].keywords.len() < MAX_KEYWORDS {
            Some(StoreOp::AddTasteKeyword { profile_id, keyword_id: kw_id })
        } else {
            None
        };
        toggle_keyword_in(&mut self.taste_profiles[idx].keywords, &kw);
        op
    }

    /// Moves the keyword cursor for an up or down key; false for other keys.
    fn move_keyword_cursor(&mut self, key: Key) -> (moved: bool)
        requires
            old(self).wf(),
        ensures
            final(self).wf(),
            moved == keyword_cursor_moved(*old(self), key) is Some,
            match keyword_cursor_moved(*old(self), key) {
                Some(c) => *final(self) == App { keyword_cursor: c, ..*old(self) },
                None => *final(self) == *old(self),
            },
    {
        if key_is_up(key) {
            if self.keyword_cursor > 0 {
                self.keyword_cursor = self.keyword_cursor - 1;
            }
            true
        } else if key_is_down(key) {
            if self.available_keywords.len() > 0 && self.keyword_cursor < self.available_keywords.len() - 1 {
                self.keyword_cursor = self.keyword_cursor + 1;
            }
            true
        } else {
            false
        }
    }

    fn taste_select_keywords(&mut self, key: Key) -> (r: Option<StoreOp>)
        requires
            old(self).wf(),
            old(self).taste_mode is SelectingKeywords,
        ensures
            final(self).wf(),
            taste_keywords_step(*old(self), key, *final(self), r),
    {
        if self.move_keyword_cursor(key) {
            None
        } else if key == Key::Char(' ') || key == Key::Enter {
            self.toggle_keyword()
        } else {
            if key == Key::Esc {
                self.taste_mode = TasteScreenMode::Detail;
            }
            None
        }
    }
}

impl App {
    fn taste_creating(&mut self, key: Key)
        requires
            old(self).wf(),
            old(self).taste_mode is CreatingProfile,
        ensures
            final(self).wf(),
            taste_creating_step(*old(self), key, *final(self)),
    {
        let f = self.new_taste_draft.current_field;
        if key_is_up(key) {
            if f > 0 {
                self.new_taste_draft.current_field = f - 1;
            }
        } else if key_is_down(key) {
            if f < DRAFT_NAME_FIELD {
                self.new_taste_draft.current_field = f + 1;
            }
        } else if key == Key::Enter {
            if f == 0 {
                self.taste_mode = TasteScreenMode::CreatingEditDate(year_buffer(self.new_taste_draft.date_start));
            } else if f == 1 {
                self.taste_mode = TasteScreenMode::CreatingEditDate(year_buffer(self.new_taste_draft.date_end));
            } else if f == 2 {
                self.new_taste_draft.is_public_domain = !self.new_taste_draft.is_public_domain;
            } else if f == 3 {
                self.keyword_cursor = 0;
                self.taste_mode = TasteScreenMode::CreatingSelectKeywords;
            } else {
                let start = self.new_taste_draft.name.clone();
                self.taste_mode = TasteScreenMode::CreatingName(start);
            }
        } else if key == Key::Char(' ') {
            if f == 2 {
                self.new_taste_draft.is_public_domain = !self.new_taste_draft.is_public_domain;
            }
        } else if key == Key::Esc {
            self.taste_mode = TasteScreenMode::Browse;
        }
    }

    fn taste_creating_date(&mut self, key: Key, buf: String)
        requires
            old(self).wf(),
            old(self).taste_mode == TasteScreenMode::CreatingEditDate(buf),
        ensures
            final(self).wf(),
            taste_creating_date_step(*old(self), buf, key, *final(self)),
    {
        if key == Key::Enter {
            let value = parse_year(&buf);
            if self.new_taste_draft.current_field == 0 {
                self.new_taste_draft.date_start = value;
            } else if self.new_taste_draft.current_field == 1 {
                self.new_taste_draft.date_end = value;
            }
            self.taste_mode = TasteScreenMode::CreatingProfile;
        } else if key == Key::Esc {
            self.taste_mode = TasteScreenMode::CreatingProfile;
        } else {
            match Self::typed_year(&buf, key) {
                Some(nb) => {
                    self.taste_mode = TasteScreenMode::CreatingEditDate(nb);
                },
                None => {},
            }
        }
    }

    fn toggle_keyword_in_draft(&mut self)
        requires
            old(self).wf(),
        ensures
            final(self).wf(),
            ({
                let a = *old(self);
                let b = *final(self);
                if a.available_keywords@.len() == 0 {
                    b == a
                } else {
                    let d = a.new_taste_draft;
                    let kw = a.available_keywords@[a.keyword_cursor as int].1;
                    &&& taste_draft_became(a, b, TasteProfileDraft { keywords: b.new_taste_draft.keywords, ..d })
                    &&& b.new_taste_draft.keywords@ == toggled_keywords(d.keywords@, kw)
                }
            }),
    {
        if self.available_keywords.len() == 0 {
            return;
        }
        let kw = self.available_keywords[self.keyword_cursor].1.clone();
        toggle_keyword_in(&mut self.new_taste_draft.keywords, &kw);
    }

    fn taste_creating_keywords(&mut self, key: Key)
        requires
            old(self).wf(),
            old(self).taste_mode is CreatingSelectKeywords,
        ensures
            final(self).wf(),
            taste_creating_keywords_step(*old(self), key, *final(self)),
    {
        if self.move_keyword_cursor(key) {
        } else if key == Key::Char(' ') || key == Key::Enter {
            self.toggle_keyword_in_draft();
        } else if key == Key::Esc {
            self.taste_mode = TasteScreenMode::CreatingProfile;
        }
    }

    fn taste_name(&mut self, key: Key, buf: String) -> (r: Option<StoreOp>)
        requires
            old(self).wf(),
            old(self).taste_mode == TasteScreenMode::CreatingName(buf),
        ensures
            final(self).wf(),
            taste_name_step(*old(self), buf, key, *final(self), r),
    {
        match key {
            Key::Char(c) => {
                let mut nb = buf;
                push_char(&mut nb, c);
                self.taste_mode = TasteScreenMode::CreatingName(nb);
                None
            },
            Key::Backspace => {
                let mut nb = buf;
                pop_char(&mut nb);
                self.taste_mode = TasteScreenMode::CreatingName(nb);
                None
            },
            Key::Enter => {
                if buf.as_str().is_empty() {
                    None
                } else {
                    Some(
                        StoreOp::InsertTaste {
                            name: buf,
                            date_start: self.new_taste_draft.date_start,
                            date_end: self.new_taste_draft.date_end,
                            is_public_domain: self.new_taste_draft.is_public_domain,
                        },
                    )
                }
            },
            Key::Esc => {
                self.new_taste_draft.name = buf;
                self.new_taste_draft.current_field = DRAFT_NAME_FIELD;
                self.taste_mode = TasteScreenMode::CreatingProfile;
                None
            },
            _ => None,
        }
    }

    pub(crate) fn handle_taste(&mut self, key: Key) -> (r: Option<StoreOp>)
        requires
            old(self).wf(),
            old(self).screen == Screen::TasteProfiles,
        ensures
            final(self).wf(),
            taste_step(*old(self), key, *final(self), r),
    {
        match &self.taste_mode {
            TasteScreenMode::Browse => self.taste_browse(key),
            TasteScreenMode::Detail => self.taste_detail(key),
            TasteScreenMode::EditingDate(buf) => {
                let buf = buf.clone();
                self.taste_edit_date(key, buf)
            },
            TasteScreenMode::SelectingKeywords => self.taste_select_keywords(key),
            TasteScreenMode::CreatingProfile => {
                self.taste_creating(key);
                None
            },
            TasteScreenMode::CreatingEditDate(buf) => {
                let buf = buf.clone();
                self.taste_creating_date(key, buf);
                None
            },
            TasteScreenMode::CreatingSelectKeywords => {
                self.taste_creating_keywords(key);
                None
            },
            TasteScreenMode::CreatingName(buf) => {
                let buf = buf.clone();
                self.taste_name(key, buf)
            },
        }
    }
}

/// The identity of the first catalog entry that reads `kw`.
pub open spec fn catalog_id(catalog: Seq<(i64, String)>, kw: Seq<char>) -> Option<i64>
    decreases catalog.len(),
{
    if catalog.len() == 0 {
        None
    } else if catalog[0].1@ == kw {
        Some(catalog[0].0)
    } else {
        catalog_id(catalog.skip(1), kw)
    }
}

/// The associations that attach `keywords` to a new profile, in order: one for
/// each keyword that the catalog holds.
pub open spec fn keyword_links(profile_id: i64, keywords: Seq<String>, catalog: Seq<(i64, String)>) -> Seq<StoreOp>
    decreases keywords.len(),
{
    if keywords.len() == 0 {
        Seq::empty()
    } else {
        let rest = keyword_links(profile_id, keywords.drop_last(), catalog);
        match catalog_id(catalog, keywords.last()@) {
            Some(k) => rest.push(StoreOp::AddTasteKeyword { profile_id, keyword_id: k }),
            None => rest,
        }
    }
}

pub fn find_catalog_id(catalog: &Vec<(i64, String)>, kw: &String) -> (r: Option<i64>)
    ensures
        r == catalog_id(catalog@, kw@),
{
    let mut i: usize = 0;
    assert(catalog@.skip(0) =~= catalog@);
    while i < catalog.len()
        invariant
            i <= catalog@.len(),
            catalog_id(catalog@.skip(i as int), kw@) == catalog_id(catalog@, kw@),
        decreases catalog@.len() - i,
    {
        assert(catalog@.skip(i as int)[0] == catalog@[i as int]);
        if catalog[i].1.eq(kw) {
            return Some(catalog[i].0);
        }
        assert(catalog@.skip(i as int).skip(1) =~= catalog@.skip(i + 1));
        i = i + 1;
    }
    assert(catalog@.skip(i as int).len() == 0);
    None
}

/// The new taste profile, built from the draft and the name typed, after
/// storage gave it identity `id`.
pub open spec fn taste_committed(a: App, id: i64, b: App, ops: Seq<StoreOp>) -> bool {
    match a.taste_mode {
        TasteScreenMode::CreatingName(buf) => {
            let d = a.new_taste_draft;
            let p = TasteProfile {
                id,
                name: buf,
                date_start: d.date_start,
                date_end: d.date_end,
                is_public_domain: d.is_public_domain,
                keywords: d.keywords,
            };
            &&& b.taste_profiles@ == a.taste_profiles@.push(p)
            &&& b.taste_selected == a.taste_profiles@.len()
            &&& b.new_taste_draft == TasteProfileDraft { keywords: b.new_taste_draft.keywords, ..d }
            &&& b.new_taste_draft.keywords@.len() == 0
            &&& b == App {
                taste_profiles: b.taste_profiles,
                taste_selected: b.taste_selected,
                new_taste_draft: b.new_taste_draft,
                taste_mode: TasteScreenMode::Browse,
                ..a
            }
            &&& ops == keyword_links(id, d.keywords@, a.available_keywords@)
        },
        _ => false,
    }
}

impl App {
    /// Completes the naming step once storage has inserted the profile that
    /// `StoreOp::InsertTaste` asked for and assigned it `id`: the profile
    /// joins the list, selected, and the keyword associations to write come
    /// back.
    pub fn taste_inserted(&mut self, id: i64) -> (r: Vec<StoreOp>)
        requires
            old(self).wf(),
            old(self).taste_mode matches TasteScreenMode::CreatingName(buf) && buf@.len() > 0,
        ensures
            final(self).wf(),
            taste_committed(*old(self), id, *final(self), r@),
    {
        let ghost a = *self;
        let name = match &self.taste_mode {
            TasteScreenMode::CreatingName(buf) => buf.clone(),
            _ => String::new(),
        };
        let mut keywords: Vec<String> = Vec::new();
        std::mem::swap(&mut keywords, &mut self.new_taste_draft.keywords);
        let mut ops: Vec<StoreOp> = Vec::new();
        let mut i: usize = 0;
        while i < keywords.len()
            invariant
                i <= keywords@.len(),
                keywords@ == a.new_taste_draft.keywords@,
                self.available_keywords == a.available_keywords,
                ops@ == keyword_links(id, keywords@.subrange(0, i as int), a.available_keywords@),
            decreases keywords@.len() - i,
        {
            assert(keywords@.subrange(0, i + 1).drop_last() =~= keywords@.subrange(0, i as int));
            match find_catalog_id(&self.available_keywords, &keywords[i]) {
                Some(k) => {
                    ops.push(StoreOp::AddTasteKeyword { profile_id: id, keyword_id: k });
                },
                None => {},
            }
            i = i + 1;
        }
        assert(keywords@.subrange(0, keywords@.len() as int) =~= keywords@);
        self.taste_profiles.push(
            TasteProfile {
                id,
                name,
                date_start: self.new_taste_draft.date_start,
                date_end: self.new_taste_draft.date_end,
                is_public_domain: self.new_taste_draft.is_public_domain,
                keywords,
            },
        );
        self.taste_selected = self.taste_profiles.len() - 1;
        self.taste_mode = TasteScreenMode::Browse;
        ops
    }
}

/// Toggling the public-domain flag of a profile twice, from its detail view,
/// leaves everything as it was.
pub proof fn lemma_public_domain_toggle_twice(a: App, b: App, c: App, r1: Option<StoreOp>, r2: Option<StoreOp>)
    requires
        a.wf(),
        a.screen == Screen::TasteProfiles,
        a.taste_mode is Detail,
        a.taste_detail_field == 2,
        (crate::app::app_step(a, Key::Char(' '), b, r1)),
        (crate::app::app_step(b, Key::Char(' '), c, r2)),
    ensures
        c.taste_profiles@ == a.taste_profiles@,
        (c == App { taste_profiles: c.taste_profiles, ..a }),
{
    let i = a.taste_selected as int;
    assert(c.taste_profiles@ =~= a.taste_profiles@) by {
        assert(c.taste_profiles@[i] == a.taste_profiles@[i]);
    }
}

/// Toggling the draft's public-domain flag twice leaves the draft as it was.
pub proof fn lemma_draft_public_domain_toggle_twice(a: App, b: App, c: App, r1: Option<StoreOp>, r2: Option<StoreOp>)
    requires
        a.wf(),
        a.screen == Screen::TasteProfiles,
        a.taste_mode is CreatingProfile,
        a.new_taste_draft.current_field == 2,
        (crate::app::app_step(a, Key::Char(' '), b, r1)),
        (crate::app::app_step(b, Key::Char(' '), c, r2)),
    ensures
        c == a,
{
}

/// Leaving the naming step with Esc keeps what was typed: opening it again
/// from the name field shows the same text.
pub proof fn lemma_name_survives_esc(a: App, buf: String, b: App, c: App, r1: Option<StoreOp>, r2: Option<StoreOp>)
    requires
        a.wf(),
        a.screen == Screen::TasteProfiles,
        a.taste_mode == TasteScreenMode::CreatingName(buf),
        crate::app::app_step(a, Key::Esc, b, r1),
        crate::app::app_step(b, Key::Enter, c, r2),
    ensures
        b.taste_mode is CreatingProfile,
        c.taste_mode matches TasteScreenMode::CreatingName(x) && x@ == buf@,
{
}

} // verus!
