use artgg::app::{App, BuildStep, DisplayScreenMode, Key, Screen, StoreOp, TasteScreenMode};
use artgg::profile::{DisplayProfile, TasteProfile};
use artgg::taste::find_catalog_id;

fn s(t: &str) -> String {
    t.to_string()
}

/// Storage stand-in: hands out identities and records every write.
struct Store {
    next_id: i64,
    log: Vec<StoreOp>,
}

impl Store {
    fn new() -> Store {
        Store { next_id: 1, log: Vec::new() }
    }

    fn press(&mut self, app: &mut App, key: Key) {
        if let Some(op) = app.handle_key(key) {
            match op {
                StoreOp::InsertTaste { .. } => {
                    let id = self.next_id;
                    self.next_id += 1;
                    self.log.push(op);
                    let links = app.taste_inserted(id);
                    self.log.extend(links);
                }
                StoreOp::InsertDisplay { .. } => {
                    let id = self.next_id;
                    self.next_id += 1;
                    self.log.push(op);
                    app.display_inserted(id);
                }
                other => self.log.push(other),
            }
        }
    }

    fn type_text(&mut self, app: &mut App, text: &str) {
        for c in text.chars() {
            self.press(app, Key::Char(c));
        }
    }
}

fn taste(id: i64, name: &str) -> TasteProfile {
    TasteProfile {
        id,
        name: s(name),
        date_start: None,
        date_end: None,
        is_public_domain: false,
        keywords: vec![],
    }
}

fn display(id: i64, name: &str) -> DisplayProfile {
    DisplayProfile {
        id,
        name: s(name),
        wallpaper_color: s("#000000"),
        frame_style: s(""),
        orientation: s("horizontal"),
        aspect_ratio: s("16:9"),
    }
}

fn catalog() -> Vec<(i64, String)> {
    vec![(7, s("baroque")), (8, s("landscape")), (9, s("portrait"))]
}

fn app_with(t: Vec<TasteProfile>, d: Vec<DisplayProfile>, k: Vec<(i64, String)>) -> App {
    App::new(t, d, k, s("/tmp/gallery"))
}

#[test]
fn new_app_starts_on_main_menu() {
    let app = app_with(vec![], vec![], vec![]);
    assert_eq!(app.screen, Screen::Main);
    assert!(!app.should_quit);
    assert_eq!(app.main_selected, 0);
    assert_eq!(app.taste_mode, TasteScreenMode::Browse);
    assert_eq!(app.new_display_draft.orientation, "horizontal");
    assert_eq!(app.new_display_draft.wallpaper_color, "#FFFFFF");
    assert_eq!(app.new_display_draft.aspect_ratio, "16:9");
    assert!(app.new_taste_draft.is_public_domain);
    assert_eq!(app.build_output_dir, "/tmp/gallery");
}

#[test]
fn main_menu_quit_and_enter() {
    let mut st = Store::new();
    let mut app = app_with(vec![], vec![], vec![]);
    st.press(&mut app, Key::Down);
    st.press(&mut app, Key::Enter);
    assert_eq!(app.screen, Screen::DisplayProfiles);
    assert_eq!(app.display_mode, DisplayScreenMode::Browse);
    st.press(&mut app, Key::Esc);
    assert_eq!(app.screen, Screen::Main);
    st.press(&mut app, Key::Char('k'));
    assert_eq!(app.main_selected, 0);
    st.press(&mut app, Key::Up);
    assert_eq!(app.main_selected, 4);
    st.press(&mut app, Key::Up);
    assert_eq!(app.main_selected, 2);
    st.press(&mut app, Key::Char('j'));
    assert_eq!(app.main_selected, 4);
    st.press(&mut app, Key::Enter);
    assert!(app.should_quit);
    let mut app2 = app_with(vec![], vec![], vec![]);
    st.press(&mut app2, Key::Char('q'));
    assert!(app2.should_quit);
    assert!(st.log.is_empty());
}

#[test]
fn delete_last_profile_moves_selection_back() {
    let mut st = Store::new();
    let mut app = app_with(vec![taste(1, "a"), taste(2, "b"), taste(3, "c")], vec![], vec![]);
    st.press(&mut app, Key::Enter);
    assert_eq!(app.screen, Screen::TasteProfiles);
    st.press(&mut app, Key::Down);
    st.press(&mut app, Key::Down);
    st.press(&mut app, Key::Down);
    assert_eq!(app.taste_selected, 2);
    st.press(&mut app, Key::Char('d'));
    assert_eq!(st.log, vec![StoreOp::DeleteTaste { id: 3 }]);
    assert_eq!(app.taste_profiles.len(), 2);
    assert_eq!(app.taste_selected, 1);
    st.press(&mut app, Key::Up);
    st.press(&mut app, Key::Delete);
    assert_eq!(app.taste_profiles.len(), 1);
    assert_eq!(app.taste_profiles[0].id, 2);
    assert_eq!(app.taste_selected, 0);
    st.press(&mut app, Key::Delete);
    assert!(app.taste_profiles.is_empty());
    assert_eq!(app.taste_selected, 0);
    st.press(&mut app, Key::Delete);
    assert_eq!(st.log.len(), 3);
}

#[test]
fn delete_display_profile_keeps_selection_valid() {
    let mut st = Store::new();
    let mut app = app_with(vec![], vec![display(5, "x"), display(6, "y")], vec![]);
    st.press(&mut app, Key::Down);
    st.press(&mut app, Key::Enter);
    st.press(&mut app, Key::Down);
    assert_eq!(app.display_selected, 1);
    st.press(&mut app, Key::Char('d'));
    assert_eq!(st.log, vec![StoreOp::DeleteDisplay { id: 6 }]);
    assert_eq!(app.display_selected, 0);
    assert_eq!(app.display_profiles.len(), 1);
}

#[test]
fn public_domain_toggle_twice_restores() {
    let mut st = Store::new();
    let mut app = app_with(vec![taste(1, "a")], vec![], vec![]);
    st.press(&mut app, Key::Enter);
    st.press(&mut app, Key::Enter);
    assert_eq!(app.taste_mode, TasteScreenMode::Detail);
    st.press(&mut app, Key::Down);
    st.press(&mut app, Key::Down);
    st.press(&mut app, Key::Char(' '));
    assert!(app.taste_profiles[0].is_public_domain);
    st.press(&mut app, Key::Enter);
    assert!(!app.taste_profiles[0].is_public_domain);
    assert_eq!(
        st.log,
        vec![
            StoreOp::UpdateTaste { id: 1, date_start: None, date_end: None, is_public_domain: true },
            StoreOp::UpdateTaste { id: 1, date_start: None, date_end: None, is_public_domain: false },
        ]
    );
}

#[test]
fn orientation_toggle_twice_restores() {
    let mut st = Store::new();
    let mut app = app_with(vec![], vec![display(4, "wide")], vec![]);
    st.press(&mut app, Key::Down);
    st.press(&mut app, Key::Enter);
    st.press(&mut app, Key::Enter);
    st.press(&mut app, Key::Down);
    st.press(&mut app, Key::Down);
    st.press(&mut app, Key::Char(' '));
    assert_eq!(app.display_profiles[0].orientation, "vertical");
    st.press(&mut app, Key::Char(' '));
    assert_eq!(app.display_profiles[0].orientation, "horizontal");
    assert_eq!(st.log.len(), 2);
    assert_eq!(
        st.log[0],
        StoreOp::UpdateDisplay {
            id: 4,
            wallpaper_color: s("#000000"),
            frame_style: s(""),
            orientation: s("vertical"),
            aspect_ratio: s("16:9"),
        }
    );
}

fn open_date_editor(st: &mut Store, app: &mut App, field_downs: usize) {
    for _ in 0..field_downs {
        st.press(app, Key::Down);
    }
    st.press(app, Key::Enter);
}

#[test]
fn date_edit_empty_commits_unset() {
    let mut st = Store::new();
    let mut p = taste(1, "a");
    p.date_start = Some(1600);
    let mut app = app_with(vec![p], vec![], vec![]);
    st.press(&mut app, Key::Enter);
    st.press(&mut app, Key::Enter);
    open_date_editor(&mut st, &mut app, 0);
    assert_eq!(app.taste_mode, TasteScreenMode::EditingDate(s("1600")));
    for _ in 0..4 {
        st.press(&mut app, Key::Backspace);
    }
    st.press(&mut app, Key::Enter);
    assert_eq!(app.taste_profiles[0].date_start, None);
    assert_eq!(app.taste_mode, TasteScreenMode::Detail);
}

#[test]
fn date_edit_digits_commit_value() {
    let mut st = Store::new();
    let mut app = app_with(vec![taste(1, "a")], vec![], vec![]);
    st.press(&mut app, Key::Enter);
    st.press(&mut app, Key::Enter);
    open_date_editor(&mut st, &mut app, 1);
    assert_eq!(app.taste_mode, TasteScreenMode::EditingDate(s("")));
    st.type_text(&mut app, "15x03");
    assert_eq!(app.taste_mode, TasteScreenMode::EditingDate(s("1503")));
    st.press(&mut app, Key::Enter);
    assert_eq!(app.taste_profiles[0].date_end, Some(1503));
    assert_eq!(
        st.log,
        vec![StoreOp::UpdateTaste { id: 1, date_start: None, date_end: Some(1503), is_public_domain: false }]
    );
}

#[test]
fn date_edit_lone_minus_commits_unset() {
    let mut st = Store::new();
    let mut p = taste(1, "a");
    p.date_start = Some(5);
    let mut app = app_with(vec![p], vec![], vec![]);
    st.press(&mut app, Key::Enter);
    st.press(&mut app, Key::Enter);
    open_date_editor(&mut st, &mut app, 0);
    st.press(&mut app, Key::Backspace);
    st.press(&mut app, Key::Char('-'));
    st.press(&mut app, Key::Char('-'));
    assert_eq!(app.taste_mode, TasteScreenMode::EditingDate(s("-")));
    st.press(&mut app, Key::Enter);
    assert_eq!(app.taste_profiles[0].date_start, None);
}

#[test]
fn date_edit_esc_discards() {
    let mut st = Store::new();
    let mut app = app_with(vec![taste(1, "a")], vec![], vec![]);
    st.press(&mut app, Key::Enter);
    st.press(&mut app, Key::Enter);
    st.press(&mut app, Key::Char('e'));
    st.type_text(&mut app, "-44");
    assert_eq!(app.taste_mode, TasteScreenMode::EditingDate(s("-44")));
    st.press(&mut app, Key::Esc);
    assert_eq!(app.taste_mode, TasteScreenMode::Detail);
    assert_eq!(app.taste_profiles[0].date_start, None);
    assert!(st.log.is_empty());
}

#[test]
fn keyword_cap_refuses_then_accepts_after_removal() {
    let mut st = Store::new();
    let mut cat: Vec<(i64, String)> = (0..11).map(|i| (100 + i as i64, format!("kw{:02}", i))).collect();
    cat.sort_by(|a, b| a.1.cmp(&b.1));
    let mut p = taste(1, "full");
    p.keywords = (0..10).map(|i| format!("kw{:02}", i)).collect();
    let mut app = app_with(vec![p], vec![], cat);
    st.press(&mut app, Key::Enter);
    st.press(&mut app, Key::Enter);
    open_date_editor(&mut st, &mut app, 3);
    assert_eq!(app.taste_mode, TasteScreenMode::SelectingKeywords);
    for _ in 0..10 {
        st.press(&mut app, Key::Down);
    }
    assert_eq!(app.keyword_cursor, 10);
    st.press(&mut app, Key::Down);
    assert_eq!(app.keyword_cursor, 10);
    st.press(&mut app, Key::Char(' '));
    assert_eq!(app.taste_profiles[0].keywords.len(), 10);
    assert!(st.log.is_empty());
    st.press(&mut app, Key::Up);
    st.press(&mut app, Key::Enter);
    assert_eq!(app.taste_profiles[0].keywords.len(), 9);
    st.press(&mut app, Key::Down);
    st.press(&mut app, Key::Enter);
    assert_eq!(app.taste_profiles[0].keywords.len(), 10);
    assert!(app.taste_profiles[0].keywords.contains(&s("kw10")));
    assert_eq!(
        st.log,
        vec![
            StoreOp::RemoveTasteKeyword { profile_id: 1, keyword_id: 109 },
            StoreOp::AddTasteKeyword { profile_id: 1, keyword_id: 110 },
        ]
    );
    st.press(&mut app, Key::Esc);
    assert_eq!(app.taste_mode, TasteScreenMode::Detail);
}

#[test]
fn keyword_picker_on_empty_catalog_is_inert() {
    let mut st = Store::new();
    let mut app = app_with(vec![taste(1, "a")], vec![], vec![]);
    st.press(&mut app, Key::Enter);
    st.press(&mut app, Key::Enter);
    open_date_editor(&mut st, &mut app, 3);
    st.press(&mut app, Key::Down);
    st.press(&mut app, Key::Enter);
    assert_eq!(app.keyword_cursor, 0);
    assert!(app.taste_profiles[0].keywords.is_empty());
    assert!(st.log.is_empty());
}

#[test]
fn esc_from_creating_name_keeps_typed_text() {
    let mut st = Store::new();
    let mut app = app_with(vec![], vec![], vec![]);
    st.press(&mut app, Key::Enter);
    st.press(&mut app, Key::Char('a'));
    assert_eq!(app.taste_mode, TasteScreenMode::CreatingProfile);
    for _ in 0..4 {
        st.press(&mut app, Key::Down);
    }
    st.press(&mut app, Key::Enter);
    assert_eq!(app.taste_mode, TasteScreenMode::CreatingName(s("")));
    st.type_text(&mut app, "My Profile");
    st.press(&mut app, Key::Esc);
    assert_eq!(app.taste_mode, TasteScreenMode::CreatingProfile);
    assert_eq!(app.new_taste_draft.name, "My Profile");
    assert_eq!(app.new_taste_draft.current_field, 4);
    st.press(&mut app, Key::Up);
    st.press(&mut app, Key::Down);
    st.press(&mut app, Key::Enter);
    assert_eq!(app.taste_mode, TasteScreenMode::CreatingName(s("My Profile")));
    assert!(st.log.is_empty());
}

#[test]
fn create_baroque_profile_end_to_end() {
    let mut st = Store::new();
    st.next_id = 42;
    let mut app = app_with(vec![], vec![], catalog());
    st.press(&mut app, Key::Enter);
    st.press(&mut app, Key::Char('a'));
    // date start
    st.press(&mut app, Key::Enter);
    st.type_text(&mut app, "1600");
    st.press(&mut app, Key::Enter);
    // date end
    st.press(&mut app, Key::Down);
    st.press(&mut app, Key::Enter);
    st.type_text(&mut app, "1750");
    st.press(&mut app, Key::Enter);
    // public domain: a fresh draft says yes; toggle off and on again
    st.press(&mut app, Key::Down);
    st.press(&mut app, Key::Char(' '));
    assert!(!app.new_taste_draft.is_public_domain);
    st.press(&mut app, Key::Enter);
    assert!(app.new_taste_draft.is_public_domain);
    // two keywords
    st.press(&mut app, Key::Down);
    st.press(&mut app, Key::Enter);
    assert_eq!(app.taste_mode, TasteScreenMode::CreatingSelectKeywords);
    st.press(&mut app, Key::Enter);
    st.press(&mut app, Key::Down);
    st.press(&mut app, Key::Char(' '));
    st.press(&mut app, Key::Esc);
    assert_eq!(app.new_taste_draft.keywords, vec![s("baroque"), s("landscape")]);
    // name
    st.press(&mut app, Key::Down);
    st.press(&mut app, Key::Enter);
    st.type_text(&mut app, "Baroque");
    assert!(st.log.is_empty());
    st.press(&mut app, Key::Enter);

    assert_eq!(app.taste_mode, TasteScreenMode::Browse);
    assert_eq!(app.taste_profiles.len(), 1);
    let p = &app.taste_profiles[0];
    assert_eq!(p.id, 42);
    assert_eq!(p.name, "Baroque");
    assert_eq!(p.date_start, Some(1600));
    assert_eq!(p.date_end, Some(1750));
    assert!(p.is_public_domain);
    assert_eq!(p.keywords, vec![s("baroque"), s("landscape")]);
    assert_eq!(app.taste_selected, 0);
    assert!(app.new_taste_draft.keywords.is_empty());
    assert_eq!(
        st.log,
        vec![
            StoreOp::InsertTaste {
                name: s("Baroque"),
                date_start: Some(1600),
                date_end: Some(1750),
                is_public_domain: true,
            },
            StoreOp::AddTasteKeyword { profile_id: 42, keyword_id: 7 },
            StoreOp::AddTasteKeyword { profile_id: 42, keyword_id: 8 },
        ]
    );
}

#[test]
fn creating_name_enter_on_empty_does_nothing() {
    let mut st = Store::new();
    let mut app = app_with(vec![], vec![], vec![]);
    st.press(&mut app, Key::Enter);
    st.press(&mut app, Key::Char('a'));
    for _ in 0..6 {
        st.press(&mut app, Key::Char('j'));
    }
    assert_eq!(app.new_taste_draft.current_field, 4);
    st.press(&mut app, Key::Enter);
    st.press(&mut app, Key::Enter);
    assert_eq!(app.taste_mode, TasteScreenMode::CreatingName(s("")));
    st.type_text(&mut app, "ab");
    st.press(&mut app, Key::Backspace);
    assert_eq!(app.taste_mode, TasteScreenMode::CreatingName(s("a")));
    assert!(app.taste_profiles.is_empty());
    assert!(st.log.is_empty());
}

#[test]
fn creating_profile_esc_abandons_draft() {
    let mut st = Store::new();
    let mut app = app_with(vec![], vec![], vec![]);
    st.press(&mut app, Key::Enter);
    st.press(&mut app, Key::Char('a'));
    st.press(&mut app, Key::Esc);
    assert_eq!(app.taste_mode, TasteScreenMode::Browse);
    st.press(&mut app, Key::Esc);
    assert_eq!(app.screen, Screen::Main);
}

#[test]
fn build_wizard_without_display_profiles_stays_put() {
    let mut st = Store::new();
    let mut app = app_with(vec![taste(1, "a")], vec![], vec![]);
    st.press(&mut app, Key::Down);
    st.press(&mut app, Key::Down);
    assert_eq!(app.main_selected, 2);
    st.press(&mut app, Key::Enter);
    assert_eq!(app.screen, Screen::Build);
    assert_eq!(app.build_step, BuildStep::PickTaste);
    st.press(&mut app, Key::Enter);
    assert_eq!(app.build_step, BuildStep::PickDisplay);
    st.press(&mut app, Key::Enter);
    assert_eq!(app.build_step, BuildStep::PickDisplay);
    st.press(&mut app, Key::Down);
    assert_eq!(app.build_display_idx, 0);
    st.press(&mut app, Key::Esc);
    assert_eq!(app.build_step, BuildStep::PickTaste);
    st.press(&mut app, Key::Esc);
    assert_eq!(app.screen, Screen::Main);
}

#[test]
fn build_wizard_without_taste_profiles_stays_put() {
    let mut st = Store::new();
    let mut app = app_with(vec![], vec![display(1, "d")], vec![]);
    app.main_selected = 2;
    st.press(&mut app, Key::Enter);
    st.press(&mut app, Key::Enter);
    assert_eq!(app.build_step, BuildStep::PickTaste);
}

#[test]
fn build_wizard_full_walk() {
    let mut st = Store::new();
    let mut app = app_with(vec![taste(1, "a"), taste(2, "b")], vec![display(3, "d")], vec![]);
    app.main_selected = 2;
    st.press(&mut app, Key::Enter);
    st.press(&mut app, Key::Down);
    st.press(&mut app, Key::Down);
    assert_eq!(app.build_taste_idx, 1);
    st.press(&mut app, Key::Enter);
    st.press(&mut app, Key::Enter);
    assert_eq!(app.build_step, BuildStep::PickOutputDir);
    st.type_text(&mut app, "/kj");
    st.press(&mut app, Key::Backspace);
    assert_eq!(app.build_output_dir, "/tmp/gallery/k");
    st.press(&mut app, Key::Esc);
    assert_eq!(app.build_step, BuildStep::PickDisplay);
    st.press(&mut app, Key::Enter);
    st.press(&mut app, Key::Enter);
    assert_eq!(app.screen, Screen::Main);
    // entering again starts over
    st.press(&mut app, Key::Enter);
    assert_eq!(app.build_step, BuildStep::PickTaste);
    assert_eq!(app.build_taste_idx, 0);
    assert!(st.log.is_empty());
}

#[test]
fn create_display_profile_with_suggested_name() {
    let mut st = Store::new();
    st.next_id = 9;
    let mut app = app_with(vec![], vec![], vec![]);
    st.press(&mut app, Key::Down);
    st.press(&mut app, Key::Enter);
    st.press(&mut app, Key::Char('a'));
    // color
    st.press(&mut app, Key::Enter);
    assert_eq!(app.display_mode, DisplayScreenMode::CreatingEditText(s("#FFFFFF")));
    for _ in 0..6 {
        st.press(&mut app, Key::Backspace);
    }
    st.type_text(&mut app, "000");
    st.press(&mut app, Key::Enter);
    assert_eq!(app.new_display_draft.wallpaper_color, "#000");
    // frame is reserved
    st.press(&mut app, Key::Down);
    st.press(&mut app, Key::Enter);
    assert_eq!(app.display_mode, DisplayScreenMode::CreatingProfile);
    // orientation
    st.press(&mut app, Key::Down);
    st.press(&mut app, Key::Enter);
    assert_eq!(app.new_display_draft.orientation, "vertical");
    // name
    st.press(&mut app, Key::Down);
    st.press(&mut app, Key::Down);
    st.press(&mut app, Key::Enter);
    assert_eq!(app.display_mode, DisplayScreenMode::CreatingName(s("Vertical 16:9")));
    st.press(&mut app, Key::Enter);
    assert_eq!(app.display_mode, DisplayScreenMode::Browse);
    assert_eq!(app.display_profiles.len(), 1);
    let p = &app.display_profiles[0];
    assert_eq!(p.id, 9);
    assert_eq!(p.name, "Vertical 16:9");
    assert_eq!(p.wallpaper_color, "#000");
    assert_eq!(p.orientation, "vertical");
    assert_eq!(p.aspect_ratio, "16:9");
    assert_eq!(
        st.log,
        vec![StoreOp::InsertDisplay {
            name: s("Vertical 16:9"),
            wallpaper_color: s("#000"),
            frame_style: s(""),
            orientation: s("vertical"),
            aspect_ratio: s("16:9"),
        }]
    );
}

#[test]
fn display_name_esc_keeps_text_over_suggestion() {
    let mut st = Store::new();
    let mut app = app_with(vec![], vec![], vec![]);
    st.press(&mut app, Key::Down);
    st.press(&mut app, Key::Enter);
    st.press(&mut app, Key::Char('a'));
    for _ in 0..4 {
        st.press(&mut app, Key::Down);
    }
    st.press(&mut app, Key::Enter);
    assert_eq!(app.display_mode, DisplayScreenMode::CreatingName(s("Horizontal 16:9")));
    st.press(&mut app, Key::Backspace);
    st.press(&mut app, Key::Char('k'));
    st.press(&mut app, Key::Esc);
    assert_eq!(app.new_display_draft.name, "Horizontal 16:k");
    st.press(&mut app, Key::Enter);
    assert_eq!(app.display_mode, DisplayScreenMode::CreatingName(s("Horizontal 16:k")));
}

#[test]
fn edit_display_aspect_ratio_persists_all_fields() {
    let mut st = Store::new();
    let mut app = app_with(vec![], vec![display(2, "d")], vec![]);
    st.press(&mut app, Key::Down);
    st.press(&mut app, Key::Enter);
    st.press(&mut app, Key::Enter);
    for _ in 0..5 {
        st.press(&mut app, Key::Down);
    }
    assert_eq!(app.display_detail_field, 3);
    st.press(&mut app, Key::Char('e'));
    assert_eq!(app.display_mode, DisplayScreenMode::EditingText(s("16:9")));
    st.press(&mut app, Key::Backspace);
    st.press(&mut app, Key::Backspace);
    st.press(&mut app, Key::Backspace);
    st.type_text(&mut app, "21:9");
    st.press(&mut app, Key::Enter);
    assert_eq!(app.display_profiles[0].aspect_ratio, "121:9");
    assert_eq!(
        st.log,
        vec![StoreOp::UpdateDisplay {
            id: 2,
            wallpaper_color: s("#000000"),
            frame_style: s(""),
            orientation: s("horizontal"),
            aspect_ratio: s("121:9"),
        }]
    );
    st.press(&mut app, Key::Esc);
    assert_eq!(app.display_mode, DisplayScreenMode::Browse);
}

#[test]
fn draft_keywords_skip_unknown_catalog_entries() {
    let mut st = Store::new();
    let mut app = app_with(vec![], vec![], catalog());
    st.press(&mut app, Key::Enter);
    st.press(&mut app, Key::Char('a'));
    app.new_taste_draft.keywords = vec![s("portrait"), s("unknown")];
    app.new_taste_draft.current_field = 4;
    st.press(&mut app, Key::Enter);
    st.type_text(&mut app, "P");
    st.press(&mut app, Key::Enter);
    assert_eq!(app.taste_profiles[0].keywords, vec![s("portrait"), s("unknown")]);
    assert_eq!(st.log[1..], [StoreOp::AddTasteKeyword { profile_id: 1, keyword_id: 9 }]);
}

#[test]
fn catalog_lookup_finds_first_match() {
    let cat = vec![(1, s("a")), (2, s("b")), (3, s("b"))];
    assert_eq!(find_catalog_id(&cat, &s("b")), Some(2));
    assert_eq!(find_catalog_id(&cat, &s("z")), None);
}
