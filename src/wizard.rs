//! The build wizard: pick a taste profile, then a display profile, then an
//! output directory.
use vstd::prelude::*;

use crate::app::{cursor_back, cursor_on, is_down, is_up, key_is_down, key_is_up, App, BuildStep, Key, Screen};
use crate::text::{pop_char, push_char, without_last};

verus! {

/// One key in the build wizard.
pub open spec fn wizard_step(a: App, key: Key, b: App) -> bool {
    match a.build_step {
        BuildStep::PickTaste => if is_up(key) {
            b == App { build_taste_idx: cursor_back(a.build_taste_idx), ..a }
        } else if is_down(key) {
            b == App { build_taste_idx: cursor_on(a.build_taste_idx, a.taste_profiles@.len()), ..a }
        } else if key == Key::Enter {
            b == if a.taste_profiles@.len() > 0 {
                App { build_step: BuildStep::PickDisplay, ..a }
            } else {
                a
            }
        } else if key == Key::Esc {
            b == App { screen: Screen::Main, ..a }
        } else {
            b == a
        },
        BuildStep::PickDisplay => if is_up(key) {
            b == App { build_display_idx: cursor_back(a.build_display_idx), ..a }
        } else if is_down(key) {
            b == App {
                build_display_idx: cursor_on(a.build_display_idx, a.display_profiles@.len()),
                ..a
            }
        } else if key == Key::Enter {
            b == if a.display_profiles@.len() > 0 {
                App { build_step: BuildStep::PickOutputDir, ..a }
            } else {
                a
            }
        } else if key == Key::Esc {
            b == App { build_step: BuildStep::PickTaste, ..a }
        } else {
            b == a
        },
        BuildStep::PickOutputDir => match key {
            Key::Char(c) => {
                &&& b == App { build_output_dir: b.build_output_dir, ..a }
                &&& b.build_output_dir@ == a.build_output_dir@.push(c)
            },
            Key::Backspace => {
                &&& b == App { build_output_dir: b.build_output_dir, ..a }
                &&& b.build_output_dir@ == without_last(a.build_output_dir@)
            },
            Key::Enter => b == App { screen: Screen::Main, ..a },
            Key::Esc => b == App { build_step: BuildStep::PickDisplay, ..a },
            _ => b == a,
        },
    }
}

impl App {
    pub(crate) fn handle_build(&mut self, key: Key)
        requires
            old(self).wf(),
            old(self).screen == Screen::Build,
        ensures
            final(self).wf(),
            wizard_step(*old(self), key, *final(self)),
    {
        match self.build_step {
            BuildStep::PickTaste => {
                if key_is_up(key) {
                    if self.build_taste_idx > 0 {
                        self.build_taste_idx = self.build_taste_idx - 1;
                    }
                } else if key_is_down(key) {
                    if self.taste_profiles.len() > 0 && self.build_taste_idx < self.taste_profiles.len() - 1 {
                        self.build_taste_idx = self.build_taste_idx + 1;
                    }
                } else if key == Key::Enter {
                    if self.taste_profiles.len() > 0 {
                        self.build_step = BuildStep::PickDisplay;
                    }
                } else if key == Key::Esc {
                    self.screen = Screen::Main;
                }
            },
            BuildStep::PickDisplay => {
                if key_is_up(key) {
                    if self.build_display_idx > 0 {
                        self.build_display_idx = self.build_display_idx - 1;
                    }
                } else if key_is_down(key) {
                    if self.display_profiles.len() > 0 && self.build_display_idx
                        < self.display_profiles.len() - 1 {
                        self.build_display_idx = self.build_display_idx + 1;
                    }
                } else if key == Key::Enter {
                    if self.display_profiles.len() > 0 {
                        self.build_step = BuildStep::PickOutputDir;
                    }
                } else if key == Key::Esc {
                    self.build_step = BuildStep::PickTaste;
                }
            },
            BuildStep::PickOutputDir => match key {
                Key::Char(c) => {
                    push_char(&mut self.build_output_dir, c);
                },
                Key::Backspace => {
                    pop_char(&mut self.build_output_dir);
                },
                Key::Enter => {
                    self.screen = Screen::Main;
                },
                Key::Esc => {
                    self.build_step = BuildStep::PickDisplay;
                },
                _ => {},
            },
        }
    }
}

} // verus!
