//! Key handling.

use vstd::prelude::*;

use crate::app::{cmd_view, is_yes, step_cursor, App, Screen};
use crate::commands::{Cmd, CtrlKind};
use crate::input::{KeyCode, KeyEvent};
use crate::numbers::parse_number;
use crate::text::owned;

verus! {

impl App {
    /// What a key does.
    pub fn handle_key(&mut self, key: KeyEvent) -> (r: Option<Cmd>)
        requires
            old(self)@.wf(),
            old(self)@.can_answer(key),
        ensures
            final(self)@ == old(self)@.on_key(key).0,
            cmd_view(r) == old(self)@.on_key(key).1,
    {
        if key.ctrl {
            if let KeyCode::Char('c') = key.code {
                self.should_quit = true;
                return None;
            }
        }
        if self.confirming {
            return self.handle_key_confirming(key.code);
        }
        if self.raw_confirming {
            return self.handle_key_raw_confirming(key.code);
        }
        if self.raw_editing {
            return self.handle_key_raw_editing(key.code);
        }
        match self.screen {
            Screen::Picker => self.handle_key_picker(key.code),
            Screen::Raw => self.handle_key_raw(key.code),
            Screen::Controls => self.handle_key_controls(key.code),
        }
    }

    fn quit(&mut self) -> (r: Option<Cmd>)
        ensures
            final(self)@ == old(self)@.quitting().0,
            cmd_view(r) == old(self)@.quitting().1,
    {
        self.should_quit = true;
        None
    }

    fn handle_key_confirming(&mut self, code: KeyCode) -> (r: Option<Cmd>)
        requires
            is_yes(code) ==> old(self)@.confirm_action_idx < old(self)@.actions.len(),
        ensures
            final(self)@ == old(self)@.on_key_confirming(code).0,
            cmd_view(r) == old(self)@.on_key_confirming(code).1,
    {
        match code {
            KeyCode::Char('y') | KeyCode::Char('Y') => {
                let code: u8 = self.actions[self.confirm_action_idx].code;
                let display_num: i32 = self.display_num();
                self.confirming = false;
                self.op_err = None;
                Some(Cmd::Action { display_num, code })
            },
            KeyCode::Char('n') | KeyCode::Char('N') | KeyCode::Esc => {
                self.confirming = false;
                None
            },
            KeyCode::Char('q') => self.quit(),
            _ => None,
        }
    }

    #[verifier::rlimit(40)]
    fn handle_key_raw_confirming(&mut self, code: KeyCode) -> (r: Option<Cmd>)
        requires
            is_yes(code) && old(self)@.caps is Some ==> old(self)@.raw_cursor < old(
                self,
            )@.caps->0.features@.len(),
        ensures
            final(self)@ == old(self)@.on_key_raw_confirming(code).0,
            cmd_view(r) == old(self)@.on_key_raw_confirming(code).1,
    {
        match code {
            KeyCode::Char('y') | KeyCode::Char('Y') => {
                let display_num: i32 = self.display_num();
                let value: u16 = self.raw_confirm_value;
                match &self.caps {
                    Some(caps) => {
                        let f = &caps.features[self.raw_cursor];
                        let code: u8 = f.code;
                        let permit_unknown = !f.recognized;
                        self.raw_confirming = false;
                        self.raw_writing = true;
                        self.raw_write_err = None;
                        Some(Cmd::RawSet { display_num, code, value, permit_unknown })
                    },
                    None => None,
                }
            },
            KeyCode::Char('n') | KeyCode::Char('N') | KeyCode::Esc => {
                self.raw_confirming = false;
                None
            },
            KeyCode::Char('q') => self.quit(),
            _ => None,
        }
    }

    fn handle_key_raw_editing(&mut self, code: KeyCode) -> (r: Option<Cmd>)
        ensures
            final(self)@ == old(self)@.on_key_raw_editing(code).0,
            cmd_view(r) == old(self)@.on_key_raw_editing(code).1,
    {
        match code {
            KeyCode::Esc => {
                self.raw_editing = false;
                self.raw_edit_input.clear();
                self.raw_edit_err.clear();
                None
            },
            KeyCode::Enter => self.enter_raw_value(),
            KeyCode::Backspace => {
                let _ = self.raw_edit_input.pop();
                None
            },
            KeyCode::Char(c) => {
                if '0' <= c && c <= '9' && self.raw_edit_input.as_str().as_bytes().len() < 5 {
                    self.raw_edit_input.push(c);
                    self.raw_edit_err.clear();
                }
                None
            },
            _ => None,
        }
    }

    /// Takes what was entered to the prompt, or says why it cannot be.
    #[verifier::rlimit(40)]
    fn enter_raw_value(&mut self) -> (r: Option<Cmd>)
        ensures
            final(self)@ == old(self)@.on_key_raw_editing(KeyCode::Enter).0,
            cmd_view(r) == old(self)@.on_key_raw_editing(KeyCode::Enter).1,
    {
        match parse_number(self.raw_edit_input.as_str(), 10, u32::MAX) {
            Some(v) => {
                if v > 65535 {
                    self.raw_edit_err = owned("Value must be between 0 and 65535.");
                } else {
                    self.raw_editing = false;
                    self.raw_edit_err.clear();
                    self.raw_confirming = true;
                    self.raw_confirm_value = v as u16;
                }
            },
            None => {
                self.raw_edit_err = owned("Enter a whole number.");
            },
        }
        None
    }

    fn go_to_controls(&mut self)
        ensures
            final(self)@ == old(self)@.back_to_controls(),
    {
        self.screen = Screen::Controls;
        self.trigger_transition_fx();
    }

    fn move_picker(&mut self, direction: i32)
        ensures
            final(self)@ == old(self)@.picker_moved(direction as int),
    {
        if self.displays.len() > 0 {
            self.picker_cursor = step_cursor(self.picker_cursor, self.displays.len(), direction);
        }
    }

    fn handle_key_picker(&mut self, code: KeyCode) -> (r: Option<Cmd>)
        ensures
            final(self)@ == old(self)@.on_key_picker(code).0,
            cmd_view(r) == old(self)@.on_key_picker(code).1,
    {
        match code {
            KeyCode::Char('q') => self.quit(),
            KeyCode::Esc => {
                if self.display_chosen {
                    self.go_to_controls();
                }
                None
            },
            KeyCode::Up | KeyCode::Char('k') => {
                self.move_picker(1);
                None
            },
            KeyCode::Down | KeyCode::Char('j') => {
                self.move_picker(-1);
                None
            },
            KeyCode::Enter => self.select_display(self.picker_cursor),
            _ => None,
        }
    }

    /// How many features are declared.
    pub(crate) fn feature_count(&self) -> (r: usize)
        ensures
            r == self@.feature_count(),
    {
        match &self.caps {
            Some(caps) => caps.features.len(),
            None => 0,
        }
    }

    /// Moves the focus by a page; up where `back`.
    fn page_raw(&mut self, back: bool)
        ensures
            final(self)@ == old(self)@.page_raw(
                if back {
                    -1
                } else {
                    1
                },
            ),
    {
        let len: usize = self.feature_count();
        if len == 0 {
            return;
        }
        let page: usize = if self.raw_visible_rows == 0 {
            1
        } else {
            self.raw_visible_rows
        };
        if back {
            let target: usize = if self.raw_cursor < page {
                0
            } else {
                self.raw_cursor - page
            };
            self.raw_cursor = if target > len - 1 {
                len - 1
            } else {
                target
            };
        } else {
            self.raw_cursor = if self.raw_cursor > len - 1 || page > len - 1 - self.raw_cursor {
                len - 1
            } else {
                self.raw_cursor + page
            };
        }
    }

    pub(crate) fn move_raw(&mut self, direction: i32)
        ensures
            final(self)@ == old(self)@.raw_moved(direction as int),
    {
        let len: usize = self.feature_count();
        if len > 0 {
            self.raw_cursor = step_cursor(self.raw_cursor, len, direction);
        }
    }

    fn start_editing(&mut self)
        ensures
            final(self)@ == old(self)@.editing(),
    {
        if self.feature_count() > 0 && !self.raw_loading {
            self.raw_editing = true;
            self.raw_edit_input.clear();
            self.raw_edit_err.clear();
            self.raw_write_err = None;
        }
    }

    fn handle_key_raw(&mut self, code: KeyCode) -> (r: Option<Cmd>)
        ensures
            final(self)@ == old(self)@.on_key_raw(code).0,
            cmd_view(r) == old(self)@.on_key_raw(code).1,
    {
        match code {
            KeyCode::Char('q') => self.quit(),
            KeyCode::Esc | KeyCode::Char('v') => {
                self.go_to_controls();
                None
            },
            KeyCode::Char('r') => self.scan_raw(),
            KeyCode::Up | KeyCode::Char('k') => {
                self.move_raw(1);
                None
            },
            KeyCode::Down | KeyCode::Char('j') => {
                self.move_raw(-1);
                None
            },
            KeyCode::Char('f') | KeyCode::PageDown => {
                self.page_raw(false);
                None
            },
            KeyCode::Char('b') | KeyCode::PageUp => {
                self.page_raw(true);
                None
            },
            KeyCode::Char('e') => {
                self.start_editing();
                None
            },
            _ => None,
        }
    }

    /// Full rescan: drops the cached shape and starts over as if this were the
    /// first time this monitor was seen.
    fn rescan(&mut self) -> (r: Option<Cmd>)
        ensures
            final(self)@ == old(self)@.rescanning().0,
            cmd_view(r) == old(self)@.rescanning().1,
    {
        let cmd = match self.current_display() {
            Some(d) => Cmd::Rescan(d.clone()),
            None => Cmd::Detect,
        };
        self.refresh();
        Some(cmd)
    }

    fn go_to_picker(&mut self)
        ensures
            final(self)@ == old(self)@.picking(),
    {
        if self.displays.len() > 1 {
            self.screen = Screen::Picker;
            self.picker_cursor = self.selected;
            self.trigger_transition_fx();
        }
    }

    fn go_to_raw(&mut self) -> (r: Option<Cmd>)
        ensures
            final(self)@ == old(self)@.to_raw().0,
            cmd_view(r) == old(self)@.to_raw().1,
    {
        self.screen = Screen::Raw;
        self.trigger_transition_fx();
        if !self.raw_ready && !self.raw_loading {
            self.scan_raw()
        } else {
            None
        }
    }

    fn move_cursor(&mut self, direction: i32)
        ensures
            final(self)@ == old(self)@.cursor_moved(direction as int),
    {
        if self.order.len() > 0 {
            self.cursor = step_cursor(self.cursor, self.order.len(), direction);
        }
    }

    fn run_action(&mut self)
        ensures
            final(self)@ == old(self)@.running_action(),
    {
        if self.cursor < self.order.len() {
            let r = self.order[self.cursor];
            if let CtrlKind::Action = r.kind {
                self.prompt(r.idx);
            }
        }
    }

    fn handle_key_controls(&mut self, code: KeyCode) -> (r: Option<Cmd>)
        requires
            old(self)@.wf(),
        ensures
            final(self)@ == old(self)@.on_key_controls(code).0,
            cmd_view(r) == old(self)@.on_key_controls(code).1,
    {
        match code {
            KeyCode::Char('q') => self.quit(),
            KeyCode::Char('r') => {
                self.refresh();
                Some(Cmd::Detect)
            },
            KeyCode::Char('R') => self.rescan(),
            KeyCode::Char('D') => {
                self.go_to_picker();
                None
            },
            KeyCode::Char('v') => self.go_to_raw(),
            KeyCode::Up | KeyCode::Char('k') => {
                self.move_cursor(1);
                None
            },
            KeyCode::Down | KeyCode::Char('j') => {
                self.move_cursor(-1);
                None
            },
            KeyCode::Left | KeyCode::Char('h') => self.adjust(-1),
            KeyCode::Right | KeyCode::Char('l') => self.adjust(1),
            KeyCode::Enter => {
                self.run_action();
                None
            },
            _ => None,
        }
    }
}

} // verus!
