//! Mouse handling.

use vstd::prelude::*;

use crate::app::{cmd_view, points_at, step_cursor, App, ClickTarget, Screen};
use crate::commands::{Cmd, CtrlKind};
use crate::input::{MouseButton, MouseEvent, MouseEventKind};

verus! {

impl App {
    /// What the mouse does. The prompts take no mouse input at all: they are
    /// deliberately keyboard-only (an explicit `y`), so a stray click can never
    /// confirm one.
    pub fn handle_mouse(&mut self, ev: MouseEvent) -> (r: Option<Cmd>)
        requires
            old(self)@.wf(),
        ensures
            final(self)@ == old(self)@.on_mouse(ev).0,
            cmd_view(r) == old(self)@.on_mouse(ev).1,
    {
        if self.confirming || self.raw_confirming || self.raw_editing {
            return None;
        }
        match self.screen {
            Screen::Picker => self.handle_mouse_picker(ev),
            Screen::Raw => self.handle_mouse_raw(ev),
            Screen::Controls => self.handle_mouse_controls(ev),
        }
    }

    /// The click target under terminal row `row`, per the last render.
    fn target_at(&self, row: u16) -> (r: Option<ClickTarget>)
        ensures
            r == self@.target_at(row),
    {
        if row < self.click_origin_row {
            return None;
        }
        let idx: usize = (row - self.click_origin_row) as usize + self.click_scroll as usize;
        if idx < self.click_targets.len() {
            self.click_targets[idx]
        } else {
            None
        }
    }

    /// Points the slider at `idx` at the value under the mouse.
    fn point(&mut self, idx: usize, col: u16) -> (r: Option<Cmd>)
        requires
            idx < old(self)@.sliders.len(),
        ensures
            final(self)@ == old(self)@.pointing(
                old(self)@.sliders[idx as int],
                col,
            ).0,
            cmd_view(r) == old(self)@.pointing(
                old(self)@.sliders[idx as int],
                col,
            ).1,
    {
        if col < self.click_origin_col {
            return None;
        }
        let s = &self.sliders[idx];
        let code: u8 = s.code;
        match s.value_at_column(col - self.click_origin_col) {
            Some(value) => {
                if value == s.value {
                    return None;
                }
                self.ask(code, value)
            },
            None => None,
        }
    }

    fn click(&mut self, i: usize, col: u16) -> (r: Option<Cmd>)
        requires
            old(self)@.wf(),
        ensures
            final(self)@ == old(self)@.clicking(i, col).0,
            cmd_view(r) == old(self)@.clicking(i, col).1,
    {
        self.cursor = i;
        if i >= self.order.len() {
            return None;
        }
        let r = self.order[i];
        assert(points_at(
            self@.order[i as int],
            self@.sliders,
            self@.selectors,
            self@.actions,
        ));
        match r.kind {
            // Clicking a selector is "advance to the next one".
            CtrlKind::Selector => self.adjust(1),
            CtrlKind::Action => {
                self.prompt(r.idx);
                None
            },
            // A slider only sets a value when the click actually landed inside
            // the bar.
            CtrlKind::Slider => self.point(r.idx, col),
        }
    }

    fn drag(&mut self, i: usize, col: u16) -> (r: Option<Cmd>)
        requires
            old(self)@.wf(),
        ensures
            final(self)@ == old(self)@.dragging(i, col).0,
            cmd_view(r) == old(self)@.dragging(i, col).1,
    {
        if i >= self.order.len() {
            return None;
        }
        let r = self.order[i];
        assert(points_at(
            self@.order[i as int],
            self@.sliders,
            self@.selectors,
            self@.actions,
        ));
        match r.kind {
            CtrlKind::Slider => self.point(r.idx, col),
            _ => None,
        }
    }

    fn handle_mouse_controls(&mut self, ev: MouseEvent) -> (r: Option<Cmd>)
        requires
            old(self)@.wf(),
        ensures
            final(self)@ == old(self)@.on_mouse_controls(ev).0,
            cmd_view(r) == old(self)@.on_mouse_controls(ev).1,
    {
        match ev.kind {
            MouseEventKind::Down(MouseButton::Left) => match self.target_at(ev.row) {
                None => None,
                Some(ClickTarget::Display(i)) => {
                    if self.displays.len() > 1 && i != self.selected {
                        return self.select_display(i);
                    }
                    None
                },
                Some(ClickTarget::Order(i)) => self.click(i, ev.column),
            },
            // Dragging across a slider's bar tracks the pointer continuously,
            // with the same mapping as a click.
            MouseEventKind::Drag(MouseButton::Left) => match self.target_at(ev.row) {
                Some(ClickTarget::Order(i)) => self.drag(i, ev.column),
                _ => None,
            },
            // Scroll always just moves through the list, whatever is under the
            // pointer.
            MouseEventKind::ScrollUp => {
                self.cursor = step_cursor(self.cursor, self.order.len(), 1);
                None
            },
            MouseEventKind::ScrollDown => {
                self.cursor = step_cursor(self.cursor, self.order.len(), -1);
                None
            },
            _ => None,
        }
    }

    fn handle_mouse_picker(&mut self, ev: MouseEvent) -> (r: Option<Cmd>)
        ensures
            final(self)@ == old(self)@.on_mouse_picker(ev).0,
            cmd_view(r) == old(self)@.on_mouse_picker(ev).1,
    {
        match ev.kind {
            MouseEventKind::Down(MouseButton::Left) => match self.target_at(ev.row) {
                Some(ClickTarget::Display(i)) => {
                    self.picker_cursor = i;
                    self.select_display(i)
                },
                _ => None,
            },
            MouseEventKind::ScrollUp => {
                self.picker_cursor = step_cursor(self.picker_cursor, self.displays.len(), 1);
                None
            },
            MouseEventKind::ScrollDown => {
                self.picker_cursor = step_cursor(self.picker_cursor, self.displays.len(), -1);
                None
            },
            _ => None,
        }
    }

    /// Maps a click's terminal row to a feature index in the Raw VCP table,
    /// accounting for the table's own header row and its scroll offset.
    fn raw_row_at(&self, row: u16) -> (r: Option<usize>)
        ensures
            r == self@.raw_row_at(row),
    {
        let len: usize = self.feature_count();
        let area = self.raw_table_area;
        if row <= area.y || row == u16::MAX || row - area.y >= area.height {
            return None;
        }
        let rel: usize = (row - area.y - 1) as usize;
        match self.raw_table_state.offset.checked_add(rel) {
            Some(idx) => if idx < len {
                Some(idx)
            } else {
                None
            },
            None => None,
        }
    }

    fn handle_mouse_raw(&mut self, ev: MouseEvent) -> (r: Option<Cmd>)
        ensures
            final(self)@ == old(self)@.on_mouse_raw(ev).0,
            cmd_view(r) == old(self)@.on_mouse_raw(ev).1,
    {
        match ev.kind {
            MouseEventKind::Down(MouseButton::Left) => {
                if let Some(idx) = self.raw_row_at(ev.row) {
                    self.raw_cursor = idx;
                }
                None
            },
            MouseEventKind::ScrollUp => {
                self.move_raw(1);
                None
            },
            MouseEventKind::ScrollDown => {
                self.move_raw(-1);
                None
            },
            _ => None,
        }
    }
}

} // verus!
