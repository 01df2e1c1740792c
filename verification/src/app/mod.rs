//! Application state and its update logic.
//!
//! [`App`] never touches a backend: every method that needs I/O just describes
//! it by returning a [`Cmd`]. What each event does is stated as a function from
//! state to state, [`AppView`].

mod keys;
mod laws;
mod messages;
mod model;
mod mouse;
pub mod promises;

pub use laws::{
    answers_prompt, law_actions_need_a_yes, law_built_controls_are_wf,
    law_chosen_display_is_kept, law_control_c_quits, law_cursor_goes_back,
    law_entering_issues_nothing, law_errors_flash_once, law_fresh_scan_is_confirmed,
    law_generic_value_is_not_shown, law_job_messages_are_wf, law_keys_keep_prompts,
    law_keys_keep_values, law_keys_keep_wf, law_live_value_confirms, law_messages_keep_prompts,
    law_messages_keep_wf, law_mouse_keeps_prompts, law_mouse_keeps_values, law_mouse_keeps_wf,
    law_mouse_never_confirms, law_one_display_is_never_asked_about, law_only_digits_are_entered,
    law_other_keys_are_swallowed, law_paging_stays_in_the_list, law_planned_messages_are_wf,
    law_pointing_stays_in_range, law_raw_value_fits, law_scrolling_issues_nothing,
    law_several_displays_are_asked_about, law_slider_stays_in_range, law_start_is_wf,
    law_switching_display_drops_everything, law_unrecognized_write_is_marked,
    law_valid_prompts_can_be_answered, law_write_shows_once_confirmed, needs_yes, prompts_fit,
    values_kept,
};
pub use model::{
    clamped, cmd_view, down, feature_codes, is_selector, is_slider, is_yes, msg_wf, order_resolves,
    points_at, probe_ok_wf, readings_by_code, selector_at, slid, slider_at, stepped, up,
    value_codes, AppView, CmdView, Next,
};

use std::collections::{HashMap, HashSet};

use vstd::prelude::*;

use crate::commands::{all_feature_codes, Cmd, CtrlKind, CtrlRef};
use crate::components::{next_option, Action, Selector, Slider};
use crate::effects::{Effect, EffectQueue};
use crate::input::{KeyCode, KeyEvent, Rect, TableState};
use crate::vcp::{Capabilities, Display, FeatureReading};

verus! {

#[derive(Debug, Clone, Copy, PartialEq, Eq, Structural)]
pub enum Screen {
    Controls,
    Raw,
    Picker,
}

impl Default for Screen {
    fn default() -> (r: Self)
        ensures
            r == Screen::Controls,
    {
        Screen::Controls
    }
}

/// What clicking a given line means, on whichever text screen (Controls or
/// Picker) most recently rendered it.
#[derive(Debug, Clone, Copy, PartialEq, Eq, Structural)]
pub enum ClickTarget {
    /// A display row: one of the header lines on Controls (only meaningful with
    /// more than one display), or a row on the Picker.
    Display(usize),
    /// A control row on Controls, indexing [`App::order`].
    Order(usize),
}

#[derive(Debug)]
pub struct App {
    pub should_quit: bool,

    pub loading: bool,
    pub displays: Vec<Display>,
    pub err: Option<String>,

    /// Indexes `displays` for whichever one is currently being controlled.
    /// `display_chosen` stays false until either a single display was
    /// auto-picked or the picker screen (for more than one) has been answered:
    /// it is what keeps a later refresh from re-showing the picker and bouncing
    /// the user back to display 0.
    pub selected: usize,
    pub display_chosen: bool,
    pub picker_cursor: usize,

    pub probing: bool,
    pub caps: Option<Capabilities>,
    pub probe_err: Option<String>,

    pub sliders: Vec<Slider>,
    pub selectors: Vec<Selector>,
    pub actions: Vec<Action>,
    pub order: Vec<CtrlRef>,
    pub cursor: usize,
    pub op_err: Option<String>,

    /// Controls whose value came from cache and has not been confirmed by a
    /// live read yet. Empty after a fresh (non-cached) scan.
    pub pending: HashSet<u8>,

    /// Set while a destructive action is awaiting a y/n answer. Every other key
    /// is swallowed until it is answered.
    pub confirming: bool,
    pub confirm_action_idx: usize,

    pub screen: Screen,
    pub raw_ready: bool,
    pub raw_loading: bool,
    pub raw_err: Option<String>,
    pub raw_readings: HashMap<u8, FeatureReading>,
    /// Index into `caps.features` of the focused row.
    pub raw_cursor: usize,
    /// How many data rows the table area last had room for: the size of a
    /// page-jump. Set each time the screen is drawn.
    pub raw_visible_rows: usize,
    /// The scroll position of the Raw VCP table. Owned here so that the offset
    /// persists smoothly across renders.
    pub raw_table_state: TableState,

    pub raw_editing: bool,
    pub raw_edit_input: String,
    pub raw_edit_err: String,

    /// Gates the actual write behind a y/n prompt: writing an arbitrary value
    /// to an unrecognized/manufacturer-specific code is undocumented backend
    /// behaviour, so this never fires silently.
    pub raw_confirming: bool,
    pub raw_confirm_value: u16,
    pub raw_writing: bool,
    pub raw_write_err: Option<String>,

    /// Line-index to click target for whichever text screen was last drawn;
    /// `None` for a line that is blank, a header, or otherwise unclickable.
    pub click_targets: Vec<Option<ClickTarget>>,
    /// Terminal-absolute row of the body's first visible line as of the last
    /// render.
    pub click_origin_row: u16,
    /// Terminal-absolute column where each rendered line starts.
    pub click_origin_col: u16,
    /// How many lines of `click_targets` are scrolled off the top.
    pub click_scroll: u16,
    /// The Raw VCP screen's table area as of the last render.
    pub raw_table_area: Rect,

    /// Frame effects that were asked for and are still to be shown.
    pub effects: EffectQueue,
}

impl View for App {
    type V = AppView;

    open spec fn view(&self) -> AppView {
        AppView {
            should_quit: self.should_quit,
            loading: self.loading,
            displays: self.displays@,
            err: self.err.deep_view(),
            selected: self.selected,
            display_chosen: self.display_chosen,
            picker_cursor: self.picker_cursor,
            probing: self.probing,
            caps: self.caps,
            probe_err: self.probe_err.deep_view(),
            sliders: self.sliders@,
            selectors: self.selectors@,
            actions: self.actions@,
            order: self.order@,
            cursor: self.cursor,
            op_err: self.op_err.deep_view(),
            pending: self.pending@,
            confirming: self.confirming,
            confirm_action_idx: self.confirm_action_idx,
            screen: self.screen,
            raw_ready: self.raw_ready,
            raw_loading: self.raw_loading,
            raw_err: self.raw_err.deep_view(),
            raw_readings: self.raw_readings@,
            raw_cursor: self.raw_cursor,
            raw_visible_rows: self.raw_visible_rows,
            raw_table_state: self.raw_table_state,
            raw_editing: self.raw_editing,
            raw_edit_input: self.raw_edit_input@,
            raw_edit_err: self.raw_edit_err@,
            raw_confirming: self.raw_confirming,
            raw_confirm_value: self.raw_confirm_value,
            raw_writing: self.raw_writing,
            raw_write_err: self.raw_write_err.deep_view(),
            click_targets: self.click_targets@,
            click_origin_row: self.click_origin_row,
            click_origin_col: self.click_origin_col,
            click_scroll: self.click_scroll,
            raw_table_area: self.raw_table_area,
            effects: self.effects.queued@,
        }
    }
}

impl AppView {
    /// Before anything has been detected.
    pub open spec fn initial() -> AppView {
        AppView {
            should_quit: false,
            loading: true,
            displays: Seq::empty(),
            err: None,
            selected: 0,
            display_chosen: false,
            picker_cursor: 0,
            probing: false,
            caps: None,
            probe_err: None,
            sliders: Seq::empty(),
            selectors: Seq::empty(),
            actions: Seq::empty(),
            order: Seq::empty(),
            cursor: 0,
            op_err: None,
            pending: Set::empty(),
            confirming: false,
            confirm_action_idx: 0,
            screen: Screen::Controls,
            raw_ready: false,
            raw_loading: false,
            raw_err: None,
            raw_readings: Map::empty(),
            raw_cursor: 0,
            raw_visible_rows: 10,
            raw_table_state: TableState { offset: 0, selected: None },
            raw_editing: false,
            raw_edit_input: Seq::empty(),
            raw_edit_err: Seq::empty(),
            raw_confirming: false,
            raw_confirm_value: 0,
            raw_writing: false,
            raw_write_err: None,
            click_targets: Seq::empty(),
            click_origin_row: 0,
            click_origin_col: 0,
            click_scroll: 0,
            raw_table_area: Rect { x: 0, y: 0, width: 0, height: 0 },
            effects: Seq::empty(),
        }
    }
}

impl App {
    pub fn new() -> (r: Self)
        ensures
            r@ == AppView::initial(),
            r@.wf(),
            r@.prompts_wf(),
    {
        App {
            should_quit: false,
            loading: true,
            displays: Vec::new(),
            err: None,
            selected: 0,
            display_chosen: false,
            picker_cursor: 0,
            probing: false,
            caps: None,
            probe_err: None,
            sliders: Vec::new(),
            selectors: Vec::new(),
            actions: Vec::new(),
            order: Vec::new(),
            cursor: 0,
            op_err: None,
            pending: HashSet::new(),
            confirming: false,
            confirm_action_idx: 0,
            screen: Screen::default(),
            raw_ready: false,
            raw_loading: false,
            raw_err: None,
            raw_readings: HashMap::new(),
            raw_cursor: 0,
            raw_visible_rows: 10,
            raw_table_state: TableState::default(),
            raw_editing: false,
            raw_edit_input: String::new(),
            raw_edit_err: String::new(),
            raw_confirming: false,
            raw_confirm_value: 0,
            raw_writing: false,
            raw_write_err: None,
            click_targets: Vec::new(),
            click_origin_row: 0,
            click_origin_col: 0,
            click_scroll: 0,
            raw_table_area: Rect::default(),
            effects: EffectQueue::new(),
        }
    }

    /// The initial command to kick off discovery.
    pub fn init() -> (r: Cmd)
        ensures
            r == Cmd::Detect,
    {
        Cmd::Detect
    }

    fn action_is_there(&self) -> (r: bool)
        ensures
            r == self@.action_is_there(),
    {
        !self.confirming || self.confirm_action_idx < self.actions.len()
    }

    fn feature_is_there(&self) -> (r: bool)
        ensures
            r == self@.feature_is_there(),
    {
        if self.raw_editing || self.raw_confirming {
            if let Some(caps) = &self.caps {
                return self.raw_cursor < caps.features.len();
            }
        }
        true
    }

    /// Whether a key can be handled: a yes needs what its prompt is about.
    pub fn can_answer(&self, key: KeyEvent) -> (r: bool)
        ensures
            r == self@.can_answer(key),
    {
        match key.code {
            KeyCode::Char('y') | KeyCode::Char('Y') => self.action_is_there() && (self.confirming
                || !self.raw_confirming || self.feature_is_there()),
            _ => true,
        }
    }

    /// Whether the current screen can be shown: a prompt on it needs what it is
    /// about.
    pub fn can_draw(&self) -> (r: bool)
        ensures
            r == self@.can_draw(),
    {
        match self.screen {
            Screen::Controls => self.action_is_there(),
            Screen::Raw => self.feature_is_there(),
            Screen::Picker => true,
        }
    }

    /// The display that is being controlled.
    pub fn current_display(&self) -> (r: Option<&Display>)
        ensures
            r is Some <==> self@.current_display() is Some,
            r is Some ==> *r->0 == self@.current_display()->0,
    {
        if self.displays.len() == 0 {
            return None;
        }
        let idx: usize = if self.selected < self.displays.len() {
            self.selected
        } else {
            0
        };
        Some(&self.displays[idx])
    }

    /// The number of the display that is being controlled; 0 where there is
    /// none.
    pub fn display_num(&self) -> (r: i32)
        ensures
            r == self@.display_num(),
    {
        match self.current_display() {
            Some(d) => d.number,
            None => 0,
        }
    }

    // ---- effects ---------------------------------------------------------------

    /// The Controls screen just got real content for the first time this scan.
    pub(crate) fn trigger_entrance_fx(&mut self)
        ensures
            final(self)@ == old(self)@.with_effect(Effect::Entrance),
    {
        self.effects.add_effect(Effect::Entrance);
    }

    /// Switched between two already-populated screens.
    pub(crate) fn trigger_transition_fx(&mut self)
        ensures
            final(self)@ == old(self)@.with_effect(Effect::Transition),
    {
        self.effects.add_effect(Effect::Transition);
    }

    /// A new error just appeared.
    pub(crate) fn trigger_error_fx(&mut self)
        ensures
            final(self)@ == old(self)@.with_effect(Effect::Error),
    {
        self.effects.add_effect(Effect::Error);
    }

    // ---- shared steps ----------------------------------------------------------

    pub(crate) fn reset_raw(&mut self)
        ensures
            final(self)@ == old(self)@.raw_reset(),
    {
        self.raw_ready = false;
        self.raw_loading = false;
        self.raw_err = None;
        self.raw_readings.clear();
        self.raw_cursor = 0;
        self.raw_table_state = TableState::default();
        self.raw_editing = false;
        self.raw_edit_input.clear();
        self.raw_edit_err.clear();
        self.raw_confirming = false;
        self.raw_writing = false;
        self.raw_write_err = None;
    }

    /// Drops every bit of state from whatever was being controlled.
    fn drop_controls(&mut self)
        ensures
            final(self)@ == old(self)@.dropped(),
    {
        self.reset_raw();
        self.screen = Screen::Controls;
        self.caps = None;
        self.probe_err = None;
        self.sliders.clear();
        self.selectors.clear();
        self.actions.clear();
        self.order.clear();
        self.cursor = 0;
        self.op_err = None;
        self.pending.clear();
        self.confirming = false;
    }

    /// Commits to controlling `displays[idx]` and (re)starts the probe for it.
    /// Used both for the very first pick and for switching displays later:
    /// either way, every bit of state from whatever was previously being
    /// controlled has to be dropped.
    pub(crate) fn select_display(&mut self, idx: usize) -> (r: Option<Cmd>)
        ensures
            final(self)@ == old(self)@.select_display(idx).0,
            cmd_view(r) == old(self)@.select_display(idx).1,
    {
        if idx >= self.displays.len() {
            return None;
        }
        let display = self.displays[idx].clone();
        self.drop_controls();
        self.selected = idx;
        self.display_chosen = true;
        self.probing = true;
        Some(Cmd::Probe(display))
    }

    pub(crate) fn refresh(&mut self)
        ensures
            final(self)@ == old(self)@.refreshed(),
    {
        self.drop_controls();
        self.loading = true;
        self.err = None;
        self.probing = false;
    }

    /// Asks for a value to be written.
    pub(crate) fn ask(&mut self, code: u8, value: u16) -> (r: Option<Cmd>)
        ensures
            final(self)@ == old(self)@.asking(code, value).0,
            cmd_view(r) == old(self)@.asking(code, value).1,
    {
        let display_num: i32 = self.display_num();
        self.op_err = None;
        Some(Cmd::SetValue { display_num, code, value })
    }

    /// Moves the focused slider/selector one step in the given direction
    /// (-1 or +1). This never changes a control's displayed value: that only
    /// happens once the write is confirmed.
    pub(crate) fn adjust(&mut self, direction: i32) -> (r: Option<Cmd>)
        requires
            old(self)@.wf(),
            direction == 1 || direction == -1,
        ensures
            final(self)@ == old(self)@.adjust(direction as int).0,
            cmd_view(r) == old(self)@.adjust(direction as int).1,
    {
        if self.cursor >= self.order.len() {
            return None;
        }
        let r = self.order[self.cursor];
        assert(points_at(
            self@.order[self.cursor as int],
            self@.sliders,
            self@.selectors,
            self@.actions,
        ));
        match r.kind {
            CtrlKind::Slider => {
                let s = &self.sliders[r.idx];
                let step: i32 = if direction == 1 {
                    s.step as i32
                } else {
                    -(s.step as i32)
                };
                let target: i32 = s.value as i32 + step;
                let new_value: u16 = if target < 0 {
                    0
                } else if target > s.max as i32 {
                    s.max
                } else {
                    target as u16
                };
                let code: u8 = s.code;
                assert(step == s.step * direction) by (nonlinear_arith)
                    requires
                        direction == 1 && step == s.step || direction == -1 && step == -(
                        s.step as int),
                ;
                assert(new_value == slid(*s, direction as int));
                if new_value == s.value {
                    return None;
                }
                self.ask(code, new_value)
            },
            CtrlKind::Selector => {
                let s = &self.selectors[r.idx];
                let next: u8 = s.next_option(direction);
                let code: u8 = s.code;
                if next == s.selected {
                    return None;
                }
                self.ask(code, next as u16)
            },
            CtrlKind::Action => None,
        }
    }

    /// Opens the prompt for an action.
    pub(crate) fn prompt(&mut self, idx: usize)
        ensures
            final(self)@ == old(self)@.prompting(idx),
    {
        self.confirming = true;
        self.confirm_action_idx = idx;
        self.op_err = None;
    }

    /// Asks for every declared code to be read.
    pub(crate) fn scan_raw(&mut self) -> (r: Option<Cmd>)
        ensures
            final(self)@ == old(self)@.scanning_raw().0,
            cmd_view(r) == old(self)@.scanning_raw().1,
    {
        let display_num: i32 = self.display_num();
        match &self.caps {
            Some(caps) => {
                let codes = all_feature_codes(caps);
                assert(codes@ =~= feature_codes(*caps));
                self.raw_loading = true;
                Some(Cmd::RawProbe { display_num, codes })
            },
            None => None,
        }
    }
}

/// One position up in a list, from the first to the last.
pub(crate) fn step_up(cursor: usize, len: usize) -> (r: usize)
    requires
        len > 0,
    ensures
        r == up(cursor, len as nat),
{
    if cursor == 0 {
        len - 1
    } else {
        cursor - 1
    }
}

/// One position down in a list, from the last to the first.
pub(crate) fn step_down(cursor: usize, len: usize) -> (r: usize)
    requires
        len > 0,
    ensures
        r == down(cursor, len as nat),
{
    proof {
        vstd::arithmetic::div_mod::lemma_mod_bound(cursor as int, len as int);
        vstd::arithmetic::div_mod::lemma_add_mod_noop(cursor as int, 1, len as int);
        vstd::arithmetic::div_mod::lemma_mod_twice(cursor as int, len as int);
        vstd::arithmetic::div_mod::lemma_add_mod_noop((cursor % len) as int, 1, len as int);
        vstd::arithmetic::div_mod::lemma_mod_bound(cursor + 1, len as int);
    }
    (cursor % len + 1) % len
}

/// Steps a cursor by one position within `0..len`, wrapping. A positive
/// direction means up, toward index 0.
pub(crate) fn step_cursor(cursor: usize, len: usize, direction: i32) -> (r: usize)
    ensures
        r == stepped(cursor, len as nat, direction as int),
{
    if len == 0 {
        return 0;
    }
    if direction > 0 {
        step_up(cursor, len)
    } else {
        step_down(cursor, len)
    }
}

} // verus!
