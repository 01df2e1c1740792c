//! What the application does, as a function from state and event to the next
//! state and the command to run.

use vstd::prelude::*;

use crate::app::{ClickTarget, Screen};
use crate::backend::BackendError;
use crate::commands::{Cmd, CtrlKind, CtrlRef, Msg, ProbeOk};
use crate::components::{next_option, value_at, Action, Selector, Slider};
use crate::effects::Effect;
use crate::input::{
    KeyCode, KeyEvent, MouseButton, MouseEvent, MouseEventKind, Rect, TableState,
};
use crate::numbers::{is_digit, parsed};
use crate::text::deep;
use crate::vcp::{Capabilities, Display, FeatureReading, VcpFeature};

verus! {

/// A command, over the codes that it names.
pub enum CmdView {
    Detect,
    Rescan(Display),
    Probe(Display),
    SetValue { display_num: i32, code: u8, value: u16 },
    Action { display_num: i32, code: u8 },
    RawProbe { display_num: i32, codes: Seq<u8> },
    RawSingleProbe { display_num: i32, code: u8 },
    RawSet { display_num: i32, code: u8, value: u16, permit_unknown: bool },
}

impl View for Cmd {
    type V = CmdView;

    open spec fn view(&self) -> CmdView {
        match *self {
            Cmd::Detect => CmdView::Detect,
            Cmd::Rescan(d) => CmdView::Rescan(d),
            Cmd::Probe(d) => CmdView::Probe(d),
            Cmd::SetValue { display_num, code, value } => CmdView::SetValue {
                display_num,
                code,
                value,
            },
            Cmd::Action { display_num, code } => CmdView::Action { display_num, code },
            Cmd::RawProbe { display_num, codes } => CmdView::RawProbe {
                display_num,
                codes: codes@,
            },
            Cmd::RawSingleProbe { display_num, code } => CmdView::RawSingleProbe {
                display_num,
                code,
            },
            Cmd::RawSet { display_num, code, value, permit_unknown } => CmdView::RawSet {
                display_num,
                code,
                value,
                permit_unknown,
            },
        }
    }
}

/// A command that may be there.
pub open spec fn cmd_view(cmd: Option<Cmd>) -> Option<CmdView> {
    match cmd {
        Some(c) => Some(c@),
        None => None,
    }
}

/// The state of the application.
pub struct AppView {
    pub should_quit: bool,
    pub loading: bool,
    pub displays: Seq<Display>,
    pub err: Option<Seq<char>>,
    pub selected: usize,
    pub display_chosen: bool,
    pub picker_cursor: usize,
    pub probing: bool,
    pub caps: Option<Capabilities>,
    pub probe_err: Option<Seq<char>>,
    pub sliders: Seq<Slider>,
    pub selectors: Seq<Selector>,
    pub actions: Seq<Action>,
    pub order: Seq<CtrlRef>,
    pub cursor: usize,
    pub op_err: Option<Seq<char>>,
    pub pending: Set<u8>,
    pub confirming: bool,
    pub confirm_action_idx: usize,
    pub screen: Screen,
    pub raw_ready: bool,
    pub raw_loading: bool,
    pub raw_err: Option<Seq<char>>,
    pub raw_readings: Map<u8, FeatureReading>,
    pub raw_cursor: usize,
    pub raw_visible_rows: usize,
    pub raw_table_state: TableState,
    pub raw_editing: bool,
    pub raw_edit_input: Seq<char>,
    pub raw_edit_err: Seq<char>,
    pub raw_confirming: bool,
    pub raw_confirm_value: u16,
    pub raw_writing: bool,
    pub raw_write_err: Option<Seq<char>>,
    pub click_targets: Seq<Option<ClickTarget>>,
    pub click_origin_row: u16,
    pub click_origin_col: u16,
    pub click_scroll: u16,
    pub raw_table_area: Rect,
    pub effects: Seq<Effect>,
}

/// The next state, and the command to run.
pub type Next = (AppView, Option<CmdView>);

// ---- helpers -------------------------------------------------------------------

/// One position up in a list, from the first to the last.
pub open spec fn up(cursor: usize, len: nat) -> usize {
    if cursor == 0 {
        (len - 1) as usize
    } else {
        (cursor - 1) as usize
    }
}

/// One position down in a list, from the last to the first.
pub open spec fn down(cursor: usize, len: nat) -> usize {
    ((cursor + 1) % (len as int)) as usize
}

/// One position in a list, up where `direction` is positive; 0 where the list
/// is empty.
pub open spec fn stepped(cursor: usize, len: nat, direction: int) -> usize {
    if len == 0 {
        0
    } else if direction > 0 {
        up(cursor, len)
    } else {
        down(cursor, len)
    }
}

/// `n`, but not below `low` nor above `high`.
pub open spec fn clamped(n: int, low: int, high: int) -> int {
    if n < low {
        low
    } else if n > high {
        high
    } else {
        n
    }
}

/// The value that a slider moves to, in steps of its own.
pub open spec fn slid(s: Slider, direction: int) -> u16 {
    clamped(s.value + s.step * direction, 0, s.max as int) as u16
}

/// Whether the slider at `i` is the first one with this code.
pub open spec fn is_slider(sliders: Seq<Slider>, code: u8, i: int) -> bool {
    &&& 0 <= i < sliders.len()
    &&& sliders[i].code == code
    &&& forall|j: int| 0 <= j < i ==> (#[trigger] sliders[j]).code != code
}

/// Where the first slider with this code stands.
pub open spec fn slider_at(sliders: Seq<Slider>, code: u8) -> Option<int> {
    if exists|i: int| is_slider(sliders, code, i) {
        Some(choose|i: int| is_slider(sliders, code, i))
    } else {
        None
    }
}

/// Whether the selector at `i` is the first one with this code.
pub open spec fn is_selector(selectors: Seq<Selector>, code: u8, i: int) -> bool {
    &&& 0 <= i < selectors.len()
    &&& selectors[i].code == code
    &&& forall|j: int| 0 <= j < i ==> (#[trigger] selectors[j]).code != code
}

/// Where the first selector with this code stands.
pub open spec fn selector_at(selectors: Seq<Selector>, code: u8) -> Option<int> {
    if exists|i: int| is_selector(selectors, code, i) {
        Some(choose|i: int| is_selector(selectors, code, i))
    } else {
        None
    }
}

/// The codes of all sliders and selectors.
pub open spec fn value_codes(sliders: Seq<Slider>, selectors: Seq<Selector>) -> Set<u8> {
    Set::new(
        |code: u8|
            (exists|i: int| 0 <= i < sliders.len() && (#[trigger] sliders[i]).code == code) || (
            exists|i: int| 0 <= i < selectors.len() && (#[trigger] selectors[i]).code == code),
    )
}

/// Readings by their codes; the last one with a code wins.
pub open spec fn readings_by_code(readings: Seq<FeatureReading>) -> Map<u8, FeatureReading>
    decreases readings.len(),
{
    if readings.len() == 0 {
        Map::empty()
    } else {
        readings_by_code(readings.drop_last()).insert(readings.last().code, readings.last())
    }
}

/// The codes of all the features, in order.
pub open spec fn feature_codes(caps: Capabilities) -> Seq<u8> {
    caps.features@.map_values(|f: VcpFeature| f.code)
}

/// Whether a reference points at a control.
pub open spec fn points_at(
    r: CtrlRef,
    sliders: Seq<Slider>,
    selectors: Seq<Selector>,
    actions: Seq<Action>,
) -> bool {
    match r.kind {
        CtrlKind::Slider => r.idx < sliders.len(),
        CtrlKind::Selector => r.idx < selectors.len(),
        CtrlKind::Action => r.idx < actions.len(),
    }
}

/// Whether every reference of an order points at a control.
pub open spec fn order_resolves(
    order: Seq<CtrlRef>,
    sliders: Seq<Slider>,
    selectors: Seq<Selector>,
    actions: Seq<Action>,
) -> bool {
    forall|i: int|
        0 <= i < order.len() ==> points_at(#[trigger] order[i], sliders, selectors, actions)
}

/// Whether a key says yes to a prompt.
pub open spec fn is_yes(code: KeyCode) -> bool {
    code == KeyCode::Char('y') || code == KeyCode::Char('Y')
}

/// Whether the controls of a probe hang together.
pub open spec fn probe_ok_wf(ok: ProbeOk) -> bool {
    order_resolves(ok.order@, ok.sliders@, ok.selectors@, ok.actions@)
}

/// Whether the controls that a message brings hang together.
pub open spec fn msg_wf(msg: Msg) -> bool {
    match msg {
        Msg::Probe(Ok(ok)) => probe_ok_wf(ok),
        Msg::CachedControls(ok) => probe_ok_wf(ok),
        _ => true,
    }
}

impl AppView {
    // ---- invariants ------------------------------------------------------------

    /// Whether the state hangs together: every control reference points at a
    /// control.
    pub open spec fn wf(self) -> bool {
        order_resolves(self.order, self.sliders, self.selectors, self.actions)
    }

    /// Whether the action that is asked about is there.
    pub open spec fn action_is_there(self) -> bool {
        self.confirming ==> self.confirm_action_idx < self.actions.len()
    }

    /// Whether the feature that a raw value is for is there.
    pub open spec fn feature_is_there(self) -> bool {
        self.raw_editing || self.raw_confirming ==> self.caps is Some ==> self.raw_cursor
            < self.caps->0.features@.len()
    }

    /// Whether what an open prompt is about is there.
    pub open spec fn prompts_wf(self) -> bool {
        self.action_is_there() && self.feature_is_there()
    }

    /// Whether a key can be handled: a yes needs what its prompt is about.
    pub open spec fn can_answer(self, key: KeyEvent) -> bool {
        is_yes(key.code) ==> self.action_is_there() && (!self.confirming && self.raw_confirming
            ==> self.feature_is_there())
    }

    /// Whether the current screen can be shown: a prompt on it needs what it is
    /// about.
    pub open spec fn can_draw(self) -> bool {
        match self.screen {
            Screen::Controls => self.action_is_there(),
            Screen::Raw => self.feature_is_there(),
            Screen::Picker => true,
        }
    }

    // ---- displays --------------------------------------------------------------

    /// The display that is being controlled.
    pub open spec fn current_display(self) -> Option<Display> {
        if self.displays.len() == 0 {
            None
        } else if self.selected < self.displays.len() {
            Some(self.displays[self.selected as int])
        } else {
            Some(self.displays[0])
        }
    }

    /// The number of the display that is being controlled.
    pub open spec fn display_num(self) -> i32 {
        match self.current_display() {
            Some(d) => d.number,
            None => 0,
        }
    }

    // ---- shared steps ----------------------------------------------------------

    /// With a further effect asked for.
    pub open spec fn with_effect(self, effect: Effect) -> AppView {
        AppView { effects: self.effects.push(effect), ..self }
    }

    /// With nothing left of what the Raw VCP screen knew.
    pub open spec fn raw_reset(self) -> AppView {
        AppView {
            raw_ready: false,
            raw_loading: false,
            raw_err: None,
            raw_readings: Map::empty(),
            raw_cursor: 0,
            raw_table_state: TableState { offset: 0, selected: None },
            raw_editing: false,
            raw_edit_input: Seq::empty(),
            raw_edit_err: Seq::empty(),
            raw_confirming: false,
            raw_writing: false,
            raw_write_err: None,
            ..self
        }
    }

    /// With nothing left of whatever was being controlled, on the Controls
    /// screen.
    pub open spec fn dropped(self) -> AppView {
        AppView {
            screen: Screen::Controls,
            caps: None,
            probe_err: None,
            sliders: Seq::empty(),
            selectors: Seq::empty(),
            actions: Seq::empty(),
            order: Seq::empty(),
            cursor: 0,
            op_err: None,
            pending: Set::empty(),
            confirming: false,
            ..self.raw_reset()
        }
    }

    /// Commits to a display and probes it; nothing happens where there is no
    /// such display.
    pub open spec fn select_display(self, idx: usize) -> Next {
        if idx < self.displays.len() {
            (
                AppView { selected: idx, display_chosen: true, probing: true, ..self.dropped() },
                Some(CmdView::Probe(self.displays[idx as int])),
            )
        } else {
            (self, None)
        }
    }

    /// Starts over with detection.
    pub open spec fn refreshed(self) -> AppView {
        AppView { loading: true, err: None, probing: false, ..self.dropped() }
    }

    /// Asks for a value to be written. The value on screen only changes once
    /// the write is confirmed.
    pub open spec fn asking(self, code: u8, value: u16) -> Next {
        (
            AppView { op_err: None, ..self },
            Some(CmdView::SetValue { display_num: self.display_num(), code, value }),
        )
    }

    /// Moves the focused slider or selector one step. Nothing happens where
    /// there is nothing to adjust: no control, an action, a slider at its
    /// bound, a selector with nowhere to go.
    pub open spec fn adjust(self, direction: int) -> Next {
        if self.cursor >= self.order.len() {
            (self, None)
        } else {
            let r = self.order[self.cursor as int];
            match r.kind {
                CtrlKind::Slider => {
                    let s = self.sliders[r.idx as int];
                    if slid(s, direction) == s.value {
                        (self, None)
                    } else {
                        self.asking(s.code, slid(s, direction))
                    }
                },
                CtrlKind::Selector => {
                    let s = self.selectors[r.idx as int];
                    let next = next_option(deep(s.options@), s.selected, direction);
                    if next == s.selected {
                        (self, None)
                    } else {
                        self.asking(s.code, next as u16)
                    }
                },
                CtrlKind::Action => (self, None),
            }
        }
    }

    /// Opens the prompt for an action.
    pub open spec fn prompting(self, idx: usize) -> AppView {
        AppView { confirming: true, confirm_action_idx: idx, op_err: None, ..self }
    }

    /// Asks for every declared code to be read.
    pub open spec fn scanning_raw(self) -> Next {
        match self.caps {
            Some(caps) => (
                AppView { raw_loading: true, ..self },
                Some(
                    CmdView::RawProbe {
                        display_num: self.display_num(),
                        codes: feature_codes(caps),
                    },
                ),
            ),
            None => (self, None),
        }
    }

    /// Back on the Controls screen.
    pub open spec fn back_to_controls(self) -> AppView {
        AppView { screen: Screen::Controls, ..self }.with_effect(Effect::Transition)
    }

    /// On the display picker, at the display that is being controlled; nothing
    /// happens where there is nothing to choose from.
    pub open spec fn picking(self) -> AppView {
        if self.displays.len() > 1 {
            AppView {
                screen: Screen::Picker,
                picker_cursor: self.selected,
                ..self
            }.with_effect(Effect::Transition)
        } else {
            self
        }
    }

    /// On the Raw VCP screen, which is scanned where that has not been done.
    pub open spec fn to_raw(self) -> Next {
        let raw = AppView { screen: Screen::Raw, ..self }.with_effect(Effect::Transition);
        if !self.raw_ready && !self.raw_loading {
            raw.scanning_raw()
        } else {
            (raw, None)
        }
    }

    /// With the focus moved by one control, up where `direction` is positive.
    pub open spec fn cursor_moved(self, direction: int) -> AppView {
        if self.order.len() > 0 {
            AppView { cursor: stepped(self.cursor, self.order.len(), direction), ..self }
        } else {
            self
        }
    }

    /// With the picker moved by one display, up where `direction` is positive.
    pub open spec fn picker_moved(self, direction: int) -> AppView {
        if self.displays.len() > 0 {
            AppView {
                picker_cursor: stepped(self.picker_cursor, self.displays.len(), direction),
                ..self
            }
        } else {
            self
        }
    }

    /// How many features are declared.
    pub open spec fn feature_count(self) -> nat {
        match self.caps {
            Some(caps) => caps.features@.len(),
            None => 0,
        }
    }

    /// With the focus moved by one feature, up where `direction` is positive.
    pub open spec fn raw_moved(self, direction: int) -> AppView {
        if self.feature_count() > 0 {
            AppView {
                raw_cursor: stepped(self.raw_cursor, self.feature_count(), direction),
                ..self
            }
        } else {
            self
        }
    }

    /// With a raw value to be entered for the focused feature; nothing happens
    /// where there is none, or while a scan runs.
    pub open spec fn editing(self) -> AppView {
        if self.feature_count() > 0 && !self.raw_loading {
            AppView {
                raw_editing: true,
                raw_edit_input: Seq::empty(),
                raw_edit_err: Seq::empty(),
                raw_write_err: None,
                ..self
            }
        } else {
            self
        }
    }

    /// With the prompt of the focused action open; nothing happens where the
    /// focus is on no action.
    pub open spec fn running_action(self) -> AppView {
        if self.cursor < self.order.len() && self.order[self.cursor as int].kind
            == CtrlKind::Action {
            self.prompting(self.order[self.cursor as int].idx)
        } else {
            self
        }
    }

    /// Starts over with detection, and forgets what is remembered of the display
    /// that is being controlled.
    pub open spec fn rescanning(self) -> Next {
        (
            self.refreshed(),
            Some(
                match self.current_display() {
                    Some(d) => CmdView::Rescan(d),
                    None => CmdView::Detect,
                },
            ),
        )
    }

    // ---- keys ------------------------------------------------------------------

    pub open spec fn quitting(self) -> Next {
        (AppView { should_quit: true, ..self }, None)
    }

    /// What a key does.
    pub open spec fn on_key(self, key: KeyEvent) -> Next {
        if key.code == KeyCode::Char('c') && key.ctrl {
            self.quitting()
        } else if self.confirming {
            self.on_key_confirming(key.code)
        } else if self.raw_confirming {
            self.on_key_raw_confirming(key.code)
        } else if self.raw_editing {
            self.on_key_raw_editing(key.code)
        } else {
            match self.screen {
                Screen::Picker => self.on_key_picker(key.code),
                Screen::Raw => self.on_key_raw(key.code),
                Screen::Controls => self.on_key_controls(key.code),
            }
        }
    }

    /// What a key does while an action waits to be confirmed.
    pub open spec fn on_key_confirming(self, code: KeyCode) -> Next {
        match code {
            KeyCode::Char('y') | KeyCode::Char('Y') => (
                AppView { confirming: false, op_err: None, ..self },
                Some(
                    CmdView::Action {
                        display_num: self.display_num(),
                        code: self.actions[self.confirm_action_idx as int].code,
                    },
                ),
            ),
            KeyCode::Char('n') | KeyCode::Char('N') | KeyCode::Esc => (
                AppView { confirming: false, ..self },
                None,
            ),
            KeyCode::Char('q') => self.quitting(),
            _ => (self, None),
        }
    }

    /// What a key does while a raw write waits to be confirmed.
    pub open spec fn on_key_raw_confirming(self, code: KeyCode) -> Next {
        match code {
            KeyCode::Char('y') | KeyCode::Char('Y') => match self.caps {
                Some(caps) => (
                    AppView {
                        raw_confirming: false,
                        raw_writing: true,
                        raw_write_err: None,
                        ..self
                    },
                    Some(
                        CmdView::RawSet {
                            display_num: self.display_num(),
                            code: caps.features@[self.raw_cursor as int].code,
                            value: self.raw_confirm_value,
                            permit_unknown: !caps.features@[self.raw_cursor as int].recognized,
                        },
                    ),
                ),
                None => (self, None),
            },
            KeyCode::Char('n') | KeyCode::Char('N') | KeyCode::Esc => (
                AppView { raw_confirming: false, ..self },
                None,
            ),
            KeyCode::Char('q') => self.quitting(),
            _ => (self, None),
        }
    }

    /// What a key does while a raw value is being entered. It never issues a
    /// command.
    pub open spec fn on_key_raw_editing(self, code: KeyCode) -> Next {
        match code {
            KeyCode::Esc => (
                AppView {
                    raw_editing: false,
                    raw_edit_input: Seq::empty(),
                    raw_edit_err: Seq::empty(),
                    ..self
                },
                None,
            ),
            KeyCode::Enter => match parsed(self.raw_edit_input, 10, u32::MAX as nat) {
                Some(v) => if v > 65535 {
                    (
                        AppView {
                            raw_edit_err: "Value must be between 0 and 65535."@,
                            ..self
                        },
                        None,
                    )
                } else {
                    (
                        AppView {
                            raw_editing: false,
                            raw_edit_err: Seq::empty(),
                            raw_confirming: true,
                            raw_confirm_value: v as u16,
                            ..self
                        },
                        None,
                    )
                },
                None => (AppView { raw_edit_err: "Enter a whole number."@, ..self }, None),
            },
            KeyCode::Backspace => (
                AppView {
                    raw_edit_input: if self.raw_edit_input.len() == 0 {
                        self.raw_edit_input
                    } else {
                        self.raw_edit_input.drop_last()
                    },
                    ..self
                },
                None,
            ),
            KeyCode::Char(c) => if is_digit(c, 10) && vstd::utf8::encode_utf8(
                self.raw_edit_input,
            ).len() < 5 {
                (
                    AppView {
                        raw_edit_input: self.raw_edit_input.push(c),
                        raw_edit_err: Seq::empty(),
                        ..self
                    },
                    None,
                )
            } else {
                (self, None)
            },
            _ => (self, None),
        }
    }

    /// What a key does on the display picker.
    pub open spec fn on_key_picker(self, code: KeyCode) -> Next {
        match code {
            KeyCode::Char('q') => self.quitting(),
            KeyCode::Esc => if self.display_chosen {
                (self.back_to_controls(), None)
            } else {
                (self, None)
            },
            KeyCode::Up | KeyCode::Char('k') => (self.picker_moved(1), None),
            KeyCode::Down | KeyCode::Char('j') => (self.picker_moved(-1), None),
            KeyCode::Enter => self.select_display(self.picker_cursor),
            _ => (self, None),
        }
    }

    /// With the focus of the Raw VCP screen moved by a page.
    pub open spec fn page_raw(self, direction: int) -> AppView {
        if self.feature_count() == 0 {
            self
        } else {
            let page = if self.raw_visible_rows == 0 {
                1
            } else {
                self.raw_visible_rows as int
            };
            AppView {
                raw_cursor: clamped(
                    self.raw_cursor + direction * page,
                    0,
                    self.feature_count() - 1,
                ) as usize,
                ..self
            }
        }
    }

    /// What a key does on the Raw VCP screen.
    pub open spec fn on_key_raw(self, code: KeyCode) -> Next {
        match code {
            KeyCode::Char('q') => self.quitting(),
            KeyCode::Esc | KeyCode::Char('v') => (self.back_to_controls(), None),
            KeyCode::Char('r') => self.scanning_raw(),
            KeyCode::Up | KeyCode::Char('k') => (self.raw_moved(1), None),
            KeyCode::Down | KeyCode::Char('j') => (self.raw_moved(-1), None),
            KeyCode::Char('f') | KeyCode::PageDown => (self.page_raw(1), None),
            KeyCode::Char('b') | KeyCode::PageUp => (self.page_raw(-1), None),
            KeyCode::Char('e') => (self.editing(), None),
            _ => (self, None),
        }
    }

    /// What a key does on the Controls screen.
    pub open spec fn on_key_controls(self, code: KeyCode) -> Next {
        match code {
            KeyCode::Char('q') => self.quitting(),
            KeyCode::Char('r') => (self.refreshed(), Some(CmdView::Detect)),
            KeyCode::Char('R') => self.rescanning(),
            KeyCode::Char('D') => (self.picking(), None),
            KeyCode::Char('v') => self.to_raw(),
            KeyCode::Up | KeyCode::Char('k') => (self.cursor_moved(1), None),
            KeyCode::Down | KeyCode::Char('j') => (self.cursor_moved(-1), None),
            KeyCode::Left | KeyCode::Char('h') => self.adjust(-1),
            KeyCode::Right | KeyCode::Char('l') => self.adjust(1),
            KeyCode::Enter => (self.running_action(), None),
            _ => (self, None),
        }
    }

    // ---- mouse -----------------------------------------------------------------

    /// What stands under a terminal row, as of the last render.
    pub open spec fn target_at(self, row: u16) -> Option<ClickTarget> {
        let idx = row - self.click_origin_row + self.click_scroll;
        if row >= self.click_origin_row && idx < self.click_targets.len() {
            self.click_targets[idx]
        } else {
            None
        }
    }

    /// The value that a terminal column stands for on a slider's row.
    pub open spec fn slider_value_at(self, s: Slider, col: u16) -> Option<u16> {
        if col >= self.click_origin_col {
            value_at(s.name@.len(), s.max, col - self.click_origin_col)
        } else {
            None
        }
    }

    /// What the mouse does. It does nothing while a prompt is open.
    pub open spec fn on_mouse(self, ev: MouseEvent) -> Next {
        if self.confirming || self.raw_confirming || self.raw_editing {
            (self, None)
        } else {
            match self.screen {
                Screen::Picker => self.on_mouse_picker(ev),
                Screen::Raw => self.on_mouse_raw(ev),
                Screen::Controls => self.on_mouse_controls(ev),
            }
        }
    }

    /// Points a slider at the value under the mouse. Nothing happens outside its
    /// bar, or where the value is the one it has.
    pub open spec fn pointing(self, s: Slider, col: u16) -> Next {
        match self.slider_value_at(s, col) {
            Some(value) => if value == s.value {
                (self, None)
            } else {
                self.asking(s.code, value)
            },
            None => (self, None),
        }
    }

    /// A click on a control focuses it. It also moves a selector on, opens the
    /// prompt of an action, and points a slider at the value under the mouse.
    pub open spec fn clicking(self, i: usize, col: u16) -> Next {
        let focused = AppView { cursor: i, ..self };
        if i >= self.order.len() {
            (focused, None)
        } else {
            let r = self.order[i as int];
            match r.kind {
                CtrlKind::Selector => focused.adjust(1),
                CtrlKind::Action => (focused.prompting(r.idx), None),
                CtrlKind::Slider => focused.pointing(self.sliders[r.idx as int], col),
            }
        }
    }

    /// Dragging over a slider points it at the value under the mouse; over
    /// anything else it does nothing.
    pub open spec fn dragging(self, i: usize, col: u16) -> Next {
        if i < self.order.len() && self.order[i as int].kind == CtrlKind::Slider {
            self.pointing(self.sliders[self.order[i as int].idx as int], col)
        } else {
            (self, None)
        }
    }

    /// What the mouse does on the Controls screen.
    pub open spec fn on_mouse_controls(self, ev: MouseEvent) -> Next {
        match ev.kind {
            MouseEventKind::Down(MouseButton::Left) => match self.target_at(ev.row) {
                None => (self, None),
                Some(ClickTarget::Display(i)) => if self.displays.len() > 1 && i != self.selected {
                    self.select_display(i)
                } else {
                    (self, None)
                },
                Some(ClickTarget::Order(i)) => self.clicking(i, ev.column),
            },
            MouseEventKind::Drag(MouseButton::Left) => match self.target_at(ev.row) {
                Some(ClickTarget::Order(i)) => self.dragging(i, ev.column),
                _ => (self, None),
            },
            MouseEventKind::ScrollUp => (
                AppView { cursor: stepped(self.cursor, self.order.len(), 1), ..self },
                None,
            ),
            MouseEventKind::ScrollDown => (
                AppView { cursor: stepped(self.cursor, self.order.len(), -1), ..self },
                None,
            ),
            _ => (self, None),
        }
    }

    /// What the mouse does on the display picker.
    pub open spec fn on_mouse_picker(self, ev: MouseEvent) -> Next {
        match ev.kind {
            MouseEventKind::Down(MouseButton::Left) => match self.target_at(ev.row) {
                Some(ClickTarget::Display(i)) => AppView {
                    picker_cursor: i,
                    ..self
                }.select_display(i),
                _ => (self, None),
            },
            MouseEventKind::ScrollUp => (
                AppView {
                    picker_cursor: stepped(self.picker_cursor, self.displays.len(), 1),
                    ..self
                },
                None,
            ),
            MouseEventKind::ScrollDown => (
                AppView {
                    picker_cursor: stepped(self.picker_cursor, self.displays.len(), -1),
                    ..self
                },
                None,
            ),
            _ => (self, None),
        }
    }

    /// The feature under a terminal row of the Raw VCP table: below its header
    /// row, and as far down as it is scrolled.
    pub open spec fn raw_row_at(self, row: u16) -> Option<usize> {
        let area = self.raw_table_area;
        let idx = self.raw_table_state.offset + (row - area.y - 1);
        if area.y < row < area.y + area.height && row < u16::MAX && idx < self.feature_count() {
            Some(idx as usize)
        } else {
            None
        }
    }

    /// What the mouse does on the Raw VCP screen.
    pub open spec fn on_mouse_raw(self, ev: MouseEvent) -> Next {
        match ev.kind {
            MouseEventKind::Down(MouseButton::Left) => match self.raw_row_at(ev.row) {
                Some(idx) => (AppView { raw_cursor: idx, ..self }, None),
                None => (self, None),
            },
            MouseEventKind::ScrollUp => (self.raw_moved(1), None),
            MouseEventKind::ScrollDown => (self.raw_moved(-1), None),
            _ => (self, None),
        }
    }

    // ---- messages --------------------------------------------------------------

    /// With the controls of a probe, and the codes that are still unconfirmed.
    pub open spec fn with_controls(self, ok: ProbeOk, pending: Set<u8>) -> AppView {
        AppView {
            probing: false,
            caps: Some(ok.caps),
            probe_err: None,
            sliders: ok.sliders@,
            selectors: ok.selectors@,
            actions: ok.actions@,
            order: ok.order@,
            cursor: 0,
            pending,
            ..self
        }.with_effect(Effect::Entrance)
    }

    /// With a confirmed value. A slider takes it whole, a selector its low byte.
    pub open spec fn with_value(self, code: u8, value: u16) -> AppView {
        match slider_at(self.sliders, code) {
            Some(i) => AppView {
                sliders: self.sliders.update(i, Slider { value, ..self.sliders[i] }),
                ..self
            },
            None => match selector_at(self.selectors, code) {
                Some(i) => AppView {
                    selectors: self.selectors.update(
                        i,
                        Selector { selected: value as u8, ..self.selectors[i] },
                    ),
                    ..self
                },
                None => self,
            },
        }
    }

    /// With what a live reading says of a control. A slider takes only a
    /// continuous reading, and a selector none that is generic: its value was
    /// never parsed.
    pub open spec fn with_reading(self, code: u8, r: FeatureReading) -> AppView {
        match slider_at(self.sliders, code) {
            Some(i) => if r.continuous {
                AppView {
                    sliders: self.sliders.update(
                        i,
                        Slider { value: r.current, max: r.max, ..self.sliders[i] },
                    ),
                    ..self
                }
            } else {
                self
            },
            None => match selector_at(self.selectors, code) {
                Some(i) => if r.generic {
                    self
                } else {
                    AppView {
                        selectors: self.selectors.update(
                            i,
                            Selector { selected: r.current as u8, ..self.selectors[i] },
                        ),
                        ..self
                    }
                },
                None => self,
            },
        }
    }

    /// What found displays lead to: with more than one and none chosen yet the
    /// picker asks; else the chosen one, or the first, is probed.
    pub open spec fn with_displays(self, displays: Seq<Display>) -> Next {
        let found = AppView { loading: false, displays, err: None, ..self };
        if displays.len() == 0 {
            (found, None)
        } else if !self.display_chosen && displays.len() > 1 {
            (AppView { screen: Screen::Picker, picker_cursor: 0, ..found }, None)
        } else {
            found.probing_selected()
        }
    }

    /// Probes the chosen display, or the first one where there is no such
    /// display any more.
    pub open spec fn probing_selected(self) -> Next {
        let selected: usize = if self.selected < self.displays.len() {
            self.selected
        } else {
            0
        };
        (
            AppView { selected, display_chosen: true, probing: true, ..self },
            Some(CmdView::Probe(self.displays[selected as int])),
        )
    }

    /// With a new error of a control.
    pub open spec fn with_op_err(self, e: BackendError) -> AppView {
        AppView { op_err: Some(e.deep_view().text()), ..self }.with_effect(Effect::Error)
    }

    /// What detection leads to.
    pub open spec fn on_detect(self, result: Result<Vec<Display>, BackendError>) -> Next {
        match result {
            Ok(displays) => self.with_displays(displays@),
            Err(e) => (
                AppView { loading: false, err: Some(e.deep_view().text()), ..self }.with_effect(
                    Effect::Error,
                ),
                None,
            ),
        }
    }

    /// What a fresh scan leads to: its values are live already.
    pub open spec fn on_probe(self, result: Result<ProbeOk, BackendError>) -> AppView {
        match result {
            Ok(ok) => self.with_controls(ok, Set::empty()),
            Err(e) => AppView {
                probing: false,
                probe_err: Some(e.deep_view().text()),
                ..self
            }.with_effect(Effect::Error),
        }
    }

    /// What a live reading of one control leads to. Where it failed, the value
    /// that is shown stays.
    pub open spec fn on_live_value(
        self,
        code: u8,
        result: Result<FeatureReading, BackendError>,
    ) -> AppView {
        let confirmed = AppView { pending: self.pending.remove(code), ..self };
        match result {
            Ok(r) => if r.readable {
                confirmed.with_reading(code, r)
            } else {
                confirmed
            },
            Err(_) => confirmed,
        }
    }

    /// What a write of one control leads to. Where it failed, the value that is
    /// shown stays.
    pub open spec fn on_set(
        self,
        code: u8,
        value: u16,
        result: Result<(), BackendError>,
    ) -> AppView {
        match result {
            Ok(_) => AppView { op_err: None, ..self }.with_value(code, value),
            Err(e) => self.with_op_err(e),
        }
    }

    /// What a scan of every code leads to.
    pub open spec fn on_raw_probe(
        self,
        result: Result<Vec<FeatureReading>, BackendError>,
    ) -> AppView {
        match result {
            Ok(readings) => AppView {
                raw_loading: false,
                raw_err: None,
                raw_ready: true,
                raw_readings: readings_by_code(readings@),
                raw_cursor: 0,
                raw_table_state: TableState { offset: 0, selected: None },
                ..self
            },
            Err(e) => AppView {
                raw_loading: false,
                raw_err: Some(e.deep_view().text()),
                ..self
            }.with_effect(Effect::Error),
        }
    }

    /// What a raw write leads to: the code is read again.
    pub open spec fn on_raw_set(self, code: u8, result: Result<(), BackendError>) -> Next {
        match result {
            Ok(_) => (
                AppView { raw_writing: false, raw_write_err: None, ..self },
                Some(CmdView::RawSingleProbe { display_num: self.display_num(), code }),
            ),
            Err(e) => (
                AppView {
                    raw_writing: false,
                    raw_write_err: Some(e.deep_view().text()),
                    ..self
                }.with_effect(Effect::Error),
                None,
            ),
        }
    }

    /// What a message does.
    pub open spec fn on_msg(self, msg: Msg) -> Next {
        match msg {
            Msg::Detect(result) => self.on_detect(result),
            Msg::Probe(result) => (self.on_probe(result), None),
            Msg::CachedControls(ok) => (
                self.with_controls(ok, value_codes(ok.sliders@, ok.selectors@)),
                None,
            ),
            Msg::LiveValue { code, result } => (self.on_live_value(code, result), None),
            Msg::SetValue { code, value, result } => (self.on_set(code, value, result), None),
            Msg::ActionDone { result } => match result {
                Ok(_) => (AppView { op_err: None, ..self }, None),
                Err(e) => (self.with_op_err(e), None),
            },
            Msg::RawProbe(result) => (self.on_raw_probe(result), None),
            Msg::RawSingleProbe { code, result } => match result {
                Ok(r) => (
                    AppView { raw_readings: self.raw_readings.insert(code, r), ..self },
                    None,
                ),
                Err(_) => (self, None),
            },
            Msg::RawSet { code, result } => self.on_raw_set(code, result),
        }
    }
}

} // verus!
