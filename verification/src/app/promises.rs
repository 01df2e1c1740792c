//! What each key, mouse event and message is for.

use vstd::prelude::*;

use crate::app::{AppView, ClickTarget, CmdView, Screen};
use crate::backend::BackendError;
use crate::commands::{CtrlKind, Msg, ProbeOk};
use crate::components::{law_next_is_the_neighbour, value_at, Selector, Slider};
use crate::effects::Effect;
use crate::input::{KeyCode, KeyEvent, MouseButton, MouseEvent, MouseEventKind};
use crate::numbers::{decimal, law_numbers_read_back};
use crate::text::deep;
use crate::vcp::{Display, FeatureReading};

verus! {

// ---- which display, which control ----------------------------------------------

/// Whether `n` is the number of the display that is being controlled: the chosen
/// one, or the first where there is no such display; 0 where there is none.
pub open spec fn is_controlled(a: AppView, n: i32) -> bool {
    &&& a.selected < a.displays.len() ==> n == a.displays[a.selected as int].number
    &&& a.selected >= a.displays.len() && a.displays.len() > 0 ==> n == a.displays[0].number
    &&& a.displays.len() == 0 ==> n == 0
}

/// Whether a command that is for one display is for the one being controlled.
pub open spec fn for_controlled(a: AppView, cmd: Option<CmdView>) -> bool {
    match cmd {
        Some(CmdView::SetValue { display_num, .. }) => is_controlled(a, display_num),
        Some(CmdView::Action { display_num, .. }) => is_controlled(a, display_num),
        Some(CmdView::RawProbe { display_num, .. }) => is_controlled(a, display_num),
        Some(CmdView::RawSingleProbe { display_num, .. }) => is_controlled(a, display_num),
        Some(CmdView::RawSet { display_num, .. }) => is_controlled(a, display_num),
        _ => true,
    }
}

/// Whatever is read or written goes to the display that is being controlled.
#[verifier::rlimit(60)]
pub proof fn law_commands_are_for_the_controlled_display(
    a: AppView,
    key: KeyEvent,
    ev: MouseEvent,
    msg: Msg,
)
    ensures
        for_controlled(a, a.on_key(key).1),
        for_controlled(a, a.on_mouse(ev).1),
        for_controlled(a, a.on_msg(msg).1),
        is_controlled(a, a.display_num()),
        a.current_display() matches Some(d) ==> d.number == a.display_num(),
        a.current_display() is None <==> a.displays.len() == 0,
{
}

/// Whether no prompt is open.
pub open spec fn unprompted(a: AppView) -> bool {
    !a.confirming && !a.raw_confirming && !a.raw_editing
}

/// Whether the focus of the Controls screen is on a control of this kind, at
/// this place among those of its kind.
pub open spec fn focus_on(a: AppView, kind: CtrlKind, idx: int) -> bool {
    &&& a.cursor < a.order.len()
    &&& a.order[a.cursor as int].kind == kind
    &&& a.order[a.cursor as int].idx == idx
}

/// Whether a key is the control-C that always quits.
pub open spec fn is_interrupt(key: KeyEvent) -> bool {
    key.code == KeyCode::Char('c') && key.ctrl
}

// ---- actions -------------------------------------------------------------------

/// Running an action runs the one that its prompt is about, and a yes to the
/// prompt always does. The prompt is closed by that.
pub proof fn law_the_confirmed_action_is_run(a: AppView, key: KeyEvent)
    ensures
        a.on_key(key).1 matches Some(CmdView::Action { display_num, code }) ==> a.confirming && code
            == a.actions[a.confirm_action_idx as int].code && is_controlled(a, display_num)
            && !a.on_key(key).0.confirming,
        a.confirming && (key.code == KeyCode::Char('y') || key.code == KeyCode::Char('Y'))
            ==> a.on_key(key).1 is Some && a.on_key(key).1->0 is Action,
{
}

/// A no closes a prompt, runs and writes nothing, and changes nothing else.
pub proof fn law_no_only_closes_the_prompt(a: AppView, key: KeyEvent)
    requires
        a.confirming || a.raw_confirming,
        key.code == KeyCode::Char('n') || key.code == KeyCode::Char('N') || key.code
            == KeyCode::Esc,
    ensures
        a.on_key(key).1 is None,
        a.confirming ==> a.on_key(key).0 == (AppView { confirming: false, ..a }),
        !a.confirming ==> a.on_key(key).0 == (AppView { raw_confirming: false, ..a }),
{
}

/// Enter opens the prompt of the focused action, and of no other control; no other
/// key opens one.
pub proof fn law_enter_asks_about_the_focused_action(a: AppView, key: KeyEvent)
    ensures
        a.on_key(key).0.confirming && !a.confirming ==> {
            &&& key.code == KeyCode::Enter && unprompted(a) && a.screen == Screen::Controls
            &&& focus_on(a, CtrlKind::Action, a.on_key(key).0.confirm_action_idx as int)
        },
        key.code == KeyCode::Enter && unprompted(a) && a.screen == Screen::Controls && a.cursor
            < a.order.len() && a.order[a.cursor as int].kind == CtrlKind::Action
            ==> a.on_key(key).0.confirming && a.on_key(key).1 is None,
        a.on_key(key).0.confirming && a.confirming ==> a.on_key(key).0.confirm_action_idx
            == a.confirm_action_idx,
        a.on_key(key).0.actions == a.actions || !a.on_key(key).0.confirming,
{
}

// ---- adjusting -----------------------------------------------------------------

/// Moving a slider asks for one step more or less, or for the end of its range
/// where that is nearer, for its own code. Nothing is asked where it is there
/// already.
pub proof fn law_arrows_step_the_focused_slider(a: AppView, key: KeyEvent, idx: int)
    requires
        unprompted(a) && a.screen == Screen::Controls && !is_interrupt(key),
        focus_on(a, CtrlKind::Slider, idx),
        0 <= idx < a.sliders.len(),
        a.sliders[idx].value <= a.sliders[idx].max && a.sliders[idx].step > 0,
    ensures
        ({
            let s = a.sliders[idx];
            let cmd = a.on_key(key).1;
            &&& key.code == KeyCode::Right || key.code == KeyCode::Char('l') ==> if s.value
                == s.max {
                cmd is None && a.on_key(key).0 == a
            } else {
                &&& cmd matches Some(CmdView::SetValue { code, value, .. })
                &&& code == s.code
                &&& s.value < value <= s.max
                &&& value == s.value + s.step || value == s.max && s.max < s.value + s.step
                &&& a.on_key(key).0 == (AppView { op_err: None, ..a })
            }
            &&& key.code == KeyCode::Left || key.code == KeyCode::Char('h') ==> if s.value == 0 {
                cmd is None && a.on_key(key).0 == a
            } else {
                &&& cmd matches Some(CmdView::SetValue { code, value, .. })
                &&& code == s.code
                &&& value < s.value
                &&& value + s.step == s.value || value == 0 && s.value < s.step
                &&& a.on_key(key).0 == (AppView { op_err: None, ..a })
            }
        }),
{
}

/// Moving a selector asks for the option next to the one it stands at, round the
/// end, for its own code; for the first option where it stands at none.
pub proof fn law_arrows_turn_the_focused_selector(a: AppView, key: KeyEvent, idx: int, i: int)
    requires
        unprompted(a) && a.screen == Screen::Controls && !is_interrupt(key),
        focus_on(a, CtrlKind::Selector, idx),
        0 <= idx < a.selectors.len(),
        0 <= i < a.selectors[idx].options@.len(),
        a.selectors[idx].options@[i].code == a.selectors[idx].selected,
        forall|j: int|
            0 <= j < i ==> (#[trigger] a.selectors[idx].options@[j]).code
                != a.selectors[idx].selected,
    ensures
        ({
            let s = a.selectors[idx];
            let cmd = a.on_key(key).1;
            let after = s.options@[if i + 1 < s.options@.len() {
                i + 1
            } else {
                0
            }].code;
            let before = s.options@[if i > 0 {
                i - 1
            } else {
                s.options@.len() - 1
            }].code;
            &&& key.code == KeyCode::Right || key.code == KeyCode::Char('l') ==> if after
                == s.selected {
                cmd is None
            } else {
                cmd matches Some(CmdView::SetValue { code, value, .. }) && code == s.code && value
                    == after
            }
            &&& key.code == KeyCode::Left || key.code == KeyCode::Char('h') ==> if before
                == s.selected {
                cmd is None
            } else {
                cmd matches Some(CmdView::SetValue { code, value, .. }) && code == s.code && value
                    == before
            }
        }),
{
    let s = a.selectors[idx];
    law_next_is_the_neighbour(deep(s.options@), s.selected, i);
}

/// A key only ever asks for a value of the focused control, which is a slider or
/// a selector.
pub proof fn law_only_the_focused_control_is_adjusted(a: AppView, key: KeyEvent)
    ensures
        a.on_key(key).1 matches Some(CmdView::SetValue { code, .. }) ==> {
            let r = a.order[a.cursor as int];
            &&& unprompted(a) && a.screen == Screen::Controls && a.cursor < a.order.len()
            &&& r.kind == CtrlKind::Slider && code == a.sliders[r.idx as int].code || r.kind
                == CtrlKind::Selector && code == a.selectors[r.idx as int].code
        },
{
}

// ---- moving --------------------------------------------------------------------

/// Whether `to` is one place further down a list of `len` than `from`, or the top
/// after the bottom.
pub open spec fn is_below(from: usize, to: usize, len: nat) -> bool {
    from < len && to < len && (to == from + 1 || from + 1 == len && to == 0)
}

/// Down moves a focus to what stands below it and up to what stands above it,
/// round the ends. Nothing else changes.
pub proof fn law_arrows_move_the_focus(a: AppView, key: KeyEvent)
    requires
        unprompted(a) && !is_interrupt(key),
        a.order.len() <= usize::MAX && a.displays.len() <= usize::MAX,
        a.feature_count() <= usize::MAX,
    ensures
        ({
            let b = a.on_key(key).0;
            let down = key.code == KeyCode::Down || key.code == KeyCode::Char('j');
            let up = key.code == KeyCode::Up || key.code == KeyCode::Char('k');
            &&& down || up ==> a.on_key(key).1 is None
            &&& a.screen == Screen::Controls && a.cursor < a.order.len() ==> {
                &&& down ==> is_below(a.cursor, b.cursor, a.order.len())
                &&& up ==> is_below(b.cursor, a.cursor, a.order.len())
                &&& down || up ==> b == (AppView { cursor: b.cursor, ..a })
            }
            &&& a.screen == Screen::Picker && a.picker_cursor < a.displays.len() ==> {
                &&& down ==> is_below(a.picker_cursor, b.picker_cursor, a.displays.len())
                &&& up ==> is_below(b.picker_cursor, a.picker_cursor, a.displays.len())
                &&& down || up ==> b == (AppView { picker_cursor: b.picker_cursor, ..a })
            }
            &&& a.screen == Screen::Raw && a.caps is Some && a.raw_cursor
                < a.caps->0.features@.len() ==> {
                &&& down ==> is_below(a.raw_cursor, b.raw_cursor, a.caps->0.features@.len())
                &&& up ==> is_below(b.raw_cursor, a.raw_cursor, a.caps->0.features@.len())
                &&& down || up ==> b == (AppView { raw_cursor: b.raw_cursor, ..a })
            }
        }),
{
    lemma_down(a.cursor, a.order.len());
    lemma_down(a.picker_cursor, a.displays.len());
    lemma_down(a.raw_cursor, a.feature_count());
}

proof fn lemma_down(cursor: usize, len: nat)
    requires
        len <= usize::MAX,
    ensures
        cursor + 1 < len ==> crate::app::down(cursor, len) == cursor + 1,
        cursor + 1 == len ==> crate::app::down(cursor, len) == 0,
{
    if cursor + 1 < len {
        vstd::arithmetic::div_mod::lemma_small_mod((cursor + 1) as nat, len);
    } else if cursor + 1 == len {
        vstd::arithmetic::div_mod::lemma_mod_self_0(len as int);
    }
}

/// Scrolling moves a focus the same way.
pub proof fn law_wheel_moves_the_focus(a: AppView, ev: MouseEvent)
    requires
        unprompted(a),
        a.order.len() <= usize::MAX && a.displays.len() <= usize::MAX,
        a.feature_count() <= usize::MAX,
    ensures
        ({
            let b = a.on_mouse(ev).0;
            let down = ev.kind == MouseEventKind::ScrollDown;
            let up = ev.kind == MouseEventKind::ScrollUp;
            &&& a.screen == Screen::Controls && a.cursor < a.order.len() ==> {
                &&& down ==> is_below(a.cursor, b.cursor, a.order.len())
                &&& up ==> is_below(b.cursor, a.cursor, a.order.len())
            }
            &&& a.screen == Screen::Picker && a.picker_cursor < a.displays.len() ==> {
                &&& down ==> is_below(a.picker_cursor, b.picker_cursor, a.displays.len())
                &&& up ==> is_below(b.picker_cursor, a.picker_cursor, a.displays.len())
            }
            &&& a.screen == Screen::Raw && a.caps is Some && a.raw_cursor
                < a.caps->0.features@.len() ==> {
                &&& down ==> is_below(a.raw_cursor, b.raw_cursor, a.caps->0.features@.len())
                &&& up ==> is_below(b.raw_cursor, a.raw_cursor, a.caps->0.features@.len())
            }
        }),
{
    lemma_down(a.cursor, a.order.len());
    lemma_down(a.picker_cursor, a.displays.len());
    lemma_down(a.raw_cursor, a.feature_count());
}

/// A page moves the focus by as many features as the table has room for, at least
/// by one, and stops at the ends.
pub proof fn law_pages_move_by_what_fits(a: AppView, key: KeyEvent)
    requires
        unprompted(a) && a.screen == Screen::Raw,
        a.caps is Some && a.raw_cursor < a.caps->0.features@.len() <= usize::MAX,
    ensures
        ({
            let b = a.on_key(key).0;
            let last = a.caps->0.features@.len() - 1;
            let page = if a.raw_visible_rows == 0 {
                1
            } else {
                a.raw_visible_rows as int
            };
            &&& key.code == KeyCode::PageDown || key.code == KeyCode::Char('f') ==> {
                &&& b.raw_cursor == a.raw_cursor + page || b.raw_cursor == last && last
                    < a.raw_cursor + page
                &&& b == (AppView { raw_cursor: b.raw_cursor, ..a }) && a.on_key(key).1 is None
            }
            &&& key.code == KeyCode::PageUp || key.code == KeyCode::Char('b') ==> {
                &&& b.raw_cursor + page == a.raw_cursor || b.raw_cursor == 0 && a.raw_cursor < page
                &&& b == (AppView { raw_cursor: b.raw_cursor, ..a }) && a.on_key(key).1 is None
            }
        }),
{
    let page: int = if a.raw_visible_rows == 0 {
        1
    } else {
        a.raw_visible_rows as int
    };
    assert(1 * page == page);
    assert(-1 * page == -page);
}

// ---- screens -------------------------------------------------------------------

/// Where the keys that switch screens lead, and that a switch asks for one
/// transition and leaves all else alone.
pub proof fn law_screens_are_switched(a: AppView, key: KeyEvent)
    requires
        unprompted(a) && !is_interrupt(key),
    ensures
        ({
            let b = a.on_key(key).0;
            let there = |to: Screen|
                AppView { screen: to, effects: a.effects.push(Effect::Transition), ..a };
            &&& a.screen == Screen::Raw && (key.code == KeyCode::Esc || key.code == KeyCode::Char(
                'v',
            )) ==> b == there(Screen::Controls) && a.on_key(key).1 is None
            &&& a.screen == Screen::Picker && key.code == KeyCode::Esc ==> a.on_key(key).1 is None
                && b == (if a.display_chosen {
                there(Screen::Controls)
            } else {
                a
            })
            &&& a.screen == Screen::Controls && key.code == KeyCode::Char('D') ==> a.on_key(
                key,
            ).1 is None && b == (if a.displays.len() > 1 {
                AppView { picker_cursor: a.selected, ..there(Screen::Picker) }
            } else {
                a
            })
            &&& a.screen == Screen::Controls && key.code == KeyCode::Char('v') ==> b == (AppView {
                raw_loading: b.raw_loading,
                ..there(Screen::Raw)
            })
        }),
{
}

/// A display is chosen on the picker by Enter: it is the focused one that is
/// probed, and nothing of what was being controlled before is left.
pub proof fn law_enter_chooses_the_focused_display(a: AppView, key: KeyEvent)
    requires
        unprompted(a) && a.screen == Screen::Picker && key.code == KeyCode::Enter,
        a.picker_cursor < a.displays.len(),
    ensures
        ({
            let b = a.on_key(key).0;
            &&& a.on_key(key).1 == Some(CmdView::Probe(a.displays[a.picker_cursor as int]))
            &&& b.selected == a.picker_cursor && b.display_chosen && b.probing
            &&& b.screen == Screen::Controls && b.displays == a.displays
            &&& b.caps is None && b.order.len() == 0 && b.sliders.len() == 0
            &&& b.selectors.len() == 0 && b.actions.len() == 0 && !b.raw_ready
        }),
{
}

/// A refresh detects the displays anew, and a rescan also drops what is remembered
/// of the display that is being controlled. Either leaves no control on screen
/// meanwhile, and keeps the choice of a display.
pub proof fn law_refresh_detects_anew(a: AppView, key: KeyEvent)
    requires
        unprompted(a) && a.screen == Screen::Controls,
        key.code == KeyCode::Char('r') || key.code == KeyCode::Char('R'),
    ensures
        ({
            let b = a.on_key(key).0;
            let cmd = a.on_key(key).1;
            &&& key.code == KeyCode::Char('r') ==> cmd == Some(CmdView::Detect)
            &&& key.code == KeyCode::Char('R') ==> if a.displays.len() == 0 {
                cmd == Some(CmdView::Detect)
            } else if a.selected < a.displays.len() {
                cmd == Some(CmdView::Rescan(a.displays[a.selected as int]))
            } else {
                cmd == Some(CmdView::Rescan(a.displays[0]))
            }
            &&& b.loading && b.err is None && !b.probing && b.caps is None
            &&& b.order.len() == 0 && b.sliders.len() == 0 && b.selectors.len() == 0
            &&& b.actions.len() == 0 && b.cursor == 0 && b.op_err is None
            &&& b.pending == Set::<u8>::empty() && b.probe_err is None
            &&& !b.raw_ready && b.raw_readings == Map::<u8, FeatureReading>::empty()
            &&& b.selected == a.selected && b.display_chosen == a.display_chosen
            &&& b.screen == Screen::Controls && !b.should_quit == !a.should_quit
        }),
{
}

/// Quitting is what `q` does, but while a value is being entered, and what
/// control-C does; no other key quits, and none takes it back.
pub proof fn law_only_quitting_keys_quit(a: AppView, key: KeyEvent)
    ensures
        a.on_key(key).0.should_quit <==> a.should_quit || is_interrupt(key) || key.code
            == KeyCode::Char('q') && (a.confirming || a.raw_confirming || !a.raw_editing),
        key.code == KeyCode::Char('q') && (a.confirming || a.raw_confirming || !a.raw_editing)
            ==> a.on_key(key).0 == (AppView { should_quit: true, ..a }) && a.on_key(key).1 is None,
{
}

/// The keys that mean something on a screen while no prompt is open.
pub open spec fn is_bound(screen: Screen, code: KeyCode) -> bool {
    let moves = code == KeyCode::Up || code == KeyCode::Down || code == KeyCode::Char('k') || code
        == KeyCode::Char('j');
    let quits = code == KeyCode::Char('q');
    match screen {
        Screen::Controls => moves || quits || code == KeyCode::Left || code == KeyCode::Right
            || code == KeyCode::Char('h') || code == KeyCode::Char('l') || code == KeyCode::Enter
            || code == KeyCode::Char('v') || code == KeyCode::Char('r') || code
            == KeyCode::Char('R') || code == KeyCode::Char('D'),
        Screen::Picker => moves || quits || code == KeyCode::Enter || code == KeyCode::Esc,
        Screen::Raw => moves || quits || code == KeyCode::PageUp || code == KeyCode::PageDown
            || code == KeyCode::Char('f') || code == KeyCode::Char('b') || code == KeyCode::Char(
            'e',
        ) || code == KeyCode::Char('r') || code == KeyCode::Char('v') || code == KeyCode::Esc,
    }
}

/// A key that means nothing on a screen does nothing there.
pub proof fn law_other_keys_do_nothing(a: AppView, key: KeyEvent)
    requires
        unprompted(a) && !is_interrupt(key) && !is_bound(a.screen, key.code),
    ensures
        a.on_key(key).0 == a && a.on_key(key).1 is None,
{
}

// ---- the Raw VCP screen --------------------------------------------------------

/// A scan of the Raw VCP screen reads every declared code, recognized or not, in
/// order. It is started by going to the screen for the first time, and by asking
/// for it there.
#[verifier::rlimit(40)]
pub proof fn law_raw_scan_reads_every_declared_code(a: AppView, key: KeyEvent)
    ensures
        a.on_key(key).1 matches Some(CmdView::RawProbe { display_num, codes }) ==> {
            &&& a.caps is Some && is_controlled(a, display_num)
            &&& codes.len() == a.caps->0.features@.len()
            &&& forall|i: int|
                0 <= i < codes.len() ==> #[trigger] codes[i] == a.caps->0.features@[i].code
            &&& a.on_key(key).0.raw_loading
        },
        unprompted(a) && a.caps is Some && a.screen == Screen::Controls && key.code
            == KeyCode::Char('v') ==> (a.on_key(key).1 is Some <==> !a.raw_ready
            && !a.raw_loading),
        unprompted(a) && a.caps is Some && a.screen == Screen::Raw && key.code == KeyCode::Char('r')
            ==> a.on_key(key).1 is Some && a.on_key(key).1->0 is RawProbe,
        unprompted(a) && a.caps is None && (key.code == KeyCode::Char('v') || a.screen
            == Screen::Raw) ==> a.on_key(key).1 is None,
{
}

/// Editing starts with nothing entered, wherever there is a feature to edit and no
/// scan is running.
pub proof fn law_editing_starts_empty(a: AppView, key: KeyEvent)
    requires
        unprompted(a) && a.screen == Screen::Raw && key.code == KeyCode::Char('e'),
    ensures
        ({
            let b = a.on_key(key).0;
            &&& a.on_key(key).1 is None
            &&& if a.caps is Some && a.caps->0.features@.len() > 0 && !a.raw_loading {
                b.raw_editing && b.raw_edit_input.len() == 0 && b.raw_edit_err.len() == 0
                    && b.raw_write_err is None && b.raw_cursor == a.raw_cursor && b.caps == a.caps
                    && b.screen == a.screen
            } else {
                b == a
            }
        }),
{
}

/// What is entered grows at its end by digits, as long as there is room, and
/// shrinks there by backspace. Escape gives it up.
pub proof fn law_digits_are_entered_in_order(a: AppView, key: KeyEvent)
    requires
        a.raw_editing && !a.confirming && !a.raw_confirming && !is_interrupt(key),
    ensures
        ({
            let b = a.on_key(key).0;
            &&& key.code matches KeyCode::Char(c) ==> if '0' <= c <= '9'
                && vstd::utf8::encode_utf8(a.raw_edit_input).len() < 5 {
                b == (AppView {
                    raw_edit_input: a.raw_edit_input.push(c),
                    raw_edit_err: Seq::empty(),
                    ..a
                })
            } else {
                b == a
            }
            &&& key.code == KeyCode::Backspace && a.raw_edit_input.len() > 0 ==> b == (AppView {
                raw_edit_input: a.raw_edit_input.drop_last(),
                ..a
            })
            &&& key.code == KeyCode::Esc ==> !b.raw_editing && !b.raw_confirming
                && b.raw_edit_input.len() == 0 && b.raw_cursor == a.raw_cursor
        }),
{
}

/// A number that was entered goes to the prompt as that number, where it fits the
/// two bytes of a value. Else, and where nothing was entered, editing goes on and
/// says why.
pub proof fn law_the_entered_number_is_asked_about(a: AppView, key: KeyEvent, n: nat)
    requires
        a.raw_editing && !a.confirming && !a.raw_confirming && key.code == KeyCode::Enter,
        a.raw_edit_input == decimal(n) || a.raw_edit_input.len() == 0,
        n <= 99_999,
    ensures
        ({
            let b = a.on_key(key).0;
            if a.raw_edit_input.len() > 0 && n <= 65535 {
                b.raw_confirming && !b.raw_editing && b.raw_confirm_value == n && b.raw_cursor
                    == a.raw_cursor && b.caps == a.caps
            } else {
                b.raw_editing && !b.raw_confirming && b.raw_edit_err.len() > 0
                    && b.raw_edit_input == a.raw_edit_input
            }
        }),
{
    law_numbers_read_back(n, 10, false, u32::MAX as nat);
    reveal_strlit("Value must be between 0 and 65535.");
    reveal_strlit("Enter a whole number.");
}

/// A yes to the prompt of a raw write writes the value that the prompt is about to
/// the focused feature, and permits an unrecognized code exactly where that
/// feature is one. The write is then under way.
pub proof fn law_the_confirmed_value_is_written(a: AppView, key: KeyEvent)
    requires
        a.raw_confirming && !a.confirming && a.caps is Some,
        key.code == KeyCode::Char('y') || key.code == KeyCode::Char('Y'),
    ensures
        ({
            let f = a.caps->0.features@[a.raw_cursor as int];
            let b = a.on_key(key).0;
            &&& a.on_key(key).1 matches Some(
                CmdView::RawSet { display_num, code, value, permit_unknown },
            )
            &&& is_controlled(a, display_num) && code == f.code && value == a.raw_confirm_value
            &&& permit_unknown <==> !f.recognized
            &&& b.raw_writing && !b.raw_confirming && b.raw_write_err is None
            &&& b.raw_cursor == a.raw_cursor && b.caps == a.caps && b.raw_readings
                == a.raw_readings
        }),
{
}

// ---- the mouse -----------------------------------------------------------------

/// Whether the line under the pointer, as it was last drawn, means this target.
pub open spec fn points_to(a: AppView, ev: MouseEvent, target: Option<ClickTarget>) -> bool {
    let line = ev.row - a.click_origin_row + a.click_scroll;
    if ev.row < a.click_origin_row || line >= a.click_targets.len() {
        target is None
    } else {
        target == a.click_targets[line]
    }
}

/// A click on a control focuses it. On an action it also opens the prompt of that
/// action; it never runs one.
pub proof fn law_a_click_focuses_its_control(a: AppView, ev: MouseEvent, i: usize)
    requires
        unprompted(a) && a.screen == Screen::Controls,
        ev.kind == MouseEventKind::Down(MouseButton::Left),
        points_to(a, ev, Some(ClickTarget::Order(i))),
        i < a.order.len(),
    ensures
        ({
            let b = a.on_mouse(ev).0;
            let r = a.order[i as int];
            &&& b.cursor == i && b.screen == a.screen && b.order == a.order && b.pending
                == a.pending
            &&& r.kind == CtrlKind::Action ==> b.confirming && b.confirm_action_idx == r.idx
                && a.on_mouse(ev).1 is None
            &&& r.kind != CtrlKind::Action ==> !b.confirming
            &&& a.on_mouse(ev).1 matches Some(cmd) ==> cmd is SetValue
        }),
{
}

/// A click on a selector moves it on to the next option.
pub proof fn law_a_click_turns_its_selector(a: AppView, ev: MouseEvent, i: usize, k: int)
    requires
        unprompted(a) && a.screen == Screen::Controls,
        ev.kind == MouseEventKind::Down(MouseButton::Left),
        points_to(a, ev, Some(ClickTarget::Order(i))),
        i < a.order.len() && a.order[i as int].kind == CtrlKind::Selector,
        ({
            let s = a.selectors[a.order[i as int].idx as int];
            &&& 0 <= k < s.options@.len() && s.options@[k].code == s.selected
            &&& forall|j: int| 0 <= j < k ==> (#[trigger] s.options@[j]).code != s.selected
        }),
    ensures
        ({
            let s = a.selectors[a.order[i as int].idx as int];
            let after = s.options@[if k + 1 < s.options@.len() {
                k + 1
            } else {
                0
            }].code;
            if after == s.selected {
                a.on_mouse(ev).1 is None
            } else {
                a.on_mouse(ev).1 matches Some(CmdView::SetValue { code, value, .. }) && code
                    == s.code && value == after
            }
        }),
{
    let s = a.selectors[a.order[i as int].idx as int];
    law_next_is_the_neighbour(deep(s.options@), s.selected, k);
}

/// A click on the bar of a slider, or dragging over it, asks for the value that
/// the column under the pointer stands for, counted from where rows start; where
/// it has that value already, or beside the bar, for nothing.
pub proof fn law_pointing_asks_for_the_value_there(a: AppView, ev: MouseEvent, i: usize)
    requires
        unprompted(a) && a.screen == Screen::Controls,
        ev.kind == MouseEventKind::Down(MouseButton::Left) || ev.kind == MouseEventKind::Drag(
            MouseButton::Left,
        ),
        points_to(a, ev, Some(ClickTarget::Order(i))),
        i < a.order.len() && a.order[i as int].kind == CtrlKind::Slider,
    ensures
        ({
            let s = a.sliders[a.order[i as int].idx as int];
            let there = value_at(s.name@.len(), s.max, ev.column - a.click_origin_col);
            if ev.column >= a.click_origin_col && there is Some && there->0 != s.value {
                a.on_mouse(ev).1 matches Some(CmdView::SetValue { code, value, .. }) && code
                    == s.code && value == there->0
            } else {
                a.on_mouse(ev).1 is None
            }
        }),
{
}

/// The mouse only ever asks for a value of the control under the pointer: of a
/// slider by a click or by dragging over it, of a selector by a click.
pub proof fn law_the_mouse_adjusts_what_it_points_at(a: AppView, ev: MouseEvent)
    ensures
        a.on_mouse(ev).1 matches Some(CmdView::SetValue { code, value, .. }) ==> {
            &&& unprompted(a) && a.screen == Screen::Controls
            &&& exists|i: usize|
                i < a.order.len() && #[trigger] points_to(a, ev, Some(ClickTarget::Order(i))) && {
                    let r = a.order[i as int];
                    ||| r.kind == CtrlKind::Slider && code == a.sliders[r.idx as int].code && value
                        != a.sliders[r.idx as int].value && (ev.kind == MouseEventKind::Down(
                        MouseButton::Left,
                    ) || ev.kind == MouseEventKind::Drag(MouseButton::Left))
                    ||| r.kind == CtrlKind::Selector && code == a.selectors[r.idx as int].code
                        && ev.kind == MouseEventKind::Down(MouseButton::Left)
                }
        },
{
    if a.on_mouse(ev).1 is Some && a.on_mouse(ev).1->0 is SetValue {
        let line = ev.row - a.click_origin_row + a.click_scroll;
        let i = a.click_targets[line]->0->Order_0;
        assert(points_to(a, ev, Some(ClickTarget::Order(i))));
    }
}

/// Dragging moves no focus and touches nothing but sliders.
pub proof fn law_dragging_only_moves_sliders(a: AppView, ev: MouseEvent)
    requires
        ev.kind == MouseEventKind::Drag(MouseButton::Left),
    ensures
        a.on_mouse(ev).0 == a || a.on_mouse(ev).0 == (AppView { op_err: None, ..a })
            && a.on_mouse(ev).1 is Some,
        a.on_mouse(ev).1 matches Some(cmd) ==> cmd is SetValue,
{
}

/// A click on a display probes that display: always on the picker, and on the
/// Controls screen where it is another one than the one being controlled.
pub proof fn law_a_click_chooses_its_display(a: AppView, ev: MouseEvent, i: usize)
    requires
        unprompted(a) && a.screen != Screen::Raw,
        ev.kind == MouseEventKind::Down(MouseButton::Left),
        points_to(a, ev, Some(ClickTarget::Display(i))),
        i < a.displays.len() && a.displays.len() > 1,
    ensures
        a.screen == Screen::Picker || i != a.selected ==> {
            &&& a.on_mouse(ev).1 == Some(CmdView::Probe(a.displays[i as int]))
            &&& a.on_mouse(ev).0.selected == i && a.on_mouse(ev).0.display_chosen
            &&& a.on_mouse(ev).0.screen == Screen::Controls && a.on_mouse(ev).0.caps is None
            &&& a.on_mouse(ev).0.probing && a.on_mouse(ev).0.order.len() == 0
        },
        a.screen == Screen::Controls && i == a.selected ==> a.on_mouse(ev).0 == a && a.on_mouse(
            ev,
        ).1 is None,
{
}

/// A click on a row of the Raw VCP table focuses the feature that is shown there:
/// below the header row, and as far down as the table is scrolled. Anywhere else
/// it does nothing.
pub proof fn law_a_click_focuses_its_feature(a: AppView, ev: MouseEvent)
    requires
        unprompted(a) && a.screen == Screen::Raw,
        ev.kind == MouseEventKind::Down(MouseButton::Left),
        a.feature_count() <= usize::MAX && ev.row < u16::MAX,
    ensures
        ({
            let area = a.raw_table_area;
            let i = a.raw_table_state.offset + (ev.row - area.y) - 1;
            let shown = area.y < ev.row && ev.row < area.y + area.height && a.caps is Some && i
                < a.caps->0.features@.len();
            &&& a.on_mouse(ev).1 is None
            &&& shown ==> a.on_mouse(ev).0 == (AppView { raw_cursor: i as usize, ..a })
            &&& !shown ==> a.on_mouse(ev).0 == a
        }),
{
}

/// A click on nothing does nothing, and neither do other buttons.
pub proof fn law_a_click_on_nothing_does_nothing(a: AppView, ev: MouseEvent)
    requires
        a.screen != Screen::Raw,
        ev.kind == MouseEventKind::Down(MouseButton::Left) && points_to(a, ev, None) || ev.kind
            == MouseEventKind::Down(MouseButton::Other) || ev.kind == MouseEventKind::Drag(
            MouseButton::Other,
        ) || ev.kind == MouseEventKind::Other,
    ensures
        a.on_mouse(ev).0 == a && a.on_mouse(ev).1 is None,
{
}

// ---- messages ------------------------------------------------------------------

/// Whether the control at `i` is the first slider with this code.
pub open spec fn first_slider(sliders: Seq<Slider>, code: u8, i: int) -> bool {
    &&& 0 <= i < sliders.len() && sliders[i].code == code
    &&& forall|j: int| 0 <= j < i ==> (#[trigger] sliders[j]).code != code
}

/// Whether the control at `i` is the first selector with this code, and no slider
/// has that code.
pub open spec fn first_selector(a: AppView, code: u8, i: int) -> bool {
    &&& 0 <= i < a.selectors.len() && a.selectors[i].code == code
    &&& forall|j: int| 0 <= j < i ==> (#[trigger] a.selectors[j]).code != code
    &&& forall|j: int| 0 <= j < a.sliders.len() ==> (#[trigger] a.sliders[j]).code != code
}

proof fn lemma_first_slider(sliders: Seq<Slider>, code: u8, i: int)
    requires
        first_slider(sliders, code, i),
    ensures
        crate::app::slider_at(sliders, code) == Some(i),
{
    assert(crate::app::is_slider(sliders, code, i));
    let k = choose|k: int| crate::app::is_slider(sliders, code, k);
    assert(crate::app::is_slider(sliders, code, k));
    assert(sliders[i].code == code && sliders[k].code == code);
}

proof fn lemma_first_selector(a: AppView, code: u8, i: int)
    requires
        first_selector(a, code, i),
    ensures
        crate::app::slider_at(a.sliders, code) is None,
        crate::app::selector_at(a.selectors, code) == Some(i),
{
    assert(crate::app::is_selector(a.selectors, code, i));
    let k = choose|k: int| crate::app::is_selector(a.selectors, code, k);
    assert(crate::app::is_selector(a.selectors, code, k));
    assert(a.selectors[i].code == code && a.selectors[k].code == code);
}

/// A confirmed write shows the written value on the control with that code, and
/// changes no other control.
pub proof fn law_a_confirmed_write_shows(a: AppView, code: u8, value: u16, i: int)
    ensures
        ({
            let b = a.on_msg(Msg::SetValue { code, value, result: Ok(()) }).0;
            &&& first_slider(a.sliders, code, i) ==> {
                &&& b.sliders.len() == a.sliders.len() && b.selectors == a.selectors
                &&& b.sliders[i] == (Slider { value, ..a.sliders[i] })
                &&& forall|j: int|
                    0 <= j < a.sliders.len() && j != i ==> #[trigger] b.sliders[j] == a.sliders[j]
            }
            &&& first_selector(a, code, i) ==> {
                &&& b.selectors.len() == a.selectors.len() && b.sliders == a.sliders
                &&& b.selectors[i] == (Selector { selected: value as u8, ..a.selectors[i] })
                &&& forall|j: int|
                    0 <= j < a.selectors.len() && j != i ==> #[trigger] b.selectors[j]
                        == a.selectors[j]
            }
            &&& b.op_err is None && b.actions == a.actions && b.order == a.order && b.cursor
                == a.cursor && b.pending == a.pending && b.screen == a.screen
            &&& a.on_msg(Msg::SetValue { code, value, result: Ok(()) }).1 is None
        }),
{
    if first_slider(a.sliders, code, i) {
        lemma_first_slider(a.sliders, code, i);
    }
    if first_selector(a, code, i) {
        lemma_first_selector(a, code, i);
    }
}

/// A live reading corrects the control with its code: the value and the range of a
/// slider, where the reading is continuous, and the selection of a selector, where
/// its value was read. What cannot be read changes nothing.
pub proof fn law_a_live_reading_corrects_its_control(
    a: AppView,
    code: u8,
    r: FeatureReading,
    i: int,
)
    ensures
        ({
            let b = a.on_msg(Msg::LiveValue { code, result: Ok(r) }).0;
            &&& first_slider(a.sliders, code, i) && r.readable && r.continuous ==> {
                &&& b.sliders.len() == a.sliders.len() && b.selectors == a.selectors
                &&& b.sliders[i] == (Slider { value: r.current, max: r.max, ..a.sliders[i] })
                &&& forall|j: int|
                    0 <= j < a.sliders.len() && j != i ==> #[trigger] b.sliders[j] == a.sliders[j]
            }
            &&& first_slider(a.sliders, code, i) && !r.continuous ==> b.sliders == a.sliders
                && b.selectors == a.selectors
            &&& first_selector(a, code, i) && r.readable && !r.generic ==> {
                &&& b.selectors.len() == a.selectors.len() && b.sliders == a.sliders
                &&& b.selectors[i] == (Selector {
                    selected: r.current as u8,
                    ..a.selectors[i]
                })
                &&& forall|j: int|
                    0 <= j < a.selectors.len() && j != i ==> #[trigger] b.selectors[j]
                        == a.selectors[j]
            }
            &&& !r.readable ==> b.sliders == a.sliders && b.selectors == a.selectors
            &&& !b.pending.contains(code)
            &&& forall|c: u8| c != code ==> (#[trigger] b.pending.contains(c)
                <==> a.pending.contains(c))
            &&& b.actions == a.actions && b.order == a.order && b.cursor == a.cursor
            &&& a.on_msg(Msg::LiveValue { code, result: Ok(r) }).1 is None
        }),
{
    if first_slider(a.sliders, code, i) {
        lemma_first_slider(a.sliders, code, i);
    }
    if first_selector(a, code, i) {
        lemma_first_selector(a, code, i);
    }
}

/// The text of a failure is what the backend said.
pub open spec fn said(e: BackendError, text: Seq<char>) -> bool {
    match e {
        BackendError::Message(s) => text == s@,
        BackendError::Io(s) => text == s@,
    }
}

/// A failure is told where it belongs, in the words of the backend, and ends what
/// was under way. It changes no control and no reading, and asks for nothing.
pub proof fn law_failures_are_told(a: AppView, e: BackendError, code: u8, value: u16)
    ensures
        ({
            let detect = a.on_msg(Msg::Detect(Err(e)));
            let probe = a.on_msg(Msg::Probe(Err(e)));
            let set = a.on_msg(Msg::SetValue { code, value, result: Err(e) });
            let action = a.on_msg(Msg::ActionDone { result: Err(e) });
            let raw_probe = a.on_msg(Msg::RawProbe(Err(e)));
            let raw_set = a.on_msg(Msg::RawSet { code, result: Err(e) });
            let flash = a.effects.push(Effect::Error);
            &&& detect.0.err matches Some(t) && said(e, t) && detect.0 == (AppView {
                loading: false,
                err: Some(t),
                effects: flash,
                ..a
            })
            &&& probe.0.probe_err matches Some(t) && said(e, t) && probe.0 == (AppView {
                probing: false,
                probe_err: Some(t),
                effects: flash,
                ..a
            })
            &&& set.0.op_err matches Some(t) && said(e, t) && set.0 == (AppView {
                op_err: Some(t),
                effects: flash,
                ..a
            })
            &&& action.0 == set.0
            &&& raw_probe.0.raw_err matches Some(t) && said(e, t) && raw_probe.0 == (AppView {
                raw_loading: false,
                raw_err: Some(t),
                effects: flash,
                ..a
            })
            &&& raw_set.0.raw_write_err matches Some(t) && said(e, t) && raw_set.0 == (AppView {
                raw_writing: false,
                raw_write_err: Some(t),
                effects: flash,
                ..a
            })
            &&& detect.1 is None && probe.1 is None && set.1 is None && action.1 is None
            &&& raw_probe.1 is None && raw_set.1 is None
        }),
{
}

/// A failed live reading or single raw reading is passed over: the values that are
/// shown stay.
pub proof fn law_failed_readings_keep_what_is_shown(a: AppView, e: BackendError, code: u8)
    ensures
        a.on_msg(Msg::LiveValue { code, result: Err(e) }).0 == (AppView {
            pending: a.pending.remove(code),
            ..a
        }),
        a.on_msg(Msg::RawSingleProbe { code, result: Err(e) }).0 == a,
        a.on_msg(Msg::LiveValue { code, result: Err(e) }).1 is None,
        a.on_msg(Msg::RawSingleProbe { code, result: Err(e) }).1 is None,
{
}

/// A probe, fresh or remembered, shows the controls that it brought, with the
/// focus on the first, and ends the probing. Exactly the remembered values are
/// marked as unconfirmed.
pub proof fn law_a_probe_shows_its_controls(a: AppView, ok: ProbeOk, code: u8)
    ensures
        ({
            let fresh = a.on_msg(Msg::Probe(Ok(ok))).0;
            let remembered = a.on_msg(Msg::CachedControls(ok)).0;
            let shown = AppView {
                probing: false,
                caps: Some(ok.caps),
                probe_err: None,
                sliders: ok.sliders@,
                selectors: ok.selectors@,
                actions: ok.actions@,
                order: ok.order@,
                cursor: 0,
                effects: a.effects.push(Effect::Entrance),
                ..a
            };
            &&& fresh == (AppView { pending: fresh.pending, ..shown })
            &&& remembered == (AppView { pending: remembered.pending, ..shown })
            &&& !fresh.pending.contains(code)
            &&& remembered.pending.contains(code) <==> (exists|i: int|
                0 <= i < ok.sliders@.len() && (#[trigger] ok.sliders@[i]).code == code) || (exists|
                i: int,
            |
                0 <= i < ok.selectors@.len() && (#[trigger] ok.selectors@[i]).code == code)
            &&& a.on_msg(Msg::Probe(Ok(ok))).1 is None && a.on_msg(Msg::CachedControls(ok)).1 is None
        }),
{
}

/// Found displays are shown. With several of them and none chosen yet the picker
/// asks; else the chosen one is probed, or the first where it is gone.
pub proof fn law_found_displays_are_shown(a: AppView, displays: Vec<Display>)
    ensures
        ({
            let b = a.on_msg(Msg::Detect(Ok(displays))).0;
            let cmd = a.on_msg(Msg::Detect(Ok(displays))).1;
            let n = displays@.len();
            &&& b.displays == displays@ && !b.loading && b.err is None
            &&& n == 0 ==> cmd is None && b.screen == a.screen
            &&& n > 1 && !a.display_chosen ==> cmd is None && b.screen == Screen::Picker
                && b.picker_cursor == 0 && !b.display_chosen
            &&& n == 1 || n > 1 && a.display_chosen ==> {
                &&& cmd == Some(
                    CmdView::Probe(
                        displays@[if a.selected < n {
                            a.selected as int
                        } else {
                            0
                        }],
                    ),
                )
                &&& b.selected == (if a.selected < n {
                    a.selected
                } else {
                    0
                }) && b.display_chosen && b.probing && b.screen == a.screen
            }
            &&& b.sliders == a.sliders && b.selectors == a.selectors && b.order == a.order
                && b.caps == a.caps && b.effects == a.effects
        }),
{
}

/// Whether a reading is the last one of its code in a list.
pub open spec fn last_of_its_code(readings: Seq<FeatureReading>, i: int) -> bool {
    &&& 0 <= i < readings.len()
    &&& forall|j: int| i < j < readings.len() ==> (#[trigger] readings[j]).code != readings[i].code
}

/// After a scan of the Raw VCP screen every code that was read is there, with its
/// last reading, and no other.
pub proof fn law_raw_scan_keeps_every_reading(
    a: AppView,
    readings: Vec<FeatureReading>,
    i: int,
    code: u8,
)
    ensures
        ({
            let b = a.on_msg(Msg::RawProbe(Ok(readings))).0;
            &&& b.raw_ready && !b.raw_loading && b.raw_err is None && b.raw_cursor == 0
            &&& last_of_its_code(readings@, i) ==> b.raw_readings.dom().contains(
                readings@[i].code,
            ) && b.raw_readings[readings@[i].code] == readings@[i]
            &&& b.raw_readings.dom().contains(code) <==> exists|k: int|
                0 <= k < readings@.len() && (#[trigger] readings@[k]).code == code
            &&& b.caps == a.caps && b.sliders == a.sliders && b.screen == a.screen
            &&& a.on_msg(Msg::RawProbe(Ok(readings))).1 is None
        }),
{
    lemma_readings_by_code(readings@, i, code);
}

proof fn lemma_readings_by_code(readings: Seq<FeatureReading>, i: int, code: u8)
    ensures
        ({
            let m = crate::app::readings_by_code(readings);
            &&& last_of_its_code(readings, i) ==> m.dom().contains(readings[i].code)
                && m[readings[i].code] == readings[i]
            &&& m.dom().contains(code) <==> exists|k: int|
                0 <= k < readings.len() && (#[trigger] readings[k]).code == code
        }),
    decreases readings.len(),
{
    if readings.len() > 0 {
        let rest = readings.drop_last();
        lemma_readings_by_code(rest, i, code);
        if last_of_its_code(readings, i) && i < rest.len() {
            assert(readings[readings.len() - 1].code != readings[i].code);
            assert forall|j: int| i < j < rest.len() implies (#[trigger] rest[j]).code
                != rest[i].code by {
                assert(readings[j].code != readings[i].code);
            }
        }
        if readings.last().code == code {
            assert(readings[readings.len() - 1].code == code);
        } else if exists|k: int| 0 <= k < readings.len() && (#[trigger] readings[k]).code == code {
            let k = choose|k: int| 0 <= k < readings.len() && (#[trigger] readings[k]).code == code;
            assert(rest[k].code == code);
        }
        if exists|k: int| 0 <= k < rest.len() && (#[trigger] rest[k]).code == code {
            let k = choose|k: int| 0 <= k < rest.len() && (#[trigger] rest[k]).code == code;
            assert(readings[k].code == code);
        }
    }
}

/// A successful raw write is followed by a read of the code that was written, and
/// what that finds is shown in its row and in no other.
pub proof fn law_a_raw_write_is_read_again(a: AppView, code: u8, r: FeatureReading, other: u8)
    ensures
        ({
            let written = a.on_msg(Msg::RawSet { code, result: Ok(()) });
            let read = a.on_msg(Msg::RawSingleProbe { code, result: Ok(r) });
            &&& written.1 matches Some(CmdView::RawSingleProbe { display_num, code: c })
                && is_controlled(a, display_num) && c == code
            &&& written.0 == (AppView { raw_writing: false, raw_write_err: None, ..a })
            &&& read.0 == (AppView { raw_readings: read.0.raw_readings, ..a }) && read.1 is None
            &&& read.0.raw_readings.dom().contains(code) && read.0.raw_readings[code] == r
            &&& other != code ==> (read.0.raw_readings.dom().contains(other)
                <==> a.raw_readings.dom().contains(other)) && read.0.raw_readings[other]
                == a.raw_readings[other]
        }),
{
}

/// An action that succeeded clears the last failure and does nothing else.
pub proof fn law_a_finished_action_clears_the_failure(a: AppView)
    ensures
        a.on_msg(Msg::ActionDone { result: Ok(()) }).0 == (AppView { op_err: None, ..a }),
        a.on_msg(Msg::ActionDone { result: Ok(()) }).1 is None,
{
}

/// The application starts by detecting, with nothing on screen and no prompt open.
pub proof fn law_it_starts_by_detecting()
    ensures
        ({
            let a = AppView::initial();
            &&& a.loading && !a.should_quit && !a.probing && !a.display_chosen
            &&& a.displays.len() == 0 && a.caps is None && a.order.len() == 0
            &&& a.sliders.len() == 0 && a.selectors.len() == 0 && a.actions.len() == 0
            &&& a.screen == Screen::Controls && unprompted(a) && a.err is None
            &&& !a.raw_ready && !a.raw_loading && !a.raw_writing && a.effects.len() == 0
            &&& a.pending == Set::<u8>::empty() && a.click_targets.len() == 0
            &&& a.selected == 0 && a.cursor == 0 && a.picker_cursor == 0 && a.raw_cursor == 0
            &&& a.probe_err is None && a.op_err is None && a.raw_err is None
            &&& a.raw_write_err is None && a.raw_edit_input.len() == 0 && a.raw_edit_err.len() == 0
            &&& a.raw_readings == Map::<u8, FeatureReading>::empty() && a.raw_visible_rows == 10
            &&& a.raw_table_state.offset == 0 && a.raw_table_state.selected is None
            &&& a.click_scroll == 0 && a.raw_table_area.height == 0
        }),
{
}

// ---- what stays as it is -------------------------------------------------------

/// Whether nothing is left in `b` of what was known of the display that was being
/// controlled, while the rest is as it was in `a`.
pub open spec fn starts_clean(a: AppView, b: AppView) -> bool {
    &&& b.caps is None && b.probe_err is None && b.op_err is None
    &&& b.sliders.len() == 0 && b.selectors.len() == 0 && b.actions.len() == 0
    &&& b.order.len() == 0 && b.cursor == 0 && b.pending == Set::<u8>::empty()
    &&& unprompted(b) && b.screen == Screen::Controls
    &&& !b.raw_ready && !b.raw_loading && b.raw_err is None
    &&& b.raw_readings == Map::<u8, FeatureReading>::empty()
    &&& b.raw_cursor == 0 && b.raw_table_state.offset == 0 && b.raw_table_state.selected is None
    &&& b.raw_edit_input.len() == 0 && b.raw_edit_err.len() == 0
    &&& !b.raw_writing && b.raw_write_err is None
    &&& b.displays == a.displays && b.should_quit == a.should_quit
    &&& b.raw_visible_rows == a.raw_visible_rows && b.effects == a.effects
    &&& b.click_targets == a.click_targets && b.click_origin_row == a.click_origin_row
    &&& b.click_origin_col == a.click_origin_col && b.click_scroll == a.click_scroll
    &&& b.raw_table_area == a.raw_table_area
}

/// A prompt changes nothing but itself: an answer closes it, yes also clears the
/// last failure, and a key that is no answer does nothing at all.
pub proof fn law_prompts_change_only_themselves(a: AppView, key: KeyEvent)
    requires
        a.confirming || a.raw_confirming,
        !is_interrupt(key) && key.code != KeyCode::Char('q'),
    ensures
        ({
            let b = a.on_key(key).0;
            let yes = key.code == KeyCode::Char('y') || key.code == KeyCode::Char('Y');
            let no = key.code == KeyCode::Char('n') || key.code == KeyCode::Char('N') || key.code
                == KeyCode::Esc;
            &&& a.confirming ==> b == (AppView { confirming: b.confirming, op_err: b.op_err, ..a })
            &&& a.confirming ==> b.confirming == (!yes && !no)
            &&& a.confirming ==> b.op_err == if yes { None } else { a.op_err }
            &&& !a.confirming ==> b == (AppView {
                raw_confirming: b.raw_confirming,
                raw_writing: b.raw_writing,
                raw_write_err: b.raw_write_err,
                ..a
            })
            &&& !a.confirming && !(yes && a.caps is Some) ==> b.raw_confirming == !no
                && b.raw_writing == a.raw_writing && b.raw_write_err == a.raw_write_err
            &&& !yes ==> a.on_key(key).1 is None
        }),
{
}

/// Entering a number changes nothing but the entry: what was entered stays until
/// it is left with Esc, and the prompt opens only for a number.
pub proof fn law_entering_changes_only_the_entry(a: AppView, key: KeyEvent)
    requires
        a.raw_editing && !a.confirming && !a.raw_confirming,
        !is_interrupt(key),
    ensures
        ({
            let b = a.on_key(key).0;
            &&& a.on_key(key).1 is None
            &&& b == (AppView {
                raw_editing: b.raw_editing,
                raw_edit_input: b.raw_edit_input,
                raw_edit_err: b.raw_edit_err,
                raw_confirming: b.raw_confirming,
                raw_confirm_value: b.raw_confirm_value,
                ..a
            })
            &&& key.code == KeyCode::Enter ==> b.raw_edit_input == a.raw_edit_input
            &&& b.raw_confirming ==> b.raw_edit_err.len() == 0 && !b.raw_editing
            &&& !b.raw_confirming ==> b.raw_confirm_value == a.raw_confirm_value
            &&& !b.raw_confirming && key.code != KeyCode::Esc ==> b.raw_editing
            &&& key.code == KeyCode::Esc ==> !b.raw_editing && b.raw_edit_input.len() == 0
                && b.raw_edit_err.len() == 0
        }),
{
}

/// On the Controls screen a key changes the focus, or what is shown of the last
/// failure, or the prompt of an action, or the screen, and nothing else; only
/// detecting anew and the end change more.
pub proof fn law_controls_keys_change_only_this(a: AppView, key: KeyEvent)
    requires
        unprompted(a) && a.screen == Screen::Controls,
        !is_interrupt(key) && key.code != KeyCode::Char('q'),
    ensures
        ({
            let b = a.on_key(key).0;
            let cmd = a.on_key(key).1;
            if key.code == KeyCode::Up || key.code == KeyCode::Char('k') || key.code
                == KeyCode::Down || key.code == KeyCode::Char('j') {
                b == (AppView { cursor: b.cursor, ..a }) && cmd is None
            } else if key.code == KeyCode::Left || key.code == KeyCode::Char('h') || key.code
                == KeyCode::Right || key.code == KeyCode::Char('l') {
                if cmd is Some {
                    b == (AppView { op_err: None, ..a })
                } else {
                    b == a
                }
            } else if key.code == KeyCode::Enter {
                if b.confirming {
                    b == (AppView {
                        confirming: true,
                        confirm_action_idx: b.confirm_action_idx,
                        op_err: None,
                        ..a
                    })
                } else {
                    b == a
                }
            } else if key.code == KeyCode::Char('D') {
                if a.displays.len() > 1 {
                    b == (AppView {
                        screen: Screen::Picker,
                        picker_cursor: a.selected,
                        effects: a.effects.push(Effect::Transition),
                        ..a
                    })
                } else {
                    b == a
                }
            } else if key.code == KeyCode::Char('v') {
                b == (AppView {
                    screen: Screen::Raw,
                    effects: a.effects.push(Effect::Transition),
                    raw_loading: b.raw_loading,
                    ..a
                }) && b.raw_loading == (a.raw_loading || cmd is Some)
            } else if key.code == KeyCode::Char('r') || key.code == KeyCode::Char('R') {
                starts_clean(a, b) && b.loading && b.err is None && !b.probing && b.selected
                    == a.selected && b.display_chosen == a.display_chosen && b.picker_cursor
                    == a.picker_cursor
            } else {
                b == a && cmd is None
            }
        }),
{
}

/// On the picker a key moves the focus, or goes back, and changes nothing else;
/// only choosing a display starts clean.
pub proof fn law_picker_keys_change_only_this(a: AppView, key: KeyEvent)
    requires
        unprompted(a) && a.screen == Screen::Picker,
        !is_interrupt(key) && key.code != KeyCode::Char('q'),
    ensures
        ({
            let b = a.on_key(key).0;
            let cmd = a.on_key(key).1;
            if key.code == KeyCode::Esc && a.display_chosen {
                b == (AppView {
                    screen: Screen::Controls,
                    effects: a.effects.push(Effect::Transition),
                    ..a
                }) && cmd is None
            } else if key.code == KeyCode::Enter && a.picker_cursor < a.displays.len() {
                starts_clean(a, b) && b.probing && b.display_chosen && b.selected
                    == a.picker_cursor && b.picker_cursor == a.picker_cursor && b.loading
                    == a.loading && b.err == a.err
            } else {
                b == (AppView { picker_cursor: b.picker_cursor, ..a }) && cmd is None
            }
        }),
{
}

/// On the Raw VCP screen a key moves the focus, scans, opens the entry, or goes
/// back, and changes nothing else.
pub proof fn law_raw_keys_change_only_this(a: AppView, key: KeyEvent)
    requires
        unprompted(a) && a.screen == Screen::Raw,
        !is_interrupt(key) && key.code != KeyCode::Char('q'),
    ensures
        ({
            let b = a.on_key(key).0;
            let cmd = a.on_key(key).1;
            if key.code == KeyCode::Esc || key.code == KeyCode::Char('v') {
                b == (AppView {
                    screen: Screen::Controls,
                    effects: a.effects.push(Effect::Transition),
                    ..a
                }) && cmd is None
            } else if key.code == KeyCode::Char('r') {
                b == (AppView { raw_loading: a.raw_loading || a.caps is Some, ..a })
            } else if key.code == KeyCode::Char('e') {
                cmd is None && if b.raw_editing {
                    b == (AppView {
                        raw_editing: true,
                        raw_edit_input: b.raw_edit_input,
                        raw_edit_err: b.raw_edit_err,
                        raw_write_err: None,
                        ..a
                    })
                } else {
                    b == a
                }
            } else {
                b == (AppView { raw_cursor: b.raw_cursor, ..a }) && cmd is None
            }
        }),
{
}

/// The mouse changes the focus, what is shown of the last failure, or the prompt
/// of an action, and nothing else; only choosing a display starts clean. A click
/// focuses what it points at even where no control stands there any more.
pub proof fn law_the_mouse_changes_only_this(a: AppView, ev: MouseEvent, i: usize)
    ensures
        ({
            let b = a.on_mouse(ev).0;
            let cmd = a.on_mouse(ev).1;
            let click = ev.kind == MouseEventKind::Down(MouseButton::Left);
            &&& !unprompted(a) ==> b == a && cmd is None
            &&& unprompted(a) && a.screen == Screen::Raw ==> b == (AppView {
                raw_cursor: b.raw_cursor,
                ..a
            }) && cmd is None
            &&& cmd matches Some(CmdView::Probe(_)) ==> starts_clean(a, b) && b.probing
                && b.display_chosen && b.loading == a.loading && b.err == a.err && click
            &&& unprompted(a) && a.screen == Screen::Picker && click && points_to(
                a,
                ev,
                Some(ClickTarget::Display(i)),
            ) ==> b.picker_cursor == i
            &&& unprompted(a) && a.screen == Screen::Picker && cmd is None ==> b == (AppView {
                picker_cursor: b.picker_cursor,
                ..a
            })
            &&& a.screen == Screen::Controls ==> b.picker_cursor == a.picker_cursor
            &&& unprompted(a) && a.screen == Screen::Controls && cmd is None ==> b == (AppView {
                cursor: b.cursor,
                confirming: b.confirming,
                confirm_action_idx: b.confirm_action_idx,
                op_err: b.op_err,
                ..a
            })
            &&& b.confirming && !a.confirming ==> b.op_err is None
            &&& !b.confirming && cmd is None ==> b.op_err == a.op_err && b.confirm_action_idx
                == a.confirm_action_idx
            &&& cmd is Some && !(cmd->0 is Probe) ==> b == (AppView {
                cursor: b.cursor,
                op_err: None,
                ..a
            })
            &&& unprompted(a) && a.screen == Screen::Controls && click && points_to(
                a,
                ev,
                Some(ClickTarget::Order(i)),
            ) ==> b.cursor == i
            &&& unprompted(a) && a.screen == Screen::Controls && ev.kind == MouseEventKind::Drag(
                MouseButton::Left,
            ) ==> b.cursor == a.cursor
        }),
{
}

/// What detection found changes only the displays and which one is controlled; its
/// failure is told, with one effect.
pub proof fn law_detection_changes_only_the_displays(a: AppView, msg: Msg)
    requires
        msg is Detect,
    ensures
        ({
            let b = a.on_msg(msg).0;
            match msg {
                Msg::Detect(Ok(displays)) => b == (AppView {
                    loading: false,
                    displays: displays@,
                    err: None,
                    screen: b.screen,
                    picker_cursor: b.picker_cursor,
                    selected: b.selected,
                    display_chosen: b.display_chosen,
                    probing: b.probing,
                    ..a
                }),
                Msg::Detect(Err(_)) => b == (AppView {
                    loading: false,
                    err: b.err,
                    effects: a.effects.push(Effect::Error),
                    ..a
                }),
                _ => true,
            }
        }),
{
}

/// New controls replace the ones before, with one effect, and change nothing else;
/// a probe that failed is only told.
pub proof fn law_new_controls_change_only_the_controls(a: AppView, msg: Msg)
    requires
        msg is Probe || msg is CachedControls,
    ensures
        ({
            let b = a.on_msg(msg).0;
            match msg {
                Msg::Probe(Err(_)) => b == (AppView {
                    probing: false,
                    probe_err: b.probe_err,
                    effects: a.effects.push(Effect::Error),
                    ..a
                }),
                Msg::Probe(Ok(ok)) => b == (AppView {
                    probing: false,
                    caps: Some(ok.caps),
                    probe_err: None,
                    sliders: ok.sliders@,
                    selectors: ok.selectors@,
                    actions: ok.actions@,
                    order: ok.order@,
                    cursor: 0,
                    pending: b.pending,
                    effects: a.effects.push(Effect::Entrance),
                    ..a
                }),
                Msg::CachedControls(ok) => b == (AppView {
                    probing: false,
                    caps: Some(ok.caps),
                    probe_err: None,
                    sliders: ok.sliders@,
                    selectors: ok.selectors@,
                    actions: ok.actions@,
                    order: ok.order@,
                    cursor: 0,
                    pending: b.pending,
                    effects: a.effects.push(Effect::Entrance),
                    ..a
                }),
                _ => true,
            }
        }),
{
}

/// A value that was read or written changes only what is shown of it; a failure is
/// told, with one effect.
pub proof fn law_values_change_only_their_control(a: AppView, msg: Msg)
    requires
        msg is LiveValue || msg is SetValue || msg is ActionDone,
    ensures
        ({
            let b = a.on_msg(msg).0;
            match msg {
                Msg::LiveValue { .. } => b == (AppView {
                    sliders: b.sliders,
                    selectors: b.selectors,
                    pending: b.pending,
                    ..a
                }),
                Msg::SetValue { result: Ok(_), .. } => b == (AppView {
                    sliders: b.sliders,
                    selectors: b.selectors,
                    op_err: None,
                    ..a
                }),
                Msg::SetValue { result: Err(_), .. } => b == (AppView {
                    op_err: b.op_err,
                    effects: a.effects.push(Effect::Error),
                    ..a
                }),
                Msg::ActionDone { result: Ok(_) } => b == (AppView { op_err: None, ..a }),
                Msg::ActionDone { result: Err(_) } => b == (AppView {
                    op_err: b.op_err,
                    effects: a.effects.push(Effect::Error),
                    ..a
                }),
                _ => true,
            }
        }),
{
}

/// What is read or written raw changes only the Raw VCP screen, which a scan shows
/// from its top; a failure is told, with one effect.
pub proof fn law_raw_messages_change_only_the_raw_screen(a: AppView, msg: Msg)
    requires
        msg is RawProbe || msg is RawSingleProbe || msg is RawSet,
    ensures
        ({
            let b = a.on_msg(msg).0;
            match msg {
                Msg::RawProbe(Ok(_)) => b == (AppView {
                    raw_loading: false,
                    raw_err: None,
                    raw_ready: true,
                    raw_readings: b.raw_readings,
                    raw_cursor: 0,
                    raw_table_state: b.raw_table_state,
                    ..a
                }) && b.raw_table_state.offset == 0 && b.raw_table_state.selected is None,
                Msg::RawProbe(Err(_)) => b == (AppView {
                    raw_loading: false,
                    raw_err: b.raw_err,
                    effects: a.effects.push(Effect::Error),
                    ..a
                }),
                Msg::RawSingleProbe { .. } => b == (AppView {
                    raw_readings: b.raw_readings,
                    ..a
                }),
                Msg::RawSet { result: Ok(_), .. } => b == (AppView {
                    raw_writing: false,
                    raw_write_err: None,
                    ..a
                }),
                Msg::RawSet { result: Err(_), .. } => b == (AppView {
                    raw_writing: false,
                    raw_write_err: b.raw_write_err,
                    effects: a.effects.push(Effect::Error),
                    ..a
                }),
                _ => true,
            }
        }),
{
}

} // verus!
