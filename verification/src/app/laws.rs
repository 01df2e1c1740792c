//! What holds of the application as a whole.

use vstd::prelude::*;

use crate::app::{
    down, msg_wf, points_at, probe_ok_wf, slid, slider_at, selector_at, up, value_codes, AppView,
    ClickTarget, CmdView, Screen,
};
use crate::backend::{BackendError, DdcBackend};
use crate::cache::MonitorCacheView;
use crate::commands::{
    arranged, cached_controls, carries_out, comes_to, fresh_controls, is_scan_result,
    law_order_lists_controls, probed, read_from, recognized_codes, resolved, successes, Cmd,
    ControlView, Done, Job, Msg, Plan, ProbeOk,
};
use crate::components::{law_bar_is_monotone, Action, Selector, Slider};
use crate::effects::Effect;
use crate::input::{KeyCode, KeyEvent, MouseEvent, MouseEventKind};
use crate::numbers::{all_digits, is_digit, parsed};
use crate::text::{deep, lemma_encode_push};
use crate::vcp::{Display, FeatureReading};

verus! {

// ---- what every event keeps ----------------------------------------------------

/// The state hangs together at the start.
pub proof fn law_start_is_wf()
    ensures
        AppView::initial().wf(),
        AppView::initial().prompts_wf(),
{
}

/// A key leaves the state hanging together.
pub proof fn law_keys_keep_wf(a: AppView, key: KeyEvent)
    requires
        a.wf(),
    ensures
        a.on_key(key).0.wf(),
{
}

/// Nothing but digits is ever entered.
#[verifier::rlimit(40)]
pub proof fn law_only_digits_are_entered(a: AppView, key: KeyEvent, ev: MouseEvent, msg: Msg)
    requires
        all_digits(a.raw_edit_input, 10),
    ensures
        all_digits(a.on_key(key).0.raw_edit_input, 10),
        all_digits(a.on_mouse(ev).0.raw_edit_input, 10),
        all_digits(a.on_msg(msg).0.raw_edit_input, 10),
{
    let b = a.on_key(key).0;
    if b.raw_edit_input != a.raw_edit_input {
        assert forall|i: int| 0 <= i < b.raw_edit_input.len() implies is_digit(
            #[trigger] b.raw_edit_input[i],
            10,
        ) by {
            if i < a.raw_edit_input.len() {
                assert(b.raw_edit_input[i] == a.raw_edit_input[i]);
            }
        }
    }
}

/// While what every open prompt is about is there, every key can be handled and
/// every screen can be shown.
pub proof fn law_valid_prompts_can_be_answered(a: AppView, key: KeyEvent)
    requires
        a.prompts_wf(),
    ensures
        a.can_answer(key),
        a.can_draw(),
{
}

/// A key never leaves a prompt open about something that is not there, as long
/// as a raw value is not asked for while no feature is focused.
pub proof fn law_keys_keep_prompts(a: AppView, key: KeyEvent)
    requires
        a.wf(),
        a.prompts_wf(),
        a.screen == Screen::Raw && key.code == KeyCode::Char('e') && a.feature_count() > 0
            ==> a.raw_cursor < a.feature_count(),
    ensures
        a.on_key(key).0.prompts_wf(),
{
    if a.cursor < a.order.len() {
        assert(points_at(a.order[a.cursor as int], a.sliders, a.selectors, a.actions));
    }
}

/// The mouse leaves the state hanging together.
pub proof fn law_mouse_keeps_wf(a: AppView, ev: MouseEvent)
    requires
        a.wf(),
    ensures
        a.on_mouse(ev).0.wf(),
{
}

/// The mouse never leaves a prompt open about something that is not there.
pub proof fn law_mouse_keeps_prompts(a: AppView, ev: MouseEvent)
    requires
        a.wf(),
        a.prompts_wf(),
    ensures
        a.on_mouse(ev).0.prompts_wf(),
{
    if let Some(ClickTarget::Order(i)) = a.target_at(ev.row) {
        if i < a.order.len() {
            assert(points_at(a.order[i as int], a.sliders, a.selectors, a.actions));
        }
    }
}

/// Controls that were built from a scan, live or remembered, hang together.
pub proof fn law_built_controls_are_wf(ok: ProbeOk, controls: Seq<ControlView>)
    requires
        probed(ok) == arranged(controls),
    ensures
        probe_ok_wf(ok),
{
    let c = arranged(controls);
    assert(ok.order@ == c.order);
    assert(ok.order.len() == ok.order@.len());
    assert(deep(ok.sliders@).len() == ok.sliders@.len());
    assert(deep(ok.selectors@).len() == ok.selectors@.len());
    assert(deep(ok.actions@).len() == ok.actions@.len());
    lemma_order_len(controls);
    law_order_lists_controls(controls);
    assert forall|i: int| 0 <= i < ok.order@.len() implies points_at(
        #[trigger] ok.order@[i],
        ok.sliders@,
        ok.selectors@,
        ok.actions@,
    ) by {
        assert(resolved(c, c.order[i]) == Some(controls[i]));
    }
}

/// Every message that a job sends brings controls that hang together, whatever
/// the backend returned.
pub proof fn law_job_messages_are_wf<B: DdcBackend + ?Sized>(backend: &B, job: Job, done: Done)
    requires
        comes_to(backend, job, done),
    ensures
        msg_wf(done.msg),
{
    if let Msg::Probe(Ok(ok)) = done.msg {
        let display_num = job->Probe_0.number;
        let features = ok.caps.deep_view().features;
        let rs = choose|rs: Seq<Result<FeatureReading, BackendError>>| #[trigger]
            read_from(backend, display_num, recognized_codes(features), rs) && is_scan_result(
                ok,
                ok.caps.deep_view(),
                deep(successes(rs)),
            );
        law_built_controls_are_wf(
            ok,
            fresh_controls(features, deep(successes(rs)), Set::empty()),
        );
    }
}

/// So does every message that is sent before any job runs.
pub proof fn law_planned_messages_are_wf(plan: Plan, cmd: Cmd, cached: Option<MonitorCacheView>)
    requires
        carries_out(plan, cmd, cached),
    ensures
        plan.message is Some ==> msg_wf(plan.message->0),
{
    if let Some(Msg::CachedControls(ok)) = plan.message {
        let cache = cached->0;
        law_built_controls_are_wf(ok, cached_controls(cache, cache.capabilities.features));
    }
}

proof fn lemma_order_len(controls: Seq<ControlView>)
    ensures
        arranged(controls).order.len() == controls.len(),
    decreases controls.len(),
{
    if controls.len() > 0 {
        lemma_order_len(controls.drop_last());
    }
}

/// A message leaves the state hanging together, as long as the controls that it
/// brings do.
pub proof fn law_messages_keep_wf(a: AppView, msg: Msg)
    requires
        a.wf(),
        msg_wf(msg),
    ensures
        a.on_msg(msg).0.wf(),
{
    let b = a.on_msg(msg).0;
    match msg {
        Msg::LiveValue { code, result } => {
            lemma_update_keeps_order(a, b);
        },
        Msg::SetValue { code, value, result } => {
            lemma_update_keeps_order(a, b);
        },
        _ => {},
    }
}

proof fn lemma_update_keeps_order(a: AppView, b: AppView)
    requires
        a.wf(),
        b.order == a.order,
        b.actions == a.actions,
        b.sliders.len() == a.sliders.len(),
        b.selectors.len() == a.selectors.len(),
    ensures
        b.wf(),
{
    assert forall|i: int| 0 <= i < b.order.len() implies points_at(
        #[trigger] b.order[i],
        b.sliders,
        b.selectors,
        b.actions,
    ) by {
        assert(points_at(a.order[i], a.sliders, a.selectors, a.actions));
    }
}

/// Whether what an open prompt is about is still there among new controls.
pub open spec fn prompts_fit(a: AppView, ok: ProbeOk) -> bool {
    &&& a.confirming ==> a.confirm_action_idx < ok.actions@.len()
    &&& a.raw_editing || a.raw_confirming ==> a.raw_cursor < ok.caps.features@.len()
}

/// A message never leaves a prompt open about something that is not there,
/// unless it brings controls without it.
pub proof fn law_messages_keep_prompts(a: AppView, msg: Msg)
    requires
        a.prompts_wf(),
        msg matches Msg::Probe(Ok(ok)) ==> prompts_fit(a, ok),
        msg matches Msg::CachedControls(ok) ==> prompts_fit(a, ok),
    ensures
        a.on_msg(msg).0.prompts_wf(),
{
}

// ---- values --------------------------------------------------------------------

/// Whether no value that is shown changed, other than by being dropped with all
/// the controls.
pub open spec fn values_kept(a: AppView, b: AppView) -> bool {
    ||| b.sliders == a.sliders && b.selectors == a.selectors
    ||| b.sliders.len() == 0 && b.selectors.len() == 0 && b.order.len() == 0
}

/// No key changes a value that is shown: that only happens once a write is
/// confirmed.
pub proof fn law_keys_keep_values(a: AppView, key: KeyEvent)
    ensures
        values_kept(a, a.on_key(key).0),
{
}

/// Nor does the mouse.
pub proof fn law_mouse_keeps_values(a: AppView, ev: MouseEvent)
    ensures
        values_kept(a, a.on_mouse(ev).0),
{
}

/// A value that is asked for by moving a slider is one that it can take.
pub proof fn law_slider_stays_in_range(s: Slider, direction: int)
    ensures
        0 <= slid(s, direction) <= s.max,
{
}

/// So is one that is asked for by pointing at its bar.
pub proof fn law_pointing_stays_in_range(a: AppView, s: Slider, col: u16)
    ensures
        a.slider_value_at(s, col) matches Some(v) ==> v <= s.max,
{
    if a.slider_value_at(s, col) is Some {
        law_bar_is_monotone(
            s.name@.len(),
            s.max,
            col - a.click_origin_col,
            col - a.click_origin_col,
        );
    }
}

/// A confirmed write shows the written value, on the control with that code and
/// on no other; a failed one changes no control and says so.
pub proof fn law_write_shows_once_confirmed(
    a: AppView,
    code: u8,
    value: u16,
    result: Result<(), BackendError>,
)
    ensures
        ({
            let b = a.on_msg(Msg::SetValue { code, value, result }).0;
            &&& result is Err ==> b.sliders == a.sliders && b.selectors == a.selectors && b.op_err
                == Some(result->Err_0.deep_view().text())
            &&& result is Ok ==> b.op_err is None
            &&& result is Ok ==> (slider_at(a.sliders, code) matches Some(i) ==> b.sliders
                == a.sliders.update(i, Slider { value, ..a.sliders[i] }) && b.selectors
                == a.selectors)
            &&& result is Ok && slider_at(a.sliders, code) is None ==> (selector_at(
                a.selectors,
                code,
            ) matches Some(i) ==> b.selectors == a.selectors.update(
                i,
                Selector { selected: value as u8, ..a.selectors[i] },
            ) && b.sliders == a.sliders)
        }),
{
}

/// Once a live reading of a code has arrived, good or bad, that code is no
/// longer marked as unconfirmed, and no other mark changes. A bad one leaves
/// every value as it is.
pub proof fn law_live_value_confirms(
    a: AppView,
    code: u8,
    result: Result<FeatureReading, BackendError>,
)
    ensures
        ({
            let b = a.on_msg(Msg::LiveValue { code, result }).0;
            &&& b.pending == a.pending.remove(code)
            &&& result is Err ==> b.sliders == a.sliders && b.selectors == a.selectors
        }),
{
}

/// A generic live reading carries no value to show: it changes no selector, and
/// no slider either unless it claims to be continuous.
pub proof fn law_generic_value_is_not_shown(a: AppView, code: u8, r: FeatureReading)
    requires
        r.generic,
    ensures
        ({
            let b = a.on_msg(Msg::LiveValue { code, result: Ok(r) }).0;
            &&& b.selectors == a.selectors
            &&& !r.continuous ==> b.sliders == a.sliders
        }),
{
}

/// After a fresh scan nothing is marked as unconfirmed; after a remembered one
/// exactly the sliders and selectors are.
pub proof fn law_fresh_scan_is_confirmed(a: AppView, ok: ProbeOk)
    ensures
        a.on_msg(Msg::Probe(Ok(ok))).0.pending == Set::<u8>::empty(),
        a.on_msg(Msg::CachedControls(ok)).0.pending == value_codes(ok.sliders@, ok.selectors@),
        a.on_msg(Msg::CachedControls(ok)).0 == (AppView {
            pending: value_codes(ok.sliders@, ok.selectors@),
            ..a.on_msg(Msg::Probe(Ok(ok))).0
        }),
{
}

// ---- prompts -------------------------------------------------------------------

/// The keys that answer a prompt, or quit.
pub open spec fn answers_prompt(key: KeyEvent) -> bool {
    ||| key.code == KeyCode::Char('y') || key.code == KeyCode::Char('Y')
    ||| key.code == KeyCode::Char('n') || key.code == KeyCode::Char('N')
    ||| key.code == KeyCode::Esc || key.code == KeyCode::Char('q')
    ||| key.code == KeyCode::Char('c') && key.ctrl
}

/// While an action or a raw write waits to be confirmed, every key but those
/// that answer does nothing at all.
pub proof fn law_other_keys_are_swallowed(a: AppView, key: KeyEvent)
    requires
        a.confirming || a.raw_confirming,
        !answers_prompt(key),
    ensures
        a.on_key(key).0 == a,
        a.on_key(key).1 is None,
{
}

/// While any prompt is open, the mouse does nothing at all.
pub proof fn law_mouse_never_confirms(a: AppView, ev: MouseEvent)
    requires
        a.confirming || a.raw_confirming || a.raw_editing,
    ensures
        a.on_mouse(ev).0 == a,
        a.on_mouse(ev).1 is None,
{
}

/// Whether a command does what a prompt asks about first.
pub open spec fn needs_yes(cmd: Option<CmdView>) -> bool {
    cmd matches Some(c) && (c is Action || c is RawSet)
}

/// An action is only ever run, and a raw value only ever written, by answering
/// its own prompt with a yes: no other key, no mouse event and no message does
/// it.
#[verifier::rlimit(40)]
pub proof fn law_actions_need_a_yes(a: AppView, key: KeyEvent, ev: MouseEvent, msg: Msg)
    ensures
        needs_yes(a.on_key(key).1) ==> (a.confirming || a.raw_confirming) && (key.code
            == KeyCode::Char('y') || key.code == KeyCode::Char('Y')),
        a.on_key(key).1 matches Some(CmdView::Action { .. }) ==> a.confirming,
        !needs_yes(a.on_mouse(ev).1),
        !needs_yes(a.on_msg(msg).1),
{
}

/// A raw write goes to the focused feature, with the value that was confirmed,
/// and permits an unrecognized code exactly where that feature is one.
pub proof fn law_unrecognized_write_is_marked(a: AppView, key: KeyEvent)
    ensures
        a.on_key(key).1 matches Some(
            CmdView::RawSet { display_num, code, value, permit_unknown },
        ) ==> a.caps is Some && display_num == a.display_num() && value == a.raw_confirm_value
            && code == a.caps->0.features@[a.raw_cursor as int].code && permit_unknown
            == !a.caps->0.features@[a.raw_cursor as int].recognized,
{
}

/// The prompt for a raw write only opens with the number that was entered, and
/// no more digits can be typed than such a number can have.
pub proof fn law_raw_value_fits(a: AppView, key: KeyEvent)
    requires
        !a.raw_confirming,
        vstd::utf8::encode_utf8(a.raw_edit_input).len() <= 5,
    ensures
        vstd::utf8::encode_utf8(a.on_key(key).0.raw_edit_input).len() <= 5,
        a.on_key(key).0.raw_confirming ==> parsed(a.raw_edit_input, 10, 65535) == Some(
            a.on_key(key).0.raw_confirm_value as nat,
        ),
{
    let entered = a.raw_edit_input;
    match key.code {
        KeyCode::Char(c) => {
            lemma_encode_push(entered, c);
        },
        KeyCode::Backspace => {
            if entered.len() > 0 {
                lemma_encode_push(entered.drop_last(), entered.last());
                assert(entered.drop_last().push(entered.last()) =~= entered);
            }
        },
        _ => {},
    }
}

/// Entering a raw value never issues a command.
pub proof fn law_entering_issues_nothing(a: AppView, key: KeyEvent)
    requires
        a.raw_editing && !a.confirming && !a.raw_confirming,
    ensures
        a.on_key(key).1 is None,
{
}

// ---- moving --------------------------------------------------------------------

/// Moving up and down a list undo each other.
pub proof fn law_cursor_goes_back(cursor: usize, len: nat)
    requires
        cursor < len <= usize::MAX,
    ensures
        up(cursor, len) < len,
        down(cursor, len) < len,
        down(up(cursor, len), len) == cursor,
        up(down(cursor, len), len) == cursor,
{
    if cursor + 1 == len {
        assert(down(cursor, len) == 0) by {
            vstd::arithmetic::div_mod::lemma_mod_self_0(len as int);
        }
    } else {
        vstd::arithmetic::div_mod::lemma_small_mod((cursor + 1) as nat, len);
    }
    if cursor == 0 {
        vstd::arithmetic::div_mod::lemma_mod_self_0(len as int);
    } else {
        vstd::arithmetic::div_mod::lemma_small_mod(cursor as nat, len);
    }
}

/// Scrolling only moves a focus: it issues no command and touches no value,
/// whatever is under the pointer.
pub proof fn law_scrolling_issues_nothing(a: AppView, ev: MouseEvent)
    requires
        ev.kind == MouseEventKind::ScrollUp || ev.kind == MouseEventKind::ScrollDown,
    ensures
        a.on_mouse(ev).1 is None,
        ({
            let b = a.on_mouse(ev).0;
            b == AppView {
                cursor: b.cursor,
                picker_cursor: b.picker_cursor,
                raw_cursor: b.raw_cursor,
                ..a
            }
        }),
{
}

/// A page moves the focus of the Raw VCP screen to a feature that is there.
pub proof fn law_paging_stays_in_the_list(a: AppView, direction: int)
    requires
        0 < a.feature_count() <= usize::MAX,
    ensures
        a.page_raw(direction).raw_cursor < a.feature_count(),
{
}

/// Control-C quits, whatever is open.
pub proof fn law_control_c_quits(a: AppView, key: KeyEvent)
    requires
        key.code == KeyCode::Char('c') && key.ctrl,
    ensures
        a.on_key(key).0 == (AppView { should_quit: true, ..a }),
        a.on_key(key).1 is None,
{
}

// ---- displays ------------------------------------------------------------------

/// A single display is probed without being asked about.
pub proof fn law_one_display_is_never_asked_about(a: AppView, displays: Seq<Display>)
    requires
        displays.len() == 1,
    ensures
        a.with_displays(displays).0.screen == a.screen,
        a.with_displays(displays).0.display_chosen,
        a.with_displays(displays).1 == Some(CmdView::Probe(displays[0])),
{
}

/// Several displays, none of which has been chosen, are asked about, and none
/// is probed.
pub proof fn law_several_displays_are_asked_about(a: AppView, displays: Seq<Display>)
    requires
        displays.len() > 1,
        !a.display_chosen,
    ensures
        a.with_displays(displays).0.screen == Screen::Picker,
        !a.with_displays(displays).0.display_chosen,
        a.with_displays(displays).1 is None,
{
}

/// Once chosen, a display that is still there stays chosen across a refresh: it
/// is probed again, and the picker is not shown.
pub proof fn law_chosen_display_is_kept(a: AppView, displays: Seq<Display>)
    requires
        a.display_chosen,
        a.selected < displays.len(),
    ensures
        a.with_displays(displays).0.screen == a.screen,
        a.with_displays(displays).0.selected == a.selected,
        a.with_displays(displays).1 == Some(CmdView::Probe(displays[a.selected as int])),
{
}

/// Switching to a display leaves nothing of what was being controlled before:
/// what follows depends only on the displays and on what no display owns.
pub proof fn law_switching_display_drops_everything(a: AppView, idx: usize)
    requires
        idx < a.displays.len(),
    ensures
        ({
            let b = a.select_display(idx).0;
            &&& b.selected == idx && b.display_chosen && b.probing && b.screen == Screen::Controls
            &&& b.caps is None && b.probe_err is None && b.op_err is None
            &&& b.sliders.len() == 0 && b.selectors.len() == 0 && b.actions.len() == 0
            &&& b.order.len() == 0 && b.cursor == 0 && b.pending == Set::<u8>::empty()
            &&& !b.confirming && !b.raw_confirming && !b.raw_editing && !b.raw_writing
            &&& !b.raw_ready && !b.raw_loading && b.raw_err is None && b.raw_write_err is None
            &&& b.raw_readings == Map::<u8, FeatureReading>::empty()
            &&& b.raw_cursor == 0
        }),
        a.select_display(idx).1 == Some(CmdView::Probe(a.displays[idx as int])),
{
}

// ---- effects -------------------------------------------------------------------

/// A failure asks for exactly one flash, and a success for none.
pub proof fn law_errors_flash_once(a: AppView, msg: Msg)
    ensures
        msg matches Msg::Detect(Err(_)) ==> a.on_msg(msg).0.effects == a.effects.push(
            Effect::Error,
        ),
        msg matches Msg::Probe(Err(_)) ==> a.on_msg(msg).0.effects == a.effects.push(Effect::Error),
        msg matches Msg::SetValue { result: Err(_), .. } ==> a.on_msg(msg).0.effects
            == a.effects.push(Effect::Error),
        msg matches Msg::ActionDone { result: Err(_) } ==> a.on_msg(msg).0.effects
            == a.effects.push(Effect::Error),
        msg matches Msg::RawProbe(Err(_)) ==> a.on_msg(msg).0.effects == a.effects.push(
            Effect::Error,
        ),
        msg matches Msg::RawSet { result: Err(_), .. } ==> a.on_msg(msg).0.effects
            == a.effects.push(Effect::Error),
        msg matches Msg::SetValue { result: Ok(_), .. } ==> a.on_msg(msg).0.effects == a.effects,
        msg matches Msg::ActionDone { result: Ok(_) } ==> a.on_msg(msg).0.effects == a.effects,
        msg matches Msg::RawSet { result: Ok(_), .. } ==> a.on_msg(msg).0.effects == a.effects,
{
}

} // verus!
