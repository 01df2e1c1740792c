//! Driving the application with keys, the mouse and messages.

use vcpctl::app::{App, ClickTarget, Screen};
use vcpctl::backend::BackendError;
use vcpctl::cache::{CachedSelector, CachedSlider, MonitorCache};
use vcpctl::commands::{build_controls_from_cache, Cmd, CtrlKind, CtrlRef, Msg, ProbeOk};
use vcpctl::components::{Action, Selector, SelectorOption, Slider};
use vcpctl::input::{KeyCode, KeyEvent, MouseButton, MouseEvent, MouseEventKind, Rect};
use vcpctl::vcp::{Capabilities, Display, FeatureReading, RawBytes, VcpFeature, VcpValue};

fn key(code: KeyCode) -> KeyEvent {
    KeyEvent { code, ctrl: false }
}

fn char_key(c: char) -> KeyEvent {
    key(KeyCode::Char(c))
}

fn app_with_slider(code: u8, value: u16, max: u16) -> App {
    let mut app = App::new();
    app.loading = false;
    app.sliders = vec![Slider::new(code, "Test", value, max)];
    app.order = vec![CtrlRef {
        kind: CtrlKind::Slider,
        idx: 0,
    }];
    app.cursor = 0;
    app
}

fn app_with_selector(code: u8, options: Vec<SelectorOption>, current: u8) -> App {
    let mut app = App::new();
    app.loading = false;
    app.selectors = vec![Selector::new(code, "Test", options, current)];
    app.order = vec![CtrlRef {
        kind: CtrlKind::Selector,
        idx: 0,
    }];
    app.cursor = 0;
    app
}

fn app_with_action(code: u8, name: &str) -> App {
    let mut app = App::new();
    app.loading = false;
    app.actions = vec![Action {
        code,
        name: name.to_string(),
    }];
    app.order = vec![CtrlRef {
        kind: CtrlKind::Action,
        idx: 0,
    }];
    app.cursor = 0;
    app
}

fn recognized_feature(code: u8, name: &str) -> VcpFeature {
    VcpFeature {
        code,
        name: name.to_string(),
        recognized: true,
        manufacturer_specific: false,
        values: Vec::new(),
    }
}

fn raw_screen_app_with_two_features() -> App {
    let mut app = App::new();
    app.loading = false;
    app.screen = Screen::Raw;
    app.caps = Some(Capabilities {
        model: String::new(),
        mccs_version: String::new(),
        features: vec![
            recognized_feature(0x10, "Brightness"),
            VcpFeature {
                code: 0x4D,
                name: "Unrecognized feature".to_string(),
                recognized: false,
                manufacturer_specific: false,
                values: Vec::new(),
            },
        ],
    });
    app.raw_ready = true;
    app
}

fn sample_cache() -> MonitorCache {
    MonitorCache {
        version: 0,
        capabilities: Capabilities {
            model: String::new(),
            mccs_version: String::new(),
            features: vec![
                recognized_feature(0x10, "Brightness"),
                VcpFeature {
                    code: 0x14,
                    name: "Select color preset".to_string(),
                    recognized: true,
                    manufacturer_specific: false,
                    values: vec![
                        VcpValue {
                            code: 0x05,
                            name: "6500 K".to_string(),
                        },
                        VcpValue {
                            code: 0x08,
                            name: "9300 K".to_string(),
                        },
                    ],
                },
                recognized_feature(0x04, "Restore factory defaults"),
            ],
        },
        sliders: vec![CachedSlider {
            code: 0x10,
            max: 100,
            value: 80,
        }],
        selectors: vec![CachedSelector {
            code: 0x14,
            selected: 0x05,
        }],
        action_codes: vec![0x04],
    }
}

// ---- slider adjust / set lifecycle ---------------------------------

#[test]
fn right_key_issues_set_cmd_but_does_not_commit_yet() {
    let mut app = app_with_slider(0x12, 70, 100);
    let cmd = app.handle_key(char_key('l'));
    assert!(matches!(cmd, Some(Cmd::SetValue { .. })), "expected a Set cmd");
    assert_eq!(app.sliders[0].value, 70, "must not change optimistically before confirmation");
}

#[test]
fn set_msg_success_commits_value() {
    let mut app = app_with_slider(0x12, 70, 100);
    app.handle_msg(Msg::SetValue {
        code: 0x12,
        value: 75,
        result: Ok(()),
    });
    assert_eq!(app.sliders[0].value, 75);
    assert!(app.op_err.is_none());
}

#[test]
fn set_msg_failure_leaves_value_unchanged_and_surfaces_error() {
    // Mirrors what actually happens on real hardware: a write can be
    // accepted by the transport but silently rejected by the panel, so
    // verification fails.
    let mut app = app_with_slider(0x12, 70, 100);
    app.handle_msg(Msg::SetValue {
        code: 0x12,
        value: 65,
        result: Err(BackendError::msg("verification failed for feature 12")),
    });
    assert_eq!(app.sliders[0].value, 70, "value must not change when the write failed");
    assert!(app.op_err.is_some());
}

#[test]
fn at_upper_bound_right_key_is_noop() {
    let mut app = app_with_slider(0x10, 100, 100);
    assert!(app.handle_key(char_key('l')).is_none());
}

#[test]
fn at_lower_bound_left_key_is_noop() {
    let mut app = app_with_slider(0x10, 0, 100);
    assert!(app.handle_key(char_key('h')).is_none());
}

#[test]
fn cursor_navigation_wraps() {
    let mut app = App::new();
    app.loading = false;
    app.sliders = vec![Slider::new(0x10, "A", 50, 100), Slider::new(0x12, "B", 50, 100)];
    app.order = vec![
        CtrlRef { kind: CtrlKind::Slider, idx: 0 },
        CtrlRef { kind: CtrlKind::Slider, idx: 1 },
    ];
    app.cursor = 0;

    app.handle_key(char_key('k')); // up from 0 wraps to last
    assert_eq!(app.cursor, 1);

    app.handle_key(char_key('j')); // down from last wraps to 0
    assert_eq!(app.cursor, 0);
}

// ---- selector adjust / set lifecycle -------------------------------

fn input_source_options() -> Vec<SelectorOption> {
    vec![
        SelectorOption { code: 0x0f, name: "DisplayPort-1".to_string() },
        SelectorOption { code: 0x11, name: "HDMI-1".to_string() },
        SelectorOption { code: 0x12, name: "HDMI-2".to_string() },
    ]
}

#[test]
fn selector_right_key_cycles_to_next_option() {
    let mut app = app_with_selector(0x60, input_source_options(), 0x0f);
    let cmd = app.handle_key(char_key('l'));
    assert!(matches!(cmd, Some(Cmd::SetValue { .. })));
    assert_eq!(app.selectors[0].selected, 0x0f, "must not change optimistically before confirmation");
}

#[test]
fn selector_set_msg_success_commits_selection() {
    let mut app = app_with_selector(0x60, input_source_options(), 0x0f);
    app.handle_msg(Msg::SetValue {
        code: 0x60,
        value: 0x11,
        result: Ok(()),
    });
    assert_eq!(app.selectors[0].selected, 0x11);
}

#[test]
fn selector_single_option_is_noop() {
    let mut app = app_with_selector(
        0x14,
        vec![SelectorOption { code: 0x05, name: "Only Option".to_string() }],
        0x05,
    );
    assert!(app.handle_key(char_key('l')).is_none());
}

// ---- action confirmation flow --------------------------------------

#[test]
fn action_enter_opens_confirmation() {
    let mut app = app_with_action(0x04, "Restore factory defaults");
    let cmd = app.handle_key(key(KeyCode::Enter));
    assert!(app.confirming);
    assert!(cmd.is_none(), "opening the prompt should not itself issue a command");
}

#[test]
fn action_left_right_do_nothing() {
    // Actions have no value to adjust — left/right must be no-ops.
    let mut app = app_with_action(0x04, "Restore factory defaults");
    assert!(app.handle_key(char_key('l')).is_none());
    assert!(app.handle_key(char_key('h')).is_none());
}

#[test]
fn confirming_y_confirms_and_issues_action_cmd() {
    let mut app = app_with_action(0x04, "Restore factory defaults");
    app.confirming = true;
    app.confirm_action_idx = 0;

    let cmd = app.handle_key(char_key('y'));
    assert!(!app.confirming);
    assert!(matches!(cmd, Some(Cmd::Action { .. })));
}

#[test]
fn confirming_n_cancels_without_issuing_cmd() {
    let mut app = app_with_action(0x04, "Restore factory defaults");
    app.confirming = true;
    app.confirm_action_idx = 0;

    let cmd = app.handle_key(char_key('n'));
    assert!(!app.confirming);
    assert!(cmd.is_none());
}

#[test]
fn confirming_other_keys_are_swallowed() {
    // Nothing but y/n/esc/quit should have any effect while a
    // destructive action is pending confirmation.
    let mut app = app_with_action(0x04, "Restore factory defaults");
    app.confirming = true;
    app.confirm_action_idx = 0;

    let cmd = app.handle_key(char_key('j'));
    assert!(app.confirming, "confirmation should remain open for an unrelated key");
    assert!(cmd.is_none());
}

#[test]
fn action_msg_surfaces_error() {
    let mut app = app_with_action(0x04, "Restore factory defaults");
    app.handle_msg(Msg::ActionDone {
        result: Err(BackendError::msg("exit status 1")),
    });
    assert!(app.op_err.is_some());
}

// ---- raw screen entry ----------------------------------------------

#[test]
fn v_key_switches_to_raw_screen_and_triggers_probe() {
    let mut app = App::new();
    app.loading = false;
    app.caps = Some(Capabilities {
        model: String::new(),
        mccs_version: String::new(),
        features: vec![recognized_feature(0x10, "Brightness")],
    });

    let cmd = app.handle_key(char_key('v'));
    assert_eq!(app.screen, Screen::Raw);
    assert!(matches!(cmd, Some(Cmd::RawProbe { .. })));
}

#[test]
fn v_key_no_caps_yet_no_probe_cmd() {
    let mut app = App::new(); // caps is None (still loading/probing)
    let cmd = app.handle_key(char_key('v'));
    assert_eq!(app.screen, Screen::Raw, "should switch to Raw even without caps yet");
    assert!(cmd.is_none());
}

#[test]
fn v_key_already_scanned_no_redundant_probe() {
    let mut app = App::new();
    app.caps = Some(Capabilities {
        model: String::new(),
        mccs_version: String::new(),
        features: vec![recognized_feature(0x10, "Brightness")],
    });
    app.raw_ready = true;

    assert!(app.handle_key(char_key('v')).is_none());
}

#[test]
fn raw_screen_esc_returns_to_controls() {
    let mut app = App::new();
    app.screen = Screen::Raw;
    app.handle_key(key(KeyCode::Esc));
    assert_eq!(app.screen, Screen::Controls);
}

#[test]
fn raw_screen_v_key_toggles_back() {
    let mut app = App::new();
    app.screen = Screen::Raw;
    app.handle_key(char_key('v'));
    assert_eq!(app.screen, Screen::Controls);
}

#[test]
fn raw_screen_r_triggers_rescan() {
    let mut app = App::new();
    app.screen = Screen::Raw;
    app.caps = Some(Capabilities {
        model: String::new(),
        mccs_version: String::new(),
        features: vec![recognized_feature(0x10, "Brightness")],
    });
    app.raw_ready = true; // even if already scanned once, 'r' forces a fresh probe

    assert!(matches!(app.handle_key(char_key('r')), Some(Cmd::RawProbe { .. })));
}

#[test]
fn raw_probe_msg_populates_screen() {
    let mut app = App::new();
    app.caps = Some(Capabilities {
        model: String::new(),
        mccs_version: String::new(),
        features: vec![VcpFeature {
            code: 0x4D,
            name: "Unrecognized feature".to_string(),
            recognized: false,
            manufacturer_specific: false,
            values: Vec::new(),
        }],
    });
    app.raw_loading = true;

    app.handle_msg(Msg::RawProbe(Ok(vec![FeatureReading {
        code: 0x4D,
        readable: true,
        raw: Some(RawBytes { mh: 0xFF, ml: 0xFF, sh: 0x78, sl: 0x33 }),
        ..Default::default()
    }])));

    assert!(!app.raw_loading);
    assert!(app.raw_ready);
}

// ---- cache-hit control reconstruction -------------------------------

#[test]
fn build_controls_from_cache_reconstructs_all_three_kinds() {
    let (sliders, selectors, actions, order) = build_controls_from_cache(&sample_cache());

    assert_eq!(sliders.len(), 1);
    assert_eq!(sliders[0].value, 80);
    assert_eq!(sliders[0].max, 100);

    assert_eq!(selectors.len(), 1);
    assert_eq!(selectors[0].selected, 0x05);
    assert_eq!(selectors[0].options.len(), 2);

    assert_eq!(actions.len(), 1);
    assert_eq!(actions[0].code, 0x04);

    // Capabilities order is 0x10, 0x14, 0x04 — order must follow that,
    // not cache insertion order.
    assert_eq!(order.len(), 3);
    assert_eq!(order[0].kind, CtrlKind::Slider);
    assert_eq!(order[1].kind, CtrlKind::Selector);
    assert_eq!(order[2].kind, CtrlKind::Action);
}

#[test]
fn cached_controls_msg_marks_sliders_and_selectors_pending_not_actions() {
    let mut app = App::new();
    let (sliders, selectors, actions, order) = build_controls_from_cache(&sample_cache());

    app.handle_msg(Msg::CachedControls(ProbeOk {
        caps: sample_cache().capabilities,
        sliders,
        selectors,
        actions,
        order,
    }));

    assert!(app.pending.contains(&0x10), "cached slider should be pending confirmation");
    assert!(app.pending.contains(&0x14), "cached selector should be pending confirmation");
    assert!(!app.pending.contains(&0x04), "an action has no value to confirm — must never be pending");
}

#[test]
fn live_value_msg_success_updates_value_and_clears_pending() {
    let mut app = app_with_slider(0x10, 80, 100);
    app.pending.insert(0x10);

    app.handle_msg(Msg::LiveValue {
        code: 0x10,
        result: Ok(FeatureReading {
            code: 0x10,
            readable: true,
            continuous: true,
            current: 95,
            max: 100,
            ..Default::default()
        }),
    });

    assert_eq!(app.sliders[0].value, 95, "live value should replace the cached one");
    assert!(!app.pending.contains(&0x10));
}

#[test]
fn live_value_msg_error_keeps_cached_value_but_clears_pending() {
    let mut app = app_with_slider(0x10, 80, 100);
    app.pending.insert(0x10);

    app.handle_msg(Msg::LiveValue {
        code: 0x10,
        result: Err(BackendError::msg("transient failure")),
    });

    assert_eq!(app.sliders[0].value, 80, "a flaky read must not blank out the cached value");
    assert!(!app.pending.contains(&0x10), "pending must clear even when the live read failed");
}

#[test]
fn probe_msg_fresh_scan_has_no_pending() {
    let mut app = App::new();
    app.pending.insert(0x10); // leftover from a previous cached render, shouldn't survive

    app.handle_msg(Msg::Probe(Ok(ProbeOk {
        caps: Capabilities {
            model: String::new(),
            mccs_version: String::new(),
            features: vec![recognized_feature(0x10, "Brightness")],
        },
        sliders: vec![Slider::new(0x10, "Brightness", 80, 100)],
        selectors: Vec::new(),
        actions: Vec::new(),
        order: vec![CtrlRef { kind: CtrlKind::Slider, idx: 0 }],
    })));

    assert!(app.pending.is_empty(), "pending must be empty after a fresh (non-cached) scan");
}

// ---- effects ----------------------------------------------------------

#[test]
fn successful_probe_triggers_entrance_effect() {
    let mut app = App::new();
    assert!(!app.effects.is_running(), "nothing queued yet");

    app.handle_msg(Msg::Probe(Ok(ProbeOk {
        caps: Capabilities {
            model: String::new(),
            mccs_version: String::new(),
            features: vec![recognized_feature(0x10, "Brightness")],
        },
        sliders: vec![Slider::new(0x10, "Brightness", 80, 100)],
        selectors: Vec::new(),
        actions: Vec::new(),
        order: vec![CtrlRef { kind: CtrlKind::Slider, idx: 0 }],
    })));

    assert!(app.effects.is_running(), "a successful probe should queue an entrance effect");
}

#[test]
fn failed_detect_triggers_error_effect() {
    let mut app = App::new();
    app.handle_msg(Msg::Detect(Err(BackendError::msg("no displays"))));
    assert!(app.effects.is_running(), "a newly-surfaced error should queue a flash effect");
}

#[test]
fn failed_set_triggers_error_effect() {
    let mut app = app_with_slider(0x10, 50, 100);
    app.handle_msg(Msg::SetValue {
        code: 0x10,
        value: 55,
        result: Err(BackendError::msg("write failed")),
    });
    assert!(app.effects.is_running(), "a failed Set should queue a flash effect");
}

#[test]
fn switching_screens_triggers_transition_effect() {
    let mut app = app_with_slider(0x10, 50, 100);
    app.caps = Some(Capabilities {
        model: String::new(),
        mccs_version: String::new(),
        features: vec![recognized_feature(0x10, "Brightness")],
    });
    assert!(!app.effects.is_running());

    app.handle_key(char_key('v')); // Controls -> Raw
    assert!(app.effects.is_running(), "switching to the Raw screen should queue a transition effect");
}

// ---- display detection / picker -------------------------------------

#[test]
fn detect_msg_single_display_auto_selects_and_probes() {
    let mut app = App::new();
    let cmd = app.handle_msg(Msg::Detect(Ok(vec![Display {
        number: 0,
        mfg_id: "GSM".to_string(),
        ..Default::default()
    }])));

    assert_ne!(app.screen, Screen::Picker, "a single display must never show the picker");
    assert!(app.display_chosen);
    assert!(matches!(cmd, Some(Cmd::Probe(_))));
}

#[test]
fn detect_msg_multiple_displays_shows_picker_without_probing() {
    let mut app = App::new();
    let cmd = app.handle_msg(Msg::Detect(Ok(vec![
        Display { number: 0, mfg_id: "GSM".to_string(), ..Default::default() },
        Display { number: 1, mfg_id: "DEL".to_string(), ..Default::default() },
    ])));

    assert_eq!(app.screen, Screen::Picker);
    assert!(!app.display_chosen, "display_chosen must stay false until the picker is answered");
    assert!(cmd.is_none());
}

#[test]
fn detect_msg_already_chosen_skips_picker_on_refresh() {
    // Simulates pressing 'r' after already picking display 1: a
    // refresh re-detects but must not bounce back into the picker or
    // back to display 0.
    let mut app = App::new();
    app.display_chosen = true;
    app.selected = 1;

    let cmd = app.handle_msg(Msg::Detect(Ok(vec![
        Display { number: 0, mfg_id: "GSM".to_string(), ..Default::default() },
        Display { number: 1, mfg_id: "DEL".to_string(), ..Default::default() },
    ])));

    assert_ne!(app.screen, Screen::Picker, "a previously-chosen display must not re-trigger the picker");
    assert_eq!(app.selected, 1, "previous choice must be preserved");
    assert!(matches!(cmd, Some(Cmd::Probe(_))));
}

#[test]
fn picker_enter_selects_and_starts_probe() {
    let mut app = App::new();
    app.screen = Screen::Picker;
    app.displays = vec![
        Display { number: 0, mfg_id: "GSM".to_string(), ..Default::default() },
        Display { number: 1, mfg_id: "DEL".to_string(), ..Default::default() },
    ];
    app.picker_cursor = 1;

    let cmd = app.handle_key(key(KeyCode::Enter));
    assert_eq!(app.screen, Screen::Controls);
    assert_eq!(app.selected, 1);
    assert!(app.display_chosen);
    assert!(matches!(cmd, Some(Cmd::Probe(_))));
}

#[test]
fn picker_up_down_moves_cursor_and_wraps() {
    let mut app = App::new();
    app.screen = Screen::Picker;
    app.displays = vec![
        Display::default(),
        Display::default(),
        Display::default(),
    ];

    app.handle_key(char_key('k')); // up from 0 wraps to last
    assert_eq!(app.picker_cursor, 2);

    app.handle_key(char_key('j')); // down from last wraps to 0
    assert_eq!(app.picker_cursor, 0);
}

#[test]
fn controls_screen_d_key_switches_to_picker_when_multiple_displays() {
    let mut app = App::new();
    app.displays = vec![Display::default(), Display::default()];
    app.selected = 1;
    app.display_chosen = true;

    app.handle_key(char_key('D'));
    assert_eq!(app.screen, Screen::Picker);
    assert_eq!(app.picker_cursor, 1, "should start on the currently selected display");
}

#[test]
fn controls_screen_d_key_is_noop_with_single_display() {
    let mut app = App::new();
    app.displays = vec![Display::default()];
    app.display_chosen = true;

    let cmd = app.handle_key(char_key('D'));
    assert_ne!(app.screen, Screen::Picker, "'D' must be a no-op with only one display");
    assert!(cmd.is_none());
}

// ---- raw screen navigation / editing --------------------------------

#[test]
fn raw_screen_down_moves_cursor_and_wraps() {
    let mut app = raw_screen_app_with_two_features();
    app.handle_key(char_key('j'));
    assert_eq!(app.raw_cursor, 1);
    app.handle_key(char_key('j'));
    assert_eq!(app.raw_cursor, 0);
}

#[test]
fn raw_screen_up_wraps_to_last() {
    let mut app = raw_screen_app_with_two_features();
    app.handle_key(char_key('k'));
    assert_eq!(app.raw_cursor, 1);
}

#[test]
fn raw_screen_e_key_enters_edit_mode() {
    let mut app = raw_screen_app_with_two_features();
    let cmd = app.handle_key(char_key('e'));
    assert!(app.raw_editing);
    assert!(cmd.is_none());
}

#[test]
fn raw_editing_digits_append_to_input() {
    let mut app = raw_screen_app_with_two_features();
    app.raw_editing = true;
    app.handle_key(char_key('7'));
    app.handle_key(char_key('5'));
    assert_eq!(app.raw_edit_input, "75");
}

#[test]
fn raw_editing_non_digits_are_ignored() {
    let mut app = raw_screen_app_with_two_features();
    app.raw_editing = true;
    app.handle_key(char_key('x'));
    assert_eq!(app.raw_edit_input, "");
}

#[test]
fn raw_editing_backspace_deletes_last_digit() {
    let mut app = raw_screen_app_with_two_features();
    app.raw_editing = true;
    app.raw_edit_input = "12".to_string();
    app.handle_key(key(KeyCode::Backspace));
    assert_eq!(app.raw_edit_input, "1");
}

#[test]
fn raw_editing_esc_cancels() {
    let mut app = raw_screen_app_with_two_features();
    app.raw_editing = true;
    app.raw_edit_input = "42".to_string();
    app.handle_key(key(KeyCode::Esc));
    assert!(!app.raw_editing);
    assert_eq!(app.raw_edit_input, "");
}

#[test]
fn raw_editing_enter_with_valid_value_moves_to_confirming() {
    let mut app = raw_screen_app_with_two_features();
    app.raw_editing = true;
    app.raw_edit_input = "42".to_string();

    let cmd = app.handle_key(key(KeyCode::Enter));
    assert!(!app.raw_editing);
    assert!(app.raw_confirming);
    assert_eq!(app.raw_confirm_value, 42);
    assert!(cmd.is_none());
}

#[test]
fn raw_editing_enter_with_empty_input_sets_error() {
    let mut app = raw_screen_app_with_two_features();
    app.raw_editing = true;

    app.handle_key(key(KeyCode::Enter));
    assert!(app.raw_editing, "should remain in edit mode after an invalid value");
    assert!(!app.raw_edit_err.is_empty());
}

#[test]
fn raw_editing_enter_with_out_of_range_value_sets_error() {
    let mut app = raw_screen_app_with_two_features();
    app.raw_editing = true;
    app.raw_edit_input = "999999".to_string();

    app.handle_key(key(KeyCode::Enter));
    assert!(!app.raw_confirming, "an out-of-range value must be rejected, not sent to confirmation");
    assert!(!app.raw_edit_err.is_empty());
}

#[test]
fn raw_confirming_y_issues_raw_set_cmd() {
    let mut app = raw_screen_app_with_two_features();
    app.raw_cursor = 0; // recognized code 0x10
    app.raw_confirming = true;
    app.raw_confirm_value = 50;

    let cmd = app.handle_key(char_key('y'));
    assert!(!app.raw_confirming);
    assert!(app.raw_writing, "expected raw_writing=true while the write is in flight");
    assert!(matches!(cmd, Some(Cmd::RawSet { .. })));
}

#[test]
fn raw_confirming_n_cancels_without_issuing_cmd() {
    let mut app = raw_screen_app_with_two_features();
    app.raw_confirming = true;
    app.raw_confirm_value = 50;

    let cmd = app.handle_key(char_key('n'));
    assert!(!app.raw_confirming);
    assert!(cmd.is_none());
}

#[test]
fn raw_confirming_other_keys_are_swallowed() {
    let mut app = raw_screen_app_with_two_features();
    app.raw_confirming = true;
    app.raw_confirm_value = 50;

    let cmd = app.handle_key(char_key('j'));
    assert!(app.raw_confirming, "confirmation should remain open for an unrelated key");
    assert!(cmd.is_none());
}

#[test]
fn raw_set_msg_success_clears_writing_and_triggers_refresh() {
    let mut app = raw_screen_app_with_two_features();
    app.raw_writing = true;

    let cmd = app.handle_msg(Msg::RawSet { code: 0x10, result: Ok(()) });
    assert!(!app.raw_writing);
    assert!(app.raw_write_err.is_none());
    assert!(
        matches!(cmd, Some(Cmd::RawSingleProbe { .. })),
        "expected a follow-up single-code probe to refresh the row"
    );
}

#[test]
fn raw_set_msg_failure_surfaces_error() {
    let mut app = raw_screen_app_with_two_features();
    app.raw_writing = true;

    app.handle_msg(Msg::RawSet {
        code: 0x10,
        result: Err(BackendError::msg("verification failed")),
    });
    assert!(!app.raw_writing);
    assert!(app.raw_write_err.is_some());
}

#[test]
fn raw_single_probe_msg_updates_reading() {
    let mut app = raw_screen_app_with_two_features();

    app.handle_msg(Msg::RawSingleProbe {
        code: 0x10,
        result: Ok(FeatureReading {
            code: 0x10,
            readable: true,
            continuous: true,
            current: 55,
            max: 100,
            ..Default::default()
        }),
    });

    let r = app.raw_readings.get(&0x10).expect("expected raw_readings[0x10] to be populated");
    assert_eq!(r.current, 55);
}

// ---- mouse handling -------------------------------------------------

fn mouse(kind: MouseEventKind, row: u16) -> MouseEvent {
    MouseEvent {
        kind,
        column: 0,
        row,
    }
}

fn left_click(row: u16) -> MouseEvent {
    mouse(MouseEventKind::Down(MouseButton::Left), row)
}

/// Same as `left_click`/`mouse`, but with an explicit column — needed
/// for anything that depends on *where* in the row the pointer was,
/// i.e. a slider's bar.
fn mouse_at(kind: MouseEventKind, row: u16, col: u16) -> MouseEvent {
    MouseEvent {
        kind,
        column: col,
        row,
    }
}

fn click_at(row: u16, col: u16) -> MouseEvent {
    mouse_at(MouseEventKind::Down(MouseButton::Left), row, col)
}

fn drag_at(row: u16, col: u16) -> MouseEvent {
    mouse_at(MouseEventKind::Drag(MouseButton::Left), row, col)
}

/// The bar's inclusive column range for `probe`, found by scanning
/// rather than hardcoding `Slider`'s private layout constants —
/// keeps these tests correct even if the bar's position/width ever
/// changes (it already has once, when the name column widened).
fn bar_col_range(probe: &Slider) -> (u16, u16) {
    let cols: Vec<u16> = (0..200).filter(|&c| probe.value_at_column(c).is_some()).collect();
    (*cols.first().expect("slider should have a non-empty bar"), *cols.last().unwrap())
}

#[test]
fn click_on_slider_row_before_the_bar_only_focuses() {
    let mut app = app_with_slider(0x10, 50, 100);
    app.click_origin_row = 0;
    app.click_targets = vec![Some(ClickTarget::Order(0))];
    app.cursor = 99; // deliberately wrong, to prove the click corrects it

    // Column 0 lands in the name label, well before the bar starts
    // (see components::slider's BAR_START_COL/its own tests) — click
    // there should focus, not set a value.
    let cmd = app.handle_mouse(left_click(0));
    assert_eq!(app.cursor, 0);
    assert!(cmd.is_none(), "clicking the label shouldn't set a value");
    assert_eq!(app.sliders[0].value, 50);
}

#[test]
fn click_inside_slider_bar_sets_the_value_it_maps_to() {
    let mut app = app_with_slider(0x10, 0, 100);
    app.click_origin_row = 0;
    app.click_origin_col = 0;
    app.click_targets = vec![Some(ClickTarget::Order(0))];

    // The exact column->value mapping is components::Slider's own
    // concern (see its tests) — this only needs to check that a
    // click *inside* the bar reaches it and issues the value it
    // reports, not re-derive the geometry.
    // The slider starts at value 0, so pick a column comfortably
    // inside the bar but away from its very first cell — that one
    // also maps to 0, which would make the click a no-op (nothing
    // *changed*) rather than exercising an actual Set.
    let probe = Slider::new(0x10, "Test", 0, 100);
    let col = bar_col_range(&probe).0 + 10;
    let expected = probe.value_at_column(col).expect("test's column must land inside the bar");
    assert_ne!(expected, 0, "test's column must map to a value different from the slider's starting value");

    let cmd = app.handle_mouse(click_at(0, col));
    assert!(matches!(cmd, Some(Cmd::SetValue { value, .. }) if value == expected));
}

#[test]
fn click_past_slider_bar_on_the_value_text_only_focuses() {
    let mut app = app_with_slider(0x10, 50, 100);
    app.click_origin_row = 0;
    app.click_origin_col = 0;
    app.click_targets = vec![Some(ClickTarget::Order(0))];

    let probe = Slider::new(0x10, "Test", 0, 100);
    let col = bar_col_range(&probe).1 + 5; // comfortably past the bar's right edge, on "▌ NNN"
    assert_eq!(probe.value_at_column(col), None, "test's column must land past the bar");

    let cmd = app.handle_mouse(click_at(0, col));
    assert!(cmd.is_none());
    assert_eq!(app.sliders[0].value, 50);
}

#[test]
fn drag_across_slider_bar_updates_value_continuously() {
    let mut app = app_with_slider(0x10, 0, 100);
    app.click_origin_row = 0;
    app.click_origin_col = 0;
    app.click_targets = vec![Some(ClickTarget::Order(0))];

    let probe = Slider::new(0x10, "Test", 0, 100);
    let (first, last) = bar_col_range(&probe);
    let (col_a, col_b) = (first + 2, last - 2);
    let value_a = probe.value_at_column(col_a).unwrap();
    let value_b = probe.value_at_column(col_b).unwrap();
    assert_ne!(value_a, value_b, "test's two columns must map to different values");

    let cmd_a = app.handle_mouse(drag_at(0, col_a));
    assert!(matches!(cmd_a, Some(Cmd::SetValue { value, .. }) if value == value_a));

    // A real drag would have its value committed by `Msg::Set`
    // between these two points — do that by hand so the second drag
    // is compared against the updated value, not the stale one.
    app.sliders[0].value = value_a;

    let cmd_b = app.handle_mouse(drag_at(0, col_b));
    assert!(matches!(cmd_b, Some(Cmd::SetValue { value, .. }) if value == value_b));
}

#[test]
fn drag_off_the_bar_is_a_noop() {
    let mut app = app_with_slider(0x10, 50, 100);
    app.click_origin_row = 0;
    app.click_origin_col = 0;
    app.click_targets = vec![Some(ClickTarget::Order(0))];

    let cmd = app.handle_mouse(drag_at(0, 0)); // column 0: before the bar
    assert!(cmd.is_none());
    assert_eq!(app.sliders[0].value, 50);
}

#[test]
fn drag_over_a_selector_is_a_noop() {
    let mut app = app_with_selector(0x60, input_source_options(), 0x0f);
    app.click_origin_row = 0;
    app.click_origin_col = 0;
    app.click_targets = vec![Some(ClickTarget::Order(0))];

    let cmd = app.handle_mouse(drag_at(0, 30));
    assert!(cmd.is_none(), "drag only ever does something on a slider's bar");
    assert_eq!(app.selectors[0].selected, 0x0f);
}

#[test]
fn click_on_selector_row_advances_to_next_option() {
    let mut app = app_with_selector(0x60, input_source_options(), 0x0f);
    app.click_origin_row = 0;
    app.click_targets = vec![Some(ClickTarget::Order(0))];

    let cmd = app.handle_mouse(left_click(0));
    assert_eq!(app.cursor, 0);
    assert!(matches!(cmd, Some(Cmd::SetValue { .. })), "expected a Set cmd");
    assert_eq!(
        app.selectors[0].selected, 0x0f,
        "must not change optimistically before confirmation, same as the key path"
    );
}

#[test]
fn click_on_action_row_opens_confirmation() {
    let mut app = app_with_action(0x04, "Restore factory defaults");
    app.click_origin_row = 0;
    app.click_targets = vec![Some(ClickTarget::Order(0))];

    let cmd = app.handle_mouse(left_click(0));
    assert!(app.confirming);
    assert_eq!(app.confirm_action_idx, 0);
    assert!(cmd.is_none(), "opening the confirm prompt issues no cmd yet");
}

#[test]
fn click_outside_click_targets_is_a_noop() {
    let mut app = app_with_slider(0x10, 50, 100);
    app.click_origin_row = 0;
    app.click_targets = vec![Some(ClickTarget::Order(0))];
    app.cursor = 0;

    let cmd = app.handle_mouse(left_click(5)); // past the end of click_targets
    assert!(cmd.is_none());
    assert_eq!(app.cursor, 0);
}

#[test]
fn scroll_over_a_slider_row_only_moves_cursor_never_adjusts_value() {
    let mut app = App::new();
    app.loading = false;
    app.sliders = vec![Slider::new(0x10, "A", 50, 100), Slider::new(0x12, "B", 50, 100)];
    app.order = vec![
        CtrlRef { kind: CtrlKind::Slider, idx: 0 },
        CtrlRef { kind: CtrlKind::Slider, idx: 1 },
    ];
    app.cursor = 0;
    // A real click target *is* present under row 0 this time (unlike
    // the header/blank-line case below) — scroll must still just
    // move the cursor, never touch the value under the pointer.
    app.click_origin_row = 0;
    app.click_targets = vec![Some(ClickTarget::Order(0)), Some(ClickTarget::Order(1))];

    let cmd = app.handle_mouse(mouse(MouseEventKind::ScrollDown, 0));
    assert!(cmd.is_none(), "scroll must never issue a Set, even hovering a slider");
    assert_eq!(app.cursor, 1);
    assert_eq!(app.sliders[0].value, 50, "the value under the pointer must be untouched");
}

#[test]
fn scroll_off_any_control_row_moves_cursor_instead() {
    let mut app = App::new();
    app.loading = false;
    app.sliders = vec![Slider::new(0x10, "A", 50, 100), Slider::new(0x12, "B", 50, 100)];
    app.order = vec![
        CtrlRef { kind: CtrlKind::Slider, idx: 0 },
        CtrlRef { kind: CtrlKind::Slider, idx: 1 },
    ];
    app.cursor = 0;
    // No click target at all under row 0 (e.g. it's a header/blank
    // line) — scrolling there should move the cursor, not the slider
    // under it.
    app.click_origin_row = 0;
    app.click_targets = vec![None];

    let cmd = app.handle_mouse(mouse(MouseEventKind::ScrollDown, 0));
    assert!(cmd.is_none());
    assert_eq!(app.cursor, 1);
}

#[test]
fn click_on_display_row_switches_display_when_multiple() {
    let mut app = App::new();
    app.loading = false;
    app.displays = vec![
        Display {
            number: 1,
            mfg_id: "AAA".into(),
            model: "One".into(),
            ..Default::default()
        },
        Display {
            number: 2,
            mfg_id: "BBB".into(),
            model: "Two".into(),
            ..Default::default()
        },
    ];
    app.display_chosen = true;
    app.selected = 0;
    app.click_origin_row = 0;
    app.click_targets = vec![Some(ClickTarget::Display(0)), Some(ClickTarget::Display(1))];

    let cmd = app.handle_mouse(left_click(1));
    assert!(matches!(cmd, Some(Cmd::Probe(d)) if d.number == 2), "expected a Probe cmd for display 2");
    assert_eq!(app.selected, 1);
}

#[test]
fn mouse_is_ignored_while_confirming() {
    let mut app = app_with_action(0x04, "Restore factory defaults");
    app.confirming = true;
    app.confirm_action_idx = 0;
    app.click_origin_row = 0;
    app.click_targets = vec![Some(ClickTarget::Order(0))];

    let cmd = app.handle_mouse(left_click(0));
    assert!(cmd.is_none(), "the destructive-action gate must stay keyboard-only");
    assert!(app.confirming, "must still be waiting on y/n");
}

#[test]
fn picker_click_selects_display() {
    let mut app = App::new();
    app.loading = false;
    app.screen = Screen::Picker;
    app.displays = vec![
        Display {
            number: 1,
            mfg_id: "AAA".into(),
            ..Default::default()
        },
        Display {
            number: 2,
            mfg_id: "BBB".into(),
            ..Default::default()
        },
    ];
    app.click_origin_row = 0;
    app.click_targets = vec![Some(ClickTarget::Display(0)), Some(ClickTarget::Display(1))];

    let cmd = app.handle_mouse(left_click(1));
    assert_eq!(app.picker_cursor, 1);
    assert!(matches!(cmd, Some(Cmd::Probe(d)) if d.number == 2));
}

#[test]
fn raw_screen_click_selects_row_accounting_for_scroll_offset() {
    let mut app = raw_screen_app_with_two_features();
    app.raw_table_area = Rect {
        x: 0,
        y: 0,
        width: 40,
        height: 5,
    };
    app.raw_table_state.offset = 1; // scrolled past feature 0
    app.raw_cursor = 0;

    // Row 0 is the table's own header; row 1 (area.y + header) is the
    // first *data* row, which — with offset 1 — is feature index 1.
    let cmd = app.handle_mouse(left_click(1));
    assert!(cmd.is_none());
    assert_eq!(app.raw_cursor, 1);
}

#[test]
fn raw_screen_scroll_moves_cursor_and_wraps() {
    let mut app = raw_screen_app_with_two_features();
    app.raw_cursor = 1; // last of the two features

    let cmd = app.handle_mouse(mouse(MouseEventKind::ScrollDown, 0));
    assert!(cmd.is_none());
    assert_eq!(app.raw_cursor, 0, "should wrap back to the first feature");
}

// ---- what holds across events --------------------------------------------------

#[test]
fn control_c_quits_whatever_is_open() {
    let mut app = app_with_action(0x04, "Reset");
    app.handle_key(key(KeyCode::Enter));
    assert!(app.confirming);
    let cmd = app.handle_key(KeyEvent { code: KeyCode::Char('c'), ctrl: true });
    assert!(cmd.is_none() && app.should_quit && app.confirming);
}

#[test]
fn a_yes_needs_what_its_prompt_is_about() {
    let mut app = app_with_action(0x04, "Reset");
    app.handle_key(key(KeyCode::Enter));
    assert!(app.can_answer(char_key('y')) && app.can_draw());
    app.actions.clear();
    app.order.clear();
    assert!(!app.can_answer(char_key('y')) && !app.can_answer(char_key('Y')));
    assert!(!app.can_draw());
    assert!(app.can_answer(char_key('n')));
    assert!(app.handle_key(char_key('n')).is_none());
    assert!(!app.confirming && app.can_draw());

    let mut app = raw_screen_app_with_two_features();
    app.raw_confirming = true;
    app.raw_cursor = 2;
    assert!(!app.can_answer(char_key('y')) && !app.can_draw());
    app.screen = Screen::Picker;
    assert!(app.can_draw());
    app.caps = None;
    assert!(app.can_answer(char_key('y')));
    assert!(app.handle_key(char_key('y')).is_none());
    assert!(app.raw_confirming);
}

#[test]
fn paging_stays_in_the_list() {
    let mut app = raw_screen_app_with_two_features();
    app.raw_visible_rows = 10;
    app.handle_key(key(KeyCode::PageDown));
    assert_eq!(app.raw_cursor, 1);
    app.handle_key(char_key('b'));
    assert_eq!(app.raw_cursor, 0);
    app.raw_visible_rows = 0;
    app.handle_key(char_key('f'));
    assert_eq!(app.raw_cursor, 1, "a page is at least one row");
    app.caps = None;
    app.handle_key(key(KeyCode::PageUp));
    assert_eq!(app.raw_cursor, 1);
}

#[test]
fn rescanning_forgets_the_display() {
    let mut app = app_with_slider(0x10, 50, 100);
    assert!(matches!(app.handle_key(char_key('R')), Some(Cmd::Detect)), "there is no display yet");

    let mut app = app_with_slider(0x10, 50, 100);
    app.displays = vec![Display { number: 4, ..Default::default() }];
    app.op_err = Some("x".to_string());
    app.raw_readings.insert(0x10, FeatureReading::default());
    let cmd = app.handle_key(char_key('R'));
    assert!(matches!(cmd, Some(Cmd::Rescan(d)) if d.number == 4));
    assert!(app.loading && !app.probing);
    assert!(app.sliders.is_empty() && app.order.is_empty() && app.raw_readings.is_empty());
    assert!(app.op_err.is_none());
    assert_eq!(app.displays.len(), 1);
}

#[test]
fn a_vanished_display_gives_way_to_the_first() {
    let mut app = App::new();
    app.display_chosen = true;
    app.selected = 5;
    let displays = vec![
        Display { number: 1, ..Default::default() },
        Display { number: 2, ..Default::default() },
    ];
    let cmd = app.handle_msg(Msg::Detect(Ok(displays)));
    assert!(matches!(cmd, Some(Cmd::Probe(d)) if d.number == 1));
    assert_eq!(app.selected, 0);
    assert!(app.handle_msg(Msg::Detect(Ok(Vec::new()))).is_none());
    assert_eq!(app.display_num(), 0);
    assert!(app.current_display().is_none());
}

#[test]
fn switching_display_drops_everything() {
    let mut app = app_with_slider(0x10, 50, 100);
    app.displays = vec![
        Display { number: 1, ..Default::default() },
        Display { number: 2, ..Default::default() },
    ];
    app.caps = Some(Capabilities::default());
    app.pending.insert(0x10);
    app.raw_ready = true;
    app.raw_write_err = Some("x".to_string());
    app.handle_key(char_key('D'));
    app.handle_key(key(KeyCode::Down));
    let cmd = app.handle_key(key(KeyCode::Enter));
    assert!(matches!(cmd, Some(Cmd::Probe(d)) if d.number == 2));
    assert!(app.caps.is_none() && app.sliders.is_empty() && app.pending.is_empty());
    assert!(!app.raw_ready && app.raw_write_err.is_none() && app.probing);
    assert_eq!(app.display_num(), 2);
}

#[test]
fn a_slider_takes_no_live_reading_that_is_not_continuous() {
    let mut app = app_with_slider(0x10, 50, 100);
    let reading = FeatureReading { code: 0x10, readable: true, current: 7, ..Default::default() };
    app.handle_msg(Msg::LiveValue { code: 0x10, result: Ok(reading) });
    assert_eq!((app.sliders[0].value, app.sliders[0].max), (50, 100));
}

#[test]
fn a_selector_takes_no_generic_live_reading() {
    let option = |code: u8, name: &str| SelectorOption { code, name: name.to_string() };
    let options = vec![option(0x11, "HDMI-1"), option(0x12, "HDMI-2")];
    let mut app = app_with_selector(0x60, options, 0x11);
    app.pending.insert(0x60);
    let reading = FeatureReading { code: 0x60, readable: true, generic: true, ..Default::default() };
    app.handle_msg(Msg::LiveValue { code: 0x60, result: Ok(reading) });
    assert_eq!(app.selectors[0].selected, 0x11);
    assert!(app.pending.is_empty());
    let reading = FeatureReading { code: 0x60, readable: true, current: 0x12, ..Default::default() };
    app.handle_msg(Msg::LiveValue { code: 0x60, result: Ok(reading) });
    assert_eq!(app.selectors[0].selected, 0x12);
}

#[test]
fn what_is_entered_is_limited_by_its_bytes() {
    let mut app = raw_screen_app_with_two_features();
    app.raw_editing = true;
    app.raw_edit_input = "éé".to_string();
    app.handle_key(char_key('1'));
    app.handle_key(char_key('2'));
    assert_eq!(app.raw_edit_input, "éé1");
    app.raw_edit_input = "1234".to_string();
    app.handle_key(char_key('5'));
    app.handle_key(char_key('6'));
    assert_eq!(app.raw_edit_input, "12345");
}

#[test]
fn the_last_reading_of_a_code_wins() {
    let mut app = raw_screen_app_with_two_features();
    app.raw_loading = true;
    let reading = |current| FeatureReading { code: 0x10, readable: true, current, ..Default::default() };
    app.handle_msg(Msg::RawProbe(Ok(vec![reading(1), reading(2)])));
    assert!(app.raw_ready && !app.raw_loading);
    assert_eq!(app.raw_readings[&0x10].current, 2);
    app.handle_msg(Msg::RawProbe(Err(BackendError::Io("gone".to_string()))));
    assert_eq!(app.raw_err.as_deref(), Some("gone"));
    assert_eq!(app.raw_readings.len(), 1);
}

#[test]
fn an_empty_list_has_its_focus_at_the_top() {
    let mut app = App::new();
    app.cursor = 3;
    app.handle_mouse(mouse(MouseEventKind::ScrollDown, 0));
    assert_eq!(app.cursor, 0);
    app.cursor = 3;
    app.handle_key(key(KeyCode::Down));
    assert_eq!(app.cursor, 3, "a key leaves it alone");
}
