//! What the screens show.

use std::collections::HashMap;

use vcpctl::app::{App, ClickTarget, Screen};
use vcpctl::commands::{CtrlKind, CtrlRef};
use vcpctl::components::{Action, Selector, SelectorOption, Slider};
use vcpctl::input::{MouseButton, MouseEvent, MouseEventKind, Rect};
use vcpctl::screens::raw::{build_table, raw_value_string, Content, ScrollBar};
use vcpctl::screens::{controls, picker, raw};
use vcpctl::styles;
use vcpctl::styles::Line;
use vcpctl::ui;
use vcpctl::vcp::{Capabilities, Display, FeatureReading, RawBytes, VcpFeature};

fn text(line: &Line) -> String {
    line.spans.iter().map(|s| s.text.as_str()).collect()
}

fn texts(lines: &[Line]) -> Vec<String> {
    lines.iter().map(text).collect()
}

fn shown(content: Content) -> Vec<String> {
    match content {
        Content::Text(lines) => texts(&lines),
        Content::Table(_) => panic!("expected text"),
    }
}

fn feature(code: u8, name: &str, recognized: bool) -> VcpFeature {
    VcpFeature { code, name: name.to_string(), recognized, ..Default::default() }
}

fn display(number: i32, model: &str) -> Display {
    Display {
        number,
        bus: "/dev/i2c-2".to_string(),
        connector: String::new(),
        mfg_id: "GSM".to_string(),
        model: model.to_string(),
        vcp_version: "2.1".to_string(),
    }
}

fn area() -> Rect {
    Rect { x: 10, y: 3, width: 80, height: 24 }
}

/// An app with an audio slider, an input selector, a power action and a
/// brightness slider, in that order.
fn app_with_controls() -> App {
    let mut app = App::new();
    app.loading = false;
    app.displays = vec![display(1, "LG")];
    app.caps = Some(Capabilities {
        model: String::new(),
        mccs_version: "2.1".to_string(),
        features: vec![
            feature(0x62, "Volume", true),
            feature(0x60, "Input Source", true),
            feature(0x04, "Reset", true),
            feature(0x4d, "Unrecognized feature", false),
            feature(0x10, "Brightness", true),
        ],
    });
    app.sliders = vec![Slider::new(0x62, "Volume", 5, 10), Slider::new(0x10, "Brightness", 80, 100)];
    app.selectors = vec![Selector::new(
        0x60,
        "Input Source",
        vec![SelectorOption { code: 0x11, name: "HDMI-1".to_string() }],
        0x11,
    )];
    app.actions = vec![Action { code: 0x04, name: "Reset".to_string() }];
    app.order = vec![
        CtrlRef { kind: CtrlKind::Slider, idx: 0 },
        CtrlRef { kind: CtrlKind::Selector, idx: 0 },
        CtrlRef { kind: CtrlKind::Action, idx: 0 },
        CtrlRef { kind: CtrlKind::Slider, idx: 1 },
    ];
    app
}

// ---- raw values ----------------------------------------------------------------

#[test]
fn raw_value_string_generic_reading_omits_fabricated_code() {
    let r = FeatureReading {
        readable: true,
        generic: true,
        label: "1164 hz".to_string(),
        ..Default::default()
    };
    let got = raw_value_string(Some(&r));
    assert_eq!(got, "1164 hz", "must not fabricate a hex code for a generic reading");
    assert!(!got.contains("0x00"));
}

#[test]
fn raw_value_string_known_enum_keeps_code() {
    let r = FeatureReading {
        readable: true,
        label: "6500 K".to_string(),
        current: 0x05,
        ..Default::default()
    };
    assert_eq!(raw_value_string(Some(&r)), "6500 K (0x05)");
}

#[test]
fn raw_value_string_not_probed() {
    let got = raw_value_string(None);
    assert!(got.contains("not probed"), "got {got:?}");
}

#[test]
fn raw_value_string_not_readable_action() {
    let r = FeatureReading { readable: false, ..Default::default() };
    let got = raw_value_string(Some(&r));
    assert!(got.contains("write-only"), "got {got:?}");
}

#[test]
fn raw_value_string_raw_unknown_shows_bytes() {
    let r = FeatureReading {
        readable: true,
        current: 0x1f,
        raw: Some(RawBytes { mh: 0xff, ml: 0xff, sh: 0x00, sl: 0x1f }),
        ..Default::default()
    };
    let got = raw_value_string(Some(&r));
    assert!(got.contains("sl=1F") || got.contains("sl=1f"), "got {got:?}");
    assert_eq!(got, "0x1F  (mh=FF ml=FF sh=00 sl=1F)");
}

#[test]
fn raw_value_string_other_forms() {
    let mut r = FeatureReading {
        readable: true,
        continuous: true,
        current: 80,
        max: 100,
        ..Default::default()
    };
    assert_eq!(raw_value_string(Some(&r)), "80 / 100");
    r.continuous = false;
    r.current = 0x1234;
    assert_eq!(raw_value_string(Some(&r)), "0x1234");
}

// ---- the controls screen -------------------------------------------------------

#[test]
fn controls_are_shown_section_by_section() {
    let mut app = app_with_controls();
    app.cursor = 3;
    app.pending.insert(0x10);
    let (lines, targets) = controls::render(&app);
    assert_eq!(
        texts(&lines),
        vec![
            "● GSM LG (/dev/i2c-2, VCP 2.1)",
            "",
            "● MCCS 2.1",
            "5 VCP features declared · 4 shown as controls · 1 unrecognized/mfg-specific",
            "",
            "DISPLAY",
            "▸ Brightness         [████████████████░░░░]  80 …",
            "AUDIO",
            "  Volume             [██████████░░░░░░░░░░]   5",
            "POWER",
            "  [ Reset ]",
            "INPUT",
            "  Input Source       ‹ HDMI-1 ›",
            "",
            "↑↓ navigate · ←→ adjust · enter run action · click/scroll · v raw VCP · r refresh · R rescan · q quit",
        ]
    );
    assert_eq!(lines[5].style, styles::section());
    assert_eq!(targets.len(), lines.len());
    assert_eq!(targets[0], None, "one display is nothing to choose");
    assert_eq!(targets[5], None, "a heading cannot be clicked");
    assert_eq!(targets[6], Some(ClickTarget::Order(3)));
    assert_eq!(targets[8], Some(ClickTarget::Order(0)));
    assert_eq!(targets[10], Some(ClickTarget::Order(2)));
    assert_eq!(targets[12], Some(ClickTarget::Order(1)));
}

#[test]
fn several_displays_can_be_clicked() {
    let mut app = app_with_controls();
    app.displays.push(display(2, ""));
    app.selected = 1;
    app.op_err = Some("flaky".to_string());
    let (lines, targets) = controls::render(&app);
    let got = texts(&lines);
    assert_eq!(got[0], "  ● GSM LG (/dev/i2c-2, VCP 2.1)");
    assert_eq!(got[1], "▸ ● GSM (/dev/i2c-2, VCP 2.1)");
    assert_eq!(targets[..3], [Some(ClickTarget::Display(0)), Some(ClickTarget::Display(1)), None]);
    assert_eq!(got[got.len() - 4..got.len() - 2], ["", "Failed: flaky"]);
    assert!(got[got.len() - 1].ends_with(" · R rescan · D switch display · q quit"));
}

#[test]
fn a_target_is_that_of_its_row() {
    let (lines, targets) = controls::render(&app_with_controls());
    assert_eq!(lines.len(), targets.len());
    let clickable: Vec<ClickTarget> = targets.iter().flatten().copied().collect();
    assert_eq!(clickable.len(), 4, "a single display cannot be clicked");
    let row_of = |k| targets.iter().position(|t| *t == Some(ClickTarget::Order(k))).unwrap();
    let (body, body_targets) = controls::body_lines(&app_with_controls());
    assert_eq!((body.len(), &body_targets[..]), (lines.len() - 2, &targets[..lines.len() - 2]));
    let names = ["Volume", "Input Source", "Reset", "Brightness"];
    for k in 0..4 {
        assert!(text(&lines[row_of(k)]).contains(names[k]));
    }
}

#[test]
fn what_stands_in_the_way_is_shown_instead() {
    let mut app = app_with_controls();
    app.probe_err = Some("bad".to_string());
    assert_eq!(texts(&controls::render(&app).0)[2], "Probe error: bad");
    app.probing = true;
    assert_eq!(texts(&controls::render(&app).0)[2], "Reading VCP features...");
    app.displays.clear();
    assert_eq!(texts(&controls::render(&app).0)[0], "No DDC/CI capable displays found.");
    app.err = Some("no i2c".to_string());
    assert_eq!(texts(&controls::render(&app).0)[0], "Error: no i2c");
    app.loading = true;
    let (lines, targets) = controls::render(&app);
    assert_eq!(text(&lines[0]), "Detecting monitors...");
    assert_eq!((lines.len(), targets.len()), (3, 3));
}

#[test]
fn an_action_is_asked_about() {
    let mut app = app_with_controls();
    app.confirming = true;
    app.click_targets = vec![Some(ClickTarget::Order(0))];
    let got = shown(ui::draw(&mut app, area(), area()));
    assert_eq!(got[0], "⚠ Reset");
    assert_eq!(got[2], "This writes \"Reset\" to the monitor directly.");
    assert!(app.click_targets.is_empty());
}

// ---- clicks --------------------------------------------------------------------

fn click(row: u16, column: u16) -> MouseEvent {
    MouseEvent { kind: MouseEventKind::Down(MouseButton::Left), column, row }
}

#[test]
fn a_click_means_what_is_shown_there() {
    let mut app = app_with_controls();
    let lines = shown(ui::draw(&mut app, area(), area()));
    let row = lines.iter().position(|l| l.contains("Input Source")).unwrap() as u16;
    assert_eq!((app.click_origin_row, app.click_origin_col, app.click_scroll), (7, 15, 0));
    app.handle_mouse(click(area().y + ui::BOX_HEADER_ROWS + row, area().x));
    assert_eq!(app.cursor, 1);
    let heading = lines.iter().position(|l| l == "AUDIO").unwrap() as u16;
    app.handle_mouse(click(area().y + ui::BOX_HEADER_ROWS + heading, area().x));
    assert_eq!(app.cursor, 1);
}

// ---- the picker ----------------------------------------------------------------

#[test]
fn the_picker_offers_every_display() {
    let mut app = App::new();
    app.screen = Screen::Picker;
    app.displays = vec![display(1, "LG"), display(2, "")];
    app.picker_cursor = 1;
    let (lines, targets) = picker::render(&app);
    assert_eq!(
        texts(&lines),
        vec![
            "2 DDC/CI displays found — choose one to control:",
            "",
            "  GSM LG (/dev/i2c-2, VCP 2.1)",
            "▸ GSM (/dev/i2c-2, VCP 2.1)",
            "",
            "↑↓ navigate · enter select · q quit",
        ]
    );
    assert_eq!(targets[2..4], [Some(ClickTarget::Display(0)), Some(ClickTarget::Display(1))]);
    assert_eq!(lines[3].spans[1].style, styles::raw_focused());
    ui::draw(&mut app, area(), area());
    assert_eq!(app.click_targets, targets);
}

// ---- the raw screen ------------------------------------------------------------

fn app_on_raw() -> App {
    let mut app = app_with_controls();
    app.screen = Screen::Raw;
    app
}

#[test]
fn every_feature_has_a_row() {
    let caps = Capabilities {
        features: vec![
            feature(0x10, "Brightness", true),
            VcpFeature {
                code: 0xf4,
                name: "A manufacturer specific feature name".to_string(),
                manufacturer_specific: true,
                ..Default::default()
            },
            feature(0x02, "Unrecognized feature", false),
        ],
        ..Default::default()
    };
    let mut readings = HashMap::new();
    readings.insert(
        0x10,
        FeatureReading {
            code: 0x10,
            readable: true,
            continuous: true,
            current: 1,
            max: 2,
            ..Default::default()
        },
    );
    let rows = build_table(&caps, &readings);
    assert_eq!(rows.len(), 3);
    assert_eq!((rows[0].code.as_str(), rows[0].category.as_str()), ("10", "known"));
    assert_eq!(rows[0].value, "1 / 2");
    assert_eq!(rows[0].category_style, styles::ok());
    assert_eq!(rows[1].name, "A manufacturer specific feature...");
    assert_eq!((rows[1].code.as_str(), rows[1].category.as_str()), ("F4", "mfg-specific"));
    assert_eq!(rows[2].category, "unknown");
    assert_eq!(rows[2].category_style, styles::dim());
    assert_eq!(rows[2].value, "(not probed)");
}

#[test]
fn the_table_is_placed_and_scrolls() {
    let mut app = app_on_raw();
    app.raw_cursor = 2;
    app.raw_write_err = Some("nak".to_string());
    let small = Rect { x: 5, y: 8, width: 70, height: 4 };
    let table = match ui::draw(&mut app, area(), small) {
        Content::Table(t) => t,
        Content::Text(_) => panic!("expected the table"),
    };
    assert_eq!(text(&table.caption), "Raw VCP — 5 features declared");
    assert_eq!(table.rows.len(), 5);
    assert_eq!(table.scroll_bar, Some(ScrollBar { len: 5, position: 2, viewport: 3 }));
    assert_eq!(text(&table.status), "Write failed: nak");
    assert_eq!(app.raw_visible_rows, 3);
    assert_eq!(app.raw_table_area, small);
    assert_eq!(app.raw_table_state.selected, Some(2));

    // The first row of the area is the header.
    app.raw_table_state.offset = 1;
    app.handle_mouse(click(9, 6));
    assert_eq!(app.raw_cursor, 1);

    app.raw_writing = true;
    let none = Rect { height: 0, ..small };
    match raw::draw(&mut app, none) {
        Content::Table(t) => assert_eq!(text(&t.status), "Writing..."),
        Content::Text(_) => panic!("expected the table"),
    }
    assert_eq!(app.raw_visible_rows, 1);
}

#[test]
fn what_keeps_the_table_away_is_shown_instead() {
    let mut app = app_on_raw();
    app.raw_err = Some("gone".to_string());
    assert_eq!(
        shown(raw::draw(&mut app, area())),
        vec!["Raw VCP — 5 features declared", "", "Error: gone"]
    );
    app.raw_loading = true;
    assert_eq!(
        shown(raw::draw(&mut app, area()))[2],
        "Scanning all VCP codes — this takes a few seconds..."
    );
    app.caps = None;
    assert_eq!(shown(raw::draw(&mut app, area())), vec!["No capabilities loaded."]);
}

#[test]
fn the_edit_prompt_warns_of_unrecognized_codes() {
    let mut app = app_on_raw();
    app.raw_editing = true;
    app.raw_edit_input = "42".to_string();
    assert_eq!(
        shown(raw::draw(&mut app, area())),
        vec![
            "Set 62 (Volume)",
            "",
            "New value: 42█",
            "",
            "0-9 enter digits · enter confirm · backspace delete · esc cancel",
        ]
    );
    app.raw_cursor = 3;
    app.raw_edit_err = "no".to_string();
    let got = shown(raw::draw(&mut app, area()));
    assert_eq!(got[1], "(unrecognized/manufacturer-specific — write needs permit-unknown)");
    assert_eq!(got[4..6], ["", "no"]);
}

#[test]
fn a_raw_write_is_asked_about() {
    let mut app = app_on_raw();
    app.raw_confirming = true;
    app.raw_confirm_value = 300;
    let got = shown(raw::draw(&mut app, area()));
    assert_eq!(got[2], "This writes 300 (0x12C) to code 62 (Volume) directly.");
    assert_eq!(got[3], "There is no undo from software once it's sent.");
    app.raw_cursor = 3;
    let got = shown(raw::draw(&mut app, area()));
    assert_eq!(got[3], "This code is not recognized — sending an arbitrary value to it");
    assert_eq!(got.len(), 11);
}
