//! Sliders, selectors, actions and the text they show.

use vcpctl::components::{truncate_name, Action, Selector, SelectorOption, Slider};
use vcpctl::styles;
use vcpctl::styles::Line;

fn text(line: &Line) -> String {
    line.spans.iter().map(|s| s.text.as_str()).collect()
}

fn input_source_selector(current: u8) -> Selector {
    Selector::new(
        0x60,
        "Input Source",
        vec![
            SelectorOption { code: 0x0f, name: "DisplayPort-1".to_string() },
            SelectorOption { code: 0x11, name: "HDMI-1".to_string() },
            SelectorOption { code: 0x12, name: "HDMI-2".to_string() },
        ],
        current,
    )
}

#[test]
fn next_option_wraps_forward() {
    let s = input_source_selector(0x12); // HDMI-2, last option
    assert_eq!(s.next_option(1), 0x0f, "should wrap to first");
}

#[test]
fn next_option_wraps_backward() {
    let s = input_source_selector(0x0f); // DisplayPort-1, first option
    assert_eq!(s.next_option(-1), 0x12, "should wrap to last");
}

#[test]
fn next_option_unknown_current_value_lands_on_first() {
    // The monitor can (and on real hardware, does) report a current
    // value outside the set it advertised in capabilities.
    let s = input_source_selector(0x00);
    assert_eq!(s.next_option(1), 0x0f);
    assert_eq!(s.next_option(-1), 0x0f);
}

#[test]
fn current_name_unknown_value_is_labeled() {
    let s = input_source_selector(0x00);
    assert_eq!(s.current_name(), "unknown (0x00)");
}

#[test]
fn current_name_known_value() {
    let s = input_source_selector(0x11);
    assert_eq!(s.current_name(), "HDMI-1");
}

#[test]
fn cycling_there_and_back_comes_back() {
    for code in [0x0f, 0x11, 0x12] {
        for direction in [1, -1, 2, 7] {
            let there = input_source_selector(code).next_option(direction);
            assert_eq!(input_source_selector(there).next_option(-direction), code);
        }
    }
    let empty = Selector::new(0x60, "x", Vec::new(), 7);
    assert_eq!(empty.next_option(1), 7);
}

#[test]
fn selector_row() {
    let s = input_source_selector(0x11);
    assert_eq!(text(&s.view(false)), "  Input Source       ‹ HDMI-1 ›");
    assert_eq!(text(&s.view(true)), "▸ Input Source       ‹ HDMI-1 ›");
    let long = Selector::new(0x60, "A name of twenty ch.", Vec::new(), 0xab);
    assert_eq!(text(&long.view(false)), "  A name of twent... ‹ unknown (0xAB) ›");
}

#[test]
fn focus_tints_the_whole_row() {
    let focused = input_source_selector(0x11).view(true);
    assert!(focused.spans.iter().all(|s| s.style.bg == Some(styles::focused_bg())));
    assert_eq!(focused.spans[1].style.fg, Some(styles::accent()));
    assert!(focused.spans[1].style.bold);
    let other = input_source_selector(0x11).view(false);
    assert!(other.spans.iter().all(|s| s.style.bg.is_none()));
}

#[test]
fn truncation() {
    assert_eq!(truncate_name("exactly eighteen c", 18), "exactly eighteen c");
    assert_eq!(truncate_name("one more than that.", 18), "one more than t...");
    assert_eq!(truncate_name("äöüäöü", 5), "äö...");
}

#[test]
fn action_row() {
    let a = Action { code: 0x04, name: "Reset".to_string() };
    assert_eq!(text(&a.view(false)), "  [ Reset ]");
    assert_eq!(text(&a.view(true)), "▸ [ Reset ]");
}

#[test]
fn slider_steps_scale_with_the_range() {
    assert_eq!(Slider::new(1, "x", 0, 20).step, 1);
    assert_eq!(Slider::new(1, "x", 0, 21).step, 5);
}

#[test]
fn slider_row() {
    let s = Slider::new(0x10, "Brightness", 50, 100);
    assert_eq!(text(&s.view(false)), "  Brightness         [██████████░░░░░░░░░░]  50");
    let over = Slider::new(0x10, "Brightness", 500, 100);
    assert_eq!(text(&over.view(false)), "  Brightness         [████████████████████] 500");
    let none = Slider::new(0x10, "Brightness", 5, 0);
    assert_eq!(text(&none.view(true)), "▸ Brightness         [░░░░░░░░░░░░░░░░░░░░]   5");
}

#[test]
fn the_bar_maps_columns_to_values() {
    let s = Slider::new(0x10, "Test", 0, 100);
    assert_eq!(s.value_at_column(21), None);
    assert_eq!(s.value_at_column(22), Some(0));
    assert_eq!(s.value_at_column(32), Some(52));
    assert_eq!(s.value_at_column(41), Some(100));
    assert_eq!(s.value_at_column(42), None);
    let long = Slider::new(0x10, "A name of twenty ch.", 0, 65535);
    assert_eq!(long.value_at_column(23), None);
    assert_eq!(long.value_at_column(24), Some(0));
    assert_eq!(long.value_at_column(43), Some(65535));
}

#[test]
fn a_round_passes_every_option() {
    let codes: Vec<u8> = input_source_selector(0).options.iter().map(|o| o.code).collect();
    let mut seen = Vec::new();
    let mut now = codes[1];
    for _ in 0..codes.len() {
        now = input_source_selector(now).next_option(1);
        seen.push(now);
    }
    assert_eq!(now, codes[1]);
    seen.sort();
    let mut all = codes.clone();
    all.sort();
    assert_eq!(seen, all);
}
