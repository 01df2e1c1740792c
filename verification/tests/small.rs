//! Categories, effects, timestamps, numbers and text.

use vcpctl::categories::{category_for, Category};
use vcpctl::effects::{
    effect_step_ms, flicker_tick, hash, noise_glyph, poll_timeout_ms, reveal_point, Effect,
    EffectQueue, BRAILLE_BASE, REVEAL_STEPS,
};
use vcpctl::logging::{civil_from_days, iso8601, log_line, outgrown, MAX_LOG_BYTES};
use vcpctl::numbers::{
    decimal_text, hex2_text, parse_hex_byte, parse_i32, parse_number, parse_u16, push_digits,
    signed_text,
};
use vcpctl::text::{lines, strip_prefix, trim, words};

// ---- categories ----------------------------------------------------------------

#[test]
fn known_codes_land_in_the_expected_section() {
    assert_eq!(category_for(0x10), Category::Display); // Brightness
    assert_eq!(category_for(0x14), Category::Color); // Select Color Preset
    assert_eq!(category_for(0x8d), Category::Audio); // Audio Mute
    assert_eq!(category_for(0xd6), Category::Power); // Power Mode
    assert_eq!(category_for(0x60), Category::Input); // Input Source
}

#[test]
fn unknown_code_falls_back_to_other_rather_than_disappearing() {
    assert_eq!(category_for(0x99), Category::Other);
}

#[test]
fn render_order_is_display_first_other_last() {
    assert!(Category::Display < Category::Color);
    assert!(Category::Power < Category::Input);
    assert!(Category::Input < Category::Other);
}

#[test]
fn section_labels() {
    assert_eq!(Category::Display.label(), "DISPLAY");
    assert_eq!(Category::Other.label(), "OTHER");
    assert_eq!(category_for(0x1e), Category::Display);
    assert_eq!(category_for(0xd0), Category::Input);
}

// ---- effects -------------------------------------------------------------------

#[test]
fn reveal_thresholds_spread_across_the_full_range() {
    // Not a statistical rigor test, just a guard against the hash
    // degenerating into "everything reveals at roughly the same alpha".
    let thresholds: Vec<f32> = (0..40u16)
        .flat_map(|x| (0..40u16).map(move |y| (x, y)))
        .map(|(x, y)| reveal_point(x, y) as f32 / REVEAL_STEPS as f32)
        .collect();
    let early = thresholds.iter().filter(|&&t| t < 0.33).count();
    let mid = thresholds.iter().filter(|&&t| (0.33..0.66).contains(&t)).count();
    let late = thresholds.iter().filter(|&&t| t >= 0.66).count();
    for (name, count) in [("early", early), ("mid", mid), ("late", late)] {
        assert!(
            count > thresholds.len() / 10,
            "{name} bucket suspiciously empty: {count}/{}",
            thresholds.len()
        );
    }
}

#[test]
fn same_cell_same_salt_is_deterministic() {
    assert_eq!(hash(5, 7, 100), hash(5, 7, 100));
}

#[test]
fn braille_base_plus_one_is_not_the_blank_glyph() {
    // U+2800 itself renders as blank: skipping straight to +1 is
    // what keeps a not-yet-revealed cell looking like noise instead
    // of occasionally flickering invisible.
    let blank = char::from_u32(BRAILLE_BASE).unwrap();
    let first_noise_glyph = char::from_u32(BRAILLE_BASE + 1).unwrap();
    assert_ne!(blank, first_noise_glyph);
}

#[test]
fn noise_is_never_blank() {
    for x in 0..50u16 {
        for tick in 0..50u32 {
            let c = noise_glyph(x, 3, tick);
            assert!(('\u{2801}'..='\u{28ff}').contains(&c));
        }
    }
    assert_eq!(hash(0, 0, 0), 0);
    assert_eq!(noise_glyph(0, 0, 0), '\u{2801}');
    assert_eq!(flicker_tick(79), 1);
}

#[test]
fn a_long_idle_gap_does_not_finish_the_effect_in_one_frame() {
    let step = effect_step_ms(1500);
    assert_eq!(step, 33);
    for effect in [Effect::Entrance, Effect::Transition, Effect::Error] {
        assert!(
            step < effect.duration_ms() as u64,
            "a clamped step from a long idle gap must not finish the effect in one frame"
        );
    }
    assert_eq!(effect_step_ms(16), 16);
    assert_eq!((poll_timeout_ms(true), poll_timeout_ms(false)), (16, 50));
}

#[test]
fn effects_queue_up() {
    let mut queue = EffectQueue::new();
    assert!(!queue.is_running());
    queue.add_effect(Effect::Error);
    assert!(queue.is_running());
    assert_eq!(queue.queued, vec![Effect::Error]);
}

// ---- timestamps ----------------------------------------------------------------

#[test]
fn civil_from_days_known_values() {
    // Unix epoch itself.
    assert_eq!(civil_from_days(0), (1970, 1, 1));
    // 2023-11-14, a commonly-cited reference point for 1_700_000_000.
    assert_eq!(civil_from_days(1_700_000_000 / 86_400), (2023, 11, 14));
    // A leap-year boundary: day before and the leap day itself.
    assert_eq!(civil_from_days(19_781), (2024, 2, 28));
    assert_eq!(civil_from_days(19_782), (2024, 2, 29));
    assert_eq!(civil_from_days(19_783), (2024, 3, 1));
}

#[test]
fn days_before_the_epoch() {
    assert_eq!(civil_from_days(-1), (1969, 12, 31));
    assert_eq!(civil_from_days(-719_468), (0, 3, 1));
    assert_eq!(civil_from_days(-719_469), (0, 2, 29));
    assert_eq!(civil_from_days(-25_509), (1900, 2, 28));
    assert_eq!(civil_from_days(-25_508), (1900, 3, 1));
}

#[test]
fn timestamps() {
    assert_eq!(iso8601(0), "1970-01-01T00:00:00Z");
    assert_eq!(iso8601(1_700_000_000), "2023-11-14T22:13:20Z");
    assert_eq!(iso8601(253_402_300_800), "10000-01-01T00:00:00Z");
}

#[test]
fn log_lines() {
    assert_eq!(log_line(0, "INFO", "vcpctl", "started"), "1970-01-01T00:00:00Z INFO  vcpctl: started");
    assert_eq!(log_line(1, "ERROR", "a", ""), "1970-01-01T00:00:01Z ERROR a: ");
    assert_eq!(MAX_LOG_BYTES, 5 * 1024 * 1024);
    assert!(!outgrown(MAX_LOG_BYTES));
    assert!(outgrown(MAX_LOG_BYTES + 1));
}

// ---- numbers -------------------------------------------------------------------

#[test]
fn numbers_are_read() {
    assert_eq!(parse_hex_byte("fF"), Some(255));
    assert_eq!(parse_hex_byte("+0a"), Some(10));
    assert_eq!(parse_hex_byte("100"), None);
    assert_eq!(parse_hex_byte("(x"), None);
    assert_eq!(parse_hex_byte(""), None);
    assert_eq!(parse_u16("65535"), Some(65535));
    assert_eq!(parse_u16("65536"), None);
    assert_eq!(parse_u16("0000000000070"), Some(70));
    assert_eq!(parse_i32("-2147483648"), Some(i32::MIN));
    assert_eq!(parse_i32("2147483648"), None);
    assert_eq!(parse_i32("-"), None);
    assert_eq!(parse_i32("-+1"), None);
    assert_eq!(parse_number("+", 10, 9), None);
    assert_eq!(parse_number("8", 8, 9), None);
}

#[test]
fn numbers_are_written() {
    assert_eq!(decimal_text(0), "0");
    assert_eq!(decimal_text(u64::MAX), "18446744073709551615");
    assert_eq!(signed_text(i32::MIN), "-2147483648");
    assert_eq!(hex2_text(0x0a, false), "0a");
    assert_eq!(hex2_text(0xbeef, true), "BEEF");
    let mut s = String::from("x");
    push_digits(&mut s, 7, 10, false, 3, ' ');
    assert_eq!(s, "x  7");
}

#[test]
fn written_numbers_read_back() {
    for n in [0u16, 9, 10, 255, 65535] {
        assert_eq!(parse_u16(&decimal_text(n as u64)), Some(n));
    }
    for code in 0..=255u8 {
        assert_eq!(parse_hex_byte(&hex2_text(code as u16, code % 2 == 0)), Some(code));
    }
    for n in [i32::MIN, -1, 0, 7, i32::MAX] {
        assert_eq!(parse_i32(&signed_text(n)), Some(n));
    }
}

// ---- text ----------------------------------------------------------------------

#[test]
fn text_is_split_and_trimmed() {
    assert_eq!(lines("a\r\n\nb\r"), vec!["a", "", "b\r"]);
    assert!(lines("").is_empty());
    assert_eq!(lines("\n"), vec![""]);
    assert_eq!(words("  01\t02  (x "), vec!["01", "02", "(x"]);
    assert!(words(" \n ").is_empty());
    assert_eq!(trim("\u{a0} a b\u{3000}\n"), "a b");
    assert_eq!(trim(" \t"), "");
    assert_eq!(strip_prefix("Model: x", "Model:").as_deref(), Some(" x"));
    assert_eq!(strip_prefix("Mod", "Model:"), None);
}
