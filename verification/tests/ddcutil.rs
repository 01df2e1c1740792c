//! Reading what `ddcutil` prints.

use vcpctl::backend::ddcutil::{
    capabilities_args, capabilities_reply, detect_args, detect_reply, get_vcp_args, match_groups,
    parse_capabilities, parse_detect, parse_get_vcp_reply, set_vcp_args, set_vcp_reply,
    DdcutilBackend, CapsLine, CapsReader, CONTINUOUS_RE, DetectLine, DetectReader,
    GENERIC_REPLY_RE, Groups, NON_CONTINUOUS_RE, NOT_READABLE_RE, RAW_VALUE_RE, read_caps_line,
    read_detect_line, read_reply,
};
use vcpctl::backend::BackendError;
use vcpctl::vcp::RawBytes;

// Samples captured against a real LG 29UM68 via `ddcutil getvcp`, one per output
// shape the parser has to handle.

const SAMPLE_CONTINUOUS: &str =
    "VCP code 0x10 (Brightness                    ): current value =   100, max value =   100\n";
const SAMPLE_NON_CONTINUOUS_KNOWN: &str =
    "VCP code 0x14 (Select color preset           ): 6500 K (sl=0x05)\n";
const SAMPLE_NON_CONTINUOUS_INVALID: &str =
    "VCP code 0x60 (Input Source                  ): Invalid value (sl=0x00)\n";
const SAMPLE_RAW_UNRECOGNIZED: &str =
    "VCP code 0x4d (Unknown feature               ): mh=0xff, ml=0xff, sh=0x78, sl=0x33\n";
const SAMPLE_RAW_MANUFACTURER: &str =
    "VCP code 0xf4 (Manufacturer Specific         ): mh=0xff, ml=0xff, sh=0x00, sl=0x1f\n";
const SAMPLE_NOT_READABLE: &str = "Feature 04 (Restore factory defaults) is not readable\n";

// ddcutil gives several features their own bespoke formatting that
// matches none of the generic shapes above — these must fall back to
// GENERIC_REPLY_RE instead of being treated as parse errors.
const SAMPLE_FREQUENCY: &str = "VCP code 0xac (Horizontal frequency          ): 1164 hz\n";
const SAMPLE_VERSION: &str = "VCP code 0xdf (VCP Version                   ): 2.1\n";
const SAMPLE_HEX_VALUE: &str = "VCP code 0x52 (Active control                ): Value: 0x00\n";
const SAMPLE_USAGE_TIME: &str = "VCP code 0xc0 (Display usage time            ): Usage time (hours) = 25985 (0x006581) mh=0xff, ml=0xff, sh=0x65, sl=0x81\n";

#[test]
fn getvcp_parses_continuous() {
    let m = match_groups(CONTINUOUS_RE, SAMPLE_CONTINUOUS).expect("CONTINUOUS_RE did not match");
    assert_eq!(m.get(1), "10");
    assert_eq!(m.get(2), "Brightness                    ");
    assert_eq!(m.get(3), "100");
    assert_eq!(m.get(4), "100");
}

#[test]
fn getvcp_parses_known_enum_value() {
    let m = match_groups(NON_CONTINUOUS_RE, SAMPLE_NON_CONTINUOUS_KNOWN)
        .expect("NON_CONTINUOUS_RE did not match");
    assert_eq!(m.get(3), "6500 K");
    assert_eq!(m.get(4), "05");
}

#[test]
fn getvcp_parses_invalid_enum_value() {
    let m = match_groups(NON_CONTINUOUS_RE, SAMPLE_NON_CONTINUOUS_INVALID)
        .expect("NON_CONTINUOUS_RE did not match");
    assert_eq!(m.get(3), "Invalid value");
    assert_eq!(m.get(4), "00");
}

#[test]
fn getvcp_parses_raw_unrecognized() {
    let m = match_groups(RAW_VALUE_RE, SAMPLE_RAW_UNRECOGNIZED)
        .expect("RAW_VALUE_RE did not match");
    assert_eq!(m.get(1), "4d");
    assert_eq!(m.get(3), "ff");
    assert_eq!(m.get(4), "ff");
    assert_eq!(m.get(5), "78");
    assert_eq!(m.get(6), "33");
    // Must not also be swallowed by the generic non-continuous pattern
    // (no parenthesized "(sl=..)" in the raw form).
    assert!(
        !match_groups(NON_CONTINUOUS_RE, SAMPLE_RAW_UNRECOGNIZED).is_some(),
        "NON_CONTINUOUS_RE unexpectedly matched a raw-form reply"
    );
}

#[test]
fn getvcp_parses_raw_manufacturer_specific() {
    let m = match_groups(RAW_VALUE_RE, SAMPLE_RAW_MANUFACTURER)
        .expect("RAW_VALUE_RE did not match");
    assert_eq!(m.get(1), "f4");
    assert_eq!(m.get(6), "1f");
}

#[test]
fn getvcp_falls_back_to_generic_reply_for_bespoke_formats() {
    let cases = [
        ("frequency", SAMPLE_FREQUENCY, "ac", "1164 hz"),
        ("version", SAMPLE_VERSION, "df", "2.1"),
        ("hex value", SAMPLE_HEX_VALUE, "52", "Value: 0x00"),
        (
            "usage time",
            SAMPLE_USAGE_TIME,
            "c0",
            "Usage time (hours) = 25985 (0x006581) mh=0xff, ml=0xff, sh=0x65, sl=0x81",
        ),
    ];
    for (name, sample, want_code, want_label) in cases {
        // None of the specific patterns should claim these lines...
        assert!(
            !match_groups(CONTINUOUS_RE, sample).is_some() && !match_groups(RAW_VALUE_RE, sample).is_some() && !match_groups(NON_CONTINUOUS_RE, sample).is_some(),
            "{name}: a specific pattern unexpectedly matched {sample:?}"
        );
        // ...but the generic fallback must, preserving the full text.
        let m = match_groups(GENERIC_REPLY_RE, sample)
            .unwrap_or_else(|| panic!("{name}: GENERIC_REPLY_RE did not match {sample:?}"));
        assert_eq!(m.get(1), want_code, "{name}: code");
        assert_eq!(m.get(3), want_label, "{name}: label");
    }
}

#[test]
fn getvcp_detects_not_readable() {
    let m = match_groups(NOT_READABLE_RE, SAMPLE_NOT_READABLE)
        .expect("NOT_READABLE_RE did not match");
    assert_eq!(m.get(1), "04");
    assert_eq!(m.get(2), "Restore factory defaults");
}

#[test]
fn parse_get_vcp_reply_generic_fallback_is_flagged() {
    // Readings that fall back to the catch-all format never get a real
    // value code parsed — `current` must stay 0 *and* be recognizable
    // as "never parsed" rather than "genuinely zero", so a caller
    // (like the Raw VCP table) doesn't print a fabricated "(0x00)"
    // next to it.
    let r = parse_get_vcp_reply(0xac, SAMPLE_FREQUENCY, true).unwrap();
    assert!(r.generic, "expected generic=true for a bespoke-format reply");
    assert_eq!(r.current, 0, "current should stay 0 (never parsed)");
    assert_eq!(r.label, "1164 hz");
}

#[test]
fn parse_get_vcp_reply_continuous_is_not_flagged_generic() {
    let r = parse_get_vcp_reply(0x10, SAMPLE_CONTINUOUS, true).unwrap();
    assert!(!r.generic, "a continuous reading must not be marked generic");
}

#[test]
fn parse_get_vcp_reply_known_enum_is_not_flagged_generic() {
    let r = parse_get_vcp_reply(0x14, SAMPLE_NON_CONTINUOUS_KNOWN, true).unwrap();
    assert!(!r.generic, "a known non-continuous reading must not be marked generic");
}

// ---- capabilities: captured from the same monitor.

const SAMPLE_CAPABILITIES: &str = r#"Model: Not specified
MCCS version: 2.1
VCP Features:
   Feature: 02 (New control value)
   Feature: 04 (Restore factory defaults)
   Feature: 05 (Restore factory brightness/contrast defaults)
   Feature: 08 (Restore color defaults)
   Feature: 10 (Brightness)
   Feature: 12 (Contrast)
   Feature: 14 (Select color preset)
      Values (unparsed): 05 08 0B
      Values (  parsed):
         05: 6500 K
         08: 9300 K
         0b: User 1
   Feature: 16 (Video gain: Red)
   Feature: 18 (Video gain: Green)
   Feature: 1A (Video gain: Blue)
   Feature: 52 (Active control)
   Feature: 60 (Input Source)
      Values (unparsed):  11 12 0F
      Values (  parsed):
         11: HDMI-1
         12: HDMI-2
         0f: DisplayPort-1
   Feature: A4 (Turn the selected window operation on/off)
      Values (unparsed): 01 02 03
      Values (  parsed): 01 02 03 (interpretation unavailable)
   Feature: AC (Horizontal frequency)
   Feature: AE (Vertical frequency)
   Feature: B2 (Flat panel sub-pixel layout)
   Feature: B6 (Display technology type)
   Feature: C0 (Display usage time)
   Feature: C6 (Application enable key)
   Feature: C8 (Display controller type)
   Feature: C9 (Display firmware level)
   Feature: D6 (Power mode)
      Values (unparsed): 01 04
      Values (  parsed):
         01: DPM: On,  DPMS: Off
         04: DPM: Off, DPMS: Off
   Feature: DF (VCP Version)
   Feature: 62 (Audio speaker volume)
   Feature: 8D (Audio Mute)
   Feature: F4 (Manufacturer specific feature)
   Feature: F5 (Manufacturer specific feature)
      Values (unparsed): 00 01 02 03 04
      Values (  parsed): 00 01 02 03 04 (interpretation unavailable)
   Feature: F6 (Manufacturer specific feature)
      Values (unparsed): 00 01 02
      Values (  parsed): 00 01 02 (interpretation unavailable)
   Feature: 4D (Unrecognized feature)
   Feature: 4E (Unrecognized feature)
   Feature: 4F (Unrecognized feature)
   Feature: 15 (Unrecognized feature)
      Values (unparsed): 01 11 13 14 28 29 32 48
      Values (  parsed): 01 11 13 14 28 29 32 48 (interpretation unavailable)
   Feature: F7 (Manufacturer specific feature)
      Values (unparsed): 00 01 02 03
      Values (  parsed): 00 01 02 03 (interpretation unavailable)
   Feature: F8 (Manufacturer specific feature)
      Values (unparsed): 00 01
      Values (  parsed): 00 01 (interpretation unavailable)
   Feature: F9 (Manufacturer specific feature)
   Feature: FD (Manufacturer specific feature)
      Values (unparsed): 00 01
      Values (  parsed): 00 01 (interpretation unavailable)
   Feature: FE (Manufacturer specific feature)
      Values (unparsed): 00 01 02
      Values (  parsed): 00 01 02 (interpretation unavailable)
   Feature: FF (Manufacturer specific feature)
"#;

#[test]
fn parse_capabilities_header_fields() {
    let caps = parse_capabilities(SAMPLE_CAPABILITIES);
    assert_eq!(caps.mccs_version, "2.1");
}

#[test]
fn parse_capabilities_feature_count() {
    let caps = parse_capabilities(SAMPLE_CAPABILITIES);
    assert_eq!(caps.features.len(), 38);
}

#[test]
fn parse_capabilities_known_feature() {
    let caps = parse_capabilities(SAMPLE_CAPABILITIES);
    let f = caps.feature(0x10).expect("feature 0x10 (Brightness) not found");
    assert_eq!(f.name, "Brightness");
    assert!(f.recognized);
    assert!(!f.manufacturer_specific);
    assert!(!f.has_values());
}

#[test]
fn parse_capabilities_multi_line_enum() {
    let caps = parse_capabilities(SAMPLE_CAPABILITIES);
    let f = caps.feature(0x60).expect("feature 0x60 (Input Source) not found");
    let want = [(0x11u8, "HDMI-1"), (0x12, "HDMI-2"), (0x0f, "DisplayPort-1")];
    assert_eq!(f.values.len(), want.len());
    for (code, name) in want {
        assert_eq!(f.value_name(code), Some(name));
    }
}

#[test]
fn parse_capabilities_single_line_uninterpreted_enum() {
    let caps = parse_capabilities(SAMPLE_CAPABILITIES);
    let f = caps.feature(0xA4).expect("feature 0xA4 not found");
    assert_eq!(f.values.len(), 3);
    for v in &f.values {
        assert!(v.name.is_empty(), "value 0x{:02X}: expected no interpretation, got {:?}", v.code, v.name);
    }
}

#[test]
fn parse_capabilities_unrecognized_features_are_preserved() {
    let caps = parse_capabilities(SAMPLE_CAPABILITIES);
    for code in [0x4D, 0x4E, 0x4F, 0x15] {
        let f = caps
            .feature(code)
            .unwrap_or_else(|| panic!("unrecognized feature 0x{code:02X} was dropped, not preserved"));
        assert!(!f.recognized, "feature 0x{code:02X}: recognized = true, want false");
    }
    // 0x15 additionally carries an unparsed enum — must still be kept.
    let f = caps.feature(0x15).unwrap();
    assert_eq!(f.values.len(), 8);
}

#[test]
fn parse_capabilities_manufacturer_specific_features_are_preserved() {
    let caps = parse_capabilities(SAMPLE_CAPABILITIES);
    for code in [0xF4, 0xF5, 0xF6, 0xF7, 0xF8, 0xF9, 0xFD, 0xFE, 0xFF] {
        let f = caps
            .feature(code)
            .unwrap_or_else(|| panic!("manufacturer-specific feature 0x{code:02X} was dropped"));
        assert!(f.manufacturer_specific && !f.recognized, "feature 0x{code:02X}: {f:?}");
    }
}

// ---- detect --------------------------------------------------------------------

const SAMPLE_DETECT: &str = "Display 1\n   I2C bus:  /dev/i2c-2\n   DRM_connector:           card1-HDMI-A-1\n   EDID synopsis:\n      Mfg id:               GSM - LG Electronics\n      Model:                LG ULTRAWIDE  \n   VCP version:         2.1\n\nInvalid display\n   I2C bus:  /dev/i2c-5\n   EDID synopsis:\n      Mfg id:               SHP\n      Model:                LQ133M1\n\nDisplay 2\n   I2C bus:  /dev/i2c-7\n      Mfg id:               DEL\n";

#[test]
fn detect_keeps_valid_displays_and_drops_invalid_ones() {
    let displays = parse_detect(SAMPLE_DETECT);
    assert_eq!(displays.len(), 2);
    assert_eq!(displays[0].number, 1);
    assert_eq!(displays[0].bus, "/dev/i2c-2");
    assert_eq!(displays[0].connector, "card1-HDMI-A-1");
    assert_eq!(displays[0].mfg_id, "GSM");
    assert_eq!(displays[0].model, "LG ULTRAWIDE");
    assert_eq!(displays[0].vcp_version, "2.1");
    assert_eq!(displays[1].number, 2);
    assert_eq!(displays[1].bus, "/dev/i2c-7");
    assert_eq!(displays[1].mfg_id, "DEL");
    assert_eq!(displays[1].model, "");
}

#[test]
fn detect_fails_only_when_nothing_was_printed() {
    match detect_reply("  \n\t", false) {
        Err(BackendError::Message(m)) => assert_eq!(m, "ddcutil detect: command failed"),
        _ => panic!("expected a failure"),
    }
    assert_eq!(detect_reply(SAMPLE_DETECT, false).unwrap().len(), 2);
    assert_eq!(detect_reply("", true).unwrap().len(), 0);
}

#[test]
fn detect_lines_are_read_by_their_first_match() {
    let groups = |s: &str| Some(Groups { groups: vec![None, Some(s.to_string())] });
    assert!(matches!(
        read_detect_line("x", groups("12"), None, None, None, None, None),
        DetectLine::Display(12)
    ));
    assert!(matches!(
        read_detect_line("x", groups("99999999999"), None, None, None, None, None),
        DetectLine::Display(0)
    ));
    assert!(matches!(
        read_detect_line("Invalid display", None, groups("b"), None, None, None, None),
        DetectLine::Invalid
    ));
    assert!(matches!(
        read_detect_line("x", None, None, None, None, groups(" a b "), None),
        DetectLine::Model(m) if m == "a b"
    ));
    assert!(matches!(
        read_detect_line("x", None, None, None, None, None, None),
        DetectLine::Other
    ));
}

#[test]
fn every_started_display_is_reported_once() {
    let mut reader = DetectReader::new();
    reader.feed(DetectLine::Bus("lost".to_string()));
    reader.feed(DetectLine::Display(3));
    reader.feed(DetectLine::Display(4));
    reader.feed(DetectLine::Bus("kept".to_string()));
    reader.feed(DetectLine::Invalid);
    reader.feed(DetectLine::Bus("dropped".to_string()));
    let displays = reader.finish();
    let numbers: Vec<i32> = displays.iter().map(|d| d.number).collect();
    assert_eq!(numbers, vec![3, 4]);
    assert_eq!(displays[1].bus, "kept");
}

// ---- capabilities --------------------------------------------------------------

#[test]
fn capabilities_model_and_order() {
    let caps = parse_capabilities(SAMPLE_CAPABILITIES);
    assert_eq!(caps.model, "Not specified");
    let first: Vec<u8> = caps.features.iter().take(6).map(|f| f.code).collect();
    assert_eq!(first, vec![0x02, 0x04, 0x05, 0x08, 0x10, 0x12]);
    assert_eq!(caps.features.last().unwrap().code, 0xff);
}

#[test]
fn capabilities_fail_only_when_nothing_was_printed() {
    match capabilities_reply("\n", false) {
        Err(BackendError::Message(m)) => assert_eq!(m, "ddcutil capabilities: command failed"),
        _ => panic!("expected a failure"),
    }
    assert_eq!(capabilities_reply(SAMPLE_CAPABILITIES, false).unwrap().features.len(), 38);
}

#[test]
fn capability_lines_are_read_by_their_first_match() {
    let two = |a: &str, b: &str| {
        Some(Groups { groups: vec![None, Some(a.to_string()), Some(b.to_string())] })
    };
    assert!(matches!(
        read_caps_line("Model: X ", two("10", "n"), None, None),
        CapsLine::Model(m) if m == "X"
    ));
    assert!(matches!(
        read_caps_line("x", two("1A", "Gain"), None, None),
        CapsLine::Feature { code: Some(0x1a), name } if name == "Gain"
    ));
    assert!(matches!(
        read_caps_line("x", two("zz", "Gain"), None, None),
        CapsLine::Feature { code: None, .. }
    ));
    assert!(matches!(
        read_caps_line("x", None, None, two("0b", " User 1 ")),
        CapsLine::Entry { code: Some(0x0b), name } if name == "User 1"
    ));
}

#[test]
fn a_feature_line_starts_afresh() {
    let a = "Model: m\n   Feature: 60 (Input)\n      Values (  parsed):\n         01: One\n";
    let b = "   Feature: 10 (Brightness)\n   Feature: 14 (Preset)\n      Values (  parsed):\n         05: 6500 K\n";
    let codes = |text: &str| -> Vec<(u8, usize)> {
        parse_capabilities(text).features.iter().map(|f| (f.code, f.values.len())).collect()
    };
    assert_eq!(codes(b), vec![(0x10, 0), (0x14, 1)]);
    assert_eq!(codes(&(a.to_string() + b)), [codes(a), codes(b)].concat());
    assert_eq!(parse_capabilities(&(a.to_string() + b)).model, "m");
    for a in ["", "\n", a, a.trim_end(), "Feature: 60 (Input)\r", "Values (  parsed):"] {
        let joined = a.to_string() + "\n" + b;
        assert_eq!(codes(&joined), [codes(a), codes(b)].concat());
    }
}

#[test]
fn values_end_at_the_first_other_line() {
    let mut reader = CapsReader::new();
    reader.feed(CapsLine::Feature { code: Some(0x60), name: "Input".to_string() });
    reader.feed(CapsLine::Values(String::new()));
    reader.feed(CapsLine::Entry { code: Some(1), name: "a".to_string() });
    reader.feed(CapsLine::Other);
    reader.feed(CapsLine::Entry { code: Some(2), name: "b".to_string() });
    reader.feed(CapsLine::Feature { code: None, name: "bad".to_string() });
    reader.feed(CapsLine::Values("01 02".to_string()));
    let caps = reader.finish();
    assert_eq!(caps.features.len(), 1);
    assert_eq!(caps.features[0].values.len(), 1);
    assert_eq!(caps.features[0].values[0].name, "a");
}

// ---- getvcp --------------------------------------------------------------------

#[test]
fn replies_become_readings() {
    let r = parse_get_vcp_reply(0x10, SAMPLE_CONTINUOUS, true).unwrap();
    assert_eq!((r.code, r.readable, r.continuous, r.current, r.max), (0x10, true, true, 100, 100));
    assert_eq!(r.name, "Brightness");

    let r = parse_get_vcp_reply(0x14, SAMPLE_NON_CONTINUOUS_KNOWN, true).unwrap();
    assert_eq!((r.current, r.label.as_str()), (5, "6500 K"));

    let r = parse_get_vcp_reply(0x4d, SAMPLE_RAW_UNRECOGNIZED, true).unwrap();
    assert_eq!(r.raw, Some(RawBytes { mh: 0xff, ml: 0xff, sh: 0x78, sl: 0x33 }));
    assert_eq!(r.current, 0x33);

    let r = parse_get_vcp_reply(0x04, SAMPLE_NOT_READABLE, false).unwrap();
    assert!(!r.readable);
    assert_eq!(r.name, "Restore factory defaults");
}

#[test]
fn a_number_that_does_not_fit_reads_as_zero() {
    let text = "VCP code 0x10 (Brightness): current value = 70000, max value = 100";
    let r = parse_get_vcp_reply(0x10, text, true).unwrap();
    assert_eq!((r.current, r.max), (0, 100));
}

#[test]
fn a_failed_read_reports_what_was_printed() {
    match parse_get_vcp_reply(0x0a, "  DDC communication failed\n", false) {
        Err(BackendError::Message(m)) => {
            assert_eq!(m, "ddcutil getvcp 0a: DDC communication failed")
        }
        _ => panic!("expected a failure"),
    }
    match parse_get_vcp_reply(0xac, SAMPLE_FREQUENCY, false) {
        Err(_) => {}
        Ok(_) => panic!("a failed command must not fall back to the generic reply"),
    }
    match parse_get_vcp_reply(0x0a, "gibberish", true) {
        Err(BackendError::Message(m)) => {
            assert_eq!(m, "ddcutil getvcp 0a: unrecognized output: gibberish")
        }
        _ => panic!("expected a failure"),
    }
}

#[test]
fn the_most_specific_shape_wins() {
    let groups = |n: usize| {
        Some(Groups { groups: (0..n).map(|i| Some(i.to_string())).collect() })
    };
    let r = read_reply(1, "t", true, groups(3), groups(5), groups(7), groups(5), groups(4));
    assert!(!r.unwrap().readable);
    let r = read_reply(1, "t", true, None, groups(5), groups(7), groups(5), groups(4)).unwrap();
    assert_eq!((r.current, r.max), (3, 4));
    let r = read_reply(1, "t", true, None, None, None, groups(5), groups(4)).unwrap();
    assert_eq!((r.current, r.label.as_str(), r.generic), (4, "3", false));
    let r = read_reply(1, "t", true, None, None, None, None, groups(4)).unwrap();
    assert_eq!((r.current, r.label.as_str(), r.generic), (0, "3", true));
}

#[test]
fn a_missing_group_is_empty() {
    let g = Groups { groups: vec![Some("a".to_string()), None] };
    assert_eq!(g.get(0), "a");
    assert_eq!(g.get(1), "");
    assert_eq!(g.get(2), "");
    assert!(match_groups("(", "text").is_none(), "not a regular expression");
}

// ---- setvcp and arguments ------------------------------------------------------

#[test]
fn a_failed_write_reports_what_was_printed() {
    assert!(set_vcp_reply(0x10, 50, "ignored", true).is_ok());
    match set_vcp_reply(0x10, 50, " Verification failed \n", false) {
        Err(BackendError::Message(m)) => assert_eq!(m, "ddcutil setvcp 10 50: Verification failed"),
        _ => panic!("expected a failure"),
    }
}

#[test]
fn arguments() {
    assert_eq!(detect_args(), vec!["detect"]);
    assert_eq!(capabilities_args(2), vec!["--display", "2", "capabilities", "--verbose"]);
    assert_eq!(get_vcp_args(1, 0x0a), vec!["--display", "1", "getvcp", "0a"]);
    assert_eq!(set_vcp_args(-1, 0xff, 65535, false), vec!["--display", "-1", "setvcp", "ff", "65535"]);
    assert_eq!(
        set_vcp_args(1, 0x4d, 0, true),
        vec!["--display", "1", "--permit-unknown-feature", "setvcp", "4d", "0"]
    );
    let _ = DdcutilBackend::new();
}
