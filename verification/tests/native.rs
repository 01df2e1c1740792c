//! What the native backend decides, over capability strings, EDID blocks and
//! reply bytes.

use vcpctl::backend::mccs_data::{
    build_database, Access, Descriptor, RawCapabilities, RawFeature, ValueName, ValueType, Version,
};
use vcpctl::backend::mccs_shared::{
    describe, is_write_only, resolve, show_version, to_capabilities, well_known_continuous,
    well_known_name, well_known_values,
};
use vcpctl::backend::native;
use vcpctl::backend::native::{
    bus_path, check_write, displays, edid_identity, entry_index, found_on, get_vcp_reply,
    get_vcp_step, i2c_buses, identity, known_from, known_reading, learn, read_value, set_vcp_step,
    verify_write, write_failed, EdidBlock, EdidDescriptor, Found, Known, ReadEvent, ReadStep,
    WriteEvent, WriteStep,
};
use vcpctl::backend::{native_is_usable, BackendError};
use vcpctl::vcp::RawBytes;

const CAPS: &[u8] = b"(prot(monitor)type(lcd)model(27UD58)cmds(01 02 03)vcp(02 04 10 14(05 08 0B) 60(11 01) 8D DF F4 4D)mccs_ver(2.1)mswhql(1))";
const CAPS_NO_VERSION: &[u8] = b"(vcp(04 60(11 01) B0))";

fn message<T>(r: Result<T, BackendError>) -> String {
    match r {
        Err(BackendError::Message(m)) => m,
        _ => panic!("expected a message"),
    }
}

fn lg() -> Known {
    learn("/dev/i2c-2", CAPS, Version { major: 2, minor: 0 }).unwrap()
}

fn bytes(mh: u8, ml: u8, sh: u8, sl: u8) -> RawBytes {
    RawBytes { mh, ml, sh, sl }
}

// ---- buses and identification --------------------------------------------------

#[test]
fn only_i2c_buses_are_looked_at_in_order() {
    let names: Vec<String> =
        ["i2c-7", "null", "i2c-10", "sda", "i2c-2", "xi2c-1"].iter().map(|s| s.to_string()).collect();
    assert_eq!(i2c_buses(&names), vec!["i2c-10", "i2c-2", "i2c-7"]);
    assert!(i2c_buses(&Vec::new()).is_empty());
}

/// An EDID block with the given vendor bytes and descriptors.
fn edid(vendor: [u8; 2], descriptors: [[u8; 18]; 4]) -> Vec<u8> {
    let mut block = vec![0x00, 0xff, 0xff, 0xff, 0xff, 0xff, 0xff, 0x00];
    block.extend_from_slice(&vendor);
    block.resize(54, 0);
    for d in descriptors {
        block.extend_from_slice(&d);
    }
    block.resize(128, 0);
    block
}

fn text_descriptor(tag: u8, text: &str) -> [u8; 18] {
    let mut d = [0x20; 18];
    d[..5].copy_from_slice(&[0, 0, 0, tag, 0]);
    d[5..5 + text.len()].copy_from_slice(text.as_bytes());
    d
}

#[test]
fn edid_gives_vendor_and_product_name() {
    // "GSM": G=7, S=19, M=13 in five bits each.
    let block = edid(
        [0x1e, 0x6d],
        [
            text_descriptor(0xff, "SERIAL"),
            text_descriptor(0xfc, "FIRST"),
            text_descriptor(0xfe, "TEXT"),
            text_descriptor(0xfc, "LG ULTRAWIDE"),
        ],
    );
    let (mfg_id, model) = edid_identity(&block);
    assert_eq!(mfg_id, "GSM");
    assert_eq!(model, "LG ULTRAWIDE", "the last product name wins");
}

#[test]
fn bytes_that_are_no_edid_identify_nothing() {
    let (mfg_id, model) = edid_identity(&[0xaa; 128]);
    assert_eq!((mfg_id.as_str(), model.as_str()), ("", ""));
    let (mfg_id, model) = identity(Some(EdidBlock {
        vendor: "DEL".to_string(),
        descriptors: vec![EdidDescriptor::Other],
    }));
    assert_eq!((mfg_id.as_str(), model.as_str()), ("DEL", ""));
}

#[test]
fn a_bus_without_a_reply_has_no_monitor() {
    assert_eq!(bus_path("i2c-7"), "/dev/i2c-7");
    let block = edid([0x10, 0xac], [text_descriptor(0xfc, "U3011"); 4]);
    assert!(found_on("/dev/i2c-7", None, Some(block.clone())).is_none());
    let found = found_on("/dev/i2c-7", Some(bytes(9, 9, 2, 1)), Some(block)).unwrap();
    assert_eq!((found.mfg_id.as_str(), found.model.as_str()), ("DEL", "U3011"));
    assert_eq!(found.path, "/dev/i2c-7");
    assert_eq!(found.version, Version { major: 2, minor: 1 });
    let found = found_on("p", Some(bytes(0, 0, 2, 2)), None).unwrap();
    assert_eq!((found.mfg_id.as_str(), found.model.as_str()), ("", ""));
}

#[test]
fn a_native_backend_without_displays_is_not_used() {
    assert!(native_is_usable(&Ok(vec![Default::default()])));
    assert!(!native_is_usable(&Ok(Vec::new())));
    assert!(!native_is_usable(&Err(BackendError::msg("no /dev"))));
}

#[test]
fn displays_are_numbered_from_one() {
    let found = vec![
        Found {
            path: "/dev/i2c-2".to_string(),
            mfg_id: "GSM".to_string(),
            model: "LG".to_string(),
            version: Version { major: 2, minor: 1 },
        },
        Found {
            path: "/dev/i2c-7".to_string(),
            mfg_id: String::new(),
            model: String::new(),
            version: Version { major: 2, minor: 10 },
        },
    ];
    let shown = displays(&found);
    assert_eq!(shown[0].number, 1);
    assert_eq!(shown[0].bus, "/dev/i2c-2");
    assert_eq!(shown[0].connector, "");
    assert_eq!(shown[0].vcp_version, "2.1");
    assert_eq!(shown[1].number, 2);
    assert_eq!(shown[1].vcp_version, "2.10");
    assert_eq!(entry_index(1, 2).unwrap(), 0);
    assert_eq!(entry_index(2, 2).unwrap(), 1);
    assert_eq!(message(entry_index(3, 2)), "no such display: 3");
    assert_eq!(message(entry_index(0, 2)), "no such display: 0");
    assert_eq!(message(entry_index(-1, 2)), "no such display: -1");
}

// ---- capabilities --------------------------------------------------------------

#[test]
fn capability_string_is_read() {
    let known = lg();
    assert_eq!(known.raw.model.as_deref(), Some("27UD58"));
    assert_eq!(known.raw.mccs_version, Some(Version { major: 2, minor: 1 }));
    let codes: Vec<u8> = known.raw.features.iter().map(|f| f.code).collect();
    assert_eq!(codes, vec![0x02, 0x04, 0x10, 0x14, 0x4d, 0x60, 0x8d, 0xdf, 0xf4]);
    let values: Vec<u8> = known.raw.features[5].values.iter().map(|v| v.code).collect();
    assert_eq!(values, vec![0x01, 0x11]);
}

#[test]
fn an_unreadable_capability_string_is_an_error() {
    let m = message(learn("/dev/i2c-2", b"(vcp(", Version { major: 2, minor: 0 }));
    assert!(m.starts_with("/dev/i2c-2: capabilities: "), "got {m:?}");
    assert!(m.len() > "/dev/i2c-2: capabilities: ".len());
}

#[test]
fn the_live_version_selects_the_database_where_the_string_names_none() {
    let known = learn("p", CAPS_NO_VERSION, Version { major: 2, minor: 0 }).unwrap();
    assert_eq!(describe(&known.db, 0x04), (Some("Restore Factory Defaults".to_string()), true));
    let known = learn("p", CAPS_NO_VERSION, Version { major: 1, minor: 0 }).unwrap();
    assert_eq!(describe(&known.db, 0x04), (None, false), "no such feature before version 2.0");
}

#[test]
fn capabilities_name_every_feature() {
    let known = lg();
    let caps = native::to_capabilities(&known.raw, &known.db);
    assert_eq!(caps.model, "27UD58");
    assert_eq!(caps.mccs_version, "2.1");
    let find = |code: u8| caps.feature(code).unwrap();
    assert_eq!(find(0x04).name, "Restore Factory Defaults");
    assert_eq!(find(0x10).name, "Brightness");
    assert_eq!(find(0x60).name, "Input Select", "the database's own name wins");
    assert_eq!(find(0x02).name, "Unrecognized feature");
    assert!(!find(0x02).recognized && !find(0x02).manufacturer_specific);
    assert_eq!(find(0xf4).name, "Manufacturer specific feature");
    assert!(!find(0xf4).recognized && find(0xf4).manufacturer_specific);
    assert_eq!(find(0x14).values.len(), 3);
    assert_eq!(find(0x14).values[0].code, 0x05);
    assert_eq!(find(0x14).values[0].name, "");
    assert!(!find(0x8d).has_values());
}

#[test]
fn mute_falls_back_on_its_well_known_values() {
    let known = lg();
    let caps = to_capabilities(&known.raw, &known.db);
    let mute = caps.feature(0x8d).unwrap();
    assert_eq!(mute.values.len(), 2);
    assert_eq!((mute.values[0].code, mute.values[0].name.as_str()), (1, "Mute"));
    assert_eq!((mute.values[1].code, mute.values[1].name.as_str()), (2, "Unmute"));
    assert_eq!(caps.feature(0x14).unwrap().values.len(), 3, "declared values win");
    assert!(matches!(resolve(&known.db, 0x8d).unwrap().ty, ValueType::NonContinuous(v) if v.len() == 2));
    assert!(matches!(native::resolve(&known.db, 0x8d).unwrap().ty, ValueType::Continuous));
}

#[test]
fn the_database_is_narrowed_to_what_is_declared() {
    let known = lg();
    let d = resolve(&known.db, 0x60).unwrap();
    match d.ty {
        ValueType::NonContinuous(values) => {
            assert_eq!(values.len(), 2, "only declared values stay");
            assert_eq!(values[0].code, 0x01);
            assert_eq!(values[0].name.as_deref(), Some("Analog 1"));
            assert_eq!(values[1].code, 0x11);
        }
        other => panic!("unexpected type {other:?}"),
    }
    assert!(is_write_only(&resolve(&known.db, 0x04).unwrap()));
    assert!(!is_write_only(&resolve(&known.db, 0x10).unwrap()));
    assert!(resolve(&known.db, 0x05).is_none(), "listed, but not declared");
    assert!(resolve(&known.db, 0x12).is_some(), "well known, though not declared");
}

#[test]
fn a_name_in_the_capability_string_wins() {
    let raw = RawCapabilities {
        model: None,
        mccs_version: None,
        features: vec![
            RawFeature { code: 0x04, name: Some("Reset".to_string()), values: Vec::new() },
            RawFeature {
                code: 0x60,
                name: None,
                values: vec![
                    ValueName { code: 0x01, name: Some("VGA".to_string()) },
                    ValueName { code: 0x03, name: None },
                ],
            },
            RawFeature {
                code: 0xe0,
                name: None,
                values: vec![ValueName { code: 0x07, name: None }],
            },
        ],
    };
    let db = build_database(&raw, Version { major: 2, minor: 2 });
    assert_eq!(describe(&db, 0x04).0.as_deref(), Some("Reset"));
    match resolve(&db, 0x60).unwrap().ty {
        ValueType::NonContinuous(values) => {
            assert_eq!(values[0].name.as_deref(), Some("VGA"));
            assert_eq!(values[1].name.as_deref(), Some("DVI 1"));
        }
        other => panic!("unexpected type {other:?}"),
    }
    let inferred = resolve(&db, 0xe0).unwrap();
    assert!(inferred.name.is_none());
    assert_eq!(inferred.access, Access::ReadWrite);
    assert!(matches!(inferred.ty, ValueType::NonContinuous(v) if v.len() == 1));
    let known = known_from(raw, Version { major: 2, minor: 2 });
    let caps = native::to_capabilities(&known.raw, &known.db);
    assert_eq!((caps.model.as_str(), caps.mccs_version.as_str()), ("", ""));
}

#[test]
fn well_known_features() {
    assert_eq!(well_known_name(0x62).as_deref(), Some("Audio Speaker Volume"));
    assert_eq!(well_known_name(0x63), None);
    assert!(well_known_continuous(0x1a));
    assert!(!well_known_continuous(0xd6));
    assert!(well_known_values(0xd6).is_empty());
    assert_eq!(show_version(Version { major: 0, minor: 255 }), "0.255");
}

// ---- reading -------------------------------------------------------------------

fn continuous() -> Option<Descriptor> {
    Some(Descriptor {
        name: Some("Brightness".to_string()),
        code: 0x10,
        ty: ValueType::Continuous,
        access: Access::ReadWrite,
    })
}

#[test]
fn a_continuous_reading_joins_its_bytes() {
    let r = read_value(0x10, &continuous(), bytes(0x01, 0x02, 0x03, 0x04));
    assert!(r.readable && r.continuous);
    assert_eq!((r.current, r.max), (0x0304, 0x0102));
    assert_eq!(r.name, "Brightness");
}

#[test]
fn a_non_continuous_reading_has_a_label_where_its_value_has_a_name() {
    let names = || {
        Some(Descriptor {
            name: None,
            code: 0x60,
            ty: ValueType::NonContinuous(vec![
                ValueName { code: 1, name: None },
                ValueName { code: 2, name: Some("HDMI".to_string()) },
            ]),
            access: Access::ReadWrite,
        })
    };
    let r = read_value(0x60, &names(), bytes(0, 0, 9, 2));
    assert_eq!((r.current, r.label.as_str(), r.continuous), (2, "HDMI", false));
    assert_eq!(read_value(0x60, &names(), bytes(0, 0, 0, 1)).label, "");
    assert_eq!(read_value(0x60, &names(), bytes(0, 0, 0, 3)).label, "");
}

#[test]
fn an_unknown_reading_keeps_its_bytes() {
    let r = read_value(0x4d, &None, bytes(0xff, 0xff, 0x78, 0x33));
    assert_eq!(r.raw, Some(bytes(0xff, 0xff, 0x78, 0x33)));
    assert_eq!(r.current, 0x33);
    let table =
        Some(Descriptor { name: None, code: 0, ty: ValueType::Table, access: Access::ReadWrite });
    assert!(read_value(0, &table, bytes(0, 0, 0, 0)).raw.is_some());
}

#[test]
fn a_write_only_feature_is_not_asked() {
    let known = lg();
    let reading = known_reading(0x04, &native::resolve(&known.db, 0x04)).unwrap();
    assert!(!reading.readable);
    assert_eq!(reading.name, "Restore Factory Defaults");
    assert!(known_reading(0x10, &native::resolve(&known.db, 0x10)).is_none());
    assert!(known_reading(0x10, &None).is_none());
}

#[test]
fn a_failed_read_names_the_bus() {
    let r = get_vcp_reply("/dev/i2c-2", 0x0a, &None, Err("timeout".to_string()));
    assert_eq!(message(r), "/dev/i2c-2: getvcp 0a: timeout");
    assert_eq!(get_vcp_reply("p", 0x10, &continuous(), Ok(bytes(0, 100, 0, 50))).unwrap().current, 50);
}

#[test]
fn a_read_asks_only_for_what_can_be_read() {
    let known = lg();
    let reset = native::resolve(&known.db, 0x04);
    match get_vcp_step("p", 0x04, &reset, ReadEvent::Asked) {
        ReadStep::Done(Ok(r)) => assert!(!r.readable && r.code == 0x04),
        step => panic!("the monitor must not be asked: {step:?}"),
    }
    let d = continuous();
    assert!(matches!(get_vcp_step("p", 0x10, &d, ReadEvent::Asked), ReadStep::Ask { code: 0x10 }));
    match get_vcp_step("p", 0x10, &d, ReadEvent::Replied(Ok(bytes(0, 100, 0, 50)))) {
        ReadStep::Done(Ok(r)) => assert_eq!((r.current, r.max), (50, 100)),
        step => panic!("a reply ends a read: {step:?}"),
    }
    match get_vcp_step("p", 0x10, &d, ReadEvent::Replied(Err("timeout".to_string()))) {
        ReadStep::Done(r) => assert_eq!(message(r), "p: getvcp 10: timeout"),
        step => panic!("a failure ends a read: {step:?}"),
    }
}

// ---- writing -------------------------------------------------------------------

/// Carries out a write of 50 to a monitor that answers like this: what was asked
/// of the monitor, and what the write came to.
fn write(
    known: &Known,
    code: u8,
    permit_unknown: bool,
    sent: Result<(), &str>,
    reply: Result<RawBytes, &str>,
) -> (Vec<String>, Result<(), BackendError>) {
    let mut asked = Vec::new();
    let mut event = WriteEvent::Asked;
    loop {
        match set_vcp_step("p", Some(&known.db), code, 50, permit_unknown, event) {
            WriteStep::Send { code, value } => {
                asked.push(format!("send {code:02x} {value}"));
                event = WriteEvent::Sent(sent.map_err(|e| e.to_string()));
            }
            WriteStep::Read { code } => {
                asked.push(format!("read {code:02x}"));
                event = WriteEvent::ReadBack(reply.map_err(|e| e.to_string()));
            }
            WriteStep::Done(r) => return (asked, r),
        }
    }
}

#[test]
fn a_write_is_sent_read_back_and_compared() {
    let known = lg();
    let same = Ok(bytes(0, 100, 0, 50));
    let (asked, r) = write(&known, 0x10, false, Ok(()), same);
    assert_eq!(asked, ["send 10 50", "read 10"]);
    assert!(r.is_ok());
    let (asked, r) = write(&known, 0x4d, true, Ok(()), same);
    assert_eq!(asked, ["send 4d 50", "read 4d"]);
    assert!(r.is_ok());
    let (_, r) = write(&known, 0x10, false, Ok(()), Ok(bytes(0, 100, 0, 49)));
    assert_eq!(message(r), "p: setvcp 10 50: monitor reports 49 after write");
    let (_, r) = write(&known, 0x10, false, Ok(()), Err("nak"));
    assert_eq!(message(r), "p: setvcp 10 50: verify read failed: nak");
}

#[test]
fn a_refused_write_is_never_sent() {
    let (asked, r) = write(&lg(), 0x4d, false, Ok(()), Ok(bytes(0, 100, 0, 50)));
    assert!(asked.is_empty());
    assert_eq!(message(r), "p: refusing to set unrecognized VCP code 4d without permit_unknown");
}

#[test]
fn a_write_that_cannot_be_sent_is_not_read_back() {
    let (asked, r) = write(&lg(), 0x10, false, Err("bus busy"), Ok(bytes(0, 100, 0, 50)));
    assert_eq!(asked, ["send 10 50"]);
    assert_eq!(message(r), "p: setvcp 10 50: bus busy");
}

#[test]
fn an_unrecognized_code_is_refused_without_permission() {
    let known = lg();
    assert_eq!(
        message(check_write("/dev/i2c-2", Some(&known.db), 0x4d, false)),
        "/dev/i2c-2: refusing to set unrecognized VCP code 4d without permit_unknown"
    );
    assert!(check_write("p", Some(&known.db), 0x4d, true).is_ok());
    assert!(check_write("p", Some(&known.db), 0x10, false).is_ok());
    assert!(check_write("p", None, 0x4d, false).is_ok(), "nothing is known yet");
}

#[test]
fn a_write_counts_only_once_it_reads_back() {
    assert!(verify_write("p", 0x10, 0x0132, Ok(bytes(9, 9, 0x01, 0x32))).is_ok());
    assert_eq!(
        message(verify_write("p", 0x10, 50, Ok(bytes(0, 100, 0, 49)))),
        "p: setvcp 10 50: monitor reports 49 after write"
    );
    assert_eq!(
        message(verify_write("p", 0x10, 50, Err("nak".to_string()))),
        "p: setvcp 10 50: verify read failed: nak"
    );
    assert_eq!(write_failed("p", 0x0a, 7, "bus busy").message(), "p: setvcp 0a 7: bus busy");
}
