//! What is remembered of a scan.

use vcpctl::cache::{
    accept, cache_file_name, cache_key, find, stamp, CachedSelector, CachedSlider, MonitorCache,
    CACHE_VERSION,
};
use vcpctl::vcp::{Capabilities, VcpFeature};

fn sample_cache() -> MonitorCache {
    MonitorCache {
        version: 0,
        capabilities: Capabilities {
            model: "Not specified".to_string(),
            mccs_version: "2.1".to_string(),
            features: vec![VcpFeature {
                code: 0x10,
                name: "Brightness".to_string(),
                recognized: true,
                ..Default::default()
            }],
        },
        sliders: vec![CachedSlider { code: 0x10, max: 100, value: 80 }],
        selectors: vec![
            CachedSelector { code: 0x60, selected: 0x11 },
            CachedSelector { code: 0x14, selected: 0x05 },
        ],
        action_codes: Vec::new(),
    }
}

#[test]
fn monitor_cache_round_trip() {
    let want = sample_cache();
    let got = accept(stamp(want.clone())).expect("expected a hit after saving");
    assert_eq!(got.capabilities.mccs_version, want.capabilities.mccs_version);
    assert_eq!(got.sliders.len(), 1);
    assert_eq!(got.sliders[0].code, 0x10);
    assert_eq!(got.sliders[0].max, 100);
    assert_eq!(got.sliders[0].value, 80);
    assert_eq!(got.selectors.len(), 2);
    assert_eq!(got.selectors[0].selected, 0x11);
}

#[test]
fn monitor_cache_version_mismatch_is_treated_as_miss() {
    let stale = MonitorCache { version: CACHE_VERSION - 1, ..sample_cache() };
    assert!(accept(stale).is_none(), "expected a version mismatch to be treated as a cache miss");
    assert!(accept(MonitorCache::default()).is_none());
}

#[test]
fn cache_key_sanitizes_separators() {
    assert!(!cache_key("GSM", "LG/ULTRAWIDE 29\"").is_empty());
    // Must not contain path separators that would escape the cache dir.
    assert_eq!(cache_key("A/B", "C\\D"), "A_B-C_D");
}

#[test]
fn a_monitor_without_a_name_is_unknown() {
    assert_eq!(cache_key("", ""), "unknown");
    assert_eq!(cache_key(" ", ""), "_-");
    assert_eq!(cache_file_name("GSM", "LG ULTRAWIDE"), "monitor-GSM-LG_ULTRAWIDE.json");
}

#[test]
fn only_a_clean_match_is_found() {
    assert!(find(None).is_none(), "no file, or none that is a scan");
    assert!(find(Some(sample_cache())).is_none(), "version 0");
    let kept = find(Some(stamp(sample_cache()))).unwrap();
    assert_eq!((kept.version, kept.sliders[0].value), (CACHE_VERSION, 80));
}
