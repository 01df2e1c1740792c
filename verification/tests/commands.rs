//! Controls built from scans, and the jobs that carry out commands.

use std::collections::HashSet;
use std::sync::Mutex;

use vcpctl::backend::{BackendError, DdcBackend};
use vcpctl::cache::{accept, stamp, CachedSelector, CachedSlider, MonitorCache};
use vcpctl::commands::{
    all_feature_codes, build_controls, build_controls_from_cache, dispatch, resume, run_job, start,
    to_monitor_cache, Call, Cmd, CtrlKind, Job, Msg, Pending, Reply, Step,
};
use vcpctl::vcp::{Capabilities, Display, FeatureReading, VcpFeature, VcpValue};
use vcpctl::worker::Worker;

fn feature(code: u8, name: &str, recognized: bool, values: &[(u8, &str)]) -> VcpFeature {
    VcpFeature {
        code,
        name: name.to_string(),
        recognized,
        manufacturer_specific: false,
        values: values.iter().map(|&(code, name)| VcpValue { code, name: name.to_string() }).collect(),
    }
}

fn caps() -> Capabilities {
    Capabilities {
        model: "m".to_string(),
        mccs_version: "2.1".to_string(),
        features: vec![
            feature(0x04, "Reset", true, &[]),
            feature(0x10, "Brightness", true, &[]),
            feature(0x60, "Input", true, &[(0x11, "HDMI-1"), (0x12, "HDMI-2")]),
            feature(0xa4, "Window", true, &[(1, ""), (2, "two")]),
            feature(0x4d, "Unrecognized feature", false, &[]),
            feature(0x12, "Contrast", true, &[]),
        ],
    }
}

fn readings() -> Vec<FeatureReading> {
    vec![
        FeatureReading { code: 0x04, readable: false, ..Default::default() },
        FeatureReading {
            code: 0x10,
            readable: true,
            continuous: true,
            current: 1,
            max: 2,
            ..Default::default()
        },
        FeatureReading {
            code: 0x10,
            readable: true,
            continuous: true,
            current: 80,
            max: 100,
            ..Default::default()
        },
        FeatureReading { code: 0x60, readable: true, current: 0x0112, ..Default::default() },
        FeatureReading { code: 0xa4, readable: true, current: 1, ..Default::default() },
        FeatureReading { code: 0x4d, readable: true, continuous: true, ..Default::default() },
    ]
}

#[test]
fn a_scan_becomes_controls() {
    let (sliders, selectors, actions, order) = build_controls(&caps(), &readings(), None);
    assert_eq!(sliders.len(), 1, "no reading for Contrast, and 4D is not recognized");
    assert_eq!((sliders[0].code, sliders[0].value, sliders[0].max), (0x10, 80, 100));
    assert_eq!(selectors.len(), 1, "a value of A4 has no name");
    assert_eq!(selectors[0].selected, 0x12);
    assert_eq!(selectors[0].options.len(), 2);
    assert_eq!(actions.len(), 1);
    let kinds: Vec<CtrlKind> = order.iter().map(|r| r.kind).collect();
    assert_eq!(kinds, vec![CtrlKind::Action, CtrlKind::Slider, CtrlKind::Selector]);
}

#[test]
fn a_known_action_needs_no_reading() {
    let known: HashSet<u8> = [0x12, 0x4d].into_iter().collect();
    let (_, _, actions, _) = build_controls(&caps(), &[], Some(&known));
    assert_eq!(actions.len(), 1);
    assert_eq!(actions[0].code, 0x12);
}

#[test]
fn a_remembered_scan_brings_back_its_controls() {
    let caps = caps();
    let (sliders, selectors, actions, order) = build_controls(&caps, &readings(), None);
    let written = stamp(to_monitor_cache(&caps, &sliders, &selectors, &actions));
    let (s, sel, a, o) = build_controls_from_cache(&accept(written).unwrap());
    assert_eq!(o, order);
    assert_eq!(s.len(), sliders.len());
    assert_eq!((s[0].value, s[0].max, s[0].step), (80, 100, 5));
    assert_eq!(sel[0].selected, selectors[0].selected);
    assert_eq!(sel[0].options[1].name, "HDMI-2");
    assert_eq!(a[0].name, actions[0].name);
}

#[test]
fn a_scan_with_known_actions_is_brought_back_too() {
    let caps = caps();
    let known: HashSet<u8> = [0x12].into_iter().collect();
    let (sliders, selectors, actions, order) = build_controls(&caps, &readings(), Some(&known));
    assert_eq!(actions.len(), 2);
    let written = stamp(to_monitor_cache(&caps, &sliders, &selectors, &actions));
    let (_, _, a, o) = build_controls_from_cache(&accept(written).unwrap());
    assert_eq!(o, order);
    assert_eq!((a[0].code, a[1].code), (0x04, 0x12));
}

#[test]
fn a_generic_reading_builds_no_selector() {
    let mut readings = readings();
    let (_, selectors, _, _) = build_controls(&caps(), &readings, None);
    assert_eq!(selectors.len(), 1);
    readings[3].current = 0;
    readings[3].generic = true;
    let (sliders, selectors, actions, order) = build_controls(&caps(), &readings, None);
    assert!(selectors.is_empty(), "its value was never parsed");
    assert_eq!((sliders.len(), actions.len(), order.len()), (1, 1, 2));
}

#[test]
fn all_codes_in_order() {
    assert_eq!(all_feature_codes(&caps()), vec![0x04, 0x10, 0x60, 0xa4, 0x4d, 0x12]);
}

// ---- dispatch ------------------------------------------------------------------

fn display() -> Display {
    Display { number: 3, mfg_id: "GSM".to_string(), model: "LG".to_string(), ..Default::default() }
}

fn cached() -> MonitorCache {
    MonitorCache {
        capabilities: caps(),
        sliders: vec![CachedSlider { code: 0x10, max: 100, value: 80 }],
        selectors: vec![CachedSelector { code: 0x60, selected: 0x11 }],
        action_codes: vec![0x04],
        ..Default::default()
    }
}

#[test]
fn a_remembered_display_is_shown_at_once_and_then_confirmed() {
    let plan = dispatch(Cmd::Probe(display()), Some(cached()));
    match plan.message {
        Some(Msg::CachedControls(ok)) => {
            assert_eq!(ok.order.len(), 3);
            assert_eq!(ok.sliders[0].value, 80);
            assert_eq!(ok.caps.features.len(), 6);
        }
        _ => panic!("expected the remembered controls"),
    }
    assert_eq!(plan.jobs.len(), 2, "actions are not read");
    assert!(matches!(plan.jobs[0], Job::LiveValue { display_num: 3, code: 0x10 }));
    assert!(matches!(plan.jobs[1], Job::LiveValue { display_num: 3, code: 0x60 }));
}

#[test]
fn an_unknown_display_is_scanned() {
    let plan = dispatch(Cmd::Probe(display()), None);
    assert!(plan.message.is_none());
    assert!(matches!(&plan.jobs[..], [Job::Probe(d)] if d.number == 3));
}

#[test]
fn other_commands_are_one_job_each() {
    let plan = dispatch(Cmd::Rescan(display()), Some(cached()));
    assert_eq!(plan.forget.as_ref().map(|d| d.number), Some(3));
    assert!(matches!(&plan.jobs[..], [Job::Detect]));
    assert!(matches!(&dispatch(Cmd::Detect, None).jobs[..], [Job::Detect]));
    let plan = dispatch(Cmd::SetValue { display_num: 1, code: 2, value: 3 }, None);
    assert!(matches!(&plan.jobs[..], [Job::SetValue { display_num: 1, code: 2, value: 3 }]));
    assert!(plan.forget.is_none());
    let plan = dispatch(Cmd::RawProbe { display_num: 1, codes: vec![4, 5] }, None);
    assert!(matches!(&plan.jobs[..], [Job::RawProbe { codes, .. }] if codes == &vec![4, 5]));
}

// ---- jobs ----------------------------------------------------------------------

/// A backend that records what it is asked.
struct Recorder {
    calls: Mutex<Vec<String>>,
    fail: Option<u8>,
}

impl Recorder {
    fn new(fail: Option<u8>) -> Self {
        Recorder { calls: Mutex::new(Vec::new()), fail }
    }

    fn note(&self, s: String) {
        self.calls.lock().unwrap().push(s);
    }

    fn calls(&self) -> Vec<String> {
        self.calls.lock().unwrap().clone()
    }
}

impl DdcBackend for Recorder {
    fn detect(&self) -> Result<Vec<Display>, BackendError> {
        self.note("detect".to_string());
        Ok(vec![display()])
    }

    fn capabilities(&self, display_num: i32) -> Result<Capabilities, BackendError> {
        self.note(format!("capabilities {display_num}"));
        if self.fail == Some(0) {
            return Err(BackendError::msg("no capabilities"));
        }
        Ok(caps())
    }

    fn get_vcp(&self, display_num: i32, code: u8) -> Result<FeatureReading, BackendError> {
        self.note(format!("get {display_num} {code:02x}"));
        if self.fail == Some(code) {
            return Err(BackendError::msg("flaky"));
        }
        Ok(FeatureReading {
            code,
            readable: true,
            continuous: true,
            current: 5,
            max: 9,
            ..Default::default()
        })
    }

    fn set_vcp(
        &self,
        display_num: i32,
        code: u8,
        value: u16,
        permit_unknown: bool,
    ) -> Result<(), BackendError> {
        self.note(format!("set {display_num} {code:02x} {value} {permit_unknown}"));
        Ok(())
    }
}

#[test]
fn a_probe_reads_only_recognized_features_and_survives_a_flaky_one() {
    let backend = Recorder::new(Some(0x12));
    let done = run_job(&backend, Job::Probe(display()));
    assert_eq!(
        backend.calls(),
        vec!["capabilities 3", "get 3 04", "get 3 10", "get 3 60", "get 3 a4", "get 3 12"]
    );
    match done.msg {
        Msg::Probe(Ok(ok)) => assert_eq!(ok.sliders.len(), 4),
        _ => panic!("expected a scan"),
    }
    let scan = done.save.expect("a scan is remembered");
    assert_eq!(scan.display.mfg_id, "GSM");
    assert_eq!(scan.cache.sliders.len(), 4);
    assert_eq!(scan.cache.version, 0);
}

#[test]
fn a_failed_probe_is_not_remembered() {
    let backend = Recorder::new(Some(0));
    let dynamic: &dyn DdcBackend = &backend;
    let done = run_job(dynamic, Job::Probe(display()));
    assert!(matches!(done.msg, Msg::Probe(Err(_))));
    assert!(done.save.is_none());
}

#[test]
fn an_action_writes_one() {
    let backend = Recorder::new(None);
    let done = run_job(&backend, Job::Action { display_num: 2, code: 0x04 });
    assert_eq!(backend.calls(), vec!["set 2 04 1 false"]);
    assert!(matches!(done.msg, Msg::ActionDone { result: Ok(()) }));
}

#[test]
fn jobs_report_their_own_code() {
    let backend = Recorder::new(Some(0x14));
    let done = run_job(&backend, Job::LiveValue { display_num: 1, code: 0x14 });
    assert!(matches!(done.msg, Msg::LiveValue { code: 0x14, result: Err(_) }));
    let done = run_job(&backend, Job::RawSingleProbe { display_num: 1, code: 0x10 });
    assert!(matches!(done.msg, Msg::RawSingleProbe { code: 0x10, result: Ok(_) }));
    let job = Job::RawSet { display_num: 1, code: 0x4d, value: 7, permit_unknown: true };
    assert!(matches!(run_job(&backend, job).msg, Msg::RawSet { code: 0x4d, result: Ok(()) }));
    let job = Job::SetValue { display_num: 1, code: 0x10, value: 300 };
    assert!(matches!(run_job(&backend, job).msg, Msg::SetValue { code: 0x10, value: 300, .. }));
    match run_job(&backend, Job::RawProbe { display_num: 1, codes: vec![0x10, 0x14, 0x12] }).msg {
        Msg::RawProbe(Ok(rs)) => {
            let codes: Vec<u8> = rs.iter().map(|r| r.code).collect();
            assert_eq!(codes, vec![0x10, 0x12]);
        }
        _ => panic!("expected readings"),
    }
    assert!(matches!(run_job(&backend, Job::Detect).msg, Msg::Detect(Ok(ds)) if ds.len() == 1));
    assert_eq!(
        backend.calls(),
        vec![
            "get 1 14",
            "get 1 10",
            "set 1 4d 7 true",
            "set 1 10 300 false",
            "get 1 10",
            "get 1 14",
            "get 1 12",
            "detect"
        ]
    );
}

#[test]
fn a_probe_goes_step_by_step() {
    let (call, pending) = start(Job::Probe(display()));
    assert!(matches!(call, Call::Capabilities { display_num: 3 }));
    let (call, pending) = match resume(pending, Reply::Capabilities(Ok(caps()))) {
        Step::Ask { call, pending } => (call, pending),
        Step::Done(_) => panic!("the features are still to be read"),
    };
    assert!(matches!(call, Call::Read { codes, .. } if codes == vec![0x04, 0x10, 0x60, 0xa4, 0x12]));
    assert!(matches!(pending, Pending::Features { .. }));
    let rs = readings().into_iter().map(Ok).collect();
    match resume(pending, Reply::Readings(rs)) {
        Step::Done(done) => assert!(matches!(done.msg, Msg::Probe(Ok(ok)) if ok.order.len() == 3)),
        Step::Ask { .. } => panic!("nothing is left to ask"),
    }
}

#[test]
fn jobs_wait_their_turn() {
    let mut worker = Worker::new();
    assert!(worker.take().is_none());
    worker.submit(Job::Detect);
    worker.submit(Job::Action { display_num: 1, code: 4 });
    assert!(matches!(worker.take(), Some(Job::Detect)));
    worker.submit(Job::Detect);
    assert!(matches!(worker.take(), Some(Job::Action { .. })));
    assert!(matches!(worker.take(), Some(Job::Detect)));
    assert!(worker.take().is_none());
}
