//! Work on a monitor: what is asked of it, what comes back, and the controls
//! that are built from it.
//!
//! Nothing here talks to a monitor by itself. Application state only ever
//! describes what should happen next as a [`Cmd`]; [`dispatch`] turns one into the
//! jobs that carry it out one at a time, since DDC/CI over i2c is a
//! one-transaction-at-a-time bus.

pub mod controls;
pub mod jobs;

pub use controls::{
    action_for, all_feature_codes, arranged, build_controls, build_controls_from_cache,
    cached_control, cached_controls, control_for, controls_view, fresh_controls, known_codes,
    law_cache_restores_controls, law_no_control_is_invented, law_order_lists_controls,
    law_selectors_show_a_reading, options_of, reading_for, resolved, same_kind_per_code, scan_of,
    scanned_control, scanned_kind, selector_entry, selector_for, slider_entry, slider_for,
    to_monitor_cache, ControlView, ControlsView, CtrlKind, CtrlRef, ProbeOk,
};
pub use jobs::{
    asks_first, awaits, carries_out, comes_to, dispatch, goes_on, is_remembered, is_scan_result,
    live_codes, perform, probed, read_from, reads_live, recognized_codes, remembers, replied,
    resume, run_job, scanned, start, successes, Call, Cmd, Done, Job, Msg, Pending, Plan, Reply,
    Scan, Step,
};
