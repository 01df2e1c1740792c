//! Commands, the jobs that carry them out, and the messages that report back.

use vstd::prelude::*;

use crate::backend::{BackendError, DdcBackend};
use crate::cache::{CachedSelector, CachedSlider, MonitorCache, MonitorCacheView};
use crate::commands::controls::{
    arranged, build_controls, build_controls_from_cache, cached_controls, controls_view,
    fresh_controls, scan_of, to_monitor_cache, ControlsView, ProbeOk,
};
use crate::text::deep;
use crate::vcp::{
    Capabilities, CapabilitiesView, Display, FeatureReading, FeatureReadingView, VcpFeatureView,
};

verus! {

/// What a backend call reports back.
#[derive(Debug)]
pub enum Msg {
    Detect(Result<Vec<Display>, BackendError>),
    Probe(Result<ProbeOk, BackendError>),
    /// The immediate render built purely from a cached scan: no i2c round-trip
    /// yet, just whatever value was last known. Followed by a batch of
    /// `LiveValue` messages that each confirm (or correct) one control's value
    /// shortly after.
    CachedControls(ProbeOk),
    LiveValue { code: u8, result: Result<FeatureReading, BackendError> },
    SetValue { code: u8, value: u16, result: Result<(), BackendError> },
    ActionDone { result: Result<(), BackendError> },
    RawProbe(Result<Vec<FeatureReading>, BackendError>),
    /// A fresh reading for exactly one code, used to refresh a single row after
    /// a write from the Raw VCP edit flow instead of re-scanning everything.
    RawSingleProbe { code: u8, result: Result<FeatureReading, BackendError> },
    RawSet { code: u8, result: Result<(), BackendError> },
}

/// A deferred unit of I/O. Application state never touches a backend: it only
/// ever describes what should happen next by returning one of these.
#[derive(Debug)]
pub enum Cmd {
    Detect,
    /// Drop what is remembered of this display, then detect.
    Rescan(Display),
    Probe(Display),
    SetValue { display_num: i32, code: u8, value: u16 },
    Action { display_num: i32, code: u8 },
    RawProbe { display_num: i32, codes: Vec<u8> },
    RawSingleProbe { display_num: i32, code: u8 },
    RawSet { display_num: i32, code: u8, value: u16, permit_unknown: bool },
}

/// One job on a backend. Jobs run one at a time, in the order they were
/// queued.
#[derive(Debug)]
pub enum Job {
    Detect,
    /// A full scan: the capabilities, then every recognized feature.
    Probe(Display),
    LiveValue { display_num: i32, code: u8 },
    SetValue { display_num: i32, code: u8, value: u16 },
    Action { display_num: i32, code: u8 },
    RawProbe { display_num: i32, codes: Vec<u8> },
    RawSingleProbe { display_num: i32, code: u8 },
    RawSet { display_num: i32, code: u8, value: u16, permit_unknown: bool },
}

/// What carries out a command.
#[derive(Debug)]
pub struct Plan {
    /// The display whose remembered scan is dropped first.
    pub forget: Option<Display>,
    /// The message that is sent at once, before any job runs.
    pub message: Option<Msg>,
    /// The jobs to queue, in order.
    pub jobs: Vec<Job>,
}

// ---- dispatch ------------------------------------------------------------------

/// The codes that a remembered scan has values for: its sliders, then its
/// selectors. Actions have nothing to read.
pub open spec fn live_codes(cache: MonitorCacheView) -> Seq<u8> {
    cache.sliders.map_values(|s: CachedSlider| s.code) + cache.selectors.map_values(
        |s: CachedSelector| s.code,
    )
}

/// The controls of a probe, by their views.
pub open spec fn probed(ok: ProbeOk) -> ControlsView {
    controls_view(ok.sliders@, ok.selectors@, ok.actions@, ok.order@)
}

/// Whether a probe result is what a remembered scan holds.
pub open spec fn is_remembered(ok: ProbeOk, cache: MonitorCacheView) -> bool {
    &&& ok.caps.deep_view() == cache.capabilities
    &&& probed(ok) == arranged(cached_controls(cache, cache.capabilities.features))
}

/// Whether the jobs read exactly the given codes of one display, one by one.
pub open spec fn reads_live(jobs: Seq<Job>, display_num: i32, codes: Seq<u8>) -> bool {
    &&& jobs.len() == codes.len()
    &&& forall|i: int|
        0 <= i < jobs.len() ==> #[trigger] jobs[i] == (Job::LiveValue {
            display_num,
            code: codes[i],
        })
}

/// Whether a plan carries out a command, given what is remembered of the
/// display that it probes.
pub open spec fn carries_out(plan: Plan, cmd: Cmd, cached: Option<MonitorCacheView>) -> bool {
    &&& plan.forget == (match cmd {
        Cmd::Rescan(display) => Some(display),
        _ => None,
    })
    &&& match cmd {
        Cmd::Probe(display) => match cached {
            Some(cache) => {
                &&& plan.message matches Some(Msg::CachedControls(ok)) && is_remembered(ok, cache)
                &&& reads_live(plan.jobs@, display.number, live_codes(cache))
            },
            None => plan.message is None && plan.jobs@ == seq![Job::Probe(display)],
        },
        Cmd::Detect | Cmd::Rescan(_) => plan.message is None && plan.jobs@ == seq![Job::Detect],
        Cmd::SetValue { display_num, code, value } => plan.message is None && plan.jobs@ == seq![
            Job::SetValue { display_num, code, value },
        ],
        Cmd::Action { display_num, code } => plan.message is None && plan.jobs@ == seq![
            Job::Action { display_num, code },
        ],
        Cmd::RawProbe { display_num, codes } => plan.message is None && plan.jobs@ == seq![
            Job::RawProbe { display_num, codes },
        ],
        Cmd::RawSingleProbe { display_num, code } => plan.message is None && plan.jobs@ == seq![
            Job::RawSingleProbe { display_num, code },
        ],
        Cmd::RawSet { display_num, code, value, permit_unknown } => plan.message is None
            && plan.jobs@ == seq![Job::RawSet { display_num, code, value, permit_unknown }],
    }
}

fn single(job: Job) -> (r: Plan)
    ensures
        r.forget is None,
        r.message is None,
        r.jobs@ == seq![job],
{
    let mut jobs: Vec<Job> = Vec::new();
    jobs.push(job);
    assert(jobs@ =~= seq![job]);
    Plan { forget: None, message: None, jobs }
}

/// What carries out a command. `cached` is what is remembered of the display
/// that the command probes.
///
/// A full scan means one read per feature, most of which never become a
/// control; so once a monitor has been scanned, its controls are shown at once
/// with their last known values, and only the codes of sliders and selectors
/// are read again, each confirmed by a message of its own.
pub fn dispatch(cmd: Cmd, cached: Option<MonitorCache>) -> (r: Plan)
    ensures
        carries_out(r, cmd, cached.deep_view()),
{
    match cmd {
        Cmd::Detect => single(Job::Detect),
        Cmd::Rescan(display) => {
            let mut plan = single(Job::Detect);
            plan.forget = Some(display);
            plan
        },
        Cmd::Probe(display) => match cached {
            Some(cache) => from_cache(&display, &cache),
            None => single(Job::Probe(display)),
        },
        Cmd::SetValue { display_num, code, value } => single(Job::SetValue { display_num, code, value }),
        Cmd::Action { display_num, code } => single(Job::Action { display_num, code }),
        Cmd::RawProbe { display_num, codes } => single(Job::RawProbe { display_num, codes }),
        Cmd::RawSingleProbe { display_num, code } => single(
            Job::RawSingleProbe { display_num, code },
        ),
        Cmd::RawSet { display_num, code, value, permit_unknown } => single(
            Job::RawSet { display_num, code, value, permit_unknown },
        ),
    }
}

fn from_cache(display: &Display, cache: &MonitorCache) -> (r: Plan)
    ensures
        r.forget is None,
        r.message matches Some(Msg::CachedControls(ok)) && is_remembered(ok, cache.deep_view()),
        reads_live(r.jobs@, display.number, live_codes(cache.deep_view())),
{
    let (sliders, selectors, actions, order) = build_controls_from_cache(cache);
    let ok = ProbeOk { caps: cache.capabilities.clone(), sliders, selectors, actions, order };
    let mut jobs: Vec<Job> = Vec::new();
    let ghost codes = live_codes(cache.deep_view());
    let display_num: i32 = display.number;
    for i in 0..cache.sliders.len()
        invariant
            codes == live_codes(cache.deep_view()),
            jobs@.len() == i,
            forall|j: int|
                0 <= j < i ==> #[trigger] jobs@[j] == (Job::LiveValue {
                    display_num,
                    code: codes[j],
                }),
    {
        jobs.push(Job::LiveValue { display_num, code: cache.sliders[i].code });
    }
    for i in 0..cache.selectors.len()
        invariant
            codes == live_codes(cache.deep_view()),
            jobs@.len() == cache.sliders@.len() + i,
            forall|j: int|
                0 <= j < jobs@.len() ==> #[trigger] jobs@[j] == (Job::LiveValue {
                    display_num,
                    code: codes[j],
                }),
    {
        jobs.push(Job::LiveValue { display_num, code: cache.selectors[i].code });
    }
    Plan { forget: None, message: Some(Msg::CachedControls(ok)), jobs }
}

// ---- running a job -------------------------------------------------------------

/// One thing asked of a backend.
#[derive(Debug)]
pub enum Call {
    Detect,
    Capabilities { display_num: i32 },
    /// Reads of one display, one code after the other.
    Read { display_num: i32, codes: Vec<u8> },
    Write { display_num: i32, code: u8, value: u16, permit_unknown: bool },
}

/// What a backend answered.
#[derive(Debug)]
pub enum Reply {
    Displays(Result<Vec<Display>, BackendError>),
    Capabilities(Result<Capabilities, BackendError>),
    Readings(Vec<Result<FeatureReading, BackendError>>),
    Written(Result<(), BackendError>),
}

/// A job that waits for an answer.
#[derive(Debug)]
pub enum Pending {
    Detect,
    Capabilities(Display),
    Features { display: Display, caps: Capabilities },
    LiveValue { code: u8 },
    SetValue { code: u8, value: u16 },
    Action,
    RawProbe,
    RawSingleProbe { code: u8 },
    RawSet { code: u8 },
}

/// A scan to remember.
#[derive(Debug)]
pub struct Scan {
    pub display: Display,
    pub cache: MonitorCache,
}

/// What a job came to.
#[derive(Debug)]
pub struct Done {
    pub msg: Msg,
    /// The scan to remember. A failure to do so only means that the next launch
    /// scans again.
    pub save: Option<Scan>,
}

/// What follows an answer.
#[derive(Debug)]
pub enum Step {
    Ask { call: Call, pending: Pending },
    Done(Done),
}

/// Whether a waiting job can go on with a reply.
pub open spec fn awaits(pending: Pending, reply: Reply) -> bool {
    match (pending, reply) {
        (Pending::Detect, Reply::Displays(_)) => true,
        (Pending::Capabilities(_), Reply::Capabilities(_)) => true,
        (Pending::Features { .. }, Reply::Readings(_)) => true,
        (Pending::RawProbe, Reply::Readings(_)) => true,
        (Pending::LiveValue { .. }, Reply::Readings(rs)) => rs@.len() == 1,
        (Pending::RawSingleProbe { .. }, Reply::Readings(rs)) => rs@.len() == 1,
        (Pending::SetValue { .. }, Reply::Written(_)) => true,
        (Pending::Action, Reply::Written(_)) => true,
        (Pending::RawSet { .. }, Reply::Written(_)) => true,
        _ => false,
    }
}

/// What a job asks first, and what it then waits for. An action only has to
/// write a value that is not zero: it always writes 1. Only the Raw VCP edit
/// flow ever permits a write to a code that the backend does not recognize.
pub open spec fn asks_first(job: Job, call: Call, pending: Pending) -> bool {
    match job {
        Job::Detect => call == Call::Detect && pending == Pending::Detect,
        Job::Probe(display) => call == (Call::Capabilities { display_num: display.number })
            && pending == Pending::Capabilities(display),
        Job::LiveValue { display_num, code } => {
            &&& call matches Call::Read { display_num: n, codes } && n == display_num && codes@
                == seq![code]
            &&& pending == Pending::LiveValue { code }
        },
        Job::SetValue { display_num, code, value } => call == (Call::Write {
            display_num,
            code,
            value,
            permit_unknown: false,
        }) && pending == (Pending::SetValue { code, value }),
        Job::Action { display_num, code } => call == (Call::Write {
            display_num,
            code,
            value: 1,
            permit_unknown: false,
        }) && pending == Pending::Action,
        Job::RawProbe { display_num, codes } => call == (Call::Read { display_num, codes })
            && pending == Pending::RawProbe,
        Job::RawSingleProbe { display_num, code } => {
            &&& call matches Call::Read { display_num: n, codes } && n == display_num && codes@
                == seq![code]
            &&& pending == Pending::RawSingleProbe { code }
        },
        Job::RawSet { display_num, code, value, permit_unknown } => call == (Call::Write {
            display_num,
            code,
            value,
            permit_unknown,
        }) && pending == (Pending::RawSet { code }),
    }
}

fn read_one(display_num: i32, code: u8) -> (r: Call)
    ensures
        r matches Call::Read { display_num: n, codes } && n == display_num && codes@ == seq![code],
{
    let mut codes: Vec<u8> = Vec::new();
    codes.push(code);
    assert(codes@ =~= seq![code]);
    Call::Read { display_num, codes }
}

/// What a job asks first, and what it then waits for.
pub fn start(job: Job) -> (r: (Call, Pending))
    ensures
        asks_first(job, r.0, r.1),
{
    match job {
        Job::Detect => (Call::Detect, Pending::Detect),
        Job::Probe(display) => (
            Call::Capabilities { display_num: display.number },
            Pending::Capabilities(display),
        ),
        Job::LiveValue { display_num, code } => (
            read_one(display_num, code),
            Pending::LiveValue { code },
        ),
        Job::SetValue { display_num, code, value } => (
            Call::Write { display_num, code, value, permit_unknown: false },
            Pending::SetValue { code, value },
        ),
        Job::Action { display_num, code } => (
            Call::Write { display_num, code, value: 1, permit_unknown: false },
            Pending::Action,
        ),
        Job::RawProbe { display_num, codes } => (
            Call::Read { display_num, codes },
            Pending::RawProbe,
        ),
        Job::RawSingleProbe { display_num, code } => (
            read_one(display_num, code),
            Pending::RawSingleProbe { code },
        ),
        Job::RawSet { display_num, code, value, permit_unknown } => (
            Call::Write { display_num, code, value, permit_unknown },
            Pending::RawSet { code },
        ),
    }
}

/// The readings that succeeded, in order. One flaky code is not fatal to a
/// scan: it only means one reading fewer.
pub open spec fn successes(rs: Seq<Result<FeatureReading, BackendError>>) -> Seq<FeatureReading>
    decreases rs.len(),
{
    if rs.len() == 0 {
        Seq::empty()
    } else {
        match rs.last() {
            Ok(r) => successes(rs.drop_last()).push(r),
            Err(_) => successes(rs.drop_last()),
        }
    }
}

fn keep_successes(rs: Vec<Result<FeatureReading, BackendError>>) -> (r: Vec<FeatureReading>)
    ensures
        r@ == successes(rs@),
{
    let mut kept: Vec<FeatureReading> = Vec::new();
    let ghost all = rs@;
    assert(all.take(0) =~= Seq::empty());
    for x in it: rs.into_iter()
        invariant
            it.seq() == all,
            kept@ == successes(all.take(it.index())),
    {
        proof {
            let n = it.index();
            assert(all.take(n + 1).drop_last() =~= all.take(n));
            assert(all.take(n + 1).last() == all[n]);
        }
        if let Ok(r) = x {
            kept.push(r);
        }
    }
    assert(all.take(all.len() as int) =~= all);
    kept
}

/// The codes of the features that a scan reads: the recognized ones, in order.
/// No other feature can become a control.
pub open spec fn recognized_codes(features: Seq<VcpFeatureView>) -> Seq<u8>
    decreases features.len(),
{
    if features.len() == 0 {
        Seq::empty()
    } else if features.last().recognized {
        recognized_codes(features.drop_last()).push(features.last().code)
    } else {
        recognized_codes(features.drop_last())
    }
}

fn codes_to_scan(caps: &Capabilities) -> (r: Vec<u8>)
    ensures
        r@ == recognized_codes(caps.deep_view().features),
{
    let mut codes: Vec<u8> = Vec::new();
    let ghost features = caps.deep_view().features;
    assert(features.take(0) =~= Seq::empty());
    for i in 0..caps.features.len()
        invariant
            features == deep(caps.features@),
            codes@ == recognized_codes(features.take(i as int)),
    {
        let f = &caps.features[i];
        assert(features.take(i + 1).drop_last() =~= features.take(i as int));
        assert(features.take(i + 1).last() == f.deep_view());
        if f.recognized {
            codes.push(f.code);
        }
    }
    assert(features.take(features.len() as int) =~= features);
    codes
}

/// Whether a probe result is what a scan with these readings comes to.
pub open spec fn is_scan_result(
    ok: ProbeOk,
    caps: CapabilitiesView,
    readings: Seq<FeatureReadingView>,
) -> bool {
    &&& ok.caps.deep_view() == caps
    &&& probed(ok) == arranged(fresh_controls(caps.features, readings, Set::empty()))
}

/// Whether a scan to remember is that of a probe result.
pub open spec fn remembers(scan: Scan, display: Display, ok: ProbeOk) -> bool {
    &&& scan.display == display
    &&& scan.cache.deep_view() == scan_of(ok.caps.deep_view(), probed(ok))
}

/// What follows an answer to a waiting job.
pub open spec fn goes_on(pending: Pending, reply: Reply, step: Step) -> bool {
    match (pending, reply) {
        (Pending::Detect, Reply::Displays(result)) => step == Step::Done(
            Done { msg: Msg::Detect(result), save: None },
        ),
        (Pending::Capabilities(display), Reply::Capabilities(Ok(caps))) => {
            &&& step matches Step::Ask { call, pending: next }
            &&& call matches Call::Read { display_num, codes }
            &&& display_num == display.number
            &&& codes@ == recognized_codes(caps.deep_view().features)
            &&& next == Pending::Features { display, caps }
        },
        (Pending::Capabilities(display), Reply::Capabilities(Err(e))) => step == Step::Done(
            Done { msg: Msg::Probe(Err(e)), save: None },
        ),
        (Pending::Features { display, caps }, Reply::Readings(rs)) => {
            &&& step matches Step::Done(done)
            &&& done.msg matches Msg::Probe(Ok(ok))
            &&& ok.caps == caps
            &&& is_scan_result(ok, caps.deep_view(), deep(successes(rs@)))
            &&& done.save matches Some(scan)
            &&& remembers(scan, display, ok)
        },
        (Pending::LiveValue { code }, Reply::Readings(rs)) => step == Step::Done(
            Done { msg: Msg::LiveValue { code, result: rs@[0] }, save: None },
        ),
        (Pending::SetValue { code, value }, Reply::Written(result)) => step == Step::Done(
            Done { msg: Msg::SetValue { code, value, result }, save: None },
        ),
        (Pending::Action, Reply::Written(result)) => step == Step::Done(
            Done { msg: Msg::ActionDone { result }, save: None },
        ),
        (Pending::RawProbe, Reply::Readings(rs)) => {
            &&& step matches Step::Done(done)
            &&& done.msg matches Msg::RawProbe(Ok(readings))
            &&& readings@ == successes(rs@)
            &&& done.save is None
        },
        (Pending::RawSingleProbe { code }, Reply::Readings(rs)) => step == Step::Done(
            Done { msg: Msg::RawSingleProbe { code, result: rs@[0] }, save: None },
        ),
        (Pending::RawSet { code }, Reply::Written(result)) => step == Step::Done(
            Done { msg: Msg::RawSet { code, result }, save: None },
        ),
        _ => true,
    }
}

fn done(msg: Msg) -> (r: Step)
    ensures
        r == Step::Done(Done { msg, save: None }),
{
    Step::Done(Done { msg, save: None })
}

fn first(rs: Vec<Result<FeatureReading, BackendError>>) -> (r: Result<
    FeatureReading,
    BackendError,
>)
    requires
        rs@.len() == 1,
    ensures
        r == rs@[0],
{
    let mut rs = rs;
    rs.swap_remove(0)
}

fn finish_probe(display: Display, caps: Capabilities, readings: Vec<FeatureReading>) -> (r: Done)
    ensures
        r.msg matches Msg::Probe(Ok(ok)) && ok.caps == caps && is_scan_result(
            ok,
            caps.deep_view(),
            deep(readings@),
        ) && r.save is Some && remembers(r.save->0, display, ok),
{
    let (sliders, selectors, actions, order) = build_controls(&caps, readings.as_slice(), None);
    let cache = to_monitor_cache(
        &caps,
        sliders.as_slice(),
        selectors.as_slice(),
        actions.as_slice(),
    );
    let ok = ProbeOk { caps, sliders, selectors, actions, order };
    Done { msg: Msg::Probe(Ok(ok)), save: Some(Scan { display, cache }) }
}

/// What follows an answer to a waiting job.
pub fn resume(pending: Pending, reply: Reply) -> (r: Step)
    requires
        awaits(pending, reply),
    ensures
        goes_on(pending, reply, r),
{
    match pending {
        Pending::Capabilities(display) => {
            if let Reply::Capabilities(result) = reply {
                return match result {
                    Ok(caps) => {
                        let codes = codes_to_scan(&caps);
                        Step::Ask {
                            call: Call::Read { display_num: display.number, codes },
                            pending: Pending::Features { display, caps },
                        }
                    },
                    Err(e) => done(Msg::Probe(Err(e))),
                };
            }
        },
        Pending::Features { display, caps } => {
            if let Reply::Readings(rs) = reply {
                return Step::Done(finish_probe(display, caps, keep_successes(rs)));
            }
        },
        Pending::Detect => {
            if let Reply::Displays(result) = reply {
                return done(Msg::Detect(result));
            }
        },
        Pending::LiveValue { code } => {
            if let Reply::Readings(rs) = reply {
                return done(Msg::LiveValue { code, result: first(rs) });
            }
        },
        Pending::SetValue { code, value } => {
            if let Reply::Written(result) = reply {
                return done(Msg::SetValue { code, value, result });
            }
        },
        Pending::Action => {
            if let Reply::Written(result) = reply {
                return done(Msg::ActionDone { result });
            }
        },
        Pending::RawProbe => {
            if let Reply::Readings(rs) = reply {
                return done(Msg::RawProbe(Ok(keep_successes(rs))));
            }
        },
        Pending::RawSingleProbe { code } => {
            if let Reply::Readings(rs) = reply {
                return done(Msg::RawSingleProbe { code, result: first(rs) });
            }
        },
        Pending::RawSet { code } => {
            if let Reply::Written(result) = reply {
                return done(Msg::RawSet { code, result });
            }
        },
    }
    assert(false);
    done(Msg::ActionDone { result: Ok(()) })
}

/// Whether the readings are what a backend returned for the codes of a display,
/// one for one.
pub open spec fn read_from<B: DdcBackend + ?Sized>(
    backend: &B,
    display_num: i32,
    codes: Seq<u8>,
    rs: Seq<Result<FeatureReading, BackendError>>,
) -> bool {
    &&& rs.len() == codes.len()
    &&& forall|i: int|
        0 <= i < rs.len() ==> call_ensures(
            B::get_vcp,
            (backend, display_num, codes[i]),
            #[trigger] rs[i],
        )
}

/// Whether a reply is what a backend returned for what was asked.
pub open spec fn replied<B: DdcBackend + ?Sized>(backend: &B, call: Call, reply: Reply) -> bool {
    match (call, reply) {
        (Call::Detect, Reply::Displays(result)) => call_ensures(B::detect, (backend,), result),
        (Call::Capabilities { display_num }, Reply::Capabilities(result)) => call_ensures(
            B::capabilities,
            (backend, display_num),
            result,
        ),
        (Call::Read { display_num, codes }, Reply::Readings(rs)) => read_from(
            backend,
            display_num,
            codes@,
            rs@,
        ),
        (Call::Write { display_num, code, value, permit_unknown }, Reply::Written(result)) =>
            call_ensures(
            B::set_vcp,
            (backend, display_num, code, value, permit_unknown),
            result,
        ),
        _ => false,
    }
}

/// Asks a backend. Reads are made one after the other, in the order of the
/// codes.
pub fn perform<B: DdcBackend + ?Sized>(backend: &B, call: &Call) -> (r: Reply)
    ensures
        replied(backend, *call, r),
{
    match call {
        Call::Detect => Reply::Displays(backend.detect()),
        Call::Capabilities { display_num } => Reply::Capabilities(
            backend.capabilities(*display_num),
        ),
        Call::Read { display_num, codes } => {
            let mut rs: Vec<Result<FeatureReading, BackendError>> = Vec::new();
            for i in 0..codes.len()
                invariant
                    rs@.len() == i,
                    forall|j: int|
                        0 <= j < i ==> call_ensures(
                            B::get_vcp,
                            (backend, *display_num, codes@[j]),
                            #[trigger] rs@[j],
                        ),
            {
                rs.push(backend.get_vcp(*display_num, codes[i]));
            }
            Reply::Readings(rs)
        },
        Call::Write { display_num, code, value, permit_unknown } => Reply::Written(
            backend.set_vcp(*display_num, *code, *value, *permit_unknown),
        ),
    }
}

/// Whether a probe result is that of a scan of a display: of the capabilities
/// that the backend returned, and of what it returned for each recognized
/// feature.
pub open spec fn scanned<B: DdcBackend + ?Sized>(backend: &B, display_num: i32, ok: ProbeOk) -> bool {
    &&& call_ensures(B::capabilities, (backend, display_num), Ok(ok.caps))
    &&& exists|rs: Seq<Result<FeatureReading, BackendError>>| #[trigger]
        read_from(backend, display_num, recognized_codes(ok.caps.deep_view().features), rs)
            && is_scan_result(ok, ok.caps.deep_view(), deep(successes(rs)))
}

/// What a job comes to, over what the backend returned: a message of the job's
/// own kind and for its own code, and a scan to remember exactly where a probe
/// succeeded.
pub open spec fn comes_to<B: DdcBackend + ?Sized>(backend: &B, job: Job, done: Done) -> bool {
    match job {
        Job::Probe(display) => match done.msg {
            Msg::Probe(Ok(ok)) => {
                &&& scanned(backend, display.number, ok)
                &&& done.save matches Some(scan) && remembers(scan, display, ok)
            },
            Msg::Probe(Err(e)) => {
                &&& call_ensures(B::capabilities, (backend, display.number), Err(e))
                &&& done.save is None
            },
            _ => false,
        },
        Job::Detect => {
            &&& done.msg matches Msg::Detect(result) && call_ensures(B::detect, (backend,), result)
            &&& done.save is None
        },
        Job::LiveValue { display_num, code } => {
            &&& done.msg matches Msg::LiveValue { code: c, result } && c == code && call_ensures(
                B::get_vcp,
                (backend, display_num, code),
                result,
            )
            &&& done.save is None
        },
        Job::SetValue { display_num, code, value } => {
            &&& done.msg matches Msg::SetValue { code: c, value: v, result } && c == code && v
                == value && call_ensures(
                B::set_vcp,
                (backend, display_num, code, value, false),
                result,
            )
            &&& done.save is None
        },
        Job::Action { display_num, code } => {
            &&& done.msg matches Msg::ActionDone { result } && call_ensures(
                B::set_vcp,
                (backend, display_num, code, 1, false),
                result,
            )
            &&& done.save is None
        },
        Job::RawProbe { display_num, codes } => {
            &&& done.msg matches Msg::RawProbe(Ok(readings)) && exists|
                rs: Seq<Result<FeatureReading, BackendError>>,
            | #[trigger]
                read_from(backend, display_num, codes@, rs) && readings@ == successes(rs)
            &&& done.save is None
        },
        Job::RawSingleProbe { display_num, code } => {
            &&& done.msg matches Msg::RawSingleProbe { code: c, result } && c == code
                && call_ensures(B::get_vcp, (backend, display_num, code), result)
            &&& done.save is None
        },
        Job::RawSet { display_num, code, value, permit_unknown } => {
            &&& done.msg matches Msg::RawSet { code: c, result } && c == code && call_ensures(
                B::set_vcp,
                (backend, display_num, code, value, permit_unknown),
                result,
            )
            &&& done.save is None
        },
    }
}

/// Runs a job to its end.
pub fn run_job<B: DdcBackend + ?Sized>(backend: &B, job: Job) -> (r: Done)
    ensures
        comes_to(backend, job, r),
{
    let (call, pending) = start(job);
    let reply = perform(backend, &call);
    match resume(pending, reply) {
        Step::Done(done) => done,
        Step::Ask { call, pending } => {
            let reply = perform(backend, &call);
            match resume(pending, reply) {
                Step::Done(done) => done,
                Step::Ask { .. } => {
                    assert(false);
                    Done { msg: Msg::ActionDone { result: Ok(()) }, save: None }
                },
            }
        },
    }
}

// ---- laws ----------------------------------------------------------------------

/// Whether a call reads exactly one code of a display.
pub open spec fn reads_one(call: Call, display_num: i32, code: u8) -> bool {
    call matches Call::Read { display_num: n, codes } && n == display_num && codes@.len() == 1
        && codes@[0] == code
}

/// What a command comes to at the monitor. A value is written as it is, and never
/// to a code that is not recognized; only a raw write may do that, where it was
/// permitted. An action writes 1 to its code. A scan of raw codes reads all of
/// them. What is remembered is dropped by a rescan alone, and that of the display
/// being rescanned.
pub proof fn law_commands_reach_the_monitor(
    plan: Plan,
    cmd: Cmd,
    cached: Option<MonitorCacheView>,
    call: Call,
    pending: Pending,
)
    requires
        carries_out(plan, cmd, cached),
        plan.jobs@.len() > 0 ==> asks_first(plan.jobs@[0], call, pending),
    ensures
        plan.forget is Some <==> cmd is Rescan,
        cmd matches Cmd::Rescan(d) ==> plan.forget == Some(d),
        !(cmd is Probe) ==> plan.jobs@.len() == 1 && plan.message is None,
        match cmd {
            Cmd::Detect => call == Call::Detect,
            Cmd::Rescan(_) => call == Call::Detect,
            Cmd::Probe(d) => match cached {
                None => plan.jobs@.len() == 1 && plan.message is None && call
                    == (Call::Capabilities { display_num: d.number }),
                Some(c) => plan.jobs@.len() == c.sliders.len() + c.selectors.len()
                    && plan.message is Some && plan.message->0 is CachedControls,
            },
            Cmd::SetValue { display_num, code, value } => call == (Call::Write {
                display_num,
                code,
                value,
                permit_unknown: false,
            }),
            Cmd::Action { display_num, code } => call == (Call::Write {
                display_num,
                code,
                value: 1,
                permit_unknown: false,
            }),
            Cmd::RawProbe { display_num, codes } => call == (Call::Read { display_num, codes }),
            Cmd::RawSingleProbe { display_num, code } => reads_one(call, display_num, code),
            Cmd::RawSet { display_num, code, value, permit_unknown } => call == (Call::Write {
                display_num,
                code,
                value,
                permit_unknown,
            }),
        },
{
}

/// Where a scan is remembered, its controls are shown at once, and the code of
/// every slider and of every selector is read again, one job each, of that
/// display; nothing else is.
pub proof fn law_remembered_values_are_read_again(
    plan: Plan,
    d: Display,
    cache: MonitorCacheView,
    i: int,
    call: Call,
    pending: Pending,
)
    requires
        carries_out(plan, Cmd::Probe(d), Some(cache)),
        0 <= i < plan.jobs@.len(),
        asks_first(plan.jobs@[i], call, pending),
    ensures
        plan.jobs@.len() == cache.sliders.len() + cache.selectors.len(),
        i < cache.sliders.len() ==> reads_one(call, d.number, cache.sliders[i].code),
        i >= cache.sliders.len() ==> reads_one(
            call,
            d.number,
            cache.selectors[i - cache.sliders.len()].code,
        ),
        plan.message matches Some(Msg::CachedControls(ok)) && ok.caps.deep_view()
            == cache.capabilities,
{
}

/// What the monitor answered is reported as it is, for the code and the value that
/// were asked about, and nothing but a scan is remembered.
pub proof fn law_answers_are_reported(
    job: Job,
    call: Call,
    pending: Pending,
    reply: Reply,
    step: Step,
)
    requires
        asks_first(job, call, pending),
        awaits(pending, reply),
        goes_on(pending, reply, step),
        !(job is Probe),
    ensures
        step is Done,
        step->Done_0.save is None,
        match (job, reply) {
            (Job::Detect, Reply::Displays(r)) => step->Done_0.msg == Msg::Detect(r),
            (Job::LiveValue { code, .. }, Reply::Readings(rs)) => step->Done_0.msg
                == (Msg::LiveValue { code, result: rs@[0] }),
            (Job::SetValue { code, value, .. }, Reply::Written(r)) => step->Done_0.msg
                == (Msg::SetValue { code, value, result: r }),
            (Job::Action { .. }, Reply::Written(r)) => step->Done_0.msg == (Msg::ActionDone {
                result: r,
            }),
            (Job::RawSingleProbe { code, .. }, Reply::Readings(rs)) => step->Done_0.msg
                == (Msg::RawSingleProbe { code, result: rs@[0] }),
            (Job::RawSet { code, .. }, Reply::Written(r)) => step->Done_0.msg == (Msg::RawSet {
                code,
                result: r,
            }),
            (Job::RawProbe { .. }, Reply::Readings(rs)) => step->Done_0.msg matches Msg::RawProbe(
                Ok(readings),
            ) && readings@ == successes(rs@),
            _ => false,
        },
{
}

/// A probe asks for the capabilities first, and then reads the recognized features
/// of the same display. Without capabilities it fails, and nothing is remembered.
pub proof fn law_a_probe_reads_what_is_recognized(
    d: Display,
    call: Call,
    pending: Pending,
    result: Result<Capabilities, BackendError>,
    step: Step,
)
    requires
        asks_first(Job::Probe(d), call, pending),
        goes_on(pending, Reply::Capabilities(result), step),
    ensures
        call == (Call::Capabilities { display_num: d.number }),
        result matches Err(e) ==> step == Step::Done(Done { msg: Msg::Probe(Err(e)), save: None }),
        result matches Ok(caps) ==> {
            &&& step matches Step::Ask { call: next, pending: waits }
            &&& next matches Call::Read { display_num, codes } && display_num == d.number && codes@
                == recognized_codes(caps.deep_view().features)
            &&& waits == (Pending::Features { display: d, caps })
        },
{
}

/// One feature more is read exactly where it is recognized, after those before it.
pub proof fn law_recognized_features_are_scanned(features: Seq<VcpFeatureView>, f: VcpFeatureView)
    ensures
        recognized_codes(Seq::empty()).len() == 0,
        f.recognized ==> recognized_codes(features.push(f)) == recognized_codes(features).push(
            f.code,
        ),
        !f.recognized ==> recognized_codes(features.push(f)) == recognized_codes(features),
{
    assert(features.push(f).drop_last() =~= features);
}

/// One reading more is kept exactly where it succeeded, after those before it.
pub proof fn law_one_bad_reading_is_not_fatal(
    rs: Seq<Result<FeatureReading, BackendError>>,
    r: FeatureReading,
    e: BackendError,
)
    ensures
        successes(Seq::empty()).len() == 0,
        successes(rs.push(Ok(r))) == successes(rs).push(r),
        successes(rs.push(Err(e))) == successes(rs),
{
    assert(rs.push(Ok(r)).drop_last() =~= rs);
    assert(rs.push(Err(e)).drop_last() =~= rs);
}

/// What a scan found is shown and remembered alike: the capabilities, and every
/// control with its value, for the display that was scanned.
pub proof fn law_what_is_shown_is_remembered(
    d: Display,
    caps: Capabilities,
    rs: Vec<Result<FeatureReading, BackendError>>,
    step: Step,
    i: int,
)
    requires
        goes_on(Pending::Features { display: d, caps }, Reply::Readings(rs), step),
    ensures
        step is Done && step->Done_0.msg is Probe && step->Done_0.msg->Probe_0 is Ok
            && step->Done_0.save is Some,
        ({
            let ok = step->Done_0.msg->Probe_0->Ok_0;
            let scan = step->Done_0.save->0;
            let cache = scan.cache.deep_view();
            &&& ok.caps == caps && scan.display == d && cache.capabilities == caps.deep_view()
            &&& cache.sliders.len() == ok.sliders@.len()
            &&& cache.selectors.len() == ok.selectors@.len()
            &&& cache.action_codes.len() == ok.actions@.len()
            &&& 0 <= i < ok.sliders@.len() ==> cache.sliders[i].code == ok.sliders@[i].code
                && cache.sliders[i].value == ok.sliders@[i].value && cache.sliders[i].max
                == ok.sliders@[i].max
            &&& 0 <= i < ok.selectors@.len() ==> cache.selectors[i].code == ok.selectors@[i].code
                && cache.selectors[i].selected == ok.selectors@[i].selected
            &&& 0 <= i < ok.actions@.len() ==> cache.action_codes[i] == ok.actions@[i].code
            &&& probed(ok) == arranged(
                fresh_controls(
                    caps.deep_view().features,
                    deep(successes(rs@)),
                    Set::empty(),
                ),
            )
        }),
{
}

/// What a job that ran to its end did to the backend: it called the method of its
/// own kind for its own display, code and value, and reports what that returned.
pub proof fn law_jobs_call_their_own_method<B: DdcBackend + ?Sized>(
    backend: &B,
    job: Job,
    done: Done,
)
    requires
        comes_to(backend, job, done),
    ensures
        match job {
            Job::Detect => done.msg matches Msg::Detect(r) && call_ensures(
                B::detect,
                (backend,),
                r,
            ),
            Job::LiveValue { display_num, code } => done.msg matches Msg::LiveValue {
                code: c,
                result,
            } && c == code && call_ensures(B::get_vcp, (backend, display_num, code), result),
            Job::SetValue { display_num, code, value } => done.msg matches Msg::SetValue {
                code: c,
                value: v,
                result,
            } && c == code && v == value && call_ensures(
                B::set_vcp,
                (backend, display_num, code, value, false),
                result,
            ),
            Job::Action { display_num, code } => done.msg matches Msg::ActionDone { result }
                && call_ensures(B::set_vcp, (backend, display_num, code, 1, false), result),
            Job::RawSet { display_num, code, value, permit_unknown } => done.msg
                matches Msg::RawSet { code: c, result } && c == code && call_ensures(
                B::set_vcp,
                (backend, display_num, code, value, permit_unknown),
                result,
            ),
            Job::RawSingleProbe { display_num, code } => done.msg matches Msg::RawSingleProbe {
                code: c,
                result,
            } && c == code && call_ensures(B::get_vcp, (backend, display_num, code), result),
            Job::RawProbe { .. } => done.msg is RawProbe && done.msg->RawProbe_0 is Ok,
            Job::Probe(d) => done.msg is Probe && (done.msg->Probe_0 is Ok <==> done.save is Some)
                && (done.save matches Some(scan) ==> scan.display == d),
        },
        !(job is Probe) ==> done.save is None,
{
}

} // verus!
