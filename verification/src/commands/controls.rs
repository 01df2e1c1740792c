//! The friendly controls, built from a live scan or from a remembered one.

use std::collections::HashSet;

use vstd::prelude::*;

use crate::cache::{stamped, CachedSelector, CachedSlider, MonitorCache, MonitorCacheView};
use crate::components::{
    step_for, Action, ActionView, Selector, SelectorOption, SelectorOptionView, SelectorView,
    Slider, SliderView,
};
use crate::text::{deep, group_deep};
use crate::vcp::{
    all_named, Capabilities, CapabilitiesView, FeatureReading, FeatureReadingView, VcpFeature,
    VcpFeatureView, VcpValue, VcpValueView,
};

verus! {

/// Distinguishes the three kinds of control a probe result can surface.
#[derive(Debug, Clone, Copy, PartialEq, Eq, Structural)]
pub enum CtrlKind {
    Slider,
    Selector,
    Action,
}

/// Points at one entry in `sliders`/`selectors`/`actions`, in the order they
/// should be interleaved: for navigation, and for rendering within a section
/// (the order their VCP codes appear in capabilities).
#[derive(Debug, Clone, Copy, PartialEq, Eq, Structural)]
pub struct CtrlRef {
    pub kind: CtrlKind,
    pub idx: usize,
}

/// The friendly controls built from a probe, plus the capabilities they were
/// built from.
#[derive(Debug)]
pub struct ProbeOk {
    pub caps: Capabilities,
    pub sliders: Vec<Slider>,
    pub selectors: Vec<Selector>,
    pub actions: Vec<Action>,
    pub order: Vec<CtrlRef>,
}

// ---- arrangement ---------------------------------------------------------------

/// One control of any kind.
pub enum ControlView {
    Slider(SliderView),
    Selector(SelectorView),
    Action(ActionView),
}

impl ControlView {
    /// The kind of this control.
    pub open spec fn kind(self) -> CtrlKind {
        match self {
            ControlView::Slider(_) => CtrlKind::Slider,
            ControlView::Selector(_) => CtrlKind::Selector,
            ControlView::Action(_) => CtrlKind::Action,
        }
    }

    /// The name that this control is shown under.
    pub open spec fn name(self) -> Seq<char> {
        match self {
            ControlView::Slider(s) => s.name,
            ControlView::Selector(s) => s.name,
            ControlView::Action(a) => a.name,
        }
    }

    /// The code that this control reads or writes.
    pub open spec fn code(self) -> u8 {
        match self {
            ControlView::Slider(s) => s.code,
            ControlView::Selector(s) => s.code,
            ControlView::Action(a) => a.code,
        }
    }
}

/// Controls sorted by kind, with the order that interleaves them.
#[verifier::ext_equal]
pub struct ControlsView {
    pub sliders: Seq<SliderView>,
    pub selectors: Seq<SelectorView>,
    pub actions: Seq<ActionView>,
    pub order: Seq<CtrlRef>,
}

/// The given controls, sorted by kind.
pub open spec fn arranged(controls: Seq<ControlView>) -> ControlsView
    decreases controls.len(),
{
    if controls.len() == 0 {
        ControlsView {
            sliders: Seq::empty(),
            selectors: Seq::empty(),
            actions: Seq::empty(),
            order: Seq::empty(),
        }
    } else {
        let before = arranged(controls.drop_last());
        match controls.last() {
            ControlView::Slider(s) => ControlsView {
                sliders: before.sliders.push(s),
                order: before.order.push(
                    CtrlRef { kind: CtrlKind::Slider, idx: before.sliders.len() as usize },
                ),
                ..before
            },
            ControlView::Selector(s) => ControlsView {
                selectors: before.selectors.push(s),
                order: before.order.push(
                    CtrlRef { kind: CtrlKind::Selector, idx: before.selectors.len() as usize },
                ),
                ..before
            },
            ControlView::Action(a) => ControlsView {
                actions: before.actions.push(a),
                order: before.order.push(
                    CtrlRef { kind: CtrlKind::Action, idx: before.actions.len() as usize },
                ),
                ..before
            },
        }
    }
}

/// The control that a reference points at; `None` where it points nowhere.
pub open spec fn resolved(c: ControlsView, r: CtrlRef) -> Option<ControlView> {
    match r.kind {
        CtrlKind::Slider => if r.idx < c.sliders.len() {
            Some(ControlView::Slider(c.sliders[r.idx as int]))
        } else {
            None
        },
        CtrlKind::Selector => if r.idx < c.selectors.len() {
            Some(ControlView::Selector(c.selectors[r.idx as int]))
        } else {
            None
        },
        CtrlKind::Action => if r.idx < c.actions.len() {
            Some(ControlView::Action(c.actions[r.idx as int]))
        } else {
            None
        },
    }
}

proof fn lemma_arranged_sizes(controls: Seq<ControlView>)
    ensures
        arranged(controls).order.len() == controls.len(),
        arranged(controls).sliders.len() + arranged(controls).selectors.len() + arranged(
            controls,
        ).actions.len() == controls.len(),
    decreases controls.len(),
{
    if controls.len() > 0 {
        lemma_arranged_sizes(controls.drop_last());
    }
}

/// The order interleaves the three lists exactly as the controls came: its
/// `i`-th reference points at the `i`-th control, and no control is left out.
pub proof fn law_order_lists_controls(controls: Seq<ControlView>)
    requires
        controls.len() <= usize::MAX,
    ensures
        arranged(controls).order.len() == controls.len(),
        arranged(controls).sliders.len() + arranged(controls).selectors.len() + arranged(
            controls,
        ).actions.len() == controls.len(),
        forall|i: int|
            0 <= i < controls.len() ==> resolved(
                arranged(controls),
                #[trigger] arranged(controls).order[i],
            ) == Some(controls[i]),
    decreases controls.len(),
{
    lemma_arranged_sizes(controls);
    if controls.len() > 0 {
        let before = arranged(controls.drop_last());
        law_order_lists_controls(controls.drop_last());
        lemma_arranged_sizes(controls.drop_last());
        let all = arranged(controls);
        assert forall|i: int| 0 <= i < controls.len() implies resolved(
            all,
            #[trigger] all.order[i],
        ) == Some(controls[i]) by {
            if i < controls.len() - 1 {
                assert(all.order[i] == before.order[i]);
                assert(resolved(before, before.order[i]) == Some(controls.drop_last()[i]));
            }
        }
    }
}

/// Controls as they are built up.
struct Arranger {
    sliders: Vec<Slider>,
    selectors: Vec<Selector>,
    actions: Vec<Action>,
    order: Vec<CtrlRef>,
}

/// One control of any kind.
enum Control {
    Slider(Slider),
    Selector(Selector),
    Action(Action),
}

impl DeepView for Control {
    type V = ControlView;

    closed spec fn deep_view(&self) -> ControlView {
        match *self {
            Control::Slider(s) => ControlView::Slider(s.deep_view()),
            Control::Selector(s) => ControlView::Selector(s.deep_view()),
            Control::Action(a) => ControlView::Action(a.deep_view()),
        }
    }
}

/// The four lists of controls, by their views.
pub open spec fn controls_view(
    sliders: Seq<Slider>,
    selectors: Seq<Selector>,
    actions: Seq<Action>,
    order: Seq<CtrlRef>,
) -> ControlsView {
    ControlsView { sliders: deep(sliders), selectors: deep(selectors), actions: deep(actions), order }
}

impl DeepView for Arranger {
    type V = ControlsView;

    closed spec fn deep_view(&self) -> ControlsView {
        controls_view(self.sliders@, self.selectors@, self.actions@, self.order@)
    }
}

impl Arranger {
    fn new() -> (r: Self)
        ensures
            r.deep_view() == arranged(Seq::empty()),
    {
        broadcast use group_deep;

        Arranger {
            sliders: Vec::new(),
            selectors: Vec::new(),
            actions: Vec::new(),
            order: Vec::new(),
        }
    }

    fn push(&mut self, control: Control, Ghost(before): Ghost<Seq<ControlView>>)
        requires
            old(self).deep_view() == arranged(before),
        ensures
            final(self).deep_view() == arranged(before.push(control.deep_view())),
    {
        broadcast use group_deep;

        assert(before.push(control.deep_view()).drop_last() =~= before);
        match control {
            Control::Slider(s) => {
                self.order.push(CtrlRef { kind: CtrlKind::Slider, idx: self.sliders.len() });
                self.sliders.push(s);
            },
            Control::Selector(s) => {
                self.order.push(CtrlRef { kind: CtrlKind::Selector, idx: self.selectors.len() });
                self.selectors.push(s);
            },
            Control::Action(a) => {
                self.order.push(CtrlRef { kind: CtrlKind::Action, idx: self.actions.len() });
                self.actions.push(a);
            },
        }
        assert(self.deep_view() =~= arranged(before.push(control.deep_view())));
    }
}

// ---- from a live scan ----------------------------------------------------------

/// The reading to use for a code: the last one with that code.
pub open spec fn reading_for(readings: Seq<FeatureReadingView>, code: u8) -> Option<
    FeatureReadingView,
>
    decreases readings.len(),
{
    if readings.len() == 0 {
        None
    } else if readings.last().code == code {
        Some(readings.last())
    } else {
        reading_for(readings.drop_last(), code)
    }
}

/// A feature's declared values, as the options of a selector.
pub open spec fn options_of(values: Seq<VcpValueView>) -> Seq<SelectorOptionView> {
    values.map_values(|v: VcpValueView| SelectorOptionView { code: v.code, name: v.name })
}

/// A slider for a feature.
pub open spec fn slider_for(f: VcpFeatureView, value: u16, max: u16) -> ControlView {
    ControlView::Slider(
        SliderView { code: f.code, name: f.name, value, max, step: step_for(max) },
    )
}

/// A selector for a feature.
pub open spec fn selector_for(f: VcpFeatureView, selected: u8) -> ControlView {
    ControlView::Selector(
        SelectorView { code: f.code, name: f.name, options: options_of(f.values), selected },
    )
}

/// An action for a feature.
pub open spec fn action_for(f: VcpFeatureView) -> ControlView {
    ControlView::Action(ActionView { code: f.code, name: f.name })
}

/// The control that a feature becomes, if any: a feature that cannot be read
/// back is an action, a continuous one a slider, and one whose every declared
/// value has a name a selector. A generic reading has no value that a selector
/// could show, so such a feature is no control. A feature without a reading is
/// an action only where it is known to be one; an unrecognized feature is no
/// control.
pub open spec fn control_for(
    f: VcpFeatureView,
    reading: Option<FeatureReadingView>,
    known_action: bool,
) -> Option<ControlView> {
    if !f.recognized {
        None
    } else {
        match reading {
            None => if known_action {
                Some(action_for(f))
            } else {
                None
            },
            Some(r) => if !r.readable {
                Some(action_for(f))
            } else if r.continuous {
                Some(slider_for(f, r.current, r.max))
            } else if !r.generic && f.values.len() > 0 && all_named(f.values) {
                Some(selector_for(f, r.current as u8))
            } else {
                None
            },
        }
    }
}

/// The controls that the features become, in order.
pub open spec fn fresh_controls(
    features: Seq<VcpFeatureView>,
    readings: Seq<FeatureReadingView>,
    known_actions: Set<u8>,
) -> Seq<ControlView>
    decreases features.len(),
{
    if features.len() == 0 {
        Seq::empty()
    } else {
        let f = features.last();
        let before = fresh_controls(features.drop_last(), readings, known_actions);
        match control_for(f, reading_for(readings, f.code), known_actions.contains(f.code)) {
            Some(c) => before.push(c),
            None => before,
        }
    }
}

fn find_reading<'a>(readings: &'a [FeatureReading], code: u8) -> (r: Option<&'a FeatureReading>)
    ensures
        r.deep_view() == reading_for(deep(readings@), code),
{
    let ghost all = deep(readings@);
    let mut i: usize = readings.len();
    assert(all.take(all.len() as int) =~= all);
    while i > 0
        invariant
            i <= readings@.len(),
            all == deep(readings@),
            reading_for(all, code) == reading_for(all.take(i as int), code),
        decreases i,
    {
        let last = &readings[i - 1];
        assert(all.take(i as int).last() == last.deep_view());
        assert(all.take(i as int).drop_last() =~= all.take(i - 1));
        if last.code == code {
            return Some(last);
        }
        i = i - 1;
    }
    None
}

fn selector_options(values: &Vec<VcpValue>) -> (r: Vec<SelectorOption>)
    ensures
        deep(r@) == options_of(deep(values@)),
{
    broadcast use group_deep;

    let mut options: Vec<SelectorOption> = Vec::new();
    let ghost want = options_of(deep(values@));
    for i in 0..values.len()
        invariant
            want == options_of(deep(values@)),
            deep(options@) == want.take(i as int),
    {
        let v = &values[i];
        options.push(SelectorOption { code: v.code, name: v.name.clone() });
        assert(want.take(i + 1) =~= want.take(i as int).push(want[i as int]));
    }
    assert(want.take(want.len() as int) =~= want);
    options
}

fn slider_control(f: &VcpFeature, value: u16, max: u16) -> (r: Control)
    ensures
        r.deep_view() == slider_for(f.deep_view(), value, max),
{
    Control::Slider(Slider::new(f.code, f.name.as_str(), value, max))
}

fn selector_control(f: &VcpFeature, selected: u8) -> (r: Control)
    ensures
        r.deep_view() == selector_for(f.deep_view(), selected),
{
    Control::Selector(
        Selector::new(f.code, f.name.as_str(), selector_options(&f.values), selected),
    )
}

fn action_control(f: &VcpFeature) -> (r: Control)
    ensures
        r.deep_view() == action_for(f.deep_view()),
{
    Control::Action(Action { code: f.code, name: f.name.clone() })
}

fn classify(f: &VcpFeature, reading: Option<&FeatureReading>, known_action: bool) -> (r: Option<
    Control,
>)
    ensures
        r.deep_view() == control_for(f.deep_view(), reading.deep_view(), known_action),
{
    if !f.recognized {
        return None;
    }
    match reading {
        None => if known_action {
            Some(action_control(f))
        } else {
            None
        },
        Some(r) => if !r.readable {
            Some(action_control(f))
        } else if r.continuous {
            Some(slider_control(f, r.current, r.max))
        } else if !r.generic && f.has_values() && f.all_values_named() {
            Some(selector_control(f, r.current as u8))
        } else {
            None
        },
    }
}

/// The codes that a set of known actions holds.
pub open spec fn known_codes(known: Option<&HashSet<u8>>) -> Set<u8> {
    match known {
        Some(s) => s@,
        None => Set::empty(),
    }
}

/// Turns a probe result into the three kinds of friendly control the controls
/// screen understands:
///   - continuous features (Brightness, Contrast, RGB gain, Volume, ...) become sliders
///   - non-continuous features whose every declared value has a name
///     (Input Source, Color Preset, Power mode, ...) become selectors
///   - write-only features with nothing to read back (Restore factory
///     defaults, ...) become actions
///
/// Everything else (unrecognized codes, manufacturer-specific codes, and enums
/// with unnamed values) is left out: it belongs on the Raw VCP screen.
///
/// `known_action_codes` lets a code be classified as an action without a live
/// reading in hand. Pass `None` when every recognized code was actually probed
/// this run.
pub fn build_controls(
    caps: &Capabilities,
    readings: &[FeatureReading],
    known_action_codes: Option<&HashSet<u8>>,
) -> (r: (Vec<Slider>, Vec<Selector>, Vec<Action>, Vec<CtrlRef>))
    ensures
        controls_view(r.0@, r.1@, r.2@, r.3@) == arranged(
            fresh_controls(
                caps.deep_view().features,
                deep(readings@),
                known_codes(known_action_codes),
            ),
        ),
{
    let mut built = Arranger::new();
    let ghost features = caps.deep_view().features;
    let ghost known = known_codes(known_action_codes);
    assert(features.take(0) =~= Seq::empty());
    for i in 0..caps.features.len()
        invariant
            features == deep(caps.features@),
            known == known_codes(known_action_codes),
            built.deep_view() == arranged(
                fresh_controls(features.take(i as int), deep(readings@), known),
            ),
    {
        let f = &caps.features[i];
        let ghost before = fresh_controls(features.take(i as int), deep(readings@), known);
        assert(features.take(i + 1).drop_last() =~= features.take(i as int));
        assert(features.take(i + 1).last() == f.deep_view());
        let known_action = match known_action_codes {
            Some(s) => s.contains(&f.code),
            None => false,
        };
        if let Some(c) = classify(f, find_reading(readings, f.code), known_action) {
            built.push(c, Ghost(before));
        }
    }
    assert(features.take(features.len() as int) =~= features);
    (built.sliders, built.selectors, built.actions, built.order)
}

// ---- from a remembered scan ----------------------------------------------------

/// The remembered slider to use for a code: the last one with that code.
pub open spec fn slider_entry(entries: Seq<CachedSlider>, code: u8) -> Option<CachedSlider>
    decreases entries.len(),
{
    if entries.len() == 0 {
        None
    } else if entries.last().code == code {
        Some(entries.last())
    } else {
        slider_entry(entries.drop_last(), code)
    }
}

/// The remembered selector to use for a code: the last one with that code.
pub open spec fn selector_entry(entries: Seq<CachedSelector>, code: u8) -> Option<CachedSelector>
    decreases entries.len(),
{
    if entries.len() == 0 {
        None
    } else if entries.last().code == code {
        Some(entries.last())
    } else {
        selector_entry(entries.drop_last(), code)
    }
}

/// The control that a remembered scan holds for a feature, if any.
pub open spec fn cached_control(cache: MonitorCacheView, f: VcpFeatureView) -> Option<
    ControlView,
> {
    if slider_entry(cache.sliders, f.code) is Some {
        let e = slider_entry(cache.sliders, f.code)->0;
        Some(slider_for(f, e.value, e.max))
    } else if selector_entry(cache.selectors, f.code) is Some {
        Some(selector_for(f, (selector_entry(cache.selectors, f.code)->0).selected))
    } else if cache.action_codes.contains(f.code) {
        Some(action_for(f))
    } else {
        None
    }
}

/// The controls that a remembered scan holds for the features, in order.
pub open spec fn cached_controls(cache: MonitorCacheView, features: Seq<VcpFeatureView>) -> Seq<
    ControlView,
>
    decreases features.len(),
{
    if features.len() == 0 {
        Seq::empty()
    } else {
        let before = cached_controls(cache, features.drop_last());
        match cached_control(cache, features.last()) {
            Some(c) => before.push(c),
            None => before,
        }
    }
}

fn find_slider(entries: &Vec<CachedSlider>, code: u8) -> (r: Option<CachedSlider>)
    ensures
        r == slider_entry(entries@, code),
{
    let mut i: usize = entries.len();
    assert(entries@.take(entries@.len() as int) =~= entries@);
    while i > 0
        invariant
            i <= entries@.len(),
            slider_entry(entries@, code) == slider_entry(entries@.take(i as int), code),
        decreases i,
    {
        assert(entries@.take(i as int).drop_last() =~= entries@.take(i - 1));
        if entries[i - 1].code == code {
            return Some(entries[i - 1]);
        }
        i = i - 1;
    }
    None
}

fn find_selector(entries: &Vec<CachedSelector>, code: u8) -> (r: Option<CachedSelector>)
    ensures
        r == selector_entry(entries@, code),
{
    let mut i: usize = entries.len();
    assert(entries@.take(entries@.len() as int) =~= entries@);
    while i > 0
        invariant
            i <= entries@.len(),
            selector_entry(entries@, code) == selector_entry(entries@.take(i as int), code),
        decreases i,
    {
        assert(entries@.take(i as int).drop_last() =~= entries@.take(i - 1));
        if entries[i - 1].code == code {
            return Some(entries[i - 1]);
        }
        i = i - 1;
    }
    None
}

fn holds_code(codes: &Vec<u8>, code: u8) -> (r: bool)
    ensures
        r == codes@.contains(code),
{
    for i in 0..codes.len()
        invariant
            forall|j: int| 0 <= j < i ==> codes@[j] != code,
    {
        if codes[i] == code {
            return true;
        }
    }
    false
}

fn remembered(cache: &MonitorCache, f: &VcpFeature) -> (r: Option<Control>)
    ensures
        r.deep_view() == cached_control(cache.deep_view(), f.deep_view()),
{
    if let Some(e) = find_slider(&cache.sliders, f.code) {
        return Some(slider_control(f, e.value, e.max));
    }
    if let Some(e) = find_selector(&cache.selectors, f.code) {
        return Some(selector_control(f, e.selected));
    }
    if holds_code(&cache.action_codes, f.code) {
        return Some(action_control(f));
    }
    None
}

/// Rebuilds the friendly controls straight from a cached scan, with no live
/// reading involved: every code in it was already confirmed to behave like a
/// slider/selector/action on a previous full scan, so there is nothing left to
/// classify, only values to trust provisionally until a live read confirms
/// them. The order is that of the capabilities, as for a fresh scan.
pub fn build_controls_from_cache(cache: &MonitorCache) -> (r: (
    Vec<Slider>,
    Vec<Selector>,
    Vec<Action>,
    Vec<CtrlRef>,
))
    ensures
        controls_view(r.0@, r.1@, r.2@, r.3@) == arranged(
            cached_controls(cache.deep_view(), cache.deep_view().capabilities.features),
        ),
{
    let mut built = Arranger::new();
    let ghost features = cache.deep_view().capabilities.features;
    assert(features.take(0) =~= Seq::empty());
    for i in 0..cache.capabilities.features.len()
        invariant
            features == deep(cache.capabilities.features@),
            built.deep_view() == arranged(
                cached_controls(cache.deep_view(), features.take(i as int)),
            ),
    {
        let f = &cache.capabilities.features[i];
        let ghost before = cached_controls(cache.deep_view(), features.take(i as int));
        assert(features.take(i + 1).drop_last() =~= features.take(i as int));
        assert(features.take(i + 1).last() == f.deep_view());
        if let Some(c) = remembered(cache, f) {
            built.push(c, Ghost(before));
        }
    }
    assert(features.take(features.len() as int) =~= features);
    (built.sliders, built.selectors, built.actions, built.order)
}

/// What is remembered of a scan; its version is stamped when it is written.
pub open spec fn scan_of(caps: CapabilitiesView, controls: ControlsView) -> MonitorCacheView {
    MonitorCacheView {
        version: 0,
        capabilities: caps,
        sliders: controls.sliders.map_values(
            |s: SliderView| CachedSlider { code: s.code, max: s.max, value: s.value },
        ),
        selectors: controls.selectors.map_values(
            |s: SelectorView| CachedSelector { code: s.code, selected: s.selected },
        ),
        action_codes: controls.actions.map_values(|a: ActionView| a.code),
    }
}

/// What is remembered of a scan.
pub fn to_monitor_cache(
    caps: &Capabilities,
    sliders: &[Slider],
    selectors: &[Selector],
    actions: &[Action],
) -> (r: MonitorCache)
    ensures
        r.deep_view() == scan_of(
            caps.deep_view(),
            controls_view(sliders@, selectors@, actions@, Seq::empty()),
        ),
{
    let mut cached_sliders: Vec<CachedSlider> = Vec::new();
    for i in 0..sliders.len()
        invariant
            cached_sliders@.len() == i,
            forall|j: int|
                0 <= j < i ==> #[trigger] cached_sliders@[j] == (CachedSlider {
                    code: sliders@[j].code,
                    max: sliders@[j].max,
                    value: sliders@[j].value,
                }),
    {
        let s = &sliders[i];
        cached_sliders.push(CachedSlider { code: s.code, max: s.max, value: s.value });
    }
    let mut cached_selectors: Vec<CachedSelector> = Vec::new();
    for i in 0..selectors.len()
        invariant
            cached_selectors@.len() == i,
            forall|j: int|
                0 <= j < i ==> #[trigger] cached_selectors@[j] == (CachedSelector {
                    code: selectors@[j].code,
                    selected: selectors@[j].selected,
                }),
    {
        let s = &selectors[i];
        cached_selectors.push(CachedSelector { code: s.code, selected: s.selected });
    }
    let mut action_codes: Vec<u8> = Vec::new();
    for i in 0..actions.len()
        invariant
            action_codes@.len() == i,
            forall|j: int| 0 <= j < i ==> #[trigger] action_codes@[j] == actions@[j].code,
    {
        action_codes.push(actions[i].code);
    }
    let r = MonitorCache {
        version: 0,
        capabilities: caps.clone(),
        sliders: cached_sliders,
        selectors: cached_selectors,
        action_codes,
    };
    proof {
        let want = scan_of(
            caps.deep_view(),
            controls_view(sliders@, selectors@, actions@, Seq::empty()),
        );
        assert(r.sliders@ =~= want.sliders);
        assert(r.selectors@ =~= want.selectors);
        assert(r.action_codes@ =~= want.action_codes);
    }
    r
}

/// The codes of all the features, in order.
pub fn all_feature_codes(caps: &Capabilities) -> (r: Vec<u8>)
    ensures
        r@ == caps.deep_view().features.map_values(|f: VcpFeatureView| f.code),
{
    let mut codes: Vec<u8> = Vec::new();
    for i in 0..caps.features.len()
        invariant
            codes@.len() == i,
            forall|j: int| 0 <= j < i ==> #[trigger] codes@[j] == caps.features@[j].code,
    {
        codes.push(caps.features[i].code);
    }
    assert(codes@ =~= caps.deep_view().features.map_values(|f: VcpFeatureView| f.code));
    codes
}

// ---- laws ----------------------------------------------------------------------

proof fn lemma_fresh_from(
    features: Seq<VcpFeatureView>,
    readings: Seq<FeatureReadingView>,
    known: Set<u8>,
    k: int,
) -> (i: int)
    requires
        0 <= k < fresh_controls(features, readings, known).len(),
    ensures
        0 <= i < features.len(),
        control_for(
            features[i],
            reading_for(readings, features[i].code),
            known.contains(features[i].code),
        ) == Some(fresh_controls(features, readings, known)[k]),
    decreases features.len(),
{
    let f = features.last();
    let before = fresh_controls(features.drop_last(), readings, known);
    match control_for(f, reading_for(readings, f.code), known.contains(f.code)) {
        Some(c) => if k == before.len() {
            features.len() - 1
        } else {
            lemma_fresh_from(features.drop_last(), readings, known, k)
        },
        None => lemma_fresh_from(features.drop_last(), readings, known, k),
    }
}

proof fn lemma_fresh_has(
    features: Seq<VcpFeatureView>,
    readings: Seq<FeatureReadingView>,
    known: Set<u8>,
    i: int,
) -> (k: int)
    requires
        0 <= i < features.len(),
        control_for(
            features[i],
            reading_for(readings, features[i].code),
            known.contains(features[i].code),
        ) is Some,
    ensures
        0 <= k < fresh_controls(features, readings, known).len(),
        control_for(
            features[i],
            reading_for(readings, features[i].code),
            known.contains(features[i].code),
        ) == Some(fresh_controls(features, readings, known)[k]),
    decreases features.len(),
{
    let before = fresh_controls(features.drop_last(), readings, known);
    if i == features.len() - 1 {
        before.len() as int
    } else {
        lemma_fresh_has(features.drop_last(), readings, known, i)
    }
}

/// Only recognized features become controls, and every control stands for a
/// declared feature: it has that feature's code, and its name.
pub proof fn law_no_control_is_invented(
    features: Seq<VcpFeatureView>,
    readings: Seq<FeatureReadingView>,
    known: Set<u8>,
    k: int,
)
    requires
        0 <= k < fresh_controls(features, readings, known).len(),
    ensures
        exists|i: int|
            0 <= i < features.len() && (#[trigger] features[i]).recognized && features[i].code
                == fresh_controls(features, readings, known)[k].code() && features[i].name
                == fresh_controls(features, readings, known)[k].name(),
{
    let i = lemma_fresh_from(features, readings, known, k);
    assert(features[i].recognized);
}

/// A selector always shows a value that was read: no selector stands for a
/// feature whose reading is generic.
pub proof fn law_selectors_show_a_reading(
    features: Seq<VcpFeatureView>,
    readings: Seq<FeatureReadingView>,
    known: Set<u8>,
    k: int,
)
    requires
        0 <= k < fresh_controls(features, readings, known).len(),
    ensures
        fresh_controls(features, readings, known)[k] matches ControlView::Selector(s) ==> {
            &&& reading_for(readings, s.code) matches Some(r)
            &&& r.readable && !r.generic && s.selected == r.current as u8
        },
{
    let i = lemma_fresh_from(features, readings, known, k);
    assert(features[i].recognized);
}

proof fn lemma_arranged_has(controls: Seq<ControlView>, k: int)
    requires
        0 <= k < controls.len(),
    ensures
        match controls[k] {
            ControlView::Slider(s) => arranged(controls).sliders.contains(s),
            ControlView::Selector(s) => arranged(controls).selectors.contains(s),
            ControlView::Action(a) => arranged(controls).actions.contains(a),
        },
    decreases controls.len(),
{
    let before = arranged(controls.drop_last());
    let all = arranged(controls);
    if k < controls.len() - 1 {
        lemma_arranged_has(controls.drop_last(), k);
        match controls[k] {
            ControlView::Slider(s) => {
                let j = choose|j: int| 0 <= j < before.sliders.len() && before.sliders[j] == s;
                assert(all.sliders[j] == s);
            },
            ControlView::Selector(s) => {
                let j = choose|j: int| 0 <= j < before.selectors.len() && before.selectors[j] == s;
                assert(all.selectors[j] == s);
            },
            ControlView::Action(a) => {
                let j = choose|j: int| 0 <= j < before.actions.len() && before.actions[j] == a;
                assert(all.actions[j] == a);
            },
        }
    } else {
        match controls[k] {
            ControlView::Slider(s) => {
                assert(all.sliders[before.sliders.len() as int] == s);
            },
            ControlView::Selector(s) => {
                assert(all.selectors[before.selectors.len() as int] == s);
            },
            ControlView::Action(a) => {
                assert(all.actions[before.actions.len() as int] == a);
            },
        }
    }
}

proof fn lemma_slider_from(controls: Seq<ControlView>, j: int) -> (k: int)
    requires
        0 <= j < arranged(controls).sliders.len(),
    ensures
        0 <= k < controls.len(),
        controls[k] == ControlView::Slider(arranged(controls).sliders[j]),
    decreases controls.len(),
{
    if controls.last() is Slider && j == arranged(controls).sliders.len() - 1 {
        controls.len() - 1
    } else {
        lemma_slider_from(controls.drop_last(), j)
    }
}

proof fn lemma_selector_from(controls: Seq<ControlView>, j: int) -> (k: int)
    requires
        0 <= j < arranged(controls).selectors.len(),
    ensures
        0 <= k < controls.len(),
        controls[k] == ControlView::Selector(arranged(controls).selectors[j]),
    decreases controls.len(),
{
    if controls.last() is Selector && j == arranged(controls).selectors.len() - 1 {
        controls.len() - 1
    } else {
        lemma_selector_from(controls.drop_last(), j)
    }
}

proof fn lemma_action_from(controls: Seq<ControlView>, j: int) -> (k: int)
    requires
        0 <= j < arranged(controls).actions.len(),
    ensures
        0 <= k < controls.len(),
        controls[k] == ControlView::Action(arranged(controls).actions[j]),
    decreases controls.len(),
{
    if controls.last() is Action && j == arranged(controls).actions.len() - 1 {
        controls.len() - 1
    } else {
        lemma_action_from(controls.drop_last(), j)
    }
}

proof fn lemma_slider_entry(entries: Seq<CachedSlider>, code: u8)
    ensures
        match slider_entry(entries, code) {
            Some(e) => e.code == code && entries.contains(e),
            None => forall|j: int| 0 <= j < entries.len() ==> (#[trigger] entries[j]).code != code,
        },
    decreases entries.len(),
{
    if entries.len() > 0 {
        lemma_slider_entry(entries.drop_last(), code);
        match slider_entry(entries, code) {
            Some(e) => {
                if entries.last().code == code {
                    assert(entries[entries.len() - 1] == e);
                } else {
                    let j = choose|j: int|
                        0 <= j < entries.len() - 1 && entries.drop_last()[j] == e;
                    assert(entries[j] == e);
                }
            },
            None => {
                assert forall|j: int| 0 <= j < entries.len() implies (
                #[trigger] entries[j]).code != code by {
                    if j < entries.len() - 1 {
                        assert(entries.drop_last()[j].code != code);
                    }
                }
            },
        }
    }
}

proof fn lemma_selector_entry(entries: Seq<CachedSelector>, code: u8)
    ensures
        match selector_entry(entries, code) {
            Some(e) => e.code == code && entries.contains(e),
            None => forall|j: int| 0 <= j < entries.len() ==> (#[trigger] entries[j]).code != code,
        },
    decreases entries.len(),
{
    if entries.len() > 0 {
        lemma_selector_entry(entries.drop_last(), code);
        match selector_entry(entries, code) {
            Some(e) => {
                if entries.last().code == code {
                    assert(entries[entries.len() - 1] == e);
                } else {
                    let j = choose|j: int|
                        0 <= j < entries.len() - 1 && entries.drop_last()[j] == e;
                    assert(entries[j] == e);
                }
            },
            None => {
                assert forall|j: int| 0 <= j < entries.len() implies (
                #[trigger] entries[j]).code != code by {
                    if j < entries.len() - 1 {
                        assert(entries.drop_last()[j].code != code);
                    }
                }
            },
        }
    }
}

/// The control that a feature becomes in a scan that knew some actions
/// beforehand.
pub open spec fn scanned_control(
    f: VcpFeatureView,
    readings: Seq<FeatureReadingView>,
    known: Set<u8>,
) -> Option<ControlView> {
    control_for(f, reading_for(readings, f.code), known.contains(f.code))
}

/// The kind of control that a feature becomes in such a scan, if any.
pub open spec fn scanned_kind(
    f: VcpFeatureView,
    readings: Seq<FeatureReadingView>,
    known: Set<u8>,
) -> Option<CtrlKind> {
    match scanned_control(f, readings, known) {
        Some(c) => Some(c.kind()),
        None => None,
    }
}

/// Whether a code that is declared more than once becomes the same kind of
/// control each time, or none each time.
pub open spec fn same_kind_per_code(
    features: Seq<VcpFeatureView>,
    readings: Seq<FeatureReadingView>,
    known: Set<u8>,
) -> bool {
    forall|i: int, j: int|
        0 <= i < features.len() && 0 <= j < features.len() && (#[trigger] features[i]).code == (
        #[trigger] features[j]).code ==> scanned_kind(features[i], readings, known)
            == scanned_kind(features[j], readings, known)
}

proof fn lemma_cached_control(
    caps: CapabilitiesView,
    readings: Seq<FeatureReadingView>,
    known: Set<u8>,
    i: int,
)
    requires
        same_kind_per_code(caps.features, readings, known),
        0 <= i < caps.features.len(),
    ensures
        cached_control(
            scan_of(caps, arranged(fresh_controls(caps.features, readings, known))),
            caps.features[i],
        ) == scanned_control(caps.features[i], readings, known),
{
    let features = caps.features;
    let f = features[i];
    let controls = fresh_controls(features, readings, known);
    let all = arranged(controls);
    let scan = scan_of(caps, all);
    let kind = scanned_kind(f, readings, known);
    lemma_slider_entry(scan.sliders, f.code);
    lemma_selector_entry(scan.selectors, f.code);
    if kind is Some {
        let k = lemma_fresh_has(features, readings, known, i);
        lemma_arranged_has(controls, k);
        match controls[k] {
            ControlView::Slider(s) => {
                let j = choose|j: int| 0 <= j < all.sliders.len() && all.sliders[j] == s;
                assert(scan.sliders[j].code == f.code);
            },
            ControlView::Selector(s) => {
                let j = choose|j: int| 0 <= j < all.selectors.len() && all.selectors[j] == s;
                assert(scan.selectors[j].code == f.code);
            },
            ControlView::Action(a) => {
                let j = choose|j: int| 0 <= j < all.actions.len() && all.actions[j] == a;
                assert(scan.action_codes[j] == f.code);
            },
        }
    }
    if slider_entry(scan.sliders, f.code) is Some {
        let e = slider_entry(scan.sliders, f.code)->0;
        let j = choose|j: int| 0 <= j < scan.sliders.len() && scan.sliders[j] == e;
        let k = lemma_slider_from(controls, j);
        let m = lemma_fresh_from(features, readings, known, k);
        assert(features[m].code == f.code);
        assert(kind == Some(CtrlKind::Slider));
    } else if selector_entry(scan.selectors, f.code) is Some {
        let e = selector_entry(scan.selectors, f.code)->0;
        let j = choose|j: int| 0 <= j < scan.selectors.len() && scan.selectors[j] == e;
        let k = lemma_selector_from(controls, j);
        let m = lemma_fresh_from(features, readings, known, k);
        assert(features[m].code == f.code);
        assert(kind == Some(CtrlKind::Selector));
    } else if scan.action_codes.contains(f.code) {
        let j = choose|j: int| 0 <= j < scan.action_codes.len() && scan.action_codes[j] == f.code;
        let k = lemma_action_from(controls, j);
        let m = lemma_fresh_from(features, readings, known, k);
        assert(features[m].code == f.code);
        assert(kind == Some(CtrlKind::Action));
    }
}

proof fn lemma_cached_prefix(
    caps: CapabilitiesView,
    readings: Seq<FeatureReadingView>,
    known: Set<u8>,
    n: int,
)
    requires
        same_kind_per_code(caps.features, readings, known),
        0 <= n <= caps.features.len(),
    ensures
        cached_controls(
            scan_of(caps, arranged(fresh_controls(caps.features, readings, known))),
            caps.features.take(n),
        ) == fresh_controls(caps.features.take(n), readings, known),
    decreases n,
{
    if n > 0 {
        lemma_cached_prefix(caps, readings, known, n - 1);
        lemma_cached_control(caps, readings, known, n - 1);
        assert(caps.features.take(n).drop_last() =~= caps.features.take(n - 1));
        assert(caps.features.take(n).last() == caps.features[n - 1]);
    }
}

/// A remembered scan brings back exactly the controls of the scan that it was
/// made from, in the same order and with the values it saw and whatever actions
/// it knew beforehand, as long as a code that is declared more than once became
/// the same kind of control each time.
pub proof fn law_cache_restores_controls(
    caps: CapabilitiesView,
    readings: Seq<FeatureReadingView>,
    known: Set<u8>,
)
    requires
        same_kind_per_code(caps.features, readings, known),
    ensures
        ({
            let fresh = fresh_controls(caps.features, readings, known);
            let written = stamped(scan_of(caps, arranged(fresh)));
            cached_controls(written, written.capabilities.features) == fresh
        }),
{
    let fresh = fresh_controls(caps.features, readings, known);
    let scan = scan_of(caps, arranged(fresh));
    lemma_cached_prefix(caps, readings, known, caps.features.len() as int);
    assert(caps.features.take(caps.features.len() as int) =~= caps.features);
    lemma_version_is_irrelevant(scan, caps.features);
}

proof fn lemma_version_is_irrelevant(scan: MonitorCacheView, features: Seq<VcpFeatureView>)
    ensures
        cached_controls(stamped(scan), features) == cached_controls(scan, features),
    decreases features.len(),
{
    if features.len() > 0 {
        lemma_version_is_irrelevant(scan, features.drop_last());
    }
}

/// Whether the reading at `j` is the last one of a code.
pub open spec fn last_reading(readings: Seq<FeatureReadingView>, code: u8, j: int) -> bool {
    &&& 0 <= j < readings.len() && readings[j].code == code
    &&& forall|l: int| j < l < readings.len() ==> (#[trigger] readings[l]).code != code
}

/// Whether a code was not read.
pub open spec fn was_not_read(readings: Seq<FeatureReadingView>, code: u8) -> bool {
    forall|l: int| 0 <= l < readings.len() ==> (#[trigger] readings[l]).code != code
}

proof fn lemma_last_reading(readings: Seq<FeatureReadingView>, code: u8, j: int)
    requires
        last_reading(readings, code, j),
    ensures
        reading_for(readings, code) == Some(readings[j]),
    decreases readings.len(),
{
    if j < readings.len() - 1 {
        let rest = readings.drop_last();
        assert(readings[readings.len() - 1].code != code);
        assert(last_reading(rest, code, j)) by {
            assert forall|l: int| j < l < rest.len() implies (#[trigger] rest[l]).code != code by {
                assert(readings[l].code != code);
            }
        }
        lemma_last_reading(rest, code, j);
    }
}

proof fn lemma_was_not_read(readings: Seq<FeatureReadingView>, code: u8)
    requires
        was_not_read(readings, code),
    ensures
        reading_for(readings, code) is None,
    decreases readings.len(),
{
    if readings.len() > 0 {
        let rest = readings.drop_last();
        assert(readings[readings.len() - 1].code != code);
        assert(was_not_read(rest, code)) by {
            assert forall|l: int| 0 <= l < rest.len() implies (#[trigger] rest[l]).code
                != code by {
                assert(readings[l].code != code);
            }
        }
        lemma_was_not_read(rest, code);
    }
}

/// Whether a control is a selector for a feature: with its code and name, and its
/// declared values as options, in order.
pub open spec fn selects_among(c: ControlView, f: VcpFeatureView, selected: u8) -> bool {
    &&& c matches ControlView::Selector(s)
    &&& s.code == f.code && s.name == f.name && s.selected == selected
    &&& s.options.len() == f.values.len()
    &&& forall|m: int|
        0 <= m < f.values.len() ==> (#[trigger] s.options[m]).code == f.values[m].code
            && s.options[m].name == f.values[m].name
}

/// Whether a control is a slider for a feature, that moves in steps.
pub open spec fn slides_to(c: ControlView, f: VcpFeatureView, value: u16, max: u16) -> bool {
    &&& c matches ControlView::Slider(s)
    &&& s.code == f.code && s.name == f.name && s.value == value && s.max == max
    &&& s.step == (if max > 20 {
        5u16
    } else {
        1u16
    })
}

/// What one feature more adds to the controls. What is not recognized adds none.
/// By its last reading: what cannot be read back is an action, what is continuous
/// a slider at that value, and what has named values, all of them, a selector at
/// that value, unless no value came with the reading; anything else adds none.
/// What was not read is an action where it is known as one.
pub proof fn law_one_feature_more(
    features: Seq<VcpFeatureView>,
    f: VcpFeatureView,
    readings: Seq<FeatureReadingView>,
    known: Set<u8>,
    j: int,
)
    ensures
        ({
            let before = fresh_controls(features, readings, known);
            let after = fresh_controls(features.push(f), readings, known);
            let r = readings[j];
            let named = f.values.len() > 0 && forall|m: int|
                0 <= m < f.values.len() ==> (#[trigger] f.values[m]).name.len() > 0;
            let acts = after.len() == before.len() + 1 && after.drop_last() == before
                && after.last() == ControlView::Action(ActionView { code: f.code, name: f.name });
            &&& fresh_controls(Seq::empty(), readings, known).len() == 0
            &&& !f.recognized ==> after == before
            &&& f.recognized && last_reading(readings, f.code, j) ==> {
                &&& !r.readable ==> acts
                &&& r.readable && r.continuous ==> after.len() == before.len() + 1
                    && after.drop_last() == before && slides_to(after.last(), f, r.current, r.max)
                &&& r.readable && !r.continuous && !r.generic && named ==> after.len()
                    == before.len() + 1 && after.drop_last() == before && selects_among(
                    after.last(),
                    f,
                    r.current as u8,
                )
                &&& r.readable && !r.continuous && (r.generic || !named) ==> after == before
            }
            &&& f.recognized && was_not_read(readings, f.code) ==> if known.contains(f.code) {
                acts
            } else {
                after == before
            }
        }),
{
    assert(features.push(f).drop_last() =~= features);
    if last_reading(readings, f.code, j) {
        lemma_last_reading(readings, f.code, j);
    }
    if was_not_read(readings, f.code) {
        lemma_was_not_read(readings, f.code);
    }
    let before = fresh_controls(features, readings, known);
    if let Some(c) = control_for(f, reading_for(readings, f.code), known.contains(f.code)) {
        assert(before.push(c).drop_last() =~= before);
    }
}

/// Controls come in the order of their features, and what comes before or after a
/// feature makes no difference to its control.
pub proof fn law_controls_follow_their_features(
    xs: Seq<VcpFeatureView>,
    ys: Seq<VcpFeatureView>,
    readings: Seq<FeatureReadingView>,
    known: Set<u8>,
)
    ensures
        fresh_controls(xs + ys, readings, known) == fresh_controls(xs, readings, known)
            + fresh_controls(ys, readings, known),
    decreases ys.len(),
{
    let before = fresh_controls(xs, readings, known);
    if ys.len() == 0 {
        assert(xs + ys =~= xs);
        assert(before + fresh_controls(ys, readings, known) =~= before);
    } else {
        law_controls_follow_their_features(xs, ys.drop_last(), readings, known);
        assert((xs + ys).drop_last() =~= xs + ys.drop_last());
        let rest = fresh_controls(ys.drop_last(), readings, known);
        let f = ys.last();
        if let Some(c) = control_for(f, reading_for(readings, f.code), known.contains(f.code)) {
            assert((before + rest).push(c) =~= before + rest.push(c));
        }
    }
}

/// Whether the remembered slider at `j` is the last one of a code.
pub open spec fn last_slider_entry(entries: Seq<CachedSlider>, code: u8, j: int) -> bool {
    &&& 0 <= j < entries.len() && entries[j].code == code
    &&& forall|l: int| j < l < entries.len() ==> (#[trigger] entries[l]).code != code
}

/// Whether the remembered selector at `j` is the last one of a code.
pub open spec fn last_selector_entry(entries: Seq<CachedSelector>, code: u8, j: int) -> bool {
    &&& 0 <= j < entries.len() && entries[j].code == code
    &&& forall|l: int| j < l < entries.len() ==> (#[trigger] entries[l]).code != code
}

proof fn lemma_last_slider_entry(entries: Seq<CachedSlider>, code: u8, j: int)
    requires
        last_slider_entry(entries, code, j),
    ensures
        slider_entry(entries, code) == Some(entries[j]),
    decreases entries.len(),
{
    if j < entries.len() - 1 {
        let rest = entries.drop_last();
        assert(entries[entries.len() - 1].code != code);
        assert(last_slider_entry(rest, code, j)) by {
            assert forall|l: int| j < l < rest.len() implies (#[trigger] rest[l]).code != code by {
                assert(entries[l].code != code);
            }
        }
        lemma_last_slider_entry(rest, code, j);
    }
}

proof fn lemma_last_selector_entry(entries: Seq<CachedSelector>, code: u8, j: int)
    requires
        last_selector_entry(entries, code, j),
    ensures
        selector_entry(entries, code) == Some(entries[j]),
    decreases entries.len(),
{
    if j < entries.len() - 1 {
        let rest = entries.drop_last();
        assert(entries[entries.len() - 1].code != code);
        assert(last_selector_entry(rest, code, j)) by {
            assert forall|l: int| j < l < rest.len() implies (#[trigger] rest[l]).code != code by {
                assert(entries[l].code != code);
            }
        }
        lemma_last_selector_entry(rest, code, j);
    }
}

/// What one feature more adds to remembered controls: what was remembered of it
/// last, as a slider, else as a selector, else as an action, with the value that
/// was seen then; nothing where nothing was remembered.
pub proof fn law_one_remembered_feature_more(
    cache: MonitorCacheView,
    features: Seq<VcpFeatureView>,
    f: VcpFeatureView,
    j: int,
)
    ensures
        ({
            let before = cached_controls(cache, features);
            let after = cached_controls(cache, features.push(f));
            let more = after.len() == before.len() + 1 && after.drop_last() == before;
            let no_slider = forall|l: int|
                0 <= l < cache.sliders.len() ==> (#[trigger] cache.sliders[l]).code != f.code;
            let no_selector = forall|l: int|
                0 <= l < cache.selectors.len() ==> (#[trigger] cache.selectors[l]).code != f.code;
            &&& cached_controls(cache, Seq::empty()).len() == 0
            &&& last_slider_entry(cache.sliders, f.code, j) ==> more && slides_to(
                after.last(),
                f,
                cache.sliders[j].value,
                cache.sliders[j].max,
            )
            &&& no_slider && last_selector_entry(cache.selectors, f.code, j) ==> more
                && selects_among(after.last(), f, cache.selectors[j].selected)
            &&& no_slider && no_selector && cache.action_codes.contains(f.code) ==> more
                && after.last() == ControlView::Action(ActionView { code: f.code, name: f.name })
            &&& no_slider && no_selector && !cache.action_codes.contains(f.code) ==> after == before
        }),
{
    assert(features.push(f).drop_last() =~= features);
    lemma_slider_entry(cache.sliders, f.code);
    lemma_selector_entry(cache.selectors, f.code);
    if last_slider_entry(cache.sliders, f.code, j) {
        lemma_last_slider_entry(cache.sliders, f.code, j);
    }
    if last_selector_entry(cache.selectors, f.code, j) {
        lemma_last_selector_entry(cache.selectors, f.code, j);
    }
    let before = cached_controls(cache, features);
    if let Some(c) = cached_control(cache, f) {
        assert(before.push(c).drop_last() =~= before);
    }
}

/// What is remembered of a scan: its capabilities, and of every slider its code,
/// its range and its value, of every selector its code and its selection, and of
/// every action its code, in order.
pub proof fn law_a_scan_remembers_its_controls(
    caps: CapabilitiesView,
    controls: ControlsView,
    i: int,
)
    ensures
        ({
            let scan = scan_of(caps, controls);
            &&& scan.capabilities == caps && scan.version == 0
            &&& scan.sliders.len() == controls.sliders.len()
            &&& scan.selectors.len() == controls.selectors.len()
            &&& scan.action_codes.len() == controls.actions.len()
            &&& 0 <= i < scan.sliders.len() ==> scan.sliders[i].code == controls.sliders[i].code
                && scan.sliders[i].max == controls.sliders[i].max && scan.sliders[i].value
                == controls.sliders[i].value
            &&& 0 <= i < scan.selectors.len() ==> scan.selectors[i].code
                == controls.selectors[i].code && scan.selectors[i].selected
                == controls.selectors[i].selected
            &&& 0 <= i < scan.action_codes.len() ==> scan.action_codes[i]
                == controls.actions[i].code
        }),
{
}

/// One control more goes to the end of its own kind and to the end of the order,
/// which then points at it.
pub proof fn law_one_control_more(controls: Seq<ControlView>, c: ControlView)
    requires
        controls.len() < usize::MAX,
    ensures
        ({
            let before = arranged(controls);
            let after = arranged(controls.push(c));
            let r = after.order.last();
            &&& after.order.len() == before.order.len() + 1 && after.order.drop_last()
                == before.order
            &&& c matches ControlView::Slider(s) ==> after.sliders == before.sliders.push(s)
                && after.selectors == before.selectors && after.actions == before.actions && r.kind
                == CtrlKind::Slider && r.idx == before.sliders.len()
            &&& c matches ControlView::Selector(s) ==> after.selectors == before.selectors.push(s)
                && after.sliders == before.sliders && after.actions == before.actions && r.kind
                == CtrlKind::Selector && r.idx == before.selectors.len()
            &&& c matches ControlView::Action(x) ==> after.actions == before.actions.push(x)
                && after.sliders == before.sliders && after.selectors == before.selectors && r.kind
                == CtrlKind::Action && r.idx == before.actions.len()
            &&& arranged(Seq::empty()).order.len() == 0 && arranged(Seq::empty()).sliders.len() == 0
            &&& arranged(Seq::empty()).selectors.len() == 0 && arranged(
                Seq::empty(),
            ).actions.len() == 0
        }),
{
    assert(controls.push(c).drop_last() =~= controls);
    lemma_arranged_sizes(controls);
    assert(arranged(controls.push(c)).order.drop_last() =~= arranged(controls).order);
}

} // verus!
