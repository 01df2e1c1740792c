//! Message handling.

use std::collections::{HashMap, HashSet};

use vstd::prelude::*;

use crate::app::{
    cmd_view, is_selector, is_slider, readings_by_code, selector_at, slider_at, value_codes, App,
    Screen,
};
use crate::backend::BackendError;
use crate::commands::{Cmd, Msg, ProbeOk};
use crate::components::{Selector, Slider};
use crate::input::TableState;
use crate::vcp::{Display, FeatureReading};

verus! {

proof fn lemma_slider_at(sliders: Seq<Slider>, code: u8, i: int)
    requires
        is_slider(sliders, code, i),
    ensures
        slider_at(sliders, code) == Some(i),
{
    let k = choose|k: int| is_slider(sliders, code, k);
    assert(is_slider(sliders, code, k));
    assert(sliders[i].code == code && sliders[k].code == code);
}

proof fn lemma_selector_at(selectors: Seq<Selector>, code: u8, i: int)
    requires
        is_selector(selectors, code, i),
    ensures
        selector_at(selectors, code) == Some(i),
{
    let k = choose|k: int| is_selector(selectors, code, k);
    assert(is_selector(selectors, code, k));
    assert(selectors[i].code == code && selectors[k].code == code);
}

fn find_slider(sliders: &Vec<Slider>, code: u8) -> (r: Option<usize>)
    ensures
        r is Some ==> r->0 < sliders@.len() && slider_at(sliders@, code) == Some(r->0 as int),
        r is None ==> slider_at(sliders@, code) is None,
{
    for i in 0..sliders.len()
        invariant
            forall|j: int| 0 <= j < i ==> (#[trigger] sliders@[j]).code != code,
    {
        if sliders[i].code == code {
            proof {
                lemma_slider_at(sliders@, code, i as int);
            }
            return Some(i);
        }
    }
    None
}

fn find_selector(selectors: &Vec<Selector>, code: u8) -> (r: Option<usize>)
    ensures
        r is Some ==> r->0 < selectors@.len() && selector_at(selectors@, code) == Some(
            r->0 as int,
        ),
        r is None ==> selector_at(selectors@, code) is None,
{
    for i in 0..selectors.len()
        invariant
            forall|j: int| 0 <= j < i ==> (#[trigger] selectors@[j]).code != code,
    {
        if selectors[i].code == code {
            proof {
                lemma_selector_at(selectors@, code, i as int);
            }
            return Some(i);
        }
    }
    None
}

fn codes_with_values(sliders: &Vec<Slider>, selectors: &Vec<Selector>) -> (r: HashSet<u8>)
    ensures
        r@ == value_codes(sliders@, selectors@),
{
    let mut codes: HashSet<u8> = HashSet::new();
    for i in 0..sliders.len()
        invariant
            forall|c: u8| #[trigger]
                codes@.contains(c) <==> exists|j: int|
                    0 <= j < i && (#[trigger] sliders@[j]).code == c,
    {
        let ghost before = codes@;
        codes.insert(sliders[i].code);
        assert forall|c: u8| #[trigger] codes@.contains(c) <==> exists|j: int|
            0 <= j < i + 1 && (#[trigger] sliders@[j]).code == c by {
            if c == sliders@[i as int].code {
                assert(sliders@[i as int].code == c);
            } else {
                assert(codes@.contains(c) == before.contains(c));
            }
        }
    }
    for i in 0..selectors.len()
        invariant
            forall|c: u8| #[trigger]
                codes@.contains(c) <==> (exists|j: int|
                    0 <= j < sliders@.len() && (#[trigger] sliders@[j]).code == c) || (exists|
                    j: int,
                |
                    0 <= j < i && (#[trigger] selectors@[j]).code == c),
    {
        let ghost before = codes@;
        codes.insert(selectors[i].code);
        assert forall|c: u8| #[trigger] codes@.contains(c) <==> (exists|j: int|
            0 <= j < sliders@.len() && (#[trigger] sliders@[j]).code == c) || (exists|j: int|
            0 <= j < i + 1 && (#[trigger] selectors@[j]).code == c) by {
            if c == selectors@[i as int].code {
                assert(selectors@[i as int].code == c);
            } else {
                assert(codes@.contains(c) == before.contains(c));
            }
        }
    }
    assert(codes@ =~= value_codes(sliders@, selectors@));
    codes
}

fn by_code(readings: Vec<FeatureReading>) -> (r: HashMap<u8, FeatureReading>)
    ensures
        r@ == readings_by_code(readings@),
{
    let mut map: HashMap<u8, FeatureReading> = HashMap::new();
    let ghost all = readings@;
    assert(all.take(0) =~= Seq::empty());
    for x in it: readings.into_iter()
        invariant
            it.seq() == all,
            map@ == readings_by_code(all.take(it.index())),
    {
        proof {
            let n = it.index();
            assert(all.take(n + 1).drop_last() =~= all.take(n));
            assert(all.take(n + 1).last() == all[n]);
        }
        map.insert(x.code, x);
    }
    assert(all.take(all.len() as int) =~= all);
    map
}

impl App {
    /// What a message does.
    pub fn handle_msg(&mut self, msg: Msg) -> (r: Option<Cmd>)
        ensures
            final(self)@ == old(self)@.on_msg(msg).0,
            cmd_view(r) == old(self)@.on_msg(msg).1,
    {
        match msg {
            Msg::Detect(result) => self.on_detect(result),
            Msg::Probe(result) => {
                self.on_probe(result);
                None
            },
            Msg::CachedControls(ok) => {
                let pending = codes_with_values(&ok.sliders, &ok.selectors);
                self.show_controls(ok, pending);
                None
            },
            Msg::LiveValue { code, result } => {
                self.on_live_value(code, result);
                None
            },
            Msg::SetValue { code, value, result } => {
                self.on_set(code, value, result);
                None
            },
            Msg::ActionDone { result } => {
                match result {
                    Ok(_) => {
                        self.op_err = None;
                    },
                    Err(e) => {
                        self.show_op_err(&e);
                    },
                }
                None
            },
            Msg::RawProbe(result) => {
                self.on_raw_probe(result);
                None
            },
            Msg::RawSingleProbe { code, result } => {
                // Best-effort refresh of one row after a write: where the
                // re-read fails, the row keeps showing its last known value.
                if let Ok(r) = result {
                    self.raw_readings.insert(code, r);
                }
                None
            },
            Msg::RawSet { code, result } => self.on_raw_set(code, result),
        }
    }

    fn on_detect(&mut self, result: Result<Vec<Display>, BackendError>) -> (r: Option<Cmd>)
        ensures
            final(self)@ == old(self)@.on_detect(result).0,
            cmd_view(r) == old(self)@.on_detect(result).1,
    {
        match result {
            Err(e) => {
                self.loading = false;
                self.err = Some(e.message());
                self.trigger_error_fx();
                None
            },
            Ok(displays) => self.show_displays(displays),
        }
    }

    fn show_displays(&mut self, displays: Vec<Display>) -> (r: Option<Cmd>)
        ensures
            final(self)@ == old(self)@.with_displays(displays@).0,
            cmd_view(r) == old(self)@.with_displays(displays@).1,
    {
        self.loading = false;
        self.displays = displays;
        self.err = None;
        if self.displays.len() == 0 {
            return None;
        }
        if !self.display_chosen && self.displays.len() > 1 {
            // More than one display and nothing chosen yet: ask instead of
            // silently guessing which one is wanted.
            self.screen = Screen::Picker;
            self.picker_cursor = 0;
            return None;
        }
        self.probe_selected()
    }

    fn probe_selected(&mut self) -> (r: Option<Cmd>)
        requires
            old(self)@.displays.len() > 0,
        ensures
            final(self)@ == old(self)@.probing_selected().0,
            cmd_view(r) == old(self)@.probing_selected().1,
    {
        if self.selected >= self.displays.len() {
            self.selected = 0;
        }
        self.display_chosen = true;
        self.probing = true;
        Some(Cmd::Probe(self.displays[self.selected].clone()))
    }

    fn show_controls(&mut self, ok: ProbeOk, pending: HashSet<u8>)
        ensures
            final(self)@ == old(self)@.with_controls(ok, pending@),
    {
        self.probing = false;
        self.caps = Some(ok.caps);
        self.probe_err = None;
        self.sliders = ok.sliders;
        self.selectors = ok.selectors;
        self.actions = ok.actions;
        self.order = ok.order;
        self.cursor = 0;
        self.pending = pending;
        self.trigger_entrance_fx();
    }

    fn on_probe(&mut self, result: Result<ProbeOk, BackendError>)
        ensures
            final(self)@ == old(self)@.on_probe(result),
    {
        match result {
            Ok(ok) => {
                // A fresh scan's values are already live.
                self.show_controls(ok, HashSet::new());
            },
            Err(e) => {
                self.probing = false;
                self.probe_err = Some(e.message());
                self.trigger_error_fx();
            },
        }
    }

    fn on_live_value(&mut self, code: u8, result: Result<FeatureReading, BackendError>)
        ensures
            final(self)@ == old(self)@.on_live_value(code, result),
    {
        self.pending.remove(&code);
        // On error, the cached value just keeps showing rather than blanking
        // the control.
        if let Ok(r) = result {
            if r.readable {
                self.show_reading(code, &r);
            }
        }
    }

    fn show_reading(&mut self, code: u8, r: &FeatureReading)
        ensures
            final(self)@ == old(self)@.with_reading(code, *r),
    {
        if let Some(i) = find_slider(&self.sliders, code) {
            if r.continuous {
                self.sliders[i].value = r.current;
                self.sliders[i].max = r.max;
                assert(self.sliders@ =~= old(self).sliders@.update(
                    i as int,
                    Slider { value: r.current, max: r.max, ..old(self).sliders@[i as int] },
                ));
            }
            return;
        }
        if r.generic {
            return;
        }
        if let Some(i) = find_selector(&self.selectors, code) {
            self.selectors[i].selected = r.current as u8;
        }
    }

    fn on_set(&mut self, code: u8, value: u16, result: Result<(), BackendError>)
        ensures
            final(self)@ == old(self)@.on_set(code, value, result),
    {
        match result {
            Err(e) => {
                self.show_op_err(&e);
            },
            Ok(_) => {
                self.op_err = None;
                self.show_value(code, value);
            },
        }
    }

    fn show_op_err(&mut self, e: &BackendError)
        ensures
            final(self)@ == old(self)@.with_op_err(*e),
    {
        self.op_err = Some(e.message());
        self.trigger_error_fx();
    }

    fn show_value(&mut self, code: u8, value: u16)
        ensures
            final(self)@ == old(self)@.with_value(code, value),
    {
        if let Some(i) = find_slider(&self.sliders, code) {
            self.sliders[i].value = value;
            return;
        }
        if let Some(i) = find_selector(&self.selectors, code) {
            self.selectors[i].selected = value as u8;
        }
    }

    fn on_raw_probe(&mut self, result: Result<Vec<FeatureReading>, BackendError>)
        ensures
            final(self)@ == old(self)@.on_raw_probe(result),
    {
        self.raw_loading = false;
        match result {
            Ok(readings) => {
                self.raw_err = None;
                self.raw_ready = true;
                self.raw_readings = by_code(readings);
                self.raw_cursor = 0;
                self.raw_table_state = TableState::default();
            },
            Err(e) => {
                self.raw_err = Some(e.message());
                self.trigger_error_fx();
            },
        }
    }

    fn on_raw_set(&mut self, code: u8, result: Result<(), BackendError>) -> (r: Option<Cmd>)
        ensures
            final(self)@ == old(self)@.on_raw_set(code, result).0,
            cmd_view(r) == old(self)@.on_raw_set(code, result).1,
    {
        self.raw_writing = false;
        match result {
            Ok(_) => {
                self.raw_write_err = None;
                let display_num: i32 = self.display_num();
                Some(Cmd::RawSingleProbe { display_num, code })
            },
            Err(e) => {
                self.raw_write_err = Some(e.message());
                self.trigger_error_fx();
                None
            },
        }
    }
}

} // verus!
