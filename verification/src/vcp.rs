//! Backend-agnostic DDC/CI data model.
//!
//! Nothing in this module knows about `ddcutil`, subprocesses, or any
//! particular OS. It is the shared vocabulary that every backend speaks.

use vstd::prelude::*;

use crate::text::deep;

verus! {

/// One monitor found by a backend's discovery step.
#[derive(Debug, PartialEq, Eq)]
pub struct Display {
    /// Backend-assigned index used to address this display in later calls
    /// (ddcutil's "Display N", or a position for a native backend).
    pub number: i32,
    /// Human-readable bus identifier, e.g. `/dev/i2c-2` on Linux. Purely
    /// informational: never parsed back.
    pub bus: String,
    /// DRM/OS connector name, e.g. `card1-HDMI-A-1`. May be empty.
    pub connector: String,
    pub mfg_id: String,
    pub model: String,
    pub vcp_version: String,
}

pub struct DisplayView {
    pub number: i32,
    pub bus: Seq<char>,
    pub connector: Seq<char>,
    pub mfg_id: Seq<char>,
    pub model: Seq<char>,
    pub vcp_version: Seq<char>,
}

/// A display of which only the number is known.
pub open spec fn bare_display(number: i32) -> DisplayView {
    DisplayView {
        number,
        bus: Seq::empty(),
        connector: Seq::empty(),
        mfg_id: Seq::empty(),
        model: Seq::empty(),
        vcp_version: Seq::empty(),
    }
}

impl DeepView for Display {
    type V = DisplayView;

    open spec fn deep_view(&self) -> DisplayView {
        DisplayView {
            number: self.number,
            bus: self.bus@,
            connector: self.connector@,
            mfg_id: self.mfg_id@,
            model: self.model@,
            vcp_version: self.vcp_version@,
        }
    }
}

impl Clone for Display {
    fn clone(&self) -> (r: Self)
        ensures
            r == *self,
    {
        Display {
            number: self.number,
            bus: self.bus.clone(),
            connector: self.connector.clone(),
            mfg_id: self.mfg_id.clone(),
            model: self.model.clone(),
            vcp_version: self.vcp_version.clone(),
        }
    }
}

impl Default for Display {
    fn default() -> (r: Self)
        ensures
            r.deep_view() == bare_display(0),
    {
        Display {
            number: 0,
            bus: String::new(),
            connector: String::new(),
            mfg_id: String::new(),
            model: String::new(),
            vcp_version: String::new(),
        }
    }
}

/// One enum value a feature can take, as declared by the monitor's
/// capabilities. `name` is empty when the monitor reports the code exists
/// but there is no known interpretation for it.
#[derive(Debug, PartialEq, Eq)]
pub struct VcpValue {
    pub code: u8,
    pub name: String,
}

pub struct VcpValueView {
    pub code: u8,
    pub name: Seq<char>,
}

impl DeepView for VcpValue {
    type V = VcpValueView;

    open spec fn deep_view(&self) -> VcpValueView {
        VcpValueView { code: self.code, name: self.name@ }
    }
}

impl Clone for VcpValue {
    fn clone(&self) -> (r: Self)
        ensures
            r == *self,
    {
        VcpValue { code: self.code, name: self.name.clone() }
    }
}

/// Describes one VCP feature code exposed by the monitor.
///
/// `recognized`/`manufacturer_specific` reflect whether the backend could
/// identify the code itself, not whether its use is known: an unrecognized or
/// manufacturer-specific feature is still tracked and still controllable from
/// the Raw VCP screen, it just has no friendly name or meaning yet.
#[derive(Debug)]
pub struct VcpFeature {
    pub code: u8,
    pub name: String,
    pub recognized: bool,
    pub manufacturer_specific: bool,
    pub values: Vec<VcpValue>,
}

pub struct VcpFeatureView {
    pub code: u8,
    pub name: Seq<char>,
    pub recognized: bool,
    pub manufacturer_specific: bool,
    pub values: Seq<VcpValueView>,
}

impl DeepView for VcpFeature {
    type V = VcpFeatureView;

    open spec fn deep_view(&self) -> VcpFeatureView {
        VcpFeatureView {
            code: self.code,
            name: self.name@,
            recognized: self.recognized,
            manufacturer_specific: self.manufacturer_specific,
            values: deep(self.values@),
        }
    }
}

impl Clone for VcpFeature {
    fn clone(&self) -> (r: Self)
        ensures
            r.deep_view() == self.deep_view(),
    {
        let mut values: Vec<VcpValue> = Vec::new();
        for i in 0..self.values.len()
            invariant
                values@ == self.values@.take(i as int),
        {
            values.push(self.values[i].clone());
            assert(values@ =~= self.values@.take(i + 1));
        }
        assert(values@ =~= self.values@);
        VcpFeature {
            code: self.code,
            name: self.name.clone(),
            recognized: self.recognized,
            manufacturer_specific: self.manufacturer_specific,
            values,
        }
    }
}

impl Default for VcpFeature {
    fn default() -> (r: Self)
        ensures
            r.deep_view() == (VcpFeatureView {
                code: 0,
                name: Seq::empty(),
                recognized: false,
                manufacturer_specific: false,
                values: Seq::empty(),
            }),
    {
        let r = VcpFeature {
            code: 0,
            name: String::new(),
            recognized: false,
            manufacturer_specific: false,
            values: Vec::new(),
        };
        assert(deep(r.values@) =~= Seq::empty());
        r
    }
}

impl VcpFeature {
    /// Whether the monitor declared a fixed set of values for this feature
    /// (i.e. it is an enum, not a continuous 0..max control).
    pub fn has_values(&self) -> (r: bool)
        ensures
            r == (self.values@.len() > 0),
    {
        self.values.len() > 0
    }

    /// The name of the first declared value with this code.
    pub fn value_name(&self, code: u8) -> (r: Option<&str>)
        ensures
            r is None <==> forall|i: int|
                0 <= i < self.values@.len() ==> (#[trigger] self.values@[i]).code != code,
            r is Some ==> exists|i: int|
                0 <= i < self.values@.len() && (#[trigger] self.values@[i]).code == code
                    && r->0@ == self.values@[i].name@ && forall|j: int|
                    0 <= j < i ==> (#[trigger] self.values@[j]).code != code,
    {
        for i in 0..self.values.len()
            invariant
                forall|j: int| 0 <= j < i ==> (#[trigger] self.values@[j]).code != code,
        {
            if self.values[i].code == code {
                return Some(self.values[i].name.as_str());
            }
        }
        None
    }

    /// Whether every declared value has a name. Only then does this feature
    /// become a friendly selector; a partially named enum stays on the Raw VCP
    /// screen.
    pub fn all_values_named(&self) -> (r: bool)
        ensures
            r == all_named(deep(self.values@)),
    {
        for i in 0..self.values.len()
            invariant
                forall|j: int| 0 <= j < i ==> (#[trigger] self.values@[j]).name@.len() > 0,
        {
            if self.values[i].name.as_str().is_empty() {
                assert(deep(self.values@)[i as int].name.len() == 0);
                return false;
            }
        }
        true
    }
}

/// Whether every value of a list has a name.
pub open spec fn all_named(values: Seq<VcpValueView>) -> bool {
    forall|i: int| 0 <= i < values.len() ==> (#[trigger] values[i]).name.len() > 0
}

/// The parsed result of a capabilities query.
#[derive(Debug)]
pub struct Capabilities {
    pub model: String,
    pub mccs_version: String,
    pub features: Vec<VcpFeature>,
}

pub struct CapabilitiesView {
    pub model: Seq<char>,
    pub mccs_version: Seq<char>,
    pub features: Seq<VcpFeatureView>,
}

impl DeepView for Capabilities {
    type V = CapabilitiesView;

    open spec fn deep_view(&self) -> CapabilitiesView {
        CapabilitiesView {
            model: self.model@,
            mccs_version: self.mccs_version@,
            features: deep(self.features@),
        }
    }
}

impl Clone for Capabilities {
    fn clone(&self) -> (r: Self)
        ensures
            r.deep_view() == self.deep_view(),
    {
        let mut features: Vec<VcpFeature> = Vec::new();
        for i in 0..self.features.len()
            invariant
                features@.len() == i,
                forall|j: int|
                    0 <= j < i ==> (#[trigger] features@[j]).deep_view()
                        == self.features@[j].deep_view(),
        {
            features.push(self.features[i].clone());
        }
        assert(deep(features@) =~= deep(self.features@));
        Capabilities {
            model: self.model.clone(),
            mccs_version: self.mccs_version.clone(),
            features,
        }
    }
}

/// Capabilities that declare nothing.
pub open spec fn no_capabilities() -> CapabilitiesView {
    CapabilitiesView { model: Seq::empty(), mccs_version: Seq::empty(), features: Seq::empty() }
}

impl Default for Capabilities {
    fn default() -> (r: Self)
        ensures
            r.deep_view() == no_capabilities(),
    {
        let r = Capabilities {
            model: String::new(),
            mccs_version: String::new(),
            features: Vec::new(),
        };
        assert(deep(r.features@) =~= Seq::empty());
        r
    }
}

impl Capabilities {
    /// The first declared feature with this code.
    pub fn feature(&self, code: u8) -> (r: Option<&VcpFeature>)
        ensures
            r is None <==> forall|i: int|
                0 <= i < self.features@.len() ==> (#[trigger] self.features@[i]).code != code,
            r is Some ==> exists|i: int|
                0 <= i < self.features@.len() && (#[trigger] self.features@[i]).code == code
                    && *r->0 == self.features@[i] && forall|j: int|
                    0 <= j < i ==> (#[trigger] self.features@[j]).code != code,
    {
        for i in 0..self.features.len()
            invariant
                forall|j: int| 0 <= j < i ==> (#[trigger] self.features@[j]).code != code,
        {
            if self.features[i].code == code {
                return Some(&self.features[i]);
            }
        }
        None
    }
}

/// The four raw VCP reply bytes reported for a code with no known
/// interpretation (unrecognized or manufacturer-specific).
#[derive(Debug, Clone, Copy, PartialEq, Eq, Structural)]
pub struct RawBytes {
    pub mh: u8,
    pub ml: u8,
    pub sh: u8,
    pub sl: u8,
}

impl Default for RawBytes {
    fn default() -> (r: Self)
        ensures
            r == (RawBytes { mh: 0, ml: 0, sh: 0, sl: 0 }),
    {
        RawBytes { mh: 0, ml: 0, sh: 0, sl: 0 }
    }
}

/// The result of reading one VCP feature's live value.
#[derive(Debug)]
pub struct FeatureReading {
    pub code: u8,
    /// The backend's own name for the code, as reported by the live read.
    /// Screens show the name declared in `Capabilities`; this one is kept
    /// because nothing a monitor reports gets silently dropped.
    pub name: String,
    /// false for write-only/action features ("is not readable").
    pub readable: bool,
    pub continuous: bool,
    pub current: u16,
    /// Only meaningful when `continuous`.
    pub max: u16,
    /// Parsed label for a known non-continuous value, e.g. "6500 K".
    pub label: String,
    /// Set only for the raw mh/ml/sh/sl form (unknown codes).
    pub raw: Option<RawBytes>,
    /// Marks a reading that came from a catch-all fallback format
    /// (frequencies, VCP version, firmware level, ...) rather than a shape
    /// with an actual value code attached. `current` is always its default
    /// here, so callers must not present it as a real value.
    pub generic: bool,
}

pub struct FeatureReadingView {
    pub code: u8,
    pub name: Seq<char>,
    pub readable: bool,
    pub continuous: bool,
    pub current: u16,
    pub max: u16,
    pub label: Seq<char>,
    pub raw: Option<RawBytes>,
    pub generic: bool,
}

/// A reading that says nothing but its code and name.
pub open spec fn blank_reading(code: u8, name: Seq<char>) -> FeatureReadingView {
    FeatureReadingView {
        code,
        name,
        readable: false,
        continuous: false,
        current: 0,
        max: 0,
        label: Seq::empty(),
        raw: None,
        generic: false,
    }
}

impl DeepView for FeatureReading {
    type V = FeatureReadingView;

    open spec fn deep_view(&self) -> FeatureReadingView {
        FeatureReadingView {
            code: self.code,
            name: self.name@,
            readable: self.readable,
            continuous: self.continuous,
            current: self.current,
            max: self.max,
            label: self.label@,
            raw: self.raw,
            generic: self.generic,
        }
    }
}

impl Clone for FeatureReading {
    fn clone(&self) -> (r: Self)
        ensures
            r == *self,
    {
        FeatureReading {
            code: self.code,
            name: self.name.clone(),
            readable: self.readable,
            continuous: self.continuous,
            current: self.current,
            max: self.max,
            label: self.label.clone(),
            raw: self.raw,
            generic: self.generic,
        }
    }
}

impl Default for FeatureReading {
    fn default() -> (r: Self)
        ensures
            r.deep_view() == blank_reading(0, Seq::empty()),
    {
        FeatureReading {
            code: 0,
            name: String::new(),
            readable: false,
            continuous: false,
            current: 0,
            max: 0,
            label: String::new(),
            raw: None,
            generic: false,
        }
    }
}

} // verus!
