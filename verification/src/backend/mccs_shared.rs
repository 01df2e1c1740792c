//! Capability-database logic shared by every native backend: resolves what a
//! monitor's capability string and the feature database say into names, types
//! and [`Capabilities`], independent of how those bytes were read off the wire.

use vstd::prelude::*;

use crate::backend::mccs_data::{
    database_entries, lookup, Access, Descriptor, DescriptorView, RawCapabilities,
    RawCapabilitiesView, RawFeature, RawFeatureView, ValueName, ValueNameView, ValueType,
    ValueTypeView, Version,
};
use crate::numbers::{decimal, push_digits};
use crate::text::{deep, group_deep, owned};
use crate::vcp::{
    Capabilities, CapabilitiesView, VcpFeature, VcpFeatureView, VcpValue, VcpValueView,
};

verus! {

// ---- well-known features -------------------------------------------------------

/// The name of a feature that every DDC/CI monitor control leans on and that
/// the feature database does not list. Only unambiguous codes have one.
pub open spec fn known_name(code: u8) -> Option<Seq<char>> {
    if code == 0x10 {
        Some("Brightness"@)
    } else if code == 0x12 {
        Some("Contrast"@)
    } else if code == 0x14 {
        Some("Select Color Preset"@)
    } else if code == 0x16 {
        Some("Video Gain (Red)"@)
    } else if code == 0x18 {
        Some("Video Gain (Green)"@)
    } else if code == 0x1a {
        Some("Video Gain (Blue)"@)
    } else if code == 0x60 {
        Some("Input Source"@)
    } else if code == 0x62 {
        Some("Audio Speaker Volume"@)
    } else if code == 0x8d {
        Some("Audio Mute"@)
    } else if code == 0xd6 {
        Some("Power Mode"@)
    } else {
        None
    }
}

/// Whether a well-known feature is continuous.
pub open spec fn known_continuous(code: u8) -> bool {
    code == 0x10 || code == 0x12 || code == 0x16 || code == 0x18 || code == 0x1a || code == 0x62
}

/// The values to fall back on for a feature whose values no monitor disagrees
/// about; none where they are too specific to a monitor to guess.
pub open spec fn known_values(code: u8) -> Seq<VcpValueView> {
    if code == 0x8d {
        seq![
            VcpValueView { code: 0x01, name: "Mute"@ },
            VcpValueView { code: 0x02, name: "Unmute"@ },
        ]
    } else {
        Seq::empty()
    }
}

/// The name of a well-known feature.
pub fn well_known_name(code: u8) -> (r: Option<String>)
    ensures
        r.deep_view() == known_name(code),
{
    let name = match code {
        0x10 => "Brightness",
        0x12 => "Contrast",
        0x14 => "Select Color Preset",
        0x16 => "Video Gain (Red)",
        0x18 => "Video Gain (Green)",
        0x1a => "Video Gain (Blue)",
        0x60 => "Input Source",
        0x62 => "Audio Speaker Volume",
        0x8d => "Audio Mute",
        0xd6 => "Power Mode",
        _ => {
            return None;
        },
    };
    Some(owned(name))
}

/// Whether a well-known feature is continuous.
pub fn well_known_continuous(code: u8) -> (r: bool)
    ensures
        r == known_continuous(code),
{
    match code {
        0x10 | 0x12 | 0x16 | 0x18 | 0x1a | 0x62 => true,
        _ => false,
    }
}

/// The values to fall back on for `code`. They give a selector something to
/// cycle through where the monitor names the code but declares no values.
pub fn well_known_values(code: u8) -> (r: Vec<VcpValue>)
    ensures
        deep(r@) == known_values(code),
{
    broadcast use group_deep;

    let mut values: Vec<VcpValue> = Vec::new();
    if code == 0x8d {
        values.push(VcpValue { code: 0x01, name: owned("Mute") });
        values.push(VcpValue { code: 0x02, name: owned("Unmute") });
    }
    assert(deep(values@) =~= known_values(code));
    values
}

/// Values with their names, as the values of a non-continuous feature.
pub open spec fn as_value_names(values: Seq<VcpValueView>) -> Seq<ValueNameView> {
    values.map_values(|v: VcpValueView| ValueNameView { code: v.code, name: Some(v.name) })
}

/// The type of a well-known feature.
pub open spec fn known_type(code: u8) -> ValueTypeView {
    if known_continuous(code) {
        ValueTypeView::Continuous
    } else {
        ValueTypeView::NonContinuous(as_value_names(known_values(code)))
    }
}

/// What is known of a well-known feature.
pub open spec fn known_descriptor(code: u8) -> Option<DescriptorView> {
    match known_name(code) {
        Some(name) => Some(
            DescriptorView {
                name: Some(name),
                code,
                ty: known_type(code),
                access: Access::ReadWrite,
            },
        ),
        None => None,
    }
}

fn well_known_type(code: u8) -> (r: ValueType)
    ensures
        r.deep_view() == known_type(code),
{
    broadcast use group_deep;

    if well_known_continuous(code) {
        return ValueType::Continuous;
    }
    let values = well_known_values(code);
    let mut names: Vec<ValueName> = Vec::new();
    let ghost want = as_value_names(known_values(code));
    for i in 0..values.len()
        invariant
            deep(values@) == known_values(code),
            want == as_value_names(known_values(code)),
            deep(names@) == want.take(i as int),
    {
        let v = ValueName { code: values[i].code, name: Some(values[i].name.clone()) };
        assert(deep(values@)[i as int] == values@[i as int].deep_view());
        assert(v.deep_view() == want[i as int]);
        names.push(v);
        assert(want.take(i + 1) =~= want.take(i as int).push(want[i as int]));
    }
    assert(want.take(want.len() as int) =~= want);
    ValueType::NonContinuous(names)
}

fn well_known(code: u8) -> (r: Option<Descriptor>)
    ensures
        r.deep_view() == known_descriptor(code),
{
    match well_known_name(code) {
        Some(name) => Some(
            Descriptor {
                name: Some(name),
                code,
                ty: well_known_type(code),
                access: Access::ReadWrite,
            },
        ),
        None => None,
    }
}

// ---- resolving -----------------------------------------------------------------

/// What is known of a code, given what the database holds. A listed feature
/// with a name is the most authoritative source there is. One without a name
/// was only inferred from the monitor's capability string, which carries no
/// names and leaves the type to a guess; so the well-known name and type win
/// over it.
pub open spec fn resolved(entries: Map<u8, DescriptorView>, code: u8) -> Option<DescriptorView> {
    if !entries.dom().contains(code) {
        known_descriptor(code)
    } else if entries[code].name is Some || known_name(code) is None {
        Some(entries[code])
    } else {
        Some(DescriptorView { name: known_name(code), ty: known_type(code), ..entries[code] })
    }
}

/// The descriptor for `code`, preferring the feature database and falling back
/// to the well-known features for the codes it is missing.
pub fn resolve(db: &mccs_db::Database, code: u8) -> (r: Option<Descriptor>)
    ensures
        r.deep_view() == resolved(database_entries(*db), code),
{
    match lookup(db, code) {
        Some(d) => {
            if d.name.is_some() {
                return Some(d);
            }
            let mut d = d;
            if let Some(wk) = well_known(code) {
                d.name = wk.name;
                d.ty = wk.ty;
            }
            Some(d)
        },
        None => well_known(code),
    }
}

/// The name of a code, where it has one.
pub open spec fn described(entries: Map<u8, DescriptorView>, code: u8) -> Option<Seq<char>> {
    if entries.dom().contains(code) && entries[code].name is Some {
        entries[code].name
    } else {
        known_name(code)
    }
}

/// `(name, recognized)` for a feature code: `recognized` means that the code's
/// meaning is known, not just that the monitor's capability string mentions it.
pub fn describe(db: &mccs_db::Database, code: u8) -> (r: (Option<String>, bool))
    ensures
        r.0.deep_view() == described(database_entries(*db), code),
        r.1 == described(database_entries(*db), code) is Some,
{
    match resolve(db, code) {
        Some(d) => {
            let known = d.name.is_some();
            (d.name, known)
        },
        None => (None, false),
    }
}

/// Whether a feature is write-only: it has no value to read back.
pub fn is_write_only(descriptor: &Descriptor) -> (r: bool)
    ensures
        r == (descriptor.access == Access::WriteOnly),
{
    match descriptor.access {
        Access::WriteOnly => true,
        _ => false,
    }
}

// ---- capabilities --------------------------------------------------------------

/// A version, as it is shown.
pub open spec fn version_text(v: Version) -> Seq<char> {
    decimal(v.major as nat) + "."@ + decimal(v.minor as nat)
}

/// A version, as it is shown.
pub fn show_version(v: Version) -> (r: String)
    ensures
        r@ == version_text(v),
{
    let mut s = String::new();
    push_digits(&mut s, v.major as u64, 10, false, 0, ' ');
    assert(s@ =~= decimal(v.major as nat));
    s.append(".");
    push_digits(&mut s, v.minor as u64, 10, false, 0, ' ');
    assert(s@ =~= version_text(v));
    s
}

/// Text that may be missing; empty where it is.
pub open spec fn or_empty(s: Option<Seq<char>>) -> Seq<char> {
    match s {
        Some(s) => s,
        None => Seq::empty(),
    }
}

/// The codes that are set aside for manufacturers.
pub open spec fn is_manufacturer_code(code: u8) -> bool {
    code >= 0xe0
}

/// The values that a capability string declares for a feature.
pub open spec fn declared_values(f: RawFeatureView) -> Seq<VcpValueView> {
    f.values.map_values(|v: ValueNameView| VcpValueView { code: v.code, name: or_empty(v.name) })
}

/// A declared feature with its name, whether that name is known, and the given
/// values.
pub open spec fn feature_with(
    f: RawFeatureView,
    entries: Map<u8, DescriptorView>,
    values: Seq<VcpValueView>,
) -> VcpFeatureView {
    let name = described(entries, f.code);
    VcpFeatureView {
        code: f.code,
        name: if name is Some {
            name->0
        } else if is_manufacturer_code(f.code) {
            "Manufacturer specific feature"@
        } else {
            "Unrecognized feature"@
        },
        recognized: name is Some,
        manufacturer_specific: name is None && is_manufacturer_code(f.code),
        values,
    }
}

/// A declared feature. The monitor's own values win where it declares any; the
/// well-known ones are a fallback, where there is one.
pub open spec fn feature_of(
    f: RawFeatureView,
    entries: Map<u8, DescriptorView>,
    fallback: bool,
) -> VcpFeatureView {
    feature_with(
        f,
        entries,
        if f.values.len() == 0 && fallback {
            known_values(f.code)
        } else {
            declared_values(f)
        },
    )
}

/// What a monitor declares, with every feature named.
pub open spec fn capabilities_from(
    raw: RawCapabilitiesView,
    entries: Map<u8, DescriptorView>,
    fallback: bool,
) -> CapabilitiesView {
    CapabilitiesView {
        model: or_empty(raw.model),
        mccs_version: match raw.mccs_version {
            Some(v) => version_text(v),
            None => Seq::empty(),
        },
        features: raw.features.map_values(|f: RawFeatureView| feature_of(f, entries, fallback)),
    }
}

fn text_or_empty(s: &Option<String>) -> (r: String)
    ensures
        r@ == or_empty(s.deep_view()),
{
    match s {
        Some(s) => s.clone(),
        None => String::new(),
    }
}

fn values_declared(f: &RawFeature) -> (r: Vec<VcpValue>)
    ensures
        deep(r@) == declared_values(f.deep_view()),
{
    broadcast use group_deep;

    let mut values: Vec<VcpValue> = Vec::new();
    let ghost want = declared_values(f.deep_view());
    for i in 0..f.values.len()
        invariant
            want == declared_values(f.deep_view()),
            deep(values@) == want.take(i as int),
    {
        let v = VcpValue { code: f.values[i].code, name: text_or_empty(&f.values[i].name) };
        assert(f.deep_view().values[i as int] == f.values@[i as int].deep_view());
        assert(v.deep_view() == want[i as int]);
        values.push(v);
        assert(want.take(i + 1) =~= want.take(i as int).push(want[i as int]));
    }
    assert(want.take(want.len() as int) =~= want);
    values
}

fn to_feature(f: &RawFeature, db: &mccs_db::Database, fallback: bool) -> (r: VcpFeature)
    ensures
        r.deep_view() == feature_of(f.deep_view(), database_entries(*db), fallback),
{
    let (name, recognized) = describe(db, f.code);
    let manufacturer_specific = !recognized && f.code >= 0xe0;
    let name = match name {
        Some(name) => name,
        None => if manufacturer_specific {
            owned("Manufacturer specific feature")
        } else {
            owned("Unrecognized feature")
        },
    };
    let values = if f.values.len() == 0 && fallback {
        well_known_values(f.code)
    } else {
        values_declared(f)
    };
    VcpFeature { code: f.code, name, recognized, manufacturer_specific, values }
}

pub(crate) fn to_capabilities_with(
    raw: &RawCapabilities,
    db: &mccs_db::Database,
    fallback: bool,
) -> (r: Capabilities)
    ensures
        r.deep_view() == capabilities_from(raw.deep_view(), database_entries(*db), fallback),
{
    broadcast use group_deep;

    let mut features: Vec<VcpFeature> = Vec::new();
    let ghost want = capabilities_from(raw.deep_view(), database_entries(*db), fallback).features;
    for i in 0..raw.features.len()
        invariant
            want == capabilities_from(
                raw.deep_view(),
                database_entries(*db),
                fallback,
            ).features,
            deep(features@) == want.take(i as int),
    {
        let f = to_feature(&raw.features[i], db, fallback);
        assert(raw.deep_view().features[i as int] == raw.features@[i as int].deep_view());
        assert(f.deep_view() == want[i as int]);
        features.push(f);
        assert(want.take(i + 1) =~= want.take(i as int).push(want[i as int]));
    }
    assert(want.take(want.len() as int) =~= want);
    let mccs_version = match raw.mccs_version {
        Some(v) => show_version(v),
        None => String::new(),
    };
    Capabilities { model: text_or_empty(&raw.model), mccs_version, features }
}

/// What a monitor declares, with every feature named, and with the well-known
/// values where the monitor names a feature but declares no values for it.
pub fn to_capabilities(raw: &RawCapabilities, db: &mccs_db::Database) -> (r: Capabilities)
    ensures
        r.deep_view() == capabilities_from(raw.deep_view(), database_entries(*db), true),
{
    to_capabilities_with(raw, db, true)
}

// ---- laws ----------------------------------------------------------------------

/// A listed feature with a name is taken as it is, also over a well-known one.
pub proof fn law_named_entry_is_trusted(entries: Map<u8, DescriptorView>, code: u8)
    requires
        entries.dom().contains(code),
        entries[code].name is Some,
    ensures
        resolved(entries, code) == Some(entries[code]),
        described(entries, code) == entries[code].name,
{
}

/// A well-known feature that a monitor only mentions gets its well-known name
/// and type, whatever type was inferred from what the monitor declares: a
/// feature that is not continuous never becomes a continuous one because its
/// values were left out.
pub proof fn law_well_known_type_wins(entries: Map<u8, DescriptorView>, code: u8)
    requires
        known_name(code) is Some,
        entries.dom().contains(code) ==> entries[code].name is None,
    ensures
        resolved(entries, code) is Some,
        resolved(entries, code)->0.name == known_name(code),
        resolved(entries, code)->0.ty is Continuous <==> known_continuous(code),
{
}

/// The description of a code is the name that it resolves to.
pub proof fn law_description_is_resolved_name(entries: Map<u8, DescriptorView>, code: u8)
    ensures
        described(entries, code) == (match resolved(entries, code) {
            Some(d) => d.name,
            None => None,
        }),
{
}

/// Every code that a monitor declares is listed, in the same order, and the
/// values that it declares for one are kept as they are.
pub proof fn law_declared_features_are_kept(
    raw: RawCapabilitiesView,
    entries: Map<u8, DescriptorView>,
    fallback: bool,
    i: int,
)
    requires
        0 <= i < raw.features.len(),
    ensures
        capabilities_from(raw, entries, fallback).features.len() == raw.features.len(),
        capabilities_from(raw, entries, fallback).features[i].code == raw.features[i].code,
        raw.features[i].values.len() > 0 ==> capabilities_from(
            raw,
            entries,
            fallback,
        ).features[i].values == declared_values(raw.features[i]),
{
}

/// The codes that every monitor control leans on.
pub open spec fn is_well_known(code: u8) -> bool {
    code == 0x10 || code == 0x12 || code == 0x14 || code == 0x16 || code == 0x18 || code == 0x1a
        || code == 0x60 || code == 0x62 || code == 0x8d || code == 0xd6
}

/// Whether a code means something: the database names it, or it is well known.
pub open spec fn has_meaning(entries: Map<u8, DescriptorView>, code: u8) -> bool {
    is_well_known(code) || entries.dom().contains(code) && entries[code].name is Some
}

/// A declared feature is recognized exactly where its code means something, so a
/// declared brightness always is. The name is then that of the database, where it
/// has one. Only codes that are set aside for manufacturers are ever called
/// manufacturer specific, and only where they mean nothing.
pub proof fn law_meaningful_codes_are_recognized(
    raw: RawCapabilitiesView,
    entries: Map<u8, DescriptorView>,
    fallback: bool,
    i: int,
)
    requires
        0 <= i < raw.features.len(),
    ensures
        ({
            let f = capabilities_from(raw, entries, fallback).features[i];
            let code = raw.features[i].code;
            &&& f.code == code
            &&& f.recognized <==> has_meaning(entries, code)
            &&& f.manufacturer_specific <==> !has_meaning(entries, code) && code >= 0xe0
            &&& entries.dom().contains(code) && entries[code].name is Some ==> f.name
                == entries[code].name->0
            &&& !has_meaning(entries, code) ==> f.name == (if code >= 0xe0 {
                "Manufacturer specific feature"@
            } else {
                "Unrecognized feature"@
            })
        }),
{
}

/// Whether `name` is what a well-known code is called.
pub open spec fn is_called(code: u8, name: Seq<char>) -> bool {
    &&& code == 0x10 ==> name == "Brightness"@
    &&& code == 0x12 ==> name == "Contrast"@
    &&& code == 0x14 ==> name == "Select Color Preset"@
    &&& code == 0x16 ==> name == "Video Gain (Red)"@
    &&& code == 0x18 ==> name == "Video Gain (Green)"@
    &&& code == 0x1a ==> name == "Video Gain (Blue)"@
    &&& code == 0x60 ==> name == "Input Source"@
    &&& code == 0x62 ==> name == "Audio Speaker Volume"@
    &&& code == 0x8d ==> name == "Audio Mute"@
    &&& code == 0xd6 ==> name == "Power Mode"@
}

/// A well-known code that the database does not name has its well-known name
/// wherever it turns up: among the capabilities, as it is resolved and as it is
/// described. The levels are continuous; presets, inputs, mute and power are not.
pub proof fn law_well_known_codes_have_their_names(
    raw: RawCapabilitiesView,
    entries: Map<u8, DescriptorView>,
    fallback: bool,
    i: int,
    code: u8,
)
    requires
        is_well_known(code),
        entries.dom().contains(code) ==> entries[code].name is None,
    ensures
        described(entries, code) matches Some(name) && is_called(code, name),
        resolved(entries, code) matches Some(d) && d.name == described(entries, code) && (
        d.ty is Continuous <==> code == 0x10 || code == 0x12 || code == 0x16 || code == 0x18 || code
            == 0x1a || code == 0x62) && (d.ty is Continuous || d.ty is NonContinuous),
        0 <= i < raw.features.len() && raw.features[i].code == code ==> is_called(
            code,
            capabilities_from(raw, entries, fallback).features[i].name,
        ),
{
}

/// A code is described exactly where it means something.
pub proof fn law_only_meaningful_codes_are_described(
    entries: Map<u8, DescriptorView>,
    code: u8,
)
    ensures
        described(entries, code) is Some <==> has_meaning(entries, code),
        entries.dom().contains(code) && entries[code].name is Some ==> described(entries, code)
            == entries[code].name,
        resolved(entries, code) is None <==> !entries.dom().contains(code) && !is_well_known(code),
        entries.dom().contains(code) ==> resolved(entries, code)->0.access == entries[code].access,
        !is_well_known(code) && entries.dom().contains(code) ==> resolved(entries, code) == Some(
            entries[code],
        ),
{
}

/// Every value that a monitor declares for a feature is kept, in order, under its
/// code and with its name; one without a name has an empty one. Where it declares
/// none, only mute gets values, and only where these are asked for: on and off.
pub proof fn law_declared_values_are_kept(
    raw: RawCapabilitiesView,
    entries: Map<u8, DescriptorView>,
    fallback: bool,
    i: int,
)
    requires
        0 <= i < raw.features.len(),
    ensures
        ({
            let values = capabilities_from(raw, entries, fallback).features[i].values;
            let given = raw.features[i].values;
            &&& given.len() > 0 || !fallback || raw.features[i].code != 0x8d ==> values.len()
                == given.len()
            &&& given.len() > 0 ==> forall|k: int|
                0 <= k < values.len() ==> (#[trigger] values[k]).code == given[k].code && (
                given[k].name is Some ==> values[k].name == given[k].name->0) && (
                given[k].name is None ==> values[k].name.len() == 0)
            &&& given.len() == 0 && fallback && raw.features[i].code == 0x8d ==> values.len() == 2
                && values[0].code == 1 && values[0].name == "Mute"@ && values[1].code == 2
                && values[1].name == "Unmute"@
        }),
{
}

/// The model and the version are those that the monitor declares; empty where it
/// declares none.
pub proof fn law_declared_model_is_kept(
    raw: RawCapabilitiesView,
    entries: Map<u8, DescriptorView>,
    fallback: bool,
)
    ensures
        ({
            let caps = capabilities_from(raw, entries, fallback);
            &&& raw.model matches Some(m) ==> caps.model == m
            &&& raw.model is None ==> caps.model.len() == 0
            &&& raw.mccs_version is None ==> caps.mccs_version.len() == 0
            &&& raw.mccs_version matches Some(v) ==> caps.mccs_version == decimal(v.major as nat)
                + "."@ + decimal(v.minor as nat)
        }),
{
}

} // verus!
