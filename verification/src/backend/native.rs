//! What the native Linux backend decides: which buses to look at, how the
//! monitors on them are identified, what a reading means and when a write is
//! refused or has failed. Talking to `/dev/i2c-*` is left to the caller.
//!
//! Feature-code metadata (name, continuous-vs-enum, read/write access) comes
//! from the feature database; see [`crate::backend::mccs_shared`].

use vstd::prelude::*;

use crate::backend::mccs_data::{
    ascends, build_database, capability_string, database_entries, is_database_for, lookup,
    parse_capability_string, value_name, Access, Descriptor, DescriptorView, RawCapabilities,
    RawCapabilitiesView, ValueName, ValueType, ValueTypeView, Version,
};
use crate::backend::mccs_shared::{
    capabilities_from, described, describe, has_meaning, is_called, is_well_known, is_write_only,
    known_continuous, known_name, or_empty, show_version, to_capabilities_with, version_text,
    well_known_continuous, well_known_name,
};
use crate::backend::{outcome, BackendError, BackendErrorView};
use crate::numbers::{
    decimal, decimal_text, hex2, hex2_text, hex_byte, law_bytes_are_two_digits, law_codes_read_back,
    law_numbers_read_back, parsed, signed_decimal, signed_text,
};
use crate::text::{
    chars_of, deep, ends_with, group_deep, owned, starts_with, strip_prefix, without_prefix,
};
use crate::vcp::{
    blank_reading, Capabilities, Display, DisplayView, FeatureReading, FeatureReadingView, RawBytes,
};

verus! {

// ---- buses ---------------------------------------------------------------------

/// Whether `a` comes before `b` in the order of their characters, or is `b`.
pub open spec fn text_le(a: Seq<char>, b: Seq<char>) -> bool
    decreases a.len(),
{
    if a.len() == 0 {
        true
    } else if b.len() == 0 {
        false
    } else if a[0] == b[0] {
        text_le(a.skip(1), b.skip(1))
    } else {
        a[0] < b[0]
    }
}

/// Whether texts are in order.
pub open spec fn in_order(s: Seq<Seq<char>>) -> bool {
    forall|i: int, j: int| 0 <= i < j < s.len() ==> text_le(#[trigger] s[i], #[trigger] s[j])
}

/// Whether a device name is that of an i2c bus.
pub open spec fn is_bus(name: Seq<char>) -> bool {
    without_prefix(name, "i2c-"@) is Some
}

/// The names of the i2c buses among device names, as they come.
pub open spec fn buses_among(names: Seq<Seq<char>>) -> Seq<Seq<char>>
    decreases names.len(),
{
    if names.len() == 0 {
        Seq::empty()
    } else if is_bus(names.last()) {
        buses_among(names.drop_last()).push(names.last())
    } else {
        buses_among(names.drop_last())
    }
}

proof fn lemma_le_total(a: Seq<char>, b: Seq<char>)
    ensures
        text_le(a, b) || text_le(b, a),
    decreases a.len(),
{
    if a.len() > 0 && b.len() > 0 && a[0] == b[0] {
        lemma_le_total(a.skip(1), b.skip(1));
    }
}

proof fn lemma_le_transitive(a: Seq<char>, b: Seq<char>, c: Seq<char>)
    requires
        text_le(a, b),
        text_le(b, c),
    ensures
        text_le(a, c),
    decreases a.len(),
{
    if a.len() > 0 && b.len() > 0 && c.len() > 0 && a[0] == b[0] && b[0] == c[0] {
        lemma_le_transitive(a.skip(1), b.skip(1), c.skip(1));
    }
}

fn comes_before(a: &str, b: &str) -> (r: bool)
    ensures
        r == text_le(a@, b@),
{
    let x = chars_of(a);
    let y = chars_of(b);
    let mut i: usize = 0;
    assert(a@.skip(0) =~= a@);
    assert(b@.skip(0) =~= b@);
    while i < x.len() && i < y.len() && x[i] == y[i]
        invariant
            x@ == a@,
            y@ == b@,
            i <= x@.len(),
            i <= y@.len(),
            text_le(a@, b@) == text_le(a@.skip(i as int), b@.skip(i as int)),
        decreases x@.len() - i,
    {
        assert(a@.skip(i as int).skip(1) =~= a@.skip(i + 1));
        assert(b@.skip(i as int).skip(1) =~= b@.skip(i + 1));
        i = i + 1;
    }
    if i >= x.len() {
        return true;
    }
    if i >= y.len() {
        return false;
    }
    x[i] < y[i]
}

proof fn lemma_insert_keeps_items(s: Seq<Seq<char>>, i: int, x: Seq<char>)
    requires
        0 <= i <= s.len(),
    ensures
        s.insert(i, x).to_multiset() == s.to_multiset().insert(x),
{
    broadcast use vstd::seq_lib::group_to_multiset_ensures;

    let t = s.insert(i, x);
    assert(t[i] == x);
    assert(t.remove(i) =~= s);
    assert(t.contains(x));
    assert(t.to_multiset().remove(x) == s.to_multiset());
    assert(t.to_multiset() =~= s.to_multiset().insert(x));
}

fn insert_in_order(names: &mut Vec<String>, name: &str)
    requires
        in_order(deep(old(names)@)),
    ensures
        in_order(deep(final(names)@)),
        deep(final(names)@).to_multiset() == deep(old(names)@).to_multiset().insert(name@),
{
    let ghost before = deep(names@);
    let mut i: usize = 0;
    while i < names.len() && comes_before(names[i].as_str(), name)
        invariant
            i <= names@.len(),
            before == deep(names@),
            forall|k: int| 0 <= k < i ==> text_le(#[trigger] before[k], name@),
        decreases names@.len() - i,
    {
        assert(before[i as int] == names@[i as int]@);
        i = i + 1;
    }
    proof {
        if i < before.len() {
            assert(before[i as int] == names@[i as int]@);
            lemma_le_total(before[i as int], name@);
        }
        assert forall|k: int| i <= k < before.len() implies text_le(
            name@,
            #[trigger] before[k],
        ) by {
            if k > i {
                lemma_le_transitive(name@, before[i as int], before[k]);
            }
        }
    }
    names.insert(i, owned(name));
    proof {
        let after = deep(names@);
        assert(after =~= before.insert(i as int, name@));
        lemma_insert_keeps_items(before, i as int, name@);
        assert forall|a: int, b: int| 0 <= a < b < after.len() implies text_le(
            #[trigger] after[a],
            #[trigger] after[b],
        ) by {
            let x = if a < i {
                a
            } else {
                a - 1
            };
            let y = if b < i {
                b
            } else {
                b - 1
            };
            if a != i && b != i {
                assert(after[a] == before[x] && after[b] == before[y]);
            } else if a == i {
                assert(after[b] == before[y]);
            } else {
                assert(after[a] == before[x]);
            }
        }
    }
}

/// The i2c buses among device names, in order.
pub fn i2c_buses(names: &Vec<String>) -> (r: Vec<String>)
    ensures
        in_order(deep(r@)),
        deep(r@).to_multiset() == buses_among(deep(names@)).to_multiset(),
{
    broadcast use group_deep;
    broadcast use vstd::seq_lib::group_to_multiset_ensures;

    let mut out: Vec<String> = Vec::new();
    let ghost all = deep(names@);
    assert(all.take(0) =~= Seq::empty());
    for i in 0..names.len()
        invariant
            all == deep(names@),
            in_order(deep(out@)),
            deep(out@).to_multiset() == buses_among(all.take(i as int)).to_multiset(),
    {
        assert(all.take(i + 1).drop_last() =~= all.take(i as int));
        assert(all.take(i + 1).last() == names@[i as int]@);
        let ghost before = buses_among(all.take(i as int));
        if strip_prefix(names[i].as_str(), "i2c-").is_some() {
            insert_in_order(&mut out, names[i].as_str());
            proof {
                vstd::seq_lib::to_multiset_build(before, names@[i as int]@);
                assert(buses_among(all.take(i + 1)) == before.push(names@[i as int]@));
            }
        } else {
            assert(buses_among(all.take(i + 1)) == before);
        }
    }
    assert(all.take(all.len() as int) =~= all);
    out
}

// ---- identification ------------------------------------------------------------

/// One descriptor of an EDID block, as far as it identifies a monitor.
#[derive(Debug)]
pub enum EdidDescriptor {
    ProductName(String),
    Other,
}

pub enum EdidDescriptorView {
    ProductName(Seq<char>),
    Other,
}

impl DeepView for EdidDescriptor {
    type V = EdidDescriptorView;

    open spec fn deep_view(&self) -> EdidDescriptorView {
        match *self {
            EdidDescriptor::ProductName(s) => EdidDescriptorView::ProductName(s@),
            EdidDescriptor::Other => EdidDescriptorView::Other,
        }
    }
}

/// What identifies a monitor in an EDID block.
#[derive(Debug)]
pub struct EdidBlock {
    pub vendor: String,
    pub descriptors: Vec<EdidDescriptor>,
}

pub struct EdidBlockView {
    pub vendor: Seq<char>,
    pub descriptors: Seq<EdidDescriptorView>,
}

impl DeepView for EdidBlock {
    type V = EdidBlockView;

    open spec fn deep_view(&self) -> EdidBlockView {
        EdidBlockView { vendor: self.vendor@, descriptors: deep(self.descriptors@) }
    }
}

/// What an EDID block says; `None` where the bytes are not one.
pub uninterp spec fn edid_block(bytes: Seq<u8>) -> Option<EdidBlockView>;

/// `edid::parse` followed by `nom::IResult::to_result`: reads an EDID block. The
/// vendor comes as its characters and the descriptors in their order. What they
/// are depends on the bytes alone; how a block is read is that crate's business
/// and is not stated here. A block takes 128 bytes; on fewer, `to_result` would
/// panic.
#[verifier::external_body]
fn parse_edid(bytes: &[u8]) -> (r: Option<EdidBlock>)
    requires
        bytes@.len() >= 128,
    ensures
        r.deep_view() == edid_block(bytes@),
{
    let block = edid::parse(bytes).to_result().ok()?;
    let descriptor = |d| match d {
        edid::Descriptor::ProductName(name) => EdidDescriptor::ProductName(name),
        _ => EdidDescriptor::Other,
    };
    Some(EdidBlock {
        vendor: block.header.vendor.iter().collect(),
        descriptors: block.descriptors.into_iter().map(descriptor).collect(),
    })
}

/// The product name in a list of descriptors: the last one; empty where there
/// is none.
pub open spec fn product_name(descriptors: Seq<EdidDescriptorView>) -> Seq<char>
    decreases descriptors.len(),
{
    if descriptors.len() == 0 {
        Seq::empty()
    } else {
        match descriptors.last() {
            EdidDescriptorView::ProductName(name) => name,
            EdidDescriptorView::Other => product_name(descriptors.drop_last()),
        }
    }
}

/// The manufacturer and the model that an EDID block gives; both empty where
/// there is no block.
pub open spec fn identity_of(block: Option<EdidBlockView>) -> (Seq<char>, Seq<char>) {
    match block {
        Some(b) => (b.vendor, product_name(b.descriptors)),
        None => (Seq::empty(), Seq::empty()),
    }
}

/// The manufacturer and the model that an EDID block gives; both empty where
/// there is no block.
pub fn identity(block: Option<EdidBlock>) -> (r: (String, String))
    ensures
        (r.0@, r.1@) == identity_of(block.deep_view()),
{
    match block {
        None => (String::new(), String::new()),
        Some(b) => {
            let ghost all = deep(b.descriptors@);
            let mut model = String::new();
            assert(all.take(0) =~= Seq::empty());
            for i in 0..b.descriptors.len()
                invariant
                    all == deep(b.descriptors@),
                    model@ == product_name(all.take(i as int)),
            {
                assert(all.take(i + 1).drop_last() =~= all.take(i as int));
                assert(all.take(i + 1).last() == b.descriptors@[i as int].deep_view());
                if let EdidDescriptor::ProductName(name) = &b.descriptors[i] {
                    model = name.clone();
                }
            }
            assert(all.take(all.len() as int) =~= all);
            (b.vendor, model)
        },
    }
}

/// The manufacturer and the model of the monitor that these EDID bytes come
/// from; both empty where they cannot be read.
pub fn edid_identity(bytes: &[u8]) -> (r: (String, String))
    requires
        bytes@.len() >= 128,
    ensures
        (r.0@, r.1@) == identity_of(edid_block(bytes@)),
{
    identity(parse_edid(bytes))
}

/// A monitor that answered on a bus.
#[derive(Debug)]
pub struct Found {
    /// The path of its bus.
    pub path: String,
    pub mfg_id: String,
    pub model: String,
    /// The version it reported live, which is more reliably present than the
    /// one in its capability string.
    pub version: Version,
}

/// The code of the VCP version. A bus is taken for a monitor's where a read of
/// it gets a live reply: the cheapest way to tell a monitor from some unrelated
/// i2c device.
pub const VERSION_CODE: u8 = 0xdf;

/// The path of an i2c bus.
pub fn bus_path(name: &str) -> (r: String)
    ensures
        r@ == "/dev/"@ + name@,
{
    let mut s = owned("/dev/");
    s.append(name);
    s
}

/// The manufacturer and the model that EDID bytes give; both empty where they
/// could not be had or cannot be read.
pub open spec fn identified(edid: Option<Vec<u8>>) -> (Seq<char>, Seq<char>) {
    match edid {
        Some(bytes) => identity_of(edid_block(bytes@)),
        None => identity_of(None),
    }
}

/// The monitor on the bus at `path`, given its reply to a read of
/// [`VERSION_CODE`] and its EDID bytes, as far as there were any. No reply means
/// no monitor.
pub fn found_on(path: &str, reply: Option<RawBytes>, edid: Option<Vec<u8>>) -> (r: Option<Found>)
    requires
        edid is Some ==> edid->0@.len() >= 128,
    ensures
        r is Some <==> reply is Some,
        r is Some ==> r->0.path@ == path@ && (r->0.mfg_id@, r->0.model@) == identified(edid)
            && r->0.version == (Version { major: reply->0.sh, minor: reply->0.sl }),
{
    match reply {
        None => None,
        Some(v) => {
            let (mfg_id, model) = match edid {
                Some(bytes) => edid_identity(bytes.as_slice()),
                None => identity(None),
            };
            let version = Version { major: v.sh, minor: v.sl };
            Some(Found { path: owned(path), mfg_id, model, version })
        },
    }
}

/// The display that a monitor found at position `i` is shown as.
pub open spec fn display_of(f: Found, i: int) -> DisplayView {
    DisplayView {
        number: (i + 1) as i32,
        bus: f.path@,
        connector: Seq::empty(),
        mfg_id: f.mfg_id@,
        model: f.model@,
        vcp_version: version_text(f.version),
    }
}

/// The displays that the monitors found are shown as, numbered from 1. No
/// connector is known on a plain i2c bus.
pub fn displays(found: &Vec<Found>) -> (r: Vec<Display>)
    ensures
        r@.len() == found@.len(),
        forall|i: int|
            0 <= i < r@.len() ==> (#[trigger] r@[i]).deep_view() == display_of(found@[i], i),
{
    let mut out: Vec<Display> = Vec::new();
    for i in 0..found.len()
        invariant
            out@.len() == i,
            forall|j: int|
                0 <= j < i ==> (#[trigger] out@[j]).deep_view() == display_of(found@[j], j),
    {
        let f = &found[i];
        let d = Display {
            number: (i + 1) as i32,
            bus: f.path.clone(),
            connector: String::new(),
            mfg_id: f.mfg_id.clone(),
            model: f.model.clone(),
            vcp_version: show_version(f.version),
        };
        assert(d.connector@ =~= Seq::empty());
        out.push(d);
    }
    out
}

/// The position of the display with this number among `len` monitors.
pub fn entry_index(display_num: i32, len: usize) -> (r: Result<usize, BackendError>)
    ensures
        r is Ok <==> 1 <= display_num <= len,
        r is Ok ==> r->Ok_0 == display_num - 1,
        r is Err ==> r->Err_0.deep_view() == BackendErrorView::Message(
            "no such display: "@ + signed_decimal(display_num as int),
        ),
{
    if display_num >= 1 && (display_num as u64) <= (len as u64) {
        return Ok((display_num - 1) as usize);
    }
    let mut message = owned("no such display: ");
    message.append(signed_text(display_num).as_str());
    Err(BackendError::msg(message.as_str()))
}

// ---- capabilities --------------------------------------------------------------

/// What has been learned of a monitor's features.
pub struct Known {
    pub raw: RawCapabilities,
    pub db: mccs_db::Database,
}

/// A failure to get at a monitor's capabilities.
pub open spec fn capabilities_failure(path: Seq<char>, reason: Seq<char>) -> BackendErrorView {
    BackendErrorView::Message(path + ": capabilities: "@ + reason)
}

/// A failure to get at a monitor's capabilities.
pub fn capabilities_error(path: &str, reason: &str) -> (r: BackendError)
    ensures
        r.deep_view() == capabilities_failure(path@, reason@),
{
    let mut message = owned(path);
    message.append(": capabilities: ");
    message.append(reason);
    BackendError::msg(message.as_str())
}

/// The version that selects the features of the database: the one that the
/// capability string declares, else the one that the monitor reported live.
pub open spec fn database_version(raw: RawCapabilitiesView, live: Version) -> Version {
    match raw.mccs_version {
        Some(v) => v,
        None => live,
    }
}

/// What is learned of a monitor from what its capability string declares.
pub fn known_from(raw: RawCapabilities, live: Version) -> (r: Known)
    requires
        ascends(raw.deep_view().features),
    ensures
        r.raw == raw,
        is_database_for(
            r.db,
            raw.deep_view().features,
            database_version(raw.deep_view(), live),
        ),
{
    let version = match raw.mccs_version {
        Some(v) => v,
        None => live,
    };
    let db = build_database(&raw, version);
    Known { raw, db }
}

/// What is learned of a monitor from its capability string.
pub fn learn(path: &str, cap_bytes: &[u8], live: Version) -> (r: Result<Known, BackendError>)
    ensures
        match capability_string(cap_bytes@) {
            Ok(raw) => r is Ok && r->Ok_0.raw.deep_view() == raw && is_database_for(
                r->Ok_0.db,
                raw.features,
                database_version(raw, live),
            ),
            Err(reason) => r is Err && r->Err_0.deep_view() == capabilities_failure(
                path@,
                reason,
            ),
        },
{
    match parse_capability_string(cap_bytes) {
        Ok(raw) => Ok(known_from(raw, live)),
        Err(reason) => Err(capabilities_error(path, reason.as_str())),
    }
}

/// What a monitor declares, with every feature named. The values are those that
/// the monitor declares.
pub fn to_capabilities(raw: &RawCapabilities, db: &mccs_db::Database) -> (r: Capabilities)
    ensures
        r.deep_view() == capabilities_from(raw.deep_view(), database_entries(*db), false),
{
    to_capabilities_with(raw, db, false)
}

/// What is known of a well-known feature that the database does not hold.
pub open spec fn fallback_descriptor(code: u8) -> Option<DescriptorView> {
    match known_name(code) {
        Some(name) => Some(
            DescriptorView {
                name: Some(name),
                code,
                ty: if known_continuous(code) {
                    ValueTypeView::Continuous
                } else {
                    ValueTypeView::NonContinuous(Seq::empty())
                },
                access: Access::ReadWrite,
            },
        ),
        None => None,
    }
}

/// What is known of a code, given what the database holds: an entry without a
/// name gets the well-known one, where there is one.
pub open spec fn resolved(entries: Map<u8, DescriptorView>, code: u8) -> Option<DescriptorView> {
    if !entries.dom().contains(code) {
        fallback_descriptor(code)
    } else if entries[code].name is Some {
        Some(entries[code])
    } else {
        Some(DescriptorView { name: known_name(code), ..entries[code] })
    }
}

/// The descriptor for `code`, preferring the feature database and falling back
/// to the well-known features for the codes it is missing.
pub fn resolve(db: &mccs_db::Database, code: u8) -> (r: Option<Descriptor>)
    ensures
        r.deep_view() == resolved(database_entries(*db), code),
{
    broadcast use group_deep;

    match lookup(db, code) {
        Some(d) => {
            if d.name.is_some() {
                return Some(d);
            }
            let mut d = d;
            d.name = well_known_name(code);
            Some(d)
        },
        None => match well_known_name(code) {
            Some(name) => {
                let ty = if well_known_continuous(code) {
                    ValueType::Continuous
                } else {
                    ValueType::NonContinuous(Vec::new())
                };
                Some(Descriptor { name: Some(name), code, ty, access: Access::ReadWrite })
            },
            None => None,
        },
    }
}

/// The name that a code resolves to does not depend on how its type is
/// resolved.
pub proof fn law_resolved_name_is_the_description(entries: Map<u8, DescriptorView>, code: u8)
    ensures
        described(entries, code) == (match resolved(entries, code) {
            Some(d) => d.name,
            None => None,
        }),
{
}

// ---- reading -------------------------------------------------------------------

/// The name of a feature; empty where it is not known.
pub open spec fn descriptor_name(d: Option<DescriptorView>) -> Seq<char> {
    match d {
        Some(d) => or_empty(d.name),
        None => Seq::empty(),
    }
}

/// Whether a feature has no value to read back.
pub open spec fn write_only(d: Option<DescriptorView>) -> bool {
    d is Some && d->0.access == Access::WriteOnly
}

/// What is read of a feature without asking the monitor: a write-only one has
/// no value.
pub fn known_reading(code: u8, descriptor: &Option<Descriptor>) -> (r: Option<FeatureReading>)
    ensures
        r.deep_view() == (if write_only(descriptor.deep_view()) {
            Some(blank_reading(code, descriptor_name(descriptor.deep_view())))
        } else {
            None
        }),
{
    if let Some(d) = descriptor {
        if is_write_only(d) {
            let mut reading = FeatureReading::default();
            reading.code = code;
            if let Some(name) = &d.name {
                reading.name = name.clone();
            }
            return Some(reading);
        }
    }
    None
}

/// A two-byte number, high byte first.
pub open spec fn word(high: u8, low: u8) -> u16 {
    (high * 256 + low) as u16
}

fn join(high: u8, low: u8) -> (r: u16)
    ensures
        r == word(high, low),
{
    (high as u16) * 256 + low as u16
}

/// What a reply to a read of `code` means. A table, and a feature that is not
/// known, have no scalar value: their reply bytes are kept as they are.
pub open spec fn reading_from(code: u8, d: Option<DescriptorView>, v: RawBytes) -> FeatureReadingView {
    let blank = FeatureReadingView {
        readable: true,
        ..blank_reading(code, descriptor_name(d))
    };
    match d {
        Some(d) => match d.ty {
            ValueTypeView::Continuous => FeatureReadingView {
                continuous: true,
                current: word(v.sh, v.sl),
                max: word(v.mh, v.ml),
                ..blank
            },
            ValueTypeView::NonContinuous(values) => FeatureReadingView {
                current: v.sl as u16,
                label: or_empty(value_name(values, v.sl)),
                ..blank
            },
            _ => FeatureReadingView { current: v.sl as u16, raw: Some(v), ..blank },
        },
        None => FeatureReadingView { current: v.sl as u16, raw: Some(v), ..blank },
    }
}

fn find_name(values: &Vec<ValueName>, code: u8) -> (r: String)
    ensures
        r@ == or_empty(value_name(deep(values@), code)),
{
    let ghost all = deep(values@);
    assert(all.skip(0) =~= all);
    for i in 0..values.len()
        invariant
            all == deep(values@),
            value_name(all, code) == value_name(all.skip(i as int), code),
    {
        assert(all.skip(i as int)[0] == values@[i as int].deep_view());
        assert(all.skip(i as int).skip(1) =~= all.skip(i + 1));
        if values[i].code == code {
            return match &values[i].name {
                Some(name) => name.clone(),
                None => String::new(),
            };
        }
    }
    String::new()
}

/// What a reply to a read of `code` means.
pub fn read_value(code: u8, descriptor: &Option<Descriptor>, value: RawBytes) -> (r: FeatureReading)
    ensures
        r.deep_view() == reading_from(code, descriptor.deep_view(), value),
{
    let mut reading = FeatureReading::default();
    reading.code = code;
    reading.readable = true;
    match descriptor {
        Some(d) => {
            if let Some(name) = &d.name {
                reading.name = name.clone();
            }
            match &d.ty {
                ValueType::Continuous => {
                    reading.continuous = true;
                    reading.current = join(value.sh, value.sl);
                    reading.max = join(value.mh, value.ml);
                },
                ValueType::NonContinuous(values) => {
                    reading.current = value.sl as u16;
                    reading.label = find_name(values, value.sl);
                },
                _ => {
                    reading.current = value.sl as u16;
                    reading.raw = Some(value);
                },
            }
        },
        None => {
            reading.current = value.sl as u16;
            reading.raw = Some(value);
        },
    }
    reading
}

/// What a monitor answered, or why it did not, over the text of the reason.
pub open spec fn answered<T>(r: Result<T, String>) -> Result<T, Seq<char>> {
    match r {
        Ok(x) => Ok(x),
        Err(e) => Err(e@),
    }
}

/// What a read of `code` on the bus at `path` comes to, given the monitor's
/// reply or why there was none.
pub open spec fn read_reply(
    path: Seq<char>,
    code: u8,
    d: Option<DescriptorView>,
    reply: Result<RawBytes, Seq<char>>,
) -> Result<FeatureReadingView, BackendErrorView> {
    match reply {
        Ok(value) => Ok(reading_from(code, d, value)),
        Err(e) => Err(
            BackendErrorView::Message(path + ": getvcp "@ + hex2(code as nat, false) + ": "@ + e),
        ),
    }
}

/// What a read of `code` on the bus at `path` comes to, given the monitor's
/// reply or why there was none.
pub fn get_vcp_reply(
    path: &str,
    code: u8,
    descriptor: &Option<Descriptor>,
    reply: Result<RawBytes, String>,
) -> (r: Result<FeatureReading, BackendError>)
    ensures
        outcome(r) == read_reply(path@, code, descriptor.deep_view(), answered(reply)),
{
    match reply {
        Ok(value) => Ok(read_value(code, descriptor, value)),
        Err(e) => {
            let mut message = owned(path);
            message.append(": getvcp ");
            message.append(hex2_text(code as u16, false).as_str());
            message.append(": ");
            message.append(e.as_str());
            Err(BackendError::msg(message.as_str()))
        },
    }
}

/// What has happened of a read so far.
#[derive(Debug)]
pub enum ReadEvent<S> {
    /// It is asked for.
    Asked,
    /// The monitor replied, or did not.
    Replied(Result<RawBytes, S>),
}

impl DeepView for ReadEvent<String> {
    type V = ReadEvent<Seq<char>>;

    open spec fn deep_view(&self) -> ReadEvent<Seq<char>> {
        match *self {
            ReadEvent::Asked => ReadEvent::Asked,
            ReadEvent::Replied(reply) => ReadEvent::Replied(answered(reply)),
        }
    }
}

/// What a read does next.
#[derive(Debug)]
pub enum ReadStep<R, E> {
    /// Reads the value of a code from the monitor.
    Ask { code: u8 },
    /// Is over.
    Done(Result<R, E>),
}

impl DeepView for ReadStep<FeatureReading, BackendError> {
    type V = ReadStep<FeatureReadingView, BackendErrorView>;

    open spec fn deep_view(&self) -> ReadStep<FeatureReadingView, BackendErrorView> {
        match *self {
            ReadStep::Ask { code } => ReadStep::Ask { code },
            ReadStep::Done(r) => ReadStep::Done(outcome(r)),
        }
    }
}

/// What a read does next. The monitor is not asked for what has no value to read
/// back.
pub open spec fn read_step(
    path: Seq<char>,
    code: u8,
    d: Option<DescriptorView>,
    event: ReadEvent<Seq<char>>,
) -> ReadStep<FeatureReadingView, BackendErrorView> {
    match event {
        ReadEvent::Asked => if write_only(d) {
            ReadStep::Done(Ok(blank_reading(code, descriptor_name(d))))
        } else {
            ReadStep::Ask { code }
        },
        ReadEvent::Replied(reply) => ReadStep::Done(read_reply(path, code, d, reply)),
    }
}

/// What a read does next, from when it is asked for until it is over.
pub fn get_vcp_step(
    path: &str,
    code: u8,
    descriptor: &Option<Descriptor>,
    event: ReadEvent<String>,
) -> (r: ReadStep<FeatureReading, BackendError>)
    ensures
        r.deep_view() == read_step(path@, code, descriptor.deep_view(), event.deep_view()),
{
    match event {
        ReadEvent::Asked => match known_reading(code, descriptor) {
            Some(reading) => ReadStep::Done(Ok(reading)),
            None => ReadStep::Ask { code },
        },
        ReadEvent::Replied(reply) => ReadStep::Done(get_vcp_reply(path, code, descriptor, reply)),
    }
}

/// The steps of a read from some event on, where the monitor replies like this
/// once it is asked.
pub open spec fn read_steps(
    path: Seq<char>,
    code: u8,
    d: Option<DescriptorView>,
    event: ReadEvent<Seq<char>>,
    reply: Result<RawBytes, Seq<char>>,
) -> Seq<ReadStep<FeatureReadingView, BackendErrorView>>
    decreases
            (if event is Asked {
                1int
            } else {
                0int
            }),
{
    let step = read_step(path, code, d, event);
    match step {
        ReadStep::Ask { .. } => seq![step] + read_steps(
            path,
            code,
            d,
            ReadEvent::Replied(reply),
            reply,
        ),
        ReadStep::Done(_) => seq![step],
    }
}

/// A read of a write-only feature never reaches the monitor, and is no error: it
/// is one that is not readable. Any other asks the monitor once, for that code,
/// and comes to what the reply means.
pub proof fn law_reads_ask_at_most_once(
    path: Seq<char>,
    code: u8,
    d: Option<DescriptorView>,
    reply: Result<RawBytes, Seq<char>>,
)
    ensures
        read_steps(path, code, d, ReadEvent::Asked, reply) == (if write_only(d) {
            seq![ReadStep::Done(Ok(blank_reading(code, descriptor_name(d))))]
        } else {
            seq![ReadStep::Ask { code }, ReadStep::Done(read_reply(path, code, d, reply))]
        }),
        !blank_reading(code, descriptor_name(d)).readable,
{
    reveal_with_fuel(read_steps, 2);
}

// ---- writing -------------------------------------------------------------------

/// Whether a write is refused: the code is known not to be a recognized one,
/// and the caller does not permit that. Nothing is refused before the
/// monitor's capabilities have been read.
pub open spec fn refused(
    entries: Option<Map<u8, DescriptorView>>,
    code: u8,
    permit_unknown: bool,
) -> bool {
    !permit_unknown && entries is Some && described(entries->0, code) is None
}

/// What the database holds, where there is one yet.
pub open spec fn entries_of(db: Option<&mccs_db::Database>) -> Option<Map<u8, DescriptorView>> {
    match db {
        Some(db) => Some(database_entries(*db)),
        None => None,
    }
}

/// The result of a write, over the deep view of its failure.
pub open spec fn done(r: Result<(), BackendError>) -> Result<(), BackendErrorView> {
    match r {
        Ok(()) => Ok(()),
        Err(e) => Err(e.deep_view()),
    }
}

/// What a refused write is answered.
pub open spec fn refusal(path: Seq<char>, code: u8) -> BackendErrorView {
    BackendErrorView::Message(
        path + ": refusing to set unrecognized VCP code "@ + hex2(code as nat, false)
            + " without permit_unknown"@,
    )
}

/// Decides whether `code` may be written.
pub fn check_write(
    path: &str,
    db: Option<&mccs_db::Database>,
    code: u8,
    permit_unknown: bool,
) -> (r: Result<(), BackendError>)
    ensures
        r is Err <==> refused(entries_of(db), code, permit_unknown),
        r is Err ==> r->Err_0.deep_view() == refusal(path@, code),
{
    if !permit_unknown {
        if let Some(db) = db {
            if !describe(db, code).1 {
                let mut message = owned(path);
                message.append(": refusing to set unrecognized VCP code ");
                message.append(hex2_text(code as u16, false).as_str());
                message.append(" without permit_unknown");
                return Err(BackendError::msg(message.as_str()));
            }
        }
    }
    Ok(())
}

/// What every failure of a write starts with.
pub open spec fn set_vcp_label(path: Seq<char>, code: u8, value: u16) -> Seq<char> {
    path + ": setvcp "@ + hex2(code as nat, false) + " "@ + decimal(value as nat) + ": "@
}

fn write_label(path: &str, code: u8, value: u16) -> (r: String)
    ensures
        r@ == set_vcp_label(path@, code, value),
{
    let mut s = owned(path);
    s.append(": setvcp ");
    s.append(hex2_text(code as u16, false).as_str());
    s.append(" ");
    s.append(decimal_text(value as u64).as_str());
    s.append(": ");
    s
}

/// What a write that the transport could not send is answered.
pub open spec fn send_failure(
    path: Seq<char>,
    code: u8,
    value: u16,
    reason: Seq<char>,
) -> BackendErrorView {
    BackendErrorView::Message(set_vcp_label(path, code, value) + reason)
}

/// What a write that the transport could not send is answered.
pub fn write_failed(path: &str, code: u8, value: u16, reason: &str) -> (r: BackendError)
    ensures
        r.deep_view() == send_failure(path@, code, value, reason@),
{
    let mut message = write_label(path, code, value);
    message.append(reason);
    BackendError::msg(message.as_str())
}

/// What a write comes to once the transport took it, given what the monitor
/// then reports for the code: only a value that reads back as written is a
/// success.
pub open spec fn read_back(
    path: Seq<char>,
    code: u8,
    value: u16,
    readback: Result<RawBytes, Seq<char>>,
) -> Result<(), BackendErrorView> {
    match readback {
        Err(e) => Err(
            BackendErrorView::Message(
                set_vcp_label(path, code, value) + "verify read failed: "@ + e,
            ),
        ),
        Ok(v) => if word(v.sh, v.sl) == value {
            Ok(())
        } else {
            Err(
                BackendErrorView::Message(
                    set_vcp_label(path, code, value) + "monitor reports "@ + decimal(
                        word(v.sh, v.sl) as nat,
                    ) + " after write"@,
                ),
            )
        },
    }
}

/// What a write comes to once the transport took it, given what the monitor
/// then reports for the code. Some monitors accept a write and silently clamp
/// or ignore it: only a value that reads back as written is a success.
pub fn verify_write(
    path: &str,
    code: u8,
    value: u16,
    readback: Result<RawBytes, String>,
) -> (r: Result<(), BackendError>)
    ensures
        done(r) == read_back(path@, code, value, answered(readback)),
{
    match readback {
        Err(e) => {
            let mut message = write_label(path, code, value);
            message.append("verify read failed: ");
            message.append(e.as_str());
            Err(BackendError::msg(message.as_str()))
        },
        Ok(v) => {
            let now: u16 = join(v.sh, v.sl);
            if now == value {
                return Ok(());
            }
            let mut message = write_label(path, code, value);
            message.append("monitor reports ");
            message.append(decimal_text(now as u64).as_str());
            message.append(" after write");
            Err(BackendError::msg(message.as_str()))
        },
    }
}

/// What has happened of a write so far.
#[derive(Debug)]
pub enum WriteEvent<S> {
    /// It is asked for.
    Asked,
    /// The value was sent to the monitor, or could not be.
    Sent(Result<(), S>),
    /// The monitor then replied to a read of the code, or did not.
    ReadBack(Result<RawBytes, S>),
}

impl DeepView for WriteEvent<String> {
    type V = WriteEvent<Seq<char>>;

    open spec fn deep_view(&self) -> WriteEvent<Seq<char>> {
        match *self {
            WriteEvent::Asked => WriteEvent::Asked,
            WriteEvent::Sent(sent) => WriteEvent::Sent(answered(sent)),
            WriteEvent::ReadBack(reply) => WriteEvent::ReadBack(answered(reply)),
        }
    }
}

/// What a write does next.
#[derive(Debug)]
pub enum WriteStep<E> {
    /// Sends a value for a code to the monitor.
    Send { code: u8, value: u16 },
    /// Reads the value of a code from the monitor.
    Read { code: u8 },
    /// Is over.
    Done(Result<(), E>),
}

impl DeepView for WriteStep<BackendError> {
    type V = WriteStep<BackendErrorView>;

    open spec fn deep_view(&self) -> WriteStep<BackendErrorView> {
        match *self {
            WriteStep::Send { code, value } => WriteStep::Send { code, value },
            WriteStep::Read { code } => WriteStep::Read { code },
            WriteStep::Done(r) => WriteStep::Done(done(r)),
        }
    }
}

/// What a write does next: it sends the value unless it is refused, reads it back
/// once it was sent, and is over with what was read back.
pub open spec fn write_step(
    path: Seq<char>,
    entries: Option<Map<u8, DescriptorView>>,
    code: u8,
    value: u16,
    permit_unknown: bool,
    event: WriteEvent<Seq<char>>,
) -> WriteStep<BackendErrorView> {
    match event {
        WriteEvent::Asked => if refused(entries, code, permit_unknown) {
            WriteStep::Done(Err(refusal(path, code)))
        } else {
            WriteStep::Send { code, value }
        },
        WriteEvent::Sent(Err(e)) => WriteStep::Done(Err(send_failure(path, code, value, e))),
        WriteEvent::Sent(Ok(())) => WriteStep::Read { code },
        WriteEvent::ReadBack(reply) => WriteStep::Done(read_back(path, code, value, reply)),
    }
}

/// What a write does next, from when it is asked for until it is over.
pub fn set_vcp_step(
    path: &str,
    db: Option<&mccs_db::Database>,
    code: u8,
    value: u16,
    permit_unknown: bool,
    event: WriteEvent<String>,
) -> (r: WriteStep<BackendError>)
    ensures
        r.deep_view() == write_step(
            path@,
            entries_of(db),
            code,
            value,
            permit_unknown,
            event.deep_view(),
        ),
{
    match event {
        WriteEvent::Asked => match check_write(path, db, code, permit_unknown) {
            Ok(()) => WriteStep::Send { code, value },
            Err(e) => WriteStep::Done(Err(e)),
        },
        WriteEvent::Sent(sent) => match sent {
            Ok(()) => WriteStep::Read { code },
            Err(e) => WriteStep::Done(Err(write_failed(path, code, value, e.as_str()))),
        },
        WriteEvent::ReadBack(reply) => WriteStep::Done(verify_write(path, code, value, reply)),
    }
}

/// The steps of a write from some event on, where sending it and reading it back
/// come to this once they are done.
pub open spec fn write_steps(
    path: Seq<char>,
    entries: Option<Map<u8, DescriptorView>>,
    code: u8,
    value: u16,
    permit_unknown: bool,
    event: WriteEvent<Seq<char>>,
    sent: Result<(), Seq<char>>,
    reply: Result<RawBytes, Seq<char>>,
) -> Seq<WriteStep<BackendErrorView>>
    decreases
            (match event {
                WriteEvent::Asked => 2int,
                WriteEvent::Sent(_) => 1int,
                WriteEvent::ReadBack(_) => 0int,
            }),
{
    let step = write_step(path, entries, code, value, permit_unknown, event);
    match step {
        WriteStep::Send { .. } => seq![step] + write_steps(
            path,
            entries,
            code,
            value,
            permit_unknown,
            WriteEvent::Sent(sent),
            sent,
            reply,
        ),
        WriteStep::Read { .. } => seq![step] + write_steps(
            path,
            entries,
            code,
            value,
            permit_unknown,
            WriteEvent::ReadBack(reply),
            sent,
            reply,
        ),
        WriteStep::Done(_) => seq![step],
    }
}

/// A refused write ends at once: nothing is sent to the monitor or read from it.
/// Any other sends the value once; where that failed the write failed, and else
/// the code is read back once, which decides.
pub proof fn law_refused_writes_are_not_sent(
    path: Seq<char>,
    entries: Option<Map<u8, DescriptorView>>,
    code: u8,
    value: u16,
    permit_unknown: bool,
    sent: Result<(), Seq<char>>,
    reply: Result<RawBytes, Seq<char>>,
)
    ensures
        write_steps(
            path,
            entries,
            code,
            value,
            permit_unknown,
            WriteEvent::Asked,
            sent,
            reply,
        ) == (if refused(entries, code, permit_unknown) {
            seq![WriteStep::Done(Err(refusal(path, code)))]
        } else {
            match sent {
                Err(e) => seq![
                    WriteStep::Send { code, value },
                    WriteStep::Done(Err(send_failure(path, code, value, e))),
                ],
                Ok(()) => seq![
                    WriteStep::Send { code, value },
                    WriteStep::Read { code },
                    WriteStep::Done(read_back(path, code, value, reply)),
                ],
            }
        }),
{
    reveal_with_fuel(write_steps, 3);
}

/// A write succeeds exactly where it is not refused, could be sent, and reads
/// back as the value that was written: a success means that the monitor actually
/// changed.
pub proof fn law_written_means_changed(
    path: Seq<char>,
    entries: Option<Map<u8, DescriptorView>>,
    code: u8,
    value: u16,
    permit_unknown: bool,
    sent: Result<(), Seq<char>>,
    reply: Result<RawBytes, Seq<char>>,
)
    ensures
        ({
            let steps = write_steps(
                path,
                entries,
                code,
                value,
                permit_unknown,
                WriteEvent::Asked,
                sent,
                reply,
            );
            &&& steps.last() is Done
            &&& steps.last() == WriteStep::<BackendErrorView>::Done(Ok(())) <==> !refused(
                entries,
                code,
                permit_unknown,
            ) && sent is Ok && (reply matches Ok(v) && word(v.sh, v.sl) == value)
        }),
{
    law_refused_writes_are_not_sent(path, entries, code, value, permit_unknown, sent, reply);
}

// ---- what it is all for --------------------------------------------------------

/// What is known of a code, as it is used for reading: an entry of the database
/// stays as it is but for a well-known name where it has none. Where there is no
/// entry, the well-known codes are known, to be read and written.
pub proof fn law_database_entries_are_used(entries: Map<u8, DescriptorView>, code: u8)
    ensures
        ({
            let d = resolved(entries, code);
            &&& entries.dom().contains(code) ==> d is Some && d->0.ty == entries[code].ty
                && d->0.access == entries[code].access
            &&& entries.dom().contains(code) && entries[code].name is Some ==> d == Some(
                entries[code],
            )
            &&& d is Some && d->0.name is Some <==> has_meaning(entries, code)
            &&& d is None <==> !entries.dom().contains(code) && !is_well_known(code)
            &&& d is Some && (!entries.dom().contains(code) || entries[code].name is None)
                && is_well_known(code) ==> is_called(code, d->0.name->0)
            &&& !entries.dom().contains(code) && is_well_known(code) ==> d->0.access
                == Access::ReadWrite && d->0.code == code && (d->0.ty is Continuous <==> code == 0x10
                || code == 0x12 || code == 0x16 || code == 0x18 || code == 0x1a || code == 0x62)
        }),
{
}

/// What a reply means: always something that could be read, for the code that was
/// asked for. A continuous feature has its value in the low pair of bytes and its
/// maximum in the high pair, high byte first; a non-continuous one has its value
/// in the last byte. Of anything else all four bytes are kept.
pub proof fn law_replies_are_read_by_their_type(code: u8, d: Option<DescriptorView>, v: RawBytes)
    ensures
        ({
            let r = reading_from(code, d, v);
            &&& r.code == code && r.readable && !r.generic
            &&& d is Some && d->0.name is Some ==> r.name == d->0.name->0
            &&& d is None || d->0.name is None ==> r.name.len() == 0
            &&& r.continuous <==> d is Some && d->0.ty is Continuous
            &&& r.continuous ==> r.current == v.sh * 256 + v.sl && r.max == v.mh * 256 + v.ml
                && r.raw is None
            &&& !r.continuous ==> r.current == v.sl
            &&& d is Some && d->0.ty is NonContinuous ==> r.raw is None
            &&& !r.continuous ==> r.max == 0
            &&& d is None || !(d->0.ty is NonContinuous) ==> r.label.len() == 0
            &&& d is None || d->0.ty is Table || d->0.ty is Unknown ==> r.raw == Some(v)
        }),
{
}

/// The label of a non-continuous value is the name that its first listing gives;
/// a value that is not listed, or not named, has none.
pub proof fn law_labels_are_the_names_of_values(
    code: u8,
    d: DescriptorView,
    v: RawBytes,
    values: Seq<crate::backend::mccs_data::ValueNameView>,
    k: int,
)
    requires
        d.ty == ValueTypeView::NonContinuous(values),
    ensures
        0 <= k < values.len() && values[k].code == v.sl && (forall|j: int|
            0 <= j < k ==> (#[trigger] values[j]).code != v.sl) ==> reading_from(
            code,
            Some(d),
            v,
        ).label == (match values[k].name {
            Some(name) => name,
            None => Seq::empty(),
        }),
        (forall|j: int| 0 <= j < values.len() ==> (#[trigger] values[j]).code != v.sl)
            ==> reading_from(code, Some(d), v).label.len() == 0,
{
    if 0 <= k < values.len() && values[k].code == v.sl && (forall|j: int|
        0 <= j < k ==> (#[trigger] values[j]).code != v.sl) {
        lemma_value_name(values, v.sl, k);
    }
    if forall|j: int| 0 <= j < values.len() ==> (#[trigger] values[j]).code != v.sl {
        lemma_no_value_name(values, v.sl);
    }
}

proof fn lemma_value_name(
    values: Seq<crate::backend::mccs_data::ValueNameView>,
    code: u8,
    k: int,
)
    requires
        0 <= k < values.len(),
        values[k].code == code,
        forall|j: int| 0 <= j < k ==> (#[trigger] values[j]).code != code,
    ensures
        value_name(values, code) == values[k].name,
    decreases values.len(),
{
    if k > 0 {
        assert(values[0].code != code);
        assert forall|j: int| 0 <= j < k - 1 implies (#[trigger] values.skip(1)[j]).code
            != code by {
            assert(values[j + 1].code != code);
        }
        lemma_value_name(values.skip(1), code, k - 1);
    }
}

proof fn lemma_no_value_name(values: Seq<crate::backend::mccs_data::ValueNameView>, code: u8)
    requires
        forall|j: int| 0 <= j < values.len() ==> (#[trigger] values[j]).code != code,
    ensures
        value_name(values, code) is None,
    decreases values.len(),
{
    if values.len() > 0 {
        assert(values[0].code != code);
        assert forall|j: int| 0 <= j < values.skip(1).len() implies (#[trigger] values.skip(
            1,
        )[j]).code != code by {
            assert(values[j + 1].code != code);
        }
        lemma_no_value_name(values.skip(1), code);
    }
}

/// A reading is not readable exactly where the feature is write-only: then the
/// monitor is never asked. Any other read asks for the code, succeeds exactly
/// where the monitor replied, and else says why it did not.
pub proof fn law_only_write_only_features_are_not_readable(
    path: Seq<char>,
    code: u8,
    d: Option<DescriptorView>,
    reply: Result<RawBytes, Seq<char>>,
)
    ensures
        ({
            let first = read_step(path, code, d, ReadEvent::Asked);
            let then = read_step(path, code, d, ReadEvent::Replied(reply));
            let hidden = d is Some && d->0.access == Access::WriteOnly;
            &&& hidden <==> first is Done
            &&& hidden ==> first->Done_0 is Ok && !first->Done_0->Ok_0.readable
                && first->Done_0->Ok_0.code == code && (d->0.name is Some
                ==> first->Done_0->Ok_0.name == d->0.name->0)
            &&& !hidden ==> first == (ReadStep::<FeatureReadingView, BackendErrorView>::Ask { code })
            &&& then is Done
            &&& then->Done_0 is Ok <==> reply is Ok
            &&& reply is Ok ==> then->Done_0->Ok_0.readable && then->Done_0->Ok_0.code == code
            &&& reply matches Err(e) ==> then->Done_0->Err_0 is Message && ends_with(
                then->Done_0->Err_0->Message_0,
                e,
            ) && starts_with(then->Done_0->Err_0->Message_0, path)
        }),
{
    if let Err(e) = reply {
        let text = path + ": getvcp "@ + hex2(code as nat, false) + ": "@ + e;
        assert(text.skip(text.len() - e.len()) =~= e);
        assert(text.take(path.len() as int) =~= path);
    }
}

/// A write is refused exactly where it is for a code that is known to mean
/// nothing and that the caller does not permit. Nothing is known before the
/// capabilities have been read. What is not refused is sent as it is: that code,
/// that value.
pub proof fn law_only_meaningless_codes_are_refused(
    path: Seq<char>,
    entries: Option<Map<u8, DescriptorView>>,
    code: u8,
    value: u16,
    permit_unknown: bool,
)
    ensures
        ({
            let first = write_step(path, entries, code, value, permit_unknown, WriteEvent::Asked);
            let refuses = !permit_unknown && entries is Some && !has_meaning(entries->0, code);
            &&& refuses ==> first is Done && first->Done_0 is Err
            &&& !refuses ==> first == (WriteStep::<BackendErrorView>::Send { code, value })
        }),
{
}

/// A value that was sent is read back under its code, and the write succeeds
/// exactly where the low pair of bytes then spells that value. Every failure says
/// on which bus, and, where the transport gave a reason, which.
pub proof fn law_a_write_succeeds_where_it_reads_back(
    path: Seq<char>,
    entries: Option<Map<u8, DescriptorView>>,
    code: u8,
    value: u16,
    permit_unknown: bool,
    sent: Result<(), Seq<char>>,
    reply: Result<RawBytes, Seq<char>>,
)
    ensures
        ({
            let next = write_step(
                path,
                entries,
                code,
                value,
                permit_unknown,
                WriteEvent::Sent(sent),
            );
            let last = write_step(
                path,
                entries,
                code,
                value,
                permit_unknown,
                WriteEvent::ReadBack(reply),
            );
            &&& sent is Ok ==> next == (WriteStep::<BackendErrorView>::Read { code })
            &&& sent matches Err(e) ==> next is Done && next->Done_0 is Err
                && next->Done_0->Err_0 is Message && ends_with(next->Done_0->Err_0->Message_0, e)
                && starts_with(next->Done_0->Err_0->Message_0, path)
            &&& last is Done
            &&& last->Done_0 is Ok <==> (reply matches Ok(v) && v.sh * 256 + v.sl == value)
            &&& reply matches Err(e) ==> last->Done_0 is Err && last->Done_0->Err_0 is Message
                && ends_with(last->Done_0->Err_0->Message_0, e)
        }),
{
    let label = set_vcp_label(path, code, value);
    if let Err(e) = sent {
        let text = label + e;
        assert(text.skip(text.len() - e.len()) =~= e);
        assert(text.take(path.len() as int) =~= path);
    }
    if let Err(e) = reply {
        let text = label + "verify read failed: "@ + e;
        assert(text.skip(text.len() - e.len()) =~= e);
    }
}

/// Displays are numbered from 1 in the order in which their monitors were found,
/// and each says where its monitor is and what it is called.
pub proof fn law_displays_show_their_monitors(f: Found, i: int)
    requires
        0 <= i < i32::MAX,
    ensures
        ({
            let d = display_of(f, i);
            &&& d.number == i + 1 && d.bus == f.path@ && d.mfg_id == f.mfg_id@ && d.model
                == f.model@
            &&& d.connector.len() == 0
            &&& d.vcp_version == decimal(f.version.major as nat) + "."@ + decimal(
                f.version.minor as nat,
            )
        }),
{
}

/// A monitor is called by the vendor of its EDID block, and by the last product
/// name among its descriptors; the rest of them does not matter. Without a block
/// it has no name.
pub proof fn law_the_last_product_name_counts(b: EdidBlockView, k: int, name: Seq<char>)
    requires
        0 <= k < b.descriptors.len(),
        b.descriptors[k] == EdidDescriptorView::ProductName(name),
        forall|j: int|
            k < j < b.descriptors.len() ==> #[trigger] b.descriptors[j]
                == EdidDescriptorView::Other,
    ensures
        identity_of(Some(b)) == (b.vendor, name),
        identity_of(None) == (Seq::<char>::empty(), Seq::<char>::empty()),
{
    lemma_product_name(b.descriptors, k, name);
}

proof fn lemma_product_name(descriptors: Seq<EdidDescriptorView>, k: int, name: Seq<char>)
    requires
        0 <= k < descriptors.len(),
        descriptors[k] == EdidDescriptorView::ProductName(name),
        forall|j: int|
            k < j < descriptors.len() ==> #[trigger] descriptors[j] == EdidDescriptorView::Other,
    ensures
        product_name(descriptors) == name,
    decreases descriptors.len(),
{
    if k < descriptors.len() - 1 {
        assert(descriptors[descriptors.len() - 1] == EdidDescriptorView::Other);
        assert forall|j: int| k < j < descriptors.drop_last().len() implies
            #[trigger] descriptors.drop_last()[j] == EdidDescriptorView::Other by {
            assert(descriptors[j] == EdidDescriptorView::Other);
        }
        lemma_product_name(descriptors.drop_last(), k, name);
    }
}

/// The buses are the devices whose names start like one, each as often as it
/// comes; a device joins them, or not, whatever came before it.
pub proof fn law_only_buses_are_looked_at(names: Seq<Seq<char>>, name: Seq<char>)
    ensures
        buses_among(names).contains(name) <==> names.contains(name) && starts_with(name, "i2c-"@),
        buses_among(names.push(name)) == (if starts_with(name, "i2c-"@) {
            buses_among(names).push(name)
        } else {
            buses_among(names)
        }),
        buses_among(Seq::empty()).len() == 0,
{
    lemma_buses(names, name);
    assert(names.push(name).drop_last() =~= names);
}

proof fn lemma_buses(names: Seq<Seq<char>>, name: Seq<char>)
    ensures
        buses_among(names).contains(name) <==> names.contains(name) && starts_with(name, "i2c-"@),
    decreases names.len(),
{
    broadcast use vstd::seq_lib::group_seq_properties;

    if names.len() > 0 {
        let rest = names.drop_last();
        lemma_buses(rest, name);
        assert(names =~= rest.push(names.last()));
    }
}

/// Texts are ordered by the first character in which they differ; one that the
/// other goes on from comes first.
pub proof fn law_order_is_by_the_first_difference(a: Seq<char>, b: Seq<char>, k: int)
    requires
        0 <= k <= a.len() && k <= b.len(),
        a.take(k) == b.take(k),
        k < a.len() && k < b.len() ==> a[k] != b[k],
    ensures
        k == a.len() ==> text_le(a, b),
        k == b.len() && k < a.len() ==> !text_le(a, b),
        k < a.len() && k < b.len() ==> (text_le(a, b) <==> a[k] < b[k]),
    decreases k,
{
    if k > 0 {
        assert(a[0] == a.take(k)[0]);
        assert(b[0] == b.take(k)[0]);
        assert(a.skip(1).take(k - 1) =~= a.take(k).skip(1));
        assert(b.skip(1).take(k - 1) =~= b.take(k).skip(1));
        law_order_is_by_the_first_difference(a.skip(1), b.skip(1), k - 1);
    }
}

/// The features are listed for the version that the capability string declares,
/// and for the one that the monitor reported live only where it declares none.
pub proof fn law_declared_version_selects_the_features(raw: RawCapabilitiesView, live: Version)
    ensures
        raw.mccs_version matches Some(v) ==> database_version(raw, live) == v,
        raw.mccs_version is None ==> database_version(raw, live) == live,
{
}

/// Whether a text tells of a write of `value` to `code` on the bus at `path`; the
/// value ends at `end`.
pub open spec fn tells_of_write(
    text: Seq<char>,
    path: Seq<char>,
    code: u8,
    value: u16,
    end: int,
) -> bool {
    let n: int = (path.len() + ": setvcp "@.len()) as int;
    &&& n + 3 <= end < text.len()
    &&& starts_with(text, path + ": setvcp "@)
    &&& hex_byte(text.subrange(n, n + 2)) == Some(code) && text[n + 2] == ' '
    &&& parsed(text.subrange(n + 3, end), 10, 0xffff) == Some(value as nat) && text[end] == ':'
}

proof fn lemma_label_tells(
    path: Seq<char>,
    code: u8,
    value: u16,
    rest: Seq<char>,
) -> (end: int)
    ensures
        tells_of_write(set_vcp_label(path, code, value) + rest, path, code, value, end),
{
    let label = set_vcp_label(path, code, value);
    let text = label + rest;
    let h = hex2(code as nat, false);
    let v = decimal(value as nat);
    let n: int = (path.len() + ": setvcp "@.len()) as int;
    let end: int = n + 3 + v.len();
    law_codes_read_back(code, false);
    law_bytes_are_two_digits(code as nat / 16, code as nat % 16, false);
    assert(16 * (code as nat / 16) + code as nat % 16 == code);
    law_numbers_read_back(value as nat, 10, false, 0xffff);
    reveal_strlit(" ");
    reveal_strlit(": ");
    assert(text.take(n) =~= path + ": setvcp "@);
    assert(text.subrange(n, n + 2) =~= h);
    assert(text.subrange(n + 3, end) =~= v);
    end
}

/// A write that failed says which code it was for and which value, whether it could
/// not be sent, could not be read back, or reads back as something else.
pub proof fn law_failed_writes_say_what_was_written(
    path: Seq<char>,
    entries: Option<Map<u8, DescriptorView>>,
    code: u8,
    value: u16,
    permit_unknown: bool,
    event: WriteEvent<Seq<char>>,
) -> (end: int)
    ensures
        ({
            let step = write_step(path, entries, code, value, permit_unknown, event);
            !(event is Asked) && step is Done && step->Done_0 is Err ==> step->Done_0->Err_0
                is Message && tells_of_write(
                step->Done_0->Err_0->Message_0,
                path,
                code,
                value,
                end,
            ) && (event matches WriteEvent::ReadBack(Ok(v)) ==> ends_with(
                step->Done_0->Err_0->Message_0,
                decimal((v.sh * 256 + v.sl) as nat) + " after write"@,
            ))
        }),
{
    let step = write_step(path, entries, code, value, permit_unknown, event);
    if !(event is Asked) && step is Done && step->Done_0 is Err {
        let label = set_vcp_label(path, code, value);
        let text = step->Done_0->Err_0->Message_0;
        let rest = text.skip(label.len() as int);
        assert(text =~= label + rest);
        if let WriteEvent::ReadBack(Ok(v)) = event {
            let end = decimal((v.sh * 256 + v.sl) as nat) + " after write"@;
            assert(text.skip(text.len() - end.len()) =~= end);
        }
        lemma_label_tells(path, code, value, rest)
    } else {
        0
    }
}

/// A write that is refused says on which bus, and for which code.
pub proof fn law_refused_writes_name_the_code(
    path: Seq<char>,
    entries: Option<Map<u8, DescriptorView>>,
    code: u8,
    value: u16,
    permit_unknown: bool,
)
    ensures
        ({
            let step = write_step(path, entries, code, value, permit_unknown, WriteEvent::Asked);
            let said = path + ": refusing to set unrecognized VCP code "@;
            step is Done ==> {
                &&& step->Done_0 is Err && step->Done_0->Err_0 is Message
                &&& starts_with(step->Done_0->Err_0->Message_0, said)
                &&& hex_byte(
                    step->Done_0->Err_0->Message_0.subrange(said.len() as int, said.len() + 2int),
                ) == Some(code)
                &&& ends_with(step->Done_0->Err_0->Message_0, " without permit_unknown"@)
            }
        }),
{
    let said = path + ": refusing to set unrecognized VCP code "@;
    let h = hex2(code as nat, false);
    let end = " without permit_unknown"@;
    let text = said + h + end;
    law_codes_read_back(code, false);
    law_bytes_are_two_digits(code as nat / 16, code as nat % 16, false);
    assert(16 * (code as nat / 16) + code as nat % 16 == code);
    assert(text.take(said.len() as int) =~= said);
    assert(text.subrange(said.len() as int, said.len() + 2int) =~= h);
    assert(text.skip(text.len() - end.len()) =~= end);
}

/// A failure to get at a monitor's capabilities says on which bus, and why.
pub proof fn law_capability_failures_are_told(path: Seq<char>, reason: Seq<char>)
    ensures
        capabilities_failure(path, reason) is Message,
        starts_with(capabilities_failure(path, reason)->Message_0, path + ": capabilities: "@),
        ends_with(capabilities_failure(path, reason)->Message_0, reason),
{
    let said = path + ": capabilities: "@;
    let text = said + reason;
    assert(text.take(said.len() as int) =~= said);
    assert(text.skip(text.len() - reason.len()) =~= reason);
}

} // verus!
