//! What a monitor's capability string and the MCCS feature database say, as
//! plain values, and the calls into the crates that read them.

use vstd::prelude::*;

use crate::text::deep;

verus! {

// ---- plain values --------------------------------------------------------------

/// A version of the MCCS feature set.
#[derive(Debug, Clone, Copy, PartialEq, Eq, Structural)]
pub struct Version {
    pub major: u8,
    pub minor: u8,
}

/// The operations allowed on a feature.
#[derive(Debug, Clone, Copy, PartialEq, Eq, Structural)]
pub enum Access {
    ReadOnly,
    WriteOnly,
    ReadWrite,
}

/// A value a feature can take, and its name where it has one.
#[derive(Debug)]
pub struct ValueName {
    pub code: u8,
    pub name: Option<String>,
}

pub struct ValueNameView {
    pub code: u8,
    pub name: Option<Seq<char>>,
}

impl DeepView for ValueName {
    type V = ValueNameView;

    open spec fn deep_view(&self) -> ValueNameView {
        ValueNameView { code: self.code, name: self.name.deep_view() }
    }
}

/// The type of a feature's data. The values of a non-continuous feature are in
/// ascending order of their codes.
#[derive(Debug)]
pub enum ValueType {
    Unknown,
    Continuous,
    NonContinuous(Vec<ValueName>),
    Table,
}

pub enum ValueTypeView {
    Unknown,
    Continuous,
    NonContinuous(Seq<ValueNameView>),
    Table,
}

impl DeepView for ValueType {
    type V = ValueTypeView;

    open spec fn deep_view(&self) -> ValueTypeView {
        match *self {
            ValueType::Unknown => ValueTypeView::Unknown,
            ValueType::Continuous => ValueTypeView::Continuous,
            ValueType::NonContinuous(values) => ValueTypeView::NonContinuous(deep(values@)),
            ValueType::Table => ValueTypeView::Table,
        }
    }
}

/// What is known of a feature.
#[derive(Debug)]
pub struct Descriptor {
    pub name: Option<String>,
    pub code: u8,
    pub ty: ValueType,
    pub access: Access,
}

pub struct DescriptorView {
    pub name: Option<Seq<char>>,
    pub code: u8,
    pub ty: ValueTypeView,
    pub access: Access,
}

impl DeepView for Descriptor {
    type V = DescriptorView;

    open spec fn deep_view(&self) -> DescriptorView {
        DescriptorView {
            name: self.name.deep_view(),
            code: self.code,
            ty: self.ty.deep_view(),
            access: self.access,
        }
    }
}

/// A feature as a capability string declares it.
#[derive(Debug)]
pub struct RawFeature {
    pub code: u8,
    pub name: Option<String>,
    pub values: Vec<ValueName>,
}

pub struct RawFeatureView {
    pub code: u8,
    pub name: Option<Seq<char>>,
    pub values: Seq<ValueNameView>,
}

impl DeepView for RawFeature {
    type V = RawFeatureView;

    open spec fn deep_view(&self) -> RawFeatureView {
        RawFeatureView {
            code: self.code,
            name: self.name.deep_view(),
            values: deep(self.values@),
        }
    }
}

/// What a capability string declares.
#[derive(Debug)]
pub struct RawCapabilities {
    pub model: Option<String>,
    pub mccs_version: Option<Version>,
    pub features: Vec<RawFeature>,
}

pub struct RawCapabilitiesView {
    pub model: Option<Seq<char>>,
    pub mccs_version: Option<Version>,
    pub features: Seq<RawFeatureView>,
}

impl DeepView for RawCapabilities {
    type V = RawCapabilitiesView;

    open spec fn deep_view(&self) -> RawCapabilitiesView {
        RawCapabilitiesView {
            model: self.model.deep_view(),
            mccs_version: self.mccs_version,
            features: deep(self.features@),
        }
    }
}

/// Whether the values are in strictly ascending order of their codes.
pub open spec fn values_ascend(values: Seq<ValueNameView>) -> bool {
    forall|i: int, j: int|
        0 <= i < j < values.len() ==> (#[trigger] values[i]).code < (#[trigger] values[j]).code
}

/// Whether the features are in strictly ascending order of their codes, and so
/// are the values of each.
pub open spec fn ascends(features: Seq<RawFeatureView>) -> bool {
    &&& forall|i: int, j: int|
        0 <= i < j < features.len() ==> (#[trigger] features[i]).code < (
        #[trigger] features[j]).code
    &&& forall|i: int| 0 <= i < features.len() ==> values_ascend((#[trigger] features[i]).values)
}

/// The name of a value; `None` where it has none or is not listed.
pub open spec fn value_name(values: Seq<ValueNameView>, code: u8) -> Option<Seq<char>>
    decreases values.len(),
{
    if values.len() == 0 {
        None
    } else if values[0].code == code {
        values[0].name
    } else {
        value_name(values.skip(1), code)
    }
}

// ---- capability strings --------------------------------------------------------

/// What the capability string `bytes` declares, or why it cannot be read.
pub uninterp spec fn capability_string(bytes: Seq<u8>) -> Result<RawCapabilitiesView, Seq<char>>;

/// `mccs_caps::parse_capabilities`: reads a capability string. What it declares
/// depends on the bytes alone; its features, and the values of each, come out
/// of ordered maps and so in strictly ascending order. How the string is read
/// is that crate's business and is not stated here.
#[verifier::external_body]
pub(crate) fn parse_capability_string(bytes: &[u8]) -> (r: Result<RawCapabilities, String>)
    ensures
        r is Ok ==> capability_string(bytes@) == Ok::<RawCapabilitiesView, Seq<char>>(
            r->Ok_0.deep_view(),
        ) && ascends(r->Ok_0.deep_view().features),
        r is Err ==> capability_string(bytes@) == Err::<RawCapabilitiesView, Seq<char>>(
            r->Err_0@,
        ),
{
    let raw = mccs_caps::parse_capabilities(bytes).map_err(|e| e.to_string())?;
    let value = |(code, name)| ValueName { code, name };
    let feature = |(code, d): (u8, mccs::VcpDescriptor)| RawFeature {
        code,
        name: d.name,
        values: d.values.into_iter().map(value).collect(),
    };
    Ok(RawCapabilities {
        model: raw.model,
        mccs_version: raw.mccs_version.map(|v| Version { major: v.major, minor: v.minor }),
        features: raw.vcp_features.into_iter().map(feature).collect(),
    })
}

// ---- the feature database ------------------------------------------------------

#[verifier::external_type_specification]
#[verifier::external_body]
pub struct ExDatabase(mccs_db::Database);

/// What a database holds, by feature code.
pub uninterp spec fn database_entries(db: mccs_db::Database) -> Map<u8, DescriptorView>;

/// The features that the bundled database lists for a version.
pub uninterp spec fn listed_features(major: u8, minor: u8) -> Map<u8, DescriptorView>;

/// `mccs_db::Database::from_version`: the features that the database bundled
/// with that crate lists for a version. Which they are depends on the version
/// alone.
#[verifier::external_body]
pub(crate) fn database_for(version: Version) -> (r: mccs_db::Database)
    ensures
        database_entries(r) == listed_features(version.major, version.minor),
{
    mccs_db::Database::from_version(&mccs::Version::new(version.major, version.minor))
}

/// A listed feature, narrowed to what a capability string declares of it: the
/// string's own names win, and only the values it declares stay.
pub open spec fn narrowed(d: DescriptorView, cap: RawFeatureView) -> DescriptorView {
    DescriptorView {
        name: if cap.name is Some {
            cap.name
        } else {
            d.name
        },
        ty: match d.ty {
            ValueTypeView::NonContinuous(listed) => ValueTypeView::NonContinuous(
                cap.values.map_values(
                    |v: ValueNameView|
                        ValueNameView {
                            code: v.code,
                            name: if v.name is Some {
                                v.name
                            } else {
                                value_name(listed, v.code)
                            },
                        },
                ),
            ),
            _ => d.ty,
        },
        ..d
    }
}

/// A feature that only a capability string knows of: non-continuous where it
/// declares values, else continuous.
pub open spec fn inferred(cap: RawFeatureView) -> DescriptorView {
    DescriptorView {
        name: cap.name,
        code: cap.code,
        ty: if cap.values.len() == 0 {
            ValueTypeView::Continuous
        } else {
            ValueTypeView::NonContinuous(cap.values)
        },
        access: Access::ReadWrite,
    }
}

/// Whether `after` is what is left of `before` for a monitor that declares
/// these features: exactly the declared codes, each narrowed where it was
/// listed and inferred where it was not.
pub open spec fn filtered(
    before: Map<u8, DescriptorView>,
    features: Seq<RawFeatureView>,
    after: Map<u8, DescriptorView>,
) -> bool {
    &&& forall|code: u8| #[trigger]
        after.dom().contains(code) <==> exists|i: int|
            0 <= i < features.len() && (#[trigger] features[i]).code == code
    &&& forall|i: int|
        0 <= i < features.len() ==> after[(#[trigger] features[i]).code] == (
        if before.dom().contains(features[i].code) {
            narrowed(before[features[i].code], features[i])
        } else {
            inferred(features[i])
        })
}

/// `mccs_db::Database::apply_capabilities`: filters out the feature codes and
/// values that a monitor does not declare, and adds the codes that the database
/// does not list.
#[verifier::external_body]
pub(crate) fn apply_capabilities(db: &mut mccs_db::Database, caps: &RawCapabilities)
    requires
        ascends(caps.deep_view().features),
    ensures
        filtered(
            database_entries(*old(db)),
            caps.deep_view().features,
            database_entries(*final(db)),
        ),
{
    let mut declared = mccs::Capabilities::default();
    declared.vcp_features = caps.features.iter().map(|f| (f.code, mccs::VcpDescriptor {
        name: f.name.clone(),
        values: f.values.iter().map(|v| (v.code, v.name.clone())).collect(),
    })).collect();
    db.apply_capabilities(&declared);
}

/// `mccs_db::Database::get`: what the database holds for a code.
#[verifier::external_body]
pub(crate) fn lookup(db: &mccs_db::Database, code: u8) -> (r: Option<Descriptor>)
    ensures
        r is Some <==> database_entries(*db).dom().contains(code),
        r is Some ==> r->0.deep_view() == database_entries(*db)[code],
{
    let value = |(code, name): (&u8, &Option<String>)| ValueName { code: *code, name: name.clone() };
    db.get(code).map(|d| Descriptor {
        name: d.name.clone(),
        code: d.code,
        ty: match &d.ty {
            mccs_db::ValueType::Unknown => ValueType::Unknown,
            mccs_db::ValueType::Continuous { .. } => ValueType::Continuous,
            mccs_db::ValueType::NonContinuous { values, .. } => ValueType::NonContinuous(values.iter().map(value).collect()),
            mccs_db::ValueType::Table { .. } => ValueType::Table,
        },
        access: match d.access { mccs_db::Access::ReadOnly => Access::ReadOnly, mccs_db::Access::WriteOnly => Access::WriteOnly, mccs_db::Access::ReadWrite => Access::ReadWrite },
    })
}

/// The database for a monitor, by what its capability string declares.
pub open spec fn is_database_for(
    db: mccs_db::Database,
    features: Seq<RawFeatureView>,
    version: Version,
) -> bool {
    filtered(
        listed_features(version.major, version.minor),
        features,
        database_entries(db),
    )
}

/// Builds the database for a monitor: the features listed for the given version,
/// filtered by what the monitor declares.
pub fn build_database(caps: &RawCapabilities, version: Version) -> (r: mccs_db::Database)
    requires
        ascends(caps.deep_view().features),
    ensures
        is_database_for(r, caps.deep_view().features, version),
{
    let mut db = database_for(version);
    apply_capabilities(&mut db, caps);
    db
}

// ---- laws ----------------------------------------------------------------------

/// The database for a monitor holds exactly the codes that the monitor declares.
/// One that is listed for the version keeps its name, unless the monitor gives one,
/// and what may be done with it; one that is not is continuous exactly where the
/// monitor declares no values for it. Only declared values are left of a feature
/// that is not continuous.
pub proof fn law_the_database_holds_what_is_declared(
    db: mccs_db::Database,
    features: Seq<RawFeatureView>,
    version: Version,
    i: int,
    code: u8,
)
    requires
        is_database_for(db, features, version),
        0 <= i < features.len(),
    ensures
        ({
            let listed = listed_features(version.major, version.minor);
            let entries = database_entries(db);
            let f = features[i];
            let d = entries[f.code];
            &&& entries.dom().contains(code) <==> exists|k: int|
                0 <= k < features.len() && (#[trigger] features[k]).code == code
            &&& entries.dom().contains(f.code)
            &&& f.name is Some ==> d.name == f.name
            &&& listed.dom().contains(f.code) ==> {
                &&& f.name is None ==> d.name == listed[f.code].name
                &&& d.access == listed[f.code].access
                &&& listed[f.code].ty is NonContinuous <==> d.ty is NonContinuous
                &&& !(listed[f.code].ty is NonContinuous) ==> d.ty == listed[f.code].ty
            }
            &&& !listed.dom().contains(f.code) ==> {
                &&& d.name == f.name && d.code == f.code && d.access == Access::ReadWrite
                &&& if f.values.len() == 0 {
                    d.ty is Continuous
                } else {
                    d.ty is NonContinuous
                }
            }
            &&& d.ty matches ValueTypeView::NonContinuous(values) ==> values.len()
                == f.values.len() && forall|k: int|
                0 <= k < values.len() ==> (#[trigger] values[k]).code == f.values[k].code && (
                f.values[k].name is Some ==> values[k].name == f.values[k].name)
        }),
{
    assert(features[i].code == features[i].code);
}

} // verus!
