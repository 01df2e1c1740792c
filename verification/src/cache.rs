//! What is remembered of a monitor's scan, and under which name.

use vstd::prelude::*;

use crate::text::{chars_of, owned, same_text};
use crate::vcp::{no_capabilities, Capabilities, CapabilitiesView};

verus! {

/// Guards against silently misreading a cache whose shape does not match: one
/// of any other version is treated as a miss. Bump this whenever the shape of
/// [`MonitorCache`] changes.
pub const CACHE_VERSION: u32 = 1;

/// Enough to skip rediscovering a continuous feature: its code, max value, and
/// last known current value. `value` is what is shown immediately on launch,
/// before a fresh read confirms (or corrects) it.
#[derive(Debug, Clone, Copy, PartialEq, Eq, Structural)]
pub struct CachedSlider {
    pub code: u8,
    pub max: u16,
    pub value: u16,
}

/// A non-continuous feature's code and last known selection, shown immediately
/// for the same reason as [`CachedSlider::value`].
#[derive(Debug, Clone, Copy, PartialEq, Eq, Structural)]
pub struct CachedSelector {
    pub code: u8,
    pub selected: u8,
}

/// What gets persisted after the first full scan of a monitor: its
/// capabilities, which codes turned out to actually behave like a slider,
/// selector, or action once probed live, and each control's last known value.
#[derive(Debug)]
pub struct MonitorCache {
    pub version: u32,
    pub capabilities: Capabilities,
    pub sliders: Vec<CachedSlider>,
    pub selectors: Vec<CachedSelector>,
    /// Actions have no current value to refresh, so unlike sliders/selectors
    /// they need no live re-probe once known.
    pub action_codes: Vec<u8>,
}

pub struct MonitorCacheView {
    pub version: u32,
    pub capabilities: CapabilitiesView,
    pub sliders: Seq<CachedSlider>,
    pub selectors: Seq<CachedSelector>,
    pub action_codes: Seq<u8>,
}

impl DeepView for MonitorCache {
    type V = MonitorCacheView;

    open spec fn deep_view(&self) -> MonitorCacheView {
        MonitorCacheView {
            version: self.version,
            capabilities: self.capabilities.deep_view(),
            sliders: self.sliders@,
            selectors: self.selectors@,
            action_codes: self.action_codes@,
        }
    }
}

impl Clone for MonitorCache {
    fn clone(&self) -> (r: Self)
        ensures
            r.deep_view() == self.deep_view(),
    {
        let r = MonitorCache {
            version: self.version,
            capabilities: self.capabilities.clone(),
            sliders: self.sliders.clone(),
            selectors: self.selectors.clone(),
            action_codes: self.action_codes.clone(),
        };
        assert(r.sliders@ =~= self.sliders@);
        assert(r.selectors@ =~= self.selectors@);
        assert(r.action_codes@ =~= self.action_codes@);
        r
    }
}

impl Default for MonitorCache {
    fn default() -> (r: Self)
        ensures
            r.deep_view() == (MonitorCacheView {
                version: 0,
                capabilities: no_capabilities(),
                sliders: Seq::empty(),
                selectors: Seq::empty(),
                action_codes: Seq::empty(),
            }),
    {
        MonitorCache {
            version: 0,
            capabilities: Capabilities::default(),
            sliders: Vec::new(),
            selectors: Vec::new(),
            action_codes: Vec::new(),
        }
    }
}

// ---- names ---------------------------------------------------------------------

/// `c`, unless it could separate names or parts of a path.
pub open spec fn name_char(c: char) -> char {
    if c == ' ' || c == '/' || c == '\\' {
        '_'
    } else {
        c
    }
}

/// What identifies a monitor: its manufacturer and model, made safe for a file
/// name.
pub open spec fn key_of(mfg_id: Seq<char>, model: Seq<char>) -> Seq<char> {
    let s = (mfg_id + "-"@ + model).map_values(|c: char| name_char(c));
    if s.len() == 0 || s == "-"@ {
        "unknown"@
    } else {
        s
    }
}

/// Identifies a monitor by manufacturer + model, which is what discovery gives
/// from the EDID. Two monitors of the same model sharing a cache entry is
/// harmless: they have identical capabilities by definition.
pub fn cache_key(mfg_id: &str, model: &str) -> (r: String)
    ensures
        r@ == key_of(mfg_id@, model@),
{
    let mut plain = owned(mfg_id);
    plain.append("-");
    plain.append(model);
    let v = chars_of(plain.as_str());
    let mut s = String::new();
    let ghost want = plain@.map_values(|c: char| name_char(c));
    for i in 0..v.len()
        invariant
            v@ == plain@,
            want == plain@.map_values(|c: char| name_char(c)),
            s@ == want.take(i as int),
    {
        let c = v[i];
        if c == ' ' || c == '/' || c == '\\' {
            s.push('_');
        } else {
            s.push(c);
        }
        assert(s@ =~= want.take(i + 1));
    }
    assert(want.take(want.len() as int) =~= want);
    if s.as_str().is_empty() || same_text(s.as_str(), "-") {
        owned("unknown")
    } else {
        s
    }
}

/// The name of the file that holds a monitor's scan.
pub open spec fn file_name_of(mfg_id: Seq<char>, model: Seq<char>) -> Seq<char> {
    "monitor-"@ + key_of(mfg_id, model) + ".json"@
}

/// The name of the file that holds a monitor's scan.
pub fn cache_file_name(mfg_id: &str, model: &str) -> (r: String)
    ensures
        r@ == file_name_of(mfg_id@, model@),
{
    let mut s = owned("monitor-");
    s.append(cache_key(mfg_id, model).as_str());
    s.append(".json");
    s
}

/// The name of a monitor's file stays in one directory: whatever the monitor
/// reports about itself, its key is not empty and holds no path separator.
pub proof fn law_key_is_a_plain_name(mfg_id: Seq<char>, model: Seq<char>)
    ensures
        key_of(mfg_id, model).len() > 0,
        !key_of(mfg_id, model).contains('/'),
        !key_of(mfg_id, model).contains('\\'),
        !key_of(mfg_id, model).contains(' '),
{
    reveal_strlit("unknown");
    reveal_strlit("-");
    let s = (mfg_id + "-"@ + model).map_values(|c: char| name_char(c));
    assert(s.len() > 0);
    assert forall|i: int| 0 <= i < s.len() implies s[i] != '/' && s[i] != '\\' && s[i]
        != ' ' by {
        assert(s[i] == name_char((mfg_id + "-"@ + model)[i]));
    }
}

// ---- versions ------------------------------------------------------------------

/// A scan as it is written: always with the current version.
pub open spec fn stamped(cache: MonitorCacheView) -> MonitorCacheView {
    MonitorCacheView { version: CACHE_VERSION, ..cache }
}

/// The scan to use of one that was read; `None` where it was written by an
/// incompatible version, which is the same as a miss.
pub open spec fn usable(cache: MonitorCacheView) -> Option<MonitorCacheView> {
    if cache.version == CACHE_VERSION {
        Some(cache)
    } else {
        None
    }
}

/// A scan as it is written: always with the current version.
pub fn stamp(cache: MonitorCache) -> (r: MonitorCache)
    ensures
        r.deep_view() == stamped(cache.deep_view()),
{
    MonitorCache { version: CACHE_VERSION, ..cache }
}

/// The scan to use of one that was read; `None` where it was written by an
/// incompatible version, which is the same as a miss.
pub fn accept(cache: MonitorCache) -> (r: Option<MonitorCache>)
    ensures
        r.deep_view() == usable(cache.deep_view()),
        r is Some ==> r->0 == cache,
{
    if cache.version != CACHE_VERSION {
        None
    } else {
        Some(cache)
    }
}

/// The scan to use for a monitor, given what its file holds; `None` where there
/// is no such file, or none that can be read as a scan.
pub open spec fn found(held: Option<MonitorCacheView>) -> Option<MonitorCacheView> {
    match held {
        Some(cache) => usable(cache),
        None => None,
    }
}

/// The scan to use for a monitor, given what its file holds; `None` where there
/// is no such file, or none that can be read as a scan. Anything short of a clean
/// match is a miss, which just triggers a fresh scan.
pub fn find(held: Option<MonitorCache>) -> (r: Option<MonitorCache>)
    ensures
        r.deep_view() == found(held.deep_view()),
        r is Some ==> r == held,
{
    match held {
        Some(cache) => accept(cache),
        None => None,
    }
}

/// The files that hold scans, by name; `None` for one that cannot be read as a
/// scan.
pub type Files = Map<Seq<char>, Option<MonitorCacheView>>;

/// What the file of a monitor holds.
pub open spec fn held_for(files: Files, mfg_id: Seq<char>, model: Seq<char>) -> Option<
    MonitorCacheView,
> {
    if files.dom().contains(file_name_of(mfg_id, model)) {
        files[file_name_of(mfg_id, model)]
    } else {
        None
    }
}

/// The files once a scan of a monitor has been written.
pub open spec fn saved(
    files: Files,
    mfg_id: Seq<char>,
    model: Seq<char>,
    cache: MonitorCacheView,
) -> Files {
    files.insert(file_name_of(mfg_id, model), Some(stamped(cache)))
}

/// The files once that of a monitor has been removed.
pub open spec fn cleared(files: Files, mfg_id: Seq<char>, model: Seq<char>) -> Files {
    files.remove(file_name_of(mfg_id, model))
}

/// A scan that was saved is found again, whatever version it claimed to have, and
/// one that was cleared is not. Neither touches a monitor that is known by another
/// key. Nothing is found where there is no file, none that can be read as a scan,
/// or one of another version.
pub proof fn law_saved_scan_is_found(
    files: Files,
    mfg_id: Seq<char>,
    model: Seq<char>,
    cache: MonitorCacheView,
    other_mfg_id: Seq<char>,
    other_model: Seq<char>,
)
    ensures
        found(held_for(saved(files, mfg_id, model, cache), mfg_id, model)) == Some(
            MonitorCacheView { version: CACHE_VERSION, ..cache },
        ),
        found(held_for(cleared(files, mfg_id, model), mfg_id, model)) is None,
        found(held_for(files, mfg_id, model)) is Some <==> {
            &&& files.dom().contains(file_name_of(mfg_id, model))
            &&& files[file_name_of(mfg_id, model)] matches Some(c) && c.version == CACHE_VERSION
        },
        key_of(other_mfg_id, other_model) != key_of(mfg_id, model) ==> {
            &&& held_for(saved(files, mfg_id, model, cache), other_mfg_id, other_model)
                == held_for(files, other_mfg_id, other_model)
            &&& held_for(cleared(files, mfg_id, model), other_mfg_id, other_model) == held_for(
                files,
                other_mfg_id,
                other_model,
            )
        },
{
    let k = key_of(mfg_id, model);
    let other = key_of(other_mfg_id, other_model);
    if other != k && file_name_of(other_mfg_id, other_model) == file_name_of(mfg_id, model) {
        let name = file_name_of(mfg_id, model);
        let from = "monitor-"@.len() as int;
        let to = name.len() - ".json"@.len();
        assert(name.subrange(from, to) =~= k);
        assert(file_name_of(other_mfg_id, other_model).subrange(from, to) =~= other);
    }
}

/// A scan that was written is used when it is read back, with everything in it.
pub proof fn law_written_scan_is_usable(cache: MonitorCacheView)
    ensures
        usable(stamped(cache)) == Some(stamped(cache)),
        stamped(cache).capabilities == cache.capabilities,
        stamped(cache).sliders == cache.sliders,
        stamped(cache).selectors == cache.selectors,
        stamped(cache).action_codes == cache.action_codes,
{
}

/// A monitor is known by its manufacturer and its model, character by character
/// but for those that could separate names or parts of a path; one without either
/// is unknown.
pub proof fn law_the_key_spells_the_monitor(mfg_id: Seq<char>, model: Seq<char>, i: int)
    requires
        mfg_id.len() + model.len() > 0,
    ensures
        ({
            let key = key_of(mfg_id, model);
            let kept = |c: char, k: char|
                if c == ' ' || c == '/' || c == '\\' {
                    k == '_'
                } else {
                    k == c
                };
            &&& key.len() == mfg_id.len() + 1 + model.len()
            &&& key[mfg_id.len() as int] == '-'
            &&& 0 <= i < mfg_id.len() ==> kept(mfg_id[i], key[i])
            &&& 0 <= i < model.len() ==> kept(model[i], key[mfg_id.len() + 1 + i])
        }),
        key_of(Seq::empty(), Seq::empty()) == "unknown"@,
{
    reveal_strlit("-");
    reveal_strlit("unknown");
    let none = (Seq::<char>::empty() + "-"@ + Seq::<char>::empty()).map_values(
        |c: char| name_char(c),
    );
    assert(none =~= "-"@);
}

} // verus!
