//! What the `ddcutil` command line tool is asked, and what its text replies
//! mean.

use vstd::prelude::*;

use crate::backend::{outcome, BackendError, BackendErrorView};
use crate::numbers::{
    decimal, decimal_i32, decimal_text, decimal_u16, hex2, hex2_text, hex_byte, is_digit,
    law_codes_read_back, law_numbers_read_back, law_signed_numbers_read_back, parse_hex_byte,
    parse_i32, parse_u16, signed_decimal, signed_text,
};
use crate::text::{
    deep, ends_with, group_deep, is_white, law_trimming_cuts_only_white_space,
    lemma_empty_line_follows, lemma_last_line_ends, lemma_lines_apart, lines, lines_of, owned,
    same_text, starts_with, strip_prefix, trim, trimmed, without_prefix, words, words_of,
};
use crate::vcp::{
    bare_display, blank_reading, no_capabilities, Capabilities, CapabilitiesView, Display,
    DisplayView, FeatureReading, FeatureReadingView, RawBytes, VcpFeature, VcpFeatureView,
    VcpValue, VcpValueView,
};

verus! {

// ---- matching ------------------------------------------------------------------

/// What a regular expression captures in a text, per group; group 0 is the
/// whole match. `None` for a group that took no part in the match.
pub type GroupsView = Seq<Option<Seq<char>>>;

/// What the regular expression `pattern` captures at its first match in `text`;
/// `None` where it does not match, or is not a regular expression.
pub uninterp spec fn captures(pattern: Seq<char>, text: Seq<char>) -> Option<GroupsView>;

/// `regex::Regex::new` followed by `regex::Regex::captures`: the groups of the
/// leftmost match of `pattern` in `text`. They depend on the two texts alone;
/// which they are is the regular expression engine's business and is not
/// stated here.
#[verifier::external_body]
fn regex_captures(pattern: &str, text: &str) -> (r: Option<Vec<Option<String>>>)
    ensures
        r.deep_view() == captures(pattern@, text@),
{
    let found = regex::Regex::new(pattern).ok()?;
    let groups = found.captures(text)?;
    Some(groups.iter().map(|g| g.map(|m| m.as_str().to_owned())).collect())
}

/// The groups of one match.
#[derive(Debug)]
pub struct Groups {
    pub groups: Vec<Option<String>>,
}

impl DeepView for Groups {
    type V = GroupsView;

    open spec fn deep_view(&self) -> GroupsView {
        self.groups.deep_view()
    }
}

/// The text of group `i`; empty where there is no such group, or it took no
/// part in the match.
pub open spec fn group(m: GroupsView, i: int) -> Seq<char> {
    if 0 <= i < m.len() && m[i] is Some {
        m[i]->0
    } else {
        Seq::empty()
    }
}

impl Groups {
    /// The text of group `i`; empty where there is no such group, or it took no
    /// part in the match.
    pub fn get(&self, i: usize) -> (r: String)
        ensures
            r@ == group(self.deep_view(), i as int),
    {
        if i < self.groups.len() {
            match &self.groups[i] {
                Some(s) => s.clone(),
                None => String::new(),
            }
        } else {
            String::new()
        }
    }
}

/// Matches `text` against the regular expression `pattern`.
pub fn match_groups(pattern: &str, text: &str) -> (r: Option<Groups>)
    ensures
        r.deep_view() == captures(pattern@, text@),
{
    match regex_captures(pattern, text) {
        Some(groups) => Some(Groups { groups }),
        None => None,
    }
}

// ---- detect --------------------------------------------------------------------

pub const DISPLAY_RE: &'static str = r"^Display (\d+)";
pub const I2C_RE: &'static str = r"I2C bus:\s+(\S+)";
pub const CONNECTOR_RE: &'static str = r"DRM_connector:\s+(\S+)";
pub const MFG_RE: &'static str = r"Mfg id:\s+(\S+)";
pub const MODEL_RE: &'static str = r"Model:\s+(.*)";
pub const VCP_VER_RE: &'static str = r"VCP version:\s+(\S+)";

/// What one line of `ddcutil detect` says. `T` is the kind of text that it
/// carries.
#[derive(Debug)]
pub enum DetectLine<T> {
    /// Starts a display with this number.
    Display(i32),
    /// Starts a display that cannot be controlled (a laptop panel, etc.).
    Invalid,
    Bus(T),
    Connector(T),
    Mfg(T),
    Model(T),
    Version(T),
    Other,
}

impl DeepView for DetectLine<String> {
    type V = DetectLine<Seq<char>>;

    open spec fn deep_view(&self) -> DetectLine<Seq<char>> {
        match *self {
            DetectLine::Display(n) => DetectLine::Display(n),
            DetectLine::Invalid => DetectLine::Invalid,
            DetectLine::Bus(s) => DetectLine::Bus(s@),
            DetectLine::Connector(s) => DetectLine::Connector(s@),
            DetectLine::Mfg(s) => DetectLine::Mfg(s@),
            DetectLine::Model(s) => DetectLine::Model(s@),
            DetectLine::Version(s) => DetectLine::Version(s@),
            DetectLine::Other => DetectLine::Other,
        }
    }
}

/// The number that a display line gives; 0 where it does not fit.
pub open spec fn display_number(digits: Seq<char>) -> i32 {
    match decimal_i32(digits) {
        Some(n) => n,
        None => 0,
    }
}

/// What the trimmed line `t` says, given what the patterns capture in it.
pub open spec fn detect_line(
    t: Seq<char>,
    display: Option<GroupsView>,
    bus: Option<GroupsView>,
    connector: Option<GroupsView>,
    mfg: Option<GroupsView>,
    model: Option<GroupsView>,
    version: Option<GroupsView>,
) -> DetectLine<Seq<char>> {
    if display is Some {
        DetectLine::Display(display_number(group(display->0, 1)))
    } else if without_prefix(t, "Invalid display"@) is Some {
        DetectLine::Invalid
    } else if bus is Some {
        DetectLine::Bus(group(bus->0, 1))
    } else if connector is Some {
        DetectLine::Connector(group(connector->0, 1))
    } else if mfg is Some {
        DetectLine::Mfg(group(mfg->0, 1))
    } else if model is Some {
        DetectLine::Model(trimmed(group(model->0, 1)))
    } else if version is Some {
        DetectLine::Version(group(version->0, 1))
    } else {
        DetectLine::Other
    }
}

/// What the trimmed line `t` says, given what the patterns capture in it.
pub fn read_detect_line(
    t: &str,
    display: Option<Groups>,
    bus: Option<Groups>,
    connector: Option<Groups>,
    mfg: Option<Groups>,
    model: Option<Groups>,
    version: Option<Groups>,
) -> (r: DetectLine<String>)
    ensures
        r.deep_view() == detect_line(
            t@,
            display.deep_view(),
            bus.deep_view(),
            connector.deep_view(),
            mfg.deep_view(),
            model.deep_view(),
            version.deep_view(),
        ),
{
    if let Some(m) = display {
        return DetectLine::Display(
            match parse_i32(m.get(1).as_str()) {
                Some(n) => n,
                None => 0,
            },
        );
    }
    if strip_prefix(t, "Invalid display").is_some() {
        return DetectLine::Invalid;
    }
    if let Some(m) = bus {
        return DetectLine::Bus(m.get(1));
    }
    if let Some(m) = connector {
        return DetectLine::Connector(m.get(1));
    }
    if let Some(m) = mfg {
        return DetectLine::Mfg(m.get(1));
    }
    if let Some(m) = model {
        return DetectLine::Model(trim(m.get(1).as_str()));
    }
    if let Some(m) = version {
        return DetectLine::Version(m.get(1));
    }
    DetectLine::Other
}

/// How far a detection listing has been read.
pub struct DetectState {
    pub displays: Seq<DisplayView>,
    /// The display that is being read.
    pub current: Option<DisplayView>,
}

impl DetectState {
    /// Before the first line.
    pub open spec fn start() -> DetectState {
        DetectState { displays: Seq::empty(), current: None }
    }

    /// With the display that is being read moved to the finished ones.
    pub open spec fn flushed(self) -> DetectState {
        match self.current {
            Some(d) => DetectState { displays: self.displays.push(d), current: None },
            None => self,
        }
    }

    /// After one more line. What follows an invalid display is dropped.
    pub open spec fn step(self, line: DetectLine<Seq<char>>) -> DetectState {
        match line {
            DetectLine::Display(n) => DetectState {
                current: Some(bare_display(n)),
                ..self.flushed()
            },
            DetectLine::Invalid => self.flushed(),
            _ => match self.current {
                Some(d) => DetectState {
                    current: Some(
                        match line {
                            DetectLine::Bus(bus) => DisplayView { bus, ..d },
                            DetectLine::Connector(connector) => DisplayView { connector, ..d },
                            DetectLine::Mfg(mfg_id) => DisplayView { mfg_id, ..d },
                            DetectLine::Model(model) => DisplayView { model, ..d },
                            DetectLine::Version(vcp_version) => DisplayView { vcp_version, ..d },
                            _ => d,
                        },
                    ),
                    ..self
                },
                None => self,
            },
        }
    }

    /// After the given lines.
    pub open spec fn after(self, lines: Seq<DetectLine<Seq<char>>>) -> DetectState
        decreases lines.len(),
    {
        if lines.len() == 0 {
            self
        } else {
            self.after(lines.drop_last()).step(lines.last())
        }
    }
}

/// The displays that a whole detection listing reports.
pub open spec fn displays_of(lines: Seq<DetectLine<Seq<char>>>) -> Seq<DisplayView> {
    DetectState::start().after(lines).flushed().displays
}

/// What one raw line of a detection listing says.
pub open spec fn detect_line_in(raw: Seq<char>) -> DetectLine<Seq<char>> {
    let t = trimmed(raw);
    detect_line(
        t,
        captures(DISPLAY_RE@, t),
        captures(I2C_RE@, t),
        captures(CONNECTOR_RE@, t),
        captures(MFG_RE@, t),
        captures(MODEL_RE@, t),
        captures(VCP_VER_RE@, t),
    )
}

/// What the lines of a detection listing say.
pub open spec fn detect_lines(text: Seq<char>) -> Seq<DetectLine<Seq<char>>> {
    lines_of(text).map_values(|raw: Seq<char>| detect_line_in(raw))
}

/// Reads a detection listing line by line.
#[derive(Debug)]
pub struct DetectReader {
    pub displays: Vec<Display>,
    pub current: Option<Display>,
}

impl DeepView for DetectReader {
    type V = DetectState;

    open spec fn deep_view(&self) -> DetectState {
        DetectState { displays: deep(self.displays@), current: self.current.deep_view() }
    }
}

impl DetectReader {
    pub fn new() -> (r: Self)
        ensures
            r.deep_view() == DetectState::start(),
    {
        broadcast use group_deep;

        DetectReader { displays: Vec::new(), current: None }
    }

    fn flush(&mut self)
        ensures
            final(self).deep_view() == old(self).deep_view().flushed(),
    {
        broadcast use group_deep;

        if let Some(d) = self.current.take() {
            self.displays.push(d);
        }
    }

    /// Takes in one more line.
    pub fn feed(&mut self, line: DetectLine<String>)
        ensures
            final(self).deep_view() == old(self).deep_view().step(line.deep_view()),
    {
        match line {
            DetectLine::Display(number) => {
                self.flush();
                let mut d = Display::default();
                d.number = number;
                self.current = Some(d);
            },
            DetectLine::Invalid => {
                self.flush();
            },
            _ => {
                if let Some(mut d) = self.current.take() {
                    match line {
                        DetectLine::Bus(s) => d.bus = s,
                        DetectLine::Connector(s) => d.connector = s,
                        DetectLine::Mfg(s) => d.mfg_id = s,
                        DetectLine::Model(s) => d.model = s,
                        DetectLine::Version(s) => d.vcp_version = s,
                        _ => {},
                    }
                    self.current = Some(d);
                }
            },
        }
    }

    /// The displays that the lines taken in report.
    pub fn finish(self) -> (r: Vec<Display>)
        ensures
            deep(r@) == self.deep_view().flushed().displays,
    {
        let mut reader = self;
        reader.flush();
        reader.displays
    }
}

/// Parses the text output of `ddcutil detect` into every valid (non-laptop)
/// display that it reports.
pub fn parse_detect(out: &str) -> (r: Vec<Display>)
    ensures
        deep(r@) == displays_of(detect_lines(out@)),
{
    let mut reader = DetectReader::new();
    let raw = lines(out);
    let ghost said = detect_lines(out@);
    assert(said.take(0) =~= Seq::empty());
    for i in 0..raw.len()
        invariant
            deep(raw@) == lines_of(out@),
            said == detect_lines(out@),
            reader.deep_view() == DetectState::start().after(said.take(i as int)),
    {
        let t = trim(raw[i].as_str());
        let line = read_detect_line(
            t.as_str(),
            match_groups(DISPLAY_RE, t.as_str()),
            match_groups(I2C_RE, t.as_str()),
            match_groups(CONNECTOR_RE, t.as_str()),
            match_groups(MFG_RE, t.as_str()),
            match_groups(MODEL_RE, t.as_str()),
            match_groups(VCP_VER_RE, t.as_str()),
        );
        assert(deep(raw@)[i as int] == raw@[i as int]@);
        assert(said[i as int] == line.deep_view());
        assert(said.take(i + 1).drop_last() =~= said.take(i as int));
        reader.feed(line);
    }
    assert(said.take(said.len() as int) =~= said);
    reader.finish()
}

/// The numbers of the displays that the lines of a listing start, in order.
pub open spec fn numbers_started(lines: Seq<DetectLine<Seq<char>>>) -> Seq<i32>
    decreases lines.len(),
{
    if lines.len() == 0 {
        Seq::empty()
    } else {
        match lines.last() {
            DetectLine::Display(n) => numbers_started(lines.drop_last()).push(n),
            _ => numbers_started(lines.drop_last()),
        }
    }
}

/// Every display that a detection listing starts is reported, in order, and no
/// invalid one is.
pub proof fn law_every_display_is_kept(lines: Seq<DetectLine<Seq<char>>>)
    ensures
        displays_of(lines).map_values(|d: DisplayView| d.number) == numbers_started(lines),
    decreases lines.len(),
{
    let number = |d: DisplayView| d.number;
    if lines.len() == 0 {
        assert(Seq::<DisplayView>::empty().map_values(number) =~= Seq::empty());
    } else {
        law_every_display_is_kept(lines.drop_last());
        let before = DetectState::start().after(lines.drop_last());
        let after = before.step(lines.last());
        let prior = before.flushed().displays;
        match lines.last() {
            DetectLine::Display(n) => {
                assert(after.flushed().displays == prior.push(bare_display(n)));
                assert(prior.push(bare_display(n)).map_values(number) =~= prior.map_values(
                    number,
                ).push(n));
            },
            _ => {
                assert(after.flushed().displays.map_values(number) =~= prior.map_values(number));
            },
        }
    }
}

/// What a run of `ddcutil detect` that printed `out` reports.
pub fn detect_reply(out: &str, success: bool) -> (r: Result<Vec<Display>, BackendError>)
    ensures
        nothing_printed(out@, success) ==> r is Err && r->Err_0.deep_view()
            == BackendErrorView::Message("ddcutil detect: command failed"@),
        !nothing_printed(out@, success) ==> r is Ok && deep(r->Ok_0@) == displays_of(
            detect_lines(out@),
        ),
{
    if printed_nothing(out, success) {
        return Err(BackendError::msg("ddcutil detect: command failed"));
    }
    Ok(parse_detect(out))
}

// ---- capabilities --------------------------------------------------------------

pub const FEATURE_RE: &'static str = r"^Feature:\s+([0-9A-Fa-f]{2})\s+\((.+)\)$";
pub const PARSED_HEADER_RE: &'static str = r"^Values\s+\(\s*parsed\):\s*(.*)$";
pub const PARSED_ENTRY_RE: &'static str = r"^([0-9A-Fa-f]{2}):\s+(.*)$";

/// What one line of `ddcutil capabilities --verbose` says. `T` is the kind of
/// text that it carries.
#[derive(Debug)]
pub enum CapsLine<T> {
    Model(T),
    Version(T),
    /// Starts a feature; `code` is `None` where it does not fit a byte.
    Feature { code: Option<u8>, name: T },
    /// The header of the parsed values, with what follows it on the same line.
    Values(T),
    /// One parsed value on a line of its own.
    Entry { code: Option<u8>, name: T },
    Other,
}

impl DeepView for CapsLine<String> {
    type V = CapsLine<Seq<char>>;

    open spec fn deep_view(&self) -> CapsLine<Seq<char>> {
        match *self {
            CapsLine::Model(s) => CapsLine::Model(s@),
            CapsLine::Version(s) => CapsLine::Version(s@),
            CapsLine::Feature { code, name } => CapsLine::Feature { code, name: name@ },
            CapsLine::Values(s) => CapsLine::Values(s@),
            CapsLine::Entry { code, name } => CapsLine::Entry { code, name: name@ },
            CapsLine::Other => CapsLine::Other,
        }
    }
}

/// What the trimmed line `t` says, given what the three patterns capture in it.
pub open spec fn caps_line(
    t: Seq<char>,
    feature: Option<GroupsView>,
    header: Option<GroupsView>,
    entry: Option<GroupsView>,
) -> CapsLine<Seq<char>> {
    if without_prefix(t, "Model:"@) is Some {
        CapsLine::Model(trimmed(without_prefix(t, "Model:"@)->0))
    } else if without_prefix(t, "MCCS version:"@) is Some {
        CapsLine::Version(trimmed(without_prefix(t, "MCCS version:"@)->0))
    } else if feature is Some {
        CapsLine::Feature { code: hex_byte(group(feature->0, 1)), name: group(feature->0, 2) }
    } else if header is Some {
        CapsLine::Values(trimmed(group(header->0, 1)))
    } else if entry is Some {
        CapsLine::Entry { code: hex_byte(group(entry->0, 1)), name: trimmed(group(entry->0, 2)) }
    } else {
        CapsLine::Other
    }
}

/// What the trimmed line `t` says, given what the three patterns capture in it.
pub fn read_caps_line(
    t: &str,
    feature: Option<Groups>,
    header: Option<Groups>,
    entry: Option<Groups>,
) -> (r: CapsLine<String>)
    ensures
        r.deep_view() == caps_line(
            t@,
            feature.deep_view(),
            header.deep_view(),
            entry.deep_view(),
        ),
{
    if let Some(rest) = strip_prefix(t, "Model:") {
        return CapsLine::Model(trim(rest.as_str()));
    }
    if let Some(rest) = strip_prefix(t, "MCCS version:") {
        return CapsLine::Version(trim(rest.as_str()));
    }
    if let Some(m) = feature {
        return CapsLine::Feature { code: parse_hex_byte(m.get(1).as_str()), name: m.get(2) };
    }
    if let Some(m) = header {
        return CapsLine::Values(trim(m.get(1).as_str()));
    }
    if let Some(m) = entry {
        return CapsLine::Entry {
            code: parse_hex_byte(m.get(1).as_str()),
            name: trim(m.get(2).as_str()),
        };
    }
    CapsLine::Other
}

/// A feature as its first line declares it, before any of its values.
pub open spec fn declared(code: u8, name: Seq<char>) -> VcpFeatureView {
    VcpFeatureView {
        code,
        name,
        recognized: name != "Unrecognized feature"@ && name != "Manufacturer specific feature"@,
        manufacturer_specific: name == "Manufacturer specific feature"@,
        values: Seq::empty(),
    }
}

/// The bytes among the words up to the first that opens a parenthesis.
pub open spec fn listed_codes(words: Seq<Seq<char>>) -> Seq<u8>
    decreases words.len(),
{
    if words.len() == 0 || (words[0].len() > 0 && words[0][0] == '(') {
        Seq::empty()
    } else {
        match hex_byte(words[0]) {
            Some(code) => seq![code] + listed_codes(words.skip(1)),
            None => listed_codes(words.skip(1)),
        }
    }
}

/// A feature with a further value.
pub open spec fn with_value(f: VcpFeatureView, code: u8, name: Seq<char>) -> VcpFeatureView {
    VcpFeatureView { values: f.values.push(VcpValueView { code, name }), ..f }
}

/// A feature with further values that have no names.
pub open spec fn with_unnamed(f: VcpFeatureView, codes: Seq<u8>) -> VcpFeatureView {
    VcpFeatureView {
        values: f.values + codes.map_values(
            |code: u8| VcpValueView { code, name: Seq::<char>::empty() },
        ),
        ..f
    }
}

/// How far a capabilities listing has been read.
pub struct CapsState {
    pub caps: CapabilitiesView,
    /// The feature that is being read.
    pub current: Option<VcpFeatureView>,
    /// Whether the lines that follow list that feature's values.
    pub in_values: bool,
}

impl CapsState {
    /// Before the first line.
    pub open spec fn start() -> CapsState {
        CapsState { caps: no_capabilities(), current: None, in_values: false }
    }

    /// With the feature that is being read moved to the finished ones.
    pub open spec fn flushed(self) -> CapsState {
        match self.current {
            Some(f) => CapsState {
                caps: CapabilitiesView { features: self.caps.features.push(f), ..self.caps },
                current: None,
                ..self
            },
            None => self,
        }
    }

    /// After one more line.
    pub open spec fn step(self, line: CapsLine<Seq<char>>) -> CapsState {
        match line {
            CapsLine::Model(model) => CapsState {
                caps: CapabilitiesView { model, ..self.flushed().caps },
                current: None,
                in_values: false,
            },
            CapsLine::Version(mccs_version) => CapsState {
                caps: CapabilitiesView { mccs_version, ..self.flushed().caps },
                current: None,
                in_values: false,
            },
            CapsLine::Feature { code: Some(code), name } => CapsState {
                caps: self.flushed().caps,
                current: Some(declared(code, name)),
                in_values: false,
            },
            CapsLine::Feature { code: None, name } => self.flushed(),
            CapsLine::Values(rest) => match self.current {
                Some(f) => if rest.len() == 0 {
                    CapsState { in_values: true, ..self }
                } else {
                    CapsState {
                        current: Some(with_unnamed(f, listed_codes(words_of(rest)))),
                        in_values: false,
                        ..self
                    }
                },
                None => self,
            },
            CapsLine::Entry { code, name } => match self.current {
                Some(f) => if self.in_values && code is Some {
                    CapsState { current: Some(with_value(f, code->0, name)), ..self }
                } else {
                    self
                },
                None => self,
            },
            CapsLine::Other => match self.current {
                Some(_) => CapsState { in_values: false, ..self },
                None => self,
            },
        }
    }

    /// After the given lines.
    pub open spec fn after(self, lines: Seq<CapsLine<Seq<char>>>) -> CapsState
        decreases lines.len(),
    {
        if lines.len() == 0 {
            self
        } else {
            self.after(lines.drop_last()).step(lines.last())
        }
    }
}

/// What a whole capabilities listing declares.
pub open spec fn capabilities_of(lines: Seq<CapsLine<Seq<char>>>) -> CapabilitiesView {
    CapsState::start().after(lines).flushed().caps
}

/// What one raw line of a capabilities listing says.
pub open spec fn caps_line_in(raw: Seq<char>) -> CapsLine<Seq<char>> {
    let t = trimmed(raw);
    caps_line(
        t,
        captures(FEATURE_RE@, t),
        captures(PARSED_HEADER_RE@, t),
        captures(PARSED_ENTRY_RE@, t),
    )
}

/// What the lines of a capabilities listing say.
pub open spec fn caps_lines(text: Seq<char>) -> Seq<CapsLine<Seq<char>>> {
    lines_of(text).map_values(|raw: Seq<char>| caps_line_in(raw))
}

/// Reads a capabilities listing line by line.
#[derive(Debug)]
pub struct CapsReader {
    pub caps: Capabilities,
    pub current: Option<VcpFeature>,
    pub in_values: bool,
}

impl DeepView for CapsReader {
    type V = CapsState;

    open spec fn deep_view(&self) -> CapsState {
        CapsState {
            caps: self.caps.deep_view(),
            current: self.current.deep_view(),
            in_values: self.in_values,
        }
    }
}

impl CapsReader {
    pub fn new() -> (r: Self)
        ensures
            r.deep_view() == CapsState::start(),
    {
        CapsReader { caps: Capabilities::default(), current: None, in_values: false }
    }

    fn flush(&mut self)
        ensures
            final(self).deep_view() == old(self).deep_view().flushed(),
    {
        broadcast use group_deep;

        if let Some(f) = self.current.take() {
            self.caps.features.push(f);
        }
    }

    /// Takes in one more line.
    pub fn feed(&mut self, line: CapsLine<String>)
        ensures
            final(self).deep_view() == old(self).deep_view().step(line.deep_view()),
    {
        broadcast use group_deep;

        match line {
            CapsLine::Model(model) => {
                self.flush();
                self.caps.model = model;
                self.in_values = false;
            },
            CapsLine::Version(version) => {
                self.flush();
                self.caps.mccs_version = version;
                self.in_values = false;
            },
            CapsLine::Feature { code, name } => {
                self.flush();
                if let Some(code) = code {
                    let manufacturer_specific = same_text(
                        name.as_str(),
                        "Manufacturer specific feature",
                    );
                    let recognized = !same_text(name.as_str(), "Unrecognized feature")
                        && !manufacturer_specific;
                    self.current = Some(
                        VcpFeature {
                            code,
                            name,
                            recognized,
                            manufacturer_specific,
                            values: Vec::new(),
                        },
                    );
                    self.in_values = false;
                }
            },
            CapsLine::Values(rest) => {
                if let Some(mut f) = self.current.take() {
                    if rest.as_str().is_empty() {
                        self.in_values = true;
                    } else {
                        push_listed(&mut f, rest.as_str());
                        self.in_values = false;
                    }
                    self.current = Some(f);
                }
            },
            CapsLine::Entry { code, name } => {
                if let Some(mut f) = self.current.take() {
                    if self.in_values {
                        if let Some(code) = code {
                            f.values.push(VcpValue { code, name });
                        }
                    }
                    self.current = Some(f);
                }
            },
            CapsLine::Other => {
                if self.current.is_some() {
                    self.in_values = false;
                }
            },
        }
    }

    /// What the lines taken in declare.
    pub fn finish(self) -> (r: Capabilities)
        ensures
            r.deep_view() == self.deep_view().flushed().caps,
    {
        let mut reader = self;
        reader.flush();
        reader.caps
    }
}

/// Adds the values that a single line lists, e.g.
/// "01 02 03 (interpretation unavailable)".
fn push_listed(f: &mut VcpFeature, rest: &str)
    ensures
        final(f).deep_view() == with_unnamed(old(f).deep_view(), listed_codes(words_of(rest@))),
{
    broadcast use group_deep;

    let tokens = words(rest);
    let ghost all = words_of(rest@);
    let ghost before = f.deep_view();
    let mut i: usize = 0;
    assert(all.skip(0) =~= all);
    assert(with_unnamed(before, Seq::empty()).values =~= before.values);
    let ghost mut done: Seq<u8> = Seq::empty();
    assert(done + listed_codes(all) =~= listed_codes(all));
    while i < tokens.len()
        invariant_except_break
            i <= tokens@.len(),
            deep(tokens@) == all,
            done + listed_codes(all.skip(i as int)) == listed_codes(all),
            f.deep_view() == with_unnamed(before, done),
        ensures
            f.deep_view() == with_unnamed(before, listed_codes(all)),
        decreases tokens@.len() - i,
    {
        let tok = &tokens[i];
        let ghost here = all.skip(i as int);
        assert(here[0] == deep(tokens@)[i as int]);
        assert(here.skip(1) =~= all.skip(i + 1));
        if strip_prefix(tok.as_str(), "(").is_some() {
            proof {
                reveal_strlit("(");
                assert(tok@.take(1)[0] == "("@[0]);
                assert(done + Seq::<u8>::empty() =~= done);
            }
            break;
        }
        proof {
            reveal_strlit("(");
            if tok@.len() > 0 && tok@[0] == '(' {
                assert(tok@.take(1) =~= "("@);
            }
        }
        if let Some(code) = parse_hex_byte(tok.as_str()) {
            let ghost prior = f.deep_view().values;
            let value = VcpValue { code, name: String::new() };
            f.values.push(value);
            proof {
                assert(value.name@ =~= Seq::empty());
                assert(f.deep_view().values == prior.push(value.deep_view()));
                assert(done + (seq![code] + listed_codes(here.skip(1))) =~= done.push(code)
                    + listed_codes(here.skip(1)));
                done = done.push(code);
                assert(f.deep_view().values =~= with_unnamed(before, done).values);
            }
        }
        i = i + 1;
        assert(i == tokens@.len() ==> all.skip(i as int) =~= Seq::empty());
        assert(done + Seq::<u8>::empty() =~= done);
    }
    assert(f.deep_view() == with_unnamed(before, listed_codes(all)));
}

/// Parses the text output of `ddcutil capabilities --verbose`.
///
/// Keeps every feature code the monitor reports, including those labelled
/// "Unrecognized feature" or "Manufacturer specific feature".
pub fn parse_capabilities(output: &str) -> (r: Capabilities)
    ensures
        r.deep_view() == capabilities_of(caps_lines(output@)),
{
    let mut reader = CapsReader::new();
    let raw = lines(output);
    let ghost said = caps_lines(output@);
    assert(said.take(0) =~= Seq::empty());
    for i in 0..raw.len()
        invariant
            deep(raw@) == lines_of(output@),
            said == caps_lines(output@),
            reader.deep_view() == CapsState::start().after(said.take(i as int)),
    {
        let t = trim(raw[i].as_str());
        let line = read_caps_line(
            t.as_str(),
            match_groups(FEATURE_RE, t.as_str()),
            match_groups(PARSED_HEADER_RE, t.as_str()),
            match_groups(PARSED_ENTRY_RE, t.as_str()),
        );
        assert(deep(raw@)[i as int] == raw@[i as int]@);
        assert(said[i as int] == line.deep_view());
        assert(said.take(i + 1).drop_last() =~= said.take(i as int));
        reader.feed(line);
    }
    assert(said.take(said.len() as int) =~= said);
    reader.finish()
}

/// A feature without its values.
pub open spec fn without_values(f: VcpFeatureView) -> VcpFeatureView {
    VcpFeatureView { values: Seq::empty(), ..f }
}

/// The features that the lines of a listing start, in order.
pub open spec fn started(lines: Seq<CapsLine<Seq<char>>>) -> Seq<VcpFeatureView>
    decreases lines.len(),
{
    if lines.len() == 0 {
        Seq::empty()
    } else {
        match lines.last() {
            CapsLine::Feature { code: Some(code), name } => started(lines.drop_last()).push(
                declared(code, name),
            ),
            _ => started(lines.drop_last()),
        }
    }
}

proof fn lemma_started(lines: Seq<CapsLine<Seq<char>>>)
    ensures
        CapsState::start().after(lines).flushed().caps.features.map_values(
            |f: VcpFeatureView| without_values(f),
        ) == started(lines),
    decreases lines.len(),
{
    let blank = |f: VcpFeatureView| without_values(f);
    if lines.len() == 0 {
        assert(Seq::<VcpFeatureView>::empty().map_values(blank) =~= Seq::empty());
    } else {
        lemma_started(lines.drop_last());
        let before = CapsState::start().after(lines.drop_last());
        let after = before.step(lines.last());
        let prior = before.flushed().caps.features;
        match lines.last() {
            CapsLine::Feature { code: Some(code), name } => {
                assert(after.flushed().caps.features == prior.push(declared(code, name)));
                assert(without_values(declared(code, name)) == declared(code, name));
                assert(prior.push(declared(code, name)).map_values(blank) =~= prior.map_values(
                    blank,
                ).push(declared(code, name)));
            },
            _ => {
                assert(after.flushed().caps.features.map_values(blank) =~= prior.map_values(blank));
            },
        }
    }
}

/// No feature that a listing declares is dropped, added or moved, whether it is
/// recognized or not: the features read are those that its feature lines start,
/// in order.
pub proof fn law_every_feature_is_kept(lines: Seq<CapsLine<Seq<char>>>)
    ensures
        capabilities_of(lines).features.map_values(|f: VcpFeatureView| without_values(f))
            == started(lines),
{
    lemma_started(lines);
}

proof fn lemma_after_both(s: CapsState, xs: Seq<CapsLine<Seq<char>>>, ys: Seq<CapsLine<Seq<char>>>)
    ensures
        s.after(xs + ys) == s.after(xs).after(ys),
    decreases ys.len(),
{
    if ys.len() == 0 {
        assert(xs + ys =~= xs);
    } else {
        lemma_after_both(s, xs, ys.drop_last());
        assert((xs + ys).drop_last() =~= xs + ys.drop_last());
    }
}

proof fn lemma_read_apart(before: CapsState, ys: Seq<CapsLine<Seq<char>>>)
    requires
        ys.len() > 0,
        ys[0] matches CapsLine::Feature { code: Some(_), .. },
    ensures
        ({
            let whole = before.after(ys);
            let apart = CapsState::start().after(ys);
            &&& whole.current == apart.current
            &&& whole.in_values == apart.in_values
            &&& whole.caps.features == before.flushed().caps.features + apart.caps.features
        }),
    decreases ys.len(),
{
    let prior = before.flushed().caps.features;
    let rest = ys.drop_last();
    let whole = before.after(rest);
    let apart = CapsState::start().after(rest);
    if ys.len() == 1 {
        assert(before.after(rest) == before);
        assert(CapsState::start().after(rest) == CapsState::start());
        assert(prior + CapsState::start().flushed().caps.features =~= prior);
    } else {
        lemma_read_apart(before, rest);
        assert(whole.flushed().caps.features =~= prior + apart.flushed().caps.features);
    }
}

/// A feature line ends whatever came before it: where a listing goes on with one,
/// its features are those of the part before that line, followed by those of the
/// part that starts there.
pub proof fn law_features_are_read_apart(
    xs: Seq<CapsLine<Seq<char>>>,
    ys: Seq<CapsLine<Seq<char>>>,
)
    requires
        ys.len() > 0,
        ys[0] matches CapsLine::Feature { code: Some(_), .. },
    ensures
        capabilities_of(xs + ys).features == capabilities_of(xs).features + capabilities_of(
            ys,
        ).features,
{
    let before = CapsState::start().after(xs);
    lemma_after_both(CapsState::start(), xs, ys);
    lemma_read_apart(before, ys);
    assert(before.after(ys).flushed().caps.features =~= before.flushed().caps.features
        + CapsState::start().after(ys).flushed().caps.features);
}

/// The same of text: where a listing is made of whole lines and goes on with a
/// feature line, its features are followed by those of what comes then.
pub proof fn law_whole_lines_are_read_apart(a: Seq<char>, b: Seq<char>)
    requires
        a.len() == 0 || a.last() == '\n',
        caps_lines(b).len() > 0,
        caps_lines(b)[0] matches CapsLine::Feature { code: Some(_), .. },
    ensures
        capabilities_of(caps_lines(a + b)).features == capabilities_of(caps_lines(a)).features
            + capabilities_of(caps_lines(b)).features,
{
    lemma_lines_apart(a, b);
    assert(caps_lines(a + b) =~= caps_lines(a) + caps_lines(b));
    law_features_are_read_apart(caps_lines(a), caps_lines(b));
}

/// The same of any text, with a line feed in between. Where that makes an empty
/// line, an empty line must be none of those that say something of a feature.
pub proof fn law_listings_are_read_apart(a: Seq<char>, b: Seq<char>)
    requires
        a.len() == 0 || a.last() == '\n' ==> caps_line_in(Seq::empty()) is Other,
        caps_lines(b).len() > 0,
        caps_lines(b)[0] matches CapsLine::Feature { code: Some(_), .. },
    ensures
        capabilities_of(caps_lines(a + "\n"@ + b)).features == capabilities_of(
            caps_lines(a),
        ).features + capabilities_of(caps_lines(b)).features,
{
    reveal_strlit("\n");
    let first = a.push('\n');
    assert(a + "\n"@ + b =~= first + b);
    law_whole_lines_are_read_apart(first, b);
    if a.len() == 0 || a.last() == '\n' {
        lemma_empty_line_follows(a);
        assert(caps_lines(first) =~= caps_lines(a).push(CapsLine::Other));
        assert(caps_lines(first).drop_last() =~= caps_lines(a));
    } else {
        lemma_last_line_ends(a);
        assert(caps_lines(first) =~= caps_lines(a)) by {
            assert forall|i: int| 0 <= i < caps_lines(a).len() implies caps_lines(first)[i]
                == caps_lines(a)[i] by {
                assert(trimmed(lines_of(first)[i]) == trimmed(lines_of(a)[i]));
            }
        }
    }
}

/// Whether a `ddcutil` run failed without printing anything of use. `ddcutil`
/// can fail and still print what was asked for.
pub open spec fn nothing_printed(out: Seq<char>, success: bool) -> bool {
    !success && trimmed(out).len() == 0
}

fn printed_nothing(out: &str, success: bool) -> (r: bool)
    ensures
        r == nothing_printed(out@, success),
{
    !success && trim(out).as_str().is_empty()
}

/// What a run of `ddcutil capabilities` that printed `out` reports.
pub fn capabilities_reply(out: &str, success: bool) -> (r: Result<Capabilities, BackendError>)
    ensures
        outcome(r) == (if nothing_printed(out@, success) {
            Err(BackendErrorView::Message("ddcutil capabilities: command failed"@))
        } else {
            Ok(capabilities_of(caps_lines(out@)))
        }),
{
    if printed_nothing(out, success) {
        return Err(BackendError::msg("ddcutil capabilities: command failed"));
    }
    Ok(parse_capabilities(out))
}

// ---- getvcp --------------------------------------------------------------------

pub const NOT_READABLE_RE: &'static str =
    r"Feature ([0-9A-Fa-f]{2}) \(([^)]*)\) is not readable";
pub const CONTINUOUS_RE: &'static str =
    r"VCP code 0x([0-9A-Fa-f]{2}) \(([^)]*)\): current value =\s*(\d+), max value =\s*(\d+)";
pub const RAW_VALUE_RE: &'static str =
    r"VCP code 0x([0-9A-Fa-f]{2}) \(([^)]*)\): mh=0x([0-9A-Fa-f]{2}), ml=0x([0-9A-Fa-f]{2}), sh=0x([0-9A-Fa-f]{2}), sl=0x([0-9A-Fa-f]{2})";
pub const NON_CONTINUOUS_RE: &'static str =
    r"VCP code 0x([0-9A-Fa-f]{2}) \(([^)]*)\): (.+) \(sl=0x([0-9A-Fa-f]{2})\)";
pub const GENERIC_REPLY_RE: &'static str = r"VCP code 0x([0-9A-Fa-f]{2}) \(([^)]*)\): (.+)";

/// The byte that `s` spells in hexadecimal; 0 where it spells none.
pub open spec fn byte_or_zero(s: Seq<char>) -> u8 {
    match hex_byte(s) {
        Some(n) => n,
        None => 0,
    }
}

/// The number that `s` spells in decimal; 0 where it does not fit.
pub open spec fn number_or_zero(s: Seq<char>) -> u16 {
    match decimal_u16(s) {
        Some(n) => n,
        None => 0,
    }
}

fn read_byte(s: &str) -> (r: u8)
    ensures
        r == byte_or_zero(s@),
{
    match parse_hex_byte(s) {
        Some(n) => n,
        None => 0,
    }
}

fn read_number(s: &str) -> (r: u16)
    ensures
        r == number_or_zero(s@),
{
    match parse_u16(s) {
        Some(n) => n,
        None => 0,
    }
}

/// The command that a failure is reported for.
pub open spec fn get_vcp_label(code: u8) -> Seq<char> {
    "ddcutil getvcp "@ + hex2(code as nat, false)
}

/// What a reply to a read of `code` reports, given what each pattern captures
/// in it and whether the command succeeded. A feature that cannot be read is
/// not an error; a successful reply in a format of its own is kept as its text.
pub open spec fn reading_of(
    code: u8,
    text: Seq<char>,
    ok: bool,
    not_readable: Option<GroupsView>,
    continuous: Option<GroupsView>,
    raw: Option<GroupsView>,
    non_continuous: Option<GroupsView>,
    generic: Option<GroupsView>,
) -> Result<FeatureReadingView, BackendErrorView> {
    if not_readable is Some {
        Ok(blank_reading(code, trimmed(group(not_readable->0, 2))))
    } else if continuous is Some {
        Ok(
            FeatureReadingView {
                readable: true,
                continuous: true,
                current: number_or_zero(group(continuous->0, 3)),
                max: number_or_zero(group(continuous->0, 4)),
                ..blank_reading(code, trimmed(group(continuous->0, 2)))
            },
        )
    } else if raw is Some {
        let bytes = RawBytes {
            mh: byte_or_zero(group(raw->0, 3)),
            ml: byte_or_zero(group(raw->0, 4)),
            sh: byte_or_zero(group(raw->0, 5)),
            sl: byte_or_zero(group(raw->0, 6)),
        };
        Ok(
            FeatureReadingView {
                readable: true,
                current: bytes.sl as u16,
                raw: Some(bytes),
                ..blank_reading(code, trimmed(group(raw->0, 2)))
            },
        )
    } else if non_continuous is Some {
        Ok(
            FeatureReadingView {
                readable: true,
                current: byte_or_zero(group(non_continuous->0, 4)) as u16,
                label: trimmed(group(non_continuous->0, 3)),
                ..blank_reading(code, trimmed(group(non_continuous->0, 2)))
            },
        )
    } else if !ok {
        Err(BackendErrorView::Message(get_vcp_label(code) + ": "@ + trimmed(text)))
    } else if generic is Some {
        Ok(
            FeatureReadingView {
                readable: true,
                label: trimmed(group(generic->0, 3)),
                generic: true,
                ..blank_reading(code, trimmed(group(generic->0, 2)))
            },
        )
    } else {
        Err(
            BackendErrorView::Message(
                get_vcp_label(code) + ": unrecognized output: "@ + trimmed(text),
            ),
        )
    }
}

/// What a reply to a read of `code` reports, given what each pattern captures
/// in it and whether the command succeeded.
pub fn read_reply(
    code: u8,
    text: &str,
    ok: bool,
    not_readable: Option<Groups>,
    continuous: Option<Groups>,
    raw: Option<Groups>,
    non_continuous: Option<Groups>,
    generic: Option<Groups>,
) -> (r: Result<FeatureReading, BackendError>)
    ensures
        outcome(r) == reading_of(
            code,
            text@,
            ok,
            not_readable.deep_view(),
            continuous.deep_view(),
            raw.deep_view(),
            non_continuous.deep_view(),
            generic.deep_view(),
        ),
{
    let mut reading = FeatureReading::default();
    reading.code = code;
    if let Some(m) = not_readable {
        reading.name = trim(m.get(2).as_str());
        return Ok(reading);
    }
    if let Some(m) = continuous {
        reading.name = trim(m.get(2).as_str());
        reading.readable = true;
        reading.continuous = true;
        reading.current = read_number(m.get(3).as_str());
        reading.max = read_number(m.get(4).as_str());
        return Ok(reading);
    }
    if let Some(m) = raw {
        let sl: u8 = read_byte(m.get(6).as_str());
        reading.name = trim(m.get(2).as_str());
        reading.readable = true;
        reading.current = sl as u16;
        reading.raw = Some(
            RawBytes {
                mh: read_byte(m.get(3).as_str()),
                ml: read_byte(m.get(4).as_str()),
                sh: read_byte(m.get(5).as_str()),
                sl,
            },
        );
        return Ok(reading);
    }
    if let Some(m) = non_continuous {
        reading.name = trim(m.get(2).as_str());
        reading.readable = true;
        reading.current = read_byte(m.get(4).as_str()) as u16;
        reading.label = trim(m.get(3).as_str());
        return Ok(reading);
    }
    let mut message = owned("ddcutil getvcp ");
    message.append(hex2_text(code as u16, false).as_str());
    if !ok {
        message.append(": ");
        message.append(trim(text).as_str());
        return Err(BackendError::msg(message.as_str()));
    }
    if let Some(m) = generic {
        reading.name = trim(m.get(2).as_str());
        reading.readable = true;
        reading.label = trim(m.get(3).as_str());
        reading.generic = true;
        return Ok(reading);
    }
    message.append(": unrecognized output: ");
    message.append(trim(text).as_str());
    Err(BackendError::msg(message.as_str()))
}

/// What a reply to a read of `code` reports.
pub open spec fn get_vcp_reading(code: u8, text: Seq<char>, ok: bool) -> Result<
    FeatureReadingView,
    BackendErrorView,
> {
    reading_of(
        code,
        text,
        ok,
        captures(NOT_READABLE_RE@, text),
        captures(CONTINUOUS_RE@, text),
        captures(RAW_VALUE_RE@, text),
        captures(NON_CONTINUOUS_RE@, text),
        captures(GENERIC_REPLY_RE@, text),
    )
}

/// Parses what `ddcutil getvcp` printed for `code`. A write-only/action feature
/// (e.g. "restore factory defaults") is not an error: it comes back with
/// `readable: false`.
pub fn parse_get_vcp_reply(code: u8, text: &str, ok: bool) -> (r: Result<
    FeatureReading,
    BackendError,
>)
    ensures
        outcome(r) == get_vcp_reading(code, text@, ok),
{
    read_reply(
        code,
        text,
        ok,
        match_groups(NOT_READABLE_RE, text),
        match_groups(CONTINUOUS_RE, text),
        match_groups(RAW_VALUE_RE, text),
        match_groups(NON_CONTINUOUS_RE, text),
        match_groups(GENERIC_REPLY_RE, text),
    )
}

/// A reading kept only as the text of a reply in a format of its own carries no
/// value: its value is 0, it is not continuous and has no reply bytes.
pub proof fn law_generic_reading_has_no_value(code: u8, text: Seq<char>, ok: bool)
    ensures
        get_vcp_reading(code, text, ok) matches Ok(r) ==> r.generic ==> r.current == 0 && r.max
            == 0 && !r.continuous && r.raw is None,
{
}

/// A reading answers for the code that was asked for.
pub proof fn law_reading_is_for_the_code_asked(code: u8, text: Seq<char>, ok: bool)
    ensures
        get_vcp_reading(code, text, ok) matches Ok(r) ==> r.code == code,
{
}

// ---- setvcp --------------------------------------------------------------------

/// What a run of `ddcutil setvcp` that printed `out` reports. `ddcutil` reads
/// the value back to verify the write, so a failure means that the monitor did
/// not actually change.
pub fn set_vcp_reply(code: u8, value: u16, out: &str, success: bool) -> (r: Result<
    (),
    BackendError,
>)
    ensures
        r is Ok <==> success,
        r is Err ==> r->Err_0.deep_view() == BackendErrorView::Message(
            "ddcutil setvcp "@ + hex2(code as nat, false) + " "@ + decimal(value as nat) + ": "@
                + trimmed(out@),
        ),
{
    if success {
        return Ok(());
    }
    let mut message = owned("ddcutil setvcp ");
    message.append(hex2_text(code as u16, false).as_str());
    message.append(" ");
    message.append(decimal_text(value as u64).as_str());
    message.append(": ");
    message.append(trim(out).as_str());
    Err(BackendError::msg(message.as_str()))
}

// ---- arguments -----------------------------------------------------------------

/// The arguments that every command on one display starts with.
pub open spec fn display_args(display_num: i32) -> Seq<Seq<char>> {
    seq!["--display"@, signed_decimal(display_num as int)]
}

fn for_display(display_num: i32) -> (r: Vec<String>)
    ensures
        deep(r@) == display_args(display_num),
{
    broadcast use group_deep;

    let mut args: Vec<String> = Vec::new();
    args.push(owned("--display"));
    args.push(signed_text(display_num));
    assert(deep(args@) =~= display_args(display_num));
    args
}

/// The arguments that ask `ddcutil` for the displays.
pub fn detect_args() -> (r: Vec<String>)
    ensures
        deep(r@) == seq!["detect"@],
{
    broadcast use group_deep;

    let mut args: Vec<String> = Vec::new();
    args.push(owned("detect"));
    assert(deep(args@) =~= seq!["detect"@]);
    args
}

/// The arguments that ask `ddcutil` for a display's capabilities.
pub fn capabilities_args(display_num: i32) -> (r: Vec<String>)
    ensures
        deep(r@) == display_args(display_num) + seq!["capabilities"@, "--verbose"@],
{
    broadcast use group_deep;

    let mut args = for_display(display_num);
    args.push(owned("capabilities"));
    args.push(owned("--verbose"));
    assert(deep(args@) =~= display_args(display_num) + seq!["capabilities"@, "--verbose"@]);
    args
}

/// The arguments that ask `ddcutil` for a feature's live value.
pub fn get_vcp_args(display_num: i32, code: u8) -> (r: Vec<String>)
    ensures
        deep(r@) == display_args(display_num) + seq!["getvcp"@, hex2(code as nat, false)],
{
    broadcast use group_deep;

    let mut args = for_display(display_num);
    args.push(owned("getvcp"));
    args.push(hex2_text(code as u16, false));
    assert(deep(args@) =~= display_args(display_num) + seq!["getvcp"@, hex2(code as nat, false)]);
    args
}

/// What `ddcutil` requires for a write to a code that it does not recognize.
pub open spec fn permit_args(permit_unknown: bool) -> Seq<Seq<char>> {
    if permit_unknown {
        seq!["--permit-unknown-feature"@]
    } else {
        Seq::empty()
    }
}

/// The arguments that ask `ddcutil` to write a feature's value.
pub fn set_vcp_args(display_num: i32, code: u8, value: u16, permit_unknown: bool) -> (r: Vec<
    String,
>)
    ensures
        deep(r@) == display_args(display_num) + permit_args(permit_unknown) + seq![
            "setvcp"@,
            hex2(code as nat, false),
            decimal(value as nat),
        ],
{
    broadcast use group_deep;

    let mut args = for_display(display_num);
    if permit_unknown {
        args.push(owned("--permit-unknown-feature"));
    }
    args.push(owned("setvcp"));
    args.push(hex2_text(code as u16, false));
    args.push(decimal_text(value as u64));
    assert(deep(args@) =~= display_args(display_num) + permit_args(permit_unknown) + seq![
        "setvcp"@,
        hex2(code as nat, false),
        decimal(value as nat),
    ]);
    args
}

// ---- the backend ---------------------------------------------------------------

/// The backend that runs the `ddcutil` command line tool.
#[derive(Debug)]
pub struct DdcutilBackend;

impl DdcutilBackend {
    pub fn new() -> (r: Self)
        ensures
            r == DdcutilBackend,
    {
        DdcutilBackend
    }
}

impl Default for DdcutilBackend {
    fn default() -> (r: Self)
        ensures
            r == DdcutilBackend,
    {
        DdcutilBackend::new()
    }
}

// ---- what it is all for --------------------------------------------------------

/// Whether a match captured this text as its group `i`.
pub open spec fn captured(m: GroupsView, i: int, text: Seq<char>) -> bool {
    0 <= i < m.len() && m[i] == Some(text)
}

/// A reading is not readable exactly where `ddcutil` said so, continuous exactly
/// where it printed a current and a maximum value, has reply bytes exactly where
/// it printed these, and is kept as its text only where a command that succeeded
/// printed none of the shapes that carry a value. Whatever carries a value counts,
/// also where the command failed.
pub proof fn law_replies_say_what_they_are(
    code: u8,
    text: Seq<char>,
    ok: bool,
    not_readable: Option<GroupsView>,
    continuous: Option<GroupsView>,
    raw: Option<GroupsView>,
    non_continuous: Option<GroupsView>,
    generic: Option<GroupsView>,
)
    ensures
        ({
            let result = reading_of(
                code,
                text,
                ok,
                not_readable,
                continuous,
                raw,
                non_continuous,
                generic,
            );
            let shaped = not_readable is Some || continuous is Some || raw is Some
                || non_continuous is Some;
            &&& result is Err <==> !shaped && !(ok && generic is Some)
            &&& result matches Ok(r) ==> {
                &&& r.code == code
                &&& !r.readable <==> not_readable is Some
                &&& r.continuous <==> not_readable is None && continuous is Some
                &&& r.raw is Some <==> not_readable is None && continuous is None && raw is Some
                &&& r.generic <==> !shaped
                &&& !r.continuous ==> r.max == 0
                &&& r.label.len() > 0 ==> r.readable && !r.continuous && r.raw is None
            }
            &&& result matches Err(e) ==> e is Message && ends_with(e->Message_0, trimmed(text))
                && starts_with(e->Message_0, "ddcutil getvcp "@ + hex2(code as nat, false))
        }),
{
    let label = get_vcp_label(code);
    let failed = label + ": "@ + trimmed(text);
    let odd = label + ": unrecognized output: "@ + trimmed(text);
    assert(failed.skip(failed.len() - trimmed(text).len()) =~= trimmed(text));
    assert(odd.skip(odd.len() - trimmed(text).len()) =~= trimmed(text));
    assert(failed.take(label.len() as int) =~= label);
    assert(odd.take(label.len() as int) =~= label);
}

/// The same of what `ddcutil getvcp` printed.
pub proof fn law_only_unreadable_features_are_not_readable(code: u8, text: Seq<char>, ok: bool)
    ensures
        get_vcp_reading(code, text, ok) matches Ok(r) ==> {
            &&& r.code == code
            &&& !r.readable <==> captures(NOT_READABLE_RE@, text) is Some
            &&& r.continuous <==> r.readable && captures(CONTINUOUS_RE@, text) is Some
            &&& r.raw is Some <==> r.readable && !r.continuous && captures(
                RAW_VALUE_RE@,
                text,
            ) is Some
            &&& r.generic <==> r.readable && !r.continuous && r.raw is None && captures(
                NON_CONTINUOUS_RE@,
                text,
            ) is None
        },
        get_vcp_reading(code, text, ok) is Err ==> captures(NOT_READABLE_RE@, text) is None
            && captures(CONTINUOUS_RE@, text) is None && captures(RAW_VALUE_RE@, text) is None
            && captures(NON_CONTINUOUS_RE@, text) is None,
        !ok && captures(NOT_READABLE_RE@, text) is None && captures(CONTINUOUS_RE@, text) is None
            && captures(RAW_VALUE_RE@, text) is None && captures(NON_CONTINUOUS_RE@, text) is None
            ==> get_vcp_reading(code, text, ok) is Err,
{
    law_replies_say_what_they_are(
        code,
        text,
        ok,
        captures(NOT_READABLE_RE@, text),
        captures(CONTINUOUS_RE@, text),
        captures(RAW_VALUE_RE@, text),
        captures(NON_CONTINUOUS_RE@, text),
        captures(GENERIC_REPLY_RE@, text),
    );
}

/// The numbers that were printed are the numbers that are read: the value and the
/// maximum of a continuous feature, the four reply bytes of an unknown one, the
/// value of any other. Names and labels are those that were printed.
pub proof fn law_printed_numbers_are_read(
    code: u8,
    text: Seq<char>,
    ok: bool,
    m: GroupsView,
    name: Seq<char>,
    label: Seq<char>,
    value: u16,
    max: u16,
    bytes: RawBytes,
    generic: Option<GroupsView>,
)
    requires
        captured(m, 2, name),
    ensures
        reading_of(code, text, ok, Some(m), None, None, None, generic) matches Ok(r) && r.name
            == trimmed(name),
        captured(m, 3, decimal(value as nat)) && captured(m, 4, decimal(max as nat)) ==> (
        reading_of(code, text, ok, None, Some(m), None, None, generic) matches Ok(r) && r.current
            == value && r.max == max && r.name == trimmed(name)),
        captured(m, 3, hex2(bytes.mh as nat, false)) && captured(m, 4, hex2(bytes.ml as nat, false))
            && captured(m, 5, hex2(bytes.sh as nat, false)) && captured(
            m,
            6,
            hex2(bytes.sl as nat, false),
        ) ==> (reading_of(code, text, ok, None, None, Some(m), None, generic) matches Ok(r) && r.raw
            == Some(bytes) && r.current == bytes.sl && r.name == trimmed(name)),
        captured(m, 3, label) && captured(m, 4, hex2(bytes.sl as nat, false)) ==> (reading_of(
            code,
            text,
            ok,
            None,
            None,
            None,
            Some(m),
            generic,
        ) matches Ok(r) && r.current == bytes.sl && r.label == trimmed(label) && r.name == trimmed(
            name,
        )),
        captured(m, 3, label) ==> (reading_of(code, text, true, None, None, None, None, Some(m))
            matches Ok(r) && r.label == trimmed(label) && r.name == trimmed(name) && r.current == 0),
{
    law_numbers_read_back(value as nat, 10, false, 0xffff);
    law_numbers_read_back(max as nat, 10, false, 0xffff);
    law_codes_read_back(bytes.mh, false);
    law_codes_read_back(bytes.ml, false);
    law_codes_read_back(bytes.sh, false);
    law_codes_read_back(bytes.sl, false);
}

/// Of several shapes the more telling one counts: that a feature is not readable
/// over any value, a value with its range over reply bytes, and these over a value
/// alone. What else matched makes no difference.
pub proof fn law_the_more_telling_shape_counts(
    code: u8,
    text: Seq<char>,
    ok: bool,
    m: GroupsView,
    a: Option<GroupsView>,
    b: Option<GroupsView>,
    c: Option<GroupsView>,
    d: Option<GroupsView>,
)
    ensures
        reading_of(code, text, ok, Some(m), a, b, c, d) == reading_of(
            code,
            text,
            ok,
            Some(m),
            None,
            None,
            None,
            None,
        ),
        reading_of(code, text, ok, None, Some(m), b, c, d) == reading_of(
            code,
            text,
            ok,
            None,
            Some(m),
            None,
            None,
            None,
        ),
        reading_of(code, text, ok, None, None, Some(m), c, d) == reading_of(
            code,
            text,
            ok,
            None,
            None,
            Some(m),
            None,
            None,
        ),
        reading_of(code, text, ok, None, None, None, Some(m), d) == reading_of(
            code,
            text,
            ok,
            None,
            None,
            None,
            Some(m),
            None,
        ),
{
}

/// A command has printed nothing of use exactly where it failed and all that it
/// printed is white space.
pub proof fn law_white_space_is_nothing(out: Seq<char>, success: bool)
    ensures
        nothing_printed(out, success) <==> !success && forall|i: int|
            0 <= i < out.len() ==> is_white(#[trigger] out[i]),
{
    let _ = law_trimming_cuts_only_white_space(out);
}

/// What `ddcutil` is told: the display by its number, and to permit an
/// unrecognized code exactly where that is asked for.
pub proof fn law_the_display_is_named(display_num: i32)
    ensures
        display_args(display_num).len() == 2,
        display_args(display_num)[0] == "--display"@,
        decimal_i32(display_args(display_num)[1]) == Some(display_num),
        permit_args(true) == seq!["--permit-unknown-feature"@],
        permit_args(false).len() == 0,
{
    law_signed_numbers_read_back(display_num);
}

// ---- detection -----------------------------------------------------------------

/// What the lines of a detection listing are told apart by: a display line starts
/// a display with the number that is printed there; a line that starts like an
/// invalid display starts none; any other says one thing of a display.
pub proof fn law_detection_lines_are_told_apart(
    t: Seq<char>,
    m: GroupsView,
    said: Seq<char>,
    n: i32,
    bus: Option<GroupsView>,
    connector: Option<GroupsView>,
    mfg: Option<GroupsView>,
    model: Option<GroupsView>,
    version: Option<GroupsView>,
)
    ensures
        captured(m, 1, signed_decimal(n as int)) ==> detect_line(
            t,
            Some(m),
            bus,
            connector,
            mfg,
            model,
            version,
        ) == DetectLine::<Seq<char>>::Display(n),
        detect_line(t, Some(m), bus, connector, mfg, model, version) is Display,
        starts_with(t, "Invalid display"@) ==> detect_line(
            t,
            None,
            bus,
            connector,
            mfg,
            model,
            version,
        ) is Invalid,
        !starts_with(t, "Invalid display"@) && captured(m, 1, said) ==> {
            &&& detect_line(t, None, Some(m), connector, mfg, model, version) == DetectLine::Bus(
                said,
            )
            &&& detect_line(t, None, None, Some(m), mfg, model, version) == DetectLine::Connector(
                said,
            )
            &&& detect_line(t, None, None, None, Some(m), model, version) == DetectLine::Mfg(said)
            &&& detect_line(t, None, None, None, None, Some(m), version) == DetectLine::Model(
                trimmed(said),
            )
            &&& detect_line(t, None, None, None, None, None, Some(m)) == DetectLine::Version(said)
            &&& detect_line(t, None, None, None, None, None, None) is Other
        },
{
    law_signed_numbers_read_back(n);
}

proof fn lemma_detect_both(
    s: DetectState,
    xs: Seq<DetectLine<Seq<char>>>,
    ys: Seq<DetectLine<Seq<char>>>,
)
    ensures
        s.after(xs + ys) == s.after(xs).after(ys),
    decreases ys.len(),
{
    if ys.len() == 0 {
        assert(xs + ys =~= xs);
    } else {
        lemma_detect_both(s, xs, ys.drop_last());
        assert((xs + ys).drop_last() =~= xs + ys.drop_last());
    }
}

proof fn lemma_detect_apart(before: DetectState, ys: Seq<DetectLine<Seq<char>>>)
    requires
        ys.len() > 0,
        ys[0] is Display,
    ensures
        ({
            let whole = before.after(ys);
            let apart = DetectState::start().after(ys);
            &&& whole.current == apart.current
            &&& whole.displays == before.flushed().displays + apart.displays
        }),
    decreases ys.len(),
{
    let prior = before.flushed().displays;
    let rest = ys.drop_last();
    if ys.len() == 1 {
        assert(before.after(rest) == before);
        assert(DetectState::start().after(rest) == DetectState::start());
        assert(prior + DetectState::start().flushed().displays =~= prior);
    } else {
        lemma_detect_apart(before, rest);
        assert(before.after(rest).flushed().displays =~= prior + DetectState::start().after(
            rest,
        ).flushed().displays);
    }
}

/// A display line ends whatever came before it: the displays of a listing that
/// goes on with one are those before it, followed by those from there on.
pub proof fn law_displays_are_read_apart(
    xs: Seq<DetectLine<Seq<char>>>,
    ys: Seq<DetectLine<Seq<char>>>,
)
    requires
        ys.len() > 0,
        ys[0] is Display,
    ensures
        displays_of(xs + ys) == displays_of(xs) + displays_of(ys),
{
    let before = DetectState::start().after(xs);
    lemma_detect_both(DetectState::start(), xs, ys);
    lemma_detect_apart(before, ys);
    assert(before.after(ys).flushed().displays =~= before.flushed().displays
        + DetectState::start().after(ys).flushed().displays);
}

/// Whether no line starts a display, valid or not.
pub open spec fn starts_none(lines: Seq<DetectLine<Seq<char>>>) -> bool {
    forall|i: int|
        0 <= i < lines.len() ==> !(#[trigger] lines[i] is Display) && !(lines[i] is Invalid)
}

/// A display has its number, and what the lines up to the next display say of it:
/// of each thing what was said last. Before anything is said it has nothing but
/// its number.
pub proof fn law_lines_describe_their_display(
    n: i32,
    ys: Seq<DetectLine<Seq<char>>>,
    said: Seq<char>,
)
    requires
        starts_none(ys),
    ensures
        ({
            let lines = seq![DetectLine::Display(n)] + ys;
            let d = displays_of(lines)[0];
            &&& displays_of(lines).len() == 1 && d.number == n
            &&& ys.len() == 0 ==> d.bus.len() == 0 && d.connector.len() == 0 && d.mfg_id.len() == 0
                && d.model.len() == 0 && d.vcp_version.len() == 0
            &&& displays_of(lines.push(DetectLine::Bus(said))) == seq![
                DisplayView { bus: said, ..d },
            ]
            &&& displays_of(lines.push(DetectLine::Connector(said))) == seq![
                DisplayView { connector: said, ..d },
            ]
            &&& displays_of(lines.push(DetectLine::Mfg(said))) == seq![
                DisplayView { mfg_id: said, ..d },
            ]
            &&& displays_of(lines.push(DetectLine::Model(said))) == seq![
                DisplayView { model: said, ..d },
            ]
            &&& displays_of(lines.push(DetectLine::Version(said))) == seq![
                DisplayView { vcp_version: said, ..d },
            ]
            &&& displays_of(lines.push(DetectLine::Other)) == seq![d]
        }),
{
    let lines = seq![DetectLine::Display(n)] + ys;
    lemma_one_display(n, ys);
    let d = displays_of(lines)[0];
    assert(lines.push(DetectLine::Bus(said)).drop_last() =~= lines);
    assert(lines.push(DetectLine::Connector(said)).drop_last() =~= lines);
    assert(lines.push(DetectLine::Mfg(said)).drop_last() =~= lines);
    assert(lines.push(DetectLine::Model(said)).drop_last() =~= lines);
    assert(lines.push(DetectLine::Version(said)).drop_last() =~= lines);
    assert(lines.push(DetectLine::<Seq<char>>::Other).drop_last() =~= lines);
    assert(displays_of(lines.push(DetectLine::Bus(said))) =~= seq![DisplayView { bus: said, ..d }]);
    assert(displays_of(lines.push(DetectLine::Connector(said))) =~= seq![
        DisplayView { connector: said, ..d },
    ]);
    assert(displays_of(lines.push(DetectLine::Mfg(said))) =~= seq![
        DisplayView { mfg_id: said, ..d },
    ]);
    assert(displays_of(lines.push(DetectLine::Model(said))) =~= seq![
        DisplayView { model: said, ..d },
    ]);
    assert(displays_of(lines.push(DetectLine::Version(said))) =~= seq![
        DisplayView { vcp_version: said, ..d },
    ]);
    assert(displays_of(lines.push(DetectLine::<Seq<char>>::Other)) =~= seq![d]);
}

proof fn lemma_one_display(n: i32, ys: Seq<DetectLine<Seq<char>>>)
    requires
        starts_none(ys),
    ensures
        ({
            let s = DetectState::start().after(seq![DetectLine::Display(n)] + ys);
            &&& s.displays.len() == 0
            &&& s.current matches Some(d) && d.number == n && (ys.len() == 0 ==> d == bare_display(
                n,
            ))
        }),
    decreases ys.len(),
{
    let lines = seq![DetectLine::<Seq<char>>::Display(n)] + ys;
    if ys.len() == 0 {
        assert(lines.drop_last() =~= Seq::empty());
        assert(DetectState::start().after(Seq::empty()) == DetectState::start());
    } else {
        assert(starts_none(ys.drop_last())) by {
            assert forall|i: int| 0 <= i < ys.drop_last().len() implies !(
            #[trigger] ys.drop_last()[i] is Display) && !(ys.drop_last()[i] is Invalid) by {
                assert(!(ys[i] is Display) && !(ys[i] is Invalid));
            }
        }
        lemma_one_display(n, ys.drop_last());
        assert(lines.drop_last() =~= seq![DetectLine::<Seq<char>>::Display(n)] + ys.drop_last());
        assert(lines.last() == ys[ys.len() - 1]);
    }
}

/// What is said of an invalid display says nothing of any other: up to the next
/// display it is passed over.
pub proof fn law_invalid_displays_are_passed_over(
    xs: Seq<DetectLine<Seq<char>>>,
    ys: Seq<DetectLine<Seq<char>>>,
)
    requires
        starts_none(ys),
    ensures
        displays_of(xs.push(DetectLine::Invalid) + ys) == displays_of(xs),
{
    let head = xs.push(DetectLine::<Seq<char>>::Invalid);
    assert(head.drop_last() =~= xs);
    lemma_detect_both(DetectState::start(), head, ys);
    lemma_passed_over(DetectState::start().after(head), ys);
}

proof fn lemma_passed_over(s: DetectState, ys: Seq<DetectLine<Seq<char>>>)
    requires
        s.current is None,
        starts_none(ys),
    ensures
        s.after(ys) == s,
    decreases ys.len(),
{
    if ys.len() > 0 {
        assert(starts_none(ys.drop_last())) by {
            assert forall|i: int| 0 <= i < ys.drop_last().len() implies !(
            #[trigger] ys.drop_last()[i] is Display) && !(ys.drop_last()[i] is Invalid) by {
                assert(!(ys[i] is Display) && !(ys[i] is Invalid));
            }
        }
        lemma_passed_over(s, ys.drop_last());
        assert(!(ys[ys.len() - 1] is Display) && !(ys[ys.len() - 1] is Invalid));
    }
}

// ---- capabilities --------------------------------------------------------------

/// What the lines of a capabilities listing are told apart by, and what is taken
/// from each.
pub proof fn law_capability_lines_are_told_apart(
    t: Seq<char>,
    said: Seq<char>,
    m: GroupsView,
    code: u8,
    name: Seq<char>,
    feature: Option<GroupsView>,
    header: Option<GroupsView>,
    entry: Option<GroupsView>,
)
    ensures
        caps_line("Model:"@ + said, feature, header, entry) == CapsLine::Model(trimmed(said)),
        caps_line("MCCS version:"@ + said, feature, header, entry) == CapsLine::Version(
            trimmed(said),
        ),
        !starts_with(t, "Model:"@) && !starts_with(t, "MCCS version:"@) ==> {
            &&& captured(m, 1, hex2(code as nat, true)) && captured(m, 2, name) ==> caps_line(
                t,
                Some(m),
                header,
                entry,
            ) == (CapsLine::Feature { code: Some(code), name })
            &&& captured(m, 1, said) ==> caps_line(t, None, Some(m), entry) == CapsLine::Values(
                trimmed(said),
            )
            &&& captured(m, 1, hex2(code as nat, false)) && captured(m, 2, name) ==> caps_line(
                t,
                None,
                None,
                Some(m),
            ) == (CapsLine::Entry { code: Some(code), name: trimmed(name) })
            &&& caps_line(t, None, None, None) is Other
        },
{
    reveal_strlit("Model:");
    reveal_strlit("MCCS version:");
    let a = "Model:"@ + said;
    let b = "MCCS version:"@ + said;
    assert(a.take("Model:"@.len() as int) =~= "Model:"@);
    assert(a.skip("Model:"@.len() as int) =~= said);
    assert(b.take("MCCS version:"@.len() as int) =~= "MCCS version:"@);
    assert(b.skip("MCCS version:"@.len() as int) =~= said);
    assert(b.take("Model:"@.len() as int)[1] == 'C');
    assert("Model:"@[1] == 'o');
    law_codes_read_back(code, true);
    law_codes_read_back(code, false);
}

/// Whether a feature's standing is what its label says.
pub open spec fn stands_as_labelled(f: VcpFeatureView) -> bool {
    &&& f.recognized <==> f.name != "Unrecognized feature"@ && f.name
        != "Manufacturer specific feature"@
    &&& f.manufacturer_specific <==> f.name == "Manufacturer specific feature"@
}

/// A feature of a listing is recognized exactly where `ddcutil` gives it a name of
/// its own, and manufacturer specific exactly where it is labelled so.
pub proof fn law_features_stand_as_labelled(lines: Seq<CapsLine<Seq<char>>>, k: int)
    requires
        0 <= k < capabilities_of(lines).features.len(),
    ensures
        stands_as_labelled(capabilities_of(lines).features[k]),
{
    lemma_labelled(lines);
    let s = CapsState::start().after(lines);
    if k < s.caps.features.len() {
        assert(capabilities_of(lines).features[k] == s.caps.features[k]);
    }
}

proof fn lemma_labelled(lines: Seq<CapsLine<Seq<char>>>)
    ensures
        ({
            let s = CapsState::start().after(lines);
            &&& s.current matches Some(f) ==> stands_as_labelled(f)
            &&& forall|k: int|
                0 <= k < s.caps.features.len() ==> stands_as_labelled(
                    #[trigger] s.caps.features[k],
                )
        }),
    decreases lines.len(),
{
    reveal_strlit("Unrecognized feature");
    reveal_strlit("Manufacturer specific feature");
    assert("Unrecognized feature"@.len() != "Manufacturer specific feature"@.len());
    if lines.len() > 0 {
        lemma_labelled(lines.drop_last());
        let before = CapsState::start().after(lines.drop_last());
        let s = before.step(lines.last());
        assert forall|k: int| 0 <= k < s.caps.features.len() implies stands_as_labelled(
            #[trigger] s.caps.features[k],
        ) by {
            if k < before.caps.features.len() {
                assert(s.caps.features[k] == before.caps.features[k]);
            }
        }
    }
}

/// The model and the version are what the last line of their kind says, and say
/// nothing of the features. No other line touches them.
pub proof fn law_model_and_version_are_kept(
    lines: Seq<CapsLine<Seq<char>>>,
    said: Seq<char>,
    line: CapsLine<Seq<char>>,
)
    ensures
        ({
            let caps = capabilities_of(lines);
            &&& capabilities_of(lines.push(CapsLine::Model(said))) == (CapabilitiesView {
                model: said,
                ..caps
            })
            &&& capabilities_of(lines.push(CapsLine::Version(said))) == (CapabilitiesView {
                mccs_version: said,
                ..caps
            })
            &&& !(line is Model) ==> capabilities_of(lines.push(line)).model == caps.model
            &&& !(line is Version) ==> capabilities_of(lines.push(line)).mccs_version
                == caps.mccs_version
            &&& capabilities_of(Seq::empty()).model.len() == 0
            &&& capabilities_of(Seq::empty()).mccs_version.len() == 0
            &&& capabilities_of(Seq::empty()).features.len() == 0
        }),
{
    assert(lines.push(CapsLine::Model(said)).drop_last() =~= lines);
    assert(lines.push(CapsLine::Version(said)).drop_last() =~= lines);
    assert(lines.push(line).drop_last() =~= lines);
}

/// A feature line starts a feature with that code and name, and without values.
pub proof fn law_a_feature_line_starts_its_feature(
    lines: Seq<CapsLine<Seq<char>>>,
    code: u8,
    name: Seq<char>,
)
    ensures
        ({
            let caps = capabilities_of(lines.push(CapsLine::Feature { code: Some(code), name }));
            &&& caps.features.len() == capabilities_of(lines).features.len() + 1
            &&& caps.features.last().code == code && caps.features.last().name == name
            &&& caps.features.last().values.len() == 0
            &&& caps.features.drop_last() == capabilities_of(lines).features
        }),
{
    let more = lines.push(CapsLine::Feature { code: Some(code), name });
    assert(more.drop_last() =~= lines);
    assert(capabilities_of(more).features.drop_last() =~= capabilities_of(lines).features);
}

/// Whether lines are entries of values, each with a code.
pub open spec fn all_entries(lines: Seq<CapsLine<Seq<char>>>) -> bool {
    forall|i: int|
        0 <= i < lines.len() ==> (#[trigger] lines[i]) is Entry && lines[i]->Entry_code is Some
}

/// The values of a feature are those that are listed under its header, in order,
/// with their codes and names. Without a header they say nothing.
pub proof fn law_values_are_listed_under_their_header(
    lines: Seq<CapsLine<Seq<char>>>,
    code: u8,
    name: Seq<char>,
    entries: Seq<CapsLine<Seq<char>>>,
)
    requires
        all_entries(entries),
    ensures
        ({
            let feature = CapsLine::Feature { code: Some(code), name };
            let header = CapsLine::Values(Seq::empty());
            let listed = capabilities_of(
                lines.push(feature).push(header) + entries,
            ).features.last();
            let stray = capabilities_of(lines.push(feature) + entries).features.last();
            &&& listed.code == code && listed.name == name && listed.values.len() == entries.len()
            &&& forall|i: int|
                0 <= i < entries.len() ==> (#[trigger] listed.values[i]).code
                    == entries[i]->Entry_code->0 && listed.values[i].name == entries[i]->Entry_name
            &&& stray.code == code && stray.values.len() == 0
        }),
{
    let feature = CapsLine::Feature { code: Some(code), name };
    let header = CapsLine::Values(Seq::empty());
    let start = lines.push(feature);
    let open = start.push(header);
    assert(start.drop_last() =~= lines);
    assert(open.drop_last() =~= start);
    lemma_after_both(CapsState::start(), open, entries);
    lemma_after_both(CapsState::start(), start, entries);
    lemma_entries(CapsState::start().after(open), entries);
    lemma_stray_entries(CapsState::start().after(start), entries);
}

proof fn lemma_entries(s: CapsState, entries: Seq<CapsLine<Seq<char>>>)
    requires
        s.current is Some && s.in_values,
        s.current->0.values.len() == 0,
        all_entries(entries),
    ensures
        ({
            let t = s.after(entries);
            &&& t.in_values && t.current is Some
            &&& t.current->0.code == s.current->0.code && t.current->0.name == s.current->0.name
            &&& t.current->0.values.len() == entries.len()
            &&& forall|i: int|
                0 <= i < entries.len() ==> (#[trigger] t.current->0.values[i]).code
                    == entries[i]->Entry_code->0 && t.current->0.values[i].name
                    == entries[i]->Entry_name
        }),
    decreases entries.len(),
{
    if entries.len() > 0 {
        let rest = entries.drop_last();
        assert(all_entries(rest)) by {
            assert forall|i: int| 0 <= i < rest.len() implies (#[trigger] rest[i]) is Entry
                && rest[i]->Entry_code is Some by {
                assert(entries[i] is Entry && entries[i]->Entry_code is Some);
            }
        }
        lemma_entries(s, rest);
        assert(entries[entries.len() - 1] is Entry);
        let t = s.after(entries);
        let before = s.after(rest);
        assert forall|i: int| 0 <= i < entries.len() implies (
        #[trigger] t.current->0.values[i]).code == entries[i]->Entry_code->0
            && t.current->0.values[i].name == entries[i]->Entry_name by {
            if i < rest.len() {
                assert(t.current->0.values[i] == before.current->0.values[i]);
                assert(rest[i] == entries[i]);
            }
        }
    }
}

proof fn lemma_stray_entries(s: CapsState, entries: Seq<CapsLine<Seq<char>>>)
    requires
        s.current is Some && !s.in_values,
        all_entries(entries),
    ensures
        s.after(entries) == s,
    decreases entries.len(),
{
    if entries.len() > 0 {
        let rest = entries.drop_last();
        assert(all_entries(rest)) by {
            assert forall|i: int| 0 <= i < rest.len() implies (#[trigger] rest[i]) is Entry
                && rest[i]->Entry_code is Some by {
                assert(entries[i] is Entry && entries[i]->Entry_code is Some);
            }
        }
        lemma_stray_entries(s, rest);
        assert(entries[entries.len() - 1] is Entry);
    }
}

/// A code as two capital hexadecimal digits.
pub open spec fn upper_hex(code: u8) -> Seq<char> {
    hex2(code as nat, true)
}

/// Values that are listed on the header's own line are kept too, in order, by
/// their codes alone: up to a remark in parentheses.
pub proof fn law_values_are_listed_on_one_line(
    lines: Seq<CapsLine<Seq<char>>>,
    code: u8,
    name: Seq<char>,
    rest: Seq<char>,
    codes: Seq<u8>,
    remark: Seq<Seq<char>>,
)
    requires
        rest.len() > 0,
        words_of(rest) == codes.map_values(|c: u8| upper_hex(c)) + remark,
        remark.len() > 0 ==> remark[0].len() > 0 && remark[0][0] == '(',
    ensures
        ({
            let feature = CapsLine::Feature { code: Some(code), name };
            let f = capabilities_of(
                lines.push(feature).push(CapsLine::Values(rest)),
            ).features.last();
            &&& f.code == code && f.name == name && f.values.len() == codes.len()
            &&& forall|i: int|
                0 <= i < codes.len() ==> (#[trigger] f.values[i]).code == codes[i]
                    && f.values[i].name.len() == 0
        }),
{
    let feature = CapsLine::Feature { code: Some(code), name };
    let start = lines.push(feature);
    let all = start.push(CapsLine::Values(rest));
    assert(start.drop_last() =~= lines);
    assert(all.drop_last() =~= start);
    lemma_listed(codes, remark);
    assert(words_of(rest) =~= codes.map_values(|c: u8| upper_hex(c)) + remark);
    assert(listed_codes(words_of(rest)) == codes);
    let opened = CapsState::start().after(start);
    assert(opened == CapsState::start().after(lines).step(feature));
    assert(CapsState::start().after(all) == opened.step(CapsLine::Values(rest)));
    let f = capabilities_of(all).features.last();
    assert(f == with_unnamed(declared(code, name), codes));
    assert forall|i: int| 0 <= i < codes.len() implies (#[trigger] f.values[i]).code == codes[i]
        && f.values[i].name.len() == 0 by {}
}

proof fn lemma_listed(codes: Seq<u8>, remark: Seq<Seq<char>>)
    requires
        remark.len() > 0 ==> remark[0].len() > 0 && remark[0][0] == '(',
    ensures
        listed_codes(codes.map_values(|c: u8| upper_hex(c)) + remark) == codes,
    decreases codes.len(),
{
    let words = codes.map_values(|c: u8| upper_hex(c)) + remark;
    if codes.len() == 0 {
        assert(words =~= remark);
        assert(listed_codes(words) =~= codes);
    } else {
        law_codes_read_back(codes[0], true);
        assert(words[0] == hex2(codes[0] as nat, true));
        if words[0].len() > 0 && words[0][0] == '(' {
            assert(!is_digit(words[0][0], 16));
        }
        lemma_listed(codes.skip(1), remark);
        assert(words.skip(1) =~= codes.skip(1).map_values(|c: u8| upper_hex(c)) + remark);
        assert(seq![codes[0]] + codes.skip(1) =~= codes);
    }
}

/// A list of values ends where a line says something else: an entry after that
/// belongs to no feature, and no feature that was read before is lost.
pub proof fn law_lists_end_at_other_lines(
    lines: Seq<CapsLine<Seq<char>>>,
    line: CapsLine<Seq<char>>,
    code: Option<u8>,
    name: Seq<char>,
)
    requires
        line is Other || line is Model || line is Version || (line is Feature
            && line->Feature_code is None),
    ensures
        capabilities_of(lines.push(line).push(CapsLine::Entry { code, name })) == capabilities_of(
            lines.push(line),
        ),
        capabilities_of(lines.push(line)).features == capabilities_of(lines).features,
        !(line is Model) ==> capabilities_of(lines.push(line)).model == capabilities_of(
            lines,
        ).model,
        !(line is Version) ==> capabilities_of(lines.push(line)).mccs_version == capabilities_of(
            lines,
        ).mccs_version,
{
    let entry = CapsLine::Entry { code, name };
    let one = lines.push(line);
    assert(one.drop_last() =~= lines);
    assert(one.push(entry).drop_last() =~= one);
    let before = CapsState::start().after(lines);
    assert(CapsState::start().after(one) == before.step(line));
    assert(CapsState::start().after(one.push(entry)) == before.step(line).step(entry));
}

} // verus!
