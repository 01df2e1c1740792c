//! Raw VCP screen. Shows every declared feature, including the
//! unrecognized/manufacturer-specific ones the controls screen never surfaces,
//! and supports editing a raw value by code.

use std::collections::HashMap;

use vstd::prelude::*;

use crate::app::{App, AppView};
use crate::components::{truncate_name, truncated};
use crate::input::{Rect, TableState};
use crate::numbers::{
    decimal, decimal_text, hex2, hex2_text, hex_byte, law_codes_read_back, law_numbers_read_back,
    parsed,
};
use crate::screens::push_count;
use crate::styles;
use crate::styles::{Line, LineView, Style};
use crate::text::{deep, ends_with, group_deep, owned, starts_with};
use crate::vcp::{Capabilities, FeatureReading, FeatureReadingView, RawBytes, VcpFeature};

verus! {

// ---- values --------------------------------------------------------------------

/// How reply bytes are shown.
pub open spec fn bytes_text(current: u16, b: RawBytes) -> Seq<char> {
    "0x"@ + hex2(current as nat, true) + "  (mh="@ + hex2(b.mh as nat, true) + " ml="@ + hex2(
        b.ml as nat,
        true,
    ) + " sh="@ + hex2(b.sh as nat, true) + " sl="@ + hex2(b.sl as nat, true) + ")"@
}

/// How a reading is shown. One that carries only a text is shown as that text:
/// no value was ever parsed for it.
pub open spec fn value_text(reading: Option<FeatureReadingView>) -> Seq<char> {
    match reading {
        None => "(not probed)"@,
        Some(r) => if !r.readable {
            "write-only (action)"@
        } else if r.continuous {
            decimal(r.current as nat) + " / "@ + decimal(r.max as nat)
        } else if r.raw is Some {
            bytes_text(r.current, r.raw->0)
        } else if r.generic {
            r.label
        } else if r.label.len() > 0 {
            r.label + " (0x"@ + hex2(r.current as nat, true) + ")"@
        } else {
            "0x"@ + hex2(r.current as nat, true)
        },
    }
}

/// How a reading is shown.
pub fn raw_value_string(reading: Option<&FeatureReading>) -> (r: String)
    ensures
        r@ == value_text(reading.deep_view()),
{
    let r = match reading {
        Some(r) => r,
        None => {
            return owned("(not probed)");
        },
    };
    if !r.readable {
        return owned("write-only (action)");
    }
    if r.continuous {
        let mut s = decimal_text(r.current as u64);
        s.append(" / ");
        s.append(decimal_text(r.max as u64).as_str());
        return s;
    }
    if let Some(b) = r.raw {
        let mut s = owned("0x");
        s.append(hex2_text(r.current, true).as_str());
        s.append("  (mh=");
        s.append(hex2_text(b.mh as u16, true).as_str());
        s.append(" ml=");
        s.append(hex2_text(b.ml as u16, true).as_str());
        s.append(" sh=");
        s.append(hex2_text(b.sh as u16, true).as_str());
        s.append(" sl=");
        s.append(hex2_text(b.sl as u16, true).as_str());
        s.append(")");
        return s;
    }
    if r.generic {
        return r.label.clone();
    }
    if !r.label.as_str().is_empty() {
        let mut s = r.label.clone();
        s.append(" (0x");
        s.append(hex2_text(r.current, true).as_str());
        s.append(")");
        return s;
    }
    let mut s = owned("0x");
    s.append(hex2_text(r.current, true).as_str());
    s
}

// ---- the table -----------------------------------------------------------------

/// How wide a feature's name is shown.
pub const NAME_COLUMN: usize = 34;

/// One row of the feature table.
#[derive(Debug)]
pub struct RawRow {
    pub code: String,
    pub name: String,
    pub category: String,
    pub category_style: Style,
    pub value: String,
}

pub struct RawRowView {
    pub code: Seq<char>,
    pub name: Seq<char>,
    pub category: Seq<char>,
    pub category_style: Style,
    pub value: Seq<char>,
}

impl DeepView for RawRow {
    type V = RawRowView;

    open spec fn deep_view(&self) -> RawRowView {
        RawRowView {
            code: self.code@,
            name: self.name@,
            category: self.category@,
            category_style: self.category_style,
            value: self.value@,
        }
    }
}

/// What is said of a feature's standing.
pub open spec fn standing(f: VcpFeature) -> (Seq<char>, Style) {
    if f.recognized {
        ("known"@, styles::ok())
    } else if f.manufacturer_specific {
        ("mfg-specific"@, styles::dim())
    } else {
        ("unknown"@, styles::dim())
    }
}

/// The reading of a code, where there is one.
pub open spec fn reading_of(readings: Map<u8, FeatureReading>, code: u8) -> Option<
    FeatureReadingView,
> {
    if readings.dom().contains(code) {
        Some(readings[code].deep_view())
    } else {
        None
    }
}

/// The row of a feature.
pub open spec fn raw_row(f: VcpFeature, readings: Map<u8, FeatureReading>) -> RawRowView {
    RawRowView {
        code: hex2(f.code as nat, true),
        name: truncated(f.name@, NAME_COLUMN as nat),
        category: standing(f).0,
        category_style: standing(f).1,
        value: value_text(reading_of(readings, f.code)),
    }
}

/// The rows of the table: every declared feature, in order.
pub open spec fn raw_rows(caps: Capabilities, readings: Map<u8, FeatureReading>) -> Seq<
    RawRowView,
> {
    caps.features@.map_values(|f: VcpFeature| raw_row(f, readings))
}

fn show_feature(f: &VcpFeature, readings: &HashMap<u8, FeatureReading>) -> (r: RawRow)
    ensures
        r.deep_view() == raw_row(*f, readings@),
{
    let (category, category_style) = if f.recognized {
        ("known", styles::ok())
    } else if f.manufacturer_specific {
        ("mfg-specific", styles::dim())
    } else {
        ("unknown", styles::dim())
    };
    RawRow {
        code: hex2_text(f.code as u16, true),
        name: truncate_name(f.name.as_str(), NAME_COLUMN),
        category: owned(category),
        category_style,
        value: raw_value_string(readings.get(&f.code)),
    }
}

/// Builds the rows of the feature table.
pub fn build_table(caps: &Capabilities, readings: &HashMap<u8, FeatureReading>) -> (r: Vec<
    RawRow,
>)
    ensures
        deep(r@) == raw_rows(*caps, readings@),
{
    broadcast use group_deep;

    let mut rows: Vec<RawRow> = Vec::new();
    let ghost want = raw_rows(*caps, readings@);
    for i in 0..caps.features.len()
        invariant
            want == raw_rows(*caps, readings@),
            deep(rows@) == want.take(i as int),
    {
        let row = show_feature(&caps.features[i], readings);
        assert(row.deep_view() == want[i as int]);
        rows.push(row);
        assert(want.take(i + 1) =~= want.take(i as int).push(want[i as int]));
    }
    assert(want.take(want.len() as int) =~= want);
    rows
}

/// The scroll bar beside the table.
#[derive(Debug, Clone, Copy, PartialEq, Eq, Structural)]
pub struct ScrollBar {
    pub len: usize,
    pub position: usize,
    pub viewport: usize,
}

/// The feature table, with the lines around it.
#[derive(Debug)]
pub struct RawTable {
    pub caption: Line,
    pub rows: Vec<RawRow>,
    pub scroll_bar: Option<ScrollBar>,
    pub status: Line,
    pub help: Line,
}

pub struct RawTableView {
    pub caption: LineView,
    pub rows: Seq<RawRowView>,
    pub scroll_bar: Option<ScrollBar>,
    pub status: LineView,
    pub help: LineView,
}

impl DeepView for RawTable {
    type V = RawTableView;

    open spec fn deep_view(&self) -> RawTableView {
        RawTableView {
            caption: self.caption.deep_view(),
            rows: deep(self.rows@),
            scroll_bar: self.scroll_bar,
            status: self.status.deep_view(),
            help: self.help.deep_view(),
        }
    }
}

/// What the table is about.
pub open spec fn caption_line(caps: Capabilities) -> LineView {
    LineView::styled(
        "Raw VCP — "@ + decimal(caps.features@.len()) + " features declared"@,
        styles::dim(),
    )
}

/// What became of the last write.
pub open spec fn status_line(a: AppView) -> LineView {
    if a.raw_writing {
        LineView::styled("Writing..."@, styles::dim())
    } else if a.raw_write_err is Some {
        LineView::styled("Write failed: "@ + a.raw_write_err->0, styles::err())
    } else {
        LineView::raw(""@)
    }
}

/// The table that a state shows. There is a scroll bar where not every feature
/// fits.
pub open spec fn table_of(a: AppView, caps: Capabilities) -> RawTableView {
    RawTableView {
        caption: caption_line(caps),
        rows: raw_rows(caps, a.raw_readings),
        scroll_bar: if caps.features@.len() > a.raw_visible_rows {
            Some(
                ScrollBar {
                    len: caps.features@.len() as usize,
                    position: a.raw_cursor,
                    viewport: a.raw_visible_rows,
                },
            )
        } else {
            None
        },
        status: status_line(a),
        help: LineView::styled(
            "↑↓/j/k move · click/scroll row · f/pgdn b/pgup page · e edit value · r rescan · esc/v back · q quit"@,
            styles::dim(),
        ),
    }
}

fn show_caption(caps: &Capabilities) -> (r: Line)
    ensures
        r.deep_view() == caption_line(*caps),
{
    let mut s = owned("Raw VCP — ");
    push_count(&mut s, caps.features.len());
    s.append(" features declared");
    Line::styled(s.as_str(), styles::dim())
}

fn show_status(app: &App) -> (r: Line)
    ensures
        r.deep_view() == status_line(app@),
{
    if app.raw_writing {
        return Line::styled("Writing...", styles::dim());
    }
    match &app.raw_write_err {
        Some(e) => {
            let mut s = owned("Write failed: ");
            s.append(e.as_str());
            Line::styled(s.as_str(), styles::err())
        },
        None => Line::raw(""),
    }
}

fn show_table(app: &App, caps: &Capabilities) -> (r: RawTable)
    ensures
        r.deep_view() == table_of(app@, *caps),
{
    let len: usize = caps.features.len();
    let scroll_bar = if len > app.raw_visible_rows {
        Some(ScrollBar { len, position: app.raw_cursor, viewport: app.raw_visible_rows })
    } else {
        None
    };
    RawTable {
        caption: show_caption(caps),
        rows: build_table(caps, &app.raw_readings),
        scroll_bar,
        status: show_status(app),
        help: Line::styled(
            "↑↓/j/k move · click/scroll row · f/pgdn b/pgup page · e edit value · r rescan · esc/v back · q quit",
            styles::dim(),
        ),
    }
}

// ---- prompts -------------------------------------------------------------------

/// The numeric-entry prompt for a feature.
pub open spec fn edit_lines(f: VcpFeature, input: Seq<char>, err: Seq<char>) -> Seq<LineView> {
    seq![LineView::raw("Set "@ + hex2(f.code as nat, true) + " ("@ + f.name@ + ")"@)] + (
    if f.recognized {
        Seq::empty()
    } else {
        seq![
            LineView::styled(
                "(unrecognized/manufacturer-specific — write needs permit-unknown)"@,
                styles::dim(),
            ),
        ]
    }) + seq![LineView::raw(""@), LineView::raw("New value: "@ + input + "█"@)] + (if err.len()
        == 0 {
        Seq::empty()
    } else {
        seq![LineView::raw(""@), LineView::styled(err, styles::err())]
    }) + seq![
        LineView::raw(""@),
        LineView::styled(
            "0-9 enter digits · enter confirm · backspace delete · esc cancel"@,
            styles::dim(),
        ),
    ]
}

/// The numeric-entry prompt for the currently selected row.
pub fn render_edit(app: &App) -> (r: Vec<Line>)
    requires
        app@.caps is Some ==> app@.raw_cursor < app@.caps->0.features@.len(),
    ensures
        deep(r@) == (match app@.caps {
            Some(caps) => edit_lines(
                caps.features@[app@.raw_cursor as int],
                app@.raw_edit_input,
                app@.raw_edit_err,
            ),
            None => Seq::empty(),
        }),
{
    broadcast use group_deep;

    let mut lines: Vec<Line> = Vec::new();
    if let Some(caps) = &app.caps {
        let f = &caps.features[app.raw_cursor];
        let mut title = owned("Set ");
        title.append(hex2_text(f.code as u16, true).as_str());
        title.append(" (");
        title.append(f.name.as_str());
        title.append(")");
        lines.push(Line::raw(title.as_str()));
        if !f.recognized {
            lines.push(
                Line::styled(
                    "(unrecognized/manufacturer-specific — write needs permit-unknown)",
                    styles::dim(),
                ),
            );
        }
        lines.push(Line::raw(""));
        let mut value = owned("New value: ");
        value.append(app.raw_edit_input.as_str());
        value.append("█");
        lines.push(Line::raw(value.as_str()));
        if !app.raw_edit_err.as_str().is_empty() {
            lines.push(Line::raw(""));
            lines.push(Line::styled(app.raw_edit_err.as_str(), styles::err()));
        }
        lines.push(Line::raw(""));
        lines.push(
            Line::styled(
                "0-9 enter digits · enter confirm · backspace delete · esc cancel",
                styles::dim(),
            ),
        );
        assert(deep(lines@) =~= edit_lines(*f, app@.raw_edit_input, app@.raw_edit_err));
    }
    lines
}

/// What a raw write is about to do.
pub open spec fn write_text(f: VcpFeature, value: u16) -> Seq<char> {
    "This writes "@ + decimal(value as nat) + " (0x"@ + hex2(value as nat, true) + ") to code "@
        + hex2(f.code as nat, true) + " ("@ + f.name@ + ") directly."@
}

/// The prompt before a raw write is sent.
pub open spec fn confirm_lines(f: VcpFeature, value: u16) -> Seq<LineView> {
    seq![
        LineView::styled("⚠ Write raw VCP value"@, styles::err()),
        LineView::raw(""@),
        LineView::raw(write_text(f, value)),
    ] + (if f.recognized {
        Seq::empty()
    } else {
        seq![
            LineView::raw("This code is not recognized — sending an arbitrary value to it"@),
            LineView::raw("is undocumented behavior; it may do nothing, or it may affect"@),
            LineView::raw("the monitor in a way this tool can't warn about."@),
        ]
    }) + seq![
        LineView::raw("There is no undo from software once it's sent."@),
        LineView::raw(""@),
        LineView::raw("Proceed? [y/N]"@),
        LineView::raw(""@),
        LineView::styled("y confirm · n/esc cancel"@, styles::dim()),
    ]
}

fn show_write(f: &VcpFeature, value: u16) -> (r: String)
    ensures
        r@ == write_text(*f, value),
{
    let mut s = owned("This writes ");
    s.append(decimal_text(value as u64).as_str());
    s.append(" (0x");
    s.append(hex2_text(value, true).as_str());
    s.append(") to code ");
    s.append(hex2_text(f.code as u16, true).as_str());
    s.append(" (");
    s.append(f.name.as_str());
    s.append(") directly.");
    s
}

/// The y/N gate shown after a valid value is entered, before it is actually
/// sent to the monitor.
pub fn render_confirm(app: &App) -> (r: Vec<Line>)
    requires
        app@.caps is Some ==> app@.raw_cursor < app@.caps->0.features@.len(),
    ensures
        deep(r@) == (match app@.caps {
            Some(caps) => confirm_lines(
                caps.features@[app@.raw_cursor as int],
                app@.raw_confirm_value,
            ),
            None => Seq::empty(),
        }),
{
    broadcast use group_deep;

    let mut lines: Vec<Line> = Vec::new();
    if let Some(caps) = &app.caps {
        let f = &caps.features[app.raw_cursor];
        lines.push(Line::styled("⚠ Write raw VCP value", styles::err()));
        lines.push(Line::raw(""));
        lines.push(Line::raw(show_write(f, app.raw_confirm_value).as_str()));
        if !f.recognized {
            lines.push(Line::raw("This code is not recognized — sending an arbitrary value to it"));
            lines.push(Line::raw("is undocumented behavior; it may do nothing, or it may affect"));
            lines.push(Line::raw("the monitor in a way this tool can't warn about."));
        }
        lines.push(Line::raw("There is no undo from software once it's sent."));
        lines.push(Line::raw(""));
        lines.push(Line::raw("Proceed? [y/N]"));
        lines.push(Line::raw(""));
        lines.push(Line::styled("y confirm · n/esc cancel", styles::dim()));
        assert(deep(lines@) =~= confirm_lines(*f, app@.raw_confirm_value));
    }
    lines
}

// ---- the screen ----------------------------------------------------------------

/// What a screen shows: lines of text, or the feature table.
#[derive(Debug)]
pub enum Content {
    Text(Vec<Line>),
    Table(RawTable),
}

pub enum ContentView {
    Text(Seq<LineView>),
    Table(RawTableView),
}

impl DeepView for Content {
    type V = ContentView;

    open spec fn deep_view(&self) -> ContentView {
        match *self {
            Content::Text(lines) => ContentView::Text(deep(lines@)),
            Content::Table(table) => ContentView::Table(table.deep_view()),
        }
    }
}

/// The lines of a state that has no table to show yet.
pub open spec fn waiting_lines(caps: Capabilities, line: LineView) -> Seq<LineView> {
    seq![caption_line(caps), LineView::raw(""@), line]
}

/// What the screen shows with the table in its place: an open prompt first, then
/// why there is no table, else the table.
pub open spec fn screen_content(a: AppView) -> ContentView {
    match a.caps {
        None => if a.raw_confirming || a.raw_editing {
            ContentView::Text(Seq::empty())
        } else {
            ContentView::Text(
                seq![LineView::styled("No capabilities loaded."@, styles::err())],
            )
        },
        Some(caps) => {
            let f = caps.features@[a.raw_cursor as int];
            if a.raw_confirming {
                ContentView::Text(confirm_lines(f, a.raw_confirm_value))
            } else if a.raw_editing {
                ContentView::Text(edit_lines(f, a.raw_edit_input, a.raw_edit_err))
            } else if a.raw_loading {
                ContentView::Text(
                    waiting_lines(
                        caps,
                        LineView::styled(
                            "Scanning all VCP codes — this takes a few seconds..."@,
                            styles::dim(),
                        ),
                    ),
                )
            } else if a.raw_err is Some {
                ContentView::Text(
                    waiting_lines(
                        caps,
                        LineView::styled("Error: "@ + a.raw_err->0, styles::err()),
                    ),
                )
            } else {
                ContentView::Table(table_of(a, caps))
            }
        },
    }
}

fn waiting(caps: &Capabilities, line: Line) -> (r: Content)
    ensures
        r.deep_view() == ContentView::Text(waiting_lines(*caps, line.deep_view())),
{
    broadcast use group_deep;

    let mut lines: Vec<Line> = Vec::new();
    lines.push(show_caption(caps));
    lines.push(Line::raw(""));
    lines.push(line);
    assert(deep(lines@) =~= waiting_lines(*caps, line.deep_view()));
    Content::Text(lines)
}

/// The state once the table has been given its place: it knows where the table
/// is and how many features fit below its header row, and the focused feature
/// is selected.
pub open spec fn placed(a: AppView, area: Rect) -> AppView {
    AppView {
        raw_visible_rows: if area.height <= 1 {
            1
        } else {
            (area.height - 1) as usize
        },
        raw_table_area: area,
        raw_table_state: TableState { selected: Some(a.raw_cursor), ..a.raw_table_state },
        ..a
    }
}

/// Gives the table its place, before it is shown there.
fn place_table(app: &mut App, area: Rect)
    ensures
        final(app)@ == placed(old(app)@, area),
{
    app.raw_visible_rows = if area.height <= 1 {
        1
    } else {
        (area.height - 1) as usize
    };
    app.raw_table_area = area;
    app.raw_table_state.selected = Some(app.raw_cursor);
}

/// Whether the screen shows the table.
pub open spec fn shows_table(a: AppView) -> bool {
    a.caps is Some && !a.raw_confirming && !a.raw_editing && !a.raw_loading && a.raw_err is None
}

/// The state once the screen has been shown, with `table_area` for the table,
/// and what was shown.
pub open spec fn drawn(a: AppView, table_area: Rect) -> (AppView, ContentView) {
    let shown = if shows_table(a) {
        placed(a, table_area)
    } else {
        a
    };
    (shown, screen_content(shown))
}

fn show_screen(app: &App) -> (r: Content)
    requires
        app@.feature_is_there(),
    ensures
        r.deep_view() == screen_content(app@),
{
    broadcast use group_deep;

    if app.raw_confirming {
        return Content::Text(render_confirm(app));
    }
    if app.raw_editing {
        return Content::Text(render_edit(app));
    }
    match &app.caps {
        None => {
            let mut lines: Vec<Line> = Vec::new();
            lines.push(Line::styled("No capabilities loaded.", styles::err()));
            assert(deep(lines@) =~= seq![
                LineView::styled("No capabilities loaded."@, styles::err()),
            ]);
            Content::Text(lines)
        },
        Some(caps) => {
            if app.raw_loading {
                return waiting(
                    caps,
                    Line::styled(
                        "Scanning all VCP codes — this takes a few seconds...",
                        styles::dim(),
                    ),
                );
            }
            if let Some(e) = &app.raw_err {
                let mut s = owned("Error: ");
                s.append(e.as_str());
                return waiting(caps, Line::styled(s.as_str(), styles::err()));
            }
            Content::Table(show_table(app, caps))
        },
    }
}

/// What the Raw VCP screen shows, with `table_area` for the table.
pub fn draw(app: &mut App, table_area: Rect) -> (r: Content)
    requires
        old(app)@.feature_is_there(),
    ensures
        final(app)@ == drawn(old(app)@, table_area).0,
        r.deep_view() == drawn(old(app)@, table_area).1,
{
    if app.caps.is_some() && !app.raw_confirming && !app.raw_editing && !app.raw_loading
        && app.raw_err.is_none() {
        place_table(app, table_area);
    }
    show_screen(app)
}

// ---- laws ----------------------------------------------------------------------

/// A reading that carries only a text is shown as that text alone: no value is
/// made up for it.
pub proof fn law_generic_reading_shows_its_text(r: FeatureReadingView)
    requires
        r.readable && r.generic && !r.continuous && r.raw is None,
    ensures
        value_text(Some(r)) == r.label,
{
}

/// Every declared feature has a row in the table, in order, whether it is
/// recognized or not.
pub proof fn law_every_feature_has_a_row(
    caps: Capabilities,
    readings: Map<u8, FeatureReading>,
    i: int,
)
    requires
        0 <= i < caps.features@.len(),
    ensures
        raw_rows(caps, readings).len() == caps.features@.len(),
        raw_rows(caps, readings)[i] == raw_row(caps.features@[i], readings),
{
}

/// A click on a feature's row of the table focuses that feature, wherever the
/// table is scrolled to.
pub proof fn law_click_focuses_the_row(a: AppView, area: Rect, offset: usize, i: int)
    requires
        offset <= i < a.feature_count(),
        a.feature_count() <= usize::MAX,
        i - offset + 1 < area.height,
        area.y + area.height <= u16::MAX,
    ensures
        ({
            let shown = AppView {
                raw_table_state: TableState { offset, selected: None },
                ..placed(a, area)
            };
            shown.raw_row_at((area.y + 1 + i - offset) as u16) == Some(i as usize)
        }),
{
}

/// How a reading is shown: that there is none, that there is nothing to read, the
/// value and the maximum of what is continuous, all reply bytes of what is not
/// understood, and else the label with the value behind it.
pub proof fn law_readings_are_shown_as_they_are(r: FeatureReadingView)
    ensures
        value_text(None) == "(not probed)"@,
        !r.readable ==> value_text(Some(r)) == "write-only (action)"@,
        r.readable && r.continuous ==> starts_with(value_text(Some(r)), decimal(r.current as nat))
            && ends_with(value_text(Some(r)), decimal(r.max as nat)),
        r.readable && !r.continuous && r.raw is None && !r.generic ==> {
            &&& starts_with(value_text(Some(r)), r.label)
            &&& r.label.len() > 0 ==> ends_with(
                value_text(Some(r)),
                "(0x"@ + hex2(r.current as nat, true) + ")"@,
            )
            &&& r.label.len() == 0 ==> value_text(Some(r)) == "0x"@ + hex2(r.current as nat, true)
        },
        r.readable && !r.continuous ==> (r.raw matches Some(b) ==> starts_with(
            value_text(Some(r)),
            "0x"@ + hex2(r.current as nat, true),
        ) && ends_with(
            value_text(Some(r)),
            "(mh="@ + hex2(b.mh as nat, true) + " ml="@ + hex2(b.ml as nat, true) + " sh="@ + hex2(
                b.sh as nat,
                true,
            ) + " sl="@ + hex2(b.sl as nat, true) + ")"@,
        )),
{
    let t = value_text(Some(r));
    let current = decimal(r.current as nat);
    let max = decimal(r.max as nat);
    let hex = hex2(r.current as nat, true);
    reveal_strlit(" (0x");
    reveal_strlit("(0x");
    reveal_strlit("  (mh=");
    reveal_strlit("(mh=");
    reveal_strlit(")");
    if r.readable && r.continuous {
        assert(t.take(current.len() as int) =~= current);
        assert(t.skip(t.len() - max.len()) =~= max);
    } else if r.readable && r.raw is Some {
        let b = r.raw->0;
        let start = "0x"@ + hex;
        let end = "(mh="@ + hex2(b.mh as nat, true) + " ml="@ + hex2(b.ml as nat, true) + " sh="@
            + hex2(b.sh as nat, true) + " sl="@ + hex2(b.sl as nat, true) + ")"@;
        assert(t =~= start + "  "@ + end) by {
            reveal_strlit("  ");
        }
        assert(t.take(start.len() as int) =~= start);
        assert(t.skip(t.len() - end.len()) =~= end);
    } else if r.readable && !r.generic {
        if r.label.len() > 0 {
            let end = "(0x"@ + hex + ")"@;
            assert(t.take(r.label.len() as int) =~= r.label);
            assert(t.skip(t.len() - end.len()) =~= end);
        } else {
            assert(t.take(0) =~= r.label);
        }
    }
}

/// The row of a feature shows its code, its name, how it stands, and its reading:
/// the one of its own code.
pub proof fn law_a_row_shows_its_own_feature(f: VcpFeature, readings: Map<u8, FeatureReading>)
    ensures
        ({
            let row = raw_row(f, readings);
            &&& hex_byte(row.code) == Some(f.code)
            &&& f.name@.len() <= 34 ==> row.name == f.name@
            &&& f.name@.len() > 34 ==> row.name.len() == 34 && row.name.take(31) == f.name@.take(31)
            &&& f.recognized ==> row.category == "known"@
            &&& !f.recognized && f.manufacturer_specific ==> row.category == "mfg-specific"@
            &&& !f.recognized && !f.manufacturer_specific ==> row.category == "unknown"@
            &&& readings.dom().contains(f.code) ==> row.value == value_text(
                Some(readings[f.code].deep_view()),
            )
            &&& !readings.dom().contains(f.code) ==> row.value == value_text(None)
        }),
{
    law_codes_read_back(f.code, true);
    reveal_strlit("...");
    let t = truncated(f.name@, 34);
    if f.name@.len() > 34 {
        assert(t.take(31) =~= f.name@.take(31));
    }
}

/// The table shows every declared feature, the focused one being selected, and a
/// scroll bar exactly where they do not all fit.
pub proof fn law_the_table_shows_every_feature(a: AppView, area: Rect, i: int)
    requires
        a.caps is Some && a.caps->0.features@.len() <= usize::MAX,
        !a.raw_confirming && !a.raw_editing && !a.raw_loading && a.raw_err is None,
    ensures
        ({
            let shown = drawn(a, area);
            let features = a.caps->0.features@;
            &&& shown.1 matches ContentView::Table(table)
            &&& table.rows.len() == features.len()
            &&& 0 <= i < features.len() ==> table.rows[i] == raw_row(features[i], a.raw_readings)
            &&& table.scroll_bar is Some <==> features.len() > shown.0.raw_visible_rows
            &&& table.scroll_bar matches Some(bar) ==> bar.len == features.len() && bar.position
                == a.raw_cursor && bar.viewport == shown.0.raw_visible_rows
            &&& shown.0.raw_table_state.selected == Some(a.raw_cursor)
            &&& shown.0.raw_table_state.offset == a.raw_table_state.offset
            &&& shown.0.raw_table_area == area
            &&& area.height > 1 ==> shown.0.raw_visible_rows == area.height - 1
            &&& area.height <= 1 ==> shown.0.raw_visible_rows == 1
            &&& a.raw_writing ==> table.status.spans[0].text == "Writing..."@
            &&& !a.raw_writing && a.raw_write_err is Some ==> ends_with(
                table.status.spans[0].text,
                a.raw_write_err->0,
            )
            &&& !a.raw_writing && a.raw_write_err is None ==> table.status.spans[0].text == ""@
        }),
{
    if let Some(e) = a.raw_write_err {
        let t = "Write failed: "@ + e;
        assert(t.skip(t.len() - e.len()) =~= e);
    }
}

/// The prompt of a raw write names the value and the feature that a yes will write
/// to, and warns exactly where that feature is not recognized.
pub proof fn law_the_prompt_names_what_is_written(f: VcpFeature, value: u16)
    ensures
        ({
            let lines = confirm_lines(f, value);
            let text = lines[2].spans[0].text;
            &&& starts_with(
                text,
                "This writes "@ + decimal(value as nat) + " (0x"@ + hex2(value as nat, true),
            )
            &&& ends_with(text, hex2(f.code as nat, true) + " ("@ + f.name@ + ") directly."@)
            &&& lines.len() == (if f.recognized {
                8nat
            } else {
                11nat
            })
            &&& !f.recognized ==> lines[3].spans[0].text
                == "This code is not recognized — sending an arbitrary value to it"@
        }),
{
    let text = write_text(f, value);
    let start = "This writes "@ + decimal(value as nat) + " (0x"@ + hex2(value as nat, true);
    let end = hex2(f.code as nat, true) + " ("@ + f.name@ + ") directly."@;
    assert(text.take(start.len() as int) =~= start);
    assert(text.skip(text.len() - end.len()) =~= end);
}

/// The entry prompt names the feature, shows what has been entered, says what is
/// wrong with it, and warns exactly where the feature is not recognized.
pub proof fn law_the_entry_prompt_shows_the_input(f: VcpFeature, input: Seq<char>, err: Seq<char>)
    ensures
        ({
            let lines = edit_lines(f, input, err);
            let at = if f.recognized {
                2int
            } else {
                3int
            };
            &&& lines[0].spans[0].text == "Set "@ + hex2(f.code as nat, true) + " ("@ + f.name@
                + ")"@
            &&& lines[at].spans[0].text == "New value: "@ + input + "█"@
            &&& !f.recognized ==> lines[1].spans[0].text
                == "(unrecognized/manufacturer-specific — write needs permit-unknown)"@
            &&& err.len() > 0 ==> lines[at + 2].spans[0].text == err
            &&& lines.len() == at + 3 + (if err.len() > 0 {
                2int
            } else {
                0int
            })
        }),
{
}

/// What the screen shows comes first to last: the prompt of a write for the focused
/// feature and its value, then the entry prompt, that a scan is running, and why it
/// failed.
pub proof fn law_prompts_come_before_the_table(a: AppView)
    requires
        a.caps is Some && a.raw_cursor < a.caps->0.features@.len(),
    ensures
        ({
            let f = a.caps->0.features@[a.raw_cursor as int];
            let shown = screen_content(a);
            &&& a.raw_confirming ==> shown == ContentView::Text(
                confirm_lines(f, a.raw_confirm_value),
            )
            &&& !a.raw_confirming && a.raw_editing ==> shown == ContentView::Text(
                edit_lines(f, a.raw_edit_input, a.raw_edit_err),
            )
            &&& !a.raw_confirming && !a.raw_editing && a.raw_loading ==> shown is Text
                && shown->Text_0[2].spans[0].text
                == "Scanning all VCP codes — this takes a few seconds..."@
            &&& !a.raw_confirming && !a.raw_editing && !a.raw_loading && a.raw_err is Some
                ==> shown is Text && ends_with(shown->Text_0[2].spans[0].text, a.raw_err->0)
            &&& !a.raw_confirming && !a.raw_editing && !a.raw_loading && a.raw_err is None
                ==> shown is Table
        }),
{
    if let Some(e) = a.raw_err {
        let t = "Error: "@ + e;
        assert(t.skip(t.len() - e.len()) =~= e);
    }
}

/// Without capabilities there is nothing but a word on that.
pub proof fn law_without_capabilities_there_is_no_table(a: AppView)
    requires
        a.caps is None && !a.raw_confirming && !a.raw_editing,
    ensures
        screen_content(a) matches ContentView::Text(lines) && lines.len() == 1
            && lines[0].spans[0].text == "No capabilities loaded."@,
{
}

/// The caption says how many features are declared.
pub proof fn law_the_caption_counts_the_features(caps: Capabilities)
    requires
        caps.features@.len() <= usize::MAX,
    ensures
        ({
            let text = caption_line(caps).spans[0].text;
            let before = "Raw VCP — "@;
            let after = " features declared"@;
            &&& caption_line(caps).spans.len() == 1
            &&& starts_with(text, before) && ends_with(text, after)
            &&& before.len() + after.len() <= text.len()
            &&& parsed(
                text.subrange(before.len() as int, text.len() - after.len()),
                10,
                usize::MAX as nat,
            ) == Some(caps.features@.len())
        }),
{
    let n = caps.features@.len();
    let before = "Raw VCP — "@;
    let after = " features declared"@;
    let text = before + decimal(n) + after;
    law_numbers_read_back(n, 10, false, usize::MAX as nat);
    assert(text.take(before.len() as int) =~= before);
    assert(text.skip(text.len() - after.len()) =~= after);
    assert(text.subrange(before.len() as int, text.len() - after.len()) =~= decimal(n));
}

/// Showing the screen changes nothing but where the table stands, and that only
/// where the table is what is shown.
pub proof fn law_only_the_table_takes_its_place(a: AppView, area: Rect)
    ensures
        ({
            let b = drawn(a, area).0;
            &&& b == (AppView {
                raw_visible_rows: b.raw_visible_rows,
                raw_table_area: b.raw_table_area,
                raw_table_state: b.raw_table_state,
                ..a
            })
            &&& drawn(a, area).1 is Table ==> b.raw_table_area == area && b.raw_visible_rows >= 1
                && b.raw_table_state.offset == a.raw_table_state.offset
            &&& drawn(a, area).1 is Text ==> b == a
            &&& drawn(a, area).1 is Table <==> a.caps is Some && !a.raw_confirming && !a.raw_editing
                && !a.raw_loading && a.raw_err is None
        }),
{
}

} // verus!
