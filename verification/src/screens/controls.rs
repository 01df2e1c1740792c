//! The main controls screen.

use vstd::prelude::*;

use crate::app::{points_at, App, AppView, ClickTarget};
use crate::categories::{
    category_for, category_of, label_of, nth_section, place_of as place_of_section, section_at,
    Category, SECTIONS,
};
use crate::commands::CtrlKind;
use crate::components::{action_line, marker, selector_line, slider_line};
use crate::numbers::decimal;
use crate::screens::{
    blank_row, empty_row, inert, inert_row, lines_of_rows, place_of, push_count, show_place,
    split_rows, targets_of_rows, Row, RowView,
};
use crate::styles;
use crate::styles::{Line, LineView, Span, SpanView};
use crate::text::{deep, ends_with, group_deep, owned};
use crate::vcp::{Capabilities, Display, VcpFeature};

verus! {

// ---- displays ------------------------------------------------------------------

/// What stands in front of a display: a marker, where there is more than one.
pub open spec fn display_prefix(multi: bool, chosen: bool) -> Seq<char> {
    if multi {
        marker(chosen)
    } else {
        ""@
    }
}

/// The row that shows a display.
pub open spec fn display_line(d: Display, multi: bool, chosen: bool) -> LineView {
    let start = seq![
        SpanView::raw(display_prefix(multi, chosen)),
        SpanView::styled("● "@, styles::ok()),
        SpanView::raw(d.mfg_id@),
    ];
    let named = if d.model@.len() > 0 {
        start.push(SpanView::raw(" "@ + d.model@))
    } else {
        start
    };
    LineView::of(named.push(SpanView::styled(place_of(d), styles::dim())))
}

/// The rows that show the displays. They can be clicked only where there is
/// more than one.
pub open spec fn display_rows(a: AppView) -> Seq<RowView> {
    let multi = a.displays.len() > 1;
    Seq::new(
        a.displays.len(),
        |i: int|
            RowView {
                line: display_line(a.displays[i], multi, i == a.selected),
                target: if multi {
                    Some(ClickTarget::Display(i as usize))
                } else {
                    None
                },
            },
    )
}

fn show_display(d: &Display, multi: bool, chosen: bool) -> (r: Line)
    ensures
        r.deep_view() == display_line(*d, multi, chosen),
{
    broadcast use group_deep;

    let prefix = if multi {
        if chosen {
            "▸ "
        } else {
            "  "
        }
    } else {
        ""
    };
    let mut spans: Vec<Span> = Vec::new();
    spans.push(Span::raw(prefix));
    spans.push(Span::styled("● ", styles::ok()));
    spans.push(Span::raw(d.mfg_id.as_str()));
    assert(deep(spans@) =~= seq![
        SpanView::raw(display_prefix(multi, chosen)),
        SpanView::styled("● "@, styles::ok()),
        SpanView::raw(d.mfg_id@),
    ]);
    if !d.model.as_str().is_empty() {
        let mut model = owned(" ");
        model.append(d.model.as_str());
        spans.push(Span::raw(model.as_str()));
    }
    spans.push(Span::styled(show_place(d).as_str(), styles::dim()));
    Line::of(spans)
}

fn push_display_rows(rows: &mut Vec<Row>, app: &App)
    ensures
        deep(final(rows)@) == deep(old(rows)@) + display_rows(app@),
{
    broadcast use group_deep;

    let multi = app.displays.len() > 1;
    let ghost want = display_rows(app@);
    let ghost before = deep(rows@);
    assert(before + want.take(0) =~= before);
    for i in 0..app.displays.len()
        invariant
            multi == (app@.displays.len() > 1),
            want == display_rows(app@),
            deep(rows@) == before + want.take(i as int),
    {
        let line = show_display(&app.displays[i], multi, i == app.selected);
        let target = if multi {
            Some(ClickTarget::Display(i))
        } else {
            None
        };
        rows.push(Row { line, target });
        assert(before + want.take(i + 1) =~= (before + want.take(i as int)).push(want[i as int]));
    }
    assert(want.take(want.len() as int) =~= want);
}

// ---- controls ------------------------------------------------------------------

/// How many features are not recognized.
pub open spec fn unrecognized(features: Seq<VcpFeature>) -> nat
    decreases features.len(),
{
    if features.len() == 0 {
        0
    } else if features.last().recognized {
        unrecognized(features.drop_last())
    } else {
        unrecognized(features.drop_last()) + 1
    }
}

fn count_unrecognized(caps: &Capabilities) -> (r: usize)
    ensures
        r == unrecognized(caps.features@),
{
    let mut n: usize = 0;
    assert(caps.features@.take(0) =~= Seq::empty());
    for i in 0..caps.features.len()
        invariant
            n == unrecognized(caps.features@.take(i as int)),
            n <= i,
    {
        assert(caps.features@.take(i + 1).drop_last() =~= caps.features@.take(i as int));
        if !caps.features[i].recognized {
            n = n + 1;
        }
    }
    assert(caps.features@.take(caps.features@.len() as int) =~= caps.features@);
    n
}

/// The summary of a scan.
pub open spec fn summary_text(total: nat, shown: nat, unknown: nat) -> Seq<char> {
    decimal(total) + " VCP features declared · "@ + decimal(shown) + " shown as controls · "@
        + decimal(unknown) + " unrecognized/mfg-specific"@
}

fn summary_line(total: usize, shown: usize, unknown: usize) -> (r: String)
    ensures
        r@ == summary_text(total as nat, shown as nat, unknown as nat),
{
    let mut s = String::new();
    push_count(&mut s, total);
    assert(s@ =~= decimal(total as nat));
    s.append(" VCP features declared · ");
    push_count(&mut s, shown);
    s.append(" shown as controls · ");
    push_count(&mut s, unknown);
    s.append(" unrecognized/mfg-specific");
    s
}

/// How many controls are shown.
pub open spec fn shown_controls(a: AppView) -> nat {
    a.sliders.len() + a.selectors.len() + a.actions.len()
}

/// The rows that sum up a scan.
pub open spec fn summary_rows(a: AppView, caps: Capabilities) -> Seq<RowView> {
    seq![
        inert(
            LineView::of(
                seq![
                    SpanView::styled("● "@, styles::ok()),
                    SpanView::raw("MCCS "@ + caps.mccs_version@),
                ],
            ),
        ),
        inert(
            LineView::styled(
                summary_text(
                    caps.features@.len(),
                    shown_controls(a),
                    unrecognized(caps.features@),
                ),
                styles::dim(),
            ),
        ),
        blank_row(),
    ]
}

fn push_summary_rows(rows: &mut Vec<Row>, app: &App, caps: &Capabilities)
    requires
        shown_controls(app@) <= usize::MAX,
    ensures
        deep(final(rows)@) == deep(old(rows)@) + summary_rows(app@, *caps),
{
    broadcast use group_deep;

    let unknown: usize = count_unrecognized(caps);
    let shown: usize = app.sliders.len() + app.selectors.len() + app.actions.len();
    let mut version = owned("MCCS ");
    version.append(caps.mccs_version.as_str());
    let mut spans: Vec<Span> = Vec::new();
    spans.push(Span::styled("● ", styles::ok()));
    spans.push(Span::raw(version.as_str()));
    assert(deep(spans@) =~= seq![
        SpanView::styled("● "@, styles::ok()),
        SpanView::raw("MCCS "@ + caps.mccs_version@),
    ]);
    rows.push(inert_row(Line::of(spans)));
    rows.push(
        inert_row(
            Line::styled(
                summary_line(caps.features.len(), shown, unknown).as_str(),
                styles::dim(),
            ),
        ),
    );
    rows.push(empty_row());
    assert(deep(rows@) =~= deep(old(rows)@) + summary_rows(app@, *caps));
}

/// The row of a control, without the mark of an unconfirmed value.
pub open spec fn plain_control_line(a: AppView, i: int) -> LineView {
    let focused = i == a.cursor;
    let r = a.order[i];
    match r.kind {
        CtrlKind::Slider => slider_line(a.sliders[r.idx as int].deep_view(), focused),
        CtrlKind::Selector => selector_line(a.selectors[r.idx as int].deep_view(), focused),
        CtrlKind::Action => action_line(a.actions[r.idx as int].deep_view(), focused),
    }
}

/// The code of a control.
pub open spec fn control_code(a: AppView, i: int) -> u8 {
    let r = a.order[i];
    match r.kind {
        CtrlKind::Slider => a.sliders[r.idx as int].code,
        CtrlKind::Selector => a.selectors[r.idx as int].code,
        CtrlKind::Action => a.actions[r.idx as int].code,
    }
}

/// The row of a control. A value that no live read has confirmed yet is marked.
pub open spec fn control_line(a: AppView, i: int) -> LineView {
    let line = plain_control_line(a, i);
    if a.pending.contains(control_code(a, i)) {
        LineView { spans: line.spans.push(SpanView::styled(" …"@, styles::dim())), ..line }
    } else {
        line
    }
}

/// The section that a control is shown in.
pub open spec fn control_section(a: AppView, i: int) -> Category {
    category_of(control_code(a, i))
}

/// The row of a control, which can be clicked.
pub open spec fn control_row(a: AppView, i: int) -> RowView {
    RowView { line: control_line(a, i), target: Some(ClickTarget::Order(i as usize)) }
}

/// The rows of those of the first `n` controls that a section holds, in order.
pub open spec fn rows_in(a: AppView, c: Category, n: nat) -> Seq<RowView>
    decreases n,
{
    if n == 0 {
        Seq::empty()
    } else if control_section(a, n - 1) == c {
        rows_in(a, c, (n - 1) as nat).push(control_row(a, n - 1))
    } else {
        rows_in(a, c, (n - 1) as nat)
    }
}

/// The heading of a section.
pub open spec fn heading(c: Category) -> RowView {
    inert(LineView::styled(label_of(c), styles::section()))
}

/// Rows under the heading of their section; nothing where there are none.
pub open spec fn headed(c: Category, rows: Seq<RowView>) -> Seq<RowView> {
    if rows.len() == 0 {
        Seq::empty()
    } else {
        seq![heading(c)] + rows
    }
}

/// The rows of a section.
pub open spec fn section_rows(a: AppView, c: Category) -> Seq<RowView> {
    headed(c, rows_in(a, c, a.order.len()))
}

/// The rows of the first `n` sections.
pub open spec fn sections_upto(a: AppView, n: nat) -> Seq<RowView>
    decreases n,
{
    if n == 0 {
        Seq::empty()
    } else {
        sections_upto(a, (n - 1) as nat) + section_rows(a, section_at(n - 1))
    }
}

/// The rows of the controls, section by section.
pub open spec fn control_rows(a: AppView) -> Seq<RowView> {
    sections_upto(a, SECTIONS as nat)
}

fn show_control(app: &App, i: usize) -> (r: Line)
    requires
        app@.wf(),
        i < app@.order.len(),
    ensures
        r.deep_view() == control_line(app@, i as int),
{
    broadcast use group_deep;

    let focused = i == app.cursor;
    let r = app.order[i];
    assert(points_at(app@.order[i as int], app@.sliders, app@.selectors, app@.actions));
    let mut line = match r.kind {
        CtrlKind::Slider => app.sliders[r.idx].view(focused),
        CtrlKind::Selector => app.selectors[r.idx].view(focused),
        CtrlKind::Action => app.actions[r.idx].view(focused),
    };
    if app.pending.contains(&code_of(app, i)) {
        line.spans.push(Span::styled(" …", styles::dim()));
    }
    line
}

fn code_of(app: &App, i: usize) -> (r: u8)
    requires
        app@.wf(),
        i < app@.order.len(),
    ensures
        r == control_code(app@, i as int),
{
    let r = app.order[i];
    assert(points_at(app@.order[i as int], app@.sliders, app@.selectors, app@.actions));
    match r.kind {
        CtrlKind::Slider => app.sliders[r.idx].code,
        CtrlKind::Selector => app.selectors[r.idx].code,
        CtrlKind::Action => app.actions[r.idx].code,
    }
}

fn push_section_rows(rows: &mut Vec<Row>, app: &App, c: Category)
    requires
        app@.wf(),
    ensures
        deep(final(rows)@) == deep(old(rows)@) + section_rows(app@, c),
{
    broadcast use group_deep;

    let ghost before = deep(rows@);
    let mut started = false;
    assert(before + headed(c, rows_in(app@, c, 0)) =~= before);
    for i in 0..app.order.len()
        invariant
            app@.wf(),
            started == (rows_in(app@, c, i as nat).len() > 0),
            deep(rows@) == before + headed(c, rows_in(app@, c, i as nat)),
    {
        let ghost shown = rows_in(app@, c, i as nat);
        if category_for(code_of(app, i)) == c {
            if !started {
                rows.push(inert_row(Line::styled(c.label(), styles::section())));
                started = true;
            }
            let ghost above = deep(rows@);
            assert(above =~= before + (seq![heading(c)] + shown));
            let row = Row { line: show_control(app, i), target: Some(ClickTarget::Order(i)) };
            assert(row.deep_view() == control_row(app@, i as int));
            rows.push(row);
            assert(deep(rows@) == above.push(row.deep_view()));
            assert(rows_in(app@, c, (i + 1) as nat) == shown.push(row.deep_view()));
            assert(deep(rows@) =~= before + (seq![heading(c)] + shown.push(row.deep_view())));
        } else {
            assert(rows_in(app@, c, (i + 1) as nat) == shown);
        }
    }
}

fn push_control_rows(rows: &mut Vec<Row>, app: &App)
    requires
        app@.wf(),
    ensures
        deep(final(rows)@) == deep(old(rows)@) + control_rows(app@),
{
    let ghost before = deep(rows@);
    assert(before + sections_upto(app@, 0) =~= before);
    for n in 0..SECTIONS
        invariant
            app@.wf(),
            deep(rows@) == before + sections_upto(app@, n as nat),
    {
        push_section_rows(rows, app, nth_section(n));
        assert(before + sections_upto(app@, (n + 1) as nat) =~= before + sections_upto(
            app@,
            n as nat,
        ) + section_rows(app@, section_at(n as int)));
    }
}

/// The rows of the last error of a control.
pub open spec fn op_err_rows(a: AppView) -> Seq<RowView> {
    match a.op_err {
        Some(e) => seq![blank_row(), inert(LineView::styled("Failed: "@ + e, styles::err()))],
        None => Seq::empty(),
    }
}

/// The rows below the displays.
pub open spec fn probed_rows(a: AppView) -> Seq<RowView> {
    if a.probing {
        seq![inert(LineView::styled("Reading VCP features..."@, styles::dim()))]
    } else if a.probe_err is Some {
        seq![inert(LineView::styled("Probe error: "@ + a.probe_err->0, styles::err()))]
    } else if a.caps is Some {
        summary_rows(a, a.caps->0) + control_rows(a) + op_err_rows(a)
    } else {
        Seq::empty()
    }
}

/// The rows of the screen, above the help.
pub open spec fn body_rows(a: AppView) -> Seq<RowView> {
    if a.loading {
        seq![inert(LineView::styled("Detecting monitors..."@, styles::dim()))]
    } else if a.err is Some {
        seq![inert(LineView::styled("Error: "@ + a.err->0, styles::err()))]
    } else if a.displays.len() == 0 {
        seq![inert(LineView::styled("No DDC/CI capable displays found."@, styles::err()))]
    } else {
        display_rows(a) + seq![blank_row()] + probed_rows(a)
    }
}

fn push_failed(rows: &mut Vec<Row>, what: &str, e: &str)
    ensures
        deep(final(rows)@) == deep(old(rows)@).push(
            inert(LineView::styled(what@ + e@, styles::err())),
        ),
{
    broadcast use group_deep;

    let mut text = owned(what);
    text.append(e);
    rows.push(inert_row(Line::styled(text.as_str(), styles::err())));
}

fn push_probed_rows(rows: &mut Vec<Row>, app: &App)
    requires
        app@.wf(),
        shown_controls(app@) <= usize::MAX,
    ensures
        deep(final(rows)@) == deep(old(rows)@) + probed_rows(app@),
{
    broadcast use group_deep;

    let ghost before = deep(rows@);
    if app.probing {
        rows.push(inert_row(Line::styled("Reading VCP features...", styles::dim())));
        assert(deep(rows@) =~= before + probed_rows(app@));
        return;
    }
    if let Some(e) = &app.probe_err {
        push_failed(rows, "Probe error: ", e.as_str());
        assert(deep(rows@) =~= before + probed_rows(app@));
        return;
    }
    if let Some(caps) = &app.caps {
        push_summary_rows(rows, app, caps);
        push_control_rows(rows, app);
        if let Some(e) = &app.op_err {
            rows.push(empty_row());
            push_failed(rows, "Failed: ", e.as_str());
        }
    }
    assert(deep(rows@) =~= before + probed_rows(app@));
}

fn show_body(app: &App) -> (r: Vec<Row>)
    requires
        app@.wf(),
        shown_controls(app@) <= usize::MAX,
    ensures
        deep(r@) == body_rows(app@),
{
    broadcast use group_deep;

    let mut rows: Vec<Row> = Vec::new();
    if app.loading {
        rows.push(inert_row(Line::styled("Detecting monitors...", styles::dim())));
        assert(deep(rows@) =~= body_rows(app@));
        return rows;
    }
    if let Some(e) = &app.err {
        push_failed(&mut rows, "Error: ", e.as_str());
        assert(deep(rows@) =~= body_rows(app@));
        return rows;
    }
    if app.displays.len() == 0 {
        rows.push(inert_row(Line::styled("No DDC/CI capable displays found.", styles::err())));
        assert(deep(rows@) =~= body_rows(app@));
        return rows;
    }
    push_display_rows(&mut rows, app);
    rows.push(empty_row());
    push_probed_rows(&mut rows, app);
    assert(deep(rows@) =~= body_rows(app@));
    rows
}

/// Whether lines and click targets belong together: as many of one as of the
/// other, each line with a target is the row of that control or display, none of
/// these has two, and a display can be clicked only where there is more than one.
pub open spec fn in_lockstep(
    a: AppView,
    lines: Seq<LineView>,
    targets: Seq<Option<ClickTarget>>,
) -> bool {
    &&& lines.len() == targets.len()
    &&& forall|j: int|
        0 <= j < targets.len() ==> match #[trigger] targets[j] {
            Some(ClickTarget::Order(k)) => k < a.order.len() && lines[j] == control_row(
                a,
                k as int,
            ).line,
            Some(ClickTarget::Display(i)) => i < a.displays.len() && a.displays.len() > 1
                && lines[j] == display_rows(a)[i as int].line,
            None => true,
        }
    &&& forall|x: int, y: int|
        #![trigger targets[x], targets[y]]
        0 <= x < y < targets.len() && targets[x] is Some ==> targets[x] != targets[y]
}

/// What the screen shows above its help, plus a click target per line, built in
/// lockstep.
pub fn body_lines(app: &App) -> (r: (Vec<Line>, Vec<Option<ClickTarget>>))
    requires
        app@.wf(),
        shown_controls(app@) <= usize::MAX,
    ensures
        deep(r.0@) == lines_of_rows(body_rows(app@)),
        r.1@ == targets_of_rows(body_rows(app@)),
        in_lockstep(app@, deep(r.0@), r.1@),
{
    proof {
        assert(app@.displays.len() == app.displays.len());
        assert(app@.order.len() == app.order.len());
        lemma_body_in_lockstep(app@);
    }
    split_rows(show_body(app))
}

// ---- the screen ----------------------------------------------------------------

/// What the keys do.
pub open spec fn help_text(multi: bool) -> Seq<char> {
    "↑↓ navigate · ←→ adjust · enter run action · click/scroll · v raw VCP · r refresh · R rescan"@
        + (if multi {
        " · D switch display"@
    } else {
        ""@
    }) + " · q quit"@
}

/// The rows of the screen.
pub open spec fn screen_rows(a: AppView) -> Seq<RowView> {
    body_rows(a) + seq![
        blank_row(),
        inert(LineView::styled(help_text(a.displays.len() > 1), styles::dim())),
    ]
}

/// Renders the screen, plus a click target per line: the two are built in
/// lockstep, so a line's position in one matches its position in the other.
pub fn render(app: &App) -> (r: (Vec<Line>, Vec<Option<ClickTarget>>))
    requires
        app@.wf(),
        shown_controls(app@) <= usize::MAX,
    ensures
        deep(r.0@) == lines_of_rows(screen_rows(app@)),
        r.1@ == targets_of_rows(screen_rows(app@)),
        in_lockstep(app@, deep(r.0@), r.1@),
{
    broadcast use group_deep;

    let (mut lines, mut targets) = body_lines(app);
    let multi = app.displays.len() > 1;
    let mut help = owned(
        "↑↓ navigate · ←→ adjust · enter run action · click/scroll · v raw VCP · r refresh · R rescan",
    );
    if multi {
        help.append(" · D switch display");
    } else {
        help.append("");
    }
    help.append(" · q quit");
    lines.push(Line::raw(""));
    lines.push(Line::styled(help.as_str(), styles::dim()));
    targets.push(None);
    targets.push(None);
    assert(deep(lines@) =~= lines_of_rows(screen_rows(app@)));
    assert(targets@ =~= targets_of_rows(screen_rows(app@)));
    (lines, targets)
}

/// The prompt before an action is sent.
pub open spec fn confirm_lines(name: Seq<char>) -> Seq<LineView> {
    seq![
        LineView::styled("⚠ "@ + name, styles::err()),
        LineView::raw(""@),
        LineView::raw("This writes \""@ + name + "\" to the monitor directly."@),
        LineView::raw("There is no undo from software once it's sent."@),
        LineView::raw(""@),
        LineView::raw("Proceed? [y/N]"@),
        LineView::raw(""@),
        LineView::styled("y confirm · n/esc cancel"@, styles::dim()),
    ]
}

/// The y/N gate shown before a destructive action (e.g. "Restore factory
/// defaults") is actually sent. Keyboard-only by design, so this needs no click
/// targets.
pub fn render_confirm(app: &App) -> (r: Vec<Line>)
    requires
        app@.confirm_action_idx < app@.actions.len(),
    ensures
        deep(r@) == confirm_lines(app@.actions[app@.confirm_action_idx as int].name@),
{
    broadcast use group_deep;

    let a = &app.actions[app.confirm_action_idx];
    let mut title = owned("⚠ ");
    title.append(a.name.as_str());
    let mut what = owned("This writes \"");
    what.append(a.name.as_str());
    what.append("\" to the monitor directly.");
    let mut lines: Vec<Line> = Vec::new();
    lines.push(Line::styled(title.as_str(), styles::err()));
    lines.push(Line::raw(""));
    lines.push(Line::raw(what.as_str()));
    lines.push(Line::raw("There is no undo from software once it's sent."));
    lines.push(Line::raw(""));
    lines.push(Line::raw("Proceed? [y/N]"));
    lines.push(Line::raw(""));
    lines.push(Line::styled("y confirm · n/esc cancel", styles::dim()));
    assert(deep(lines@) =~= confirm_lines(app@.actions[app@.confirm_action_idx as int].name@));
    lines
}

// ---- laws ----------------------------------------------------------------------

/// Whether a click target points at something that is there.
pub open spec fn target_is_there(a: AppView, target: Option<ClickTarget>) -> bool {
    match target {
        Some(ClickTarget::Display(i)) => i < a.displays.len(),
        Some(ClickTarget::Order(i)) => i < a.order.len(),
        None => true,
    }
}

/// Whether a row shows just what a click on it means: the control, or the display
/// where there is more than one to choose from.
pub open spec fn shows_its_target(a: AppView, row: RowView) -> bool {
    match row.target {
        Some(ClickTarget::Display(i)) => i < a.displays.len() && a.displays.len() > 1 && row
            == display_rows(a)[i as int],
        Some(ClickTarget::Order(i)) => i < a.order.len() && row == control_row(a, i as int),
        None => true,
    }
}

/// A click lands on what its line shows: the line and the click target at any
/// position belong together, and a row with a target is the row of that control
/// or display. A display can be clicked only where there is more than one.
pub proof fn law_targets_mean_their_rows(a: AppView, row: int)
    requires
        0 <= row < screen_rows(a).len(),
        a.displays.len() <= usize::MAX,
        a.order.len() <= usize::MAX,
    ensures
        shows_its_target(a, screen_rows(a)[row]),
        lines_of_rows(screen_rows(a)).len() == targets_of_rows(screen_rows(a)).len(),
        lines_of_rows(screen_rows(a))[row] == screen_rows(a)[row].line,
        targets_of_rows(screen_rows(a))[row] == screen_rows(a)[row].target,
{
    lemma_screen_row(a, row);
    lemma_sections(a, SECTIONS as nat);
    if row_in_controls(a, row) {
        assert(in_sections(a, SECTIONS as int, control_rows(a)[row - above_controls(a)]));
    }
}

/// Every click target that the screen offers points at a display or a control
/// that is there.
pub proof fn law_targets_are_there(a: AppView, row: int)
    requires
        0 <= row < screen_rows(a).len(),
        a.displays.len() <= usize::MAX,
        a.order.len() <= usize::MAX,
    ensures
        target_is_there(a, screen_rows(a)[row].target),
{
    law_targets_mean_their_rows(a, row);
}

/// How many rows stand above those of the controls.
spec fn above_controls(a: AppView) -> int {
    a.displays.len() as int + 4
}

/// Whether a row of the screen is one of the rows that show the controls.
spec fn row_in_controls(a: AppView, row: int) -> bool {
    &&& !a.loading && a.err is None && a.displays.len() > 0
    &&& !a.probing && a.probe_err is None && a.caps is Some
    &&& 0 <= row - above_controls(a) < control_rows(a).len()
}

proof fn lemma_screen_row(a: AppView, row: int)
    requires
        0 <= row < screen_rows(a).len(),
        a.displays.len() <= usize::MAX,
    ensures
        if row_in_controls(a, row) {
            screen_rows(a)[row] == control_rows(a)[row - above_controls(a)]
        } else {
            !(screen_rows(a)[row].target matches Some(ClickTarget::Order(_))) && shows_its_target(
                a,
                screen_rows(a)[row],
            ) && (screen_rows(a)[row].target matches Some(ClickTarget::Display(i)) ==> i == row)
        },
{
    let help = seq![
        blank_row(),
        inert(LineView::styled(help_text(a.displays.len() > 1), styles::dim())),
    ];
    let body = body_rows(a);
    assert(screen_rows(a) == body + help);
    if row < body.len() {
        if !a.loading && a.err is None && a.displays.len() > 0 {
            let n = a.displays.len() as int;
            assert(body == display_rows(a) + seq![blank_row()] + probed_rows(a));
            if row < n {
                assert(body[row] == display_rows(a)[row]);
            } else if row > n {
                let k = row - n - 1;
                assert(body[row] == probed_rows(a)[k]);
                if !a.probing && a.probe_err is None && a.caps is Some {
                    let summary = summary_rows(a, a.caps->0);
                    let controls = control_rows(a);
                    let errs = op_err_rows(a);
                    assert(summary.len() == 3);
                    if k < 3 {
                        assert(probed_rows(a)[k] == summary[k]);
                    } else if k < 3 + controls.len() {
                        assert(probed_rows(a)[k] == controls[k - 3]);
                    } else {
                        assert(probed_rows(a)[k] == errs[k - 3 - controls.len()]);
                    }
                }
            }
        }
    } else {
        assert(screen_rows(a)[row] == help[row - body.len()]);
    }
}

/// Whether a row is the heading of a section, or that of a control in one of the
/// first `n`.
spec fn in_sections(a: AppView, n: int, row: RowView) -> bool {
    match row.target {
        None => true,
        Some(ClickTarget::Order(i)) => i < a.order.len() && row == control_row(a, i as int)
            && place_of_section(control_section(a, i as int)) < n,
        Some(ClickTarget::Display(_)) => false,
    }
}

/// Whether control `i` is shown above control `j`: in an earlier section, or
/// earlier in the same one.
pub open spec fn shown_above(a: AppView, i: int, j: int) -> bool {
    let x = place_of_section(control_section(a, i));
    let y = place_of_section(control_section(a, j));
    x < y || (x == y && i < j)
}

/// Whether rows show controls from top to bottom, each at most once.
pub open spec fn top_to_bottom(a: AppView, rows: Seq<RowView>) -> bool {
    forall|x: int, y: int|
        #![trigger rows[x], rows[y]]
        0 <= x < y < rows.len() ==> match (rows[x].target, rows[y].target) {
            (Some(ClickTarget::Order(i)), Some(ClickTarget::Order(j))) => shown_above(
                a,
                i as int,
                j as int,
            ),
            _ => true,
        }
}

proof fn lemma_rows_in(a: AppView, c: Category, n: nat)
    requires
        n <= a.order.len() <= usize::MAX,
    ensures
        forall|x: int|
            0 <= x < rows_in(a, c, n).len() ==> {
                let t = (#[trigger] rows_in(a, c, n)[x]).target;
                t matches Some(ClickTarget::Order(i)) && i < n && rows_in(a, c, n)[x]
                    == control_row(a, i as int) && control_section(a, i as int) == c
            },
        top_to_bottom(a, rows_in(a, c, n)),
    decreases n,
{
    if n > 0 {
        lemma_rows_in(a, c, (n - 1) as nat);
    }
}

proof fn lemma_sections(a: AppView, n: nat)
    requires
        a.order.len() <= usize::MAX,
        n <= SECTIONS,
    ensures
        forall|x: int|
            0 <= x < sections_upto(a, n).len() ==> in_sections(
                a,
                n as int,
                #[trigger] sections_upto(a, n)[x],
            ),
        top_to_bottom(a, sections_upto(a, n)),
    decreases n,
{
    if n > 0 {
        let c = section_at(n - 1);
        let above = sections_upto(a, (n - 1) as nat);
        let rows = rows_in(a, c, a.order.len());
        let below = section_rows(a, c);
        let all = sections_upto(a, n);
        lemma_sections(a, (n - 1) as nat);
        lemma_rows_in(a, c, a.order.len());
        assert(all == above + below);
        assert forall|x: int| 0 <= x < all.len() implies in_sections(
            a,
            n as int,
            #[trigger] all[x],
        ) by {
            if x < above.len() {
                assert(all[x] == above[x]);
                assert(in_sections(a, n - 1, above[x]));
            } else if x > above.len() {
                assert(all[x] == rows[x - above.len() - 1]);
            }
        }
        assert forall|x: int, y: int|
            #![trigger all[x], all[y]]
            0 <= x < y < all.len() implies match (all[x].target, all[y].target) {
            (Some(ClickTarget::Order(i)), Some(ClickTarget::Order(j))) => shown_above(
                a,
                i as int,
                j as int,
            ),
            _ => true,
        } by {
            if y < above.len() {
                assert(all[x] == above[x] && all[y] == above[y]);
            } else if y > above.len() {
                assert(all[y] == rows[y - above.len() - 1]);
                if x < above.len() {
                    assert(all[x] == above[x]);
                    assert(in_sections(a, n - 1, above[x]));
                } else if x > above.len() {
                    assert(all[x] == rows[x - above.len() - 1]);
                }
            }
        }
    }
}

proof fn lemma_row_in_section(a: AppView, n: nat, i: int) -> (x: int)
    requires
        0 <= i < n,
    ensures
        0 <= x < rows_in(a, control_section(a, i), n).len(),
        rows_in(a, control_section(a, i), n)[x] == control_row(a, i),
    decreases n,
{
    if i == n - 1 {
        rows_in(a, control_section(a, i), n).len() - 1
    } else {
        lemma_row_in_section(a, (n - 1) as nat, i)
    }
}

proof fn lemma_row_in_sections(a: AppView, n: nat, i: int) -> (x: int)
    requires
        0 <= i < a.order.len(),
        place_of_section(control_section(a, i)) < n <= SECTIONS,
    ensures
        0 <= x < sections_upto(a, n).len(),
        sections_upto(a, n)[x] == control_row(a, i),
    decreases n,
{
    let above = sections_upto(a, (n - 1) as nat);
    if place_of_section(control_section(a, i)) == n - 1 {
        let x = lemma_row_in_section(a, a.order.len(), i);
        assert(section_at(n - 1) == control_section(a, i));
        above.len() + 1 + x
    } else {
        lemma_row_in_sections(a, (n - 1) as nat, i)
    }
}

/// Once a display has been probed, every control has a row, which shows it and
/// which a click on takes for it: whatever its section, nothing becomes
/// unreachable.
pub proof fn law_every_control_has_a_row(a: AppView, i: int) -> (row: int)
    requires
        0 <= i < a.order.len(),
        !a.loading && a.err is None && a.displays.len() > 0,
        !a.probing && a.probe_err is None && a.caps is Some,
    ensures
        0 <= row < screen_rows(a).len(),
        screen_rows(a)[row] == control_row(a, i),
{
    let x = lemma_row_in_sections(a, SECTIONS as nat, i);
    let row = a.displays.len() + 1 + 3 + x;
    assert(summary_rows(a, a.caps->0).len() == 3);
    assert(probed_rows(a)[3 + x] == control_rows(a)[x]);
    assert(body_rows(a)[row] == probed_rows(a)[3 + x]);
    assert(screen_rows(a)[row] == body_rows(a)[row]);
    row
}

/// The sections appear top to bottom in their order, and the controls of one
/// section in theirs. So no control is shown twice.
pub proof fn law_sections_come_in_order(a: AppView)
    requires
        a.displays.len() <= usize::MAX,
        a.order.len() <= usize::MAX,
    ensures
        top_to_bottom(a, control_rows(a)),
        top_to_bottom(a, screen_rows(a)),
{
    lemma_sections(a, SECTIONS as nat);
    let rows = screen_rows(a);
    let shown = control_rows(a);
    assert forall|x: int, y: int|
        #![trigger rows[x], rows[y]]
        0 <= x < y < rows.len() implies match (rows[x].target, rows[y].target) {
        (Some(ClickTarget::Order(i)), Some(ClickTarget::Order(j))) => shown_above(
            a,
            i as int,
            j as int,
        ),
        _ => true,
    } by {
        lemma_screen_row(a, x);
        lemma_screen_row(a, y);
        if row_in_controls(a, x) && row_in_controls(a, y) {
            assert(rows[x] == shown[x - above_controls(a)]);
            assert(rows[y] == shown[y - above_controls(a)]);
        }
    }
}

proof fn lemma_body_in_lockstep(a: AppView)
    requires
        a.displays.len() <= usize::MAX,
        a.order.len() <= usize::MAX,
    ensures
        in_lockstep(a, lines_of_rows(body_rows(a)), targets_of_rows(body_rows(a))),
{
    let body = body_rows(a);
    let all = screen_rows(a);
    let targets = targets_of_rows(body);
    law_sections_come_in_order(a);
    assert forall|j: int| 0 <= j < targets.len() implies shows_its_target(a, body[j]) && targets[j]
        == body[j].target && all[j] == body[j] by {
        law_targets_mean_their_rows(a, j);
    }
    assert forall|x: int, y: int|
        #![trigger targets[x], targets[y]]
        0 <= x < y < targets.len() && targets[x] is Some implies targets[x] != targets[y] by {
        assert(all[x] == body[x] && all[y] == body[y]);
        lemma_screen_row(a, x);
        lemma_screen_row(a, y);
        lemma_sections(a, SECTIONS as nat);
    }
}

/// A section with no controls in it is skipped entirely, and any other starts
/// with its heading.
pub proof fn law_empty_sections_are_skipped(a: AppView, c: Category)
    requires
        a.order.len() <= usize::MAX,
    ensures
        (exists|i: int| 0 <= i < a.order.len() && #[trigger] control_section(a, i) == c)
            ==> section_rows(a, c).len() >= 2 && section_rows(a, c)[0] == heading(c),
        (forall|i: int| 0 <= i < a.order.len() ==> #[trigger] control_section(a, i) != c)
            ==> section_rows(a, c).len() == 0,
{
    lemma_rows_in(a, c, a.order.len());
    let rows = rows_in(a, c, a.order.len());
    if exists|i: int| 0 <= i < a.order.len() && #[trigger] control_section(a, i) == c {
        let i = choose|i: int| 0 <= i < a.order.len() && #[trigger] control_section(a, i) == c;
        let x = lemma_row_in_section(a, a.order.len(), i);
        assert(rows.len() > 0);
    } else if rows.len() > 0 {
        let row = rows[0];
        assert(row.target matches Some(ClickTarget::Order(i)) && control_section(a, i as int) == c);
    }
}

// ---- what is shown -------------------------------------------------------------

/// The row of a control is that of the slider, selector or action that the order
/// points at, in focus exactly where the cursor is. A value that is not confirmed
/// has a mark behind it, and no other row differs from that of its control.
pub proof fn law_a_row_shows_its_own_control(a: AppView, i: int)
    requires
        0 <= i < a.order.len(),
    ensures
        ({
            let r = a.order[i];
            let line = control_row(a, i).line;
            let focused = i == a.cursor;
            let own = match r.kind {
                CtrlKind::Slider => slider_line(a.sliders[r.idx as int].deep_view(), focused),
                CtrlKind::Selector => selector_line(
                    a.selectors[r.idx as int].deep_view(),
                    focused,
                ),
                CtrlKind::Action => action_line(a.actions[r.idx as int].deep_view(), focused),
            };
            let code = match r.kind {
                CtrlKind::Slider => a.sliders[r.idx as int].code,
                CtrlKind::Selector => a.selectors[r.idx as int].code,
                CtrlKind::Action => a.actions[r.idx as int].code,
            };
            &&& !a.pending.contains(code) ==> line == own
            &&& a.pending.contains(code) ==> line.spans.len() == own.spans.len() + 1
                && line.spans.drop_last() == own.spans && line.spans.last().text == " …"@
            &&& control_section(a, i) == category_of(code)
        }),
{
    let line = plain_control_line(a, i);
    let mark = SpanView::styled(" …"@, styles::dim());
    assert(line.spans.push(mark).drop_last() =~= line.spans);
}

/// What stands in the way of the controls is said instead of them, in this order:
/// that detection runs, why it failed, that nothing was found, that a display is
/// being read, and why that failed.
pub proof fn law_what_is_in_the_way_is_said(a: AppView)
    ensures
        ({
            let body = body_rows(a);
            let below = a.displays.len() + 1;
            let ready = !a.loading && a.err is None && a.displays.len() > 0;
            &&& a.loading ==> body.len() == 1 && body[0].line.spans[0].text
                == "Detecting monitors..."@
            &&& !a.loading && a.err is Some ==> body.len() == 1 && ends_with(
                body[0].line.spans[0].text,
                a.err->0,
            )
            &&& !a.loading && a.err is None && a.displays.len() == 0 ==> body.len() == 1
                && body[0].line.spans[0].text == "No DDC/CI capable displays found."@
            &&& ready && a.probing ==> body.len() == below + 1
                && body[below as int].line.spans[0].text == "Reading VCP features..."@
            &&& ready && !a.probing && a.probe_err is Some ==> body.len() == below + 1
                && ends_with(body[below as int].line.spans[0].text, a.probe_err->0)
            &&& ready && !a.probing && a.probe_err is None && a.caps is None ==> body.len()
                == below
        }),
{
    if let Some(e) = a.err {
        let t = "Error: "@ + e;
        assert(t.skip(t.len() - e.len()) =~= e);
    }
    if let Some(e) = a.probe_err {
        let t = "Probe error: "@ + e;
        assert(t.skip(t.len() - e.len()) =~= e);
    }
}

/// The last failure of a control is shown below the controls, and only while there
/// is one.
pub proof fn law_the_last_failure_is_shown(a: AppView)
    requires
        !a.loading && a.err is None && a.displays.len() > 0,
        !a.probing && a.probe_err is None && a.caps is Some,
    ensures
        ({
            let body = body_rows(a);
            let controls = a.displays.len() + 4 + control_rows(a).len();
            &&& a.op_err is None ==> body.len() == controls
            &&& a.op_err matches Some(e) ==> body.len() == controls + 2 && ends_with(
                body.last().line.spans[0].text,
                e,
            )
        }),
{
    assert(summary_rows(a, a.caps->0).len() == 3);
    if let Some(e) = a.op_err {
        let t = "Failed: "@ + e;
        assert(t.skip(t.len() - e.len()) =~= e);
    }
}

/// The summary counts: every declared feature, every control, and every feature
/// that is not recognized.
pub proof fn law_the_summary_counts(features: Seq<VcpFeature>, f: VcpFeature, a: AppView)
    ensures
        unrecognized(Seq::empty()) == 0,
        unrecognized(features.push(f)) == unrecognized(features) + (if f.recognized {
            0nat
        } else {
            1nat
        }),
        shown_controls(a) == a.sliders.len() + a.selectors.len() + a.actions.len(),
        a.caps matches Some(caps) ==> summary_rows(a, caps)[1].line.spans[0].text == decimal(
            caps.features@.len(),
        ) + " VCP features declared · "@ + decimal(
            a.sliders.len() + a.selectors.len() + a.actions.len(),
        ) + " shown as controls · "@ + decimal(unrecognized(caps.features@))
            + " unrecognized/mfg-specific"@,
        a.caps matches Some(caps) ==> ends_with(
            summary_rows(a, caps)[0].line.spans[1].text,
            caps.mccs_version@,
        ),
{
    assert(features.push(f).drop_last() =~= features);
    if let Some(caps) = a.caps {
        let t = "MCCS "@ + caps.mccs_version@;
        assert(t.skip(t.len() - caps.mccs_version@.len()) =~= caps.mccs_version@);
    }
}

/// The row of a display shows what it is called and where it is; the one being
/// controlled is marked where there are several.
pub proof fn law_a_display_row_shows_its_display(a: AppView, i: int)
    requires
        0 <= i < a.displays.len(),
    ensures
        ({
            let d = a.displays[i];
            let spans = display_rows(a)[i].line.spans;
            &&& display_rows(a).len() == a.displays.len()
            &&& spans[2].text == d.mfg_id@
            &&& d.model@.len() > 0 ==> spans.len() == 5 && spans[3].text == " "@ + d.model@
            &&& d.model@.len() == 0 ==> spans.len() == 4
            &&& spans.last().text == " ("@ + d.bus@ + ", VCP "@ + d.vcp_version@ + ")"@
            &&& a.displays.len() > 1 && i == a.selected ==> spans[0].text == "▸ "@
            &&& a.displays.len() > 1 && i != a.selected ==> spans[0].text == "  "@
            &&& a.displays.len() == 1 ==> spans[0].text == ""@
        }),
{
}

/// The prompt of an action names that action, first and last.
pub proof fn law_the_prompt_names_the_action(name: Seq<char>)
    ensures
        ends_with(confirm_lines(name)[0].spans[0].text, name),
        confirm_lines(name)[2].spans[0].text == "This writes \""@ + name
            + "\" to the monitor directly."@,
        confirm_lines(name).len() == 8,
{
    let t = "⚠ "@ + name;
    assert(t.skip(t.len() - name.len()) =~= name);
}

/// The help stands on the last row. It tells how to switch displays exactly where
/// there is another one.
pub proof fn law_the_help_tells_what_can_be_done(a: AppView)
    ensures
        ({
            let text = screen_rows(a).last().line.spans[0].text;
            let switch = " · D switch display"@;
            let quit = " · q quit"@;
            &&& screen_rows(a).last().target is None
            &&& ends_with(text, quit)
            &&& ends_with(text, switch + quit) <==> a.displays.len() > 1
        }),
{
    let switch = " · D switch display"@;
    let quit = " · q quit"@;
    let text = help_text(a.displays.len() > 1);
    reveal_strlit(" · D switch display");
    reveal_strlit(" · q quit");
    reveal_strlit("");
    reveal_strlit(
        "↑↓ navigate · ←→ adjust · enter run action · click/scroll · v raw VCP · r refresh · R rescan",
    );
    assert(screen_rows(a).last().line.spans[0].text == text);
    assert(text.skip(text.len() - quit.len()) =~= quit);
    let end = switch + quit;
    if a.displays.len() > 1 {
        assert(text.skip(text.len() - end.len()) =~= end);
    } else {
        let tail = text.skip(text.len() - end.len());
        assert(end[switch.len() - 1] == 'y');
        assert(tail[switch.len() - 1] == text[text.len() - quit.len() - 1]);
        assert(text[text.len() - quit.len() - 1] == 'n');
    }
}

} // verus!
