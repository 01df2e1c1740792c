//! What each screen shows.

use vstd::prelude::*;

pub mod controls;
pub mod picker;
pub mod raw;

use crate::app::ClickTarget;
use crate::numbers::{decimal, push_digits};
use crate::styles::{Line, LineView};
use crate::text::{deep, group_deep, owned};
use crate::vcp::Display;

verus! {

/// One line of a screen, and what a click on it means.
#[derive(Debug)]
pub struct Row {
    pub line: Line,
    pub target: Option<ClickTarget>,
}

pub struct RowView {
    pub line: LineView,
    pub target: Option<ClickTarget>,
}

impl DeepView for Row {
    type V = RowView;

    open spec fn deep_view(&self) -> RowView {
        RowView { line: self.line.deep_view(), target: self.target }
    }
}

/// A row that cannot be clicked.
pub open spec fn inert(line: LineView) -> RowView {
    RowView { line, target: None }
}

/// An empty row.
pub open spec fn blank_row() -> RowView {
    inert(LineView::raw(""@))
}

pub(crate) fn inert_row(line: Line) -> (r: Row)
    ensures
        r.deep_view() == inert(line.deep_view()),
{
    Row { line, target: None }
}

pub(crate) fn empty_row() -> (r: Row)
    ensures
        r.deep_view() == blank_row(),
{
    inert_row(Line::raw(""))
}

/// The lines of rows.
pub open spec fn lines_of_rows(rows: Seq<RowView>) -> Seq<LineView> {
    rows.map_values(|r: RowView| r.line)
}

/// The click targets of rows.
pub open spec fn targets_of_rows(rows: Seq<RowView>) -> Seq<Option<ClickTarget>> {
    rows.map_values(|r: RowView| r.target)
}

/// Splits rows into their lines and their click targets, in lockstep.
pub(crate) fn split_rows(rows: Vec<Row>) -> (r: (Vec<Line>, Vec<Option<ClickTarget>>))
    ensures
        deep(r.0@) == lines_of_rows(deep(rows@)),
        r.1@ == targets_of_rows(deep(rows@)),
{
    broadcast use group_deep;

    let mut lines: Vec<Line> = Vec::new();
    let mut targets: Vec<Option<ClickTarget>> = Vec::new();
    let ghost all = rows@;
    let ghost want_lines = lines_of_rows(deep(all));
    let ghost want_targets = targets_of_rows(deep(all));
    for row in it: rows.into_iter()
        invariant
            it.seq() == all,
            want_lines == lines_of_rows(deep(all)),
            want_targets == targets_of_rows(deep(all)),
            deep(lines@) == want_lines.take(it.index()),
            targets@ == want_targets.take(it.index()),
    {
        proof {
            let n = it.index();
            assert(deep(all)[n] == all[n].deep_view());
            assert(want_lines.take(n + 1) =~= want_lines.take(n).push(want_lines[n]));
            assert(want_targets.take(n + 1) =~= want_targets.take(n).push(want_targets[n]));
        }
        lines.push(row.line);
        targets.push(row.target);
    }
    assert(want_lines.take(want_lines.len() as int) =~= want_lines);
    assert(want_targets.take(want_targets.len() as int) =~= want_targets);
    (lines, targets)
}

/// Where a display is, and which VCP version it speaks.
pub open spec fn place_of(d: Display) -> Seq<char> {
    " ("@ + d.bus@ + ", VCP "@ + d.vcp_version@ + ")"@
}

pub(crate) fn show_place(d: &Display) -> (r: String)
    ensures
        r@ == place_of(*d),
{
    let mut s = owned(" (");
    s.append(d.bus.as_str());
    s.append(", VCP ");
    s.append(d.vcp_version.as_str());
    s.append(")");
    s
}

pub(crate) fn push_count(out: &mut String, n: usize)
    ensures
        final(out)@ == old(out)@ + decimal(n as nat),
{
    push_digits(out, n as u64, 10, false, 0, ' ');
}

} // verus!
