//! Multi-display picker screen.

use vstd::prelude::*;

use crate::app::{App, AppView, ClickTarget};
use crate::components::marker;
use crate::numbers::{decimal, law_numbers_read_back, parsed};
use crate::screens::{
    blank_row, empty_row, inert, inert_row, lines_of_rows, place_of, push_count, show_place,
    split_rows, targets_of_rows, Row, RowView,
};
use crate::styles;
use crate::styles::{Line, LineView, Span, SpanView};
use crate::text::{deep, ends_with, group_deep, owned};
use crate::vcp::Display;

verus! {

/// What a display is called.
pub open spec fn label_of(d: Display) -> Seq<char> {
    (if d.model@.len() > 0 {
        d.mfg_id@ + " "@ + d.model@
    } else {
        d.mfg_id@
    }) + place_of(d)
}

/// The row that offers a display.
pub open spec fn choice_line(d: Display, focused: bool) -> LineView {
    LineView::of(
        seq![
            SpanView::raw(marker(focused)),
            SpanView::styled(
                label_of(d),
                if focused {
                    styles::raw_focused()
                } else {
                    styles::dim()
                },
            ),
        ],
    )
}

/// The rows that offer the displays.
pub open spec fn choice_rows(a: AppView) -> Seq<RowView> {
    Seq::new(
        a.displays.len(),
        |i: int|
            RowView {
                line: choice_line(a.displays[i], i == a.picker_cursor),
                target: Some(ClickTarget::Display(i as usize)),
            },
    )
}

/// The rows of the screen.
pub open spec fn screen_rows(a: AppView) -> Seq<RowView> {
    seq![
        inert(
            LineView::styled(
                decimal(a.displays.len()) + " DDC/CI displays found — choose one to control:"@,
                styles::dim(),
            ),
        ),
        blank_row(),
    ] + choice_rows(a) + seq![
        blank_row(),
        inert(LineView::styled("↑↓ navigate · enter select · q quit"@, styles::dim())),
    ]
}

fn show_choice(d: &Display, focused: bool) -> (r: Line)
    ensures
        r.deep_view() == choice_line(*d, focused),
{
    broadcast use group_deep;

    let mut label = owned(d.mfg_id.as_str());
    if !d.model.as_str().is_empty() {
        label.append(" ");
        label.append(d.model.as_str());
    }
    label.append(show_place(d).as_str());
    let (cursor, style) = if focused {
        ("▸ ", styles::raw_focused())
    } else {
        ("  ", styles::dim())
    };
    let mut spans: Vec<Span> = Vec::new();
    spans.push(Span::raw(cursor));
    spans.push(Span::styled(label.as_str(), style));
    assert(deep(spans@) =~= choice_line(*d, focused).spans);
    Line::of(spans)
}

/// Renders the screen, plus a click target per line.
pub fn render(app: &App) -> (r: (Vec<Line>, Vec<Option<ClickTarget>>))
    ensures
        deep(r.0@) == lines_of_rows(screen_rows(app@)),
        r.1@ == targets_of_rows(screen_rows(app@)),
{
    broadcast use group_deep;

    let mut heading = String::new();
    push_count(&mut heading, app.displays.len());
    assert(heading@ =~= decimal(app@.displays.len()));
    heading.append(" DDC/CI displays found — choose one to control:");
    let mut rows: Vec<Row> = Vec::new();
    rows.push(inert_row(Line::styled(heading.as_str(), styles::dim())));
    rows.push(empty_row());
    let ghost before = deep(rows@);
    let ghost want = choice_rows(app@);
    assert(before + want.take(0) =~= before);
    for i in 0..app.displays.len()
        invariant
            want == choice_rows(app@),
            deep(rows@) == before + want.take(i as int),
    {
        let line = show_choice(&app.displays[i], i == app.picker_cursor);
        rows.push(Row { line, target: Some(ClickTarget::Display(i)) });
        assert(before + want.take(i + 1) =~= (before + want.take(i as int)).push(want[i as int]));
    }
    assert(want.take(want.len() as int) =~= want);
    rows.push(empty_row());
    rows.push(inert_row(Line::styled("↑↓ navigate · enter select · q quit", styles::dim())));
    assert(deep(rows@) =~= screen_rows(app@));
    split_rows(rows)
}

/// Every display has a row, which offers it and which a click on takes for it.
pub proof fn law_every_display_has_a_row(a: AppView, i: int)
    requires
        0 <= i < a.displays.len(),
    ensures
        i + 2 < screen_rows(a).len(),
        screen_rows(a)[i + 2] == (RowView {
            line: choice_line(a.displays[i], i == a.picker_cursor),
            target: Some(ClickTarget::Display(i as usize)),
        }),
{
    assert(screen_rows(a)[i + 2] == choice_rows(a)[i]);
}

/// The row of a display offers it by what it is called and where it is, and the
/// focused one is marked.
pub proof fn law_a_row_names_its_display(a: AppView, i: int)
    requires
        0 <= i < a.displays.len(),
    ensures
        ({
            let d = a.displays[i];
            let spans = screen_rows(a)[i + 2].line.spans;
            let place = " ("@ + d.bus@ + ", VCP "@ + d.vcp_version@ + ")"@;
            &&& spans.len() == 2
            &&& d.model@.len() > 0 ==> spans[1].text == d.mfg_id@ + " "@ + d.model@ + place
            &&& d.model@.len() == 0 ==> spans[1].text == d.mfg_id@ + place
            &&& i == a.picker_cursor ==> spans[0].text == "▸ "@
            &&& i != a.picker_cursor ==> spans[0].text == "  "@
            &&& screen_rows(a).len() == a.displays.len() + 4
        }),
{
    assert(screen_rows(a)[i + 2] == choice_rows(a)[i]);
}

/// The first row says how many displays there are to choose from.
pub proof fn law_the_picker_counts_its_displays(a: AppView)
    requires
        a.displays.len() <= usize::MAX,
    ensures
        ({
            let text = screen_rows(a)[0].line.spans[0].text;
            let after = " DDC/CI displays found — choose one to control:"@;
            &&& screen_rows(a)[0].target is None && screen_rows(a)[0].line.spans.len() == 1
            &&& ends_with(text, after)
            &&& parsed(text.take(text.len() - after.len()), 10, usize::MAX as nat) == Some(
                a.displays.len(),
            )
        }),
{
    let n = a.displays.len();
    let after = " DDC/CI displays found — choose one to control:"@;
    let text = decimal(n) + after;
    law_numbers_read_back(n, 10, false, usize::MAX as nat);
    assert(screen_rows(a)[0].line.spans[0].text == text);
    assert(text.skip(text.len() - after.len()) =~= after);
    assert(text.take(text.len() - after.len()) =~= decimal(n));
}

} // verus!
