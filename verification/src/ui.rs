//! Top-level render dispatch. Text-flowing screens build their content as lines
//! that are wrapped in a shared rounded-border box; the Raw VCP screen's
//! scrollable table is the one exception.

use vstd::prelude::*;

use crate::app::{App, AppView, ClickTarget, Screen};
use crate::input::Rect;
use crate::screens::controls::{confirm_lines, shown_controls};
use crate::screens::raw::{Content, ContentView};
use crate::screens::{controls, lines_of_rows, picker, raw, targets_of_rows};
use crate::text::ends_with;

verus! {

pub const TITLE: &'static str = "CMMRS";

/// Rows that the box always reserves above the body: the top border, the top
/// padding, the title line, and the blank line under it.
pub const BOX_HEADER_ROWS: u16 = 4;

/// Columns that the box always reserves left of the body: the border and the
/// padding.
pub const BOX_LEFT_COLS: u16 = 5;

/// The state once a text screen has been shown in `area`: a click on one of its
/// lines now means that line's target.
pub open spec fn clickable(
    a: AppView,
    area: Rect,
    targets: Seq<Option<ClickTarget>>,
) -> AppView {
    AppView {
        click_targets: targets,
        click_origin_row: (area.y + BOX_HEADER_ROWS) as u16,
        click_origin_col: (area.x + BOX_LEFT_COLS) as u16,
        click_scroll: 0,
        ..a
    }
}

/// The state once its screen has been shown in `area`, with `table_area` for the
/// Raw VCP table, and what was shown.
pub open spec fn drawn(a: AppView, area: Rect, table_area: Rect) -> (AppView, ContentView) {
    match a.screen {
        Screen::Picker => (
            clickable(a, area, targets_of_rows(picker::screen_rows(a))),
            ContentView::Text(lines_of_rows(picker::screen_rows(a))),
        ),
        Screen::Raw => raw::drawn(a, table_area),
        Screen::Controls => if a.confirming {
            // keyboard-only prompt
            (
                AppView { click_targets: Seq::empty(), ..a },
                ContentView::Text(
                    confirm_lines(a.actions[a.confirm_action_idx as int].name@),
                ),
            )
        } else {
            (
                clickable(a, area, targets_of_rows(controls::screen_rows(a))),
                ContentView::Text(lines_of_rows(controls::screen_rows(a))),
            )
        },
    }
}

fn make_clickable(app: &mut App, area: Rect, targets: Vec<Option<ClickTarget>>)
    requires
        area.x <= u16::MAX - BOX_LEFT_COLS,
        area.y <= u16::MAX - BOX_HEADER_ROWS,
    ensures
        final(app)@ == clickable(old(app)@, area, targets@),
{
    app.click_targets = targets;
    app.click_origin_row = area.y + BOX_HEADER_ROWS;
    app.click_origin_col = area.x + BOX_LEFT_COLS;
    app.click_scroll = 0;
}

/// What the current screen shows in `area`, with `table_area` for the Raw VCP
/// table. Remembers what a click on each line means.
pub fn draw(app: &mut App, area: Rect, table_area: Rect) -> (r: Content)
    requires
        old(app)@.wf(),
        old(app)@.can_draw(),
        shown_controls(old(app)@) <= usize::MAX,
        area.x <= u16::MAX - BOX_LEFT_COLS,
        area.y <= u16::MAX - BOX_HEADER_ROWS,
    ensures
        final(app)@ == drawn(old(app)@, area, table_area).0,
        r.deep_view() == drawn(old(app)@, area, table_area).1,
{
    match app.screen {
        Screen::Picker => {
            let (lines, targets) = picker::render(app);
            make_clickable(app, area, targets);
            Content::Text(lines)
        },
        Screen::Raw => raw::draw(app, table_area),
        Screen::Controls => {
            if app.confirming {
                app.click_targets.clear();
                return Content::Text(controls::render_confirm(app));
            }
            let (lines, targets) = controls::render(app);
            make_clickable(app, area, targets);
            Content::Text(lines)
        },
    }
}

/// A click on the line that shows a target means that target: what is clicked
/// is what was shown there.
pub proof fn law_click_means_what_is_shown(a: AppView, area: Rect, table_area: Rect, row: u16)
    requires
        area.y + BOX_HEADER_ROWS + row <= u16::MAX,
        a.screen == Screen::Controls && !a.confirming,
        row < controls::screen_rows(a).len(),
    ensures
        drawn(a, area, table_area).0.target_at((area.y + BOX_HEADER_ROWS + row) as u16)
            == controls::screen_rows(a)[row as int].target,
{
}

/// The same on the picker.
pub proof fn law_pick_means_what_is_shown(a: AppView, area: Rect, table_area: Rect, row: u16)
    requires
        area.y + BOX_HEADER_ROWS + row <= u16::MAX,
        a.screen == Screen::Picker,
        row < picker::screen_rows(a).len(),
    ensures
        drawn(a, area, table_area).0.target_at((area.y + BOX_HEADER_ROWS + row) as u16)
            == picker::screen_rows(a)[row as int].target,
{
}

/// A confirmation prompt leaves nothing on the screen to click.
pub proof fn law_prompt_offers_no_target(a: AppView, area: Rect, table_area: Rect, row: u16)
    requires
        a.screen == Screen::Controls && a.confirming,
    ensures
        drawn(a, area, table_area).0.target_at(row) is None,
{
}

/// Showing a screen changes nothing but where things are on it: what a click
/// means, and how much of the table fits.
pub proof fn law_drawing_changes_only_places(a: AppView, area: Rect, table_area: Rect)
    ensures
        ({
            let after = drawn(a, area, table_area).0;
            after == AppView {
                click_targets: after.click_targets,
                click_origin_row: after.click_origin_row,
                click_origin_col: after.click_origin_col,
                click_scroll: after.click_scroll,
                raw_visible_rows: after.raw_visible_rows,
                raw_table_area: after.raw_table_area,
                raw_table_state: after.raw_table_state,
                ..a
            }
        }),
{
}

/// Each screen shows what it is for. The prompt of an action names the action that
/// a yes will run.
pub proof fn law_screens_show_what_they_are_for(a: AppView, area: Rect, table_area: Rect)
    ensures
        ({
            let shown = drawn(a, area, table_area).1;
            &&& a.screen == Screen::Controls && a.confirming && a.confirm_action_idx
                < a.actions.len() ==> shown is Text && ends_with(
                shown->Text_0[0].spans[0].text,
                a.actions[a.confirm_action_idx as int].name@,
            )
            &&& a.screen == Screen::Controls && !a.confirming ==> shown == ContentView::Text(
                lines_of_rows(controls::screen_rows(a)),
            )
            &&& a.screen == Screen::Picker ==> shown == ContentView::Text(
                lines_of_rows(picker::screen_rows(a)),
            )
            &&& a.screen == Screen::Raw ==> shown == raw::drawn(a, table_area).1
        }),
{
    if a.confirm_action_idx < a.actions.len() {
        controls::law_the_prompt_names_the_action(a.actions[a.confirm_action_idx as int].name@);
    }
}

/// A click on a slider's row is measured from where the row starts: its first
/// column is the first one inside the border and the padding.
pub proof fn law_columns_are_measured_in_the_box(
    a: AppView,
    area: Rect,
    table_area: Rect,
    col: u16,
)
    requires
        a.screen != Screen::Raw && !a.confirming,
        area.x + 5 + col <= u16::MAX && area.y + 4 <= u16::MAX,
    ensures
        drawn(a, area, table_area).0.click_origin_col + col == area.x + 5 + col,
        drawn(a, area, table_area).0.click_origin_row == area.y + 4,
        drawn(a, area, table_area).0.click_scroll == 0,
        forall|s: crate::components::Slider| #[trigger]
            drawn(a, area, table_area).0.slider_value_at(s, (area.x + 5 + col) as u16)
                == crate::components::value_at(s.name@.len(), s.max, col as int),
{
}

} // verus!
