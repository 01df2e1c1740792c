use vstd::prelude::*;

use crate::components::{marker, name_style, row_start};
use crate::styles::{focus_line, with_focus_bg, Line, LineView, Span, SpanView};
use crate::text::{deep, group_deep, owned};

verus! {

/// A write-only, non-continuous VCP command: there is nothing to read back,
/// just a code to trigger (e.g. "Restore factory defaults").
#[derive(Debug)]
pub struct Action {
    pub code: u8,
    pub name: String,
}

pub struct ActionView {
    pub code: u8,
    pub name: Seq<char>,
}

impl DeepView for Action {
    type V = ActionView;

    open spec fn deep_view(&self) -> ActionView {
        ActionView { code: self.code, name: self.name@ }
    }
}

impl Clone for Action {
    fn clone(&self) -> (r: Self)
        ensures
            r == *self,
    {
        Action { code: self.code, name: self.name.clone() }
    }
}

/// The row that shows an action.
pub open spec fn action_line(a: ActionView, focused: bool) -> LineView {
    let line = LineView::of(
        seq![
            SpanView::raw(marker(focused)),
            SpanView::styled("[ "@ + a.name + " ]"@, name_style(focused)),
        ],
    );
    if focused {
        focus_line(line)
    } else {
        line
    }
}

impl Action {
    /// The row that shows this action.
    pub fn view(&self, focused: bool) -> (r: Line)
        ensures
            r.deep_view() == action_line(self.deep_view(), focused),
    {
        broadcast use group_deep;

        let (cursor, style) = row_start(focused);
        let mut label = owned("[ ");
        label.append(self.name.as_str());
        label.append(" ]");
        let mut spans: Vec<Span> = Vec::new();
        spans.push(Span::raw(cursor));
        spans.push(Span::styled(label.as_str(), style));
        assert(deep(spans@) =~= seq![
            SpanView::raw(marker(focused)),
            SpanView::styled("[ "@ + self.name@ + " ]"@, name_style(focused)),
        ]);
        let line = Line::of(spans);
        if focused {
            with_focus_bg(line)
        } else {
            line
        }
    }
}

/// The row of an action shows its name in brackets.
pub proof fn law_the_row_shows_the_action(a: ActionView, focused: bool)
    ensures
        ({
            let spans = action_line(a, focused).spans;
            &&& spans.len() == 2 && spans[1].text == "[ "@ + a.name + " ]"@
            &&& focused ==> spans[0].style.bg is Some && spans[1].style.bg is Some
            &&& !focused ==> spans[0].style.bg is None && spans[1].style.bg is None
        }),
{
}

} // verus!
