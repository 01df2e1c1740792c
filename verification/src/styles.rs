//! Shared colours and styles, and the styled text that screens are made of.
//!
//! Body text is left at the terminal's own default rather than an explicit
//! colour: only accents, borders, dim text and the focused row get a colour
//! from this palette.

use vstd::prelude::*;

use crate::text::{deep, group_deep, owned};

verus! {

/// A 24-bit colour.
#[derive(Debug, Clone, Copy, PartialEq, Eq, Structural)]
pub struct Color {
    pub r: u8,
    pub g: u8,
    pub b: u8,
}

/// How a piece of text looks; `None` leaves the terminal's own colour.
#[derive(Debug, Clone, Copy, PartialEq, Eq, Structural)]
pub struct Style {
    pub fg: Option<Color>,
    pub bg: Option<Color>,
    pub bold: bool,
}

// ---- palette -------------------------------------------------------------------

#[verifier::allow_in_spec]
pub fn border_color() -> Color
    returns
        (Color { r: 0x16, g: 0x4e, b: 0x63 }),
{
    Color { r: 0x16, g: 0x4e, b: 0x63 }
}

#[verifier::allow_in_spec]
pub fn accent() -> Color
    returns
        (Color { r: 0x22, g: 0xd3, b: 0xee }),
{
    Color { r: 0x22, g: 0xd3, b: 0xee }
}

#[verifier::allow_in_spec]
pub fn dim_color() -> Color
    returns
        (Color { r: 0x64, g: 0x74, b: 0x8b }),
{
    Color { r: 0x64, g: 0x74, b: 0x8b }
}

#[verifier::allow_in_spec]
pub fn ok_color() -> Color
    returns
        (Color { r: 0x34, g: 0xd3, b: 0x99 }),
{
    Color { r: 0x34, g: 0xd3, b: 0x99 }
}

#[verifier::allow_in_spec]
pub fn err_color() -> Color
    returns
        (Color { r: 0xf8, g: 0x71, b: 0x71 }),
{
    Color { r: 0xf8, g: 0x71, b: 0x71 }
}

/// Background tint for the focused row's full line: a physical monitor's OSD
/// highlights the whole selected row, not just the label.
#[verifier::allow_in_spec]
pub fn focused_bg() -> Color
    returns
        (Color { r: 0x0e, g: 0x3a, b: 0x45 }),
{
    Color { r: 0x0e, g: 0x3a, b: 0x45 }
}

// ---- styles --------------------------------------------------------------------

/// Text in one colour.
#[verifier::allow_in_spec]
pub fn colored(fg: Color) -> Style
    returns
        (Style { fg: Some(fg), bg: None, bold: false }),
{
    Style { fg: Some(fg), bg: None, bold: false }
}

#[verifier::allow_in_spec]
pub fn title() -> Style
    returns
        (Style { fg: Some(accent()), bg: None, bold: true }),
{
    Style { fg: Some(accent()), bg: None, bold: true }
}

#[verifier::allow_in_spec]
pub fn ok() -> Style
    returns
        colored(ok_color()),
{
    colored(ok_color())
}

#[verifier::allow_in_spec]
pub fn err() -> Style
    returns
        colored(err_color()),
{
    colored(err_color())
}

#[verifier::allow_in_spec]
pub fn dim() -> Style
    returns
        colored(dim_color()),
{
    colored(dim_color())
}

/// The terminal's own default.
#[verifier::allow_in_spec]
pub fn name() -> Style
    returns
        (Style { fg: None, bg: None, bold: false }),
{
    Style { fg: None, bg: None, bold: false }
}

#[verifier::allow_in_spec]
pub fn focused_name() -> Style
    returns
        (Style { fg: Some(accent()), bg: None, bold: true }),
{
    Style { fg: Some(accent()), bg: None, bold: true }
}

/// Highlights the focused row on the Raw VCP screen.
#[verifier::allow_in_spec]
pub fn raw_focused() -> Style
    returns
        (Style { fg: Some(accent()), bg: None, bold: true }),
{
    Style { fg: Some(accent()), bg: None, bold: true }
}

/// A category header on the Controls screen (`DISPLAY`, `AUDIO`, ...).
#[verifier::allow_in_spec]
pub fn section() -> Style
    returns
        (Style { fg: Some(accent()), bg: None, bold: true }),
{
    Style { fg: Some(accent()), bg: None, bold: true }
}

// ---- styled text ---------------------------------------------------------------

/// A piece of text in one style.
#[derive(Debug)]
pub struct Span {
    pub text: String,
    pub style: Style,
}

pub struct SpanView {
    pub text: Seq<char>,
    pub style: Style,
}

impl DeepView for Span {
    type V = SpanView;

    open spec fn deep_view(&self) -> SpanView {
        SpanView { text: self.text@, style: self.style }
    }
}

impl SpanView {
    /// Text in the terminal's own style.
    pub open spec fn raw(text: Seq<char>) -> SpanView {
        SpanView { text, style: name() }
    }

    pub open spec fn styled(text: Seq<char>, style: Style) -> SpanView {
        SpanView { text, style }
    }
}

impl Span {
    /// Text in the terminal's own style.
    pub fn raw(text: &str) -> (r: Span)
        ensures
            r.deep_view() == SpanView::raw(text@),
    {
        Span { text: owned(text), style: name() }
    }

    pub fn styled(text: &str, style: Style) -> (r: Span)
        ensures
            r.deep_view() == SpanView::styled(text@, style),
    {
        Span { text: owned(text), style }
    }
}

/// One line of a screen. `style` holds for the whole line, under what its
/// spans say.
#[derive(Debug)]
pub struct Line {
    pub spans: Vec<Span>,
    pub style: Style,
}

#[verifier::ext_equal]
pub struct LineView {
    pub spans: Seq<SpanView>,
    pub style: Style,
}

impl DeepView for Line {
    type V = LineView;

    open spec fn deep_view(&self) -> LineView {
        LineView { spans: deep(self.spans@), style: self.style }
    }
}

impl LineView {
    /// A line in the terminal's own style.
    pub open spec fn raw(text: Seq<char>) -> LineView {
        LineView { spans: seq![SpanView::raw(text)], style: name() }
    }

    /// A line in one style.
    pub open spec fn styled(text: Seq<char>, style: Style) -> LineView {
        LineView { spans: seq![SpanView::raw(text)], style }
    }

    /// A line made of spans.
    pub open spec fn of(spans: Seq<SpanView>) -> LineView {
        LineView { spans, style: name() }
    }
}

impl Line {
    /// A line in the terminal's own style.
    pub fn raw(text: &str) -> (r: Line)
        ensures
            r.deep_view() == LineView::raw(text@),
    {
        Line::styled(text, name())
    }

    /// A line in one style.
    pub fn styled(text: &str, style: Style) -> (r: Line)
        ensures
            r.deep_view() == LineView::styled(text@, style),
    {
        broadcast use group_deep;

        let mut spans: Vec<Span> = Vec::new();
        spans.push(Span::raw(text));
        assert(deep(spans@) =~= seq![SpanView::raw(text@)]);
        Line { spans, style }
    }

    /// A line made of spans.
    pub fn of(spans: Vec<Span>) -> (r: Line)
        ensures
            r.deep_view() == LineView::of(deep(spans@)),
    {
        Line { spans, style: name() }
    }
}

/// A span over the focused row's background.
pub open spec fn on_focus_bg(s: SpanView) -> SpanView {
    SpanView { style: Style { bg: Some(focused_bg()), ..s.style }, ..s }
}

/// A line over the focused row's background.
pub open spec fn focus_line(line: LineView) -> LineView {
    LineView { spans: line.spans.map_values(|s: SpanView| on_focus_bg(s)), ..line }
}

/// Puts the focused row's background under every span of `line`, to highlight a
/// focused control's entire row rather than just its name.
pub fn with_focus_bg(line: Line) -> (r: Line)
    ensures
        r.deep_view() == focus_line(line.deep_view()),
{
    broadcast use group_deep;

    let mut spans: Vec<Span> = Vec::new();
    let ghost want = focus_line(line.deep_view()).spans;
    for i in 0..line.spans.len()
        invariant
            want == focus_line(line.deep_view()).spans,
            deep(spans@) == want.take(i as int),
    {
        let s = &line.spans[i];
        let bg = Span {
            text: s.text.clone(),
            style: Style { fg: s.style.fg, bg: Some(focused_bg()), bold: s.style.bold },
        };
        spans.push(bg);
        assert(want[i as int] == bg.deep_view());
        assert(want.take(i + 1) =~= want.take(i as int).push(want[i as int]));
    }
    assert(want.take(want.len() as int) =~= want);
    Line { spans, style: line.style }
}

/// The focused row keeps its text and its colours, and gets a background under all
/// of it.
pub proof fn law_focus_only_adds_a_background(line: LineView, i: int)
    ensures
        focus_line(line).spans.len() == line.spans.len(),
        0 <= i < line.spans.len() ==> {
            let s = focus_line(line).spans[i];
            s.text == line.spans[i].text && s.style.fg == line.spans[i].style.fg && s.style.bold
                == line.spans[i].style.bold && s.style.bg is Some
        },
{
}

/// The text of a line is the text it was made of, and its style is what was asked
/// for.
pub proof fn law_lines_hold_their_text(text: Seq<char>, style: Style)
    ensures
        LineView::raw(text).spans.len() == 1 && LineView::raw(text).spans[0].text == text,
        LineView::styled(text, style).spans.len() == 1 && LineView::styled(text, style).spans[0].text
            == text,
        LineView::styled(text, style).style == style,
        SpanView::raw(text).text == text && SpanView::styled(text, style).text == text,
        SpanView::styled(text, style).style == style,
        SpanView::raw(text).style.fg is None && SpanView::raw(text).style.bg is None,
        !SpanView::raw(text).style.bold,
{
}

} // verus!
