use vstd::prelude::*;

use crate::components::{marker, name_style, pad_right, row_start, NAME_WIDTH};
use crate::numbers::{
    decimal, padded_left, padded_right, push_digits, push_repeated, repeated,
};
use crate::styles;
use crate::styles::{focus_line, with_focus_bg, Line, LineView, Span, SpanView};
use crate::text::{chars_of, deep, group_deep, owned};

verus! {

/// How many cells a slider's bar has.
pub const BAR_WIDTH: usize = 20;

/// A continuous (0..max) VCP control rendered as a bar, e.g. Brightness,
/// Contrast, RGB gain, Volume.
#[derive(Debug)]
pub struct Slider {
    pub code: u8,
    pub name: String,
    pub value: u16,
    pub max: u16,
    pub step: u16,
}

pub struct SliderView {
    pub code: u8,
    pub name: Seq<char>,
    pub value: u16,
    pub max: u16,
    pub step: u16,
}

impl DeepView for Slider {
    type V = SliderView;

    open spec fn deep_view(&self) -> SliderView {
        SliderView {
            code: self.code,
            name: self.name@,
            value: self.value,
            max: self.max,
            step: self.step,
        }
    }
}

impl Clone for Slider {
    fn clone(&self) -> (r: Self)
        ensures
            r == *self,
    {
        Slider {
            code: self.code,
            name: self.name.clone(),
            value: self.value,
            max: self.max,
            step: self.step,
        }
    }
}

/// The step size for a range: single steps on a short one.
pub open spec fn step_for(max: u16) -> u16 {
    if max <= 20 {
        1
    } else {
        5
    }
}

/// How many cells of the bar are filled: in proportion to the value, and never
/// more than there are.
pub open spec fn filled_cells(value: u16, max: u16) -> nat {
    if max == 0 {
        0
    } else if value as int * BAR_WIDTH as int / max as int <= BAR_WIDTH {
        (value as int * BAR_WIDTH as int / max as int) as nat
    } else {
        BAR_WIDTH as nat
    }
}

/// The first column of the bar, within the slider's own row: behind the row's
/// marker, the name and the opening bracket.
pub open spec fn bar_start(name_len: nat) -> nat {
    2 + (if name_len < NAME_WIDTH {
        NAME_WIDTH as nat
    } else {
        name_len
    }) + 2
}

/// The value that a column of the slider's own row stands for; `None` outside
/// the bar. The first cell stands for 0 and the last one for the maximum.
pub open spec fn value_at(name_len: nat, max: u16, col: int) -> Option<u16> {
    let start = bar_start(name_len);
    if start <= col < start + BAR_WIDTH {
        Some(((col - start) * max as int / (BAR_WIDTH - 1)) as u16)
    } else {
        None
    }
}

/// The row that shows a slider.
pub open spec fn slider_line(s: SliderView, focused: bool) -> LineView {
    let filled = filled_cells(s.value, s.max);
    let line = LineView::of(
        seq![
            SpanView::raw(marker(focused)),
            SpanView::styled(padded_right(s.name, NAME_WIDTH as nat), name_style(focused)),
            SpanView::raw(" ["@),
            SpanView::styled(repeated('█', filled), styles::colored(styles::accent())),
            SpanView::styled(
                repeated('░', (BAR_WIDTH - filled) as nat),
                styles::colored(styles::dim_color()),
            ),
            SpanView::raw("] "@ + padded_left(decimal(s.value as nat), 3, ' ')),
        ],
    );
    if focused {
        focus_line(line)
    } else {
        line
    }
}

impl Slider {
    /// Builds a slider with a step size scaled to its range.
    pub fn new(code: u8, name: &str, value: u16, max: u16) -> (r: Self)
        ensures
            r.deep_view() == (SliderView { code, name: name@, value, max, step: step_for(max) }),
    {
        let step: u16 = if max <= 20 {
            1
        } else {
            5
        };
        Slider { code, name: owned(name), value, max, step }
    }

    fn filled(&self) -> (r: usize)
        ensures
            r == filled_cells(self.value, self.max),
            r <= BAR_WIDTH,
    {
        if self.max > 0 {
            let n: u32 = (self.value as u32) * 20 / (self.max as u32);
            if n as usize <= BAR_WIDTH {
                n as usize
            } else {
                BAR_WIDTH
            }
        } else {
            0
        }
    }

    /// The value that a column of this slider's own row stands for; `None`
    /// outside the bar.
    pub fn value_at_column(&self, col: u16) -> (r: Option<u16>)
        ensures
            r == value_at(self.name@.len(), self.max, col as int),
    {
        let n: usize = chars_of(self.name.as_str()).len();
        let width: usize = if n < NAME_WIDTH {
            NAME_WIDTH
        } else {
            n
        };
        let col = col as usize;
        if col < 4 || col - 4 < width {
            return None;
        }
        let offset: usize = col - 4 - width;
        if offset >= BAR_WIDTH {
            return None;
        }
        assert(offset * self.max <= 19 * 65535) by (nonlinear_arith)
            requires
                offset <= 19,
                self.max <= 65535,
        ;
        assert(offset as int * self.max as int / 19 <= self.max) by (nonlinear_arith)
            requires
                0 <= offset <= 19,
                self.max >= 0,
        ;
        assert(offset as int * self.max as int / 19 >= 0) by (nonlinear_arith)
            requires
                0 <= offset,
                self.max >= 0,
        ;
        Some(((offset as u32) * (self.max as u32) / 19) as u16)
    }

    /// The row that shows this slider.
    pub fn view(&self, focused: bool) -> (r: Line)
        ensures
            r.deep_view() == slider_line(self.deep_view(), focused),
    {
        broadcast use group_deep;

        let filled: usize = self.filled();
        let mut bar_filled = String::new();
        push_repeated(&mut bar_filled, '█', filled);
        assert(bar_filled@ =~= repeated('█', filled as nat));
        let mut bar_empty = String::new();
        push_repeated(&mut bar_empty, '░', BAR_WIDTH - filled);
        assert(bar_empty@ =~= repeated('░', (BAR_WIDTH - filled) as nat));
        let mut value = owned("] ");
        push_digits(&mut value, self.value as u64, 10, false, 3, ' ');
        let (cursor, style) = row_start(focused);

        let mut spans: Vec<Span> = Vec::new();
        spans.push(Span::raw(cursor));
        spans.push(Span::styled(pad_right(self.name.as_str(), NAME_WIDTH).as_str(), style));
        spans.push(Span::raw(" ["));
        spans.push(Span::styled(bar_filled.as_str(), styles::colored(styles::accent())));
        spans.push(Span::styled(bar_empty.as_str(), styles::colored(styles::dim_color())));
        spans.push(Span::raw(value.as_str()));
        let line = Line::of(spans);
        proof {
            let s = self.deep_view();
            assert(deep(spans@) =~= seq![
                SpanView::raw(marker(focused)),
                SpanView::styled(padded_right(s.name, NAME_WIDTH as nat), name_style(focused)),
                SpanView::raw(" ["@),
                SpanView::styled(repeated('█', filled as nat), styles::colored(styles::accent())),
                SpanView::styled(
                    repeated('░', (BAR_WIDTH - filled) as nat),
                    styles::colored(styles::dim_color()),
                ),
                SpanView::raw("] "@ + padded_left(decimal(s.value as nat), 3, ' ')),
            ]);
        }
        if focused {
            with_focus_bg(line)
        } else {
            line
        }
    }
}

/// The ends of a bar stand for the ends of the range.
pub proof fn law_bar_ends(name_len: nat, max: u16)
    ensures
        value_at(name_len, max, bar_start(name_len) as int) == Some(0u16),
        value_at(name_len, max, bar_start(name_len) + BAR_WIDTH - 1) == Some(max),
        value_at(name_len, max, bar_start(name_len) - 1) is None,
        value_at(name_len, max, bar_start(name_len) + BAR_WIDTH as int) is None,
{
    assert(0 * max as int == 0);
    assert(19 * max as int / 19 == max);
}

/// A column further right never stands for a smaller value, and no column
/// stands for more than the maximum.
pub proof fn law_bar_is_monotone(name_len: nat, max: u16, a: int, b: int)
    requires
        a <= b,
        value_at(name_len, max, a) is Some,
        value_at(name_len, max, b) is Some,
    ensures
        value_at(name_len, max, a)->0 <= value_at(name_len, max, b)->0 <= max,
{
    let x = a - bar_start(name_len);
    let y = b - bar_start(name_len);
    assert(0 <= x * max as int <= y * max as int <= 19 * max as int) by (nonlinear_arith)
        requires
            0 <= x <= y <= 19,
            max >= 0,
    ;
    assert(0 <= x * max as int / 19 <= y * max as int / 19 <= max);
}

/// The row of a slider shows its name, its value, and a bar that is filled in
/// proportion to the value.
pub proof fn law_the_bar_shows_the_value(s: SliderView, focused: bool)
    ensures
        ({
            let spans = slider_line(s, focused).spans;
            let filled = spans[3].text.len();
            &&& spans.len() == 6
            &&& spans[1].text.take(s.name.len() as int) == s.name
            &&& filled + spans[4].text.len() == 20
            &&& forall|i: int| 0 <= i < filled ==> #[trigger] spans[3].text[i] == '█'
            &&& forall|i: int| 0 <= i < spans[4].text.len() ==> #[trigger] spans[4].text[i] == '░'
            &&& 0 < s.max && s.value <= s.max ==> filled * s.max <= s.value * 20 < (filled + 1)
                * s.max
            &&& 0 < s.max && s.max <= s.value ==> filled == 20
            &&& s.max == 0 ==> filled == 0
            &&& spans[5].text.len() >= decimal(s.value as nat).len() && spans[5].text.skip(
                spans[5].text.len() - decimal(s.value as nat).len(),
            ) == decimal(s.value as nat)
            &&& focused ==> forall|i: int| 0 <= i < 6 ==> (#[trigger] spans[i]).style.bg is Some
            &&& !focused ==> forall|i: int| 0 <= i < 6 ==> (#[trigger] spans[i]).style.bg is None
        }),
{
    let spans = slider_line(s, focused).spans;
    let v = s.value as int;
    let m = s.max as int;
    reveal_strlit("] ");
    lemma_filled(s.value, s.max);
    let plain = slider_line(s, false).spans;
    assert(spans[1].text == padded_right(s.name, NAME_WIDTH as nat));
    assert(spans[1].text.take(s.name.len() as int) =~= s.name);
    let text = spans[5].text;
    let digits = decimal(s.value as nat);
    assert(text == "] "@ + padded_left(digits, 3, ' '));
    assert(text.skip(text.len() - digits.len()) =~= digits);
}

proof fn lemma_filled(value: u16, max: u16)
    ensures
        filled_cells(value, max) <= 20,
        0 < max && value <= max ==> filled_cells(value, max) * max <= value * 20 < (filled_cells(
            value,
            max,
        ) + 1) * max,
        0 < max && max <= value ==> filled_cells(value, max) == 20,
        max == 0 ==> filled_cells(value, max) == 0,
{
    let v = value as int;
    let m = max as int;
    if m > 0 {
        vstd::arithmetic::div_mod::lemma_fundamental_div_mod(v * 20, m);
        vstd::arithmetic::div_mod::lemma_mod_bound(v * 20, m);
        let q = v * 20 / m;
        assert(m * q == q * m) by (nonlinear_arith);
        assert((q + 1) * m == q * m + m) by (nonlinear_arith);
        if v <= m {
            assert(q <= 20) by (nonlinear_arith)
                requires
                    q * m <= v * 20,
                    v <= m,
                    m > 0,
            ;
        }
        if m <= v {
            assert(q >= 20) by (nonlinear_arith)
                requires
                    v * 20 < q * m + m,
                    m <= v,
                    m > 0,
            ;
        }
        assert(q >= 0) by (nonlinear_arith)
            requires
                v * 20 < q * m + m,
                v >= 0,
                m > 0,
        ;
    }
}

/// Pointing at the bar means the value that the bar shows there: its first cell, as
/// it is drawn, stands for 0, its last one for the maximum, and those between for
/// their share of it. What stands left and right of it means nothing.
pub proof fn law_pointing_means_the_drawn_bar(s: SliderView, focused: bool, cell: int)
    ensures
        ({
            let spans = slider_line(s, focused).spans;
            let first = spans[0].text.len() + spans[1].text.len() + spans[2].text.len();
            let value = value_at(s.name.len(), s.max, first + cell);
            &&& value is Some <==> 0 <= cell < spans[3].text.len() + spans[4].text.len()
            &&& value matches Some(v) ==> 19 * v <= cell * s.max < 19 * (v + 1)
        }),
{
    reveal_strlit(" [");
    reveal_strlit("▸ ");
    reveal_strlit("  ");
    lemma_filled(s.value, s.max);
    let spans = slider_line(s, focused).spans;
    assert(spans[0].text == marker(focused));
    assert(spans[1].text == padded_right(s.name, NAME_WIDTH as nat));
    assert(spans[2].text == " ["@);
    if 0 <= cell < 20 {
        let p = cell * s.max as int;
        assert(0 <= p <= 19 * 65535) by (nonlinear_arith)
            requires
                0 <= cell <= 19,
                p == cell * s.max as int,
                0 <= s.max <= 65535,
        ;
    }
}

/// Short ranges are stepped through one by one, longer ones in fives.
pub proof fn law_steps_fit_the_range(max: u16)
    ensures
        max <= 20 ==> step_for(max) == 1,
        max > 20 ==> step_for(max) == 5,
{
}

} // verus!
