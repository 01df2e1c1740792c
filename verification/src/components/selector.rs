use vstd::prelude::*;

use crate::components::{
    marker, name_style, pad_right, row_start, truncate_name, truncated, NAME_WIDTH,
};
use crate::numbers::{hex2, hex2_text, padded_right};
use crate::styles::{focus_line, with_focus_bg, Line, LineView, Span, SpanView};
use crate::text::{deep, group_deep, owned};

verus! {

/// One named value a selector can take, e.g. `{ code: 0x11, name: "HDMI-1" }`.
#[derive(Debug)]
pub struct SelectorOption {
    pub code: u8,
    pub name: String,
}

pub struct SelectorOptionView {
    pub code: u8,
    pub name: Seq<char>,
}

impl DeepView for SelectorOption {
    type V = SelectorOptionView;

    open spec fn deep_view(&self) -> SelectorOptionView {
        SelectorOptionView { code: self.code, name: self.name@ }
    }
}

impl Clone for SelectorOption {
    fn clone(&self) -> (r: Self)
        ensures
            r == *self,
    {
        SelectorOption { code: self.code, name: self.name.clone() }
    }
}

/// A non-continuous VCP control with a monitor-declared, fully named set of
/// values, e.g. Input Source or Color Preset.
#[derive(Debug)]
pub struct Selector {
    pub code: u8,
    pub name: String,
    pub options: Vec<SelectorOption>,
    /// Current raw value; may not be among `options`.
    pub selected: u8,
}

#[verifier::ext_equal]
pub struct SelectorView {
    pub code: u8,
    pub name: Seq<char>,
    pub options: Seq<SelectorOptionView>,
    pub selected: u8,
}

impl DeepView for Selector {
    type V = SelectorView;

    open spec fn deep_view(&self) -> SelectorView {
        SelectorView {
            code: self.code,
            name: self.name@,
            options: deep(self.options@),
            selected: self.selected,
        }
    }
}

impl Clone for Selector {
    fn clone(&self) -> (r: Self)
        ensures
            r.deep_view() == self.deep_view(),
    {
        let mut options: Vec<SelectorOption> = Vec::new();
        for i in 0..self.options.len()
            invariant
                options@ == self.options@.take(i as int),
        {
            options.push(self.options[i].clone());
            assert(options@ =~= self.options@.take(i + 1));
        }
        assert(options@ =~= self.options@);
        Selector { code: self.code, name: self.name.clone(), options, selected: self.selected }
    }
}

/// Whether the option at `i` is the first one with this code.
pub open spec fn is_position(options: Seq<SelectorOptionView>, code: u8, i: int) -> bool {
    &&& 0 <= i < options.len()
    &&& options[i].code == code
    &&& forall|j: int| 0 <= j < i ==> (#[trigger] options[j]).code != code
}

/// Where the first option with this code stands.
pub open spec fn position(options: Seq<SelectorOptionView>, code: u8) -> Option<int> {
    if exists|i: int| is_position(options, code, i) {
        Some(choose|i: int| is_position(options, code, i))
    } else {
        None
    }
}

proof fn lemma_position(options: Seq<SelectorOptionView>, code: u8, i: int)
    requires
        is_position(options, code, i),
    ensures
        position(options, code) == Some(i),
{
    let k = choose|k: int| is_position(options, code, k);
    assert(is_position(options, code, k));
    assert(options[i].code == code && options[k].code == code);
}

proof fn lemma_no_position(options: Seq<SelectorOptionView>, code: u8)
    requires
        forall|j: int| 0 <= j < options.len() ==> (#[trigger] options[j]).code != code,
    ensures
        position(options, code) is None,
{
}

/// The code that a selector moves to in the given direction, wrapping around.
/// A value that is not among the options moves to the first one.
pub open spec fn next_option(
    options: Seq<SelectorOptionView>,
    selected: u8,
    direction: int,
) -> u8 {
    if options.len() == 0 {
        selected
    } else {
        match position(options, selected) {
            Some(i) => options[(i + direction) % (options.len() as int)].code,
            None => options[0].code,
        }
    }
}

/// How the current value is shown.
pub open spec fn current_name(s: SelectorView) -> Seq<char> {
    match position(s.options, s.selected) {
        Some(i) => s.options[i].name,
        None => "unknown (0x"@ + hex2(s.selected as nat, true) + ")"@,
    }
}

/// The row that shows a selector.
pub open spec fn selector_line(s: SelectorView, focused: bool) -> LineView {
    let line = LineView::of(
        seq![
            SpanView::raw(marker(focused)),
            SpanView::styled(
                padded_right(truncated(s.name, NAME_WIDTH as nat), NAME_WIDTH as nat),
                name_style(focused),
            ),
            SpanView::raw(" ‹ "@ + current_name(s) + " ›"@),
        ],
    );
    if focused {
        focus_line(line)
    } else {
        line
    }
}

impl Selector {
    pub fn new(code: u8, name: &str, options: Vec<SelectorOption>, current: u8) -> (r: Self)
        ensures
            r.deep_view() == (SelectorView {
                code,
                name: name@,
                options: deep(options@),
                selected: current,
            }),
            r.options == options,
    {
        Selector { code, name: owned(name), options, selected: current }
    }

    fn index_of(&self, code: u8) -> (r: Option<usize>)
        ensures
            r is Some ==> position(deep(self.options@), code) == Some(r->0 as int) && r->0
                < self.options@.len(),
            r is None ==> position(deep(self.options@), code) is None,
    {
        let ghost options = deep(self.options@);
        for i in 0..self.options.len()
            invariant
                options == deep(self.options@),
                forall|j: int| 0 <= j < i ==> (#[trigger] options[j]).code != code,
        {
            assert(options[i as int].code == self.options@[i as int].code);
            if self.options[i].code == code {
                proof {
                    lemma_position(options, code, i as int);
                }
                return Some(i);
            }
        }
        proof {
            lemma_no_position(options, code);
        }
        None
    }

    /// Returns the option code the selector would move to for the given
    /// direction (+1 or -1), wrapping around. If the monitor's current value is
    /// not among the declared options, cycling lands on the first option rather
    /// than guessing an offset from an unknown position.
    pub fn next_option(&self, direction: i32) -> (r: u8)
        ensures
            r == next_option(deep(self.options@), self.selected, direction as int),
    {
        if self.options.len() == 0 {
            return self.selected;
        }
        match self.index_of(self.selected) {
            None => self.options[0].code,
            Some(idx) => {
                let len: i128 = self.options.len() as i128;
                let sum: i128 = idx as i128 + direction as i128;
                let rest: i128 = sum % len;
                let next: i128 = if rest < 0 {
                    rest + len
                } else {
                    rest
                };
                proof {
                    lemma_wrapped(sum as int, len as int, rest as int, next as int);
                }
                self.options[next as usize].code
            },
        }
    }

    /// How the current value is shown: its name, or its code where the monitor
    /// never declared it.
    pub fn current_name(&self) -> (r: String)
        ensures
            r@ == current_name(self.deep_view()),
    {
        match self.index_of(self.selected) {
            Some(idx) => self.options[idx].name.clone(),
            None => {
                let mut s = owned("unknown (0x");
                s.append(hex2_text(self.selected as u16, true).as_str());
                s.append(")");
                s
            },
        }
    }

    /// The row that shows this selector.
    pub fn view(&self, focused: bool) -> (r: Line)
        ensures
            r.deep_view() == selector_line(self.deep_view(), focused),
    {
        broadcast use group_deep;

        let (cursor, style) = row_start(focused);
        let name = pad_right(truncate_name(self.name.as_str(), NAME_WIDTH).as_str(), NAME_WIDTH);
        let mut value = owned(" ‹ ");
        value.append(self.current_name().as_str());
        value.append(" ›");
        let mut spans: Vec<Span> = Vec::new();
        spans.push(Span::raw(cursor));
        spans.push(Span::styled(name.as_str(), style));
        spans.push(Span::raw(value.as_str()));
        proof {
            let s = self.deep_view();
            assert(deep(spans@) =~= seq![
                SpanView::raw(marker(focused)),
                SpanView::styled(
                    padded_right(truncated(s.name, NAME_WIDTH as nat), NAME_WIDTH as nat),
                    name_style(focused),
                ),
                SpanView::raw(" ‹ "@ + current_name(s) + " ›"@),
            ]);
        }
        let line = Line::of(spans);
        if focused {
            with_focus_bg(line)
        } else {
            line
        }
    }
}

proof fn lemma_wrapped(sum: int, len: int, rest: int, next: int)
    requires
        len > 0,
        sum >= 0 ==> rest == sum % len,
        sum < 0 ==> rest == -((-sum) % len),
        next == (if rest < 0 {
            rest + len
        } else {
            rest
        }),
    ensures
        next == sum % len,
        0 <= next < len,
{
    if sum < 0 {
        let a = -sum;
        vstd::arithmetic::div_mod::lemma_fundamental_div_mod(a, len);
        vstd::arithmetic::div_mod::lemma_mod_bound(a, len);
        if rest < 0 {
            assert(sum == (-(a / len) - 1) * len + next) by (nonlinear_arith)
                requires
                    a == len * (a / len) + a % len,
                    sum == -a,
                    next == -(a % len) + len,
            ;
            vstd::arithmetic::div_mod::lemma_fundamental_div_mod_converse(
                sum,
                len,
                -(a / len) - 1,
                next,
            );
        } else {
            assert(sum == (-(a / len)) * len + 0) by (nonlinear_arith)
                requires
                    a == len * (a / len) + a % len,
                    a % len == 0,
                    sum == -a,
            ;
            vstd::arithmetic::div_mod::lemma_fundamental_div_mod_converse(sum, len, -(a / len), 0);
        }
    } else {
        vstd::arithmetic::div_mod::lemma_mod_bound(sum, len);
    }
}

/// Whether no code is declared twice.
pub open spec fn distinct_codes(options: Seq<SelectorOptionView>) -> bool {
    forall|i: int, j: int|
        0 <= i < j < options.len() ==> (#[trigger] options[i]).code != (#[trigger] options[j]).code
}

/// Cycling a selector that has options always lands on one of them, also from a
/// value that the monitor never declared.
pub proof fn law_cycling_stays_declared(
    options: Seq<SelectorOptionView>,
    selected: u8,
    direction: int,
)
    requires
        options.len() > 0,
    ensures
        exists|i: int|
            0 <= i < options.len() && (#[trigger] options[i]).code == next_option(
                options,
                selected,
                direction,
            ),
{
    match position(options, selected) {
        Some(i) => {
            let k = (i + direction) % (options.len() as int);
            assert(0 <= k < options.len());
            assert(options[k].code == next_option(options, selected, direction));
        },
        None => {
            assert(options[0].code == next_option(options, selected, direction));
        },
    }
}

/// Cycling one way and then the other comes back to where it started, as long
/// as the current value is a declared one and no code is declared twice.
pub proof fn law_cycling_goes_back(
    options: Seq<SelectorOptionView>,
    selected: u8,
    direction: int,
)
    requires
        distinct_codes(options),
        position(options, selected) is Some,
    ensures
        next_option(options, next_option(options, selected, direction), -direction) == selected,
{
    let len = options.len() as int;
    let i = position(options, selected)->0;
    assert(is_position(options, selected, i));
    let k = (i + direction) % len;
    assert(0 <= k < len);
    assert(is_position(options, options[k].code, k));
    lemma_position(options, options[k].code, k);
    vstd::arithmetic::div_mod::lemma_sub_mod_noop(i + direction, direction, len);
    vstd::arithmetic::div_mod::lemma_sub_mod_noop_right(k, direction, len);
    vstd::arithmetic::div_mod::lemma_mod_twice(i + direction, len);
    vstd::arithmetic::div_mod::lemma_sub_mod_noop(k, direction, len);
    vstd::arithmetic::div_mod::lemma_small_mod(i as nat, len as nat);
    assert((k + -direction) % len == i);
}

/// Moving on goes to the option behind the one that a selector stands at, and
/// moving back to the one before it, round the ends.
pub proof fn law_next_is_the_neighbour(options: Seq<SelectorOptionView>, selected: u8, i: int)
    requires
        0 <= i < options.len(),
        options[i].code == selected,
        forall|j: int| 0 <= j < i ==> (#[trigger] options[j]).code != selected,
    ensures
        next_option(options, selected, 1) == (if i + 1 < options.len() {
            options[i + 1].code
        } else {
            options[0].code
        }),
        next_option(options, selected, -1) == (if i > 0 {
            options[i - 1].code
        } else {
            options[options.len() - 1].code
        }),
{
    let len = options.len() as int;
    assert(is_position(options, selected, i));
    lemma_position(options, selected, i);
    if i + 1 < len {
        vstd::arithmetic::div_mod::lemma_small_mod((i + 1) as nat, len as nat);
    } else {
        vstd::arithmetic::div_mod::lemma_mod_self_0(len);
    }
    if i > 0 {
        vstd::arithmetic::div_mod::lemma_small_mod((i - 1) as nat, len as nat);
    } else {
        vstd::arithmetic::div_mod::lemma_mod_add_multiples_vanish(-1, len);
        vstd::arithmetic::div_mod::lemma_small_mod((len - 1) as nat, len as nat);
    }
}

/// A value that is not among the options moves to the first of them, either way,
/// and a selector without options stays where it is.
pub proof fn law_unknown_value_moves_to_the_first(
    options: Seq<SelectorOptionView>,
    selected: u8,
    direction: int,
)
    requires
        forall|j: int| 0 <= j < options.len() ==> (#[trigger] options[j]).code != selected,
    ensures
        next_option(options, selected, direction) == (if options.len() > 0 {
            options[0].code
        } else {
            selected
        }),
{
    lemma_no_position(options, selected);
}

/// The code that a selector stands at after moving forward `n` times.
pub open spec fn cycled(options: Seq<SelectorOptionView>, selected: u8, n: nat) -> u8
    decreases n,
{
    if n == 0 {
        selected
    } else {
        next_option(options, cycled(options, selected, (n - 1) as nat), 1)
    }
}

proof fn lemma_cycled(options: Seq<SelectorOptionView>, selected: u8, n: nat)
    requires
        distinct_codes(options),
        position(options, selected) is Some,
    ensures
        ({
            let k = (position(options, selected)->0 + n) % (options.len() as int);
            &&& 0 <= k < options.len()
            &&& cycled(options, selected, n) == options[k].code
        }),
    decreases n,
{
    let len = options.len() as int;
    let i = position(options, selected)->0;
    assert(is_position(options, selected, i));
    let k = (i + n) % len;
    vstd::arithmetic::div_mod::lemma_mod_bound(i + n, len);
    if n == 0 {
        vstd::arithmetic::div_mod::lemma_small_mod(i as nat, len as nat);
    } else {
        lemma_cycled(options, selected, (n - 1) as nat);
        let before = (i + n - 1) % len;
        assert(is_position(options, options[before].code, before));
        lemma_position(options, options[before].code, before);
        vstd::arithmetic::div_mod::lemma_add_mod_noop_right(1, i + n - 1, len);
        assert((before + 1) % len == k);
    }
}

/// A full round passes every option once and ends where it started, as long as
/// the current value is a declared one and no code is declared twice.
pub proof fn law_a_round_passes_every_option(
    options: Seq<SelectorOptionView>,
    selected: u8,
    j: int,
)
    requires
        distinct_codes(options),
        position(options, selected) is Some,
        0 <= j < options.len(),
    ensures
        cycled(options, selected, options.len()) == selected,
        exists|n: nat|
            n < options.len() && #[trigger] cycled(options, selected, n) == options[j].code
                && forall|m: nat|
                m < options.len() && #[trigger] cycled(options, selected, m) == options[j].code
                    ==> m == n,
{
    let len = options.len() as int;
    let i = position(options, selected)->0;
    assert(is_position(options, selected, i));
    lemma_cycled(options, selected, options.len());
    vstd::arithmetic::div_mod::lemma_mod_add_multiples_vanish(i, len);
    vstd::arithmetic::div_mod::lemma_small_mod(i as nat, len as nat);
    let n: nat = if i <= j {
        (j - i) as nat
    } else {
        (j - i + len) as nat
    };
    lemma_cycled(options, selected, n);
    lemma_round(i, n as int, len, j);
    assert forall|m: nat|
        m < options.len() && #[trigger] cycled(options, selected, m) == options[j].code implies m
        == n by {
        lemma_cycled(options, selected, m);
        let k = (i + m) % len;
        assert(options[k].code == options[j].code);
        assert(k == j);
        lemma_round(i, m as int, len, k);
    }
}

proof fn lemma_round(i: int, n: int, len: int, j: int)
    requires
        0 <= i < len,
        0 <= n < len,
        0 <= j < len,
    ensures
        (i + n) % len == j <==> (i + n == j || i + n == j + len),
{
    if i + n < len {
        vstd::arithmetic::div_mod::lemma_small_mod((i + n) as nat, len as nat);
    } else {
        vstd::arithmetic::div_mod::lemma_mod_sub_multiples_vanish(i + n, len);
        vstd::arithmetic::div_mod::lemma_small_mod((i + n - len) as nat, len as nat);
    }
}

/// The row of a selector shows its name, and the name of the option that it stands
/// at: the first one with its code. A value that is not among the options is shown
/// by its code.
pub proof fn law_the_row_shows_the_selection(s: SelectorView, focused: bool, k: int)
    ensures
        ({
            let spans = selector_line(s, focused).spans;
            &&& spans.len() == 3
            &&& s.name.len() <= 18 ==> spans[1].text.take(s.name.len() as int) == s.name
            &&& spans[1].text.len() == 18
            &&& 0 <= k < s.options.len() && s.options[k].code == s.selected && (forall|j: int|
                0 <= j < k ==> (#[trigger] s.options[j]).code != s.selected) ==> spans[2].text
                == " ‹ "@ + s.options[k].name + " ›"@
            &&& (forall|j: int|
                0 <= j < s.options.len() ==> (#[trigger] s.options[j]).code != s.selected)
                ==> spans[2].text == " ‹ "@ + ("unknown (0x"@ + hex2(s.selected as nat, true)
                + ")"@) + " ›"@
            &&& focused ==> forall|i: int| 0 <= i < 3 ==> (#[trigger] spans[i]).style.bg is Some
            &&& !focused ==> forall|i: int| 0 <= i < 3 ==> (#[trigger] spans[i]).style.bg is None
        }),
{
    reveal_strlit("...");
    let spans = selector_line(s, focused).spans;
    let shown = padded_right(truncated(s.name, NAME_WIDTH as nat), NAME_WIDTH as nat);
    assert(spans[1].text == shown);
    if s.name.len() <= 18 {
        assert(shown.take(s.name.len() as int) =~= s.name);
    }
    if 0 <= k < s.options.len() && s.options[k].code == s.selected && (forall|j: int|
        0 <= j < k ==> (#[trigger] s.options[j]).code != s.selected) {
        assert(is_position(s.options, s.selected, k));
        lemma_position(s.options, s.selected, k);
    }
    if forall|j: int| 0 <= j < s.options.len() ==> (#[trigger] s.options[j]).code != s.selected {
        lemma_no_position(s.options, s.selected);
    }
}

} // verus!
