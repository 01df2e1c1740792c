//! Small reusable pieces of the controls screen.

use vstd::prelude::*;

pub mod action;
pub mod selector;
pub mod slider;

pub use action::{action_line, Action, ActionView};
pub use selector::{
    current_name, cycled, distinct_codes, is_position, law_a_round_passes_every_option,
    law_cycling_goes_back, law_cycling_stays_declared, law_next_is_the_neighbour,
    law_unknown_value_moves_to_the_first, next_option, position, selector_line, Selector,
    SelectorOption, SelectorOptionView, SelectorView,
};
pub use slider::{
    bar_start, filled_cells, law_bar_ends, law_bar_is_monotone, slider_line, step_for, value_at,
    Slider, SliderView, BAR_WIDTH,
};

use crate::numbers::{padded_right, push_repeated};
use crate::styles;
use crate::styles::Style;
use crate::text::{chars_of, string_of};

verus! {

/// How wide the name of a control is shown.
pub const NAME_WIDTH: usize = 18;

/// What stands in front of a row.
pub open spec fn marker(focused: bool) -> Seq<char> {
    if focused {
        "▸ "@
    } else {
        "  "@
    }
}

/// The style of a control's name.
pub open spec fn name_style(focused: bool) -> Style {
    if focused {
        styles::focused_name()
    } else {
        styles::name()
    }
}

/// What stands in front of a row, and the style of a control's name.
pub(crate) fn row_start(focused: bool) -> (r: (&'static str, Style))
    ensures
        r.0@ == marker(focused),
        r.1 == name_style(focused),
{
    if focused {
        ("▸ ", styles::focused_name())
    } else {
        ("  ", styles::name())
    }
}

/// `name`, cut to `width` characters with an ellipsis where it is longer.
pub open spec fn truncated(name: Seq<char>, width: nat) -> Seq<char> {
    if name.len() > width {
        name.take(width - 3) + "..."@
    } else {
        name
    }
}

/// `name`, cut to `width` characters with an ellipsis where it is longer.
pub fn truncate_name(name: &str, width: usize) -> (r: String)
    requires
        width >= 3,
    ensures
        r@ == truncated(name@, width as nat),
{
    let v = chars_of(name);
    if v.len() > width {
        let mut s = string_of(&v, 0, width - 3);
        assert(s@ =~= name@.take(width - 3));
        s.append("...");
        s
    } else {
        let s = string_of(&v, 0, v.len());
        assert(s@ =~= name@);
        s
    }
}

/// `name` with blanks behind, up to `width` characters.
pub(crate) fn pad_right(name: &str, width: usize) -> (r: String)
    ensures
        r@ == padded_right(name@, width as nat),
{
    let v = chars_of(name);
    let mut s = string_of(&v, 0, v.len());
    assert(s@ =~= name@);
    if v.len() < width {
        push_repeated(&mut s, ' ', width - v.len());
    }
    s
}

/// A name that fits is shown whole; a longer one up to three characters before the
/// width, with dots behind.
pub proof fn law_long_names_are_cut(name: Seq<char>, width: nat)
    requires
        width >= 3,
    ensures
        name.len() <= width ==> truncated(name, width) == name,
        name.len() > width ==> {
            let t = truncated(name, width);
            t.len() == width && t.take(width - 3) == name.take(width - 3) && t.skip(width - 3)
                == "..."@
        },
{
    reveal_strlit("...");
    if name.len() > width {
        let t = name.take(width - 3) + "..."@;
        assert(t.take(width - 3) =~= name.take(width - 3));
        assert(t.skip(width - 3) =~= "..."@);
    }
}

/// The focused row is marked, and no other, without moving what follows.
pub proof fn law_only_the_focus_is_marked(focused: bool)
    ensures
        marker(focused).len() == 2,
        marker(true)[0] == '▸',
        marker(false)[0] == ' ',
        name_style(true) != name_style(false),
        name_style(true).bold,
{
    reveal_strlit("▸ ");
    reveal_strlit("  ");
}

} // verus!
