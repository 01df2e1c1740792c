//! Groups VCP feature codes into named sections for the Controls screen: a
//! small, best-effort table of the codes every DDC/CI monitor control deals
//! with. A code this table does not know about still shows up, just under
//! `Other`: nothing becomes unreachable.

use vstd::prelude::*;

verus! {

/// A section on the Controls screen. Order here is render order: sections appear
/// top to bottom in this sequence, and a section with no controls in it is
/// skipped entirely (not every monitor has audio).
#[derive(Debug, Clone, Copy, PartialEq, Eq, PartialOrd, Ord, Structural)]
pub enum Category {
    Display,
    Color,
    Audio,
    Power,
    Input,
    Other,
}

/// How many sections there are.
pub const SECTIONS: usize = 6;

/// The section at a place in render order.
pub open spec fn section_at(n: int) -> Category {
    if n == 0 {
        Category::Display
    } else if n == 1 {
        Category::Color
    } else if n == 2 {
        Category::Audio
    } else if n == 3 {
        Category::Power
    } else if n == 4 {
        Category::Input
    } else {
        Category::Other
    }
}

/// The place of a section in render order.
pub open spec fn place_of(c: Category) -> int {
    match c {
        Category::Display => 0,
        Category::Color => 1,
        Category::Audio => 2,
        Category::Power => 3,
        Category::Input => 4,
        Category::Other => 5,
    }
}

pub(crate) fn nth_section(n: usize) -> (r: Category)
    ensures
        r == section_at(n as int),
{
    match n {
        0 => Category::Display,
        1 => Category::Color,
        2 => Category::Audio,
        3 => Category::Power,
        4 => Category::Input,
        _ => Category::Other,
    }
}

/// The name of a section.
pub open spec fn label_of(c: Category) -> Seq<char> {
    match c {
        Category::Display => "DISPLAY"@,
        Category::Color => "COLOR"@,
        Category::Audio => "AUDIO"@,
        Category::Power => "POWER"@,
        Category::Input => "INPUT"@,
        Category::Other => "OTHER"@,
    }
}

impl Category {
    /// The name of this section.
    pub fn label(self) -> (r: &'static str)
        ensures
            r@ == label_of(self),
    {
        match self {
            Category::Display => "DISPLAY",
            Category::Color => "COLOR",
            Category::Audio => "AUDIO",
            Category::Power => "POWER",
            Category::Input => "INPUT",
            Category::Other => "OTHER",
        }
    }
}

/// Luminance, contrast, gain and other picture-geometry codes.
pub open spec fn display_codes() -> Set<u8> {
    set![0x10u8, 0x12, 0x16, 0x18, 0x1a, 0x6c, 0x6e, 0x70, 0x1e]
}

/// Presets and fine colour tuning.
pub open spec fn color_codes() -> Set<u8> {
    set![0x14u8, 0x59, 0x5a, 0x5b, 0x5c, 0x5d, 0x5e, 0x72]
}

pub open spec fn audio_codes() -> Set<u8> {
    set![0x62u8, 0x63, 0x64, 0x8d, 0x8f, 0x91, 0x93]
}

/// Power state and factory-reset actions.
pub open spec fn power_codes() -> Set<u8> {
    set![0xd6u8, 0x04, 0x05, 0x06, 0x08]
}

pub open spec fn input_codes() -> Set<u8> {
    set![0x60u8, 0xd0]
}

/// The section that a code belongs to.
pub open spec fn category_of(code: u8) -> Category {
    if display_codes().contains(code) {
        Category::Display
    } else if color_codes().contains(code) {
        Category::Color
    } else if audio_codes().contains(code) {
        Category::Audio
    } else if power_codes().contains(code) {
        Category::Power
    } else if input_codes().contains(code) {
        Category::Input
    } else {
        Category::Other
    }
}

/// The section that a code belongs to; `Other` for every code that no section
/// claims.
pub fn category_for(code: u8) -> (r: Category)
    ensures
        r == category_of(code),
{
    match code {
        // Brightness, Contrast, Video Gain, Video Black Level, Auto Setup
        0x10 | 0x12 | 0x16 | 0x18 | 0x1a | 0x6c | 0x6e | 0x70 | 0x1e => Category::Display,
        // Color Preset, 6-axis Saturation, Gamma
        0x14 | 0x59 | 0x5a | 0x5b | 0x5c | 0x5d | 0x5e | 0x72 => Category::Color,
        // Speaker Volume, Speaker Select, Microphone Volume, Mute, Treble, Bass, Balance
        0x62 | 0x63 | 0x64 | 0x8d | 0x8f | 0x91 | 0x93 => Category::Audio,
        // Power Mode, Restore Factory (Luminance, Geometry, Color) Defaults
        0xd6 | 0x04 | 0x05 | 0x06 | 0x08 => Category::Power,
        // Input Source, Output Select
        0x60 | 0xd0 => Category::Input,
        _ => Category::Other,
    }
}

/// No code is claimed by two sections.
pub proof fn law_sections_are_disjoint(code: u8)
    ensures
        display_codes().contains(code) ==> !color_codes().contains(code) && !audio_codes().contains(
            code,
        ) && !power_codes().contains(code) && !input_codes().contains(code),
        color_codes().contains(code) ==> !audio_codes().contains(code) && !power_codes().contains(
            code,
        ) && !input_codes().contains(code),
        audio_codes().contains(code) ==> !power_codes().contains(code) && !input_codes().contains(
            code,
        ),
        power_codes().contains(code) ==> !input_codes().contains(code),
{
}

/// Picture levels are under display, presets and tuning under colour, what is heard
/// under audio, power and resets under power, inputs under input; nothing else is
/// claimed by any of them.
pub proof fn law_codes_are_where_they_belong(code: u8)
    ensures
        category_of(code) == Category::Display <==> code == 0x10 || code == 0x12 || code == 0x16
            || code == 0x18 || code == 0x1a || code == 0x6c || code == 0x6e || code == 0x70 || code
            == 0x1e,
        category_of(code) == Category::Color <==> code == 0x14 || 0x59 <= code <= 0x5e || code
            == 0x72,
        category_of(code) == Category::Audio <==> 0x62 <= code <= 0x64 || code == 0x8d || code
            == 0x8f || code == 0x91 || code == 0x93,
        category_of(code) == Category::Power <==> code == 0xd6 || 0x04 <= code <= 0x06 || code
            == 0x08,
        category_of(code) == Category::Input <==> code == 0x60 || code == 0xd0,
{
}

/// Every section has a place, and no two have the same: display first, then colour,
/// audio, power, input, and what is left last.
pub proof fn law_sections_have_their_places(n: int, c: Category)
    ensures
        0 <= n < SECTIONS ==> place_of(section_at(n)) == n,
        section_at(place_of(c)) == c && 0 <= place_of(c) < SECTIONS,
        place_of(Category::Display) < place_of(Category::Color) < place_of(Category::Audio)
            < place_of(Category::Power) < place_of(Category::Input) < place_of(Category::Other),
{
}

} // verus!
