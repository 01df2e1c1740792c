//! Frame effects: which ones are waiting to be shown, and the noise that a
//! cell shows until it is revealed.

use vstd::prelude::*;

verus! {

// ---- queue ---------------------------------------------------------------------

/// A short visual effect over a whole frame.
#[derive(Debug, Clone, Copy, PartialEq, Eq, Structural)]
pub enum Effect {
    /// A screen just got real content.
    Entrance,
    /// Switched between two screens that have content.
    Transition,
    /// A new error just appeared.
    Error,
}

/// How long an effect takes, in milliseconds: short, and a little longer where
/// there was a first load to wait for.
pub open spec fn duration_of(effect: Effect) -> u32 {
    match effect {
        Effect::Entrance => 250,
        Effect::Transition => 150,
        Effect::Error => 200,
    }
}

impl Effect {
    /// How long this effect takes, in milliseconds.
    pub fn duration_ms(self) -> (r: u32)
        ensures
            r == duration_of(self),
    {
        match self {
            Effect::Entrance => 250,
            Effect::Transition => 150,
            Effect::Error => 200,
        }
    }
}

/// The effects that have been asked for and not yet been shown to their end.
#[derive(Debug)]
pub struct EffectQueue {
    pub queued: Vec<Effect>,
}

impl EffectQueue {
    pub fn new() -> (r: Self)
        ensures
            r.queued@ == Seq::<Effect>::empty(),
    {
        EffectQueue { queued: Vec::new() }
    }

    /// Asks for a further effect.
    pub fn add_effect(&mut self, effect: Effect)
        ensures
            final(self).queued@ == old(self).queued@.push(effect),
    {
        self.queued.push(effect);
    }

    /// Whether an effect is waiting to be shown.
    pub fn is_running(&self) -> (r: bool)
        ensures
            r == (self.queued@.len() > 0),
    {
        self.queued.len() > 0
    }
}

// ---- timing --------------------------------------------------------------------

/// How long to wait for input while nothing moves, in milliseconds.
pub const IDLE_POLL_MS: u64 = 50;
/// How long to wait for input while an effect runs: shorter, so that it gets
/// enough frames to look smooth.
pub const ANIMATING_POLL_MS: u64 = 16;
/// The most that an effect is advanced in one frame.
pub const MAX_EFFECT_STEP_MS: u64 = 33;

/// How long to wait for input, in milliseconds.
pub fn poll_timeout_ms(animating: bool) -> (r: u64)
    ensures
        r == (if animating {
            ANIMATING_POLL_MS
        } else {
            IDLE_POLL_MS
        }),
{
    if animating {
        ANIMATING_POLL_MS
    } else {
        IDLE_POLL_MS
    }
}

/// How far effects are advanced after `elapsed_ms`.
pub open spec fn step_after(elapsed_ms: u64) -> u64 {
    if elapsed_ms < MAX_EFFECT_STEP_MS {
        elapsed_ms
    } else {
        MAX_EFFECT_STEP_MS
    }
}

/// How far effects are advanced after `elapsed_ms`. The first frame after an
/// effect was asked for comes after however long nothing happened before;
/// without a ceiling that frame would finish the effect at once, and it would
/// read as a flash.
pub fn effect_step_ms(elapsed_ms: u64) -> (r: u64)
    ensures
        r == step_after(elapsed_ms),
{
    if elapsed_ms < MAX_EFFECT_STEP_MS {
        elapsed_ms
    } else {
        MAX_EFFECT_STEP_MS
    }
}

/// No single frame finishes an effect, however long nothing happened before it.
pub proof fn law_no_effect_ends_in_one_frame(effect: Effect, elapsed_ms: u64)
    ensures
        step_after(elapsed_ms) < duration_of(effect),
{
}

// ---- noise ---------------------------------------------------------------------

/// First code point of the Braille Patterns block (U+2800..=U+28FF, one bit per
/// dot): 256 glyphs, the first of which has no dot and renders as blank.
pub const BRAILLE_BASE: u32 = 0x2800;

/// `char::from_u32` gives the character with this code point; `None` where there
/// is none: above the last code point, or in the range of surrogates.
pub assume_specification[ char::from_u32 ](i: u32) -> (r: Option<char>)
    ensures
        r is Some <==> (i <= 0xd7ff || 0xe000 <= i <= 0x10ffff),
        r is Some ==> r->0 as u32 == i,
;

/// A position and tick, mixed by a few rounds of multiply-xor-shift.
pub open spec fn mixed(x: u16, y: u16, salt: u32) -> u32 {
    let a = (x as u32).wrapping_mul(0x9e37_79b1) ^ (y as u32).wrapping_mul(0x85eb_ca77)
        ^ salt.wrapping_mul(0xc2b2_ae3d);
    let b = (a ^ (a >> 16u32)).wrapping_mul(0x7feb_352d);
    b ^ (b >> 15u32)
}

/// Cheap, non-cryptographic position+tick hash: plenty for "looks random".
pub fn hash(x: u16, y: u16, salt: u32) -> (r: u32)
    ensures
        r == mixed(x, y, salt),
{
    let mut h: u32 = (x as u32).wrapping_mul(0x9e37_79b1) ^ (y as u32).wrapping_mul(0x85eb_ca77)
        ^ salt.wrapping_mul(0xc2b2_ae3d);
    h = h ^ (h >> 16u32);
    h = h.wrapping_mul(0x7feb_352d);
    h = h ^ (h >> 15u32);
    h
}

/// In how many ten-thousandths of an effect's course a cell is revealed.
pub const REVEAL_STEPS: u32 = 10_000;

/// The point, of [`REVEAL_STEPS`], at which a cell is revealed. Each cell has
/// its own, so that no two are revealed at exactly the same moment.
pub fn reveal_point(x: u16, y: u16) -> (r: u32)
    ensures
        r == mixed(x, y, 0) % REVEAL_STEPS,
        r < REVEAL_STEPS,
{
    hash(x, y, 0) % REVEAL_STEPS
}

/// The flicker's tick after `elapsed_ms`: a new one every 40 milliseconds, fast
/// enough to read as noise.
pub fn flicker_tick(elapsed_ms: u32) -> (r: u32)
    ensures
        r == elapsed_ms / 40,
{
    elapsed_ms / 40
}

/// The glyph that a cell shows in a tick before it is revealed: any of the
/// block but the blank one.
pub open spec fn is_noise_glyph(c: char, x: u16, y: u16, tick: u32) -> bool {
    c as u32 == BRAILLE_BASE + 1 + mixed(x, y, tick) % 255
}

/// The glyph that a cell shows in a tick before it is revealed. It is never the
/// blank one.
pub fn noise_glyph(x: u16, y: u16, tick: u32) -> (r: char)
    ensures
        is_noise_glyph(r, x, y, tick),
        BRAILLE_BASE < r as u32 <= BRAILLE_BASE + 255,
{
    let n: u32 = hash(x, y, tick) % 255;
    match char::from_u32(BRAILLE_BASE + 1 + n) {
        Some(c) => c,
        None => ' ',
    }
}

/// Effects are short, a first load being announced longest, and never run ahead of
/// the clock.
pub proof fn law_effects_are_short(effect: Effect, elapsed_ms: u64)
    ensures
        100 <= duration_of(effect) <= 250,
        duration_of(Effect::Transition) < duration_of(Effect::Error) < duration_of(
            Effect::Entrance,
        ),
        step_after(elapsed_ms) <= elapsed_ms,
        elapsed_ms <= 33 ==> step_after(elapsed_ms) == elapsed_ms,
        elapsed_ms > 0 ==> step_after(elapsed_ms) > 0,
        0 < ANIMATING_POLL_MS < IDLE_POLL_MS <= 100,
{
}

} // verus!
