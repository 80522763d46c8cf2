//! The colours of gauges, and how they warn.
use crate::color::{color, color_of, Color};
use crate::draw::{mix, mixed, Tint, Weight};
use crate::measure::{one, Binary64};
use vstd::arithmetic::power2::lemma_pow2_pos;
use vstd::prelude::*;

verus! {

/// A four-stop palette for a glowing fill: a dark `edge`, the `mid` body
/// colour, a near-white `core` for highlights, and a `glow` for the soft halo.
#[derive(Debug, PartialEq, Eq)]
pub struct Led {
    pub edge: Tint,
    pub mid: Tint,
    pub core: Tint,
    pub glow: Tint,
}

/// How much trouble a quota window is in.
#[derive(Clone, Copy, Debug, PartialEq, Eq, Structural)]
pub enum Level {
    Calm,
    Warm,
    Hot,
}

pub open spec fn solid(rgb: u32) -> Tint {
    Tint::Solid(color_of(rgb))
}

pub open spec fn led_of(edge: u32, mid: u32, core: u32, glow: u32) -> Led {
    Led { edge: solid(edge), mid: solid(mid), core: solid(core), glow: solid(glow) }
}

pub open spec fn claude_stops() -> Led {
    led_of(0x1d4ed8, 0x22d3ee, 0xeafcff, 0x38bdf8)
}

pub open spec fn codex_stops(dark: bool) -> Led {
    if dark {
        led_of(0x6b7280, 0xe5e7eb, 0xffffff, 0xd1d5db)
    } else {
        led_of(0x9ca3af, 0x4b5563, 0x111827, 0x6b7280)
    }
}

pub open spec fn antigravity_stops() -> Led {
    led_of(0x1e3a8a, 0x4285f4, 0xe8f0ff, 0x60a5fa)
}

pub open spec fn ring_stops() -> Led {
    led_of(0x047857, 0x34d399, 0xecfffb, 0x6ee7b7)
}

pub open spec fn warm_stops() -> Led {
    led_of(0x92400e, 0xfbbf24, 0xfff8e3, 0xf59e0b)
}

pub open spec fn hot_stops() -> Led {
    led_of(0x7f1d1d, 0xf87171, 0xffe6e6, 0xef4444)
}

/// The stops of a custom accent over a background.
pub open spec fn custom_stops(accent: Color, bg: Color) -> Led {
    Led {
        edge: mix(Tint::Solid(accent), Tint::Solid(bg), Weight::Fixed(400)),
        mid: Tint::Solid(accent),
        core: mix(Tint::Solid(accent), solid(0xffffff), Weight::Fixed(250)),
        glow: Tint::Solid(accent),
    }
}

/// Every stop of `a` blended toward the same stop of `b`.
pub open spec fn between(a: Led, b: Led, weight: Weight) -> Led {
    Led {
        edge: mix(a.edge, b.edge, weight),
        mid: mix(a.mid, b.mid, weight),
        core: mix(a.core, b.core, weight),
        glow: mix(a.glow, b.glow, weight),
    }
}

/// A window is hot from 90% on or 18 points ahead of an even spend, and warm
/// from 70% on or 8 points ahead.
pub open spec fn level_of(percent: Binary64, burn: Binary64) -> Level {
    if percent.at_least(90) || burn.at_least(18) {
        Level::Hot
    } else if percent.at_least(70) || burn.at_least(8) {
        Level::Warm
    } else {
        Level::Calm
    }
}

/// The colours of a usage row.
pub open spec fn state_stops(percent: Binary64, burn: Binary64, base: Led) -> Led {
    match level_of(percent, burn) {
        Level::Hot => hot_stops(),
        Level::Warm => warm_stops(),
        Level::Calm => base,
    }
}

/// The colours of the memory column: emerald up to 60%, amber at 85%, red at
/// 100%, and a blend in between.
pub open spec fn ram_stops(percent: Binary64) -> Led {
    if !percent.nan() && !percent.above(60) {
        ring_stops()
    } else if !percent.nan() && !percent.above(85) {
        between(
            ring_stops(),
            warm_stops(),
            Weight::Ramp { reading: percent, start: 60, span: 25 },
        )
    } else {
        between(
            warm_stops(),
            hot_stops(),
            Weight::Ramp { reading: percent, start: 85, span: 15 },
        )
    }
}

pub open spec fn pace_marker(dark: bool) -> Tint {
    if dark {
        solid(0xe0e0e0)
    } else {
        solid(0x303030)
    }
}

pub open spec fn ram_track(dark: bool) -> Tint {
    if dark {
        solid(0x2f3b45)
    } else {
        solid(0xc7d2da)
    }
}

pub fn tint(rgb: u32) -> (t: Tint)
    ensures
        t == solid(rgb),
{
    Tint::Solid(color(rgb))
}

fn led(edge: u32, mid: u32, core: u32, glow: u32) -> (l: Led)
    ensures
        l == led_of(edge, mid, core, glow),
{
    Led { edge: tint(edge), mid: tint(mid), core: tint(core), glow: tint(glow) }
}

impl Led {
    pub fn copy(&self) -> (l: Led)
        ensures
            l == *self,
    {
        Led {
            edge: self.edge.copy(),
            mid: self.mid.copy(),
            core: self.core.copy(),
            glow: self.glow.copy(),
        }
    }
}

/// A cool cyan.
pub fn claude_led() -> (l: Led)
    ensures
        l == claude_stops(),
{
    led(0x1d4ed8, 0x22d3ee, 0xeafcff, 0x38bdf8)
}

/// A mono LED, bright on dark and dark on light so it stays legible in either
/// theme.
pub fn codex_led(is_dark: bool) -> (l: Led)
    ensures
        l == codex_stops(is_dark),
{
    if is_dark {
        led(0x6b7280, 0xe5e7eb, 0xffffff, 0xd1d5db)
    } else {
        led(0x9ca3af, 0x4b5563, 0x111827, 0x6b7280)
    }
}

/// A blue that keeps that provider's identity.
pub fn antigravity_led() -> (l: Led)
    ensures
        l == antigravity_stops(),
{
    led(0x1e3a8a, 0x4285f4, 0xe8f0ff, 0x60a5fa)
}

/// An emerald, kept distinct from the provider colours.
pub fn ring_led() -> (l: Led)
    ensures
        l == ring_stops(),
{
    led(0x047857, 0x34d399, 0xecfffb, 0x6ee7b7)
}

/// Amber: a window is getting tight.
pub fn warm_led() -> (l: Led)
    ensures
        l == warm_stops(),
{
    led(0x92400e, 0xfbbf24, 0xfff8e3, 0xf59e0b)
}

/// Red: a window is nearly used up, or will run out early.
pub fn hot_led() -> (l: Led)
    ensures
        l == hot_stops(),
{
    led(0x7f1d1d, 0xf87171, 0xffe6e6, 0xef4444)
}

/// The stops of a custom accent.
pub fn custom_led(accent: Color, bg: Color) -> (l: Led)
    ensures
        l == custom_stops(accent, bg),
{
    let a = Tint::Solid(accent);
    Led {
        edge: mixed(&a, &Tint::Solid(bg), Weight::Fixed(400)),
        mid: a.copy(),
        core: mixed(&a, &tint(0xffffff), Weight::Fixed(250)),
        glow: a.copy(),
    }
}

/// Blend every stop toward another palette's.
pub fn lerp_led(a: &Led, b: &Led, weight: Weight) -> (l: Led)
    ensures
        l == between(*a, *b, weight),
{
    Led {
        edge: mixed(&a.edge, &b.edge, weight),
        mid: mixed(&a.mid, &b.mid, weight),
        core: mixed(&a.core, &b.core, weight),
        glow: mixed(&a.glow, &b.glow, weight),
    }
}

/// How a usage row warns. `burn` is how far ahead of an even spend the reading
/// is, so a window that will run out early goes warm well before it is high.
pub fn state_level(percent: Binary64, burn: Binary64) -> (level: Level)
    ensures
        level == level_of(percent, burn),
{
    if percent.is_at_least(90) || burn.is_at_least(18) {
        Level::Hot
    } else if percent.is_at_least(70) || burn.is_at_least(8) {
        Level::Warm
    } else {
        Level::Calm
    }
}

/// How a usage row is coloured.
pub fn state_led(percent: Binary64, burn: Binary64, base: &Led) -> (l: Led)
    ensures
        l == state_stops(percent, burn, *base),
{
    match state_level(percent, burn) {
        Level::Hot => hot_led(),
        Level::Warm => warm_led(),
        Level::Calm => base.copy(),
    }
}

/// Memory warms continuously rather than in steps, so the colour itself reads
/// as headroom.
pub fn ram_led(percent: Binary64) -> (l: Led)
    ensures
        l == ram_stops(percent),
{
    if !percent.is_nan() && !percent.is_above(60) {
        ring_led()
    } else if !percent.is_nan() && !percent.is_above(85) {
        lerp_led(
            &ring_led(),
            &warm_led(),
            Weight::Ramp { reading: percent, start: 60, span: 25 },
        )
    } else {
        lerp_led(
            &warm_led(),
            &hot_led(),
            Weight::Ramp { reading: percent, start: 85, span: 15 },
        )
    }
}

pub fn pace_marker_color(is_dark: bool) -> (t: Tint)
    ensures
        t == pace_marker(is_dark),
{
    if is_dark {
        tint(0xe0e0e0)
    } else {
        tint(0x303030)
    }
}

/// The unfilled part of the memory column.
pub fn ram_track_color(is_dark: bool) -> (t: Tint)
    ensures
        t == ram_track(is_dark),
{
    if is_dark {
        tint(0x2f3b45)
    } else {
        tint(0xc7d2da)
    }
}

/// Warnings keep their colours whatever the row's own palette is: once a row
/// warns, a custom accent changes nothing.
pub proof fn law_warnings_stay_meaningful(percent: Binary64, burn: Binary64, a: Led, b: Led)
    requires
        level_of(percent, burn) != Level::Calm,
    ensures
        state_stops(percent, burn, a) == state_stops(percent, burn, b),
        state_stops(percent, burn, a) == warm_stops() || state_stops(percent, burn, a)
            == hot_stops(),
{
}

/// A row never warns less for being further along or further ahead of pace.
pub proof fn law_warnings_only_grow(percent: Binary64, higher: Binary64, burn: Binary64)
    requires
        percent.at_most(higher),
    ensures
        level_of(percent, burn) == Level::Hot ==> level_of(higher, burn) == Level::Hot,
        level_of(percent, burn) == Level::Warm ==> level_of(higher, burn) != Level::Calm,
        level_of(burn, percent) == Level::Hot ==> level_of(burn, higher) == Level::Hot,
        level_of(burn, percent) == Level::Warm ==> level_of(burn, higher) != Level::Calm,
{
    lemma_pow2_pos(1074);
}

/// A window is calm below 70% and 8 points ahead, warm up to 90% and 18 points,
/// and hot beyond, whichever comes first.
pub proof fn law_warnings_begin_at_their_thresholds(percent: Binary64, burn: Binary64)
    requires
        percent.finite(),
        !percent.negative(),
        burn.finite(),
        !burn.negative(),
    ensures
        level_of(percent, burn) == Level::Hot <==> percent.units() >= 90 * one() || burn.units()
            >= 18 * one(),
        level_of(percent, burn) == Level::Calm <==> percent.units() < 70 * one()
            && burn.units() < 8 * one(),
{
}

/// A calm row keeps its own colours, a warm one is amber and a hot one red.
pub proof fn law_rows_wear_their_state(percent: Binary64, burn: Binary64, base: Led)
    ensures
        level_of(percent, burn) == Level::Calm ==> state_stops(percent, burn, base) == base,
        level_of(percent, burn) == Level::Warm ==> state_stops(percent, burn, base).mid
            == Tint::Solid(Color { r: 0xfb, g: 0xbf, b: 0x24 }),
        level_of(percent, burn) == Level::Hot ==> state_stops(percent, burn, base).mid
            == Tint::Solid(Color { r: 0xf8, g: 0x71, b: 0x71 }),
{
}

/// Memory is emerald up to 60%, goes over to amber until 85%, and to red from
/// there.
pub proof fn law_memory_warms_with_use(percent: Binary64)
    requires
        percent.finite(),
        !percent.negative(),
    ensures
        ({
            let emerald = Tint::Solid(Color { r: 0x34, g: 0xd3, b: 0x99 });
            let amber = Tint::Solid(Color { r: 0xfb, g: 0xbf, b: 0x24 });
            let red = Tint::Solid(Color { r: 0xf8, g: 0x71, b: 0x71 });
            let mid = ram_stops(percent).mid;
            &&& percent.units() <= 60 * one() ==> mid == emerald
            &&& 60 * one() < percent.units() <= 85 * one() ==> mid == mix(
                emerald,
                amber,
                Weight::Ramp { reading: percent, start: 60, span: 25 },
            )
            &&& percent.units() > 85 * one() ==> mid == mix(
                amber,
                red,
                Weight::Ramp { reading: percent, start: 85, span: 15 },
            )
        }),
{
}

/// A custom accent lights its own gauge: the body and the glow are the accent
/// itself, the edge goes toward the background and the core toward white.
pub proof fn law_custom_gauges_wear_the_accent(accent: Color, bg: Color)
    ensures
        ({
            let l = custom_stops(accent, bg);
            &&& l.mid == Tint::Solid(accent) && l.glow == Tint::Solid(accent)
            &&& l.edge == mix(Tint::Solid(accent), Tint::Solid(bg), Weight::Fixed(400))
            &&& l.core == mix(
                Tint::Solid(accent),
                Tint::Solid(Color { r: 255, g: 255, b: 255 }),
                Weight::Fixed(250),
            )
        }),
{
}

/// Markers and tracks stand out from their theme: light ones on dark, dark ones
/// on light.
pub proof fn law_markers_stand_out()
    ensures
        pace_marker(true) == Tint::Solid(Color { r: 0xe0, g: 0xe0, b: 0xe0 }),
        pace_marker(false) == Tint::Solid(Color { r: 0x30, g: 0x30, b: 0x30 }),
        ram_track(true) == Tint::Solid(Color { r: 0x2f, g: 0x3b, b: 0x45 }),
        ram_track(false) == Tint::Solid(Color { r: 0xc7, g: 0xd2, b: 0xda }),
{
}

} // verus!
