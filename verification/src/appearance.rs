//! Theme modes, palettes and the widget size.
use crate::color::{color, color_of, Color};
use crate::measure::{one, tail_of, Binary64, Tail};
use vstd::arithmetic::power2::lemma_pow2_pos;
use vstd::prelude::*;

verus! {

/// Where the widget's colours come from.
#[derive(Clone, Copy, Debug, PartialEq, Eq, Structural)]
pub enum Mode {
    Light,
    Dark,
    Custom,
    System,
}

/// The user's appearance preferences.
#[derive(Clone, Copy, Debug, PartialEq, Eq)]
pub struct Appearance {
    pub mode: Mode,
    /// RGB: background, text, and one accent per provider.
    pub colors: [u32; 5],
    /// Widget size as a whole percent of the default size, on top of DPI.
    pub widget_size: u32,
}

pub const WIDGET_SIZE_DEFAULT: u32 = 100;

pub const WIDGET_SIZE_MIN: u32 = 75;

pub const WIDGET_SIZE_MAX: u32 = 200;

pub const WIDGET_SIZE_STEP: u32 = 5;

pub const MIDNIGHT: [u32; 5] = [0x151923, 0xe7edf7, 0xf0aa87, 0xa6b9ff, 0x74d8d3];

pub const PORCELAIN: [u32; 5] = [0xf6f3ed, 0x292d36, 0x9e4d32, 0x3859a8, 0x226c65];

pub const EVERGREEN: [u32; 5] = [0x122522, 0xe0eee6, 0xeac098, 0x88d9b4, 0x8fcada];

pub const AFTERGLOW: [u32; 5] = [0x281d2c, 0xf8e5ee, 0xffb98f, 0xd3afff, 0xf19abf];

/// How many ready-made palettes there are.
pub const PRESET_COUNT: usize = 4;

pub open spec fn preset_colors_of(index: int) -> [u32; 5] {
    if index == 0 {
        MIDNIGHT
    } else if index == 1 {
        PORCELAIN
    } else if index == 2 {
        EVERGREEN
    } else {
        AFTERGLOW
    }
}

pub open spec fn preset_name_of(index: int) -> Seq<char> {
    if index == 0 {
        "Midnight"@
    } else if index == 1 {
        "Porcelain"@
    } else if index == 2 {
        "Evergreen"@
    } else {
        "Afterglow"@
    }
}

/// The five colours of a ready-made palette.
pub fn preset_colors(index: usize) -> (colors: [u32; 5])
    requires
        index < PRESET_COUNT,
    ensures
        colors == preset_colors_of(index as int),
{
    match index {
        0 => MIDNIGHT,
        1 => PORCELAIN,
        2 => EVERGREEN,
        _ => AFTERGLOW,
    }
}

/// The name of a ready-made palette.
pub fn preset_name(index: usize) -> (name: &'static str)
    requires
        index < PRESET_COUNT,
    ensures
        name@ == preset_name_of(index as int),
{
    match index {
        0 => "Midnight",
        1 => "Porcelain",
        2 => "Evergreen",
        _ => "Afterglow",
    }
}

/// `size` brought into the supported range.
pub open spec fn in_range(size: int) -> int {
    if size < WIDGET_SIZE_MIN {
        WIDGET_SIZE_MIN as int
    } else if size > WIDGET_SIZE_MAX {
        WIDGET_SIZE_MAX as int
    } else {
        size
    }
}

/// The multiple of 5 nearest to `units / one`, an exact half going up.
pub open spec fn nearest_step(units: nat, one: nat) -> int {
    5 * ((2 * units + 5 * one) as int / (10 * one) as int)
}

/// The widget size that a number asks for: the nearest 5% step, within range.
/// Not-a-number asks for the default.
pub open spec fn snapped(value: Binary64) -> int {
    if value.nan() {
        WIDGET_SIZE_DEFAULT as int
    } else if value.negative() {
        WIDGET_SIZE_MIN as int
    } else if !value.finite() {
        WIDGET_SIZE_MAX as int
    } else {
        in_range(nearest_step(value.units(), one()))
    }
}

/// The widget size that a whole percent asks for.
pub open spec fn snapped_whole(percent: nat) -> int {
    in_range(5 * ((2 * percent + 5) as int / 10))
}

/// Bring any widget size into range: snapped to the nearest 5% step (112
/// becomes 110, 113 becomes 115, and an exact half such as 112.5 rounds up),
/// and clamped to 75..=200. Not-a-number falls back to 100%.
pub fn snap_widget_size(value: Binary64) -> (size: u32)
    ensures
        size == snapped(value),
{
    if value.is_nan() {
        return WIDGET_SIZE_DEFAULT;
    }
    if value.is_negative() {
        return WIDGET_SIZE_MIN;
    }
    if !value.is_finite() {
        return WIDGET_SIZE_MAX;
    }
    let (whole, tail) = value.parts();
    let up: bool = tail == Tail::Half || tail == Tail::AboveHalf;
    proof {
        lemma_nearest_step(value.units(), one(), tail);
    }
    if whole >= 1000 {
        return WIDGET_SIZE_MAX;
    }
    let doubled: u64 = 2 * whole + if up { 1 } else { 0 };
    let size: u64 = (doubled + 5) / 10 * 5;
    if size < WIDGET_SIZE_MIN as u64 {
        WIDGET_SIZE_MIN
    } else if size > WIDGET_SIZE_MAX as u64 {
        WIDGET_SIZE_MAX
    } else {
        size as u32
    }
}

/// The nearest step depends only on the whole part and on whether the rest
/// reaches one half.
proof fn lemma_nearest_step(units: nat, d: nat, tail: Tail)
    requires
        d == one(),
        tail == tail_of(units),
    ensures
        d > 0,
        ({
            let doubled = 2 * (units / d) + if tail == Tail::Half || tail == Tail::AboveHalf {
                1int
            } else {
                0int
            };
            nearest_step(units, d) == 5 * ((doubled + 5) / 10)
        }),
        units / d >= 1000 ==> nearest_step(units, d) > 200,
{
    lemma_pow2_pos(1074);
    let q = (units / d) as int;
    let r = (units % d) as int;
    let di = d as int;
    let u: int = if tail == Tail::Half || tail == Tail::AboveHalf {
        1
    } else {
        0
    };
    let doubled = 2 * q + u;
    vstd::arithmetic::div_mod::lemma_fundamental_div_mod(units as int, di);
    let x = (2 * units + 5 * d) as int;
    let rest = 2 * r - u * di;
    assert(x == (doubled + 5) * di + rest && 0 <= rest < di) by (nonlinear_arith)
        requires
            x == 2 * units + 5 * di,
            units == di * q + r,
            doubled == 2 * q + u,
            rest == 2 * r - u * di,
            0 <= r < di,
            u == 0 || u == 1,
            u == 1 ==> 2 * r >= di,
            u == 0 ==> 2 * r < di,
    ;
    assert(x / di == doubled + 5) by {
        vstd::arithmetic::div_mod::lemma_fundamental_div_mod_converse(
            x,
            di,
            doubled + 5,
            rest,
        );
    }
    vstd::arithmetic::div_mod::lemma_div_denominator(x, di, 10);
    assert(di * 10 == 10 * di);
}

/// The appearance of a fresh install, and what a reset restores.
pub open spec fn default_appearance() -> Appearance {
    Appearance { mode: Mode::System, colors: MIDNIGHT, widget_size: WIDGET_SIZE_DEFAULT }
}

impl Default for Appearance {
    fn default() -> (a: Self)
        ensures
            a == default_appearance(),
    {
        Appearance { mode: Mode::System, colors: MIDNIGHT, widget_size: WIDGET_SIZE_DEFAULT }
    }
}

/// The weighted brightness of a colour, in thousandths of a level.
pub open spec fn brightness(c: Color) -> int {
    299 * c.r + 587 * c.g + 114 * c.b
}

pub open spec fn palette_colors(colors: Seq<u32>) -> Seq<Color> {
    Seq::new(colors.len(), |i: int| color_of(colors[i]))
}

/// The built-in palette of a dark or light theme.
pub open spec fn theme_colors(dark: bool) -> Seq<u32> {
    if dark {
        seq![0x1c1c1cu32, 0xe8ecef, 0xeaa082, 0xf5f5f5, 0x8ab4f8]
    } else {
        seq![0xf3f3f3u32, 0x252b32, 0x9a452a, 0x1f1f1f, 0x1967d2]
    }
}

fn colors_of(values: [u32; 5]) -> (colors: [Color; 5])
    ensures
        colors@ == palette_colors(values@),
{
    let colors = [
        color(values[0]),
        color(values[1]),
        color(values[2]),
        color(values[3]),
        color(values[4]),
    ];
    assert(colors@ =~= palette_colors(values@));
    colors
}

impl Appearance {
    /// Whether the widget is drawn dark when the system theme is `system_dark`.
    pub open spec fn dark(self, system_dark: bool) -> bool {
        match self.mode {
            Mode::System => system_dark,
            Mode::Light => false,
            Mode::Dark => true,
            Mode::Custom => brightness(color_of(self.colors@[0])) < 128000,
        }
    }

    /// Background, text and the provider accents, as drawn.
    pub open spec fn shades(self, dark: bool) -> Seq<Color> {
        if self.mode == Mode::Custom {
            palette_colors(self.colors@)
        } else {
            palette_colors(theme_colors(dark))
        }
    }

    pub fn is_dark(&self, system_dark: bool) -> (dark: bool)
        ensures
            dark == self.dark(system_dark),
    {
        match self.mode {
            Mode::System => system_dark,
            Mode::Light => false,
            Mode::Dark => true,
            Mode::Custom => {
                let c = color(self.colors[0]);
                299 * c.r as u32 + 587 * c.g as u32 + 114 * (c.b as u32) < 128000
            },
        }
    }

    /// The stored widget size, re-snapped in case it was set out of range.
    pub fn clamped_widget_size(&self) -> (size: u32)
        ensures
            size == snapped_whole(self.widget_size as nat),
    {
        if self.widget_size >= WIDGET_SIZE_MAX {
            return WIDGET_SIZE_MAX;
        }
        let size: u32 = (self.widget_size + 2) / WIDGET_SIZE_STEP * WIDGET_SIZE_STEP;
        if size < WIDGET_SIZE_MIN {
            WIDGET_SIZE_MIN
        } else {
            size
        }
    }

    pub fn palette(&self, dark: bool) -> (colors: [Color; 5])
        ensures
            colors@ == self.shades(dark),
    {
        if self.mode == Mode::Custom {
            return colors_of(self.colors);
        }
        if dark {
            let values: [u32; 5] = [0x1c1c1c, 0xe8ecef, 0xeaa082, 0xf5f5f5, 0x8ab4f8];
            assert(values@ =~= theme_colors(true));
            colors_of(values)
        } else {
            let values: [u32; 5] = [0xf3f3f3, 0x252b32, 0x9a452a, 0x1f1f1f, 0x1967d2];
            assert(values@ =~= theme_colors(false));
            colors_of(values)
        }
    }
}

/// Only the System mode looks at the system theme.
pub proof fn law_explicit_themes_ignore_the_system(a: Appearance, now: bool, later: bool)
    requires
        a.mode != Mode::System,
    ensures
        a.dark(now) == a.dark(later),
{
}

/// In Custom mode the palette is the user's five colours, whatever the theme.
pub proof fn law_custom_palette_is_the_users(a: Appearance, dark: bool, i: int)
    requires
        a.mode == Mode::Custom,
        0 <= i < 5,
    ensures
        a.shades(dark)[i] == color_of(a.colors@[i]),
        a.shades(dark) == a.shades(!dark),
{
}

/// Every snapped size is a multiple of 5 between 75 and 200.
pub proof fn law_snapped_sizes_are_steps_in_range(value: Binary64)
    ensures
        75 <= snapped(value) <= 200,
        snapped(value) % 5 == 0,
{
}

/// A number that holds a whole percent snaps as the whole percent does, so a
/// size that is already a step in range is kept.
pub proof fn law_snapping_whole_percents(value: Binary64, percent: nat)
    requires
        value.finite(),
        !value.negative(),
        value.units() == percent * one(),
    ensures
        snapped(value) == snapped_whole(percent),
        75 <= percent <= 200 && percent % 5 == 0 ==> snapped(value) == percent,
{
    lemma_pow2_pos(1074);
    let d = one() as int;
    let x = 2 * percent + 5;
    assert(2 * value.units() + 5 * one() == x * d) by (nonlinear_arith)
        requires
            value.units() == percent * d,
            x == 2 * percent + 5,
            d == one(),
    ;
    vstd::arithmetic::div_mod::lemma_div_denominator(x * d, d, 10);
    vstd::arithmetic::div_mod::lemma_div_multiples_vanish(x as int, d);
    assert(d * x == x * d) by (nonlinear_arith);
    assert(d * 10 == 10 * d);
}

/// Snapping a snapped size changes nothing.
pub proof fn law_snapping_is_idempotent(value: Binary64)
    ensures
        snapped_whole(snapped(value) as nat) == snapped(value),
{
}

/// System follows the system theme, Light is never dark and Dark always is. A
/// custom palette is dark where its background is: green counts most and blue
/// least.
pub proof fn law_modes_decide_the_theme(a: Appearance, system_dark: bool, r: u8, g: u8, b: u8)
    ensures
        a.mode == Mode::System ==> a.dark(system_dark) == system_dark,
        a.mode == Mode::Light ==> !a.dark(system_dark),
        a.mode == Mode::Dark ==> a.dark(system_dark),
        a.mode == Mode::Custom && a.colors@[0] == r * 0x10000 + g * 0x100 + b ==> (a.dark(
            system_dark,
        ) <==> 299 * r + 587 * g + 114 * b < 128_000),
{
    crate::color::law_channels_have_their_places(r, g, b);
    assert(0 <= r * 0x10000 + g * 0x100 + b <= 0xffffff);
    let value = (r * 0x10000 + g * 0x100 + b) as u32;
    if a.mode == Mode::Custom && a.colors@[0] == r * 0x10000 + g * 0x100 + b {
        assert(a.colors@[0] == value);
    }
}

/// A custom background in a shade of grey is dark below the middle of the
/// scale.
pub proof fn law_greys_are_dark_below_the_middle(a: Appearance, system_dark: bool, level: u8)
    requires
        a.mode == Mode::Custom,
        a.colors@[0] == level * 0x010101,
    ensures
        a.dark(system_dark) <==> level < 128,
{
    law_modes_decide_the_theme(a, system_dark, level, level, level);
}

/// Outside Custom mode the user's colours do not show: backgrounds are near
/// black or near white, with light text on dark and dark text on light.
pub proof fn law_built_in_palettes_contrast(a: Appearance, b: Appearance)
    requires
        a.mode != Mode::Custom,
        b.mode != Mode::Custom,
    ensures
        a.shades(true) == b.shades(true),
        a.shades(false) == b.shades(false),
        a.shades(true).len() == 5,
        a.shades(false).len() == 5,
        a.shades(true)[0] == (Color { r: 0x1c, g: 0x1c, b: 0x1c }),
        a.shades(true)[1] == (Color { r: 0xe8, g: 0xec, b: 0xef }),
        a.shades(true)[2] == (Color { r: 0xea, g: 0xa0, b: 0x82 }),
        a.shades(true)[3] == (Color { r: 0xf5, g: 0xf5, b: 0xf5 }),
        a.shades(true)[4] == (Color { r: 0x8a, g: 0xb4, b: 0xf8 }),
        a.shades(false)[0] == (Color { r: 0xf3, g: 0xf3, b: 0xf3 }),
        a.shades(false)[1] == (Color { r: 0x25, g: 0x2b, b: 0x32 }),
        a.shades(false)[2] == (Color { r: 0x9a, g: 0x45, b: 0x2a }),
        a.shades(false)[3] == (Color { r: 0x1f, g: 0x1f, b: 0x1f }),
        a.shades(false)[4] == (Color { r: 0x19, g: 0x67, b: 0xd2 }),
{
}

/// A size in range goes to the nearest step: no further than half a step, and
/// up where two steps are equally near. Below the range it becomes the
/// smallest, above it the largest, and what is not a number the default.
pub proof fn law_sizes_go_to_the_nearest_step(value: Binary64)
    ensures
        value.nan() ==> snapped(value) == 100,
        !value.nan() && value.negative() ==> snapped(value) == 75,
        !value.nan() && !value.negative() && !value.finite() ==> snapped(value) == 200,
        value.finite() && !value.negative() ==> {
            let size = snapped(value) as int;
            let asked = value.units() as int;
            let whole = one() as int;
            &&& asked < 75 * whole ==> size == 75
            &&& asked > 200 * whole ==> size == 200
            &&& 75 * whole <= asked <= 200 * whole ==> -5 * whole < 2 * (size * whole - asked)
                <= 5 * whole
        },
{
    if value.finite() && !value.negative() {
        lemma_pow2_pos(1074);
        let d = one() as int;
        let u = value.units() as int;
        let x = 2 * u + 5 * d;
        let q = x / (10 * d);
        vstd::arithmetic::div_mod::lemma_fundamental_div_mod(x, 10 * d);
        let r = x % (10 * d);
        assert(0 <= r < 10 * d);
        assert(q * (10 * d) == 10 * (q * d)) by (nonlinear_arith);
        assert((10 * d) * q == q * (10 * d)) by (nonlinear_arith);
        let p = q * d;
        assert(2 * u + 5 * d == 10 * p + r);
        assert((5 * q) * d == 5 * p) by (nonlinear_arith)
            requires
                p == q * d,
        ;
        assert(q <= 14 ==> p <= 14 * d) by (nonlinear_arith)
            requires
                p == q * d,
                d > 0,
        ;
        assert(q >= 16 ==> p >= 16 * d) by (nonlinear_arith)
            requires
                p == q * d,
                d > 0,
        ;
        assert(q <= 39 ==> p <= 39 * d) by (nonlinear_arith)
            requires
                p == q * d,
                d > 0,
        ;
        assert(q >= 41 ==> p >= 41 * d) by (nonlinear_arith)
            requires
                p == q * d,
                d > 0,
        ;
        assert(snapped(value) == in_range(5 * q));
    }
}

/// A whole percent in range moves by at most two to reach its step.
pub proof fn law_whole_percents_move_little(percent: nat)
    ensures
        75 <= percent <= 200 ==> -2 <= snapped_whole(percent) - percent <= 2,
        percent < 75 ==> snapped_whole(percent) == 75,
        percent > 200 ==> snapped_whole(percent) == 200,
        snapped_whole(percent) % 5 == 0,
{
}

/// Each ready-made palette has its own name and colours, and a fresh install
/// follows the system at full size with the first of them at hand.
pub proof fn law_palettes_have_their_names_and_colours(index: int)
    requires
        0 <= index < 4,
    ensures
        preset_name_of(index) == if index == 0 {
            "Midnight"@
        } else if index == 1 {
            "Porcelain"@
        } else if index == 2 {
            "Evergreen"@
        } else {
            "Afterglow"@
        },
        preset_colors_of(index)@ == if index == 0 {
            seq![0x151923u32, 0xe7edf7, 0xf0aa87, 0xa6b9ff, 0x74d8d3]
        } else if index == 1 {
            seq![0xf6f3edu32, 0x292d36, 0x9e4d32, 0x3859a8, 0x226c65]
        } else if index == 2 {
            seq![0x122522u32, 0xe0eee6, 0xeac098, 0x88d9b4, 0x8fcada]
        } else {
            seq![0x281d2cu32, 0xf8e5ee, 0xffb98f, 0xd3afff, 0xf19abf]
        },
        default_appearance().mode == Mode::System,
        default_appearance().colors == preset_colors_of(0),
        default_appearance().widget_size == 100,
{
}

} // verus!
