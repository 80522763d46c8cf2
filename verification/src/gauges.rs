//! The memory column and the usage rows.
use crate::calendar::WeekBlocks;
use crate::color::Color;
use crate::draw::{
    area, boxed, font_of, lemma_says_itself, lemma_says_nothing, lemma_written_add, lettered,
    make_font, mix, mixed, near, rounded, written, Align, Canvas, DrawOp, Font, Op, Signal, Tint,
    Weight, FW_BOLD, FW_MEDIUM, FW_SEMIBOLD,
};
use crate::geometry::{
    fits, larger, law_scaling_is_monotone, lemma_lengths_fit, max_i32, sc, scaled, Rect, MAX_DPI,
};
use crate::led::{
    hot_led, hot_stops, level_of, pace_marker, pace_marker_color, ram_led, ram_stops, ram_track,
    ram_track_color, solid, state_led, state_stops, tint, Led, Level,
};
use crate::measure::{one, Binary64};
use crate::readout::{figure, figure_text, has_reading, label_text, reads, reset_label};
use crate::strings::Strings;
use vstd::prelude::*;

verus! {

/// The memory column stands between the drag handle and the cards.
pub const RAM_X: i32 = 13;

pub const RAM_Y: i32 = 9;

pub const RAM_W: i32 = 5;

pub const RAM_H: i32 = 28;

pub const ROW_H: i32 = 12;

pub const FIGURE_W: i32 = 38;

pub const TIME_DX: i32 = 40;

pub const RULE_DY: i32 = 13;

pub const RULE_W: i32 = 122;

pub const DAY_DY: i32 = 17;

pub const DAY_BAND_H: i32 = 10;

/// One pixel at the design size, and never less than one.
pub open spec fn thin_of(dpi: u32) -> int {
    larger(scaled(1, dpi), 1)
}

pub fn thin_line(dpi: u32) -> (thin: i32)
    ensures
        thin == thin_of(dpi),
{
    max_i32(sc(1, dpi), 1)
}

pub open spec fn live(base: u32, gain: u32, signal: Signal) -> Weight {
    Weight::Live { base, gain, signal }
}

pub open spec fn day_font(dpi: u32) -> Font {
    font_of(-9, FW_SEMIBOLD, dpi)
}

pub open spec fn day_font_bold(dpi: u32) -> Font {
    font_of(-9, FW_BOLD, dpi)
}

/// The memory reading as drawn: the percentage within 0 to 100, and the rows
/// of the column that it and the range it moved through come to.
#[derive(Clone, Copy, Debug, PartialEq, Eq, Structural)]
pub struct RamReading {
    pub percent: Binary64,
    pub fill: i32,
    pub low: i32,
    pub high: i32,
}

/// Where the memory column ends.
pub open spec fn column_base(dpi: u32) -> int {
    scaled(RAM_Y as int, dpi) + scaled(RAM_H as int, dpi)
}

impl RamReading {
    /// A tick at a row of the column has coordinates within 32 bits.
    pub open spec fn tick_fits(row: int, dpi: u32) -> bool {
        fits(column_base(dpi) - row) && fits(column_base(dpi) - row + thin_of(dpi))
    }

    /// The column, drawn at `x`, has coordinates within 32 bits.
    pub open spec fn drawable(self, x: int, dpi: u32) -> bool {
        &&& fits(x - scaled(2, dpi))
        &&& x + column_width(dpi) + scaled(2, dpi) < i32::MAX
        &&& self.fill > 0 ==> fits(column_base(dpi) - self.fill - scaled(2, dpi))
        &&& RamReading::tick_fits(self.low as int, dpi)
        &&& RamReading::tick_fits(self.high as int, dpi)
    }
}

/// Breathing dimmer than this draws no halo.
pub open spec fn halo_floor() -> Binary64 {
    // 0.02
    Binary64 { bits: 0x3f94_7ae1_47ae_147b }
}

pub open spec fn column_width(dpi: u32) -> int {
    larger(scaled(RAM_W as int, dpi), 3)
}

/// One ring of the halo around the fill.
pub open spec fn halo_ring(x: int, ram: RamReading, bg: Tint, ring: int, gain: u32, dpi: u32) -> Seq<
    Op,
> {
    let w = column_width(dpi);
    let base = scaled(RAM_Y as int, dpi) + scaled(RAM_H as int, dpi);
    let grow = scaled(ring, dpi);
    rounded(
        area(x - grow, base - ram.fill - grow, x + w + grow, base + grow),
        mix(bg, ram_stops(ram.percent).glow, live(0, gain, Signal::Breath)),
        w / 2 + grow,
    )
}

/// How far column `c` of `w` is from the middle.
pub open spec fn off_centre(c: int, w: int) -> Weight {
    let d = 2 * c - (w - 1);
    Weight::Part {
        of: (if d < 0 {
            -d
        } else {
            d
        }) as u32,
        whole: larger(w - 1, 2) as u32,
    }
}

pub open spec fn centre_tint(percent: Binary64) -> Tint {
    let led = ram_stops(percent);
    mix(led.mid, led.core, live(100, 300, Signal::Breath))
}

pub open spec fn flank_tint(percent: Binary64) -> Tint {
    mix(centre_tint(percent), ram_stops(percent).edge, Weight::Fixed(500))
}

/// The first `n` pixel columns of the fill: brightest in the middle.
pub open spec fn fill_columns(x: int, ram: RamReading, n: int, dpi: u32) -> Seq<Op>
    decreases n,
{
    if n <= 0 {
        Seq::empty()
    } else {
        fill_columns(x, ram, n - 1, dpi) + boxed(
            x + n - 1,
            scaled(RAM_Y as int, dpi) + scaled(RAM_H as int, dpi) - ram.fill,
            1,
            ram.fill as int,
            mix(
                centre_tint(ram.percent),
                flank_tint(ram.percent),
                off_centre(n - 1, column_width(dpi)),
            ),
        )
    }
}

/// The fill, clipped to the column's round ends, with a bright cap on its head.
pub open spec fn ram_fill(x: int, ram: RamReading, dpi: u32) -> Seq<Op> {
    let led = ram_stops(ram.percent);
    let w = column_width(dpi);
    let base = scaled(RAM_Y as int, dpi) + scaled(RAM_H as int, dpi);
    if ram.fill <= 0 {
        Seq::empty()
    } else {
        seq![
            DrawOp::ClipRounded {
                rect: area(x, base - ram.fill, x + w + 1, base + 1),
                diameter: (w / 2 * 2) as i32,
            },
        ] + fill_columns(x, ram, w, dpi) + seq![DrawOp::Unclip] + boxed(
            x,
            base - ram.fill,
            w,
            thin_of(dpi),
            mix(led.core, led.glow, live(200, 400, Signal::Breath)),
        )
    }
}

/// A tick beside the column, at a row of it.
pub open spec fn ram_tick(x: int, ram: RamReading, row: int, bg: Tint, dpi: u32) -> Seq<Op> {
    boxed(
        x - scaled(2, dpi),
        scaled(RAM_Y as int, dpi) + scaled(RAM_H as int, dpi) - row,
        thin_of(dpi),
        thin_of(dpi),
        mix(bg, ram_stops(ram.percent).mid, Weight::Fixed(450)),
    )
}

/// The memory column: a breathing halo, the track, the fill, and a tick at
/// each end of the range the reading moved through.
pub open spec fn ram_column(
    x: int,
    ram: RamReading,
    dark: bool,
    bg: Tint,
    breath: Binary64,
    dpi: u32,
) -> Seq<Op> {
    let w = column_width(dpi);
    let y = scaled(RAM_Y as int, dpi);
    let h = scaled(RAM_H as int, dpi);
    (if breath.exceeds(halo_floor()) && ram.fill > 0 {
        halo_ring(x, ram, bg, 2, 90, dpi) + halo_ring(x, ram, bg, 1, 180, dpi)
    } else {
        Seq::empty()
    }) + rounded(area(x, y, x + w, y + h), ram_track(dark), w / 2) + ram_fill(x, ram, dpi)
        + ram_tick(x, ram, ram.low as int, bg, dpi) + ram_tick(x, ram, ram.high as int, bg, dpi)
}

impl Canvas {
    fn halo(&mut self, x: i32, ram: RamReading, bg: &Tint, ring: i32, gain: u32, dpi: u32)
        requires
            ram.drawable(x as int, dpi),
            ram.fill > 0,
            dpi <= MAX_DPI,
            1 <= ring <= 2,
        ensures
            final(self)@ == old(self)@ + halo_ring(x as int, ram, *bg, ring as int, gain, dpi),
    {
        proof {
            lemma_lengths_fit(ring as int, dpi);
        }
        let w: i32 = max_i32(sc(RAM_W, dpi), 3);
        let base: i32 = sc(RAM_Y, dpi) + sc(RAM_H, dpi);
        let grow: i32 = sc(ring, dpi);
        let glow = mixed(
            bg,
            &ram_led(ram.percent).glow,
            Weight::Live { base: 0, gain, signal: Signal::Breath },
        );
        self.draw_rounded_rect(
            Rect {
                left: x - grow,
                top: base - ram.fill - grow,
                right: x + w + grow,
                bottom: base + grow,
            },
            glow,
            w / 2 + grow,
        );
    }

    fn columns(&mut self, x: i32, ram: RamReading, dpi: u32)
        requires
            ram.drawable(x as int, dpi),
            ram.fill > 0,
            dpi <= MAX_DPI,
        ensures
            final(self)@ == old(self)@ + fill_columns(x as int, ram, column_width(dpi), dpi),
    {
        let led = ram_led(ram.percent);
        let w: i32 = max_i32(sc(RAM_W, dpi), 3);
        let top: i32 = sc(RAM_Y, dpi) + sc(RAM_H, dpi) - ram.fill;
        let centre = mixed(
            &led.mid,
            &led.core,
            Weight::Live { base: 100, gain: 300, signal: Signal::Breath },
        );
        let flank = mixed(&centre, &led.edge, Weight::Fixed(500));
        let mut c: i32 = 0;
        assert(self@ =~= old(self)@ + fill_columns(x as int, ram, 0, dpi));
        while c < w
            invariant
                0 <= c <= w,
                w == column_width(dpi),
                dpi <= MAX_DPI,
                ram.drawable(x as int, dpi),
                ram.fill > 0,
                centre == centre_tint(ram.percent),
                flank == flank_tint(ram.percent),
                top == scaled(RAM_Y as int, dpi) + scaled(RAM_H as int, dpi) - ram.fill,
                self@ == old(self)@ + fill_columns(x as int, ram, c as int, dpi),
            decreases w - c,
        {
            let d: i32 = 2 * c - (w - 1);
            let of: u32 = if d < 0 {
                (0 - d) as u32
            } else {
                d as u32
            };
            let weight = Weight::Part { of, whole: max_i32(w - 1, 2) as u32 };
            assert(weight == off_centre(c as int, w as int));
            proof {
                lemma_lengths_fit(RAM_Y as int, dpi);
                lemma_lengths_fit(RAM_H as int, dpi);
                lemma_lengths_fit(RAM_W as int, dpi);
            }
            self.fill_box(x + c, top, 1, ram.fill, mixed(&centre, &flank, weight));
            c = c + 1;
            assert(self@ =~= old(self)@ + fill_columns(x as int, ram, c as int, dpi));
        }
    }

    fn ram_fill(&mut self, x: i32, ram: RamReading, dpi: u32)
        requires
            ram.drawable(x as int, dpi),
            dpi <= MAX_DPI,
        ensures
            final(self)@ == old(self)@ + ram_fill(x as int, ram, dpi),
    {
        if ram.fill <= 0 {
            assert(self@ =~= old(self)@ + ram_fill(x as int, ram, dpi));
            return;
        }
        let led = ram_led(ram.percent);
        let w: i32 = max_i32(sc(RAM_W, dpi), 3);
        let base: i32 = sc(RAM_Y, dpi) + sc(RAM_H, dpi);
        let clip = DrawOp::ClipRounded {
            rect: Rect { left: x, top: base - ram.fill, right: x + w + 1, bottom: base + 1 },
            diameter: w / 2 * 2,
        };
        self.push(clip);
        self.columns(x, ram, dpi);
        self.push(DrawOp::Unclip);
        let cap = mixed(
            &led.core,
            &led.glow,
            Weight::Live { base: 200, gain: 400, signal: Signal::Breath },
        );
        self.fill_box(x, base - ram.fill, w, thin_line(dpi), cap);
        assert(self@ =~= old(self)@ + ram_fill(x as int, ram, dpi));
    }

    fn ram_tick(&mut self, x: i32, ram: RamReading, row: i32, bg: &Tint, dpi: u32)
        requires
            ram.drawable(x as int, dpi),
            RamReading::tick_fits(row as int, dpi),
            dpi <= MAX_DPI,
        ensures
            final(self)@ == old(self)@ + ram_tick(x as int, ram, row as int, *bg, dpi),
    {
        let thin: i32 = thin_line(dpi);
        let tick = mixed(bg, &ram_led(ram.percent).mid, Weight::Fixed(450));
        let base: i32 = sc(RAM_Y, dpi) + sc(RAM_H, dpi);
        self.fill_box(x - sc(2, dpi), base - row, thin, thin, tick);
    }

    /// The memory column. The fill ramps across the column's width, not down
    /// its height, which keeps every row of it lit; a cap rides its head so the
    /// level is findable at a glance.
    pub fn draw_ram_column(
        &mut self,
        x: i32,
        ram: RamReading,
        is_dark: bool,
        bg: &Tint,
        breath: Binary64,
        dpi: u32,
    )
        requires
            ram.drawable(x as int, dpi),
            dpi <= MAX_DPI,
        ensures
            final(self)@ == old(self)@ + ram_column(x as int, ram, is_dark, *bg, breath, dpi),
    {
        let floor = Binary64 { bits: 0x3f94_7ae1_47ae_147b };
        proof {
            assert(floor.finite() && !floor.negative());
        }
        let ghost start = self@;
        let ghost halo: Seq<Op> = if breath.exceeds(halo_floor()) && ram.fill > 0 {
            halo_ring(x as int, ram, *bg, 2, 90, dpi) + halo_ring(x as int, ram, *bg, 1, 180, dpi)
        } else {
            Seq::empty()
        };
        if breath.is_over(floor) && ram.fill > 0 {
            self.halo(x, ram, bg, 2, 90, dpi);
            self.halo(x, ram, bg, 1, 180, dpi);
        }
        assert(self@ =~= start + halo);
        let w: i32 = max_i32(sc(RAM_W, dpi), 3);
        let y: i32 = sc(RAM_Y, dpi);
        let h: i32 = sc(RAM_H, dpi);
        self.draw_rounded_rect(
            Rect { left: x, top: y, right: x + w, bottom: y + h },
            ram_track_color(is_dark),
            w / 2,
        );
        self.ram_fill(x, ram, dpi);
        self.ram_tick(x, ram, ram.low, bg, dpi);
        self.ram_tick(x, ram, ram.high, bg, dpi);
        assert(self@ =~= start + ram_column(x as int, ram, is_dark, *bg, breath, dpi));
    }
}

/// A figure as drawn: the percentage within 0 to 100 that is shown, and the
/// pixels of the rule that it fills.
#[derive(Clone, Copy, Debug, PartialEq, Eq, Structural)]
pub struct Shown {
    pub percent: Binary64,
    pub fill: i32,
}

/// Where an even spend would stand: how far the reading is ahead of it, in
/// points, and its pixel on the rule.
#[derive(Clone, Copy, Debug, PartialEq, Eq, Structural)]
pub struct Pace {
    pub burn: Binary64,
    pub at: i32,
}

/// Everything one usage row needs.
#[verifier::ext_equal]
#[derive(Debug)]
pub struct RowDraw<T> {
    /// Draw the figure in plain ink.
    pub custom_ink: bool,
    pub x: i32,
    pub y: i32,
    pub shown: Shown,
    pub pace: Option<Pace>,
    pub time_text: T,
    pub base: Led,
    pub week: Option<WeekBlocks>,
    pub is_dark: bool,
    pub bg: Tint,
    pub track: Tint,
    pub ink: Tint,
}

impl View for RowDraw<String> {
    type V = RowDraw<Seq<char>>;

    open spec fn view(&self) -> RowDraw<Seq<char>> {
        RowDraw {
            custom_ink: self.custom_ink,
            x: self.x,
            y: self.y,
            shown: self.shown,
            pace: self.pace,
            time_text: self.time_text@,
            base: self.base,
            week: self.week,
            is_dark: self.is_dark,
            bg: self.bg,
            track: self.track,
            ink: self.ink,
        }
    }
}

impl<T> RowDraw<T> {
    /// How far ahead of an even spend the reading is; zero without a pace.
    pub open spec fn burn(self) -> Binary64 {
        match self.pace {
            Some(p) => p.burn,
            None => Binary64 { bits: 0 },
        }
    }

    pub open spec fn led(self) -> Led {
        state_stops(self.shown.percent, self.burn(), self.base)
    }

    pub open spec fn loud(self) -> bool {
        self.shown.percent.at_least(70) || self.burn().at_least(8)
    }
}

pub type RowModel = RowDraw<Seq<char>>;

/// The row has coordinates within 32 bits: its texts and rule and, where there
/// is a reading, its gauge.
pub open spec fn row_fits(o: RowModel, dpi: u32) -> bool {
    let thin = thin_of(dpi);
    let rule = o.y + scaled(RULE_DY as int, dpi);
    &&& fits(o.x + scaled(RULE_W as int, dpi))
    &&& fits(o.y + scaled(ROW_H as int, dpi))
    &&& fits(rule + thin)
    &&& reads(o.time_text) ==> {
        &&& fits(rule - thin)
        &&& fits(rule + 2 * thin)
        &&& fits(o.shown.fill - thin)
        &&& fits(o.x + larger(o.shown.fill - thin, 0) + 2 * thin)
        &&& o.pace is Some ==> {
            let at = o.pace->0.at;
            &&& fits(o.x + at)
            &&& fits(o.x + at + thin)
            &&& o.shown.fill > at ==> fits(o.shown.fill - at)
        }
        &&& o.week is Some ==> fits(
            o.y + scaled(DAY_DY as int, dpi) + scaled(DAY_BAND_H as int, dpi),
        )
    }
}

/// A row at a modest place, with modest lengths, fits.
pub proof fn lemma_modest_row(o: RowModel, dpi: u32)
    requires
        dpi <= MAX_DPI,
        near(o.x as int),
        near(o.y as int),
        near(o.shown.fill as int),
        o.pace is Some ==> near(o.pace->0.at as int),
    ensures
        row_fits(o, dpi),
{
    lemma_lengths_fit(1, dpi);
    lemma_lengths_fit(RULE_DY as int, dpi);
    lemma_lengths_fit(RULE_W as int, dpi);
    lemma_lengths_fit(ROW_H as int, dpi);
    lemma_lengths_fit(DAY_DY as int, dpi);
    lemma_lengths_fit(DAY_BAND_H as int, dpi);
}

/// The figure's colour: flashed toward the state's own for a beat after a
/// reading lands, except in plain ink.
pub open spec fn figure_tint(o: RowModel) -> Tint {
    if o.custom_ink {
        o.ink
    } else if o.is_dark {
        mix(o.ink, o.led().core, live(300, 600, Signal::Flash))
    } else {
        mix(o.ink, o.led().edge, live(450, 400, Signal::Flash))
    }
}

/// The countdown's colour: brightened for a beat when a digit rolls over.
pub open spec fn countdown_tint(o: RowModel) -> Tint {
    mix(
        o.ink,
        if o.is_dark {
            solid(0xffffff)
        } else {
            solid(0x000000)
        },
        live(0, 550, Signal::TextTick),
    )
}

/// The figure, the countdown and the empty rule: what every row has.
pub open spec fn row_texts(o: RowModel, dpi: u32) -> Seq<Op> {
    lettered(
        area(o.x as int, o.y as int, o.x + scaled(FIGURE_W as int, dpi), o.y + scaled(ROW_H as int, dpi)),
        figure_text(o.shown.percent, o.time_text),
        figure_tint(o),
        font_of(-12, FW_SEMIBOLD, dpi),
        Align::Left,
    ) + lettered(
        area(
            o.x + scaled(TIME_DX as int, dpi),
            o.y as int,
            o.x + scaled(RULE_W as int, dpi),
            o.y + scaled(ROW_H as int, dpi),
        ),
        label_text(o.time_text),
        countdown_tint(o),
        font_of(-10, FW_MEDIUM, dpi),
        Align::Left,
    ) + boxed(
        o.x as int,
        o.y + scaled(RULE_DY as int, dpi),
        scaled(RULE_W as int, dpi),
        thin_of(dpi),
        o.track,
    )
}

/// Being ahead of an even spend by more than this draws the overdraft.
pub open spec fn overdraft_floor() -> Binary64 {
    // 0.5
    Binary64 { bits: 0x3fe0_0000_0000_0000 }
}

/// The overdraft, from where an even spend would stand to where the reading
/// does, and the pace marker.
pub open spec fn pace_marks(o: RowModel, dpi: u32) -> Seq<Op> {
    let ry = o.y + scaled(RULE_DY as int, dpi);
    let thin = thin_of(dpi);
    match o.pace {
        None => Seq::empty(),
        Some(p) => (if p.burn.exceeds(overdraft_floor()) && o.shown.fill > p.at {
            boxed(
                o.x + p.at,
                ry - thin,
                o.shown.fill - p.at,
                thin * 3,
                mix(hot_stops().mid, hot_stops().core, live(150, 450, Signal::Breath)),
            )
        } else {
            Seq::empty()
        }) + boxed(
            o.x + p.at,
            ry - thin,
            thin,
            thin * 3,
            mix(pace_marker(o.is_dark), o.bg, Weight::Fixed(350)),
        ),
    }
}

/// The ember on the head of the fill: loud once there is something to act on.
pub open spec fn ember(o: RowModel, dpi: u32) -> Seq<Op> {
    let thin = thin_of(dpi);
    boxed(
        o.x + larger(o.shown.fill - thin, 0),
        o.y + scaled(RULE_DY as int, dpi) - thin,
        thin * 2,
        if o.loud() {
            thin * 3
        } else {
            thin * 2
        },
        mix(
            o.bg,
            o.led().glow,
            if o.loud() {
                live(450, 550, Signal::Breath)
            } else {
                live(180, 300, Signal::Breath)
            },
        ),
    )
}

/// Where block `d` of seven starts on a rule of the given width: the nearest
/// pixel.
pub open spec fn block_edge(width: int, d: int) -> int {
    (2 * width * d + 7) / 14
}

/// The initial of one day of the week, today bold and lit.
pub open spec fn day_initial(o: RowModel, week: WeekBlocks, strings: Strings, d: int, dpi: u32) -> Seq<
    Op,
> {
    let rule_w = scaled(RULE_W as int, dpi);
    let top = o.y + scaled(DAY_DY as int, dpi);
    let today = week.today == Some(d as usize);
    lettered(
        area(
            o.x + block_edge(rule_w, d),
            top,
            o.x + block_edge(rule_w, d + 1),
            top + scaled(DAY_BAND_H as int, dpi),
        ),
        strings.weekday_initials@[week.days@[d] as int % 7]@,
        if today {
            mix(o.bg, o.led().glow, live(600, 400, Signal::Breath))
        } else {
            mix(o.bg, o.ink, Weight::Fixed(720))
        },
        if today {
            day_font_bold(dpi)
        } else {
            day_font(dpi)
        },
        Align::Center,
    )
}

/// The first `n` initials of the day band.
pub open spec fn day_band(o: RowModel, week: WeekBlocks, strings: Strings, n: int, dpi: u32) -> Seq<Op>
    decreases n,
{
    if n <= 0 {
        Seq::empty()
    } else {
        day_band(o, week, strings, n - 1, dpi) + day_initial(o, week, strings, n - 1, dpi)
    }
}

/// What a row with a reading has besides: the fill, the pace, the ember and,
/// on a weekly row, the day band.
pub open spec fn row_gauge(o: RowModel, strings: Strings, dpi: u32) -> Seq<Op> {
    boxed(
        o.x as int,
        o.y + scaled(RULE_DY as int, dpi),
        o.shown.fill as int,
        thin_of(dpi),
        mix(o.led().mid, o.led().core, live(100, 250, Signal::Breath)),
    ) + pace_marks(o, dpi) + ember(o, dpi) + match o.week {
        Some(week) => day_band(o, week, strings, 7, dpi),
        None => Seq::empty(),
    }
}

/// One usage row.
pub open spec fn numeric_row(o: RowModel, strings: Strings, dpi: u32) -> Seq<Op> {
    row_texts(o, dpi) + if reads(o.time_text) {
        row_gauge(o, strings, dpi)
    } else {
        Seq::empty()
    }
}

impl RowDraw<String> {
    fn burn_points(&self) -> (b: Binary64)
        ensures
            b == self@.burn(),
    {
        match self.pace {
            Some(p) => p.burn,
            None => Binary64 { bits: 0 },
        }
    }

    fn colors(&self) -> (l: Led)
        ensures
            l == self@.led(),
    {
        state_led(self.shown.percent, self.burn_points(), &self.base)
    }

    fn figure_color(&self) -> (t: Tint)
        ensures
            t == figure_tint(self@),
    {
        if self.custom_ink {
            self.ink.copy()
        } else if self.is_dark {
            mixed(
                &self.ink,
                &self.colors().core,
                Weight::Live { base: 300, gain: 600, signal: Signal::Flash },
            )
        } else {
            mixed(
                &self.ink,
                &self.colors().edge,
                Weight::Live { base: 450, gain: 400, signal: Signal::Flash },
            )
        }
    }

    fn countdown_color(&self) -> (t: Tint)
        ensures
            t == countdown_tint(self@),
    {
        let lift = if self.is_dark {
            tint(0xffffff)
        } else {
            tint(0x000000)
        };
        mixed(&self.ink, &lift, Weight::Live { base: 0, gain: 550, signal: Signal::TextTick })
    }
}

impl Canvas {
    fn row_texts(&mut self, o: &RowDraw<String>, dpi: u32)
        requires
            row_fits(o@, dpi),
            dpi <= MAX_DPI,
        ensures
            final(self)@ == old(self)@ + row_texts(o@, dpi),
    {
        let figure_rect = Rect {
            left: o.x,
            top: o.y,
            right: o.x + sc(FIGURE_W, dpi),
            bottom: o.y + sc(ROW_H, dpi),
        };
        let figure = figure(o.shown.percent, o.time_text.as_str());
        self.draw_text_in(
            figure_rect,
            figure.as_str(),
            o.figure_color(),
            make_font(-12, FW_SEMIBOLD, dpi),
            Align::Left,
        );
        let time_rect = Rect {
            left: o.x + sc(TIME_DX, dpi),
            top: o.y,
            right: o.x + sc(RULE_W, dpi),
            bottom: o.y + sc(ROW_H, dpi),
        };
        self.draw_text_in(
            time_rect,
            reset_label(o.time_text.as_str()),
            o.countdown_color(),
            make_font(-10, FW_MEDIUM, dpi),
            Align::Left,
        );
        self.fill_box(
            o.x,
            o.y + sc(RULE_DY, dpi),
            sc(RULE_W, dpi),
            thin_line(dpi),
            o.track.copy(),
        );
        assert(self@ =~= old(self)@ + row_texts(o@, dpi));
    }

    fn pace_marks(&mut self, o: &RowDraw<String>, dpi: u32)
        requires
            row_fits(o@, dpi),
            reads(o@.time_text),
            dpi <= MAX_DPI,
        ensures
            final(self)@ == old(self)@ + pace_marks(o@, dpi),
    {
        let ghost start = self@;
        let ry: i32 = o.y + sc(RULE_DY, dpi);
        let thin: i32 = thin_line(dpi);
        match o.pace {
            None => {},
            Some(p) => {
                let floor = Binary64 { bits: 0x3fe0_0000_0000_0000 };
                proof {
                    assert(floor.finite() && !floor.negative());
                }
                if p.burn.is_over(floor) && o.shown.fill > p.at {
                    let hot = hot_led();
                    let overdraft = mixed(
                        &hot.mid,
                        &hot.core,
                        Weight::Live { base: 150, gain: 450, signal: Signal::Breath },
                    );
                    self.fill_box(
                        o.x + p.at,
                        ry - thin,
                        o.shown.fill - p.at,
                        thin * 3,
                        overdraft,
                    );
                }
                let marker = mixed(&pace_marker_color(o.is_dark), &o.bg, Weight::Fixed(350));
                self.fill_box(o.x + p.at, ry - thin, thin, thin * 3, marker);
            },
        }
        assert(self@ =~= start + pace_marks(o@, dpi));
    }

    fn ember(&mut self, o: &RowDraw<String>, dpi: u32)
        requires
            row_fits(o@, dpi),
            reads(o@.time_text),
            dpi <= MAX_DPI,
        ensures
            final(self)@ == old(self)@ + ember(o@, dpi),
    {
        let thin: i32 = thin_line(dpi);
        let loud: bool = o.shown.percent.is_at_least(70) || o.burn_points().is_at_least(8);
        let weight = if loud {
            Weight::Live { base: 450, gain: 550, signal: Signal::Breath }
        } else {
            Weight::Live { base: 180, gain: 300, signal: Signal::Breath }
        };
        let height: i32 = if loud {
            thin * 3
        } else {
            thin * 2
        };
        self.fill_box(
            o.x + max_i32(o.shown.fill - thin, 0),
            o.y + sc(RULE_DY, dpi) - thin,
            thin * 2,
            height,
            mixed(&o.bg, &o.colors().glow, weight),
        );
    }

    fn day_initial(
        &mut self,
        o: &RowDraw<String>,
        week: WeekBlocks,
        strings: &Strings,
        d: usize,
        dpi: u32,
    )
        requires
            row_fits(o@, dpi),
            reads(o@.time_text),
            o.week is Some,
            dpi <= MAX_DPI,
            d < 7,
        ensures
            final(self)@ == old(self)@ + day_initial(o@, week, *strings, d as int, dpi),
    {
        let rule_w: i64 = sc(RULE_W, dpi) as i64;
        proof {
            lemma_lengths_fit(RULE_W as int, dpi);
            assert(0 <= 2 * rule_w * d <= 14 * rule_w && 0 <= 2 * rule_w * (d + 1) <= 14 * rule_w)
                by (nonlinear_arith)
                requires
                    0 <= rule_w,
                    0 <= d <= 6,
            ;
        }
        let left: i32 = ((2 * rule_w * d as i64 + 7) / 14) as i32;
        let right: i32 = ((2 * rule_w * (d as i64 + 1) + 7) / 14) as i32;
        let top: i32 = o.y + sc(DAY_DY, dpi);
        let today: bool = match week.today {
            Some(t) => t == d,
            None => false,
        };
        let color = if today {
            mixed(
                &o.bg,
                &o.colors().glow,
                Weight::Live { base: 600, gain: 400, signal: Signal::Breath },
            )
        } else {
            mixed(&o.bg, &o.ink, Weight::Fixed(720))
        };
        let font = make_font(
            -9,
            if today {
                FW_BOLD
            } else {
                FW_SEMIBOLD
            },
            dpi,
        );
        self.draw_text_in(
            Rect {
                left: o.x + left,
                top,
                right: o.x + right,
                bottom: top + sc(DAY_BAND_H, dpi),
            },
            strings.weekday_initials[week.days[d] % 7],
            color,
            font,
            Align::Center,
        );
    }

    fn day_band(&mut self, o: &RowDraw<String>, week: WeekBlocks, strings: &Strings, dpi: u32)
        requires
            row_fits(o@, dpi),
            reads(o@.time_text),
            o.week is Some,
            dpi <= MAX_DPI,
        ensures
            final(self)@ == old(self)@ + day_band(o@, week, *strings, 7, dpi),
    {
        let mut d: usize = 0;
        assert(self@ =~= old(self)@ + day_band(o@, week, *strings, 0, dpi));
        while d < 7
            invariant
                d <= 7,
                row_fits(o@, dpi),
                reads(o@.time_text),
                o.week is Some,
                dpi <= MAX_DPI,
                self@ == old(self)@ + day_band(o@, week, *strings, d as int, dpi),
            decreases 7 - d,
        {
            self.day_initial(o, week, strings, d, dpi);
            d = d + 1;
            assert(self@ =~= old(self)@ + day_band(o@, week, *strings, d as int, dpi));
        }
    }

    /// One usage row: the percentage, the time to reset, a hairline gauge and,
    /// on a weekly row, the seven weekday initials.
    ///
    /// The only thing here that breathes continuously is the ember on the fill
    /// head, and the only thing that breathes loudly is the overdraft.
    pub fn draw_numeric_row(&mut self, o: &RowDraw<String>, strings: &Strings, dpi: u32)
        requires
            row_fits(o@, dpi),
            dpi <= MAX_DPI,
        ensures
            final(self)@ == old(self)@ + numeric_row(o@, *strings, dpi),
    {
        let ghost start = self@;
        self.row_texts(o, dpi);
        if !has_reading(o.time_text.as_str()) {
            assert(self@ =~= start + numeric_row(o@, *strings, dpi));
            return;
        }
        let led = o.colors();
        let fill = mixed(
            &led.mid,
            &led.core,
            Weight::Live { base: 100, gain: 250, signal: Signal::Breath },
        );
        self.fill_box(o.x, o.y + sc(RULE_DY, dpi), o.shown.fill, thin_line(dpi), fill);
        self.pace_marks(o, dpi);
        self.ember(o, dpi);
        match o.week {
            Some(week) => self.day_band(o, week, strings, dpi),
            None => {},
        }
        assert(self@ =~= start + numeric_row(o@, *strings, dpi));
    }
}

/// A row without a reading has no gauge, no pace and no ember, only a dash and
/// what is wrong; it is never drawn as zero.
pub proof fn law_missing_readings_draw_no_gauge(o: RowModel, strings: Strings, dpi: u32)
    requires
        !reads(o.time_text),
    ensures
        numeric_row(o, strings, dpi) == row_texts(o, dpi),
        figure_text(o.shown.percent, o.time_text) == "—"@,
{
    assert(numeric_row(o, strings, dpi) =~= row_texts(o, dpi));
}

/// Without a pace nothing is marked on the rule, and only the percentage can
/// make the row warn.
pub proof fn law_no_pace_no_marker(o: RowModel, dpi: u32)
    requires
        o.pace is None,
    ensures
        pace_marks(o, dpi).len() == 0,
        level_of(o.shown.percent, o.burn()) == Level::Hot <==> o.shown.percent.at_least(90),
        o.loud() <==> o.shown.percent.at_least(70),
{
    let zero = Binary64 { bits: 0 };
    assert(zero.finite() && zero.units() == 0);
    vstd::arithmetic::power2::lemma_pow2_pos(1074);
    assert(!zero.at_least(18)) by (nonlinear_arith)
        requires
            zero.units() == 0,
            !zero.nan(),
            zero.finite(),
            !zero.negative(),
            one() > 0,
    ;
    assert(!zero.at_least(8)) by (nonlinear_arith)
        requires
            zero.units() == 0,
            !zero.nan(),
            zero.finite(),
            !zero.negative(),
            one() > 0,
    ;
}

/// The seven day blocks tile the rule from end to end.
pub proof fn law_day_blocks_tile_the_rule(width: int, d: int)
    requires
        0 <= width,
        0 <= d < 7,
    ensures
        block_edge(width, 0) == 0,
        block_edge(width, 7) == width,
        block_edge(width, d) <= block_edge(width, d + 1),
{
    assert(2 * width * d <= 2 * width * (d + 1)) by (nonlinear_arith)
        requires
            0 <= width,
    ;
}

/// A drawing has a plain box at a place, whatever its colour.
pub open spec fn has_box(ops: Seq<Op>, rect: Rect) -> bool {
    exists|i: int| 0 <= i < ops.len() && (#[trigger] ops[i] matches DrawOp::Fill { rect: r, .. } && r
        == rect)
}

/// A drawing has a plain box at a place, in a blend away from a colour.
pub open spec fn has_lit_box(ops: Seq<Op>, rect: Rect, from: Tint) -> bool {
    exists|i: int|
        0 <= i < ops.len() && (#[trigger] ops[i] matches DrawOp::Fill {
            rect: r,
            color: Tint::Mix { from: f, .. },
        } && r == rect && *f == from)
}

proof fn lemma_rows_have_texts(percent: Binary64, reset: Seq<char>)
    ensures
        figure_text(percent, reset).len() > 0,
        label_text(reset).len() > 0,
{
    reveal_strlit("—");
    reveal_strlit("-0%");
    reveal_strlit("%");
    reveal_strlit("Offline");
    reveal_strlit("Waiting");
    reveal_strlit("Not reported");
    reveal_strlit("Unknown");
    reveal_strlit("");
    if reset.len() == 0 {
        assert(reset =~= ""@);
    }
}

/// A row says its own percentage and its own countdown, and nothing else unless
/// it carries a day band.
pub proof fn law_rows_say_their_reading(o: RowModel, strings: Strings, dpi: u32)
    requires
        o.week is None,
    ensures
        written(numeric_row(o, strings, dpi)) == seq![
            figure_text(o.shown.percent, o.time_text),
            label_text(o.time_text),
        ],
{
    let figure = lettered(
        area(
            o.x as int,
            o.y as int,
            o.x + scaled(FIGURE_W as int, dpi),
            o.y + scaled(ROW_H as int, dpi),
        ),
        figure_text(o.shown.percent, o.time_text),
        figure_tint(o),
        font_of(-12, FW_SEMIBOLD, dpi),
        Align::Left,
    );
    let time = lettered(
        area(
            o.x + scaled(TIME_DX as int, dpi),
            o.y as int,
            o.x + scaled(RULE_W as int, dpi),
            o.y + scaled(ROW_H as int, dpi),
        ),
        label_text(o.time_text),
        countdown_tint(o),
        font_of(-10, FW_MEDIUM, dpi),
        Align::Left,
    );
    let rule = boxed(
        o.x as int,
        o.y + scaled(RULE_DY as int, dpi),
        scaled(RULE_W as int, dpi),
        thin_of(dpi),
        o.track,
    );
    lemma_rows_have_texts(o.shown.percent, o.time_text);
    lemma_says_itself(
        area(
            o.x as int,
            o.y as int,
            o.x + scaled(FIGURE_W as int, dpi),
            o.y + scaled(ROW_H as int, dpi),
        ),
        figure_text(o.shown.percent, o.time_text),
        figure_tint(o),
        font_of(-12, FW_SEMIBOLD, dpi),
        Align::Left,
    );
    lemma_says_itself(
        area(
            o.x + scaled(TIME_DX as int, dpi),
            o.y as int,
            o.x + scaled(RULE_W as int, dpi),
            o.y + scaled(ROW_H as int, dpi),
        ),
        label_text(o.time_text),
        countdown_tint(o),
        font_of(-10, FW_MEDIUM, dpi),
        Align::Left,
    );
    lemma_says_nothing(rule);
    lemma_written_add(figure, time);
    lemma_written_add(figure + time, rule);
    assert(row_texts(o, dpi) =~= figure + time + rule);
    let gauge = row_gauge(o, strings, dpi);
    lemma_says_nothing(gauge);
    lemma_written_add(row_texts(o, dpi), gauge);
    lemma_written_add(row_texts(o, dpi), Seq::empty());
    assert(written(numeric_row(o, strings, dpi)) =~= seq![
        figure_text(o.shown.percent, o.time_text),
        label_text(o.time_text),
    ]);
}

/// Figure and countdown stand on one line, the figure first.
pub proof fn law_figures_stand_before_countdowns(o: RowModel, strings: Strings, dpi: u32)
    requires
        row_fits(o, dpi),
    ensures
        ({
            let ops = numeric_row(o, strings, dpi);
            &&& ops.len() >= 2
            &&& ops[0] matches DrawOp::Text { rect: a, text: figure, .. } && ops[1] matches DrawOp::Text {
                rect: b,
                text: reset,
                ..
            } && {
                &&& figure == figure_text(o.shown.percent, o.time_text)
                &&& reset == label_text(o.time_text)
                &&& a.left == o.x && a.top == o.y
                &&& a.top == b.top && a.bottom == b.bottom
                &&& a.right <= b.left <= b.right
            }
        }),
{
    lemma_rows_have_texts(o.shown.percent, o.time_text);
    law_scaling_is_monotone(0, FIGURE_W, dpi);
    law_scaling_is_monotone(FIGURE_W, TIME_DX, dpi);
    law_scaling_is_monotone(TIME_DX, RULE_W, dpi);
}

/// Where there is a reading, the gauge is lit exactly as far as the reading
/// goes, in the colour of its own state: the row's own while calm, amber when
/// warm, red when hot.
pub proof fn law_gauges_are_lit_by_their_reading(o: RowModel, strings: Strings, dpi: u32)
    requires
        reads(o.time_text),
        o.shown.fill > 0,
    ensures
        has_lit_box(
            numeric_row(o, strings, dpi),
            area(
                o.x as int,
                o.y + scaled(13, dpi),
                o.x + o.shown.fill,
                o.y + scaled(13, dpi) + thin_of(dpi),
            ),
            match level_of(o.shown.percent, o.burn()) {
                Level::Calm => o.base.mid,
                Level::Warm => solid(0xfbbf24),
                Level::Hot => solid(0xf87171),
            },
        ),
{
    let ops = numeric_row(o, strings, dpi);
    let at = row_texts(o, dpi).len() as int;
    assert(ops[at] is Fill);
}

/// A pace is marked on the gauge where an even spend would stand.
pub proof fn law_paces_are_marked_in_place(o: RowModel, p: Pace, strings: Strings, dpi: u32)
    requires
        reads(o.time_text),
        o.pace == Some(p),
    ensures
        has_box(
            numeric_row(o, strings, dpi),
            area(
                o.x + p.at,
                o.y + scaled(13, dpi) - thin_of(dpi),
                o.x + p.at + thin_of(dpi),
                o.y + scaled(13, dpi) + 2 * thin_of(dpi),
            ),
        ),
{
    let ops = numeric_row(o, strings, dpi);
    let marks = pace_marks(o, dpi);
    let fill = boxed(
        o.x as int,
        o.y + scaled(RULE_DY as int, dpi),
        o.shown.fill as int,
        thin_of(dpi),
        mix(o.led().mid, o.led().core, live(100, 250, Signal::Breath)),
    );
    let at = row_texts(o, dpi).len() + fill.len() + marks.len() - 1;
    assert(marks.last() is Fill);
    assert(ops[at] == marks.last());
}

/// Being further ahead than half a point paints the overdraft from where an
/// even spend would stand to where the reading does.
pub proof fn law_overdrafts_reach_the_reading(o: RowModel, p: Pace, strings: Strings, dpi: u32)
    requires
        reads(o.time_text),
        o.pace == Some(p),
        p.burn.exceeds(Binary64 { bits: 0x3fe0_0000_0000_0000 }),
        o.shown.fill > p.at,
    ensures
        has_lit_box(
            numeric_row(o, strings, dpi),
            area(
                o.x + p.at,
                o.y + scaled(13, dpi) - thin_of(dpi),
                o.x + o.shown.fill,
                o.y + scaled(13, dpi) + 2 * thin_of(dpi),
            ),
            solid(0xf87171),
        ),
{
    let ops = numeric_row(o, strings, dpi);
    let marks = pace_marks(o, dpi);
    let fill = boxed(
        o.x as int,
        o.y + scaled(RULE_DY as int, dpi),
        o.shown.fill as int,
        thin_of(dpi),
        mix(o.led().mid, o.led().core, live(100, 250, Signal::Breath)),
    );
    let at = row_texts(o, dpi).len() + fill.len() as int;
    assert(marks[0] is Fill);
    assert(ops[at] == marks[0]);
}

/// The ember sits on the head of the fill, taller once there is something to
/// act on: from 70% used, or 8 points ahead of an even spend.
pub proof fn law_embers_sit_on_the_head(o: RowModel, dpi: u32)
    ensures
        ({
            let thin = thin_of(dpi);
            let left = o.x + larger(o.shown.fill - thin, 0);
            let top = o.y + scaled(13, dpi) - thin;
            let loud = o.shown.percent.at_least(70) || (o.pace is Some
                && o.pace->0.burn.at_least(8));
            has_box(
                ember(o, dpi),
                area(
                    left,
                    top,
                    left + 2 * thin,
                    top + if loud {
                        3 * thin
                    } else {
                        2 * thin
                    },
                ),
            )
        }),
{
    lemma_nothing_is_no_burn();
    assert(ember(o, dpi)[0] is Fill);
}

proof fn lemma_nothing_is_no_burn()
    ensures
        !(Binary64 { bits: 0 }).at_least(8),
        !(Binary64 { bits: 0 }).at_least(18),
{
    let zero = Binary64 { bits: 0 };
    assert(zero.finite() && zero.units() == 0);
    vstd::arithmetic::power2::lemma_pow2_pos(1074);
}

/// The memory column is filled from its base up to the reading and ticked at
/// both ends of the range the reading moved through; the colour warns with the
/// reading.
pub proof fn law_memory_is_filled_from_the_base(
    x: int,
    ram: RamReading,
    dark: bool,
    bg: Tint,
    breath: Binary64,
    dpi: u32,
    c: int,
)
    requires
        0 <= c < column_width(dpi),
    ensures
        ({
            let ops = ram_column(x, ram, dark, bg, breath, dpi);
            let base = scaled(9, dpi) + scaled(28, dpi);
            let thin = thin_of(dpi);
            &&& ram.fill > 0 ==> has_box(
                ops,
                area(x + c, base - ram.fill, x + c + 1, base),
            )
            &&& ram.fill <= 0 ==> ram_fill(x, ram, dpi).len() == 0
            &&& has_lit_box(
                ops,
                area(
                    x - scaled(2, dpi),
                    base - ram.low,
                    x - scaled(2, dpi) + thin,
                    base - ram.low + thin,
                ),
                bg,
            )
            &&& has_lit_box(
                ops,
                area(
                    x - scaled(2, dpi),
                    base - ram.high,
                    x - scaled(2, dpi) + thin,
                    base - ram.high + thin,
                ),
                bg,
            )
        }),
{
    let ops = ram_column(x, ram, dark, bg, breath, dpi);
    let w = column_width(dpi);
    let halo: Seq<Op> = if breath.exceeds(halo_floor()) && ram.fill > 0 {
        halo_ring(x, ram, bg, 2, 90, dpi) + halo_ring(x, ram, bg, 1, 180, dpi)
    } else {
        Seq::empty()
    };
    let fill = ram_fill(x, ram, dpi);
    let n = ops.len() as int;
    assert(ops[n - 1] == ram_tick(x, ram, ram.high as int, bg, dpi)[0]);
    assert(ops[n - 2] == ram_tick(x, ram, ram.low as int, bg, dpi)[0]);
    if ram.fill > 0 {
        lemma_columns(x, ram, w, c, dpi);
        assert(fill[1 + c] == fill_columns(x, ram, w, dpi)[c]);
        assert(ops[halo.len() + 1 + 1 + c] == fill[1 + c]);
    }
}

proof fn lemma_columns(x: int, ram: RamReading, n: int, c: int, dpi: u32)
    requires
        ram.fill > 0,
        0 <= c < n,
    ensures
        ({
            let base = scaled(9, dpi) + scaled(28, dpi);
            let ops = fill_columns(x, ram, n, dpi);
            &&& ops.len() == n
            &&& ops[c] matches DrawOp::Fill { rect, .. } && rect == area(
                x + c,
                base - ram.fill,
                x + c + 1,
                base,
            )
        }),
    decreases n,
{
    lemma_column_count(x, ram, n - 1, dpi);
    if c < n - 1 {
        lemma_columns(x, ram, n - 1, c, dpi);
    }
}

proof fn lemma_column_count(x: int, ram: RamReading, n: int, dpi: u32)
    requires
        ram.fill > 0,
        0 <= n,
    ensures
        fill_columns(x, ram, n, dpi).len() == n,
    decreases n,
{
    if n > 0 {
        lemma_column_count(x, ram, n - 1, dpi);
    }
}

/// The memory column says nothing.
pub proof fn lemma_memory_says_nothing(
    x: int,
    ram: RamReading,
    dark: bool,
    bg: Tint,
    breath: Binary64,
    dpi: u32,
)
    ensures
        written(ram_column(x, ram, dark, bg, breath, dpi)) == Seq::<Seq<char>>::empty(),
{
    lemma_columns_say_nothing(x, ram, column_width(dpi), dpi);
    lemma_says_nothing(ram_column(x, ram, dark, bg, breath, dpi));
}

proof fn lemma_columns_say_nothing(x: int, ram: RamReading, n: int, dpi: u32)
    ensures
        forall|i: int|
            0 <= i < fill_columns(x, ram, n, dpi).len() ==> !(#[trigger] fill_columns(
                x,
                ram,
                n,
                dpi,
            )[i] is Text),
    decreases n,
{
    if n > 0 {
        lemma_columns_say_nothing(x, ram, n - 1, dpi);
    }
}

/// The day band gives each block the initial of its own weekday, today's bold.
pub proof fn law_days_are_named_in_their_block(
    o: RowModel,
    week: WeekBlocks,
    strings: Strings,
    d: int,
    dpi: u32,
)
    requires
        0 <= d < 7,
        week.days@[d] < 7,
        strings.weekday_initials@[week.days@[d] as int]@.len() > 0,
    ensures
        ({
            let ops = day_initial(o, week, strings, d, dpi);
            &&& ops.len() == 1
            &&& ops[0] matches DrawOp::Text { rect, text, font, .. } && {
                &&& text == strings.weekday_initials@[week.days@[d] as int]@
                &&& rect.left == (o.x + block_edge(scaled(122, dpi), d)) as i32
                &&& rect.right == (o.x + block_edge(scaled(122, dpi), d + 1)) as i32
                &&& font.weight == (if week.today == Some(d as usize) {
                    700u32
                } else {
                    600u32
                })
            }
        }),
{
}

/// A ring of the halo surrounds the fill at the same distance on every side,
/// the rounded rectangle's far edges included, and glows with the breath.
pub proof fn law_halos_surround_the_fill(
    x: int,
    ram: RamReading,
    bg: Tint,
    ring: int,
    gain: u32,
    dpi: u32,
)
    ensures
        ({
            let ops = halo_ring(x, ram, bg, ring, gain, dpi);
            let grow = scaled(ring, dpi);
            let base = scaled(9, dpi) + scaled(28, dpi);
            &&& ops.len() == 1
            &&& ops[0] matches DrawOp::FillRounded { rect, color, .. } && {
                &&& rect.left == (x - grow) as i32
                &&& rect.top == (base - ram.fill - grow) as i32
                &&& rect.right == ((x + column_width(dpi) + grow) as i32 + 1) as i32
                &&& rect.bottom == ((base + grow) as i32 + 1) as i32
                &&& color == (Tint::Mix {
                    from: Box::new(bg),
                    to: Box::new(ram_stops(ram.percent).glow),
                    weight: Weight::Live { base: 0, gain, signal: Signal::Breath },
                })
            }
        }),
{
}

/// The halo shows only around a fill that breathes, the wider ring the fainter.
pub proof fn law_halos_need_breath(
    x: int,
    ram: RamReading,
    dark: bool,
    bg: Tint,
    breath: Binary64,
    dpi: u32,
)
    ensures
        ({
            let ops = ram_column(x, ram, dark, bg, breath, dpi);
            let track = area(
                x,
                scaled(9, dpi),
                x + column_width(dpi),
                scaled(9, dpi) + scaled(28, dpi),
            );
            let from = if ram.fill > 0 && breath.exceeds(
                Binary64 { bits: 0x3f94_7ae1_47ae_147b },
            ) {
                2int
            } else {
                0int
            };
            &&& ops.len() > from
            &&& from == 2 ==> ops[0] == halo_ring(x, ram, bg, 2, 90, dpi)[0]
            &&& from == 2 ==> ops[1] == halo_ring(x, ram, bg, 1, 180, dpi)[0]
            &&& ops[from] == rounded(track, ram_track(dark), column_width(dpi) / 2)[0]
        }),
{
}

/// The memory fill is brightest in the middle and falls off alike on both
/// sides; its light follows the breath.
pub proof fn law_the_fill_is_brightest_in_the_middle(percent: Binary64, c: int, w: int)
    requires
        0 <= c < w <= 0x10000,
    ensures
        off_centre(c, w) == off_centre(w - 1 - c, w),
        2 * c == w - 1 ==> off_centre(c, w)->of == 0,
        c < w - 1 - c ==> off_centre(c, w)->of > off_centre(c + 1, w)->of || c + 1 > w - 2 - c,
        w > 2 ==> off_centre(0, w)->of == off_centre(0, w)->whole,
        centre_tint(percent) == (Tint::Mix {
            from: Box::new(ram_stops(percent).mid),
            to: Box::new(ram_stops(percent).core),
            weight: Weight::Live { base: 100, gain: 300, signal: Signal::Breath },
        }),
        flank_tint(percent) == (Tint::Mix {
            from: Box::new(centre_tint(percent)),
            to: Box::new(ram_stops(percent).edge),
            weight: Weight::Fixed(500),
        }),
{
}

/// Figures are drawn larger and heavier than countdowns, and both than the
/// initials of the days; only today's initial is bold.
pub proof fn law_texts_have_their_sizes(o: RowModel, dpi: u32)
    ensures
        ({
            let ops = row_texts(o, dpi);
            &&& ops.len() >= 2
            &&& ops[0] matches DrawOp::Text { font, align, .. } && font.height == scaled(
                -12,
                dpi,
            ) as i32 && font.weight == 600 && align == Align::Left
            &&& ops[1] matches DrawOp::Text { font, align, .. } && font.height == scaled(
                -10,
                dpi,
            ) as i32 && font.weight == 500 && align == Align::Left
        }),
        day_font(dpi).height == scaled(-9, dpi) as i32,
        day_font(dpi).weight == 600,
        day_font_bold(dpi).height == scaled(-9, dpi) as i32,
        day_font_bold(dpi).weight == 700,
{
    lemma_rows_have_texts(o.shown.percent, o.time_text);
}

/// Figures flash toward the colour of their state unless they are drawn in the
/// user's own ink, and countdowns toward the strongest contrast.
pub proof fn law_texts_flash_in_their_colours(o: RowModel)
    ensures
        o.custom_ink ==> figure_tint(o) == o.ink,
        !o.custom_ink ==> figure_tint(o) == (Tint::Mix {
            from: Box::new(o.ink),
            to: Box::new(
                if o.is_dark {
                    o.led().core
                } else {
                    o.led().edge
                },
            ),
            weight: if o.is_dark {
                Weight::Live { base: 300, gain: 600, signal: Signal::Flash }
            } else {
                Weight::Live { base: 450, gain: 400, signal: Signal::Flash }
            },
        }),
        countdown_tint(o) == (Tint::Mix {
            from: Box::new(o.ink),
            to: Box::new(
                if o.is_dark {
                    Tint::Solid(Color { r: 255, g: 255, b: 255 })
                } else {
                    Tint::Solid(Color { r: 0, g: 0, b: 0 })
                },
            ),
            weight: Weight::Live { base: 0, gain: 550, signal: Signal::TextTick },
        }),
{
}

/// Overdraft, pace marker and ember have their own light: the overdraft is
/// always red, the marker sinks into the background, and a loud ember glows
/// twice as strongly as a quiet one and more.
pub proof fn law_marks_have_their_light(o: RowModel, p: Pace, dpi: u32)
    requires
        o.pace == Some(p),
    ensures
        pace_marks(o, dpi).last() matches DrawOp::Fill { color, .. } && color == (Tint::Mix {
            from: Box::new(pace_marker(o.is_dark)),
            to: Box::new(o.bg),
            weight: Weight::Fixed(350),
        }),
        p.burn.exceeds(Binary64 { bits: 0x3fe0_0000_0000_0000 }) && o.shown.fill > p.at
            ==> pace_marks(o, dpi).len() == 2 && (pace_marks(o, dpi)[0] matches DrawOp::Fill {
            color,
            ..
        } && color == (Tint::Mix {
            from: Box::new(hot_stops().mid),
            to: Box::new(hot_stops().core),
            weight: Weight::Live { base: 150, gain: 450, signal: Signal::Breath },
        })),
        !p.burn.exceeds(Binary64 { bits: 0x3fe0_0000_0000_0000 }) || o.shown.fill <= p.at
            ==> pace_marks(o, dpi).len() == 1,
        ember(o, dpi)[0] matches DrawOp::Fill { color, .. } && color == (Tint::Mix {
            from: Box::new(o.bg),
            to: Box::new(o.led().glow),
            weight: if o.shown.percent.at_least(70) || p.burn.at_least(8) {
                Weight::Live { base: 450, gain: 550, signal: Signal::Breath }
            } else {
                Weight::Live { base: 180, gain: 300, signal: Signal::Breath }
            },
        }),
{
}

} // verus!
