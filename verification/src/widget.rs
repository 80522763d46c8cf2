//! The widget's content: one card per provider, the memory column, the drag
//! handle and the poll-freshness hairline.
use crate::appearance::{Appearance, Mode};
use crate::color::{color, color_of, Color};
use crate::draw::{
    area, boxed, lemma_says_itself, lemma_says_nothing, lemma_written_add, lettered, make_font, mix,
    mixed, near, rounded, written, Align, Canvas, DrawOp, Op, Tint, Weight, FW_BOLD, FW_SEMIBOLD,
};
use crate::gauges::{
    day_font, day_font_bold, law_figures_stand_before_countdowns, law_rows_say_their_reading,
    lemma_memory_says_nothing,
    lemma_modest_row, numeric_row, ram_column, row_fits, thin_line, thin_of, Pace, RamReading, RowDraw, RowModel, Shown, RAM_X, ROW_H,
};
use crate::geometry::{
    fits, lemma_lengths_fit, provider_slot_width, sc, scaled, shown_count, slot_width,
    widget_width, Rect, CONTENT_X, MAX_DPI, PROVIDER_W,
};
use crate::led::{
    antigravity_led, antigravity_stops, claude_led, claude_stops, codex_led, codex_stops,
    custom_led, custom_stops, Led,
};
use crate::measure::Binary64;
use crate::models::{AppUsageData, UsageSection};
use crate::readout::{figure_text, label_text, section_label, window_label};
use crate::state::Provider;
use crate::strings::Strings;
use vstd::prelude::*;
use vstd::string::*;

verus! {

/// Space reserved for the quota-window label.
pub const LABEL_W: i32 = 42;

/// Row origins. The height holds an 11-pixel header and three 12-pixel bands,
/// each followed by its gauge and breathing room.
pub const ROW1_Y: i32 = 13;

pub const ROW2_Y: i32 = 29;

pub const ROW3_Y: i32 = 45;

/// A lone row stands midway between the first two.
pub const LONE_ROW_Y: i32 = 21;

/// The quota windows that are tracked.
#[derive(Clone, Copy, Debug, PartialEq, Eq, Structural)]
pub enum Slot {
    Session,
    Weekly,
    CodexSession,
    CodexWeekly,
    AntigravitySession,
    AntigravityWeekly,
    Fable,
}

/// Something for each quota window.
#[verifier::ext_equal]
#[derive(Debug)]
pub struct Slots<T> {
    pub session: T,
    pub weekly: T,
    pub codex_session: T,
    pub codex_weekly: T,
    pub antigravity_session: T,
    pub antigravity_weekly: T,
    pub fable: T,
}

impl<T> Slots<T> {
    pub open spec fn at(self, slot: Slot) -> T {
        match slot {
            Slot::Session => self.session,
            Slot::Weekly => self.weekly,
            Slot::CodexSession => self.codex_session,
            Slot::CodexWeekly => self.codex_weekly,
            Slot::AntigravitySession => self.antigravity_session,
            Slot::AntigravityWeekly => self.antigravity_weekly,
            Slot::Fable => self.fable,
        }
    }

    pub fn get(&self, slot: Slot) -> (item: &T)
        ensures
            *item == self.at(slot),
    {
        match slot {
            Slot::Session => &self.session,
            Slot::Weekly => &self.weekly,
            Slot::CodexSession => &self.codex_session,
            Slot::CodexWeekly => &self.codex_weekly,
            Slot::AntigravitySession => &self.antigravity_session,
            Slot::AntigravityWeekly => &self.antigravity_weekly,
            Slot::Fable => &self.fable,
        }
    }
}

impl View for Slots<String> {
    type V = Slots<Seq<char>>;

    open spec fn view(&self) -> Slots<Seq<char>> {
        Slots {
            session: self.session@,
            weekly: self.weekly@,
            codex_session: self.codex_session@,
            codex_weekly: self.codex_weekly@,
            antigravity_session: self.antigravity_session@,
            antigravity_weekly: self.antigravity_weekly@,
            fable: self.fable@,
        }
    }
}

/// What the widget shows, apart from what moves.
#[verifier::ext_equal]
#[derive(Debug)]
pub struct Scene<T> {
    pub width: i32,
    pub height: i32,
    pub is_dark: bool,
    pub appearance: Appearance,
    pub bg: Color,
    pub text_color: Color,
    pub data: Option<AppUsageData>,
    pub claude: bool,
    pub codex: bool,
    pub antigravity: bool,
    /// The countdown of each quota window.
    pub texts: Slots<T>,
}

pub type SceneModel = Scene<Seq<char>>;

impl View for Scene<String> {
    type V = SceneModel;

    open spec fn view(&self) -> SceneModel {
        Scene {
            width: self.width,
            height: self.height,
            is_dark: self.is_dark,
            appearance: self.appearance,
            bg: self.bg,
            text_color: self.text_color,
            data: self.data,
            claude: self.claude,
            codex: self.codex,
            antigravity: self.antigravity,
            texts: self.texts@,
        }
    }
}

/// One frame of what moves.
#[derive(Debug)]
pub struct Frame {
    pub breath: Binary64,
    pub ram: RamReading,
    pub shown: Slots<Shown>,
    pub session_pace: Option<Pace>,
    pub weekly_pace: Option<Pace>,
    /// How many pixels of the freshness hairline are filled.
    pub freshness: i32,
}

impl Frame {
    /// Every length is modest, so that sums of a few of them fit.
    pub open spec fn modest(self) -> bool {
        &&& near(self.ram.fill as int)
        &&& near(self.ram.low as int)
        &&& near(self.ram.high as int)
        &&& forall|slot: Slot| near(#[trigger] self.shown.at(slot).fill as int)
        &&& self.session_pace is Some ==> near(self.session_pace->0.at as int)
        &&& self.weekly_pace is Some ==> near(self.weekly_pace->0.at as int)
        &&& near(self.freshness as int)
    }

    /// Only the first provider's session and weekly windows have a pace.
    pub open spec fn pace_of(self, slot: Slot) -> Option<Pace> {
        match slot {
            Slot::Session => self.session_pace,
            Slot::Weekly => self.weekly_pace,
            _ => None,
        }
    }

    fn pace(&self, slot: Slot) -> (pace: Option<Pace>)
        ensures
            pace == self.pace_of(slot),
    {
        match slot {
            Slot::Session => self.session_pace,
            Slot::Weekly => self.weekly_pace,
            _ => None,
        }
    }
}

/// The accent a provider is drawn in.
pub open spec fn accent_of(s: SceneModel, provider: Provider) -> Color {
    let palette = s.appearance.shades(s.is_dark);
    match provider {
        Provider::Claude => palette[2],
        Provider::Codex => palette[3],
        Provider::Antigravity => palette[4],
    }
}

pub open spec fn ink_of(s: SceneModel) -> Tint {
    Tint::Solid(s.appearance.shades(s.is_dark)[1])
}

/// A card's background: the widget's, with a touch of the accent.
pub open spec fn card_tint(s: SceneModel, provider: Provider) -> Tint {
    mix(
        Tint::Solid(s.bg),
        Tint::Solid(accent_of(s, provider)),
        Weight::Fixed(
            if s.is_dark {
                60
            } else {
                35
            },
        ),
    )
}

/// The colour of headings and labels on a card.
pub open spec fn quiet_tint(s: SceneModel, provider: Provider) -> Tint {
    mix(card_tint(s, provider), ink_of(s), Weight::Fixed(650))
}

/// The gauge colours of a provider while nothing warns.
pub open spec fn base_led(s: SceneModel, provider: Provider) -> Led {
    if s.appearance.mode == Mode::Custom {
        custom_stops(accent_of(s, provider), s.bg)
    } else {
        match provider {
            Provider::Claude => claude_stops(),
            Provider::Codex => codex_stops(s.is_dark),
            Provider::Antigravity => antigravity_stops(),
        }
    }
}

/// The name at the head of a provider's card.
pub open spec fn card_name(strings: Strings, provider: Provider) -> Seq<char> {
    match provider {
        Provider::Claude => strings.claude_card@,
        Provider::Codex => "CODEX"@,
        Provider::Antigravity => "ANTIGRAVITY"@,
    }
}

pub open spec fn codex_section(data: Option<AppUsageData>, weekly: bool) -> Option<UsageSection> {
    match data {
        Some(d) => match d.codex {
            Some(u) => Some(
                if weekly {
                    u.weekly
                } else {
                    u.session
                },
            ),
            None => None,
        },
        None => None,
    }
}

pub open spec fn some_section_label(section: Option<UsageSection>, fallback: Seq<char>) -> Seq<
    char,
> {
    match section {
        Some(s) => section_label(Some(&s), fallback),
        None => section_label(None, fallback),
    }
}

/// What a quota window is called on its card.
pub open spec fn label_of(s: SceneModel, strings: Strings, slot: Slot) -> Seq<char> {
    match slot {
        Slot::Session => strings.session_window@,
        Slot::Weekly => strings.weekly_window@,
        Slot::CodexSession => some_section_label(codex_section(s.data, false), "5h"@),
        Slot::CodexWeekly => some_section_label(codex_section(s.data, true), "7d"@),
        Slot::AntigravitySession => "Quota"@,
        Slot::AntigravityWeekly => "Extra"@,
        Slot::Fable => "Fable"@,
    }
}

/// The rows of a card, each with its design-time origin. Codex displays only
/// its weekly quota.
pub open spec fn rows_of(provider: Provider) -> Seq<(int, Slot)> {
    match provider {
        Provider::Claude => seq![
            (ROW1_Y as int, Slot::Session),
            (ROW2_Y as int, Slot::Weekly),
            (ROW3_Y as int, Slot::Fable),
        ],
        Provider::Codex => seq![(LONE_ROW_Y as int, Slot::CodexWeekly)],
        Provider::Antigravity => seq![
            (ROW1_Y as int, Slot::AntigravitySession),
            (ROW2_Y as int, Slot::AntigravityWeekly),
        ],
    }
}

/// One row of a card at `x`.
pub open spec fn row_of(
    s: SceneModel,
    f: Frame,
    provider: Provider,
    x: int,
    row: (int, Slot),
    dpi: u32,
) -> RowModel {
    RowDraw {
        custom_ink: s.appearance.mode == Mode::Custom,
        x: (x + scaled(LABEL_W as int, dpi)) as i32,
        y: scaled(row.0, dpi) as i32,
        shown: f.shown.at(row.1),
        pace: f.pace_of(row.1),
        time_text: s.texts.at(row.1),
        base: base_led(s, provider),
        week: None,
        is_dark: s.is_dark,
        bg: card_tint(s, provider),
        track: mix(card_tint(s, provider), ink_of(s), Weight::Fixed(140)),
        ink: ink_of(s),
    }
}

/// A row with its label.
#[verifier::opaque]
pub open spec fn labelled_row(
    s: SceneModel,
    f: Frame,
    strings: Strings,
    provider: Provider,
    x: int,
    row: (int, Slot),
    dpi: u32,
) -> Seq<Op> {
    let y = scaled(row.0, dpi);
    lettered(
        area(
            x + scaled(6, dpi),
            y,
            x + scaled(LABEL_W as int, dpi) - scaled(3, dpi),
            y + scaled(ROW_H as int, dpi),
        ),
        label_of(s, strings, row.1),
        quiet_tint(s, provider),
        day_font(dpi),
        Align::Left,
    ) + numeric_row(row_of(s, f, provider, x, row, dpi), strings, dpi)
}

/// The first `n` rows of a card.
pub open spec fn labelled_rows(
    s: SceneModel,
    f: Frame,
    strings: Strings,
    provider: Provider,
    x: int,
    n: int,
    dpi: u32,
) -> Seq<Op>
    decreases n,
{
    if n <= 0 {
        Seq::empty()
    } else {
        labelled_rows(s, f, strings, provider, x, n - 1, dpi) + labelled_row(
            s,
            f,
            strings,
            provider,
            x,
            rows_of(provider)[n - 1],
            dpi,
        )
    }
}

/// A card's body and heading. Every provider is named, even alone: colour by
/// itself is not identity.
#[verifier::opaque]
pub open spec fn card_heading(s: SceneModel, strings: Strings, provider: Provider, x: int, dpi: u32) -> Seq<
    Op,
> {
    let accent = Tint::Solid(accent_of(s, provider));
    rounded(
        area(x, scaled(1, dpi), x + scaled(PROVIDER_W as int, dpi), s.height - scaled(1, dpi)),
        card_tint(s, provider),
        scaled(4, dpi),
    ) + boxed(x + scaled(6, dpi), scaled(5, dpi), scaled(3, dpi), scaled(3, dpi), accent)
        + lettered(
        area(x + scaled(13, dpi), scaled(1, dpi), x + scaled(83, dpi), scaled(12, dpi)),
        card_name(strings, provider),
        accent,
        day_font_bold(dpi),
        Align::Left,
    ) + lettered(
        area(x + scaled(86, dpi), scaled(1, dpi), x + scaled(166, dpi), scaled(12, dpi)),
        "USED / RESET IN"@,
        quiet_tint(s, provider),
        day_font(dpi),
        Align::Right,
    )
}

/// A provider's card.
#[verifier::opaque]
pub open spec fn card(
    s: SceneModel,
    f: Frame,
    strings: Strings,
    provider: Provider,
    x: int,
    dpi: u32,
) -> Seq<Op> {
    card_heading(s, strings, provider, x, dpi) + labelled_rows(
        s,
        f,
        strings,
        provider,
        x,
        rows_of(provider).len() as int,
        dpi,
    )
}

/// Where a provider's card starts: past the cards shown before it.
pub open spec fn card_left(s: SceneModel, provider: Provider, dpi: u32) -> int {
    let before = match provider {
        Provider::Claude => 0int,
        Provider::Codex => if s.claude {
            1
        } else {
            0
        },
        Provider::Antigravity => if s.claude && s.codex {
            2
        } else if s.claude || s.codex {
            1
        } else {
            0
        },
    };
    scaled(CONTENT_X as int, dpi) + slot_width(dpi) * before
}

/// A provider is shown.
pub open spec fn is_shown(s: SceneModel, provider: Provider) -> bool {
    match provider {
        Provider::Claude => s.claude,
        Provider::Codex => s.codex,
        Provider::Antigravity => s.antigravity,
    }
}

/// A provider's card, if it is shown.
pub open spec fn shown_card(
    s: SceneModel,
    f: Frame,
    strings: Strings,
    provider: Provider,
    dpi: u32,
) -> Seq<Op> {
    if is_shown(s, provider) {
        card(s, f, strings, provider, card_left(s, provider, dpi), dpi)
    } else {
        Seq::empty()
    }
}

/// The shown cards, left to right.
pub open spec fn cards(s: SceneModel, f: Frame, strings: Strings, dpi: u32) -> Seq<Op> {
    shown_card(s, f, strings, Provider::Claude, dpi) + shown_card(
        s,
        f,
        strings,
        Provider::Codex,
        dpi,
    ) + shown_card(s, f, strings, Provider::Antigravity, dpi)
}

/// A card at `x` has coordinates within 32 bits.
pub open spec fn card_fits(s: SceneModel, f: Frame, provider: Provider, x: int, dpi: u32) -> bool {
    &&& i32::MIN <= s.height - scaled(1, dpi) < i32::MAX
    &&& forall|i: int|
        0 <= i < rows_of(provider).len() ==> row_fits(
            row_of(s, f, provider, x, #[trigger] rows_of(provider)[i], dpi),
            dpi,
        )
}

/// The whole content has coordinates within 32 bits: the memory column, every
/// shown card, and the freshness hairline.
pub open spec fn content_fits(s: SceneModel, f: Frame, dpi: u32) -> bool {
    let x0 = scaled(CONTENT_X as int, dpi);
    &&& f.ram.drawable(scaled(RAM_X as int, dpi), dpi)
    &&& forall|provider: Provider| #[trigger]
        is_shown(s, provider) ==> card_fits(
            s,
            f,
            provider,
            card_left(s, provider, dpi),
            dpi,
        )
    &&& s.width - thin_of(dpi) > x0 && f.freshness > 0 ==> fits(x0 + f.freshness)
}

/// Half of a length, toward zero.
pub open spec fn halved(v: int) -> int {
    if v >= 0 {
        v / 2
    } else {
        -(-v / 2)
    }
}

/// The background and the drag handle, two hairlines the width of the grab
/// area.
pub open spec fn backdrop(s: SceneModel, dpi: u32) -> Seq<Op> {
    let h = scaled(25, dpi);
    let top = halved(s.height - h);
    let (left, right) = if s.is_dark {
        (0x505050u32, 0x282828u32)
    } else {
        (0xa0a0a0u32, 0xe6e6e6u32)
    };
    seq![
        DrawOp::Fill {
            rect: area(0, 0, s.width as int, s.height as int),
            color: Tint::Solid(s.bg),
        },
        DrawOp::Fill {
            rect: area(0, top, scaled(2, dpi), top + h),
            color: Tint::Solid(color_of(left)),
        },
        DrawOp::Fill {
            rect: area(scaled(2, dpi), top, scaled(3, dpi), top + h),
            color: Tint::Solid(color_of(right)),
        },
    ]
}

/// The hairline along the top edge that fills over the poll interval.
pub open spec fn freshness_line(s: SceneModel, filled: int, dpi: u32) -> Seq<Op> {
    let thin = thin_of(dpi);
    let x0 = scaled(CONTENT_X as int, dpi);
    let x1 = s.width - thin;
    let (bg, text) = (Tint::Solid(s.bg), Tint::Solid(s.text_color));
    if x1 > x0 {
        boxed(x0, 0, x1 - x0, thin, mix(bg, text, Weight::Fixed(180))) + boxed(
            x0,
            0,
            filled,
            thin,
            mix(bg, text, Weight::Fixed(450)),
        )
    } else {
        Seq::empty()
    }
}

/// Everything the widget draws.
pub open spec fn content(s: SceneModel, f: Frame, strings: Strings, dpi: u32) -> Seq<Op> {
    backdrop(s, dpi) + ram_column(
        scaled(RAM_X as int, dpi),
        f.ram,
        s.is_dark,
        Tint::Solid(s.bg),
        f.breath,
        dpi,
    ) + cards(s, f, strings, dpi) + freshness_line(s, f.freshness as int, dpi)
}

impl Scene<String> {
    fn palette(&self) -> (colors: [Color; 5])
        ensures
            colors@ == self.appearance.shades(self.is_dark),
    {
        self.appearance.palette(self.is_dark)
    }

    fn accent(&self, provider: Provider) -> (c: Color)
        ensures
            c == accent_of(self@, provider),
    {
        let palette = self.palette();
        match provider {
            Provider::Claude => palette[2],
            Provider::Codex => palette[3],
            Provider::Antigravity => palette[4],
        }
    }

    fn ink(&self) -> (t: Tint)
        ensures
            t == ink_of(self@),
    {
        Tint::Solid(self.palette()[1])
    }

    fn card(&self, provider: Provider) -> (t: Tint)
        ensures
            t == card_tint(self@, provider),
    {
        let weight = Weight::Fixed(
            if self.is_dark {
                60
            } else {
                35
            },
        );
        mixed(&Tint::Solid(self.bg), &Tint::Solid(self.accent(provider)), weight)
    }

    fn quiet(&self, provider: Provider) -> (t: Tint)
        ensures
            t == quiet_tint(self@, provider),
    {
        mixed(&self.card(provider), &self.ink(), Weight::Fixed(650))
    }

    fn base(&self, provider: Provider) -> (l: Led)
        ensures
            l == base_led(self@, provider),
    {
        if self.appearance.mode == Mode::Custom {
            return custom_led(self.accent(provider), self.bg);
        }
        match provider {
            Provider::Claude => claude_led(),
            Provider::Codex => codex_led(self.is_dark),
            Provider::Antigravity => antigravity_led(),
        }
    }

    fn codex_label(&self, weekly: bool, fallback: &str) -> (label: String)
        ensures
            label@ == some_section_label(codex_section(self.data, weekly), fallback@),
    {
        match self.data {
            Some(d) => match d.codex {
                Some(u) => {
                    let section = if weekly {
                        u.weekly
                    } else {
                        u.session
                    };
                    window_label(Some(&section), fallback)
                },
                None => window_label(None, fallback),
            },
            None => window_label(None, fallback),
        }
    }

    fn label(&self, strings: &Strings, slot: Slot) -> (label: String)
        ensures
            label@ == label_of(self@, *strings, slot),
    {
        match slot {
            Slot::Session => strings.session_window.to_owned(),
            Slot::Weekly => strings.weekly_window.to_owned(),
            Slot::CodexSession => self.codex_label(false, "5h"),
            Slot::CodexWeekly => self.codex_label(true, "7d"),
            Slot::AntigravitySession => "Quota".to_owned(),
            Slot::AntigravityWeekly => "Extra".to_owned(),
            Slot::Fable => "Fable".to_owned(),
        }
    }

    fn row(&self, frame: &Frame, provider: Provider, x: i32, y: i32, slot: Slot, dpi: u32) -> (row:
        RowDraw<String>)
        requires
            card_near(x as int),
            0 <= y <= 64,
            dpi <= MAX_DPI,
        ensures
            row@ == row_of(self@, *frame, provider, x as int, (y as int, slot), dpi),
    {
        proof {
            lemma_lengths_fit(y as int, dpi);
        }
        let bg = self.card(provider);
        let ink = self.ink();
        let track = mixed(&bg, &ink, Weight::Fixed(140));
        let row = RowDraw {
            custom_ink: self.appearance.mode == Mode::Custom,
            x: x + sc(LABEL_W, dpi),
            y: sc(y, dpi),
            shown: *frame.shown.get(slot),
            pace: frame.pace(slot),
            time_text: self.texts.get(slot).clone(),
            base: self.base(provider),
            week: None,
            is_dark: self.is_dark,
            bg,
            track,
            ink,
        };
        assert(row@ =~= row_of(self@, *frame, provider, x as int, (y as int, slot), dpi));
        row
    }
}

/// Cards start within this distance of the origin.
pub open spec fn card_near(x: int) -> bool {
    0 <= x <= 0x800_0000
}

impl Canvas {
    fn labelled_row(
        &mut self,
        scene: &Scene<String>,
        frame: &Frame,
        strings: &Strings,
        provider: Provider,
        x: i32,
        y: i32,
        slot: Slot,
        dpi: u32,
    )
        requires
            card_near(x as int),
            0 <= y <= 64,
            dpi <= MAX_DPI,
            row_fits(
                row_of(scene@, *frame, provider, x as int, (y as int, slot), dpi),
                dpi,
            ),
        ensures
            final(self)@ == old(self)@ + labelled_row(
                scene@,
                *frame,
                *strings,
                provider,
                x as int,
                (y as int, slot),
                dpi,
            ),
    {
        proof {
            lemma_lengths_fit(y as int, dpi);
            reveal(labelled_row);
        }
        let ghost start = self@;
        let row_y: i32 = sc(y, dpi);
        let label = scene.label(strings, slot);
        self.draw_text_in(
            Rect {
                left: x + sc(6, dpi),
                top: row_y,
                right: x + sc(LABEL_W, dpi) - sc(3, dpi),
                bottom: row_y + sc(ROW_H, dpi),
            },
            label.as_str(),
            scene.quiet(provider),
            make_font(-9, FW_SEMIBOLD, dpi),
            Align::Left,
        );
        let row = scene.row(frame, provider, x, y, slot, dpi);
        self.draw_numeric_row(&row, strings, dpi);
        assert(self@ =~= start + labelled_row(
            scene@,
            *frame,
            *strings,
            provider,
            x as int,
            (y as int, slot),
            dpi,
        ));
    }

    fn card_heading(
        &mut self,
        scene: &Scene<String>,
        strings: &Strings,
        provider: Provider,
        x: i32,
        dpi: u32,
    )
        requires
            card_near(x as int),
            i32::MIN <= scene.height - scaled(1, dpi) < i32::MAX,
            dpi <= MAX_DPI,
        ensures
            final(self)@ == old(self)@ + card_heading(scene@, *strings, provider, x as int, dpi),
    {
        proof {
            reveal(card_heading);
        }
        let ghost start = self@;
        self.draw_rounded_rect(
            Rect {
                left: x,
                top: sc(1, dpi),
                right: x + sc(PROVIDER_W, dpi),
                bottom: scene.height - sc(1, dpi),
            },
            scene.card(provider),
            sc(4, dpi),
        );
        let accent = Tint::Solid(scene.accent(provider));
        self.fill_box(x + sc(6, dpi), sc(5, dpi), sc(3, dpi), sc(3, dpi), accent.copy());
        let name = match provider {
            Provider::Claude => strings.claude_card,
            Provider::Codex => "CODEX",
            Provider::Antigravity => "ANTIGRAVITY",
        };
        self.draw_text_in(
            Rect {
                left: x + sc(13, dpi),
                top: sc(1, dpi),
                right: x + sc(83, dpi),
                bottom: sc(12, dpi),
            },
            name,
            accent,
            make_font(-9, FW_BOLD, dpi),
            Align::Left,
        );
        self.draw_text_in(
            Rect {
                left: x + sc(86, dpi),
                top: sc(1, dpi),
                right: x + sc(PROVIDER_W - 8, dpi),
                bottom: sc(12, dpi),
            },
            "USED / RESET IN",
            scene.quiet(provider),
            make_font(-9, FW_SEMIBOLD, dpi),
            Align::Right,
        );
        assert(self@ =~= start + card_heading(scene@, *strings, provider, x as int, dpi));
    }

    fn provider_card(
        &mut self,
        scene: &Scene<String>,
        frame: &Frame,
        strings: &Strings,
        provider: Provider,
        x: i32,
        dpi: u32,
    )
        requires
            card_near(x as int),
            card_fits(scene@, *frame, provider, x as int, dpi),
            dpi <= MAX_DPI,
        ensures
            final(self)@ == old(self)@ + card(
                scene@,
                *frame,
                *strings,
                provider,
                x as int,
                dpi,
            ),
    {
        let ghost start = self@;
        self.card_heading(scene, strings, provider, x, dpi);
        proof {
            reveal(card);
            reveal_with_fuel(labelled_rows, 4);
            let rows = rows_of(provider);
            assert(rows.len() > 0 ==> row_fits(
                row_of(scene@, *frame, provider, x as int, rows[0], dpi),
                dpi,
            ));
            assert(rows.len() > 1 ==> row_fits(
                row_of(scene@, *frame, provider, x as int, rows[1], dpi),
                dpi,
            ));
            assert(rows.len() > 2 ==> row_fits(
                row_of(scene@, *frame, provider, x as int, rows[2], dpi),
                dpi,
            ));
        }
        match provider {
            Provider::Claude => {
                self.labelled_row(scene, frame, strings, provider, x, ROW1_Y, Slot::Session, dpi);
                self.labelled_row(scene, frame, strings, provider, x, ROW2_Y, Slot::Weekly, dpi);
                self.labelled_row(scene, frame, strings, provider, x, ROW3_Y, Slot::Fable, dpi);
            },
            Provider::Codex => {
                self.labelled_row(
                    scene,
                    frame,
                    strings,
                    provider,
                    x,
                    LONE_ROW_Y,
                    Slot::CodexWeekly,
                    dpi,
                );
            },
            Provider::Antigravity => {
                self.labelled_row(
                    scene,
                    frame,
                    strings,
                    provider,
                    x,
                    ROW1_Y,
                    Slot::AntigravitySession,
                    dpi,
                );
                self.labelled_row(
                    scene,
                    frame,
                    strings,
                    provider,
                    x,
                    ROW2_Y,
                    Slot::AntigravityWeekly,
                    dpi,
                );
            },
        }
        assert(self@ =~= start + card(scene@, *frame, *strings, provider, x as int, dpi));
    }

    fn cards(&mut self, scene: &Scene<String>, frame: &Frame, strings: &Strings, dpi: u32)
        requires
            content_fits(scene@, *frame, dpi),
            dpi <= MAX_DPI,
        ensures
            final(self)@ == old(self)@ + cards(scene@, *frame, *strings, dpi),
    {
        let ghost start = self@;
        let slot: i32 = provider_slot_width(dpi);
        let mut x: i32 = sc(CONTENT_X, dpi);
        assert(is_shown(scene@, Provider::Claude) == scene.claude);
        assert(is_shown(scene@, Provider::Codex) == scene.codex);
        assert(is_shown(scene@, Provider::Antigravity) == scene.antigravity);
        assert(slot * 0 == 0 && slot * 1 == slot && slot * 2 == slot + slot);
        if scene.claude {
            self.provider_card(scene, frame, strings, Provider::Claude, x, dpi);
            x = x + slot;
        }
        if scene.codex {
            self.provider_card(scene, frame, strings, Provider::Codex, x, dpi);
            x = x + slot;
        }
        if scene.antigravity {
            self.provider_card(scene, frame, strings, Provider::Antigravity, x, dpi);
        }
        assert(self@ =~= start + cards(scene@, *frame, *strings, dpi));
    }

    fn backdrop(&mut self, scene: &Scene<String>, dpi: u32)
        requires
            dpi <= MAX_DPI,
        ensures
            final(self)@ == old(self)@ + backdrop(scene@, dpi),
    {
        let ghost start = self@;
        let divider_h: i32 = sc(25, dpi);
        let slack: i64 = scene.height as i64 - divider_h as i64;
        let divider_top: i32 = (if slack >= 0 {
            slack / 2
        } else {
            -((0 - slack) / 2)
        }) as i32;
        let (left, right) = if scene.is_dark {
            (color(0x505050), color(0x282828))
        } else {
            (color(0xa0a0a0), color(0xe6e6e6))
        };
        self.push(
            DrawOp::Fill {
                rect: Rect { left: 0, top: 0, right: scene.width, bottom: scene.height },
                color: Tint::Solid(scene.bg),
            },
        );
        self.push(
            DrawOp::Fill {
                rect: Rect {
                    left: 0,
                    top: divider_top,
                    right: sc(2, dpi),
                    bottom: divider_top + divider_h,
                },
                color: Tint::Solid(left),
            },
        );
        self.push(
            DrawOp::Fill {
                rect: Rect {
                    left: sc(2, dpi),
                    top: divider_top,
                    right: sc(3, dpi),
                    bottom: divider_top + divider_h,
                },
                color: Tint::Solid(right),
            },
        );
        assert(self@ =~= start + backdrop(scene@, dpi));
    }

    fn freshness_line(&mut self, scene: &Scene<String>, filled: i32, dpi: u32)
        requires
            scene.width - thin_of(dpi) > scaled(CONTENT_X as int, dpi) && filled > 0 ==> fits(
                scaled(CONTENT_X as int, dpi) + filled,
            ),
            dpi <= MAX_DPI,
        ensures
            final(self)@ == old(self)@ + freshness_line(scene@, filled as int, dpi),
    {
        let ghost start = self@;
        let thin: i32 = thin_line(dpi);
        let x0: i32 = sc(CONTENT_X, dpi);
        if scene.width as i64 - thin as i64 > x0 as i64 {
            let x1: i32 = scene.width - thin;
            let (bg, text) = (Tint::Solid(scene.bg), Tint::Solid(scene.text_color));
            self.fill_box(x0, 0, x1 - x0, thin, mixed(&bg, &text, Weight::Fixed(180)));
            self.fill_box(x0, 0, filled, thin, mixed(&bg, &text, Weight::Fixed(450)));
        }
        assert(self@ =~= start + freshness_line(scene@, filled as int, dpi));
    }
}

/// Draw all widget content.
pub fn paint_content(scene: &Scene<String>, frame: &Frame, strings: &Strings, dpi: u32) -> (canvas:
    Canvas)
    requires
        dpi <= MAX_DPI,
        content_fits(scene@, *frame, dpi),
    ensures
        canvas@ == content(scene@, *frame, *strings, dpi),
{
    let mut canvas = Canvas::new();
    canvas.backdrop(scene, dpi);
    canvas.draw_ram_column(
        sc(RAM_X, dpi),
        frame.ram,
        scene.is_dark,
        &Tint::Solid(scene.bg),
        frame.breath,
        dpi,
    );
    canvas.cards(scene, frame, strings, dpi);
    canvas.freshness_line(scene, frame.freshness, dpi);
    assert(canvas@ =~= content(scene@, *frame, *strings, dpi));
    canvas
}

/// Content whose lengths are modest has coordinates within 32 bits.
pub proof fn law_modest_content_fits(s: SceneModel, f: Frame, dpi: u32)
    requires
        dpi <= MAX_DPI,
        near(s.height as int),
        f.modest(),
    ensures
        content_fits(s, f, dpi),
{
    assert forall|provider: Provider| #[trigger] is_shown(s, provider) implies card_fits(
        s,
        f,
        provider,
        card_left(s, provider, dpi),
        dpi,
    ) by {
        lemma_card_left(s, provider, dpi);
        lemma_modest_card(s, f, provider, card_left(s, provider, dpi), dpi);
    }
    lemma_lengths_fit(CONTENT_X as int, dpi);
    lemma_lengths_fit(RAM_X as int, dpi);
}

proof fn lemma_card_left(s: SceneModel, provider: Provider, dpi: u32)
    requires
        dpi <= MAX_DPI,
    ensures
        card_near(card_left(s, provider, dpi)),
{
    let slot = slot_width(dpi);
    assert(slot * 0 == 0 && slot * 1 == slot && slot * 2 == slot + slot);
}

proof fn lemma_modest_card(s: SceneModel, f: Frame, provider: Provider, x: int, dpi: u32)
    requires
        dpi <= MAX_DPI,
        near(s.height as int),
        f.modest(),
        card_near(x),
    ensures
        card_fits(s, f, provider, x, dpi),
{
    lemma_lengths_fit(1, dpi);
    lemma_lengths_fit(LABEL_W as int, dpi);
    assert(scaled(LABEL_W as int, dpi) <= 0x800_0000);
    assert forall|i: int| 0 <= i < rows_of(provider).len() implies row_fits(
        row_of(s, f, provider, x, #[trigger] rows_of(provider)[i], dpi),
        dpi,
    ) by {
        let row = rows_of(provider)[i];
        lemma_lengths_fit(row.0, dpi);
        assert(near(f.shown.at(row.1).fill as int));
        lemma_modest_row(row_of(s, f, provider, x, row, dpi), dpi);
    }
}

/// The cards of a widget end where it does: the last one exactly, the others
/// before it.
pub proof fn law_cards_fill_the_widget(n: int, k: int, dpi: u32)
    requires
        0 <= k < n,
    ensures
        ({
            let right = scaled(CONTENT_X as int, dpi) + slot_width(dpi) * k + scaled(
                PROVIDER_W as int,
                dpi,
            );
            &&& right <= widget_width(n, dpi)
            &&& k == n - 1 ==> right == widget_width(n, dpi)
        }),
{
    let slot = slot_width(dpi);
    assert(slot * k + slot <= slot * n && (k == n - 1 ==> slot * k + slot == slot * n))
        by (nonlinear_arith)
        requires
            0 <= slot,
            0 <= k < n,
    ;
}

/// A text that a drawing shows.
pub open spec fn shows_text(ops: Seq<Op>, text: Seq<char>) -> bool {
    exists|i: int|
        0 <= i < ops.len() && (#[trigger] ops[i] matches DrawOp::Text { text: t, .. } && t == text)
}

/// Every card names its provider, whatever its colours are.
pub proof fn law_cards_name_their_provider(
    s: SceneModel,
    f: Frame,
    strings: Strings,
    provider: Provider,
    x: int,
    dpi: u32,
)
    requires
        strings.claude_card@.len() > 0,
    ensures
        shows_text(card(s, f, strings, provider, x, dpi), card_name(strings, provider)),
        card_name(strings, Provider::Codex) == "CODEX"@,
        card_name(strings, Provider::Antigravity) == "ANTIGRAVITY"@,
{
    reveal(card);
    reveal(card_heading);
    reveal_strlit("CODEX");
    reveal_strlit("ANTIGRAVITY");
    let accent = Tint::Solid(accent_of(s, provider));
    let mark = boxed(x + scaled(6, dpi), scaled(5, dpi), scaled(3, dpi), scaled(3, dpi), accent);
    let at = 1 + mark.len() as int;
    let ops = card(s, f, strings, provider, x, dpi);
    assert(ops[at] matches DrawOp::Text { text: t, .. } && t == card_name(strings, provider));
}

/// Each card shows its own provider's windows and no other's; Codex shows only
/// its weekly quota, and the extra quota row comes with the first provider.
pub proof fn law_rows_belong_to_their_provider(i: int)
    ensures
        rows_of(Provider::Codex) == seq![(LONE_ROW_Y as int, Slot::CodexWeekly)],
        0 <= i < rows_of(Provider::Claude).len() ==> (rows_of(Provider::Claude)[i].1
            == Slot::Session || rows_of(Provider::Claude)[i].1 == Slot::Weekly || rows_of(
            Provider::Claude,
        )[i].1 == Slot::Fable),
        0 <= i < rows_of(Provider::Antigravity).len() ==> (rows_of(Provider::Antigravity)[i].1
            == Slot::AntigravitySession || rows_of(Provider::Antigravity)[i].1
            == Slot::AntigravityWeekly),
        rows_of(Provider::Claude).len() == 3,
{
}

/// A widget without providers has no cards.
pub proof fn law_hidden_providers_draw_nothing(s: SceneModel, f: Frame, strings: Strings, dpi: u32)
    requires
        !s.claude,
        !s.codex,
        !s.antigravity,
    ensures
        cards(s, f, strings, dpi).len() == 0,
{
}

/// A labelled row says its window's label, then the figure of that window's own
/// percentage, then that window's own countdown.
pub proof fn law_rows_say_their_own_window(
    s: SceneModel,
    f: Frame,
    strings: Strings,
    provider: Provider,
    x: int,
    row: (int, Slot),
    dpi: u32,
)
    requires
        label_of(s, strings, row.1).len() > 0,
    ensures
        written(labelled_row(s, f, strings, provider, x, row, dpi)) == seq![
            label_of(s, strings, row.1),
            figure_text(f.shown.at(row.1).percent, s.texts.at(row.1)),
            label_text(s.texts.at(row.1)),
        ],
{
    reveal(labelled_row);
    let y = scaled(row.0, dpi);
    let r = area(
        x + scaled(6, dpi),
        y,
        x + scaled(LABEL_W as int, dpi) - scaled(3, dpi),
        y + scaled(ROW_H as int, dpi),
    );
    let label = lettered(
        r,
        label_of(s, strings, row.1),
        quiet_tint(s, provider),
        day_font(dpi),
        Align::Left,
    );
    let o = row_of(s, f, provider, x, row, dpi);
    lemma_says_itself(
        r,
        label_of(s, strings, row.1),
        quiet_tint(s, provider),
        day_font(dpi),
        Align::Left,
    );
    law_rows_say_their_reading(o, strings, dpi);
    lemma_written_add(label, numeric_row(o, strings, dpi));
    assert(written(labelled_row(s, f, strings, provider, x, row, dpi)) =~= seq![
        label_of(s, strings, row.1),
        figure_text(f.shown.at(row.1).percent, s.texts.at(row.1)),
        label_text(s.texts.at(row.1)),
    ]);
}

proof fn lemma_heading_says(
    s: SceneModel,
    strings: Strings,
    provider: Provider,
    x: int,
    dpi: u32,
)
    requires
        strings.claude_card@.len() > 0,
    ensures
        written(card_heading(s, strings, provider, x, dpi)) == seq![
            card_name(strings, provider),
            "USED / RESET IN"@,
        ],
{
    reveal(card_heading);
    reveal_strlit("CODEX");
    reveal_strlit("ANTIGRAVITY");
    reveal_strlit("USED / RESET IN");
    let accent = Tint::Solid(accent_of(s, provider));
    let body = rounded(
        area(x, scaled(1, dpi), x + scaled(PROVIDER_W as int, dpi), s.height - scaled(1, dpi)),
        card_tint(s, provider),
        scaled(4, dpi),
    ) + boxed(x + scaled(6, dpi), scaled(5, dpi), scaled(3, dpi), scaled(3, dpi), accent);
    let a = area(x + scaled(13, dpi), scaled(1, dpi), x + scaled(83, dpi), scaled(12, dpi));
    let b = area(x + scaled(86, dpi), scaled(1, dpi), x + scaled(166, dpi), scaled(12, dpi));
    let name = lettered(a, card_name(strings, provider), accent, day_font_bold(dpi), Align::Left);
    let used = lettered(
        b,
        "USED / RESET IN"@,
        quiet_tint(s, provider),
        day_font(dpi),
        Align::Right,
    );
    lemma_says_nothing(body);
    lemma_says_itself(a, card_name(strings, provider), accent, day_font_bold(dpi), Align::Left);
    lemma_says_itself(
        b,
        "USED / RESET IN"@,
        quiet_tint(s, provider),
        day_font(dpi),
        Align::Right,
    );
    lemma_written_add(body, name);
    lemma_written_add(body + name, used);
    assert(written(card_heading(s, strings, provider, x, dpi)) =~= seq![
        card_name(strings, provider),
        "USED / RESET IN"@,
    ]);
}

/// What one row of a card says.
pub open spec fn row_says(
    label: Seq<char>,
    shown: Shown,
    text: Seq<char>,
) -> Seq<Seq<char>> {
    seq![label, figure_text(shown.percent, text), label_text(text)]
}

/// A card says its provider's name and then, window by window, the label, the
/// percentage and the countdown of that window: the session, the week and Fable
/// for the first provider, the week for Codex, the quota and the extra quota
/// for Antigravity. A window's figure is that of its own reading.
pub proof fn law_cards_say_their_windows(
    s: SceneModel,
    f: Frame,
    strings: Strings,
    x: int,
    dpi: u32,
)
    requires
        strings.claude_card@.len() > 0,
        strings.session_window@.len() > 0,
        strings.weekly_window@.len() > 0,
    ensures
        written(card(s, f, strings, Provider::Claude, x, dpi)) == seq![
            strings.claude_card@,
            "USED / RESET IN"@,
        ] + row_says(strings.session_window@, f.shown.session, s.texts.session) + row_says(
            strings.weekly_window@,
            f.shown.weekly,
            s.texts.weekly,
        ) + row_says("Fable"@, f.shown.fable, s.texts.fable),
        written(card(s, f, strings, Provider::Codex, x, dpi)) == seq![
            "CODEX"@,
            "USED / RESET IN"@,
        ] + row_says(
            label_of(s, strings, Slot::CodexWeekly),
            f.shown.codex_weekly,
            s.texts.codex_weekly,
        ),
        written(card(s, f, strings, Provider::Antigravity, x, dpi)) == seq![
            "ANTIGRAVITY"@,
            "USED / RESET IN"@,
        ] + row_says("Quota"@, f.shown.antigravity_session, s.texts.antigravity_session)
            + row_says("Extra"@, f.shown.antigravity_weekly, s.texts.antigravity_weekly),
{
    reveal(card);
    reveal_with_fuel(labelled_rows, 4);
    reveal_strlit("Fable");
    reveal_strlit("Quota");
    reveal_strlit("Extra");
    lemma_codex_has_a_label(s, strings);
    lemma_claude_card_says(s, f, strings, x, dpi);
    let c = Provider::Codex;
    let codex = (21int, Slot::CodexWeekly);
    lemma_heading_says(s, strings, c, x, dpi);
    law_rows_say_their_own_window(s, f, strings, c, x, codex, dpi);
    let head = card_heading(s, strings, c, x, dpi);
    let row = labelled_row(s, f, strings, c, x, codex, dpi);
    lemma_written_add(head, row);
    assert(card(s, f, strings, c, x, dpi) =~= head + row);
    let a = Provider::Antigravity;
    let quota = (13int, Slot::AntigravitySession);
    let extra = (29int, Slot::AntigravityWeekly);
    lemma_heading_says(s, strings, a, x, dpi);
    law_rows_say_their_own_window(s, f, strings, a, x, quota, dpi);
    law_rows_say_their_own_window(s, f, strings, a, x, extra, dpi);
    let head_a = card_heading(s, strings, a, x, dpi);
    let row_q = labelled_row(s, f, strings, a, x, quota, dpi);
    let row_e = labelled_row(s, f, strings, a, x, extra, dpi);
    lemma_written_add(head_a, row_q);
    lemma_written_add(head_a + row_q, row_e);
    assert(card(s, f, strings, a, x, dpi) =~= head_a + row_q + row_e);
}

proof fn lemma_claude_card_says(s: SceneModel, f: Frame, strings: Strings, x: int, dpi: u32)
    requires
        strings.claude_card@.len() > 0,
        strings.session_window@.len() > 0,
        strings.weekly_window@.len() > 0,
    ensures
        written(card(s, f, strings, Provider::Claude, x, dpi)) == seq![
            strings.claude_card@,
            "USED / RESET IN"@,
        ] + row_says(strings.session_window@, f.shown.session, s.texts.session) + row_says(
            strings.weekly_window@,
            f.shown.weekly,
            s.texts.weekly,
        ) + row_says("Fable"@, f.shown.fable, s.texts.fable),
{
    reveal(card);
    reveal_with_fuel(labelled_rows, 4);
    reveal_strlit("Fable");
    let p = Provider::Claude;
    let session = (13int, Slot::Session);
    let weekly = (29int, Slot::Weekly);
    let fable = (45int, Slot::Fable);
    lemma_heading_says(s, strings, p, x, dpi);
    law_rows_say_their_own_window(s, f, strings, p, x, session, dpi);
    law_rows_say_their_own_window(s, f, strings, p, x, weekly, dpi);
    law_rows_say_their_own_window(s, f, strings, p, x, fable, dpi);
    let head = card_heading(s, strings, p, x, dpi);
    let row1 = labelled_row(s, f, strings, p, x, session, dpi);
    let row2 = labelled_row(s, f, strings, p, x, weekly, dpi);
    let row3 = labelled_row(s, f, strings, p, x, fable, dpi);
    lemma_written_add(head, row1);
    lemma_written_add(head + row1, row2);
    lemma_written_add(head + row1 + row2, row3);
    assert(card(s, f, strings, p, x, dpi) =~= head + row1 + row2 + row3);
}

proof fn lemma_codex_has_a_label(s: SceneModel, strings: Strings)
    ensures
        label_of(s, strings, Slot::CodexWeekly).len() > 0,
{
    reveal_strlit("7d");
    reveal_strlit("d");
    reveal_strlit("h");
    reveal_strlit("m");
}

/// The whole widget says what its shown cards say, in card order, and nothing
/// else.
pub proof fn law_the_widget_says_what_its_cards_say(
    s: SceneModel,
    f: Frame,
    strings: Strings,
    dpi: u32,
)
    ensures
        written(content(s, f, strings, dpi)) == (if s.claude {
            written(
                card(s, f, strings, Provider::Claude, card_left(s, Provider::Claude, dpi), dpi),
            )
        } else {
            Seq::empty()
        }) + (if s.codex {
            written(card(s, f, strings, Provider::Codex, card_left(s, Provider::Codex, dpi), dpi))
        } else {
            Seq::empty()
        }) + (if s.antigravity {
            written(
                card(
                    s,
                    f,
                    strings,
                    Provider::Antigravity,
                    card_left(s, Provider::Antigravity, dpi),
                    dpi,
                ),
            )
        } else {
            Seq::empty()
        }),
{
    let memory = ram_column(
        scaled(RAM_X as int, dpi),
        f.ram,
        s.is_dark,
        Tint::Solid(s.bg),
        f.breath,
        dpi,
    );
    lemma_says_nothing(backdrop(s, dpi));
    lemma_memory_says_nothing(
        scaled(RAM_X as int, dpi),
        f.ram,
        s.is_dark,
        Tint::Solid(s.bg),
        f.breath,
        dpi,
    );
    lemma_says_nothing(freshness_line(s, f.freshness as int, dpi));
    let (a, b, c) = (
        shown_card(s, f, strings, Provider::Claude, dpi),
        shown_card(s, f, strings, Provider::Codex, dpi),
        shown_card(s, f, strings, Provider::Antigravity, dpi),
    );
    lemma_written_add(a, b);
    lemma_written_add(a + b, c);
    lemma_written_add(backdrop(s, dpi), memory);
    lemma_written_add(backdrop(s, dpi) + memory, cards(s, f, strings, dpi));
    lemma_written_add(
        backdrop(s, dpi) + memory + cards(s, f, strings, dpi),
        freshness_line(s, f.freshness as int, dpi),
    );
    assert(written(content(s, f, strings, dpi)) =~= written(a) + written(b) + written(c));
}

/// Windows do not mix: frames that agree on one window's reading and pace draw
/// that window's row alike, whatever the other windows hold.
pub proof fn law_windows_do_not_mix(
    s: SceneModel,
    f: Frame,
    g: Frame,
    strings: Strings,
    provider: Provider,
    x: int,
    row: (int, Slot),
    dpi: u32,
)
    requires
        f.shown.at(row.1) == g.shown.at(row.1),
        f.session_pace == g.session_pace,
        f.weekly_pace == g.weekly_pace,
    ensures
        labelled_row(s, f, strings, provider, x, row, dpi) == labelled_row(
            s,
            g,
            strings,
            provider,
            x,
            row,
            dpi,
        ),
{
    reveal(labelled_row);
}

/// A window's row draws that window's own reading, pace and countdown, in the
/// provider's own colours; only the first provider's session and weekly windows
/// have a pace.
pub proof fn law_rows_draw_their_own_window(
    s: SceneModel,
    f: Frame,
    provider: Provider,
    x: int,
    y: int,
    dpi: u32,
)
    ensures
        ({
            let o = row_of(s, f, provider, x, (y, Slot::Session), dpi);
            o.shown == f.shown.session && o.time_text == s.texts.session && o.pace
                == f.session_pace
        }),
        ({
            let o = row_of(s, f, provider, x, (y, Slot::Weekly), dpi);
            o.shown == f.shown.weekly && o.time_text == s.texts.weekly && o.pace == f.weekly_pace
        }),
        ({
            let o = row_of(s, f, provider, x, (y, Slot::Fable), dpi);
            o.shown == f.shown.fable && o.time_text == s.texts.fable && o.pace is None
        }),
        ({
            let o = row_of(s, f, provider, x, (y, Slot::CodexSession), dpi);
            o.shown == f.shown.codex_session && o.time_text == s.texts.codex_session && o.pace
                is None
        }),
        ({
            let o = row_of(s, f, provider, x, (y, Slot::CodexWeekly), dpi);
            o.shown == f.shown.codex_weekly && o.time_text == s.texts.codex_weekly && o.pace
                is None
        }),
        ({
            let o = row_of(s, f, provider, x, (y, Slot::AntigravitySession), dpi);
            o.shown == f.shown.antigravity_session && o.time_text == s.texts.antigravity_session
                && o.pace is None
        }),
        ({
            let o = row_of(s, f, provider, x, (y, Slot::AntigravityWeekly), dpi);
            o.shown == f.shown.antigravity_weekly && o.time_text == s.texts.antigravity_weekly
                && o.pace is None
        }),
        s.appearance.mode == Mode::Custom ==> row_of(
            s,
            f,
            provider,
            x,
            (y, Slot::Session),
            dpi,
        ).base.mid == Tint::Solid(accent_of(s, provider)),
{
}

/// In Custom mode each provider wears its own accent of the user's five
/// colours, and the text is in the second one.
pub proof fn law_accents_belong_to_their_provider(s: SceneModel)
    requires
        s.appearance.mode == Mode::Custom,
    ensures
        accent_of(s, Provider::Claude) == color_of(s.appearance.colors@[2]),
        accent_of(s, Provider::Codex) == color_of(s.appearance.colors@[3]),
        accent_of(s, Provider::Antigravity) == color_of(s.appearance.colors@[4]),
        ink_of(s) == Tint::Solid(color_of(s.appearance.colors@[1])),
{
}

/// The shown cards stand side by side without overlapping, from the content's
/// left edge to the widget's right one.
pub proof fn law_cards_stand_side_by_side(s: SceneModel, dpi: u32)
    ensures
        s.claude ==> card_left(s, Provider::Claude, dpi) == scaled(28, dpi),
        s.claude && s.codex ==> card_left(s, Provider::Codex, dpi) == card_left(
            s,
            Provider::Claude,
            dpi,
        ) + scaled(174, dpi) + scaled(8, dpi),
        s.codex && s.antigravity ==> card_left(s, Provider::Antigravity, dpi) == card_left(
            s,
            Provider::Codex,
            dpi,
        ) + scaled(174, dpi) + scaled(8, dpi),
        s.claude && !s.codex && s.antigravity ==> card_left(s, Provider::Antigravity, dpi)
            == card_left(s, Provider::Claude, dpi) + scaled(174, dpi) + scaled(8, dpi),
        !s.claude && s.codex ==> card_left(s, Provider::Codex, dpi) == scaled(28, dpi),
        !s.claude && !s.codex ==> card_left(s, Provider::Antigravity, dpi) == scaled(28, dpi),
        s.antigravity ==> card_left(s, Provider::Antigravity, dpi) + scaled(174, dpi)
            == widget_width(shown_count(s.claude, s.codex, s.antigravity), dpi),
{
    let slot = slot_width(dpi);
    assert(slot * 0 == 0 && slot * 1 == slot && slot * 2 == slot + slot && slot * 3 == slot + slot
        + slot);
}

/// The background covers the whole widget in the scene's own colour, beneath
/// everything else.
pub proof fn law_the_background_lies_beneath(s: SceneModel, f: Frame, strings: Strings, dpi: u32)
    ensures
        ({
            let ops = content(s, f, strings, dpi);
            &&& ops.len() > 0
            &&& ops[0] matches DrawOp::Fill { rect, color } && rect == (Rect {
                left: 0,
                top: 0,
                right: s.width,
                bottom: s.height,
            }) && color == Tint::Solid(s.bg)
        }),
{
}

/// The freshness hairline is filled by as many pixels as the frame says, from
/// the content's left edge.
pub proof fn law_freshness_fills_from_the_left(s: SceneModel, f: Frame, strings: Strings, dpi: u32)
    requires
        s.width - thin_of(dpi) > scaled(28, dpi),
        f.freshness > 0,
    ensures
        ({
            let ops = content(s, f, strings, dpi);
            ops.last() matches DrawOp::Fill { rect, .. } && rect == area(
                scaled(28, dpi),
                0,
                scaled(28, dpi) + f.freshness,
                thin_of(dpi),
            )
        }),
{
    let line = freshness_line(s, f.freshness as int, dpi);
    assert(content(s, f, strings, dpi).last() == line.last());
}

/// The label, the figure and the countdown of a window stand on one line.
pub proof fn law_labels_stand_on_the_line(
    s: SceneModel,
    f: Frame,
    strings: Strings,
    provider: Provider,
    x: int,
    row: (int, Slot),
    dpi: u32,
)
    requires
        label_of(s, strings, row.1).len() > 0,
        row_fits(row_of(s, f, provider, x, row, dpi), dpi),
    ensures
        ({
            let ops = labelled_row(s, f, strings, provider, x, row, dpi);
            &&& ops.len() >= 3
            &&& ops[0] matches DrawOp::Text { rect: a, text: label, .. } && ops[1] matches DrawOp::Text {
                rect: b,
                text: figure,
                ..
            } && ops[2] matches DrawOp::Text { rect: c, text: reset, .. } && {
                &&& label == label_of(s, strings, row.1)
                &&& figure == figure_text(f.shown.at(row.1).percent, s.texts.at(row.1))
                &&& reset == label_text(s.texts.at(row.1))
                &&& a.top == b.top == c.top
                &&& a.bottom == b.bottom == c.bottom
            }
        }),
{
    reveal(labelled_row);
    let o = row_of(s, f, provider, x, row, dpi);
    law_figures_stand_before_countdowns(o, strings, dpi);
    let ops = labelled_row(s, f, strings, provider, x, row, dpi);
    assert(ops[1] == numeric_row(o, strings, dpi)[0]);
    assert(ops[2] == numeric_row(o, strings, dpi)[1]);
}

/// Codex labels its row by the length its weekly window reports, and by seven
/// days where it reports none; the label never comes from its short window.
pub proof fn law_codex_labels_its_weekly_window(s: SceneModel, strings: Strings, u: UsageSection)
    ensures
        s.data is None || s.data->0.codex is None ==> label_of(s, strings, Slot::CodexWeekly)
            == "7d"@,
        s.data is Some && s.data->0.codex is Some && s.data->0.codex->0.weekly == u
            ==> label_of(s, strings, Slot::CodexWeekly) == section_label(Some(&u), "7d"@),
        s.data is Some && s.data->0.codex is Some && s.data->0.codex->0.session == u
            ==> label_of(s, strings, Slot::CodexSession) == section_label(Some(&u), "5h"@),
{
}

/// A calm gauge wears its own provider's colours.
pub proof fn law_calm_gauges_wear_their_providers_colours(s: SceneModel)
    ensures
        s.appearance.mode != Mode::Custom ==> base_led(s, Provider::Claude).mid == Tint::Solid(
            Color { r: 0x22, g: 0xd3, b: 0xee },
        ),
        s.appearance.mode != Mode::Custom ==> base_led(s, Provider::Antigravity).mid
            == Tint::Solid(Color { r: 0x42, g: 0x85, b: 0xf4 }),
        s.appearance.mode != Mode::Custom ==> base_led(s, Provider::Codex).mid == Tint::Solid(
            if s.is_dark {
                Color { r: 0xe5, g: 0xe7, b: 0xeb }
            } else {
                Color { r: 0x4b, g: 0x55, b: 0x63 }
            },
        ),
        s.appearance.mode == Mode::Custom ==> base_led(s, Provider::Codex).mid == Tint::Solid(
            color_of(s.appearance.colors@[3]),
        ),
{
}

/// The drag handle is two hairlines at the left edge, as far from the top as
/// from the bottom to the pixel, the outer one the stronger against the
/// background.
pub proof fn law_the_handle_is_drawn_where_it_is(s: SceneModel, dpi: u32)
    requires
        dpi <= MAX_DPI,
        scaled(25, dpi) <= s.height,
    ensures
        ({
            let ops = backdrop(s, dpi);
            let (outer, inner) = if s.is_dark {
                (0x50u8, 0x28u8)
            } else {
                (0xa0u8, 0xe6u8)
            };
            &&& ops.len() == 3
            &&& ops[1] is Fill && ops[2] is Fill
            &&& ops[1]->Fill_rect.left == 0
            &&& ops[1]->Fill_rect.right == scaled(2, dpi)
            &&& ops[2]->Fill_rect.left == scaled(2, dpi)
            &&& ops[2]->Fill_rect.right == scaled(3, dpi)
            &&& ops[1]->Fill_rect.top == ops[2]->Fill_rect.top
            &&& ops[1]->Fill_rect.bottom == ops[2]->Fill_rect.bottom
            &&& ops[1]->Fill_rect.bottom - ops[1]->Fill_rect.top == scaled(25, dpi)
            &&& 0 <= (s.height - ops[1]->Fill_rect.bottom) - ops[1]->Fill_rect.top <= 1
            &&& ops[1]->Fill_color == Tint::Solid(Color { r: outer, g: outer, b: outer })
            &&& ops[2]->Fill_color == Tint::Solid(Color { r: inner, g: inner, b: inner })
        }),
{
    lemma_lengths_fit(25, dpi);
    lemma_lengths_fit(2, dpi);
    lemma_lengths_fit(3, dpi);
}

/// The handle is drawn over the background and beneath everything else.
pub proof fn law_the_handle_is_drawn_first(s: SceneModel, f: Frame, strings: Strings, dpi: u32)
    ensures
        content(s, f, strings, dpi).len() >= 3,
        content(s, f, strings, dpi).take(3) == backdrop(s, dpi),
{
    assert(content(s, f, strings, dpi).take(3) =~= backdrop(s, dpi));
}

} // verus!
