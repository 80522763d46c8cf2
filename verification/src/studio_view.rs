//! What the Appearance Studio draws: its backdrop with a colour preview, and
//! its buttons.
use crate::appearance::{preset_colors, preset_colors_of, preset_name, preset_name_of, Appearance, Mode};
use crate::color::{color_of, packed, rgb, Color};
use crate::draw::{
    area, font_of, lemma_says_itself, lemma_says_nothing, lemma_written_add, lettered, make_font,
    rounded, written, Align, Canvas, DrawOp, Op, Tint, FW_BOLD,
    FW_MEDIUM, FW_NORMAL, FW_SEMIBOLD,
};
use crate::geometry::{law_scaling_is_monotone, lemma_lengths_fit, sc, scaled, Rect, MAX_DPI};
use crate::led::{solid, tint};
use crate::strings::Strings;
use crate::studio::{
    field_name, field_name_of, mode_at, mode_name, mode_name_of, mode_of, rect, requested,
    studio_area, ID_DONE, ID_RESET, ID_UNDO, STUDIO_H, STUDIO_W,
};
use crate::text::{hex6, hex6_text};
use vstd::prelude::*;
use vstd::string::*;

verus! {

/// The studio's background.
pub const BACKDROP: u32 = 0x11151e;

/// Headings, and names on buttons.
pub const MUTED: u32 = 0x9ca8bc;

pub const BRIGHT: u32 = 0xe8edf6;

/// A line of text in a size designed at 96 DPI.
pub open spec fn labelled(
    r: Rect,
    text: Seq<char>,
    color: Tint,
    size: int,
    weight: u32,
    dpi: u32,
) -> Seq<Op> {
    lettered(r, text, color, font_of(-size, weight, dpi), Align::LeftVerbatim)
}

impl Canvas {
    pub fn label(&mut self, r: Rect, text: &str, color: Tint, size: i32, weight: u32, dpi: u32)
        requires
            size > i32::MIN,
        ensures
            final(self)@ == old(self)@ + labelled(r, text@, color, size as int, weight, dpi),
    {
        self.draw_text_in(r, text, color, make_font(-size, weight, dpi), Align::LeftVerbatim);
    }
}

/// One of the two sample columns of the colour preview, explicitly labelled as
/// sample usage.
pub open spec fn sample(
    x: int,
    name: Seq<char>,
    usage: Seq<char>,
    reset: Seq<char>,
    filled: int,
    accent: Tint,
    ink: Tint,
    dpi: u32,
) -> Seq<Op> {
    labelled(studio_area(x, 239, 180, 14, dpi), name, accent, 10, FW_SEMIBOLD, dpi) + labelled(
        studio_area(x, 258, 64, 28, dpi),
        usage,
        ink,
        24,
        FW_SEMIBOLD,
        dpi,
    ) + labelled(studio_area(x + 66, 263, 130, 20, dpi), reset, ink, 10, FW_NORMAL, dpi) + rounded(
        studio_area(x, 292, 192, 2, dpi),
        solid(0x515966),
        scaled(1, dpi),
    ) + rounded(studio_area(x, 292, filled, 2, dpi), accent, scaled(1, dpi))
}

/// Title and mode heading.
pub open spec fn studio_title(dpi: u32) -> Seq<Op> {
    rounded(studio_area(0, 0, STUDIO_W as int, STUDIO_H as int, dpi), solid(BACKDROP), 0)
        + labelled(
        studio_area(24, 20, 440, 36, dpi),
        "A little more you."@,
        solid(0xf2f4fa),
        28,
        FW_SEMIBOLD,
        dpi,
    ) + labelled(
        studio_area(24, 61, 440, 20, dpi),
        "Your usage. Your colors. No restart."@,
        solid(MUTED),
        12,
        FW_NORMAL,
        dpi,
    ) + labelled(
        studio_area(24, 94, 320, 18, dpi),
        "01  /  CHOOSE YOUR MODE"@,
        solid(MUTED),
        10,
        FW_SEMIBOLD,
        dpi,
    )
}

/// The preview: the background in force, with two samples.
pub open spec fn studio_preview(palette: Seq<Color>, strings: Strings, dpi: u32) -> Seq<Op> {
    let ink = Tint::Solid(palette[1]);
    rounded(studio_area(24, 204, 440, 102, dpi), Tint::Solid(palette[0]), scaled(10, dpi))
        + labelled(
        studio_area(40, 214, 400, 16, dpi),
        "COLOR PREVIEW  /  sample usage"@,
        ink,
        9,
        FW_MEDIUM,
        dpi,
    ) + sample(
        40,
        strings.claude_card@,
        "32%"@,
        "resets in 3h 12m"@,
        61,
        Tint::Solid(palette[2]),
        ink,
        dpi,
    ) + sample(
        254,
        "CODEX"@,
        "58%"@,
        "resets in 4d 8h"@,
        111,
        Tint::Solid(palette[3]),
        ink,
        dpi,
    )
}

/// The headings of the lower half.
pub open spec fn studio_headings(dpi: u32) -> Seq<Op> {
    labelled(
        studio_area(24, 319, 430, 18, dpi),
        "02  /  START WITH A PALETTE"@,
        solid(MUTED),
        10,
        FW_SEMIBOLD,
        dpi,
    ) + labelled(
        studio_area(24, 415, 440, 18, dpi),
        "03  /  MAKE IT YOURS"@,
        solid(MUTED),
        10,
        FW_SEMIBOLD,
        dpi,
    ) + labelled(
        studio_area(24, 516, 440, 18, dpi),
        "Click a color to mix your own. Warning colors stay meaningful."@,
        solid(0x8e9bae),
        10,
        FW_NORMAL,
        dpi,
    ) + labelled(
        studio_area(246, 555, 100, 18, dpi),
        "Saved as you go"@,
        solid(MUTED),
        10,
        FW_NORMAL,
        dpi,
    )
}

/// Everything the studio draws besides its buttons.
pub open spec fn studio_content(a: Appearance, system_dark: bool, strings: Strings, dpi: u32) -> Seq<
    Op,
> {
    studio_title(dpi) + studio_preview(a.shades(a.dark(system_dark)), strings, dpi)
        + studio_headings(dpi)
}

impl Canvas {
    fn sample(
        &mut self,
        x: i32,
        name: &str,
        usage: &str,
        reset: &str,
        filled: i32,
        accent: Color,
        ink: Color,
        dpi: u32,
    )
        requires
            0 <= x <= 512,
            0 <= filled <= 192,
            dpi <= MAX_DPI,
        ensures
            final(self)@ == old(self)@ + sample(
                x as int,
                name@,
                usage@,
                reset@,
                filled as int,
                Tint::Solid(accent),
                Tint::Solid(ink),
                dpi,
            ),
    {
        let ghost start = self@;
        self.label(rect(x, 239, 180, 14, dpi), name, Tint::Solid(accent), 10, FW_SEMIBOLD, dpi);
        self.label(rect(x, 258, 64, 28, dpi), usage, Tint::Solid(ink), 24, FW_SEMIBOLD, dpi);
        self.label(rect(x + 66, 263, 130, 20, dpi), reset, Tint::Solid(ink), 10, FW_NORMAL, dpi);
        proof {
            lemma_lengths_fit(x + 192, dpi);
            lemma_lengths_fit(x + filled, dpi);
        }
        self.draw_rounded_rect(rect(x, 292, 192, 2, dpi), tint(0x515966), sc(1, dpi));
        self.draw_rounded_rect(rect(x, 292, filled, 2, dpi), Tint::Solid(accent), sc(1, dpi));
        assert(self@ =~= start + sample(
            x as int,
            name@,
            usage@,
            reset@,
            filled as int,
            Tint::Solid(accent),
            Tint::Solid(ink),
            dpi,
        ));
    }

    fn studio_title(&mut self, dpi: u32)
        requires
            dpi <= MAX_DPI,
        ensures
            final(self)@ == old(self)@ + studio_title(dpi),
    {
        let ghost start = self@;
        self.draw_rounded_rect(rect(0, 0, STUDIO_W, STUDIO_H, dpi), tint(BACKDROP), 0);
        self.label(
            rect(24, 20, 440, 36, dpi),
            "A little more you.",
            tint(0xf2f4fa),
            28,
            FW_SEMIBOLD,
            dpi,
        );
        self.label(
            rect(24, 61, 440, 20, dpi),
            "Your usage. Your colors. No restart.",
            tint(MUTED),
            12,
            FW_NORMAL,
            dpi,
        );
        self.label(
            rect(24, 94, 320, 18, dpi),
            "01  /  CHOOSE YOUR MODE",
            tint(MUTED),
            10,
            FW_SEMIBOLD,
            dpi,
        );
        assert(self@ =~= start + studio_title(dpi));
    }

    fn studio_preview(&mut self, palette: &[Color; 5], strings: &Strings, dpi: u32)
        requires
            dpi <= MAX_DPI,
        ensures
            final(self)@ == old(self)@ + studio_preview(palette@, *strings, dpi),
    {
        let ghost start = self@;
        let ink = palette[1];
        self.draw_rounded_rect(
            rect(24, 204, 440, 102, dpi),
            Tint::Solid(palette[0]),
            sc(10, dpi),
        );
        self.label(
            rect(40, 214, 400, 16, dpi),
            "COLOR PREVIEW  /  sample usage",
            Tint::Solid(ink),
            9,
            FW_MEDIUM,
            dpi,
        );
        self.sample(
            40,
            strings.claude_card,
            "32%",
            "resets in 3h 12m",
            61,
            palette[2],
            ink,
            dpi,
        );
        self.sample(
            254,
            "CODEX",
            "58%",
            "resets in 4d 8h",
            111,
            palette[3],
            ink,
            dpi,
        );
        assert(self@ =~= start + studio_preview(palette@, *strings, dpi));
    }

    fn studio_headings(&mut self, dpi: u32)
        ensures
            final(self)@ == old(self)@ + studio_headings(dpi),
    {
        let ghost start = self@;
        self.label(
            rect(24, 319, 430, 18, dpi),
            "02  /  START WITH A PALETTE",
            tint(MUTED),
            10,
            FW_SEMIBOLD,
            dpi,
        );
        self.label(
            rect(24, 415, 440, 18, dpi),
            "03  /  MAKE IT YOURS",
            tint(MUTED),
            10,
            FW_SEMIBOLD,
            dpi,
        );
        self.label(
            rect(24, 516, 440, 18, dpi),
            "Click a color to mix your own. Warning colors stay meaningful.",
            tint(0x8e9bae),
            10,
            FW_NORMAL,
            dpi,
        );
        self.label(
            rect(246, 555, 100, 18, dpi),
            "Saved as you go",
            tint(MUTED),
            10,
            FW_NORMAL,
            dpi,
        );
        assert(self@ =~= start + studio_headings(dpi));
    }
}

/// Draw the studio.
pub fn paint(appearance: &Appearance, system_dark: bool, strings: &Strings, dpi: u32) -> (canvas:
    Canvas)
    requires
        dpi <= MAX_DPI,
    ensures
        canvas@ == studio_content(*appearance, system_dark, *strings, dpi),
{
    let palette = appearance.palette(appearance.is_dark(system_dark));
    let mut canvas = Canvas::new();
    canvas.studio_title(dpi);
    canvas.studio_preview(&palette, strings, dpi);
    canvas.studio_headings(dpi);
    assert(canvas@ =~= studio_content(*appearance, system_dark, *strings, dpi));
    canvas
}

/// A button to draw: its control id, its rectangle, and how it is held.
#[derive(Clone, Copy, Debug, PartialEq, Eq, Structural)]
pub struct ButtonItem {
    pub id: u16,
    pub rect: Rect,
    pub focus: bool,
    pub pressed: bool,
}

/// What is drawn up to a distance from a button's top left has coordinates
/// within 32 bits.
pub open spec fn reaches(r: Rect, right: int, down: int, dpi: u32) -> bool {
    &&& r.left + scaled(right, dpi) < i32::MAX
    &&& r.top + scaled(down, dpi) < i32::MAX
}

/// A button's rectangle with `px` taken off every side stays within 32 bits.
pub open spec fn inset_fits(r: Rect, px: int, dpi: u32) -> bool {
    &&& r.left + scaled(px, dpi) <= i32::MAX
    &&& r.top + scaled(px, dpi) <= i32::MAX
    &&& r.right - scaled(px, dpi) >= i32::MIN
    &&& r.bottom - scaled(px, dpi) >= i32::MIN
}

/// How far what is on a button reaches from its top left, at the design size.
pub open spec fn face_extent(id: u16) -> (int, int) {
    if 100 <= id <= 103 {
        (96, 54)
    } else if 110 <= id <= 113 {
        (100, 46)
    } else if 120 <= id <= 124 {
        (76, 60)
    } else {
        (132, 32)
    }
}

/// A button has coordinates within 32 bits: its frame, what is on it, and its
/// focus.
pub open spec fn button_fits(item: ButtonItem, dpi: u32) -> bool {
    &&& item.rect.right < i32::MAX
    &&& item.rect.bottom < i32::MAX
    &&& inset_fits(item.rect, 1, dpi)
    &&& reaches(item.rect, face_extent(item.id).0, face_extent(item.id).1, dpi)
    &&& item.focus ==> inset_fits(item.rect, 4, dpi)
}

/// A part of a button, from its top left.
pub open spec fn local_area(r: Rect, x: int, y: int, w: int, h: int, dpi: u32) -> Rect {
    area(
        r.left + scaled(x, dpi),
        r.top + scaled(y, dpi),
        r.left + scaled(x + w, dpi),
        r.top + scaled(y + h, dpi),
    )
}

/// `r` with `px` taken off every side.
pub open spec fn inset(r: Rect, px: int, dpi: u32) -> Rect {
    area(
        r.left + scaled(px, dpi),
        r.top + scaled(px, dpi),
        r.right - scaled(px, dpi),
        r.bottom - scaled(px, dpi),
    )
}

/// The button stands for what is in force.
pub open spec fn is_selected(id: u16, a: Appearance) -> bool {
    if 100 <= id <= 103 {
        a.mode == mode_of(id - 100)
    } else if 110 <= id <= 113 {
        a.mode == Mode::Custom && a.colors@ == preset_colors_of(id - 110)@
    } else {
        false
    }
}

/// Three colour chips side by side.
pub open spec fn chips(
    r: Rect,
    colors: Seq<Tint>,
    y: int,
    w: int,
    step: int,
    dpi: u32,
) -> Seq<Op> {
    rounded(local_area(r, 12, y, w, 10, dpi), colors[0], scaled(3, dpi)) + rounded(
        local_area(r, 12 + step, y, w, 10, dpi),
        colors[1],
        scaled(3, dpi),
    ) + rounded(local_area(r, 12 + 2 * step, y, w, 10, dpi), colors[2], scaled(3, dpi))
}

/// The chips of a mode button.
pub open spec fn mode_chips(i: int, palette: Seq<Color>) -> Seq<Tint> {
    if i == 0 {
        seq![solid(0xb9c4dd), solid(0xf3f3f3), solid(0x343b4d)]
    } else if i == 1 {
        seq![solid(0xf3f3f3), solid(0xb8c5df), solid(0xe3c4ad)]
    } else if i == 2 {
        seq![solid(0x161c28), solid(0x778aad), solid(0x434f66)]
    } else {
        seq![Tint::Solid(palette[2]), Tint::Solid(palette[3]), Tint::Solid(palette[4])]
    }
}

pub open spec fn mode_face(r: Rect, i: int, selected: bool, palette: Seq<Color>, dpi: u32) -> Seq<Op> {
    chips(r, mode_chips(i, palette), 12, 13, 18, dpi) + labelled(
        local_area(r, 12, 34, 82, 20, dpi),
        mode_name_of(i),
        solid(BRIGHT),
        12,
        FW_SEMIBOLD,
        dpi,
    ) + if selected {
        labelled(local_area(r, 80, 9, 16, 16, dpi), "✓"@, solid(0xa6b9ff), 12, FW_BOLD, dpi)
    } else {
        Seq::empty()
    }
}

pub open spec fn preset_face(r: Rect, i: int, dpi: u32) -> Seq<Op> {
    let colors = preset_colors_of(i)@;
    chips(r, seq![solid(colors[2]), solid(colors[3]), solid(colors[4])], 10, 18, 22, dpi)
        + labelled(
        local_area(r, 12, 28, 88, 18, dpi),
        preset_name_of(i),
        solid(BRIGHT),
        11,
        FW_MEDIUM,
        dpi,
    )
}

pub open spec fn color_face(r: Rect, i: int, palette: Seq<Color>, strings: Strings, dpi: u32) -> Seq<
    Op,
> {
    rounded(local_area(r, 10, 9, 60, 15, dpi), Tint::Solid(palette[i]), scaled(3, dpi)) + labelled(
        local_area(r, 8, 29, 68, 16, dpi),
        field_name_of(strings, i),
        solid(BRIGHT),
        10,
        FW_MEDIUM,
        dpi,
    ) + labelled(
        local_area(r, 8, 46, 68, 14, dpi),
        "#"@ + hex6(packed(palette[i]) as u32),
        solid(MUTED),
        9,
        FW_NORMAL,
        dpi,
    )
}

pub open spec fn plain_face(r: Rect, id: u16, dpi: u32) -> Seq<Op> {
    labelled(
        local_area(r, 12, 0, 120, 32, dpi),
        if id == ID_RESET {
            "Reset"@
        } else if id == ID_UNDO {
            "Undo changes"@
        } else {
            "Done  →"@
        },
        solid(
            if id == ID_DONE {
                0xc0ceff
            } else {
                BRIGHT
            },
        ),
        12,
        FW_SEMIBOLD,
        dpi,
    )
}

/// What is on a button.
pub open spec fn button_face(
    item: ButtonItem,
    a: Appearance,
    palette: Seq<Color>,
    strings: Strings,
    dpi: u32,
) -> Seq<Op> {
    if 100 <= item.id <= 103 {
        mode_face(item.rect, item.id - 100, is_selected(item.id, a), palette, dpi)
    } else if 110 <= item.id <= 113 {
        preset_face(item.rect, item.id - 110, dpi)
    } else if 120 <= item.id <= 124 {
        color_face(item.rect, item.id - 120, palette, strings, dpi)
    } else {
        plain_face(item.rect, item.id, dpi)
    }
}

/// A button's frame, lit when it is selected or focused.
pub open spec fn button_frame(item: ButtonItem, a: Appearance, dpi: u32) -> Seq<Op> {
    rounded(item.rect, solid(BACKDROP), 0) + rounded(
        item.rect,
        solid(
            if is_selected(item.id, a) || item.focus {
                0xa6b9ff
            } else {
                0x343c4d
            },
        ),
        scaled(7, dpi),
    ) + rounded(
        inset(item.rect, 1, dpi),
        solid(
            if item.pressed {
                0x343e57
            } else {
                0x202735
            },
        ),
        scaled(6, dpi),
    )
}

/// A whole button.
pub open spec fn button_content(
    item: ButtonItem,
    a: Appearance,
    system_dark: bool,
    strings: Strings,
    dpi: u32,
) -> Seq<Op> {
    button_frame(item, a, dpi) + button_face(
        item,
        a,
        a.shades(a.dark(system_dark)),
        strings,
        dpi,
    ) + if item.focus {
        seq![DrawOp::FocusRect(inset(item.rect, 4, dpi))]
    } else {
        Seq::empty()
    }
}

/// Whatever is nearer than what fits, fits too.
proof fn lemma_reaches(r: Rect, right: i32, down: i32, dpi: u32)
    requires
        reaches(r, right as int, down as int, dpi),
    ensures
        forall|a: int, b: int|
            0 <= a <= right && 0 <= b <= down ==> #[trigger] reaches(r, a, b, dpi),
{
    assert forall|a: int, b: int| 0 <= a <= right && 0 <= b <= down implies #[trigger] reaches(
        r,
        a,
        b,
        dpi,
    ) by {
        law_scaling_is_monotone(a as i32, right, dpi);
        law_scaling_is_monotone(b as i32, down, dpi);
    }
}

fn local(r: Rect, x: i32, y: i32, w: i32, h: i32, dpi: u32) -> (part: Rect)
    requires
        0 <= x <= 256,
        0 <= y <= 256,
        0 <= w <= 256,
        0 <= h <= 256,
        reaches(r, x + w, y + h, dpi),
    ensures
        part == local_area(r, x as int, y as int, w as int, h as int, dpi),
        part.right < i32::MAX,
        part.bottom < i32::MAX,
{
    proof {
        law_scaling_is_monotone(0, x, dpi);
        law_scaling_is_monotone(0, y, dpi);
        law_scaling_is_monotone(x, (x + w) as i32, dpi);
        law_scaling_is_monotone(y, (y + h) as i32, dpi);
    }
    Rect {
        left: r.left + sc(x, dpi),
        top: r.top + sc(y, dpi),
        right: r.left + sc(x + w, dpi),
        bottom: r.top + sc(y + h, dpi),
    }
}

fn inside_by(r: Rect, px: i32, dpi: u32) -> (inner: Rect)
    requires
        0 <= px,
        inset_fits(r, px as int, dpi),
        r.right < i32::MAX,
        r.bottom < i32::MAX,
    ensures
        inner == inset(r, px as int, dpi),
        inner.right < i32::MAX,
        inner.bottom < i32::MAX,
{
    proof {
        law_scaling_is_monotone(0, px, dpi);
    }
    let d: i32 = sc(px, dpi);
    Rect { left: r.left + d, top: r.top + d, right: r.right - d, bottom: r.bottom - d }
}

fn same_colors(a: &[u32; 5], b: &[u32; 5]) -> (same: bool)
    ensures
        same == (a@ == b@),
{
    let mut i: usize = 0;
    while i < 5
        invariant
            i <= 5,
            forall|j: int| 0 <= j < i ==> a@[j] == b@[j],
        decreases 5 - i,
    {
        if a[i] != b[i] {
            return false;
        }
        i = i + 1;
    }
    assert(a@ =~= b@);
    true
}

fn selected(id: u16, a: &Appearance) -> (yes: bool)
    ensures
        yes == is_selected(id, *a),
{
    if id >= 100 && id <= 103 {
        a.mode == mode_at((id - 100) as usize)
    } else if id >= 110 && id <= 113 {
        a.mode == Mode::Custom && same_colors(&a.colors, &preset_colors((id - 110) as usize))
    } else {
        false
    }
}

impl Canvas {
    fn chips(&mut self, r: Rect, a: Tint, b: Tint, c: Tint, y: i32, w: i32, step: i32, dpi: u32)
        requires
            reaches(r, 12 + 2 * step + w, y + 10, dpi),
            0 <= y <= 100,
            0 <= w <= 100,
            0 <= step <= 100,
            dpi <= MAX_DPI,
        ensures
            final(self)@ == old(self)@ + chips(
                r,
                seq![a, b, c],
                y as int,
                w as int,
                step as int,
                dpi,
            ),
    {
        let ghost start = self@;
        proof {
            lemma_reaches(r, (12 + 2 * step + w) as i32, (y + 10) as i32, dpi);
        }
        self.draw_rounded_rect(local(r, 12, y, w, 10, dpi), a, sc(3, dpi));
        self.draw_rounded_rect(local(r, 12 + step, y, w, 10, dpi), b, sc(3, dpi));
        self.draw_rounded_rect(local(r, 12 + 2 * step, y, w, 10, dpi), c, sc(3, dpi));
        assert(self@ =~= start + chips(
            r,
            seq![a, b, c],
            y as int,
            w as int,
            step as int,
            dpi,
        ));
    }

    fn mode_face(&mut self, r: Rect, i: usize, selected: bool, palette: &[Color; 5], dpi: u32)
        requires
            reaches(r, 96, 54, dpi),
            dpi <= MAX_DPI,
        ensures
            final(self)@ == old(self)@ + mode_face(r, i as int, selected, palette@, dpi),
    {
        let ghost start = self@;
        proof {
            lemma_reaches(r, 96, 54, dpi);
        }
        let (a, b, c) = match i {
            0 => (tint(0xb9c4dd), tint(0xf3f3f3), tint(0x343b4d)),
            1 => (tint(0xf3f3f3), tint(0xb8c5df), tint(0xe3c4ad)),
            2 => (tint(0x161c28), tint(0x778aad), tint(0x434f66)),
            _ => (Tint::Solid(palette[2]), Tint::Solid(palette[3]), Tint::Solid(palette[4])),
        };
        assert(seq![a, b, c] =~= mode_chips(i as int, palette@));
        self.chips(r, a, b, c, 12, 13, 18, dpi);
        self.label(
            local(r, 12, 34, 82, 20, dpi),
            mode_name(i),
            tint(BRIGHT),
            12,
            FW_SEMIBOLD,
            dpi,
        );
        if selected {
            self.label(local(r, 80, 9, 16, 16, dpi), "✓", tint(0xa6b9ff), 12, FW_BOLD, dpi);
        }
        assert(self@ =~= start + mode_face(r, i as int, selected, palette@, dpi));
    }

    fn preset_face(&mut self, r: Rect, i: usize, dpi: u32)
        requires
            reaches(r, 100, 46, dpi),
            i < 4,
            dpi <= MAX_DPI,
        ensures
            final(self)@ == old(self)@ + preset_face(r, i as int, dpi),
    {
        let ghost start = self@;
        proof {
            lemma_reaches(r, 100, 46, dpi);
        }
        let colors = preset_colors(i);
        self.chips(r, tint(colors[2]), tint(colors[3]), tint(colors[4]), 10, 18, 22, dpi);
        self.label(
            local(r, 12, 28, 88, 18, dpi),
            preset_name(i),
            tint(BRIGHT),
            11,
            FW_MEDIUM,
            dpi,
        );
        assert(self@ =~= start + preset_face(r, i as int, dpi));
    }

    fn color_face(
        &mut self,
        r: Rect,
        i: usize,
        palette: &[Color; 5],
        strings: &Strings,
        dpi: u32,
    )
        requires
            reaches(r, 76, 60, dpi),
            i < 5,
            dpi <= MAX_DPI,
        ensures
            final(self)@ == old(self)@ + color_face(r, i as int, palette@, *strings, dpi),
    {
        let ghost start = self@;
        proof {
            lemma_reaches(r, 76, 60, dpi);
        }
        self.draw_rounded_rect(
            local(r, 10, 9, 60, 15, dpi),
            Tint::Solid(palette[i]),
            sc(3, dpi),
        );
        self.label(
            local(r, 8, 29, 68, 16, dpi),
            field_name(strings, i),
            tint(BRIGHT),
            10,
            FW_MEDIUM,
            dpi,
        );
        let hex = "#".to_owned().concat(hex6_text(rgb(palette[i])).as_str());
        self.label(
            local(r, 8, 46, 68, 14, dpi),
            hex.as_str(),
            tint(MUTED),
            9,
            FW_NORMAL,
            dpi,
        );
        assert(self@ =~= start + color_face(r, i as int, palette@, *strings, dpi));
    }

    fn plain_face(&mut self, r: Rect, id: u16, dpi: u32)
        requires
            reaches(r, 132, 32, dpi),
            dpi <= MAX_DPI,
        ensures
            final(self)@ == old(self)@ + plain_face(r, id, dpi),
    {
        let text = if id == ID_RESET {
            "Reset"
        } else if id == ID_UNDO {
            "Undo changes"
        } else {
            "Done  →"
        };
        let color = if id == ID_DONE {
            tint(0xc0ceff)
        } else {
            tint(BRIGHT)
        };
        self.label(local(r, 12, 0, 120, 32, dpi), text, color, 12, FW_SEMIBOLD, dpi);
    }

    fn button_frame(&mut self, item: ButtonItem, a: &Appearance, dpi: u32)
        requires
            button_fits(item, dpi),
            dpi <= MAX_DPI,
        ensures
            final(self)@ == old(self)@ + button_frame(item, *a, dpi),
    {
        let ghost start = self@;
        self.draw_rounded_rect(item.rect, tint(BACKDROP), 0);
        let edge: u32 = if selected(item.id, a) || item.focus {
            0xa6b9ff
        } else {
            0x343c4d
        };
        self.draw_rounded_rect(item.rect, tint(edge), sc(7, dpi));
        let body: u32 = if item.pressed {
            0x343e57
        } else {
            0x202735
        };
        self.draw_rounded_rect(inside_by(item.rect, 1, dpi), tint(body), sc(6, dpi));
        assert(self@ =~= start + button_frame(item, *a, dpi));
    }

    fn button_face(
        &mut self,
        item: ButtonItem,
        a: &Appearance,
        palette: &[Color; 5],
        strings: &Strings,
        dpi: u32,
    )
        requires
            button_fits(item, dpi),
            dpi <= MAX_DPI,
        ensures
            final(self)@ == old(self)@ + button_face(item, *a, palette@, *strings, dpi),
    {
        let id: u16 = item.id;
        if id >= 100 && id <= 103 {
            self.mode_face(item.rect, (id - 100) as usize, selected(id, a), palette, dpi);
        } else if id >= 110 && id <= 113 {
            self.preset_face(item.rect, (id - 110) as usize, dpi);
        } else if id >= 120 && id <= 124 {
            self.color_face(item.rect, (id - 120) as usize, palette, strings, dpi);
        } else {
            self.plain_face(item.rect, id, dpi);
        }
    }
}

/// Draw one button of the studio.
pub fn draw_button(
    item: ButtonItem,
    appearance: &Appearance,
    system_dark: bool,
    strings: &Strings,
    dpi: u32,
) -> (canvas: Canvas)
    requires
        button_fits(item, dpi),
        dpi <= MAX_DPI,
    ensures
        canvas@ == button_content(item, *appearance, system_dark, *strings, dpi),
{
    let palette = appearance.palette(appearance.is_dark(system_dark));
    let mut canvas = Canvas::new();
    canvas.button_frame(item, appearance, dpi);
    canvas.button_face(item, appearance, &palette, strings, dpi);
    if item.focus {
        canvas.push(DrawOp::FocusRect(inside_by(item.rect, 4, dpi)));
    }
    assert(canvas@ =~= button_content(item, *appearance, system_dark, *strings, dpi));
    canvas
}

/// Exactly one mode button is selected, the one in force.
pub proof fn law_one_mode_is_selected(a: Appearance, i: int, j: int)
    requires
        0 <= i < 4,
        0 <= j < 4,
    ensures
        is_selected((100 + i) as u16, a) && is_selected((100 + j) as u16, a) ==> i == j,
        is_selected(100, a) || is_selected(101, a) || is_selected(102, a) || is_selected(103, a),
{
}

/// A mode or palette that was just chosen shows as selected.
pub proof fn law_chosen_buttons_show_as_selected(id: u16, a: Appearance, original: Option<Appearance>)
    requires
        100 <= id <= 103 || 110 <= id <= 113,
    ensures
        requested(id, a, original) is Apply,
        is_selected(id, requested(id, a, original)->Apply_0),
{
}

proof fn lemma_label_says(
    r: Rect,
    text: Seq<char>,
    color: Tint,
    size: int,
    weight: u32,
    dpi: u32,
)
    requires
        text.len() > 0,
    ensures
        written(labelled(r, text, color, size, weight, dpi)) == seq![text],
{
    lemma_says_itself(r, text, color, font_of(-size, weight, dpi), Align::LeftVerbatim);
}

proof fn lemma_frame_says_nothing(item: ButtonItem, a: Appearance, dpi: u32)
    ensures
        written(button_frame(item, a, dpi)) == Seq::<Seq<char>>::empty(),
{
    lemma_says_nothing(button_frame(item, a, dpi));
}

/// A button says what its face says, and has its focus drawn on top.
proof fn lemma_button_says(
    item: ButtonItem,
    a: Appearance,
    system_dark: bool,
    strings: Strings,
    dpi: u32,
)
    ensures
        written(button_content(item, a, system_dark, strings, dpi)) == written(
            button_face(item, a, a.shades(a.dark(system_dark)), strings, dpi),
        ),
{
    let frame = button_frame(item, a, dpi);
    let face = button_face(item, a, a.shades(a.dark(system_dark)), strings, dpi);
    let focus: Seq<Op> = if item.focus {
        seq![DrawOp::FocusRect(inset(item.rect, 4, dpi))]
    } else {
        Seq::empty()
    };
    lemma_frame_says_nothing(item, a, dpi);
    lemma_says_nothing(focus);
    lemma_written_add(frame, face);
    lemma_written_add(frame + face, focus);
    assert(written(frame + face + focus) =~= written(face));
}

/// A mode button says which mode it chooses, with a check mark where that mode
/// is in force.
pub proof fn law_mode_buttons_say_their_mode(
    item: ButtonItem,
    a: Appearance,
    system_dark: bool,
    strings: Strings,
    dpi: u32,
)
    requires
        100 <= item.id <= 103,
    ensures
        ({
            let said = written(button_content(item, a, system_dark, strings, dpi));
            let mark = seq!["✓"@];
            &&& item.id == 100 ==> said == seq!["System"@] + if a.mode == Mode::System {
                mark
            } else {
                Seq::empty()
            }
            &&& item.id == 101 ==> said == seq!["Light"@] + if a.mode == Mode::Light {
                mark
            } else {
                Seq::empty()
            }
            &&& item.id == 102 ==> said == seq!["Dark"@] + if a.mode == Mode::Dark {
                mark
            } else {
                Seq::empty()
            }
            &&& item.id == 103 ==> said == seq!["Custom"@] + if a.mode == Mode::Custom {
                mark
            } else {
                Seq::empty()
            }
        }),
{
    reveal_strlit("System");
    reveal_strlit("Light");
    reveal_strlit("Dark");
    reveal_strlit("Custom");
    reveal_strlit("✓");
    lemma_button_says(item, a, system_dark, strings, dpi);
    let palette = a.shades(a.dark(system_dark));
    let i = item.id - 100;
    let r = item.rect;
    let on = chips(r, mode_chips(i, palette), 12, 13, 18, dpi);
    let name = labelled(
        local_area(r, 12, 34, 82, 20, dpi),
        mode_name_of(i),
        solid(BRIGHT),
        12,
        FW_SEMIBOLD,
        dpi,
    );
    let check = if is_selected(item.id, a) {
        labelled(local_area(r, 80, 9, 16, 16, dpi), "✓"@, solid(0xa6b9ff), 12, FW_BOLD, dpi)
    } else {
        Seq::empty()
    };
    lemma_says_nothing(on);
    lemma_label_says(
        local_area(r, 12, 34, 82, 20, dpi),
        mode_name_of(i),
        solid(BRIGHT),
        12,
        FW_SEMIBOLD,
        dpi,
    );
    if is_selected(item.id, a) {
        lemma_label_says(
            local_area(r, 80, 9, 16, 16, dpi),
            "✓"@,
            solid(0xa6b9ff),
            12,
            FW_BOLD,
            dpi,
        );
    } else {
        lemma_says_nothing(check);
    }
    lemma_written_add(on, name);
    lemma_written_add(on + name, check);
    assert(written(on + name + check) =~= seq![mode_name_of(i)] + written(check));
}

/// A palette button says the palette's name above its three accents, in order.
pub proof fn law_palette_buttons_show_their_palette(
    item: ButtonItem,
    a: Appearance,
    system_dark: bool,
    strings: Strings,
    dpi: u32,
    k: int,
)
    requires
        110 <= item.id <= 113,
        0 <= k < 3,
    ensures
        ({
            let ops = button_content(item, a, system_dark, strings, dpi);
            &&& written(ops) == seq![preset_name_of(item.id - 110)]
            &&& ops[3 + k] is FillRounded
            &&& ops[3 + k]->FillRounded_color == Tint::Solid(
                color_of(preset_colors_of(item.id - 110)@[2 + k]),
            )
            &&& ops[3 + k]->FillRounded_rect.left == (item.rect.left + scaled(
                12 + 22 * k,
                dpi,
            )) as i32
        }),
{
    reveal_strlit("Midnight");
    reveal_strlit("Porcelain");
    reveal_strlit("Evergreen");
    reveal_strlit("Afterglow");
    lemma_button_says(item, a, system_dark, strings, dpi);
    let i = item.id - 110;
    let r = item.rect;
    let colors = preset_colors_of(i)@;
    let on = chips(
        r,
        seq![solid(colors[2]), solid(colors[3]), solid(colors[4])],
        10,
        18,
        22,
        dpi,
    );
    let name = labelled(
        local_area(r, 12, 28, 88, 18, dpi),
        preset_name_of(i),
        solid(BRIGHT),
        11,
        FW_MEDIUM,
        dpi,
    );
    lemma_says_nothing(on);
    lemma_label_says(
        local_area(r, 12, 28, 88, 18, dpi),
        preset_name_of(i),
        solid(BRIGHT),
        11,
        FW_MEDIUM,
        dpi,
    );
    lemma_written_add(on, name);
    assert(written(on + name) =~= seq![preset_name_of(i)]);
    let ops = button_content(item, a, system_dark, strings, dpi);
    assert(button_frame(item, a, dpi).len() == 3);
    assert(on.len() == 3);
    assert(ops[3 + k] == on[k]);
}

/// A colour button names its colour, shows it, and gives its value.
pub proof fn law_swatches_show_their_colour(
    item: ButtonItem,
    a: Appearance,
    system_dark: bool,
    strings: Strings,
    dpi: u32,
)
    requires
        120 <= item.id <= 124,
        strings.claude_field@.len() > 0,
    ensures
        ({
            let ops = button_content(item, a, system_dark, strings, dpi);
            let shown = a.shades(a.dark(system_dark))[item.id - 120];
            &&& ops[3] is FillRounded
            &&& ops[3]->FillRounded_color == Tint::Solid(shown)
            &&& written(ops).len() == 2
            &&& item.id == 120 ==> written(ops)[0] == "Background"@
            &&& item.id == 121 ==> written(ops)[0] == "Text"@
            &&& item.id == 122 ==> written(ops)[0] == strings.claude_field@
            &&& item.id == 123 ==> written(ops)[0] == "Codex"@
            &&& item.id == 124 ==> written(ops)[0] == "Antigravity"@
            &&& written(ops)[1] == "#"@ + hex6(
                (shown.r * 0x10000 + shown.g * 0x100 + shown.b) as u32,
            )
        }),
{
    reveal_strlit("Background");
    reveal_strlit("Text");
    reveal_strlit("Codex");
    reveal_strlit("Antigravity");
    reveal_strlit("#");
    lemma_button_says(item, a, system_dark, strings, dpi);
    let palette = a.shades(a.dark(system_dark));
    let i = item.id - 120;
    let r = item.rect;
    let shown = rounded(
        local_area(r, 10, 9, 60, 15, dpi),
        Tint::Solid(palette[i]),
        scaled(3, dpi),
    );
    let value = "#"@ + hex6(packed(palette[i]) as u32);
    let name_op = labelled(
        local_area(r, 8, 29, 68, 16, dpi),
        field_name_of(strings, i),
        solid(BRIGHT),
        10,
        FW_MEDIUM,
        dpi,
    );
    let value_op = labelled(
        local_area(r, 8, 46, 68, 14, dpi),
        value,
        solid(MUTED),
        9,
        FW_NORMAL,
        dpi,
    );
    lemma_says_nothing(shown);
    lemma_label_says(
        local_area(r, 8, 29, 68, 16, dpi),
        field_name_of(strings, i),
        solid(BRIGHT),
        10,
        FW_MEDIUM,
        dpi,
    );
    lemma_label_says(
        local_area(r, 8, 46, 68, 14, dpi),
        value,
        solid(MUTED),
        9,
        FW_NORMAL,
        dpi,
    );
    lemma_written_add(shown, name_op);
    lemma_written_add(shown + name_op, value_op);
    assert(written(shown + name_op + value_op) =~= seq![field_name_of(strings, i), value]);
    let ops = button_content(item, a, system_dark, strings, dpi);
    assert(button_frame(item, a, dpi).len() == 3);
    assert(ops[3] == shown[0]);
}

/// The buttons of the last row say what they do.
pub proof fn law_the_last_row_says_what_it_does(
    item: ButtonItem,
    a: Appearance,
    system_dark: bool,
    strings: Strings,
    dpi: u32,
)
    ensures
        ({
            let said = written(button_content(item, a, system_dark, strings, dpi));
            &&& item.id == 130 ==> said == seq!["Reset"@]
            &&& item.id == 131 ==> said == seq!["Undo changes"@]
            &&& item.id == 132 ==> said == seq!["Done  →"@]
        }),
{
    reveal_strlit("Reset");
    reveal_strlit("Undo changes");
    reveal_strlit("Done  →");
    lemma_button_says(item, a, system_dark, strings, dpi);
    if 130 <= item.id <= 132 {
        lemma_label_says(
            local_area(item.rect, 12, 0, 120, 32, dpi),
            if item.id == ID_RESET {
                "Reset"@
            } else if item.id == ID_UNDO {
                "Undo changes"@
            } else {
                "Done  →"@
            },
            solid(
                if item.id == ID_DONE {
                    0xc0ceff
                } else {
                    BRIGHT
                },
            ),
            12,
            FW_SEMIBOLD,
            dpi,
        );
    }
}

proof fn lemma_frame_colors(item: ButtonItem, a: Appearance, dpi: u32)
    ensures
        ({
            let frame = button_frame(item, a, dpi);
            &&& frame.len() == 3
            &&& frame[1] is FillRounded
            &&& frame[2] is FillRounded
            &&& frame[1]->FillRounded_color == Tint::Solid(
                if is_selected(item.id, a) || item.focus {
                    Color { r: 0xa6, g: 0xb9, b: 0xff }
                } else {
                    Color { r: 0x34, g: 0x3c, b: 0x4d }
                },
            )
            &&& frame[2]->FillRounded_color == Tint::Solid(
                if item.pressed {
                    Color { r: 0x34, g: 0x3e, b: 0x57 }
                } else {
                    Color { r: 0x20, g: 0x27, b: 0x35 }
                },
            )
        }),
{
}

proof fn lemma_faces_are_drawn(
    item: ButtonItem,
    a: Appearance,
    palette: Seq<Color>,
    strings: Strings,
    dpi: u32,
)
    ensures
        ({
            let face = button_face(item, a, palette, strings, dpi);
            &&& face.len() > 0
            &&& !(face.last() is FocusRect)
        }),
{
    if 100 <= item.id <= 103 {
        let on = chips(item.rect, mode_chips(item.id - 100, palette), 12, 13, 18, dpi);
        assert(on.len() == 3);
    } else if 110 <= item.id <= 113 {
        let colors = preset_colors_of(item.id - 110)@;
        let on = chips(
            item.rect,
            seq![solid(colors[2]), solid(colors[3]), solid(colors[4])],
            10,
            18,
            22,
            dpi,
        );
        assert(on.len() == 3);
    } else if 120 <= item.id <= 124 {
    } else {
        reveal_strlit("Reset");
        reveal_strlit("Undo changes");
        reveal_strlit("Done  →");
    }
}

/// A button's edge is lit where it is focused or stands for what is in force,
/// its body where it is pressed, and a focused button shows its focus last.
pub proof fn law_buttons_show_how_they_are_held(
    item: ButtonItem,
    a: Appearance,
    system_dark: bool,
    strings: Strings,
    dpi: u32,
)
    ensures
        ({
            let ops = button_content(item, a, system_dark, strings, dpi);
            let lit = Tint::Solid(Color { r: 0xa6, g: 0xb9, b: 0xff });
            let unlit = Tint::Solid(Color { r: 0x34, g: 0x3c, b: 0x4d });
            let down = Tint::Solid(Color { r: 0x34, g: 0x3e, b: 0x57 });
            let up = Tint::Solid(Color { r: 0x20, g: 0x27, b: 0x35 });
            &&& ops.len() > 3
            &&& ops[1] is FillRounded
            &&& ops[2] is FillRounded
            &&& item.focus ==> ops[1]->FillRounded_color == lit
            &&& !item.focus && item.id >= 120 ==> ops[1]->FillRounded_color == unlit
            &&& !item.focus && item.id == 100 ==> ops[1]->FillRounded_color == if a.mode
                == Mode::System {
                lit
            } else {
                unlit
            }
            &&& !item.focus && item.id == 101 ==> ops[1]->FillRounded_color == if a.mode
                == Mode::Light {
                lit
            } else {
                unlit
            }
            &&& !item.focus && item.id == 102 ==> ops[1]->FillRounded_color == if a.mode
                == Mode::Dark {
                lit
            } else {
                unlit
            }
            &&& !item.focus && item.id == 103 ==> ops[1]->FillRounded_color == if a.mode
                == Mode::Custom {
                lit
            } else {
                unlit
            }
            &&& ops[2]->FillRounded_color == if item.pressed {
                down
            } else {
                up
            }
            &&& ops.last() is FocusRect <==> item.focus
        }),
{
    let ops = button_content(item, a, system_dark, strings, dpi);
    let frame = button_frame(item, a, dpi);
    let face = button_face(item, a, a.shades(a.dark(system_dark)), strings, dpi);
    lemma_frame_colors(item, a, dpi);
    lemma_faces_are_drawn(item, a, a.shades(a.dark(system_dark)), strings, dpi);
    assert(ops[1] == frame[1]);
    assert(ops[2] == frame[2]);
    if !item.focus {
        assert(ops.last() == face.last());
    }
}

/// A palette button is lit exactly where its own five colours are in force.
pub proof fn law_palettes_in_force_are_lit(a: Appearance, i: int)
    requires
        0 <= i < 4,
    ensures
        is_selected((110 + i) as u16, a) <==> a.mode == Mode::Custom && a.colors@
            == preset_colors_of(i)@,
{
}

/// The preview shows the colours in force: the background behind everything, the
/// first provider's sample in its accent, and the second's in its own.
pub proof fn law_the_preview_shows_the_colours_in_force(
    a: Appearance,
    system_dark: bool,
    strings: Strings,
    dpi: u32,
)
    requires
        strings.claude_card@.len() > 0,
    ensures
        ({
            let palette = a.shades(a.dark(system_dark));
            let ops = studio_preview(palette, strings, dpi);
            &&& ops[0] is FillRounded
            &&& ops[0]->FillRounded_color == Tint::Solid(palette[0])
            &&& ops[1] is Text
            &&& ops[1]->Text_color == Tint::Solid(palette[1])
            &&& ops[2] is Text
            &&& ops[2]->Text_text == strings.claude_card@
            &&& ops[2]->Text_color == Tint::Solid(palette[2])
            &&& ops[3] is Text
            &&& ops[3]->Text_color == Tint::Solid(palette[1])
            &&& ops[6] is FillRounded
            &&& ops[6]->FillRounded_color == Tint::Solid(palette[2])
            &&& ops[7] is Text
            &&& ops[7]->Text_text == "CODEX"@
            &&& ops[7]->Text_color == Tint::Solid(palette[3])
            &&& ops[8] is Text
            &&& ops[8]->Text_color == Tint::Solid(palette[1])
            &&& ops[11] is FillRounded
            &&& ops[11]->FillRounded_color == Tint::Solid(palette[3])
        }),
{
    reveal_strlit("COLOR PREVIEW  /  sample usage");
    reveal_strlit("32%");
    reveal_strlit("resets in 3h 12m");
    reveal_strlit("CODEX");
    reveal_strlit("58%");
    reveal_strlit("resets in 4d 8h");
}

/// The studio says which steps there are, and what its samples are.
pub proof fn law_the_studio_explains_itself(
    a: Appearance,
    system_dark: bool,
    strings: Strings,
    dpi: u32,
)
    requires
        strings.claude_card@.len() > 0,
    ensures
        written(studio_content(a, system_dark, strings, dpi)) == seq![
            "A little more you."@,
            "Your usage. Your colors. No restart."@,
            "01  /  CHOOSE YOUR MODE"@,
            "COLOR PREVIEW  /  sample usage"@,
            strings.claude_card@,
            "32%"@,
            "resets in 3h 12m"@,
            "CODEX"@,
            "58%"@,
            "resets in 4d 8h"@,
            "02  /  START WITH A PALETTE"@,
            "03  /  MAKE IT YOURS"@,
            "Click a color to mix your own. Warning colors stay meaningful."@,
            "Saved as you go"@,
        ],
{
    let palette = a.shades(a.dark(system_dark));
    lemma_title_says(dpi);
    lemma_preview_says(palette, strings, dpi);
    lemma_headings_say(dpi);
    lemma_written_add(studio_title(dpi), studio_preview(palette, strings, dpi));
    lemma_written_add(
        studio_title(dpi) + studio_preview(palette, strings, dpi),
        studio_headings(dpi),
    );
}

proof fn lemma_title_says(dpi: u32)
    ensures
        written(studio_title(dpi)) == seq![
            "A little more you."@,
            "Your usage. Your colors. No restart."@,
            "01  /  CHOOSE YOUR MODE"@,
        ],
{
    reveal_strlit("A little more you.");
    reveal_strlit("Your usage. Your colors. No restart.");
    reveal_strlit("01  /  CHOOSE YOUR MODE");
    let ops = studio_title(dpi);
    assert(ops.len() == 4);
    lemma_written_push(ops, 4);
    lemma_written_push(ops, 3);
    lemma_written_push(ops, 2);
    lemma_written_push(ops, 1);
    assert(ops.take(0) =~= Seq::empty());
    assert(ops.take(4) =~= ops);
}

proof fn lemma_headings_say(dpi: u32)
    ensures
        written(studio_headings(dpi)) == seq![
            "02  /  START WITH A PALETTE"@,
            "03  /  MAKE IT YOURS"@,
            "Click a color to mix your own. Warning colors stay meaningful."@,
            "Saved as you go"@,
        ],
{
    reveal_strlit("02  /  START WITH A PALETTE");
    reveal_strlit("03  /  MAKE IT YOURS");
    reveal_strlit("Click a color to mix your own. Warning colors stay meaningful.");
    reveal_strlit("Saved as you go");
    let ops = studio_headings(dpi);
    assert(ops.len() == 4);
    lemma_written_push(ops, 4);
    lemma_written_push(ops, 3);
    lemma_written_push(ops, 2);
    lemma_written_push(ops, 1);
    assert(ops.take(0) =~= Seq::empty());
    assert(ops.take(4) =~= ops);
}

proof fn lemma_sample_says(
    x: int,
    name: Seq<char>,
    usage: Seq<char>,
    reset: Seq<char>,
    filled: int,
    accent: Tint,
    ink: Tint,
    dpi: u32,
)
    requires
        name.len() > 0,
        usage.len() > 0,
        reset.len() > 0,
    ensures
        written(sample(x, name, usage, reset, filled, accent, ink, dpi)) == seq![
            name,
            usage,
            reset,
        ],
{
    let ops = sample(x, name, usage, reset, filled, accent, ink, dpi);
    assert(ops.len() == 5);
    lemma_written_push(ops, 5);
    lemma_written_push(ops, 4);
    lemma_written_push(ops, 3);
    lemma_written_push(ops, 2);
    lemma_written_push(ops, 1);
    assert(ops.take(0) =~= Seq::empty());
    assert(ops.take(5) =~= ops);
}

proof fn lemma_preview_says(palette: Seq<Color>, strings: Strings, dpi: u32)
    requires
        strings.claude_card@.len() > 0,
    ensures
        written(studio_preview(palette, strings, dpi)) == seq![
            "COLOR PREVIEW  /  sample usage"@,
            strings.claude_card@,
            "32%"@,
            "resets in 3h 12m"@,
            "CODEX"@,
            "58%"@,
            "resets in 4d 8h"@,
        ],
{
    reveal_strlit("COLOR PREVIEW  /  sample usage");
    reveal_strlit("32%");
    reveal_strlit("resets in 3h 12m");
    reveal_strlit("CODEX");
    reveal_strlit("58%");
    reveal_strlit("resets in 4d 8h");
    let ink = Tint::Solid(palette[1]);
    let back = rounded(
        studio_area(24, 204, 440, 102, dpi),
        Tint::Solid(palette[0]),
        scaled(10, dpi),
    );
    let title = labelled(
        studio_area(40, 214, 400, 16, dpi),
        "COLOR PREVIEW  /  sample usage"@,
        ink,
        9,
        FW_MEDIUM,
        dpi,
    );
    let first = sample(
        40,
        strings.claude_card@,
        "32%"@,
        "resets in 3h 12m"@,
        61,
        Tint::Solid(palette[2]),
        ink,
        dpi,
    );
    let second = sample(
        254,
        "CODEX"@,
        "58%"@,
        "resets in 4d 8h"@,
        111,
        Tint::Solid(palette[3]),
        ink,
        dpi,
    );
    lemma_says_nothing(back);
    lemma_label_says(
        studio_area(40, 214, 400, 16, dpi),
        "COLOR PREVIEW  /  sample usage"@,
        ink,
        9,
        FW_MEDIUM,
        dpi,
    );
    lemma_sample_says(
        40,
        strings.claude_card@,
        "32%"@,
        "resets in 3h 12m"@,
        61,
        Tint::Solid(palette[2]),
        ink,
        dpi,
    );
    lemma_sample_says(
        254,
        "CODEX"@,
        "58%"@,
        "resets in 4d 8h"@,
        111,
        Tint::Solid(palette[3]),
        ink,
        dpi,
    );
    lemma_written_add(back, title);
    lemma_written_add(back + title, first);
    lemma_written_add(back + title + first, second);
}

/// The texts of a drawing's first `n` operations are those of one fewer and
/// what the last of them says.
proof fn lemma_written_push(ops: Seq<Op>, n: int)
    requires
        0 < n <= ops.len(),
    ensures
        written(ops.take(n)) == match ops[n - 1] {
            DrawOp::Text { text, .. } => written(ops.take(n - 1)).push(text),
            _ => written(ops.take(n - 1)),
        },
{
    assert(ops.take(n).drop_last() =~= ops.take(n - 1));
}

/// Taking a margin off a rectangle moves each edge inward by the same length.
pub proof fn law_margins_are_equal(r: Rect, px: i32, dpi: u32)
    requires
        0 <= px,
        inset_fits(r, px as int, dpi),
    ensures
        ({
            let inner = inset(r, px as int, dpi);
            &&& inner.left - r.left == scaled(px as int, dpi)
            &&& inner.top - r.top == scaled(px as int, dpi)
            &&& r.right - inner.right == scaled(px as int, dpi)
            &&& r.bottom - inner.bottom == scaled(px as int, dpi)
        }),
{
    law_scaling_is_monotone(0, px, dpi);
}

/// At the design size a sample stands in a column of its own: its name above
/// its figure, the reset beside the figure, and the gauge below, filled from
/// the left.
pub proof fn law_samples_are_laid_out(
    x: int,
    name: Seq<char>,
    usage: Seq<char>,
    reset: Seq<char>,
    filled: int,
    accent: Tint,
    ink: Tint,
)
    requires
        0 <= x <= 512,
        0 <= filled <= 192,
        name.len() > 0,
        usage.len() > 0,
        reset.len() > 0,
    ensures
        ({
            let ops = sample(x, name, usage, reset, filled, accent, ink, 96);
            &&& ops.len() == 5
            &&& ops[0] is Text && ops[0]->Text_rect == area(x, 239, x + 180, 253)
            &&& ops[0]->Text_text == name && ops[0]->Text_color == accent
            &&& ops[1] is Text && ops[1]->Text_rect == area(x, 258, x + 64, 286)
            &&& ops[1]->Text_text == usage && ops[1]->Text_color == ink
            &&& ops[2] is Text && ops[2]->Text_rect == area(x + 66, 263, x + 196, 283)
            &&& ops[2]->Text_text == reset && ops[2]->Text_color == ink
            &&& ops[3] is FillRounded && ops[3]->FillRounded_rect == area(x, 292, x + 193, 295)
            &&& ops[4] is FillRounded && ops[4]->FillRounded_rect == area(
                x,
                292,
                x + filled + 1,
                295,
            )
            &&& ops[4]->FillRounded_color == accent
        }),
{
}

/// At the design size a part of a button stands as far from its top left as
/// asked, and is as wide and as high as asked.
pub proof fn law_parts_stand_on_their_button(r: Rect, x: int, y: int, w: int, h: int)
    requires
        0 <= x <= 256,
        0 <= y <= 256,
        0 <= w <= 256,
        0 <= h <= 256,
        reaches(r, x + w, y + h, 96),
    ensures
        ({
            let part = local_area(r, x, y, w, h, 96);
            &&& part.left == r.left + x
            &&& part.top == r.top + y
            &&& part.right - part.left == w
            &&& part.bottom - part.top == h
        }),
{
}

} // verus!
