//! Getting the content onto the screen or into a file.
use crate::appearance::{default_appearance, Appearance, Mode};
use crate::color::{
    color, color_of, law_color_round_trip, law_packing_keeps_the_low_bits, packed, rgb, Color,
};
use crate::geometry::{
    lemma_widths_fit, sc, scaled, total_widget_width_for, widget_width, MAX_DPI, WIDGET_HEIGHT,
};
use crate::measure::Binary64;
use crate::readout::{label_text, reads};
use crate::settings::POLL_1_MIN;
use crate::state::{cards_of, model_of, Model, Row, State};
use crate::widget::{Scene, SceneModel, Slots};
use vstd::arithmetic::div_mod::{lemma_hoist_over_denominator, lemma_mod_multiples_vanish};
use vstd::prelude::*;

verus! {

/// Previews are drawn at twice the design size, with a steady memory reading,
/// in hundredths of a percent.
pub const PREVIEW_DPI: u32 = 192;

pub const PREVIEW_RAM: u32 = 4_200;

/// What rendering comes to.
#[verifier::ext_equal]
#[derive(Debug)]
pub enum Layer<S> {
    /// There is nothing to render yet.
    Nothing,
    /// The window paints itself: ask it to.
    Invalidate,
    /// Draw this, and hand it to the compositor.
    Compose(S),
}

impl View for Layer<Scene<String>> {
    type V = Layer<SceneModel>;

    open spec fn view(&self) -> Layer<SceneModel> {
        match self {
            Layer::Nothing => Layer::Nothing,
            Layer::Invalidate => Layer::Invalidate,
            Layer::Compose(scene) => Layer::Compose(scene@),
        }
    }
}

/// What a state shows on a surface of the given size.
pub open spec fn scene_of(m: Model, fable: Seq<char>, width: i32, height: i32) -> SceneModel {
    Scene {
        width,
        height,
        is_dark: m.is_dark,
        appearance: m.appearance,
        bg: m.appearance.shades(m.is_dark)[0],
        text_color: m.appearance.shades(m.is_dark)[1],
        data: m.data,
        claude: m.claude.shown,
        codex: m.codex.shown,
        antigravity: m.antigravity.shown,
        texts: Slots {
            session: m.claude.session.text,
            weekly: m.claude.weekly.text,
            codex_session: m.codex.session.text,
            codex_weekly: m.codex.weekly.text,
            antigravity_session: m.antigravity.session.text,
            antigravity_weekly: m.antigravity.weekly.text,
            fable,
        },
    }
}

/// The percentages a state shows.
pub open spec fn readings_of(m: Model, fable: Binary64) -> Slots<Binary64> {
    Slots {
        session: m.claude.session.percent,
        weekly: m.claude.weekly.percent,
        codex_session: m.codex.session.percent,
        codex_weekly: m.codex.weekly.percent,
        antigravity_session: m.antigravity.session.percent,
        antigravity_weekly: m.antigravity.weekly.percent,
        fable,
    }
}

/// An embedded widget is composed by its own hand, at its full size; a floating
/// one is painted by its window.
pub open spec fn layer_of(m: Option<Model>, fable: Seq<char>, dpi: u32) -> Layer<SceneModel> {
    match m {
        None => Layer::Nothing,
        Some(s) => if s.embedded {
            Layer::Compose(
                scene_of(
                    s,
                    fable,
                    widget_width(cards_of(s), dpi) as i32,
                    scaled(WIDGET_HEIGHT as int, dpi) as i32,
                ),
            )
        } else {
            Layer::Invalidate
        },
    }
}

/// What a window of the given size paints.
pub open spec fn painted(m: Option<Model>, fable: Seq<char>, width: i32, height: i32) -> Option<
    SceneModel,
> {
    if m is None || width <= 0 || height <= 0 {
        None
    } else {
        Some(scene_of(m->0, fable, width, height))
    }
}

fn scene_for(s: &State, fable: &Row<String>, width: i32, height: i32) -> (scene: Scene<String>)
    ensures
        scene@ == scene_of(s@, fable.text@, width, height),
{
    let palette = s.appearance.palette(s.is_dark);
    let scene = Scene {
        width,
        height,
        is_dark: s.is_dark,
        appearance: s.appearance,
        bg: palette[0],
        text_color: palette[1],
        data: s.data,
        claude: s.claude.shown,
        codex: s.codex.shown,
        antigravity: s.antigravity.shown,
        texts: Slots {
            session: s.claude.session.text.clone(),
            weekly: s.claude.weekly.text.clone(),
            codex_session: s.codex.session.text.clone(),
            codex_weekly: s.codex.weekly.text.clone(),
            antigravity_session: s.antigravity.session.text.clone(),
            antigravity_weekly: s.antigravity.weekly.text.clone(),
            fable: fable.text.clone(),
        },
    };
    assert(scene@ =~= scene_of(s@, fable.text@, width, height));
    scene
}

/// The percentages the figures move toward.
pub fn readings(s: &State, fable: &Row<String>) -> (targets: Slots<Binary64>)
    ensures
        targets == readings_of(s@, fable.percent),
{
    Slots {
        session: s.claude.session.percent,
        weekly: s.claude.weekly.percent,
        codex_session: s.codex.session.percent,
        codex_weekly: s.codex.weekly.percent,
        antigravity_session: s.antigravity.session.percent,
        antigravity_weekly: s.antigravity.weekly.percent,
        fable: fable.percent,
    }
}

/// The interval the freshness hairline fills over, in milliseconds.
pub fn freshness_interval(state: &Option<State>) -> (ms: u32)
    ensures
        ms == (match *state {
            Some(s) => s.polling.interval_ms,
            None => POLL_1_MIN,
        }),
{
    match state {
        Some(s) => s.polling.interval_ms,
        None => POLL_1_MIN,
    }
}

/// Render the widget.
pub fn render_layered(state: &Option<State>, fable: &Row<String>, dpi: u32) -> (layer: Layer<
    Scene<String>,
>)
    requires
        dpi <= MAX_DPI,
    ensures
        layer@ == layer_of(model_of(*state), fable.text@, dpi),
{
    match state {
        None => Layer::Nothing,
        Some(s) => {
            if !s.embedded {
                return Layer::Invalidate;
            }
            let width: i32 = s.total_widget_width(dpi);
            Layer::Compose(scene_for(s, fable, width, sc(WIDGET_HEIGHT, dpi)))
        },
    }
}

/// Paint a floating widget into its window.
pub fn paint(state: &Option<State>, fable: &Row<String>, width: i32, height: i32) -> (scene: Option<
    Scene<String>,
>)
    ensures
        scene is Some <==> painted(model_of(*state), fable.text@, width, height) is Some,
        scene is Some ==> scene->0@ == painted(model_of(*state), fable.text@, width, height)->0,
{
    if width <= 0 || height <= 0 {
        return None;
    }
    match state {
        None => None,
        Some(s) => Some(scene_for(s, fable, width, height)),
    }
}

/// A rendered pixel, keyed: one that holds the key value in its low 24 bits
/// becomes nearly invisible yet still takes clicks, any other fully opaque.
pub open spec fn keyed(pixel: u32, key: int) -> u32 {
    if pixel % 0x100_0000 == key {
        0x0100_0000
    } else {
        (pixel % 0x100_0000 + 0xff00_0000) as u32
    }
}

/// Give every pixel its opacity. The key is the background as pixels hold it,
/// `0xRRGGBB`.
pub fn key_pixels(pixels: &mut Vec<u32>, bg: Color)
    ensures
        final(pixels)@ == old(pixels)@.map_values(|p: u32| keyed(p, packed(bg))),
{
    let key: u32 = rgb(bg);
    let n: usize = pixels.len();
    let mut i: usize = 0;
    while i < n
        invariant
            i <= n,
            n == old(pixels)@.len(),
            key == packed(bg),
            pixels@ == old(pixels)@.take(i as int).map_values(|p: u32| keyed(p, packed(bg)))
                + old(pixels)@.skip(i as int),
        decreases n - i,
    {
        let shade: u32 = pixels[i] % 0x100_0000;
        let value: u32 = if shade == key {
            0x0100_0000
        } else {
            shade + 0xff00_0000
        };
        assert(pixels@[i as int] == old(pixels)@[i as int]);
        pixels.set(i, value);
        i = i + 1;
        assert(pixels@ =~= old(pixels)@.take(i as int).map_values(
            |p: u32| keyed(p, packed(bg)),
        ) + old(pixels)@.skip(i as int));
    }
    assert(pixels@ =~= old(pixels)@.map_values(|p: u32| keyed(p, packed(bg))));
}

/// The sample percentages a preview shows, and its sample paces.
pub fn preview_readings() -> (percents: Slots<u32>)
    ensures
        percents == (Slots {
            session: 32u32,
            weekly: 58u32,
            codex_session: 76u32,
            codex_weekly: 91u32,
            antigravity_session: 0u32,
            antigravity_weekly: 0u32,
            fable: 38u32,
        }),
{
    Slots {
        session: 32,
        weekly: 58,
        codex_session: 76,
        codex_weekly: 91,
        antigravity_session: 0,
        antigravity_weekly: 0,
        fable: 38,
    }
}

pub const PREVIEW_SESSION_PACE: u32 = 45;

pub const PREVIEW_WEEKLY_PACE: u32 = 65;

/// `text`, unless the preview shows unavailable providers.
pub open spec fn unless(unavailable: bool, missing: Seq<char>, text: Seq<char>) -> Seq<char> {
    if unavailable {
        missing
    } else {
        text
    }
}

/// What a preview shows: two providers, with sample readings.
pub open spec fn preview_of(dark: bool, unavailable: bool) -> SceneModel {
    Scene {
        width: widget_width(2, PREVIEW_DPI) as i32,
        height: scaled(WIDGET_HEIGHT as int, PREVIEW_DPI) as i32,
        is_dark: dark,
        appearance: default_appearance(),
        bg: color_of(
            if dark {
                0x1c1c1c
            } else {
                0xf3f3f3
            },
        ),
        text_color: color_of(
            if dark {
                0xd7dee6
            } else {
                0x252b32
            },
        ),
        data: None,
        claude: true,
        codex: true,
        antigravity: false,
        texts: Slots {
            session: "3h 12m"@,
            weekly: "4d 8h"@,
            codex_session: unless(unavailable, "!"@, "1h 42m"@),
            codex_weekly: unless(unavailable, "n/a"@, "2d 6h"@),
            antigravity_session: "n/a"@,
            antigravity_weekly: "n/a"@,
            fable: unless(unavailable, "n/a"@, "4d 8h"@),
        },
    }
}

fn pick(unavailable: bool, missing: &str, text: &str) -> (picked: String)
    ensures
        picked@ == unless(unavailable, missing@, text@),
{
    if unavailable {
        missing.to_owned()
    } else {
        text.to_owned()
    }
}

/// The scene of a preview, without any live services.
pub fn preview_scene(dark: bool, unavailable: bool) -> (scene: Scene<String>)
    ensures
        scene@ == preview_of(dark, unavailable),
{
    proof {
        lemma_widths_fit(2, PREVIEW_DPI);
    }
    let scene = Scene {
        width: total_widget_width_for(2, PREVIEW_DPI),
        height: sc(WIDGET_HEIGHT, PREVIEW_DPI),
        is_dark: dark,
        appearance: Appearance::default(),
        bg: color(
            if dark {
                0x1c1c1c
            } else {
                0xf3f3f3
            },
        ),
        text_color: color(
            if dark {
                0xd7dee6
            } else {
                0x252b32
            },
        ),
        data: None,
        claude: true,
        codex: true,
        antigravity: false,
        texts: Slots {
            session: "3h 12m".to_owned(),
            weekly: "4d 8h".to_owned(),
            codex_session: pick(unavailable, "!", "1h 42m"),
            codex_weekly: pick(unavailable, "n/a", "2d 6h"),
            antigravity_session: "n/a".to_owned(),
            antigravity_weekly: "n/a".to_owned(),
            fable: pick(unavailable, "n/a", "4d 8h"),
        },
    };
    assert(scene@ =~= preview_of(dark, unavailable));
    scene
}

/// A number's low 32 bits, low byte first.
pub open spec fn le32(v: int) -> Seq<u8> {
    seq![
        (v % 0x100) as u8,
        (v / 0x100 % 0x100) as u8,
        (v / 0x1_0000 % 0x100) as u8,
        (v / 0x100_0000 % 0x100) as u8,
    ]
}

/// A number's low 16 bits, low byte first.
pub open spec fn le16(v: int) -> Seq<u8> {
    seq![(v % 0x100) as u8, (v / 0x100 % 0x100) as u8]
}

pub open spec fn zeros(n: nat) -> Seq<u8> {
    Seq::new(n, |i: int| 0u8)
}

/// The file and information headers of a 32-bit bitmap stored top row first.
pub open spec fn bitmap_header(width: int, height: int, size: int) -> Seq<u8> {
    seq![0x42u8, 0x4du8] + le32(54 + size) + zeros(4) + le32(54) + le32(40) + le32(width) + le32(
        -height,
    ) + le16(1) + le16(32) + zeros(24)
}

/// Numbers that differ by a multiple of 2^32 have the same low bytes.
proof fn lemma_low_bytes(v: int, turns: int)
    ensures
        le32(v + 0x1_0000_0000 * turns) == le32(v),
{
    let w = v + 0x1_0000_0000 * turns;
    assert(w % 0x100 == v % 0x100) by {
        lemma_mod_multiples_vanish(0x100_0000 * turns, v, 0x100);
    }
    assert(w / 0x100 % 0x100 == v / 0x100 % 0x100) by {
        lemma_byte(v, 0x100, 0x1_0000 * turns);
    }
    assert(w / 0x1_0000 % 0x100 == v / 0x1_0000 % 0x100) by {
        lemma_byte(v, 0x1_0000, 0x100 * turns);
    }
    assert(w / 0x100_0000 % 0x100 == v / 0x100_0000 % 0x100) by {
        lemma_byte(v, 0x100_0000, turns);
    }
}

/// Adding multiples of the next place leaves the byte at a place alone.
proof fn lemma_byte(v: int, place: nat, steps: int)
    requires
        place > 0,
    ensures
        (v + (0x100 * steps) * place) / (place as int) % 0x100 == v / (place as int) % 0x100,
{
    lemma_hoist_over_denominator(v, 0x100 * steps, place);
    lemma_mod_multiples_vanish(steps, v / (place as int), 0x100);
}

fn push_le32(out: &mut Vec<u8>, v: u32)
    ensures
        final(out)@ == old(out)@ + le32(v as int),
{
    out.push((v % 0x100) as u8);
    out.push((v / 0x100 % 0x100) as u8);
    out.push((v / 0x1_0000 % 0x100) as u8);
    out.push((v / 0x100_0000 % 0x100) as u8);
    assert(out@ =~= old(out)@ + le32(v as int));
}

fn push_signed(out: &mut Vec<u8>, v: i64)
    requires
        -0x8000_0000 <= v <= 0x8000_0000,
    ensures
        final(out)@ == old(out)@ + le32(v as int),
{
    let bits: u32 = if v < 0 {
        (v + 0x1_0000_0000) as u32
    } else {
        v as u32
    };
    push_le32(out, bits);
    proof {
        lemma_low_bytes(
            v as int,
            if v < 0 {
                1
            } else {
                0
            },
        );
    }
}

fn push_zeros(out: &mut Vec<u8>, n: usize)
    ensures
        final(out)@ == old(out)@ + zeros(n as nat),
{
    let mut i: usize = 0;
    assert(out@ =~= old(out)@ + zeros(0));
    while i < n
        invariant
            i <= n,
            out@ == old(out)@ + zeros(i as nat),
        decreases n - i,
    {
        out.push(0);
        i = i + 1;
        assert(out@ =~= old(out)@ + zeros(i as nat));
    }
}

fn push_le16(out: &mut Vec<u8>, v: u16)
    ensures
        final(out)@ == old(out)@ + le16(v as int),
{
    out.push((v % 0x100) as u8);
    out.push((v / 0x100 % 0x100) as u8);
    assert(out@ =~= old(out)@ + le16(v as int));
}

fn push_size(out: &mut Vec<u8>, pixels: usize)
    ensures
        final(out)@ == old(out)@ + le32(54 + pixels as int),
{
    let size: u128 = 54 + pixels as u128;
    push_le32(out, (size % 0x1_0000_0000) as u32);
    proof {
        lemma_low_bytes(size as int % 0x1_0000_0000, size as int / 0x1_0000_0000);
    }
}

fn header(width: i32, height: i32, size: usize) -> (out: Vec<u8>)
    ensures
        out@ == bitmap_header(width as int, height as int, size as int),
{
    let mut out: Vec<u8> = Vec::new();
    out.push(0x42);
    out.push(0x4d);
    assert(out@ =~= seq![0x42u8, 0x4du8]);
    push_size(&mut out, size);
    push_zeros(&mut out, 4);
    push_le32(&mut out, 54);
    push_le32(&mut out, 40);
    push_signed(&mut out, width as i64);
    push_signed(&mut out, -(height as i64));
    push_le16(&mut out, 1);
    push_le16(&mut out, 32);
    push_zeros(&mut out, 24);
    out
}

/// Encode 32-bit pixels, top row first, as a bitmap file. The headers are
/// written field by field, so no padding comes in.
pub fn encode_bitmap(width: i32, height: i32, pixels: &Vec<u8>) -> (file: Vec<u8>)
    ensures
        file@ == bitmap_header(width as int, height as int, pixels@.len() as int) + pixels@,
{
    let mut out: Vec<u8> = header(width, height, pixels.len());
    let mut i: usize = 0;
    let ghost start = out@;
    assert(out@ =~= start + pixels@.take(0));
    while i < pixels.len()
        invariant
            i <= pixels@.len(),
            out@ == start + pixels@.take(i as int),
        decreases pixels@.len() - i,
    {
        out.push(pixels[i]);
        i = i + 1;
        assert(out@ =~= start + pixels@.take(i as int));
    }
    assert(pixels@.take(i as int) =~= pixels@);
    out
}

/// A bitmap file is its pixels behind a header of 54 bytes.
pub proof fn law_bitmaps_hold_their_pixels(width: i32, height: i32, pixels: Seq<u8>)
    ensures
        ({
            let file = bitmap_header(width as int, height as int, pixels.len() as int) + pixels;
            &&& file.len() == 54 + pixels.len()
            &&& file.skip(54) == pixels
            &&& file.take(2) == seq![0x42u8, 0x4du8]
        }),
{
    let header = bitmap_header(width as int, height as int, pixels.len() as int);
    assert(header.len() == 54);
    assert((header + pixels).skip(54) =~= pixels);
    assert((header + pixels).take(2) =~= seq![0x42u8, 0x4du8]);
}

/// A pixel becomes nearly invisible exactly where it shows the background; any
/// other is fully opaque.
pub proof fn law_the_background_is_keyed(pixel: u32, bg: Color)
    ensures
        color_of(pixel) == bg ==> keyed(pixel, packed(bg)) == 0x0100_0000,
        color_of(pixel) != bg ==> keyed(pixel, packed(bg)) == pixel % 0x100_0000 + 0xff00_0000,
{
    law_packing_keeps_the_low_bits(pixel);
    law_color_round_trip(bg);
    law_color_round_trip(color_of(pixel));
}

/// Keying changes opacity alone: a pixel that stays visible keeps its colour,
/// and keying it again changes nothing.
pub proof fn law_keying_keeps_colours(pixel: u32, key: int)
    requires
        0 <= key,
    ensures
        keyed(pixel, key) % 0x100_0000 == pixel % 0x100_0000 || keyed(pixel, key) == 0x0100_0000,
        keyed(pixel, key) / 0x100_0000 == 0xff || keyed(pixel, key) / 0x100_0000 == 1,
        pixel % 0x100_0000 != key ==> keyed(keyed(pixel, key), key) == keyed(pixel, key),
{
}

/// A scene shows each window's own countdown and each shown provider, in the
/// appearance in force.
pub proof fn law_scenes_show_the_state(m: Model, fable: Seq<char>, width: i32, height: i32)
    ensures
        ({
            let s = scene_of(m, fable, width, height);
            &&& s.texts.session == m.claude.session.text
            &&& s.texts.weekly == m.claude.weekly.text
            &&& s.texts.codex_session == m.codex.session.text
            &&& s.texts.codex_weekly == m.codex.weekly.text
            &&& s.texts.antigravity_session == m.antigravity.session.text
            &&& s.texts.antigravity_weekly == m.antigravity.weekly.text
            &&& s.texts.fable == fable
            &&& s.claude == m.claude.shown
            &&& s.codex == m.codex.shown
            &&& s.antigravity == m.antigravity.shown
            &&& s.data == m.data
            &&& s.is_dark == m.is_dark
            &&& s.appearance == m.appearance
            &&& s.width == width && s.height == height
            &&& s.appearance.mode == Mode::Custom ==> s.bg == color_of(m.appearance.colors@[0])
                && s.text_color == color_of(m.appearance.colors@[1])
            &&& s.appearance.mode != Mode::Custom && m.is_dark ==> s.bg == (Color {
                r: 0x1c,
                g: 0x1c,
                b: 0x1c,
            })
            &&& s.appearance.mode != Mode::Custom && !m.is_dark ==> s.bg == (Color {
                r: 0xf3,
                g: 0xf3,
                b: 0xf3,
            })
        }),
{
}

/// The figures move toward each window's own percentage.
pub proof fn law_figures_move_toward_their_window(m: Model, fable: Binary64)
    ensures
        ({
            let r = readings_of(m, fable);
            &&& r.session == m.claude.session.percent
            &&& r.weekly == m.claude.weekly.percent
            &&& r.codex_session == m.codex.session.percent
            &&& r.codex_weekly == m.codex.weekly.percent
            &&& r.antigravity_session == m.antigravity.session.percent
            &&& r.antigravity_weekly == m.antigravity.weekly.percent
            &&& r.fable == fable
        }),
{
}

/// An embedded widget is composed at the size of its shown cards, a floating
/// one paints itself into whatever its window measures, and without a state
/// nothing is drawn.
pub proof fn law_widgets_are_drawn_at_their_size(
    m: Model,
    fable: Seq<char>,
    width: i32,
    height: i32,
    dpi: u32,
)
    requires
        dpi <= MAX_DPI,
    ensures
        m.embedded ==> layer_of(Some(m), fable, dpi) is Compose,
        m.embedded ==> layer_of(Some(m), fable, dpi)->Compose_0.width == widget_width(
            cards_of(m),
            dpi,
        ),
        m.embedded ==> layer_of(Some(m), fable, dpi)->Compose_0.height == scaled(62, dpi),
        m.embedded ==> layer_of(Some(m), fable, dpi)->Compose_0.texts == scene_of(
            m,
            fable,
            width,
            height,
        ).texts,
        !m.embedded ==> layer_of(Some(m), fable, dpi) is Invalidate,
        layer_of(None, fable, dpi) is Nothing,
        painted(Some(m), fable, width, height) is Some <==> width > 0 && height > 0,
        width > 0 && height > 0 ==> painted(Some(m), fable, width, height)->0.width == width
            && painted(Some(m), fable, width, height)->0.height == height && painted(
            Some(m),
            fable,
            width,
            height,
        )->0.texts == scene_of(m, fable, width, height).texts,
        painted(None, fable, width, height) is None,
{
    lemma_widths_fit(cards_of(m), dpi);
}

/// A bitmap's header holds its size, its offset to the pixels, its width, its
/// height upside down, and 32 bits a pixel.
pub proof fn law_bitmap_headers_describe_the_pixels(width: i32, height: i32, size: int)
    requires
        0 <= size,
        54 + size < 0x1_0000_0000,
    ensures
        ({
            let h = bitmap_header(width as int, height as int, size);
            &&& h.len() == 54
            &&& h[0] == 0x42 && h[1] == 0x4d
            &&& h.subrange(2, 6) == le32(54 + size)
            &&& h.subrange(10, 14) == le32(54)
            &&& h.subrange(14, 18) == le32(40)
            &&& h.subrange(18, 22) == le32(width as int)
            &&& h.subrange(22, 26) == le32(-height)
            &&& h[26] == 1 && h[27] == 0
            &&& h[28] == 32 && h[29] == 0
            &&& forall|i: int| 30 <= i < 54 ==> h[i] == 0
        }),
        le32(54 + size)[0] + le32(54 + size)[1] * 0x100 + le32(54 + size)[2] * 0x1_0000 + le32(
            54 + size,
        )[3] * 0x100_0000 == 54 + size,
{
    let h = bitmap_header(width as int, height as int, size);
    assert(h.subrange(2, 6) =~= le32(54 + size));
    assert(h.subrange(10, 14) =~= le32(54));
    assert(h.subrange(14, 18) =~= le32(40));
    assert(h.subrange(18, 22) =~= le32(width as int));
    assert(h.subrange(22, 26) =~= le32(-height));
    let v = (54 + size) as u32;
    assert(v % 0x100 + v / 0x100 % 0x100 * 0x100 + v / 0x1_0000 % 0x100 * 0x1_0000 + v
        / 0x100_0000 % 0x100 * 0x100_0000 == v) by (bit_vector);
}

/// A preview shows two providers with sample readings; its unavailable form
/// shows no reading for Codex and Fable and keeps the rest.
pub proof fn law_previews_show_two_providers(dark: bool)
    ensures
        ({
            let (a, b) = (preview_of(dark, false), preview_of(dark, true));
            &&& a.claude && a.codex && !a.antigravity
            &&& a.is_dark == dark && b.is_dark == dark
            &&& a.width == widget_width(2, 192) && a.height == scaled(62, 192)
            &&& reads(a.texts.session) && reads(a.texts.weekly) && reads(a.texts.codex_weekly)
            &&& reads(a.texts.fable)
            &&& b.texts.session == a.texts.session && b.texts.weekly == a.texts.weekly
            &&& label_text(b.texts.codex_session) == "Offline"@
            &&& label_text(b.texts.codex_weekly) == "Not reported"@
            &&& label_text(b.texts.fable) == "Not reported"@
        }),
{
    lemma_widths_fit(2, PREVIEW_DPI);
    crate::readout::law_absence_is_named();
    reveal_strlit("!");
    reveal_strlit("...");
    reveal_strlit("n/a");
    reveal_strlit("");
    reveal_strlit("3h 12m");
    reveal_strlit("4d 8h");
    reveal_strlit("2d 6h");
    assert("!"@.len() == 1 && "..."@.len() == 3 && "n/a"@.len() == 3 && ""@.len() == 0);
    assert("3h 12m"@.len() == 6 && "4d 8h"@.len() == 5 && "2d 6h"@.len() == 5);
    assert(widget_width(2, PREVIEW_DPI) == preview_of(dark, false).width);
}

} // verus!
