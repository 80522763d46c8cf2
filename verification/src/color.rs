//! Colours and the conversions between the packings the shell uses.
use vstd::prelude::*;

verus! {

/// A colour by its red, green and blue levels.
#[derive(Clone, Copy, Debug, PartialEq, Eq, Structural)]
pub struct Color {
    pub r: u8,
    pub g: u8,
    pub b: u8,
}

/// The colour that `0xRRGGBB` names. Bits above the low 24 are ignored.
pub open spec fn color_of(rgb: u32) -> Color {
    Color {
        r: (rgb / 0x10000 % 0x100) as u8,
        g: (rgb / 0x100 % 0x100) as u8,
        b: (rgb % 0x100) as u8,
    }
}

/// `0xRRGGBB` for a colour.
pub open spec fn packed(c: Color) -> int {
    c.r * 0x10000 + c.g * 0x100 + c.b
}

impl Color {
    /// `0xBBGGRR`: red in the low byte, as device contexts take colours.
    pub open spec fn colorref(self) -> int {
        self.b * 0x10000 + self.g * 0x100 + self.r
    }

    pub fn new(r: u8, g: u8, b: u8) -> (c: Color)
        ensures
            c == (Color { r, g, b }),
    {
        Color { r, g, b }
    }

    /// The colour as a device context takes it, `0xBBGGRR`.
    pub fn to_colorref(self) -> (bgr: u32)
        ensures
            bgr == self.colorref(),
    {
        self.b as u32 * 0x10000 + self.g as u32 * 0x100 + self.r as u32
    }
}

/// The colour that `0xRRGGBB` names.
pub fn color(rgb: u32) -> (c: Color)
    ensures
        c == color_of(rgb),
{
    Color::new((rgb / 0x10000 % 0x100) as u8, (rgb / 0x100 % 0x100) as u8, (rgb % 0x100) as u8)
}

/// A colour as `0xRRGGBB`.
pub fn rgb(c: Color) -> (value: u32)
    ensures
        value == packed(c),
{
    c.r as u32 * 0x10000 + c.g as u32 * 0x100 + c.b as u32
}

/// `0xBBGGRR` to `0xRRGGBB`. Bits above the low 24 are dropped.
pub open spec fn swapped(bgr: u32) -> int {
    (bgr % 0x100) * 0x10000 + (bgr / 0x100 % 0x100) * 0x100 + bgr / 0x10000 % 0x100
}

/// Turn the `0xBBGGRR` a colour dialog hands back into `0xRRGGBB`.
pub fn bgr_to_rgb(bgr: u32) -> (value: u32)
    ensures
        value == swapped(bgr),
{
    (bgr % 0x100) * 0x10000 + (bgr / 0x100 % 0x100) * 0x100 + bgr / 0x10000 % 0x100
}

/// Packing a colour and reading it back gives the colour.
pub proof fn law_color_round_trip(c: Color)
    ensures
        0 <= packed(c) <= 0xffffff,
        color_of(packed(c) as u32) == c,
{
}

/// Reading a value as a colour and packing it again keeps its low 24 bits.
pub proof fn law_packing_keeps_the_low_bits(rgb: u32)
    ensures
        packed(color_of(rgb)) == rgb % 0x1000000,
{
    lemma_low_bytes(rgb);
}

/// Handing a colour to a device context and reading the context's packing back
/// names the same colour: only the low 24 bits of the value count.
pub proof fn law_device_round_trip(rgb: u32)
    ensures
        0 <= color_of(rgb).colorref() <= 0xffffff,
        swapped(color_of(rgb).colorref() as u32) == rgb % 0x1000000,
{
    let c = color_of(rgb);
    lemma_low_bytes(rgb);
    lemma_bytes(c.r as int, c.g as int, c.b as int);
}

proof fn lemma_bytes(low: int, mid: int, high: int)
    requires
        0 <= low < 0x100,
        0 <= mid < 0x100,
        0 <= high < 0x100,
    ensures
        ({
            let x = high * 0x10000 + mid * 0x100 + low;
            &&& x % 0x100 == low
            &&& x / 0x100 % 0x100 == mid
            &&& x / 0x10000 % 0x100 == high
        }),
{
}

proof fn lemma_low_bytes(x: u32)
    ensures
        x % 0x1000000 == (x / 0x10000 % 0x100) * 0x10000 + (x / 0x100 % 0x100) * 0x100 + x % 0x100,
{
    assert(x % 0x1000000 == (x / 0x10000 % 0x100) * 0x10000 + (x / 0x100 % 0x100) * 0x100 + x
        % 0x100) by (bit_vector);
}

/// Swapping the outer channels twice gives the value back.
pub proof fn law_swap_is_its_own_inverse(bgr: u32)
    requires
        bgr <= 0xffffff,
    ensures
        0 <= swapped(bgr) <= 0xffffff,
        swapped(swapped(bgr) as u32) == bgr,
{
    lemma_low_bytes(bgr);
    lemma_bytes(
        (bgr / 0x10000 % 0x100) as int,
        (bgr / 0x100 % 0x100) as int,
        (bgr % 0x100) as int,
    );
}

/// Red comes first where colours are written down, and last where a device
/// context takes them; green stays in the middle.
pub proof fn law_channels_have_their_places(r: u8, g: u8, b: u8)
    ensures
        color_of((r * 0x10000 + g * 0x100 + b) as u32) == (Color { r, g, b }),
        packed(Color { r, g, b }) == r * 0x10000 + g * 0x100 + b,
        (Color { r, g, b }).colorref() == b * 0x10000 + g * 0x100 + r,
        swapped((b * 0x10000 + g * 0x100 + r) as u32) == r * 0x10000 + g * 0x100 + b,
{
    lemma_bytes(b as int, g as int, r as int);
    lemma_bytes(r as int, g as int, b as int);
}

} // verus!
