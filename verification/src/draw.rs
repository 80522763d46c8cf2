//! What is drawn, as operations for a device context to carry out in order.
//!
//! Colours that move with the animation are kept as blends of colours; the
//! device context works them out frame by frame.
use crate::color::Color;
use crate::geometry::{fits, sc, scaled, Rect};
use crate::measure::Binary64;
use vstd::prelude::*;
use vstd::string::*;

verus! {

/// Font weights.
pub const FW_NORMAL: u32 = 400;

pub const FW_MEDIUM: u32 = 500;

pub const FW_SEMIBOLD: u32 = 600;

pub const FW_BOLD: u32 = 700;

/// Sums of a few coordinates and lengths within this distance of the origin
/// fit in 32 bits.
pub const REACH: i32 = 0x1000_0000;

pub open spec fn near(v: int) -> bool {
    -REACH <= v <= REACH
}

/// What animates a blend; each runs from 0 to 1.
#[derive(Clone, Copy, Debug, PartialEq, Eq, Structural)]
pub enum Signal {
    /// The slow breathing curve all gauges share.
    Breath,
    /// Decays after each poll.
    Flash,
    /// Decays after a countdown digit rolled over.
    TextTick,
}

/// How far a blend goes from its first colour to its second; held within 0
/// to 1 when it is worked out.
#[derive(Clone, Copy, Debug, PartialEq, Eq, Structural)]
pub enum Weight {
    /// Thousandths.
    Fixed(u32),
    /// `base + gain * signal`, `base` and `gain` in thousandths.
    Live { base: u32, gain: u32, signal: Signal },
    /// `(reading - start) / span`.
    Ramp { reading: Binary64, start: u32, span: u32 },
    /// `of / whole`.
    Part { of: u32, whole: u32 },
}

/// A colour, or a blend of two.
#[derive(Debug, PartialEq, Eq)]
pub enum Tint {
    Solid(Color),
    Mix { from: Box<Tint>, to: Box<Tint>, weight: Weight },
}

/// `from` blended toward `to`.
pub open spec fn mix(from: Tint, to: Tint, weight: Weight) -> Tint {
    Tint::Mix { from: Box::new(from), to: Box::new(to), weight }
}

impl Tint {
    pub fn copy(&self) -> (t: Tint)
        ensures
            t == *self,
        decreases self,
    {
        match self {
            Tint::Solid(c) => Tint::Solid(*c),
            Tint::Mix { from, to, weight } => Tint::Mix {
                from: Box::new(from.copy()),
                to: Box::new(to.copy()),
                weight: *weight,
            },
        }
    }
}

/// Blend a colour toward another.
pub fn mixed(from: &Tint, to: &Tint, weight: Weight) -> (t: Tint)
    ensures
        t == mix(*from, *to, weight),
{
    Tint::Mix { from: Box::new(from.copy()), to: Box::new(to.copy()), weight }
}

/// A font by its height in pixels, negative for the height of its characters,
/// and its weight.
#[derive(Clone, Copy, Debug, PartialEq, Eq, Structural)]
pub struct Font {
    pub height: i32,
    pub weight: u32,
}

/// The font of a size designed at 96 DPI.
pub open spec fn font_of(px: int, weight: u32, dpi: u32) -> Font {
    Font { height: scaled(px, dpi) as i32, weight }
}

pub fn make_font(px: i32, weight: u32, dpi: u32) -> (font: Font)
    ensures
        font == font_of(px as int, weight, dpi),
{
    Font { height: sc(px, dpi), weight }
}

/// How a line of text stands in its rectangle; it is always vertically centred.
#[derive(Clone, Copy, Debug, PartialEq, Eq, Structural)]
pub enum Align {
    Left,
    /// At the left, with ampersands drawn as they are.
    LeftVerbatim,
    Center,
    Right,
}

/// One operation on a device context.
#[verifier::ext_equal]
#[derive(Debug)]
pub enum DrawOp<T> {
    Fill { rect: Rect, color: Tint },
    /// Fill a rectangle with elliptic corners of the given diameter.
    FillRounded { rect: Rect, diameter: i32, color: Tint },
    /// Draw only inside a rectangle with elliptic corners.
    ClipRounded { rect: Rect, diameter: i32 },
    Unclip,
    Text { rect: Rect, text: T, color: Tint, font: Font, align: Align },
    FocusRect(Rect),
}

pub type Op = DrawOp<Seq<char>>;

impl View for DrawOp<String> {
    type V = DrawOp<Seq<char>>;

    open spec fn view(&self) -> DrawOp<Seq<char>> {
        match self {
            DrawOp::Fill { rect, color } => DrawOp::Fill { rect: *rect, color: *color },
            DrawOp::FillRounded { rect, diameter, color } => DrawOp::FillRounded {
                rect: *rect,
                diameter: *diameter,
                color: *color,
            },
            DrawOp::ClipRounded { rect, diameter } => DrawOp::ClipRounded {
                rect: *rect,
                diameter: *diameter,
            },
            DrawOp::Unclip => DrawOp::Unclip,
            DrawOp::Text { rect, text, color, font, align } => DrawOp::Text {
                rect: *rect,
                text: text@,
                color: *color,
                font: *font,
                align: *align,
            },
            DrawOp::FocusRect(rect) => DrawOp::FocusRect(*rect),
        }
    }
}

/// The rectangle between the given edges.
pub open spec fn area(left: int, top: int, right: int, bottom: int) -> Rect {
    Rect { left: left as i32, top: top as i32, right: right as i32, bottom: bottom as i32 }
}

/// A plain box; one without extent is not drawn.
pub open spec fn boxed(x: int, y: int, w: int, h: int, color: Tint) -> Seq<Op> {
    if w <= 0 || h <= 0 {
        Seq::empty()
    } else {
        seq![DrawOp::Fill { rect: area(x, y, x + w, y + h), color }]
    }
}

/// A rectangle with round corners, its right and bottom edges included.
pub open spec fn rounded(rect: Rect, color: Tint, radius: int) -> Seq<Op> {
    seq![
        DrawOp::FillRounded {
            rect: area(rect.left as int, rect.top as int, rect.right + 1, rect.bottom + 1),
            diameter: (radius * 2) as i32,
            color,
        },
    ]
}

/// A line of text; an empty one is not drawn.
pub open spec fn lettered(
    rect: Rect,
    text: Seq<char>,
    color: Tint,
    font: Font,
    align: Align,
) -> Seq<Op> {
    if text.len() == 0 {
        Seq::empty()
    } else {
        seq![DrawOp::Text { rect, text, color, font, align }]
    }
}

/// A drawing in the making.
#[derive(Debug)]
pub struct Canvas {
    pub ops: Vec<DrawOp<String>>,
}

impl View for Canvas {
    type V = Seq<DrawOp<Seq<char>>>;

    open spec fn view(&self) -> Seq<DrawOp<Seq<char>>> {
        self.ops@.map_values(|op: DrawOp<String>| op@)
    }
}

impl Canvas {
    pub fn new() -> (c: Canvas)
        ensures
            c@ == Seq::<Op>::empty(),
    {
        let c = Canvas { ops: Vec::new() };
        assert(c@ =~= Seq::<Op>::empty());
        c
    }

    pub fn push(&mut self, op: DrawOp<String>)
        ensures
            final(self)@ == old(self)@.push(op@),
    {
        self.ops.push(op);
        assert(self@ =~= old(self)@.push(op@));
    }

    /// Fill a plain rectangle. Most of the layout is one- and two-pixel boxes,
    /// which do not want round corners.
    pub fn fill_box(&mut self, x: i32, y: i32, w: i32, h: i32, color: Tint)
        requires
            w > 0 && h > 0 ==> fits(x + w) && fits(y + h),
        ensures
            final(self)@ == old(self)@ + boxed(x as int, y as int, w as int, h as int, color),
    {
        if w <= 0 || h <= 0 {
            assert(self@ =~= old(self)@ + Seq::<Op>::empty());
            return;
        }
        self.push(
            DrawOp::Fill { rect: Rect { left: x, top: y, right: x + w, bottom: y + h }, color },
        );
        assert(self@ =~= old(self)@ + boxed(x as int, y as int, w as int, h as int, color));
    }

    pub fn draw_rounded_rect(&mut self, rect: Rect, color: Tint, radius: i32)
        requires
            rect.right < i32::MAX,
            rect.bottom < i32::MAX,
            fits(radius * 2),
        ensures
            final(self)@ == old(self)@ + rounded(rect, color, radius as int),
    {
        self.push(
            DrawOp::FillRounded {
                rect: Rect {
                    left: rect.left,
                    top: rect.top,
                    right: rect.right + 1,
                    bottom: rect.bottom + 1,
                },
                diameter: radius * 2,
                color,
            },
        );
        assert(self@ =~= old(self)@ + rounded(rect, color, radius as int));
    }

    pub fn draw_text_in(&mut self, rect: Rect, text: &str, color: Tint, font: Font, align: Align)
        ensures
            final(self)@ == old(self)@ + lettered(rect, text@, color, font, align),
    {
        if text.is_empty() {
            assert(self@ =~= old(self)@ + Seq::<Op>::empty());
            return;
        }
        self.push(DrawOp::Text { rect, text: text.to_owned(), color, font, align });
        assert(self@ =~= old(self)@ + lettered(rect, text@, color, font, align));
    }
}

/// The texts of a drawing, in the order they are drawn.
pub open spec fn written(ops: Seq<Op>) -> Seq<Seq<char>>
    decreases ops.len(),
{
    if ops.len() == 0 {
        Seq::empty()
    } else {
        match ops.last() {
            DrawOp::Text { text, .. } => written(ops.drop_last()).push(text),
            _ => written(ops.drop_last()),
        }
    }
}

pub proof fn lemma_written_add(a: Seq<Op>, b: Seq<Op>)
    ensures
        written(a + b) == written(a) + written(b),
    decreases b.len(),
{
    if b.len() == 0 {
        assert(a + b =~= a);
        assert(written(a) + written(b) =~= written(a));
    } else {
        lemma_written_add(a, b.drop_last());
        assert((a + b).drop_last() =~= a + b.drop_last());
        assert(written(a + b) =~= written(a) + written(b));
    }
}

/// A drawing without texts says nothing.
pub proof fn lemma_says_nothing(ops: Seq<Op>)
    requires
        forall|i: int| 0 <= i < ops.len() ==> !(#[trigger] ops[i] is Text),
    ensures
        written(ops) == Seq::<Seq<char>>::empty(),
    decreases ops.len(),
{
    if ops.len() > 0 {
        assert forall|i: int| 0 <= i < ops.drop_last().len() implies !(#[trigger] ops.drop_last()[i]
            is Text) by {
            assert(ops.drop_last()[i] == ops[i]);
        }
        lemma_says_nothing(ops.drop_last());
    }
}

/// A line of text says itself.
pub proof fn lemma_says_itself(
    rect: Rect,
    text: Seq<char>,
    color: Tint,
    font: Font,
    align: Align,
)
    requires
        text.len() > 0,
    ensures
        written(lettered(rect, text, color, font, align)) == seq![text],
{
    let ops = lettered(rect, text, color, font, align);
    reveal_with_fuel(written, 2);
    assert(ops.drop_last() =~= Seq::empty());
    assert(written(ops) =~= seq![text]);
}

/// A box covers exactly its width and height from its top left, in its colour;
/// one without extent is not drawn.
pub proof fn law_boxes_cover_their_extent(x: i32, y: i32, w: i32, h: i32, color: Tint)
    requires
        w > 0 && h > 0 ==> fits(x + w) && fits(y + h),
    ensures
        ({
            let ops = boxed(x as int, y as int, w as int, h as int, color);
            &&& w <= 0 || h <= 0 <==> ops.len() == 0
            &&& ops.len() > 0 ==> {
                &&& ops.len() == 1
                &&& ops[0] matches DrawOp::Fill { rect, color: c } && {
                    &&& rect.left == x && rect.top == y
                    &&& rect.right - rect.left == w && rect.bottom - rect.top == h
                    &&& c == color
                }
            }
        }),
{
}

/// A rounded rectangle includes its right and bottom edges, and its corners
/// have the given radius.
pub proof fn law_rounded_rectangles_include_their_edges(rect: Rect, color: Tint, radius: i32)
    requires
        rect.right < i32::MAX,
        rect.bottom < i32::MAX,
        fits(radius * 2),
    ensures
        ({
            let ops = rounded(rect, color, radius as int);
            &&& ops.len() == 1
            &&& ops[0] matches DrawOp::FillRounded { rect: r, diameter, color: c } && {
                &&& r.left == rect.left && r.top == rect.top
                &&& r.right == rect.right + 1 && r.bottom == rect.bottom + 1
                &&& diameter == 2 * radius && c == color
            }
        }),
{
}

/// A line of text is drawn as given; an empty one is not drawn.
pub proof fn law_texts_are_drawn_as_given(
    rect: Rect,
    text: Seq<char>,
    color: Tint,
    font: Font,
    align: Align,
)
    ensures
        text.len() == 0 ==> lettered(rect, text, color, font, align).len() == 0,
        text.len() > 0 ==> lettered(rect, text, color, font, align) == seq![
            DrawOp::Text { rect, text, color, font, align },
        ],
{
}

/// A blend keeps its two colours apart: it goes from the first to the second.
pub proof fn law_blends_have_a_direction(from: Tint, to: Tint, weight: Weight)
    ensures
        mix(from, to, weight) matches Tint::Mix { from: a, to: b, weight: w } && *a == from && *b
            == to && w == weight,
{
}

} // verus!
