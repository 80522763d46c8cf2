//! Pixel geometry: DPI scaling, widget size, and where the widget may stand.
use vstd::prelude::*;

verus! {

/// A rectangle in pixels; right and bottom are exclusive.
#[derive(Clone, Copy, Debug, PartialEq, Eq, Structural)]
pub struct Rect {
    pub left: i32,
    pub top: i32,
    pub right: i32,
    pub bottom: i32,
}

/// A position in pixels.
#[derive(Clone, Copy, Debug, PartialEq, Eq, Structural)]
pub struct Point {
    pub x: i32,
    pub y: i32,
}

/// A window's position and size.
#[derive(Clone, Copy, Debug, PartialEq, Eq, Structural)]
pub struct Placement {
    pub x: i32,
    pub y: i32,
    pub width: i32,
    pub height: i32,
}

pub const WIDGET_HEIGHT: i32 = 62;

pub const LEFT_DIVIDER_W: i32 = 3;

/// Where the first provider's card starts, and what each provider occupies.
pub const CONTENT_X: i32 = 28;

pub const PROVIDER_W: i32 = 174;

pub const PROVIDER_GAP: i32 = 8;

/// The distance a fresh widget keeps from the edges of the work area.
pub const FLOATING_MARGIN: i32 = 16;

/// Up to this DPI every layout sum stays within 32 bits.
pub const MAX_DPI: u32 = 0x100_0000;

pub open spec fn fits(v: int) -> bool {
    i32::MIN <= v <= i32::MAX
}

pub open spec fn larger(a: int, b: int) -> int {
    if a < b {
        b
    } else {
        a
    }
}

/// `v` brought into `low..=high`.
pub open spec fn clamped(v: int, low: int, high: int) -> int {
    if v < low {
        low
    } else if v > high {
        high
    } else {
        v
    }
}

/// `n / 96` rounded to the nearest whole number, an exact half going away from
/// zero.
pub open spec fn ninety_sixths(n: int) -> int {
    if n >= 0 {
        (2 * n + 96) / 192
    } else {
        -((2 * -n + 96) / 192)
    }
}

/// A length designed at 96 DPI, in pixels at `dpi`, held within 32 bits.
pub open spec fn scaled(px: int, dpi: u32) -> int {
    clamped(ninety_sixths(px * dpi), i32::MIN as int, i32::MAX as int)
}

/// The width one provider takes, its gap included.
pub open spec fn slot_width(dpi: u32) -> int {
    scaled(PROVIDER_W as int, dpi) + scaled(PROVIDER_GAP as int, dpi)
}

/// The width of a widget that shows `active` providers.
pub open spec fn widget_width(active: int, dpi: u32) -> int {
    scaled(CONTENT_X as int, dpi) + slot_width(dpi) * active - scaled(PROVIDER_GAP as int, dpi)
}

impl Rect {
    pub open spec fn contains(self, p: Point) -> bool {
        self.left <= p.x < self.right && self.top <= p.y < self.bottom
    }
}

/// The larger of two lengths.
pub fn max_i32(a: i32, b: i32) -> (m: i32)
    ensures
        m == larger(a as int, b as int),
{
    if a < b {
        b
    } else {
        a
    }
}

fn clamp_i32(v: i32, low: i32, high: i32) -> (r: i32)
    ensures
        r == clamped(v as int, low as int, high as int),
{
    if v < low {
        low
    } else if v > high {
        high
    } else {
        v
    }
}

/// Scale a length designed at 96 DPI to `dpi`.
pub fn sc(px: i32, dpi: u32) -> (pixels: i32)
    ensures
        pixels == scaled(px as int, dpi),
{
    assert(-0x8000_0000_0000_0000 < px * dpi < 0x8000_0000_0000_0000) by (nonlinear_arith)
        requires
            -0x8000_0000 <= px < 0x8000_0000,
            0 <= dpi < 0x1_0000_0000,
    ;
    let n: i128 = (px as i64 * dpi as i64) as i128;
    let q: i128 = if n >= 0 {
        (2 * n + 96) / 192
    } else {
        -((2 * (0 - n) + 96) / 192)
    };
    if q > i32::MAX as i128 {
        i32::MAX
    } else if q < i32::MIN as i128 {
        i32::MIN
    } else {
        q as i32
    }
}

pub fn provider_slot_width(dpi: u32) -> (width: i32)
    requires
        fits(slot_width(dpi)),
    ensures
        width == slot_width(dpi),
{
    sc(PROVIDER_W, dpi) + sc(PROVIDER_GAP, dpi)
}

pub fn total_widget_width_for(active_models: i32, dpi: u32) -> (width: i32)
    requires
        fits(slot_width(dpi)),
        fits(slot_width(dpi) * active_models),
        fits(scaled(CONTENT_X as int, dpi) + slot_width(dpi) * active_models),
        fits(widget_width(active_models as int, dpi)),
    ensures
        width == widget_width(active_models as int, dpi),
{
    sc(CONTENT_X, dpi) + provider_slot_width(dpi) * active_models - sc(PROVIDER_GAP, dpi)
}

/// How many provider cards are laid out; never fewer than one.
pub open spec fn shown_count(claude: bool, codex: bool, antigravity: bool) -> int {
    let n = (if claude {
        1int
    } else {
        0
    }) + (if codex {
        1int
    } else {
        0
    }) + (if antigravity {
        1int
    } else {
        0
    });
    larger(n, 1)
}

pub fn active_model_count(show_claude_code: bool, show_codex: bool, show_antigravity: bool) -> (n:
    i32)
    ensures
        n == shown_count(show_claude_code, show_codex, show_antigravity),
        1 <= n <= 3,
{
    let mut n: i32 = 0;
    if show_claude_code {
        n = n + 1;
    }
    if show_codex {
        n = n + 1;
    }
    if show_antigravity {
        n = n + 1;
    }
    max_i32(n, 1)
}

/// Lengths of the size that layouts are made of stay far from overflowing.
pub proof fn lemma_lengths_fit(px: int, dpi: u32)
    requires
        dpi <= MAX_DPI,
        0 <= px <= 1024,
    ensures
        0 <= scaled(px, dpi) <= 0x1000_0000,
{
    assert(0 <= px * dpi <= 1024 * 0x100_0000) by (nonlinear_arith)
        requires
            0 <= dpi <= 0x100_0000,
            0 <= px <= 1024,
    ;
}

/// For any usable DPI, one to three providers give a width that fits.
pub proof fn lemma_widths_fit(active: int, dpi: u32)
    requires
        dpi <= MAX_DPI,
        1 <= active <= 3,
    ensures
        fits(slot_width(dpi)),
        fits(slot_width(dpi) * active),
        fits(scaled(CONTENT_X as int, dpi) + slot_width(dpi) * active),
        0 <= widget_width(active, dpi) <= 0x1000_0000,
        active == 1 ==> slot_width(dpi) * active == slot_width(dpi),
        active == 2 ==> slot_width(dpi) * active == 2 * slot_width(dpi),
        active == 3 ==> slot_width(dpi) * active == 3 * slot_width(dpi),
{
    if active == 1 {
        assert(slot_width(dpi) * active == slot_width(dpi));
    } else if active == 2 {
        assert(slot_width(dpi) * active == 2 * slot_width(dpi));
    } else {
        assert(slot_width(dpi) * active == 3 * slot_width(dpi));
    }
}

/// The drag handle: a strip at the left edge, vertically centred.
pub open spec fn handle_contains(x: int, y: int, dpi: u32) -> bool {
    let height = scaled(25, dpi);
    let top = (scaled(WIDGET_HEIGHT as int, dpi) - height) / 2;
    &&& 0 <= x < scaled(LEFT_DIVIDER_W as int, dpi)
    &&& top <= y < top + height
}

pub fn is_drag_handle_point(client_x: i32, client_y: i32, dpi: u32) -> (on_handle: bool)
    ensures
        on_handle == handle_contains(client_x as int, client_y as int, dpi),
{
    let divider_h: i32 = sc(25, dpi);
    let divider_top: i32 = (sc(WIDGET_HEIGHT, dpi) - divider_h) / 2;
    client_x >= 0 && client_x < sc(LEFT_DIVIDER_W, dpi) && client_y >= divider_top && client_y
        - divider_top < divider_h
}

/// Bottom-align within the anchor, but never above its top.
pub open spec fn anchor_y(top: int, height: int, widget_height: int) -> int {
    larger(top + height - widget_height, top)
}

pub fn compute_anchor_y(anchor_top: i32, anchor_height: i32, widget_height: i32) -> (y: i32)
    requires
        fits(anchor_top + anchor_height),
        fits(anchor_top + anchor_height - widget_height),
    ensures
        y == anchor_y(anchor_top as int, anchor_height as int, widget_height as int),
{
    let anchor_bottom: i32 = anchor_top + anchor_height;
    max_i32(anchor_bottom - widget_height, anchor_top)
}

/// The position nearest to (`x`, `y`) at which a widget of the given size is
/// inside `work`; one too large for `work` stands at its top left.
pub open spec fn inside(x: int, y: int, width: int, height: int, work: Rect) -> (int, int) {
    (
        clamped(x, work.left as int, larger(work.right - width, work.left as int)),
        clamped(y, work.top as int, larger(work.bottom - height, work.top as int)),
    )
}

pub fn clamp_desktop_position(x: i32, y: i32, width: i32, height: i32, work: Rect) -> (position: (
    i32,
    i32,
))
    requires
        fits(work.right - width),
        fits(work.bottom - height),
    ensures
        (position.0 as int, position.1 as int) == inside(
            x as int,
            y as int,
            width as int,
            height as int,
            work,
        ),
{
    (
        clamp_i32(x, work.left, max_i32(work.right - width, work.left)),
        clamp_i32(y, work.top, max_i32(work.bottom - height, work.top)),
    )
}

/// Where the floating widget stands: its saved position, or the top right of
/// the work area, brought inside the work area.
pub open spec fn floating_at(
    saved: Option<(i32, i32)>,
    width: int,
    height: int,
    work: Rect,
    dpi: u32,
) -> (int, int) {
    match saved {
        Some(p) => inside(p.0 as int, p.1 as int, width, height, work),
        None => inside(
            work.right - width - scaled(FLOATING_MARGIN as int, dpi),
            work.top + scaled(FLOATING_MARGIN as int, dpi),
            width,
            height,
            work,
        ),
    }
}

pub fn floating_position(
    saved: Option<(i32, i32)>,
    width: i32,
    height: i32,
    work: Rect,
    dpi: u32,
) -> (position: (i32, i32))
    requires
        fits(work.right - width),
        fits(work.bottom - height),
        fits(work.right - width - scaled(FLOATING_MARGIN as int, dpi)),
        fits(work.top + scaled(FLOATING_MARGIN as int, dpi)),
    ensures
        (position.0 as int, position.1 as int) == floating_at(
            saved,
            width as int,
            height as int,
            work,
            dpi,
        ),
{
    match saved {
        Some((x, y)) => clamp_desktop_position(x, y, width, height, work),
        None => clamp_desktop_position(
            work.right - width - sc(FLOATING_MARGIN, dpi),
            work.top + sc(FLOATING_MARGIN, dpi),
            width,
            height,
            work,
        ),
    }
}

/// The edge that taskbar offsets are measured from: the tray's left edge, or
/// the taskbar's right edge when there is no tray.
pub open spec fn tray_edge(taskbar: Rect, tray: Option<Rect>) -> i32 {
    match tray {
        Some(r) => r.left,
        None => taskbar.right,
    }
}

pub fn tray_left_for_taskbar(taskbar: Rect, tray: Option<Rect>) -> (left: i32)
    ensures
        left == tray_edge(taskbar, tray),
{
    match tray {
        Some(r) => r.left,
        None => taskbar.right,
    }
}

/// The farthest an embedded widget may be moved left of the tray.
pub open spec fn offset_limit(taskbar: Rect, tray_left: int, width: int) -> int {
    larger(tray_left - taskbar.left - width, 0)
}

pub fn clamp_offset_for_taskbar(taskbar: Rect, tray_left: i32, width: i32, offset: i32) -> (o: i32)
    requires
        fits(tray_left - taskbar.left),
        fits(tray_left - taskbar.left - width),
    ensures
        o == clamped(offset as int, 0, offset_limit(taskbar, tray_left as int, width as int)),
        0 <= o <= offset_limit(taskbar, tray_left as int, width as int),
{
    let max_offset: i32 = max_i32(tray_left - taskbar.left - width, 0);
    clamp_i32(offset, 0, max_offset)
}

/// The offset that keeps the grabbed spot of the widget under the cursor.
pub open spec fn drop_offset(
    taskbar: Rect,
    tray_left: int,
    width: int,
    at: Point,
    grabbed_x: int,
) -> int {
    tray_left - taskbar.left - width - (at.x - taskbar.left - grabbed_x)
}

pub fn offset_for_drop_point(
    taskbar: Rect,
    tray_left: i32,
    width: i32,
    at: Point,
    drag_start_client_x: i32,
) -> (o: i32)
    requires
        fits(tray_left - taskbar.left),
        fits(tray_left - taskbar.left - width),
        fits(at.x - taskbar.left),
        fits(at.x - taskbar.left - drag_start_client_x),
        fits(
            drop_offset(taskbar, tray_left as int, width as int, at, drag_start_client_x as int),
        ),
    ensures
        o == clamped(
            drop_offset(taskbar, tray_left as int, width as int, at, drag_start_client_x as int),
            0,
            offset_limit(taskbar, tray_left as int, width as int),
        ),
{
    let desired_left: i32 = at.x - taskbar.left - drag_start_client_x;
    let offset: i32 = tray_left - taskbar.left - width - desired_left;
    clamp_offset_for_taskbar(taskbar, tray_left, width, offset)
}

/// None of the first `n` taskbars contains the point.
pub open spec fn none_before(n: int, at: Point, taskbars: Seq<Rect>) -> bool {
    forall|j: int| 0 <= j < n ==> !taskbars[j].contains(at)
}

/// The first taskbar that contains a point.
pub fn taskbar_at_point(at: Point, taskbars: &Vec<Rect>) -> (index: Option<usize>)
    ensures
        match index {
            Some(i) => i < taskbars@.len() && taskbars@[i as int].contains(at) && none_before(
                i as int,
                at,
                taskbars@,
            ),
            None => none_before(taskbars@.len() as int, at, taskbars@),
        },
{
    let mut i: usize = 0;
    while i < taskbars.len()
        invariant
            i <= taskbars@.len(),
            forall|j: int| 0 <= j < i ==> !taskbars@[j].contains(at),
        decreases taskbars@.len() - i,
    {
        let r = taskbars[i];
        if at.x >= r.left && at.x < r.right && at.y >= r.top && at.y < r.bottom {
            return Some(i);
        }
        i = i + 1;
    }
    None
}

/// The taskbar to attach to: the requested one, or the last there is.
pub fn choose_taskbar(requested: usize, count: usize) -> (index: Option<usize>)
    ensures
        count == 0 <==> index is None,
        count > 0 ==> index == Some(
            if requested < count {
                requested
            } else {
                (count - 1) as usize
            },
        ),
{
    if count == 0 {
        None
    } else if requested < count {
        Some(requested)
    } else {
        Some(count - 1)
    }
}

/// Where a widget tied to the taskbar stands: left of the tray by `offset`,
/// bottom-aligned. An embedded widget counts from the taskbar's corner.
pub open spec fn at_taskbar(
    taskbar: Rect,
    tray_left: int,
    width: int,
    height: int,
    offset: int,
    embedded: bool,
) -> (int, int) {
    let y = anchor_y(taskbar.top as int, taskbar.bottom - taskbar.top, height);
    if embedded {
        (tray_left - taskbar.left - width - offset, y - taskbar.top)
    } else {
        (tray_left - width - offset, y)
    }
}

/// The sums in `taskbar_placement` stay within 32 bits.
pub open spec fn taskbar_fits(
    taskbar: Rect,
    tray_left: int,
    width: int,
    height: int,
    offset: int,
) -> bool {
    &&& fits(taskbar.bottom - taskbar.top)
    &&& fits(taskbar.bottom - height)
    &&& fits(taskbar.bottom - height - taskbar.top)
    &&& fits(tray_left - taskbar.left)
    &&& fits(tray_left - taskbar.left - width)
    &&& fits(tray_left - taskbar.left - width - offset)
    &&& fits(tray_left - width)
    &&& fits(tray_left - width - offset)
}

pub fn taskbar_placement(
    taskbar: Rect,
    tray_left: i32,
    width: i32,
    height: i32,
    offset: i32,
    embedded: bool,
) -> (p: Placement)
    requires
        taskbar_fits(taskbar, tray_left as int, width as int, height as int, offset as int),
    ensures
        (p.x as int, p.y as int) == at_taskbar(
            taskbar,
            tray_left as int,
            width as int,
            height as int,
            offset as int,
            embedded,
        ),
        p.width == width,
        p.height == height,
{
    let y: i32 = compute_anchor_y(taskbar.top, taskbar.bottom - taskbar.top, height);
    if embedded {
        Placement {
            x: tray_left - taskbar.left - width - offset,
            y: y - taskbar.top,
            width,
            height,
        }
    } else {
        Placement { x: tray_left - width - offset, y, width, height }
    }
}

/// The centred start of a span of `size` within `low..high`; one that does not
/// fit starts at `low`.
pub open spec fn centred(low: int, high: int, size: int) -> int {
    low + larger(high - low - size, 0) / 2
}

/// The top left at which a window of the given size is centred in `work`.
pub fn centred_position(work: Rect, width: i32, height: i32) -> (p: (i32, i32))
    requires
        fits(work.right - work.left),
        fits(work.right - work.left - width),
        fits(work.bottom - work.top),
        fits(work.bottom - work.top - height),
        width >= 0,
        height >= 0,
    ensures
        p.0 == centred(work.left as int, work.right as int, width as int),
        p.1 == centred(work.top as int, work.bottom as int, height as int),
{
    (
        work.left + max_i32(work.right - work.left - width, 0) / 2,
        work.top + max_i32(work.bottom - work.top - height, 0) / 2,
    )
}

/// The low 16 bits of a message parameter as a signed coordinate.
pub open spec fn signed_word(v: int) -> int {
    let w = v % 0x10000;
    if w < 0x8000 {
        w
    } else {
        w - 0x10000
    }
}

/// The x and y that a mouse message packs into one parameter.
pub fn unpack_point(packed: u32) -> (p: Point)
    ensures
        p.x == signed_word(packed as int),
        p.y == signed_word(packed as int / 0x10000),
{
    let low: i32 = (packed % 0x10000) as i32;
    let high: i32 = (packed / 0x10000) as i32;
    Point {
        x: if low < 0x8000 {
            low
        } else {
            low - 0x10000
        },
        y: if high < 0x8000 {
            high
        } else {
            high - 0x10000
        },
    }
}

/// The low 16 bits of each coordinate, x in the low half.
pub open spec fn packed_point(p: Point) -> int {
    (p.y as int % 0x10000) * 0x10000 + p.x as int % 0x10000
}

/// Pack a screen position into one message parameter.
pub fn pack_point(p: Point) -> (packed: u32)
    ensures
        packed == packed_point(p),
{
    low_word(p.y) * 0x10000 + low_word(p.x)
}

fn low_word(v: i32) -> (w: u32)
    ensures
        w == v as int % 0x10000,
{
    if v >= 0 {
        (v % 0x10000) as u32
    } else {
        let wide: i64 = v as i64 + 0x8000_0000;
        (wide % 0x10000) as u32
    }
}

/// A widget that fits its work area ends up wholly inside it, and one that is
/// inside already stays where it is.
pub proof fn law_position_is_inside_the_work_area(
    x: int,
    y: int,
    width: int,
    height: int,
    work: Rect,
)
    requires
        0 <= width <= work.right - work.left,
        0 <= height <= work.bottom - work.top,
    ensures
        ({
            let (px, py) = inside(x, y, width, height, work);
            &&& work.left <= px && px + width <= work.right
            &&& work.top <= py && py + height <= work.bottom
            &&& work.left <= x && x + width <= work.right ==> px == x
            &&& work.top <= y && y + height <= work.bottom ==> py == y
        }),
{
}

/// A widget larger than the work area shows its top left corner.
pub proof fn law_small_displays_show_the_top_left(
    x: int,
    y: int,
    width: int,
    height: int,
    work: Rect,
)
    ensures
        width >= work.right - work.left ==> inside(x, y, width, height, work).0 == work.left,
        height >= work.bottom - work.top ==> inside(x, y, width, height, work).1 == work.top,
{
}

/// Placing a placed widget again moves nothing.
pub proof fn law_placing_is_idempotent(x: int, y: int, width: int, height: int, work: Rect)
    ensures
        ({
            let p = inside(x, y, width, height, work);
            inside(p.0, p.1, width, height, work) == p
        }),
{
}

/// A fresh widget, one margin in from the top right corner, needs no moving
/// where it fits with its margins.
pub proof fn law_fresh_widgets_stand_at_the_top_right(width: int, height: int, work: Rect, dpi: u32)
    requires
        0 <= width,
        0 <= height,
        width + scaled(FLOATING_MARGIN as int, dpi) <= work.right - work.left,
        height + scaled(FLOATING_MARGIN as int, dpi) <= work.bottom - work.top,
    ensures
        floating_at(None, width, height, work, dpi) == (
            work.right - width - scaled(FLOATING_MARGIN as int, dpi),
            work.top + scaled(FLOATING_MARGIN as int, dpi),
        ),
{
}

/// At 96 DPI a length is its own number of pixels.
pub proof fn law_design_dpi_is_the_identity(px: i32)
    ensures
        scaled(px as int, 96) == px,
{
}

/// Scaling treats both directions alike and never reverses the order of two
/// lengths.
pub proof fn law_scaling_is_monotone(a: i32, b: i32, dpi: u32)
    requires
        a <= b,
    ensures
        scaled(a as int, dpi) <= scaled(b as int, dpi),
        a != i32::MIN && ninety_sixths(a * dpi) != -0x8000_0000 && ninety_sixths(a * dpi)
            >= -0x8000_0000 && ninety_sixths(a * dpi) <= 0x7fff_ffff ==> scaled(-a, dpi)
            == -scaled(a as int, dpi),
{
    assert(a * dpi <= b * dpi) by (nonlinear_arith)
        requires
            a <= b,
            dpi >= 0,
    ;
    assert((-a) * dpi == -(a * dpi)) by (nonlinear_arith);
}

/// Packing a position and unpacking it gives it back, for coordinates of 16
/// bits.
pub proof fn law_packed_points_round_trip(p: Point)
    requires
        -0x8000 <= p.x < 0x8000,
        -0x8000 <= p.y < 0x8000,
    ensures
        signed_word(packed_point(p)) == p.x,
        signed_word(packed_point(p) / 0x10000) == p.y,
{
}

/// Each further provider widens the widget by one slot.
pub proof fn law_each_provider_adds_a_slot(active: int, dpi: u32)
    ensures
        widget_width(active + 1, dpi) == widget_width(active, dpi) + slot_width(dpi),
        widget_width(1, 96) == 202,
{
    assert(slot_width(dpi) * (active + 1) == slot_width(dpi) * active + slot_width(dpi))
        by (nonlinear_arith);
}

/// A scaled length is the nearest whole number of pixels: no further than half
/// a pixel from `px * dpi / 96`, where that is within 32 bits.
pub proof fn law_scaling_goes_to_the_nearest_pixel(px: int, dpi: u32)
    requires
        -0x1000_0000 * 96 <= px * dpi <= 0x1000_0000 * 96,
    ensures
        -48 <= 96 * scaled(px, dpi) - px * dpi <= 48,
        96 * scaled(px, dpi) - px * dpi == 48 ==> px * dpi > 0,
        96 * scaled(px, dpi) - px * dpi == -48 ==> px * dpi < 0,
{
}

/// Each provider takes 174 pixels and a gap of 8 at the design size, after 28
/// pixels for the handle and the memory column.
pub proof fn law_the_layout_has_its_sizes(active: int)
    requires
        0 <= active <= 3,
    ensures
        slot_width(96) == 182,
        widget_width(active, 96) == 20 + 182 * active,
        scaled(WIDGET_HEIGHT as int, 96) == 62,
{
}

/// As many cards are laid out as providers are shown, and never none.
pub proof fn law_shown_providers_are_counted(a: bool, b: bool, c: bool)
    ensures
        shown_count(a, b, c) == shown_count(b, a, c) == shown_count(a, c, b),
        shown_count(false, false, false) == 1,
        shown_count(true, false, false) == 1,
        shown_count(true, true, false) == 2,
        shown_count(true, true, true) == 3,
{
}

/// The handle is three design pixels wide and twenty-five high, at the left
/// edge, in the middle of the widget's height.
pub proof fn law_the_handle_is_at_the_left_edge(x: int, y: int, dpi: u32)
    ensures
        handle_contains(x, y, dpi) ==> 0 <= x < scaled(3, dpi),
        handle_contains(x, y, 96) <==> 0 <= x < 3 && 18 <= y < 43,
{
}

/// A widget at a taskbar ends where its offset says left of the tray, rests on
/// the taskbar's bottom where it fits, and never rises above its top. Embedded,
/// its place counts from the taskbar's corner.
pub proof fn law_widgets_rest_on_the_taskbar(
    taskbar: Rect,
    tray_left: int,
    width: int,
    height: int,
    offset: int,
)
    ensures
        ({
            let free = at_taskbar(taskbar, tray_left, width, height, offset, false);
            let inner = at_taskbar(taskbar, tray_left, width, height, offset, true);
            &&& free.0 + width + offset == tray_left
            &&& height <= taskbar.bottom - taskbar.top ==> free.1 + height == taskbar.bottom
            &&& height > taskbar.bottom - taskbar.top ==> free.1 == taskbar.top
            &&& inner.0 == free.0 - taskbar.left
            &&& inner.1 == free.1 - taskbar.top
        }),
{
}

/// Offsets count from the tray, or from the taskbar's right end where there is
/// none, and reach at most to the taskbar's left end.
pub proof fn law_offsets_count_from_the_tray(
    taskbar: Rect,
    tray: Option<Rect>,
    width: int,
    offset: int,
)
    ensures
        tray is Some ==> tray_edge(taskbar, tray) == tray->0.left,
        tray is None ==> tray_edge(taskbar, tray) == taskbar.right,
        ({
            let edge = tray_edge(taskbar, tray) as int;
            let limit = offset_limit(taskbar, edge, width);
            &&& limit >= 0
            &&& 0 < offset ==> (offset <= limit <==> edge - width - offset >= taskbar.left)
        }),
{
}

/// A drop keeps the grabbed spot of the widget under the cursor.
pub proof fn law_drops_keep_the_grabbed_spot(
    taskbar: Rect,
    tray_left: int,
    width: int,
    height: int,
    at: Point,
    grabbed_x: int,
)
    ensures
        ({
            let offset = drop_offset(taskbar, tray_left, width, at, grabbed_x);
            let place = at_taskbar(taskbar, tray_left, width, height, offset, false);
            place.0 + grabbed_x == at.x
        }),
{
}

/// A saved place is kept where the widget is inside the work area there, and a
/// place outside is brought in by as little as it takes.
pub proof fn law_saved_places_are_kept(
    x: i32,
    y: i32,
    width: int,
    height: int,
    work: Rect,
    dpi: u32,
)
    requires
        0 <= width <= work.right - work.left,
        0 <= height <= work.bottom - work.top,
    ensures
        ({
            let p = floating_at(Some((x, y)), width, height, work, dpi);
            &&& work.left <= x && x + width <= work.right ==> p.0 == x
            &&& work.top <= y && y + height <= work.bottom ==> p.1 == y
            &&& x < work.left ==> p.0 == work.left
            &&& y < work.top ==> p.1 == work.top
            &&& x + width > work.right ==> p.0 == work.right - width
            &&& y + height > work.bottom ==> p.1 == work.bottom - height
        }),
        scaled(FLOATING_MARGIN as int, 96) == 16,
{
}

/// A centred window has as much room on one side as on the other, to the pixel,
/// and one that is too large starts at the area's edge.
pub proof fn law_centred_windows_have_equal_margins(low: int, high: int, size: int)
    ensures
        ({
            let start = centred(low, high, size);
            &&& size <= high - low ==> 0 <= (high - (start + size)) - (start - low) <= 1
            &&& size > high - low ==> start == low
        }),
{
}

/// The taskbar at a point is the first one there.
pub proof fn law_the_first_taskbar_there_is_taken(
    at: Point,
    taskbars: &Vec<Rect>,
    index: Option<usize>,
    j: int,
)
    requires
        call_ensures(taskbar_at_point, (at, taskbars), index),
        0 <= j < taskbars@.len(),
        ({
            let r = taskbars@[j];
            r.left <= at.x < r.right && r.top <= at.y < r.bottom
        }),
    ensures
        index is Some,
        index->0 <= j,
        ({
            let r = taskbars@[index->0 as int];
            r.left <= at.x < r.right && r.top <= at.y < r.bottom
        }),
{
    assert(taskbars@[j].contains(at));
}

/// A taskbar that is gone is replaced by the last one there is.
pub proof fn law_a_missing_taskbar_gives_the_last(
    requested: usize,
    count: usize,
    index: Option<usize>,
)
    requires
        call_ensures(choose_taskbar, (requested, count), index),
    ensures
        count == 0 ==> index is None,
        requested < count ==> index == Some(requested),
        0 < count <= requested ==> index is Some && index->0 == count - 1,
{
}

/// A coordinate of a message is the signed value of its 16 bits.
pub proof fn law_coordinates_are_signed(v: int)
    ensures
        -0x8000 <= signed_word(v) < 0x8000,
        (signed_word(v) - v) % 0x10000 == 0,
{
}

} // verus!
