//! The Appearance Studio: mode, palette and colour choices, saved as they are
//! made.
use crate::appearance::{
    default_appearance, preset_colors, preset_colors_of, preset_name, preset_name_of, Appearance,
    Mode, MIDNIGHT,
};
use crate::color::{
    bgr_to_rgb, color, color_of, law_device_round_trip, packed, rgb, swapped, Color,
};
use crate::draw::area;
use crate::effects::Effect;
use crate::geometry::{fits, law_scaling_is_monotone, sc, scaled, Rect};
use crate::state::{model_of, with_appearance, Model, State};
use crate::strings::Strings;
use vstd::prelude::*;
use vstd::string::*;

verus! {

/// The studio's inner size at the design DPI.
pub const STUDIO_W: i32 = 488;

pub const STUDIO_H: i32 = 602;

/// Control ids. Modes start at 100, palettes at 110 and colours at 120.
pub const ID_RESET: u16 = 130;

pub const ID_UNDO: u16 = 131;

pub const ID_DONE: u16 = 132;

/// What Escape sends through the dialog keyboard handling.
pub const ID_CANCEL: u16 = 2;

pub const KEY_ESCAPE: u32 = 27;

/// The colour dialog's red, green and blue edits, and the notification they
/// send when they change.
pub const ID_RED: u16 = 706;

pub const ID_BLUE: u16 = 708;

pub const EDIT_CHANGED: u16 = 0x300;

/// A colour dialog at work: what it previews on top of, the colour it changes,
/// and the last value previewed.
#[derive(Clone, Copy, Debug, PartialEq, Eq)]
pub struct Picker {
    pub base: Appearance,
    pub index: usize,
    pub last: u32,
    pub ready: bool,
}

impl Picker {
    pub open spec fn wf(self) -> bool {
        self.index < 5
    }
}

/// The mode a button stands for.
pub open spec fn mode_of(index: int) -> Mode {
    if index == 0 {
        Mode::System
    } else if index == 1 {
        Mode::Light
    } else if index == 2 {
        Mode::Dark
    } else {
        Mode::Custom
    }
}

pub open spec fn mode_name_of(index: int) -> Seq<char> {
    if index == 0 {
        "System"@
    } else if index == 1 {
        "Light"@
    } else if index == 2 {
        "Dark"@
    } else {
        "Custom"@
    }
}

/// The name of a colour swatch.
pub open spec fn field_name_of(strings: Strings, index: int) -> Seq<char> {
    if index == 0 {
        "Background"@
    } else if index == 1 {
        "Text"@
    } else if index == 2 {
        strings.claude_field@
    } else if index == 3 {
        "Codex"@
    } else {
        "Antigravity"@
    }
}

pub fn mode_at(index: usize) -> (mode: Mode)
    ensures
        mode == mode_of(index as int),
{
    match index {
        0 => Mode::System,
        1 => Mode::Light,
        2 => Mode::Dark,
        _ => Mode::Custom,
    }
}

pub fn mode_name(index: usize) -> (name: &'static str)
    ensures
        name@ == mode_name_of(index as int),
{
    match index {
        0 => "System",
        1 => "Light",
        2 => "Dark",
        _ => "Custom",
    }
}

pub fn field_name(strings: &Strings, index: usize) -> (name: &'static str)
    ensures
        name@ == field_name_of(*strings, index as int),
{
    match index {
        0 => "Background",
        1 => "Text",
        2 => strings.claude_field,
        3 => "Codex",
        _ => "Antigravity",
    }
}

/// An appearance with one of its colours replaced.
pub open spec fn with_color(a: Appearance, index: int, rgb: u32) -> Appearance {
    Appearance { colors: vstd::array::spec_array_update(a.colors, index, rgb), ..a }
}

/// What a button of the studio asks for.
#[derive(Clone, Copy, Debug, PartialEq, Eq)]
pub enum Request {
    /// Put an appearance in force and save it.
    Apply(Appearance),
    /// Open the colour dialog for one of the five colours.
    Choose(usize),
    Close,
    Nothing,
}

/// What control `id` asks for, with the appearance in force and the one from
/// when the studio opened.
pub open spec fn requested(id: u16, a: Appearance, original: Option<Appearance>) -> Request {
    if 100 <= id <= 103 {
        Request::Apply(Appearance { mode: mode_of(id - 100), ..a })
    } else if 110 <= id <= 113 {
        Request::Apply(
            Appearance { mode: Mode::Custom, colors: preset_colors_of(id - 110), ..a },
        )
    } else if 120 <= id <= 124 {
        Request::Choose((id - 120) as usize)
    } else if id == ID_RESET {
        Request::Apply(default_appearance())
    } else if id == ID_UNDO {
        match original {
            Some(o) => Request::Apply(o),
            None => Request::Nothing,
        }
    } else if id == ID_DONE || id == ID_CANCEL {
        Request::Close
    } else {
        Request::Nothing
    }
}

/// Take a control's command. Every request but closing redraws the studio.
pub fn command(id: u16, current: Appearance, original: Option<Appearance>) -> (request: Request)
    ensures
        request == requested(id, current, original),
{
    let mut next = current;
    if id >= 100 && id <= 103 {
        next.mode = mode_at((id - 100) as usize);
        Request::Apply(next)
    } else if id >= 110 && id <= 113 {
        next.mode = Mode::Custom;
        next.colors = preset_colors((id - 110) as usize);
        Request::Apply(next)
    } else if id >= 120 && id <= 124 {
        Request::Choose((id - 120) as usize)
    } else if id == ID_RESET {
        Request::Apply(Appearance::default())
    } else if id == ID_UNDO {
        match original {
            Some(o) => Request::Apply(o),
            None => Request::Nothing,
        }
    } else if id == ID_DONE || id == ID_CANCEL {
        Request::Close
    } else {
        Request::Nothing
    }
}

/// What becomes of a message before it is dispatched.
#[derive(Clone, Copy, Debug, PartialEq, Eq, Structural)]
pub enum Translation {
    /// It does not concern the studio.
    PassOn,
    /// It closes the studio.
    Close,
    /// The dialog keyboard handling decides.
    Dialog,
}

/// Escape closes an open studio; the rest of its keyboard handling is that of
/// a dialog. `inside` tells whether the message is for the studio or a control
/// of it.
pub fn translate(open: bool, key_down: bool, key: u32, inside: bool) -> (t: Translation)
    ensures
        t == (if !open {
            Translation::PassOn
        } else if key_down && key == KEY_ESCAPE && inside {
            Translation::Close
        } else {
            Translation::Dialog
        }),
{
    if !open {
        Translation::PassOn
    } else if key_down && key == KEY_ESCAPE && inside {
        Translation::Close
    } else {
        Translation::Dialog
    }
}

/// A message to the colour dialog.
#[derive(Clone, Copy, Debug, PartialEq, Eq, Structural)]
pub enum PickerMessage {
    Init,
    Command { notification: u16, id: u16 },
    Other,
}

/// Follow the colour dialog: it is ready once initialised, and a change to one
/// of its three edits asks for a preview. Gives the hook's result, and whether
/// to preview.
pub fn picker_hook(picker: &mut Option<Picker>, message: PickerMessage) -> (r: (usize, bool))
    ensures
        r.0 == (if message is Init {
            1usize
        } else {
            0usize
        }),
        r.1 == (message matches PickerMessage::Command { notification, id } && notification
            == EDIT_CHANGED && ID_RED <= id <= ID_BLUE),
        message is Init && *old(picker) is Some ==> *final(picker) == Some(
            Picker { ready: true, ..(*old(picker))->0 },
        ),
        !(message is Init) || *old(picker) is None ==> *final(picker) == *old(picker),
{
    match message {
        PickerMessage::Init => {
            match picker {
                Some(p) => {
                    p.ready = true;
                },
                None => {},
            }
            (1, false)
        },
        PickerMessage::Command { notification, id } => (
            0,
            notification == EDIT_CHANGED && id >= ID_RED && id <= ID_BLUE,
        ),
        PickerMessage::Other => (0, false),
    }
}

pub open spec fn at_most_255(v: u32) -> int {
    if v > 255 {
        255
    } else {
        v as int
    }
}

/// The dialog's three edits as `0xBBGGRR`; none while one of them is not a
/// number.
pub open spec fn edited(red: Option<u32>, green: Option<u32>, blue: Option<u32>) -> Option<u32> {
    if red is Some && green is Some && blue is Some {
        Some(
            (at_most_255(red->0) + at_most_255(green->0) * 0x100 + at_most_255(blue->0)
                * 0x1_0000) as u32,
        )
    } else {
        None
    }
}

/// The picker takes note of a value: it is ready, and the value is new.
pub open spec fn takes(picker: Option<Picker>, value: Option<u32>) -> bool {
    picker is Some && value is Some && picker->0.ready && picker->0.last != value->0
}

/// The appearance a picker shows for a value of the dialog.
pub open spec fn picked(p: Picker, bgr: u32) -> Appearance {
    with_color(p.base, p.index as int, swapped(bgr) as u32)
}

fn min_255(v: u32) -> (m: u32)
    ensures
        m == at_most_255(v),
{
    if v > 255 {
        255
    } else {
        v
    }
}

/// Preview what the colour dialog's edits say. Gives the appearance to show,
/// which is not saved.
pub fn preview_picked(
    picker: &mut Option<Picker>,
    red: Option<u32>,
    green: Option<u32>,
    blue: Option<u32>,
) -> (next: Option<Appearance>)
    requires
        *old(picker) is Some ==> (*old(picker))->0.wf(),
    ensures
        takes(*old(picker), edited(red, green, blue)) ==> {
            &&& next == Some(picked((*old(picker))->0, edited(red, green, blue)->0))
            &&& *final(picker) == Some(
                Picker { last: edited(red, green, blue)->0, ..(*old(picker))->0 },
            )
        },
        !takes(*old(picker), edited(red, green, blue)) ==> next is None && *final(picker) == *old(
            picker,
        ),
{
    let bgr: u32 = match (red, green, blue) {
        (Some(r), Some(g), Some(b)) => min_255(r) + min_255(g) * 0x100 + min_255(b) * 0x1_0000,
        _ => return None,
    };
    match picker {
        Some(p) => {
            if !p.ready || p.last == bgr {
                return None;
            }
            p.last = bgr;
            let mut next = p.base;
            next.colors[p.index] = bgr_to_rgb(bgr);
            Some(next)
        },
        None => None,
    }
}

/// The five colours in force, as numbers.
pub open spec fn colors_shown(a: Appearance, system_dark: bool) -> Seq<u32> {
    if a.mode == Mode::Custom {
        a.colors@
    } else {
        a.shades(a.dark(system_dark)).map_values(|c: Color| packed(c) as u32)
    }
}

/// How the colour dialog is opened.
#[derive(Debug)]
pub struct Chooser {
    /// The colour it starts from, `0xBBGGRR`.
    pub initial: u32,
    /// The sixteen colours it offers, `0xBBGGRR`.
    pub custom: Vec<u32>,
}

/// The colours on offer: the first four of each palette.
pub open spec fn offered() -> Seq<u32> {
    Seq::new(16, |k: int| color_of(preset_colors_of(k / 4)@[k % 4]).colorref() as u32)
}

fn shown_colors(a: &Appearance, system_dark: bool) -> (colors: [u32; 5])
    ensures
        colors@ == colors_shown(*a, system_dark),
{
    if a.mode == Mode::Custom {
        return a.colors;
    }
    let palette = a.palette(a.is_dark(system_dark));
    let colors = [
        rgb(palette[0]),
        rgb(palette[1]),
        rgb(palette[2]),
        rgb(palette[3]),
        rgb(palette[4]),
    ];
    assert(colors@ =~= colors_shown(*a, system_dark));
    colors
}

fn offered_colors() -> (custom: Vec<u32>)
    ensures
        custom@ == offered(),
{
    let mut custom: Vec<u32> = Vec::new();
    let mut k: usize = 0;
    while k < 16
        invariant
            k <= 16,
            custom@ == offered().take(k as int),
        decreases 16 - k,
    {
        let colors = preset_colors(k / 4);
        custom.push(color(colors[k % 4]).to_colorref());
        k = k + 1;
        assert(custom@ =~= offered().take(k as int));
    }
    assert(offered().take(16) =~= offered());
    custom
}

/// Start choosing one of the five colours. The appearance in force stays as it
/// is; previews go on top of the colours now shown, in Custom mode.
pub fn choose_color(
    picker: &mut Option<Picker>,
    current: Appearance,
    index: usize,
    system_dark: bool,
) -> (chooser: Chooser)
    requires
        index < 5,
    ensures
        *final(picker) is Some,
        ({
            let p = (*final(picker))->0;
            &&& p.wf()
            &&& p.base.mode == Mode::Custom
            &&& p.base.colors@ == colors_shown(current, system_dark)
            &&& p.base.widget_size == current.widget_size
            &&& p.index == index
            &&& p.last == chooser.initial
            &&& !p.ready
        }),
        chooser.initial == color_of(colors_shown(current, system_dark)[index as int]).colorref(),
        chooser.custom@ == offered(),
{
    let colors = shown_colors(&current, system_dark);
    let initial: u32 = color(colors[index]).to_colorref();
    let base = Appearance { mode: Mode::Custom, colors, widget_size: current.widget_size };
    *picker = Some(Picker { base, index, last: initial, ready: false });
    Chooser { initial, custom: offered_colors() }
}

/// End choosing. A confirmed colour is applied in Custom mode; anything else
/// puts the original appearance back. Either result is saved, so that a
/// preview which was written meanwhile does not stay.
pub fn finish_choice(
    picker: &mut Option<Picker>,
    original: Appearance,
    accepted: bool,
    bgr: u32,
) -> (next: Appearance)
    requires
        *old(picker) is Some ==> (*old(picker))->0.wf(),
    ensures
        *final(picker) is None,
        next == (if accepted && *old(picker) is Some {
            picked((*old(picker))->0, bgr)
        } else {
            original
        }),
{
    let next = match picker {
        Some(p) => {
            if accepted {
                let mut a = p.base;
                a.colors[p.index] = bgr_to_rgb(bgr);
                a
            } else {
                original
            }
        },
        None => original,
    };
    *picker = None;
    next
}

/// Open the studio, unless it is open: note the appearance that undoing goes
/// back to. Tells whether a window has to be made.
pub fn open(original: &mut Option<Appearance>, already_open: bool, current: Appearance) -> (create:
    bool)
    ensures
        create == !already_open,
        *final(original) == (if already_open {
            *old(original)
        } else {
            Some(current)
        }),
{
    if already_open {
        return false;
    }
    *original = Some(current);
    true
}

/// A rectangle of the studio's layout.
pub open spec fn studio_area(x: int, y: int, w: int, h: int, dpi: u32) -> Rect {
    area(scaled(x, dpi), scaled(y, dpi), scaled(x + w, dpi), scaled(y + h, dpi))
}

pub fn rect(x: i32, y: i32, w: i32, h: i32, dpi: u32) -> (r: Rect)
    requires
        fits(x + w),
        fits(y + h),
    ensures
        r == studio_area(x as int, y as int, w as int, h as int, dpi),
{
    Rect { left: sc(x, dpi), top: sc(y, dpi), right: sc(x + w, dpi), bottom: sc(y + h, dpi) }
}

/// A button of the studio.
#[verifier::ext_equal]
#[derive(Debug)]
pub struct Button<T> {
    pub id: u16,
    pub text: T,
    pub rect: Rect,
}

impl View for Button<String> {
    type V = Button<Seq<char>>;

    open spec fn view(&self) -> Button<Seq<char>> {
        Button { id: self.id, text: self.text@, rect: self.rect }
    }
}

pub open spec fn mode_button(i: int, dpi: u32) -> Button<Seq<char>> {
    Button {
        id: (100 + i) as u16,
        text: mode_name_of(i),
        rect: studio_area(24 + i * 112, 120, 104, 64, dpi),
    }
}

pub open spec fn preset_button(i: int, dpi: u32) -> Button<Seq<char>> {
    Button {
        id: (110 + i) as u16,
        text: preset_name_of(i),
        rect: studio_area(24 + i * 112, 346, 104, 54, dpi),
    }
}

pub open spec fn color_button(i: int, strings: Strings, dpi: u32) -> Button<Seq<char>> {
    Button {
        id: (120 + i) as u16,
        text: field_name_of(strings, i),
        rect: studio_area(24 + i * 90, 442, 80, 68, dpi),
    }
}

/// The studio's buttons, in tab order.
pub open spec fn button_at(k: int, strings: Strings, dpi: u32) -> Button<Seq<char>> {
    if k < 4 {
        mode_button(k, dpi)
    } else if k < 8 {
        preset_button(k - 4, dpi)
    } else if k < 13 {
        color_button(k - 8, strings, dpi)
    } else if k == 13 {
        Button { id: ID_RESET, text: "Reset"@, rect: studio_area(24, 548, 76, 32, dpi) }
    } else if k == 14 {
        Button { id: ID_UNDO, text: "Undo changes"@, rect: studio_area(110, 548, 124, 32, dpi) }
    } else {
        Button { id: ID_DONE, text: "Done"@, rect: studio_area(356, 548, 108, 32, dpi) }
    }
}

pub open spec fn shown_buttons(buttons: Seq<Button<String>>) -> Seq<Button<Seq<char>>> {
    buttons.map_values(|b: Button<String>| b@)
}

fn make_button(k: usize, strings: &Strings, dpi: u32) -> (b: Button<String>)
    requires
        k < 16,
    ensures
        b@ == button_at(k as int, *strings, dpi),
{
    if k < 4 {
        let i: i32 = k as i32;
        Button {
            id: 100 + k as u16,
            text: mode_name(k).to_owned(),
            rect: rect(24 + i * 112, 120, 104, 64, dpi),
        }
    } else if k < 8 {
        let i: i32 = k as i32 - 4;
        Button {
            id: 110 + (k - 4) as u16,
            text: preset_name(k - 4).to_owned(),
            rect: rect(24 + i * 112, 346, 104, 54, dpi),
        }
    } else if k < 13 {
        let i: i32 = k as i32 - 8;
        Button {
            id: 120 + (k - 8) as u16,
            text: field_name(strings, k - 8).to_owned(),
            rect: rect(24 + i * 90, 442, 80, 68, dpi),
        }
    } else if k == 13 {
        Button { id: ID_RESET, text: "Reset".to_owned(), rect: rect(24, 548, 76, 32, dpi) }
    } else if k == 14 {
        Button {
            id: ID_UNDO,
            text: "Undo changes".to_owned(),
            rect: rect(110, 548, 124, 32, dpi),
        }
    } else {
        Button { id: ID_DONE, text: "Done".to_owned(), rect: rect(356, 548, 108, 32, dpi) }
    }
}

/// The buttons to create when the studio opens.
pub fn buttons(strings: &Strings, dpi: u32) -> (list: Vec<Button<String>>)
    ensures
        shown_buttons(list@) == Seq::new(16, |k: int| button_at(k, *strings, dpi)),
{
    let mut list: Vec<Button<String>> = Vec::new();
    let mut k: usize = 0;
    while k < 16
        invariant
            k <= 16,
            list@.len() == k,
            forall|i: int| 0 <= i < k ==> #[trigger] list@[i]@ == button_at(i, *strings, dpi),
        decreases 16 - k,
    {
        list.push(make_button(k, strings, dpi));
        k = k + 1;
    }
    assert(shown_buttons(list@) =~= Seq::new(16, |k: int| button_at(k, *strings, dpi)));
    list
}

/// The appearance in force.
pub open spec fn in_force(m: Option<Model>) -> Appearance {
    match m {
        Some(s) => s.appearance,
        None => default_appearance(),
    }
}

pub open spec fn dressed(m: Option<Model>, value: Appearance, system_dark: bool) -> Option<Model> {
    match m {
        Some(s) => Some(with_appearance(s, value, system_dark)),
        None => None,
    }
}

pub fn appearance(state: &Option<State>) -> (a: Appearance)
    ensures
        a == in_force(model_of(*state)),
{
    match state {
        Some(s) => s.appearance,
        None => Appearance::default(),
    }
}

/// Put an appearance in force, save it and show it.
pub fn set_appearance(state: &mut Option<State>, value: Appearance, system_dark: bool) -> (effects:
    Vec<Effect>)
    ensures
        model_of(*final(state)) == dressed(model_of(*old(state)), value, system_dark),
        effects@ == seq![Effect::SaveSettings, Effect::Render],
{
    match state {
        Some(s) => s.set_appearance(value, system_dark),
        None => {},
    }
    vec![Effect::SaveSettings, Effect::Render]
}

/// Show an appearance without saving it.
pub fn preview_appearance(state: &mut Option<State>, value: Appearance, system_dark: bool) -> (effects:
    Vec<Effect>)
    ensures
        model_of(*final(state)) == dressed(model_of(*old(state)), value, system_dark),
        effects@ == seq![Effect::Render],
{
    match state {
        Some(s) => s.set_appearance(value, system_dark),
        None => {},
    }
    vec![Effect::Render]
}

/// Undo restores the appearance from when the studio opened, whatever is in
/// force.
pub proof fn law_undo_restores_the_opening_appearance(a: Appearance, opening: Appearance)
    ensures
        requested(ID_UNDO, a, Some(opening)) == Request::Apply(opening),
{
}

/// Reset restores System mode, the default custom palette and the default
/// size, whatever is in force.
pub proof fn law_reset_restores_the_defaults(a: Appearance, original: Option<Appearance>)
    ensures
        requested(ID_RESET, a, original) == Request::Apply(default_appearance()),
        default_appearance().mode == Mode::System,
        default_appearance().colors == MIDNIGHT,
{
}

/// Choosing a mode keeps the custom colours, and no button but Reset and Undo
/// changes the widget's size.
pub proof fn law_modes_keep_the_custom_colours(id: u16, a: Appearance, original: Option<Appearance>)
    requires
        requested(id, a, original) is Apply,
        id != ID_RESET,
        id != ID_UNDO,
    ensures
        ({
            let next = requested(id, a, original)->Apply_0;
            &&& next.widget_size == a.widget_size
            &&& id <= 103 ==> next.colors == a.colors
            &&& id > 103 ==> next.mode == Mode::Custom
        }),
{
}

/// Cancelling the colour dialog leaves the appearance as it was, whatever was
/// previewed.
pub proof fn law_cancel_leaves_the_appearance(m: Model, preview: Appearance, system_dark: bool)
    requires
        m.is_dark == m.appearance.dark(system_dark),
    ensures
        ({
            let shown = with_appearance(m, preview, system_dark);
            with_appearance(shown, m.appearance, system_dark) == m
        }),
{
}

/// A confirmed colour changes that colour alone, in Custom mode.
pub proof fn law_confirming_changes_one_colour(p: Picker, bgr: u32, j: int)
    requires
        p.wf(),
        p.base.mode == Mode::Custom,
        0 <= j < 5,
    ensures
        picked(p, bgr).mode == Mode::Custom,
        picked(p, bgr).widget_size == p.base.widget_size,
        picked(p, bgr).colors@[j] == (if j == p.index {
            swapped(bgr) as u32
        } else {
            p.base.colors@[j]
        }),
{
}

/// Confirming the colour the dialog started from keeps all five colours.
pub proof fn law_confirming_the_start_changes_nothing(p: Picker)
    requires
        p.wf(),
        p.base.colors@[p.index as int] <= 0xff_ffff,
    ensures
        picked(
            p,
            color_of(p.base.colors@[p.index as int]).colorref() as u32,
        ).colors@ == p.base.colors@,
{
    let rgb = p.base.colors@[p.index as int];
    law_device_round_trip(rgb);
    assert(picked(p, color_of(rgb).colorref() as u32).colors@ =~= p.base.colors@);
}

/// The dialog's own start-up changes preview nothing: it is not ready, or its
/// value is the one it started from.
pub proof fn law_opening_the_dialog_previews_nothing(p: Picker, value: u32)
    requires
        !p.ready || p.last == value,
    ensures
        !takes(Some(p), Some(value)),
{
}

/// Each mode button puts in force the mode its label names: after Light the
/// widget is light and after Dark it is dark whatever the system theme is,
/// after System it follows that theme, and after Custom it wears the user's own
/// colours.
pub proof fn law_mode_buttons_do_what_they_say(
    k: int,
    a: Appearance,
    original: Option<Appearance>,
    system_dark: bool,
    strings: Strings,
    dpi: u32,
)
    requires
        0 <= k < 4,
    ensures
        ({
            let b = button_at(k, strings, dpi);
            let next = requested(b.id, a, original)->Apply_0;
            &&& requested(b.id, a, original) is Apply
            &&& next.colors == a.colors && next.widget_size == a.widget_size
            &&& k == 0 ==> b.text == "System"@ && next.mode == Mode::System && next.dark(
                system_dark,
            ) == system_dark
            &&& k == 1 ==> b.text == "Light"@ && next.mode == Mode::Light && !next.dark(
                system_dark,
            )
            &&& k == 2 ==> b.text == "Dark"@ && next.mode == Mode::Dark && next.dark(system_dark)
            &&& k == 3 ==> b.text == "Custom"@ && next.mode == Mode::Custom && next.shades(
                next.dark(system_dark),
            ) == Seq::new(5, |i: int| color_of(a.colors@[i]))
        }),
{
    let next = requested(button_at(k, strings, dpi).id, a, original)->Apply_0;
    if k == 3 {
        assert(next.shades(next.dark(system_dark)) =~= Seq::new(
            5,
            |i: int| color_of(a.colors@[i]),
        ));
    }
}

/// Each palette button puts the five colours of the palette it names in force,
/// as the user's own, and keeps the widget's size.
pub proof fn law_palette_buttons_do_what_they_say(
    k: int,
    a: Appearance,
    original: Option<Appearance>,
    strings: Strings,
    dpi: u32,
)
    requires
        4 <= k < 8,
    ensures
        ({
            let b = button_at(k, strings, dpi);
            let next = requested(b.id, a, original)->Apply_0;
            &&& requested(b.id, a, original) is Apply
            &&& next.mode == Mode::Custom && next.widget_size == a.widget_size
            &&& k == 4 ==> b.text == "Midnight"@ && next.colors@ == seq![
                0x151923u32,
                0xe7edf7,
                0xf0aa87,
                0xa6b9ff,
                0x74d8d3,
            ]
            &&& k == 5 ==> b.text == "Porcelain"@ && next.colors@ == seq![
                0xf6f3edu32,
                0x292d36,
                0x9e4d32,
                0x3859a8,
                0x226c65,
            ]
            &&& k == 6 ==> b.text == "Evergreen"@ && next.colors@ == seq![
                0x122522u32,
                0xe0eee6,
                0xeac098,
                0x88d9b4,
                0x8fcada,
            ]
            &&& k == 7 ==> b.text == "Afterglow"@ && next.colors@ == seq![
                0x281d2cu32,
                0xf8e5ee,
                0xffb98f,
                0xd3afff,
                0xf19abf,
            ]
        }),
{
    let next = requested(button_at(k, strings, dpi).id, a, original)->Apply_0;
    assert(next.colors@ =~= preset_colors_of(k - 4)@);
}

/// Each swatch opens the dialog for its own colour: the background, the text,
/// and then one accent per provider in card order.
pub proof fn law_swatches_choose_their_own_colour(
    k: int,
    a: Appearance,
    original: Option<Appearance>,
    strings: Strings,
    dpi: u32,
)
    requires
        8 <= k < 13,
    ensures
        ({
            let b = button_at(k, strings, dpi);
            &&& requested(b.id, a, original) == Request::Choose((k - 8) as usize)
            &&& k == 8 ==> b.text == "Background"@
            &&& k == 9 ==> b.text == "Text"@
            &&& k == 10 ==> b.text == strings.claude_field@
            &&& k == 11 ==> b.text == "Codex"@
            &&& k == 12 ==> b.text == "Antigravity"@
        }),
{
}

/// Reset, Undo and Done do what they say, Escape closes like Done, and no other
/// control does anything.
pub proof fn law_the_last_row_does_what_it_says(
    a: Appearance,
    opening: Appearance,
    original: Option<Appearance>,
    strings: Strings,
    dpi: u32,
    id: u16,
)
    ensures
        ({
            let reset = button_at(13, strings, dpi);
            let undo = button_at(14, strings, dpi);
            let finished = button_at(15, strings, dpi);
            &&& reset.text == "Reset"@ && undo.text == "Undo changes"@ && finished.text
                == "Done"@
            &&& requested(reset.id, a, original) is Apply
            &&& requested(reset.id, a, original)->Apply_0.mode == Mode::System
            &&& requested(reset.id, a, original)->Apply_0.colors == MIDNIGHT
            &&& requested(reset.id, a, original)->Apply_0.widget_size == 100
            &&& requested(undo.id, a, Some(opening)) == Request::Apply(opening)
            &&& requested(undo.id, a, None) == Request::Nothing
            &&& requested(finished.id, a, original) == Request::Close
            &&& requested(2, a, original) == Request::Close
        }),
        !(100 <= id <= 103 || 110 <= id <= 113 || 120 <= id <= 124 || 130 <= id <= 132 || id == 2)
            ==> requested(id, a, original) == Request::Nothing,
{
}

/// Two rectangles share no pixel.
pub open spec fn apart(a: Rect, b: Rect) -> bool {
    a.right <= b.left || b.right <= a.left || a.bottom <= b.top || b.bottom <= a.top
}

/// A button's place on the layout, before scaling.
pub open spec fn slot_of(k: int) -> (int, int, int, int) {
    if k < 4 {
        (24 + k * 112, 120, 104, 64)
    } else if k < 8 {
        (24 + (k - 4) * 112, 346, 104, 54)
    } else if k < 13 {
        (24 + (k - 8) * 90, 442, 80, 68)
    } else if k == 13 {
        (24, 548, 76, 32)
    } else if k == 14 {
        (110, 548, 124, 32)
    } else {
        (356, 548, 108, 32)
    }
}

/// No two buttons overlap, none leaves the studio, and no two share an id, at
/// any DPI.
pub proof fn law_buttons_stand_apart(i: int, j: int, strings: Strings, dpi: u32)
    requires
        0 <= i < j < 16,
    ensures
        ({
            let a = button_at(i, strings, dpi);
            let b = button_at(j, strings, dpi);
            &&& apart(a.rect, b.rect)
            &&& a.id != b.id
            &&& 0 <= b.rect.left <= b.rect.right <= scaled(STUDIO_W as int, dpi)
            &&& 0 <= b.rect.top <= b.rect.bottom <= scaled(STUDIO_H as int, dpi)
            &&& 0 <= a.rect.left <= a.rect.right <= scaled(STUDIO_W as int, dpi)
            &&& 0 <= a.rect.top <= a.rect.bottom <= scaled(STUDIO_H as int, dpi)
        }),
{
    let (p, q) = (slot_of(i), slot_of(j));
    lemma_slot(i, strings, dpi);
    lemma_slot(j, strings, dpi);
    if p.0 + p.2 <= q.0 {
        law_scaling_is_monotone((p.0 + p.2) as i32, q.0 as i32, dpi);
    } else if q.0 + q.2 <= p.0 {
        law_scaling_is_monotone((q.0 + q.2) as i32, p.0 as i32, dpi);
    } else {
        assert(p.1 + p.3 <= q.1);
        law_scaling_is_monotone((p.1 + p.3) as i32, q.1 as i32, dpi);
    }
}

proof fn lemma_slot(k: int, strings: Strings, dpi: u32)
    requires
        0 <= k < 16,
    ensures
        ({
            let (x, y, w, h) = slot_of(k);
            let r = button_at(k, strings, dpi).rect;
            &&& r.left == scaled(x, dpi) && r.right == scaled(x + w, dpi)
            &&& r.top == scaled(y, dpi) && r.bottom == scaled(y + h, dpi)
            &&& 0 <= r.left <= r.right <= scaled(STUDIO_W as int, dpi)
            &&& 0 <= r.top <= r.bottom <= scaled(STUDIO_H as int, dpi)
        }),
{
    let (x, y, w, h) = slot_of(k);
    law_scaling_is_monotone(0, x as i32, dpi);
    law_scaling_is_monotone(0, y as i32, dpi);
    law_scaling_is_monotone(x as i32, (x + w) as i32, dpi);
    law_scaling_is_monotone(y as i32, (y + h) as i32, dpi);
    law_scaling_is_monotone((x + w) as i32, STUDIO_W, dpi);
    law_scaling_is_monotone((y + h) as i32, STUDIO_H, dpi);
}

/// The colour previewed for the dialog's edits has their red, green and blue,
/// each held to 255; while an edit holds no number there is none.
pub proof fn law_edits_name_their_channels(p: Picker, red: u32, green: u32, blue: u32)
    requires
        p.wf(),
    ensures
        ({
            let bgr = edited(Some(red), Some(green), Some(blue));
            let c = color_of(picked(p, bgr->0).colors@[p.index as int]);
            &&& bgr is Some
            &&& c.r == if red > 255 {
                255
            } else {
                red as int
            }
            &&& c.g == if green > 255 {
                255
            } else {
                green as int
            }
            &&& c.b == if blue > 255 {
                255
            } else {
                blue as int
            }
        }),
        edited(None, Some(green), Some(blue)) is None,
        edited(Some(red), None, Some(blue)) is None,
        edited(Some(red), Some(green), None) is None,
{
    let r = at_most_255(red);
    let g = at_most_255(green);
    let b = at_most_255(blue);
    let x = b * 0x1_0000 + g * 0x100 + r;
    let y = r * 0x1_0000 + g * 0x100 + b;
    assert(x % 0x100 == r && x / 0x100 % 0x100 == g && x / 0x1_0000 % 0x100 == b);
    assert(y % 0x100 == b && y / 0x100 % 0x100 == g && y / 0x1_0000 % 0x100 == r);
    assert(edited(Some(red), Some(green), Some(blue)) == Some(x as u32));
    assert(swapped(x as u32) == y);
}

/// Once the dialog is ready, a new value is previewed and the same value is
/// not previewed again.
pub proof fn law_values_are_previewed_once(p: Picker, value: u32)
    requires
        p.ready,
    ensures
        takes(Some(p), Some(value)) <==> value != p.last,
        !takes(Some(Picker { last: value, ..p }), Some(value)),
        !takes(None, Some(value)),
        !takes(Some(p), None),
{
}

/// The dialog starts from the colour the widget shows: the user's own in Custom
/// mode, and the theme's otherwise.
pub proof fn law_the_dialog_starts_from_what_is_shown(a: Appearance, system_dark: bool, i: int)
    requires
        0 <= i < 5,
    ensures
        colors_shown(a, system_dark).len() == 5,
        color_of(colors_shown(a, system_dark)[i]) == a.shades(a.dark(system_dark))[i],
        a.mode == Mode::Custom ==> colors_shown(a, system_dark)[i] == a.colors@[i],
{
    crate::color::law_color_round_trip(a.shades(a.dark(system_dark))[i]);
}

/// The dialog offers the first four colours of each palette, in order.
pub proof fn law_the_dialog_offers_the_palettes(palette: int, k: int)
    requires
        0 <= palette < 4,
        0 <= k < 4,
    ensures
        offered().len() == 16,
        swapped(offered()[4 * palette + k]) == preset_colors_of(palette)@[k],
{
    let value = preset_colors_of(palette)@[k];
    assert((4 * palette + k) / 4 == palette && (4 * palette + k) % 4 == k);
    lemma_palettes_are_colours(palette, k);
    law_device_round_trip(value);
}

proof fn lemma_palettes_are_colours(palette: int, k: int)
    requires
        0 <= palette < 4,
        0 <= k < 4,
    ensures
        preset_colors_of(palette)@[k] <= 0xff_ffff,
{
    assert(palette == 0 || palette == 1 || palette == 2 || palette == 3);
    assert(k == 0 || k == 1 || k == 2 || k == 3);
}

/// An appearance put in force is the one in force, and nothing else of the
/// state changes but whether the widget is dark.
pub proof fn law_what_is_put_in_force_is_in_force(m: Model, value: Appearance, system_dark: bool)
    ensures
        ({
            let d = dressed(Some(m), value, system_dark);
            &&& d is Some
            &&& in_force(d) == value
            &&& d->0.is_dark == value.dark(system_dark)
            &&& (Model { appearance: m.appearance, is_dark: m.is_dark, ..d->0 }) == m
        }),
        in_force(Some(m)) == m.appearance,
        dressed(None, value, system_dark) is None,
{
}

} // verus!
