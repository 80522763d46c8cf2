//! The monitor's state, and the changes that need no outside event.
//!
//! Every type is generic in how it holds text and credential fingerprints, so
//! that one definition serves both the running state and its model.
use crate::appearance::{Appearance, Mode};
use crate::geometry::{
    active_model_count, clamp_offset_for_taskbar, clamped, fits, floating_at, floating_position,
    lemma_widths_fit, offset_limit, sc, scaled, shown_count, taskbar_fits, taskbar_placement,
    total_widget_width_for, tray_edge, tray_left_for_taskbar, widget_width, Placement, Rect,
    FLOATING_MARGIN, MAX_DPI, WIDGET_HEIGHT,
};
use crate::measure::Binary64;
use crate::models::AppUsageData;
use crate::settings::{shows_a_provider, SettingsFile};
use vstd::prelude::*;

verus! {

/// The usage providers, in the order their cards are drawn.
#[derive(Clone, Copy, Debug, PartialEq, Eq, Structural)]
pub enum Provider {
    Claude,
    Codex,
    Antigravity,
}

/// Which credential files are watched while polling is paused.
#[derive(Clone, Copy, Debug, PartialEq, Eq, Structural)]
pub enum WatchMode {
    ActiveSource,
    AllSources,
    Codex,
    Antigravity,
}

/// How this copy was installed, which decides how it updates.
#[derive(Clone, Copy, Debug, PartialEq, Eq, Structural)]
pub enum InstallChannel {
    Portable,
    Winget,
}

/// Where an update stands; an available release is known by its version.
#[verifier::ext_equal]
#[derive(Debug)]
pub enum UpdateStatus<T> {
    Idle,
    Checking,
    Applying,
    UpToDate,
    Available(T),
}

/// One figure and its countdown.
#[verifier::ext_equal]
#[derive(Debug)]
pub struct Row<T> {
    pub percent: Binary64,
    pub text: T,
}

/// One provider's card.
#[verifier::ext_equal]
#[derive(Debug)]
pub struct Card<T> {
    pub shown: bool,
    pub session: Row<T>,
    pub weekly: Row<T>,
}

/// How polling is going. `N` holds the fingerprints of the watched files.
#[verifier::ext_equal]
#[derive(Debug)]
pub struct Polling<N> {
    pub interval_ms: u32,
    pub retry_count: u32,
    pub force_notify_auth_error: bool,
    pub auth_error_paused: bool,
    pub watch_mode: WatchMode,
    pub watch_snapshot: N,
    pub last_ok: bool,
}

/// The shared state of the running monitor.
#[verifier::ext_equal]
#[derive(Debug)]
pub struct AppState<T, N> {
    pub is_dark: bool,
    pub appearance: Appearance,
    /// The widget is a child of the taskbar.
    pub embedded: bool,
    /// A taskbar has been found.
    pub attached: bool,
    pub claude: Card<T>,
    pub codex: Card<T>,
    pub antigravity: Card<T>,
    pub data: Option<AppUsageData>,
    pub polling: Polling<N>,
    pub install_channel: InstallChannel,
    pub update_status: UpdateStatus<T>,
    pub last_update_check_unix: Option<u64>,
    pub taskbar_index: usize,
    pub tray_offset: i32,
    pub dragging: bool,
    pub floating_position: Option<(i32, i32)>,
    pub drag_start_mouse_x: i32,
    pub drag_start_client_x: i32,
    pub drag_start_offset: i32,
    pub widget_visible: bool,
    pub embed_in_taskbar: bool,
    pub click_through: bool,
}

/// The state as it runs.
pub type State = AppState<String, Vec<u64>>;

/// The state as contracts speak of it.
pub type Model = AppState<Seq<char>, Seq<u64>>;

impl View for UpdateStatus<String> {
    type V = UpdateStatus<Seq<char>>;

    open spec fn view(&self) -> UpdateStatus<Seq<char>> {
        match self {
            UpdateStatus::Idle => UpdateStatus::Idle,
            UpdateStatus::Checking => UpdateStatus::Checking,
            UpdateStatus::Applying => UpdateStatus::Applying,
            UpdateStatus::UpToDate => UpdateStatus::UpToDate,
            UpdateStatus::Available(version) => UpdateStatus::Available(version@),
        }
    }
}

impl View for Row<String> {
    type V = Row<Seq<char>>;

    open spec fn view(&self) -> Row<Seq<char>> {
        Row { percent: self.percent, text: self.text@ }
    }
}

impl View for Card<String> {
    type V = Card<Seq<char>>;

    open spec fn view(&self) -> Card<Seq<char>> {
        Card { shown: self.shown, session: self.session@, weekly: self.weekly@ }
    }
}

impl View for Polling<Vec<u64>> {
    type V = Polling<Seq<u64>>;

    open spec fn view(&self) -> Polling<Seq<u64>> {
        Polling {
            interval_ms: self.interval_ms,
            retry_count: self.retry_count,
            force_notify_auth_error: self.force_notify_auth_error,
            auth_error_paused: self.auth_error_paused,
            watch_mode: self.watch_mode,
            watch_snapshot: self.watch_snapshot@,
            last_ok: self.last_ok,
        }
    }
}

impl View for AppState<String, Vec<u64>> {
    type V = Model;

    open spec fn view(&self) -> Model {
        AppState {
            is_dark: self.is_dark,
            appearance: self.appearance,
            embedded: self.embedded,
            attached: self.attached,
            claude: self.claude@,
            codex: self.codex@,
            antigravity: self.antigravity@,
            data: self.data,
            polling: self.polling@,
            install_channel: self.install_channel,
            update_status: self.update_status@,
            last_update_check_unix: self.last_update_check_unix,
            taskbar_index: self.taskbar_index,
            tray_offset: self.tray_offset,
            dragging: self.dragging,
            floating_position: self.floating_position,
            drag_start_mouse_x: self.drag_start_mouse_x,
            drag_start_client_x: self.drag_start_client_x,
            drag_start_offset: self.drag_start_offset,
            widget_visible: self.widget_visible,
            embed_in_taskbar: self.embed_in_taskbar,
            click_through: self.click_through,
        }
    }
}

/// The model of a state that may not exist yet.
pub open spec fn model_of(state: Option<State>) -> Option<Model> {
    match state {
        Some(s) => Some(s@),
        None => None,
    }
}

/// A row before anything was polled: no reading yet, and waiting for one.
pub open spec fn fresh_row() -> Row<Seq<char>> {
    Row { percent: Binary64 { bits: 0 }, text: "..."@ }
}

pub open spec fn fresh_card(shown: bool) -> Card<Seq<char>> {
    Card { shown, session: fresh_row(), weekly: fresh_row() }
}

/// The state a launch starts with.
pub open spec fn started(s: SettingsFile, system_dark: bool, channel: InstallChannel) -> Model {
    AppState {
        is_dark: s.appearance.dark(system_dark),
        appearance: s.appearance,
        embedded: false,
        attached: false,
        claude: fresh_card(s.show_claude_code),
        codex: fresh_card(s.show_codex),
        antigravity: fresh_card(s.show_antigravity),
        data: None,
        polling: Polling {
            interval_ms: s.poll_interval_ms,
            retry_count: 0,
            force_notify_auth_error: false,
            auth_error_paused: false,
            watch_mode: WatchMode::ActiveSource,
            watch_snapshot: Seq::empty(),
            last_ok: false,
        },
        install_channel: channel,
        update_status: UpdateStatus::Idle,
        last_update_check_unix: s.last_update_check_unix,
        taskbar_index: s.taskbar_index,
        tray_offset: s.tray_offset,
        dragging: false,
        floating_position: s.floating_position,
        drag_start_mouse_x: 0,
        drag_start_client_x: 0,
        drag_start_offset: 0,
        widget_visible: s.widget_visible,
        embed_in_taskbar: s.embed_in_taskbar,
        click_through: s.click_through,
    }
}

/// The settings that a state is saved as.
pub open spec fn saved_as(m: Model) -> SettingsFile {
    SettingsFile {
        appearance: m.appearance,
        floating_position: m.floating_position,
        desktop_layout_version: 1,
        tray_offset: m.tray_offset,
        taskbar_index: m.taskbar_index,
        poll_interval_ms: m.polling.interval_ms,
        last_update_check_unix: m.last_update_check_unix,
        widget_visible: m.widget_visible,
        show_claude_code: m.claude.shown,
        show_codex: m.codex.shown,
        show_antigravity: m.antigravity.shown,
        embed_in_taskbar: m.embed_in_taskbar,
        click_through: m.click_through,
    }
}

/// How many cards a state lays out.
pub open spec fn cards_of(m: Model) -> int {
    shown_count(m.claude.shown, m.codex.shown, m.antigravity.shown)
}

pub open spec fn some_card_is_shown(m: Model) -> bool {
    m.claude.shown || m.codex.shown || m.antigravity.shown
}

/// A card with its two countdowns replaced.
pub open spec fn with_texts(
    card: Card<Seq<char>>,
    session: Seq<char>,
    weekly: Seq<char>,
) -> Card<Seq<char>> {
    Card {
        shown: card.shown,
        session: Row { percent: card.session.percent, text: session },
        weekly: Row { percent: card.weekly.percent, text: weekly },
    }
}

/// A state with the same text in every countdown.
pub open spec fn with_every_text(m: Model, text: Seq<char>) -> Model {
    AppState {
        claude: with_texts(m.claude, text, text),
        codex: with_texts(m.codex, text, text),
        antigravity: with_texts(m.antigravity, text, text),
        ..m
    }
}

/// A state once a taskbar has been found.
pub open spec fn attached_to(m: Model, index: usize, embed: bool) -> Model {
    AppState { attached: true, taskbar_index: index, embedded: embed, ..m }
}

/// A state with an appearance in force.
pub open spec fn with_appearance(m: Model, value: Appearance, system_dark: bool) -> Model {
    AppState { appearance: value, is_dark: value.dark(system_dark), ..m }
}

/// What positioning has to do next.
#[derive(Clone, Copy, Debug, PartialEq, Eq, Structural)]
pub enum Positioning {
    /// Leave the widget where it is.
    Nothing,
    /// Place it on the desktop.
    Floating,
    /// Place it at the taskbar.
    Taskbar,
}

pub open spec fn positioning(m: Option<Model>) -> Positioning {
    match m {
        None => Positioning::Nothing,
        Some(s) => if s.dragging {
            Positioning::Nothing
        } else if !s.embedded {
            Positioning::Floating
        } else if s.attached {
            Positioning::Taskbar
        } else {
            Positioning::Nothing
        },
    }
}

/// The offset that positioning at a taskbar settles on.
pub open spec fn settled_offset(m: Model, taskbar: Rect, tray: Option<Rect>, dpi: u32) -> int {
    clamped(
        m.tray_offset as int,
        0,
        offset_limit(taskbar, tray_edge(taskbar, tray) as int, widget_width(cards_of(m), dpi)),
    )
}

impl Row<String> {
    fn fresh() -> (r: Self)
        ensures
            r@ == fresh_row(),
    {
        Row { percent: Binary64 { bits: 0 }, text: "...".to_owned() }
    }
}

impl Card<String> {
    fn fresh(shown: bool) -> (c: Self)
        ensures
            c@ == fresh_card(shown),
    {
        Card { shown, session: Row::fresh(), weekly: Row::fresh() }
    }

    pub fn set_texts(&mut self, session: &str, weekly: &str)
        ensures
            final(self)@ == with_texts(old(self)@, session@, weekly@),
    {
        self.session.text = session.to_owned();
        self.weekly.text = weekly.to_owned();
    }
}

impl UpdateStatus<String> {
    /// Whether a check or an update is already under way.
    pub fn in_progress(&self) -> (busy: bool)
        ensures
            busy == (self@ is Checking || self@ is Applying),
    {
        match self {
            UpdateStatus::Checking => true,
            UpdateStatus::Applying => true,
            _ => false,
        }
    }
}

impl AppState<String, Vec<u64>> {
    /// The state a launch starts with.
    pub fn start(settings: SettingsFile, system_dark: bool, channel: InstallChannel) -> (s: State)
        ensures
            s@ == started(settings, system_dark, channel),
    {
        let s = AppState {
            is_dark: settings.appearance.is_dark(system_dark),
            appearance: settings.appearance,
            embedded: false,
            attached: false,
            claude: Card::fresh(settings.show_claude_code),
            codex: Card::fresh(settings.show_codex),
            antigravity: Card::fresh(settings.show_antigravity),
            data: None,
            polling: Polling {
                interval_ms: settings.poll_interval_ms,
                retry_count: 0,
                force_notify_auth_error: false,
                auth_error_paused: false,
                watch_mode: WatchMode::ActiveSource,
                watch_snapshot: Vec::new(),
                last_ok: false,
            },
            install_channel: channel,
            update_status: UpdateStatus::Idle,
            last_update_check_unix: settings.last_update_check_unix,
            taskbar_index: settings.taskbar_index,
            tray_offset: settings.tray_offset,
            dragging: false,
            floating_position: settings.floating_position,
            drag_start_mouse_x: 0,
            drag_start_client_x: 0,
            drag_start_offset: 0,
            widget_visible: settings.widget_visible,
            embed_in_taskbar: settings.embed_in_taskbar,
            click_through: settings.click_through,
        };
        assert(s@ == started(settings, system_dark, channel));
        s
    }

    /// The settings to save for this state.
    pub fn settings(&self) -> (settings: SettingsFile)
        ensures
            settings == saved_as(self@),
    {
        SettingsFile {
            appearance: self.appearance,
            floating_position: self.floating_position,
            desktop_layout_version: 1,
            tray_offset: self.tray_offset,
            taskbar_index: self.taskbar_index,
            poll_interval_ms: self.polling.interval_ms,
            last_update_check_unix: self.last_update_check_unix,
            widget_visible: self.widget_visible,
            show_claude_code: self.claude.shown,
            show_codex: self.codex.shown,
            show_antigravity: self.antigravity.shown,
            embed_in_taskbar: self.embed_in_taskbar,
            click_through: self.click_through,
        }
    }

    /// Put the same text into every countdown.
    pub fn set_every_text(&mut self, text: &str)
        ensures
            final(self)@ == with_every_text(old(self)@, text@),
    {
        self.claude.set_texts(text, text);
        self.codex.set_texts(text, text);
        self.antigravity.set_texts(text, text);
    }

    /// Record the taskbar that was found.
    pub fn attach(&mut self, index: usize, embed: bool)
        ensures
            final(self)@ == attached_to(old(self)@, index, embed),
    {
        self.attached = true;
        self.taskbar_index = index;
        self.embedded = embed;
    }

    /// Put an appearance in force.
    pub fn set_appearance(&mut self, value: Appearance, system_dark: bool)
        ensures
            final(self)@ == with_appearance(old(self)@, value, system_dark),
    {
        self.is_dark = value.is_dark(system_dark);
        self.appearance = value;
    }

    /// Follow the system theme; tells whether the widget has to be redrawn.
    pub fn check_theme(&mut self, system_dark: bool) -> (changed: bool)
        ensures
            final(self)@ == with_appearance(old(self)@, old(self)@.appearance, system_dark),
            changed == (final(self)@.is_dark != old(self)@.is_dark),
    {
        let dark: bool = self.appearance.is_dark(system_dark);
        if self.is_dark != dark {
            self.is_dark = dark;
            true
        } else {
            false
        }
    }

    /// The widget's width for the cards it shows.
    pub fn total_widget_width(&self, dpi: u32) -> (width: i32)
        requires
            dpi <= MAX_DPI,
        ensures
            width == widget_width(cards_of(self@), dpi),
            0 <= width <= 0x1000_0000,
    {
        let active: i32 = active_model_count(
            self.claude.shown,
            self.codex.shown,
            self.antigravity.shown,
        );
        proof {
            lemma_widths_fit(active as int, dpi);
        }
        total_widget_width_for(active, dpi)
    }

    /// Settle the offset from the tray and say where the widget stands. Also
    /// tells whether the offset changed, which is then to be saved.
    pub fn place_at_taskbar(&mut self, taskbar: Rect, tray: Option<Rect>, dpi: u32) -> (r: (
        Placement,
        bool,
    ))
        requires
            dpi <= MAX_DPI,
            taskbar_fits(
                taskbar,
                tray_edge(taskbar, tray) as int,
                widget_width(cards_of(old(self)@), dpi),
                scaled(WIDGET_HEIGHT as int, dpi),
                settled_offset(old(self)@, taskbar, tray, dpi),
            ),
        ensures
            final(self)@ == (AppState {
                tray_offset: settled_offset(old(self)@, taskbar, tray, dpi) as i32,
                ..old(self)@
            }),
            r.1 == (final(self)@.tray_offset != old(self)@.tray_offset),
            r.0.width == widget_width(cards_of(old(self)@), dpi),
            r.0.height == scaled(WIDGET_HEIGHT as int, dpi),
            (r.0.x as int, r.0.y as int) == crate::geometry::at_taskbar(
                taskbar,
                tray_edge(taskbar, tray) as int,
                r.0.width as int,
                r.0.height as int,
                settled_offset(old(self)@, taskbar, tray, dpi),
                old(self)@.embedded,
            ),
    {
        let tray_left: i32 = tray_left_for_taskbar(taskbar, tray);
        let width: i32 = self.total_widget_width(dpi);
        let offset: i32 = clamp_offset_for_taskbar(taskbar, tray_left, width, self.tray_offset);
        let changed: bool = self.tray_offset != offset;
        self.tray_offset = offset;
        let p = taskbar_placement(
            taskbar,
            tray_left,
            width,
            sc(WIDGET_HEIGHT, dpi),
            offset,
            self.embedded,
        );
        (p, changed)
    }

    /// Place the floating widget inside a work area. Also tells whether the
    /// position changed, which is then to be saved.
    pub fn place_floating(&mut self, work: Rect, dpi: u32) -> (r: (Placement, bool))
        requires
            dpi <= MAX_DPI,
            fits(work.right - widget_width(cards_of(old(self)@), dpi)),
            fits(work.bottom - scaled(WIDGET_HEIGHT as int, dpi)),
            fits(
                work.right - widget_width(cards_of(old(self)@), dpi) - scaled(
                    FLOATING_MARGIN as int,
                    dpi,
                ),
            ),
            fits(work.top + scaled(FLOATING_MARGIN as int, dpi)),
        ensures
            r.0.width == widget_width(cards_of(old(self)@), dpi),
            r.0.height == scaled(WIDGET_HEIGHT as int, dpi),
            (r.0.x as int, r.0.y as int) == floating_at(
                old(self)@.floating_position,
                r.0.width as int,
                r.0.height as int,
                work,
                dpi,
            ),
            final(self)@ == (AppState {
                floating_position: Some((r.0.x, r.0.y)),
                ..old(self)@
            }),
            r.1 == (old(self)@.floating_position != Some((r.0.x, r.0.y))),
    {
        let width: i32 = self.total_widget_width(dpi);
        let height: i32 = sc(WIDGET_HEIGHT, dpi);
        let (x, y) = floating_position(self.floating_position, width, height, work, dpi);
        let changed: bool = match self.floating_position {
            Some((px, py)) => px != x || py != y,
            None => true,
        };
        self.floating_position = Some((x, y));
        (Placement { x, y, width, height }, changed)
    }
}

/// What `position_at_taskbar` has to do, given the state there may be.
pub fn position_at_taskbar(state: &Option<State>) -> (p: Positioning)
    ensures
        p == positioning(model_of(*state)),
{
    match state {
        None => Positioning::Nothing,
        Some(s) => {
            if s.dragging {
                Positioning::Nothing
            } else if !s.embedded {
                Positioning::Floating
            } else if s.attached {
                Positioning::Taskbar
            } else {
                Positioning::Nothing
            }
        },
    }
}

/// Starting from settings and saving gives the settings back, at the current
/// layout version.
pub proof fn law_settings_survive_a_launch(
    s: SettingsFile,
    system_dark: bool,
    channel: InstallChannel,
)
    ensures
        saved_as(started(s, system_dark, channel)) == (SettingsFile {
            desktop_layout_version: 1,
            ..s
        }),
        shows_a_provider(s) ==> some_card_is_shown(started(s, system_dark, channel)),
{
}

/// Saving forgets nothing that a later launch shows: two launches apart, the
/// saved settings are the same.
pub proof fn law_saving_is_stable(m: Model, system_dark: bool, channel: InstallChannel)
    ensures
        saved_as(started(saved_as(m), system_dark, channel)) == saved_as(m),
{
}

/// A widget that is being dragged is left alone.
pub proof fn law_drags_are_not_fought(m: Model)
    requires
        m.dragging,
    ensures
        positioning(Some(m)) == Positioning::Nothing,
{
}

/// A launch takes each preference from its own setting, and starts floating,
/// unattached and with nothing polled.
pub proof fn law_a_launch_takes_over_the_settings(
    s: SettingsFile,
    system_dark: bool,
    channel: InstallChannel,
)
    ensures
        ({
            let m = started(s, system_dark, channel);
            &&& m.claude.shown == s.show_claude_code
            &&& m.codex.shown == s.show_codex
            &&& m.antigravity.shown == s.show_antigravity
            &&& m.polling.interval_ms == s.poll_interval_ms
            &&& m.appearance == s.appearance
            &&& m.floating_position == s.floating_position
            &&& m.tray_offset == s.tray_offset
            &&& m.taskbar_index == s.taskbar_index
            &&& m.widget_visible == s.widget_visible
            &&& m.embed_in_taskbar == s.embed_in_taskbar
            &&& m.click_through == s.click_through
            &&& m.last_update_check_unix == s.last_update_check_unix
            &&& m.install_channel == channel
            &&& m.update_status is Idle
            &&& m.data is None
            &&& !m.embedded && !m.attached && !m.dragging
            &&& !m.polling.last_ok && !m.polling.auth_error_paused
            &&& !m.polling.force_notify_auth_error
            &&& m.polling.retry_count == 0
            &&& s.appearance.mode == Mode::Light ==> !m.is_dark
            &&& s.appearance.mode == Mode::Dark ==> m.is_dark
            &&& s.appearance.mode == Mode::System ==> m.is_dark == system_dark
        }),
{
}

/// What is saved of a state is each preference under its own name.
pub proof fn law_saving_keeps_each_preference(m: Model)
    ensures
        ({
            let s = saved_as(m);
            &&& s.show_claude_code == m.claude.shown
            &&& s.show_codex == m.codex.shown
            &&& s.show_antigravity == m.antigravity.shown
            &&& s.poll_interval_ms == m.polling.interval_ms
            &&& s.appearance == m.appearance
            &&& s.floating_position == m.floating_position
            &&& s.tray_offset == m.tray_offset
            &&& s.taskbar_index == m.taskbar_index
            &&& s.widget_visible == m.widget_visible
            &&& s.embed_in_taskbar == m.embed_in_taskbar
            &&& s.click_through == m.click_through
            &&& s.last_update_check_unix == m.last_update_check_unix
            &&& s.desktop_layout_version == 1
        }),
{
}

/// An undragged widget is placed on the desktop while it floats, and at the
/// taskbar once it is embedded in one that was found.
pub proof fn law_widgets_stand_where_they_belong(m: Model)
    requires
        !m.dragging,
    ensures
        positioning(Some(m)) == Positioning::Floating <==> !m.embedded,
        positioning(Some(m)) == Positioning::Taskbar <==> m.embedded && m.attached,
        positioning(None) == Positioning::Nothing,
{
}

/// Finding a taskbar records which one it is and whether the widget became part
/// of it, and changes no reading and no other preference.
pub proof fn law_attaching_records_the_taskbar(m: Model, index: usize, embed: bool)
    ensures
        ({
            let a = attached_to(m, index, embed);
            &&& a.attached
            &&& a.taskbar_index == index
            &&& a.embedded == embed
            &&& a.claude == m.claude && a.codex == m.codex && a.antigravity == m.antigravity
            &&& a.data == m.data && a.polling == m.polling
            &&& saved_as(a) == (SettingsFile { taskbar_index: index, ..saved_as(m) })
        }),
{
}

/// An appearance in force decides whether the widget is dark, and changes
/// nothing but the saved appearance.
pub proof fn law_dressing_changes_the_appearance_alone(
    m: Model,
    value: Appearance,
    system_dark: bool,
)
    ensures
        ({
            let d = with_appearance(m, value, system_dark);
            &&& d.appearance == value
            &&& value.mode == Mode::Light ==> !d.is_dark
            &&& value.mode == Mode::Dark ==> d.is_dark
            &&& value.mode == Mode::System ==> d.is_dark == system_dark
            &&& d.claude == m.claude && d.codex == m.codex && d.antigravity == m.antigravity
            &&& d.data == m.data && d.polling == m.polling
            &&& saved_as(d) == (SettingsFile { appearance: value, ..saved_as(m) })
        }),
{
}

/// The offset at a taskbar is kept where the widget has room for it, and else
/// brought back so that the widget neither covers the tray nor leaves the
/// taskbar on the left.
pub proof fn law_offsets_keep_the_widget_on_its_taskbar(
    m: Model,
    taskbar: Rect,
    tray: Option<Rect>,
    dpi: u32,
)
    ensures
        ({
            let edge = match tray {
                Some(r) => r.left as int,
                None => taskbar.right as int,
            };
            let width = widget_width(cards_of(m), dpi);
            let o = settled_offset(m, taskbar, tray, dpi);
            &&& o >= 0
            &&& o > 0 ==> edge - width - o >= taskbar.left
            &&& 0 <= m.tray_offset && edge - width - m.tray_offset >= taskbar.left ==> o
                == m.tray_offset
        }),
{
}

/// The cards laid out are the shown ones, and one where none is shown.
pub proof fn law_shown_cards_are_counted(m: Model)
    ensures
        cards_of(m) == 3 <==> m.claude.shown && m.codex.shown && m.antigravity.shown,
        cards_of(m) == 2 <==> (m.claude.shown && m.codex.shown && !m.antigravity.shown) || (
        m.claude.shown && !m.codex.shown && m.antigravity.shown) || (!m.claude.shown
            && m.codex.shown && m.antigravity.shown),
        1 <= cards_of(m) <= 3,
{
}

} // verus!
