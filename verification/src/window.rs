//! The widget window: how each message changes the state and what it asks for.
use crate::effects::{given, Cursor, Effect, Timer};
use crate::geometry::{
    at_taskbar, clamp_offset_for_taskbar, clamped, drop_offset, fits, handle_contains,
    is_drag_handle_point, larger, offset_for_drop_point, offset_limit, pack_point,
    packed_point, sc, scaled, signed_word, taskbar_at_point, taskbar_fits, taskbar_placement,
    tray_edge, tray_left_for_taskbar, unpack_point, widget_width, Placement, Point, Rect, MAX_DPI,
    WIDGET_HEIGHT,
};
use crate::settings::{SettingsFile, POLL_15_MIN, POLL_1_HOUR, POLL_1_MIN, POLL_5_MIN};
use crate::state::{
    cards_of, model_of, saved_as, some_card_is_shown, started, with_every_text, with_texts,
    AppState, Card, InstallChannel, Model, Polling, State, UpdateStatus, WatchMode,
};
use vstd::prelude::*;

verus! {

pub const IDM_REFRESH: u16 = 1;

pub const IDM_EXIT: u16 = 2;

pub const IDM_FREQ_1MIN: u16 = 10;

pub const IDM_FREQ_5MIN: u16 = 11;

pub const IDM_FREQ_15MIN: u16 = 12;

pub const IDM_FREQ_1HOUR: u16 = 13;

pub const IDM_START_WITH_WINDOWS: u16 = 20;

pub const IDM_RESET_POSITION: u16 = 30;

pub const IDM_VERSION_ACTION: u16 = 31;

pub const IDM_TOGGLE_WIDGET: u16 = 50;

pub const IDM_MODEL_CLAUDE_CODE: u16 = 60;

pub const IDM_MODEL_CODEX: u16 = 61;

pub const IDM_MODEL_ANTIGRAVITY: u16 = 62;

pub const IDM_APPEARANCE: u16 = 80;

/// Ambient-animation cadence.
pub const ANIM_REFRESH_MS: u32 = 100;

/// How often the live RAM reading is sampled.
pub const RAM_REFRESH_MS: u32 = 2_000;

/// How long tray movements are ignored after the icons changed.
pub const TRAY_SUPPRESS_MS: u32 = 750;

/// A taskbar as queried: its rectangle, and the tray's within it.
#[derive(Clone, Copy, Debug, PartialEq, Eq, Structural)]
pub struct Taskbar {
    pub rect: Rect,
    pub tray: Option<Rect>,
}

/// What the display changed.
#[derive(Clone, Copy, Debug, PartialEq, Eq, Structural)]
pub enum DisplayChange {
    Display,
    /// A new DPI, in the low 16 bits of the parameter.
    Dpi(u64),
    Setting,
}

/// What a click on a tray icon asks for.
#[derive(Clone, Copy, Debug, PartialEq, Eq, Structural)]
pub enum TrayAction {
    ToggleWidget,
    ShowContextMenu,
    Nothing,
}

/// A message to the widget window, with what was queried to answer it.
#[derive(Debug)]
pub enum Message {
    Paint,
    EraseBackground,
    DisplayChanged(DisplayChange),
    Timer(Timer),
    /// The watched credentials were fingerprinted; `previous` is what was known
    /// when that was asked for.
    CredentialsChecked { mode: WatchMode, previous: Vec<u64>, current: Vec<u64> },
    /// A retry found a taskbar.
    TaskbarFound,
    UsageUpdated,
    UpdateCheckComplete,
    SetCursor { in_client: bool, on_handle: bool },
    EnterSizeMove,
    ExitSizeMove { rect: Option<Rect> },
    LeftDown { packed: u32, cursor: Point },
    MouseMove { cursor: Point, taskbar: Option<Taskbar> },
    LeftUp { cursor: Point, taskbars: Vec<Rect>, trays: Vec<Option<Rect>> },
    RightUp,
    Command(u16),
    Tray(TrayAction),
    ForegroundChanged,
    Destroy,
}

/// How a message is answered.
#[derive(Clone, Copy, Debug, PartialEq, Eq, Structural)]
pub enum Reply {
    /// With this result.
    Done(i32),
    /// By the window system's default.
    PassOn,
}

/// The answer to a message: the reply, what to do, and the credentials to
/// fingerprint, with what was last known of them.
#[derive(Debug)]
pub struct Response {
    pub reply: Reply,
    pub effects: Vec<Effect>,
    pub watch: Option<(WatchMode, Vec<u64>)>,
}

/// The answer as contracts speak of it, with the state it leaves.
#[verifier::ext_equal]
pub struct Step {
    pub state: Option<Model>,
    pub reply: Reply,
    pub effects: Seq<Effect>,
    pub watch: Option<(WatchMode, Seq<u64>)>,
}

pub open spec fn answered(state: Option<Model>, reply: Reply, effects: Seq<Effect>) -> Step {
    Step { state, reply, effects, watch: None }
}

pub open spec fn done(state: Option<Model>, effects: Seq<Effect>) -> Step {
    answered(state, Reply::Done(0), effects)
}

/// The widget stands on the desktop.
pub open spec fn floats(m: Option<Model>) -> bool {
    m is Some && !m->0.embedded
}

pub open spec fn is_dragging(m: Option<Model>) -> bool {
    m is Some && m->0.dragging
}

pub open spec fn is_visible(m: Option<Model>) -> bool {
    m is Some && m->0.widget_visible
}

/// The widget has to be kept above other windows.
pub open spec fn keeps_on_top(m: Option<Model>) -> bool {
    m is Some && !m->0.embedded && m->0.widget_visible
}

pub open spec fn display_effects(change: DisplayChange) -> Seq<Effect> {
    (match change {
        DisplayChange::Display => Seq::empty(),
        DisplayChange::Dpi(parameter) => seq![Effect::SetDpi((parameter % 0x10000) as u32)],
        DisplayChange::Setting => seq![Effect::CheckTheme],
    }) + seq![Effect::RefreshDpi, Effect::Reposition, Effect::Render]
}

pub open spec fn found_effects() -> Seq<Effect> {
    seq![Effect::KillTimer(Timer::TaskbarRetry), Effect::Reposition, Effect::Render]
}

pub open spec fn timer_step(m: Option<Model>, timer: Timer) -> Step {
    match timer {
        Timer::Poll => match m {
            None => done(m, Seq::empty()),
            Some(s) => if s.polling.auth_error_paused {
                Step {
                    state: m,
                    reply: Reply::Done(0),
                    effects: Seq::empty(),
                    watch: Some((s.polling.watch_mode, s.polling.watch_snapshot)),
                }
            } else {
                done(m, seq![Effect::StartPoll])
            },
        },
        Timer::Countdown => done(
            m,
            seq![Effect::UpdateDisplay, Effect::Render, Effect::ScheduleCountdown],
        ),
        Timer::Ram => done(m, given(is_visible(m), Effect::SampleRam)),
        Timer::Anim => done(m, given(is_visible(m), Effect::Render)),
        Timer::ResetPoll => done(
            m,
            given(m is Some && !m->0.polling.auth_error_paused, Effect::StartPoll),
        ),
        Timer::UpdateCheck => done(m, seq![Effect::CheckForUpdates { interactive: false }]),
        Timer::Topmost => done(m, given(keeps_on_top(m), Effect::ReassertTopmost)),
        Timer::TaskbarRetry => match m {
            None => done(m, seq![Effect::RetryAttach { index: 0, embed: false }]),
            Some(s) => if s.attached {
                done(m, found_effects())
            } else {
                done(
                    m,
                    seq![Effect::RetryAttach { index: s.taskbar_index, embed: s.embed_in_taskbar }],
                )
            },
        },
    }
}

/// A state with newer fingerprints of the credentials it watches.
pub open spec fn with_snapshot(m: Model, mode: WatchMode, snapshot: Seq<u64>) -> Model {
    if m.polling.auth_error_paused && m.polling.watch_mode == mode {
        AppState { polling: Polling { watch_snapshot: snapshot, ..m.polling }, ..m }
    } else {
        m
    }
}

pub open spec fn credentials_step(
    m: Option<Model>,
    mode: WatchMode,
    previous: Seq<u64>,
    current: Seq<u64>,
) -> Step {
    if current == previous {
        done(m, Seq::empty())
    } else {
        done(
            match m {
                None => None,
                Some(s) => Some(with_snapshot(s, mode, current)),
            },
            seq![Effect::StartPoll],
        )
    }
}

pub open spec fn usage_effects(m: Option<Model>) -> Seq<Effect> {
    given(m is Some && m->0.polling.last_ok, Effect::MarkPoll) + seq![
        Effect::CheckTheme,
        Effect::Render,
        Effect::ScheduleCountdown,
        Effect::SuppressTrayReposition { ms: TRAY_SUPPRESS_MS },
        Effect::SyncTrayIcons,
    ]
}

pub open spec fn cursor_step(m: Option<Model>, in_client: bool, on_handle: bool) -> Step {
    if floats(m) && in_client {
        answered(m, Reply::Done(1), seq![Effect::SetCursor(Cursor::SizeAll)])
    } else if is_dragging(m) || on_handle {
        answered(m, Reply::Done(1), seq![Effect::SetCursor(Cursor::SizeWestEast)])
    } else {
        answered(m, Reply::PassOn, Seq::empty())
    }
}

/// A state once its window stopped being moved.
pub open spec fn dropped(m: Model, rect: Option<Rect>) -> Model {
    AppState {
        dragging: false,
        floating_position: if !m.embedded && rect is Some {
            Some((rect->0.left, rect->0.top))
        } else {
            m.floating_position
        },
        ..m
    }
}

pub open spec fn left_down_step(m: Option<Model>, packed: u32, cursor: Point, dpi: u32) -> Step {
    let x = signed_word(packed as int);
    let y = signed_word(packed as int / 0x10000);
    if floats(m) {
        done(
            m,
            seq![Effect::ReleaseCapture, Effect::DragByCaption(packed_point(cursor) as u32)],
        )
    } else if !handle_contains(x, y, dpi) {
        done(m, Seq::empty())
    } else {
        done(
            match m {
                None => None,
                Some(s) => Some(
                    AppState {
                        dragging: true,
                        drag_start_mouse_x: cursor.x,
                        drag_start_client_x: x as i32,
                        drag_start_offset: s.tray_offset,
                        ..s
                    },
                ),
            },
            seq![Effect::SetCapture],
        )
    }
}

/// The offset a drag asks for: moving left makes it larger, and it never goes
/// right of the tray.
pub open spec fn dragged_offset(m: Model, cursor: Point) -> int {
    larger(m.drag_start_offset + (m.drag_start_mouse_x - cursor.x), 0)
}

/// The offset a drag settles on at a taskbar.
pub open spec fn dragged_offset_at(m: Model, cursor: Point, t: Taskbar, dpi: u32) -> int {
    let limit = offset_limit(
        t.rect,
        tray_edge(t.rect, t.tray) as int,
        widget_width(cards_of(m), dpi),
    );
    if dragged_offset(m, cursor) > limit {
        limit
    } else {
        dragged_offset(m, cursor)
    }
}

pub open spec fn mouse_move_step(
    m: Option<Model>,
    cursor: Point,
    taskbar: Option<Taskbar>,
    dpi: u32,
) -> Step {
    if floats(m) {
        answered(m, Reply::PassOn, Seq::empty())
    } else if !is_dragging(m) {
        done(m, Seq::empty())
    } else {
        let s = m->0;
        match taskbar {
            None => done(
                Some(AppState { tray_offset: dragged_offset(s, cursor) as i32, ..s }),
                Seq::empty(),
            ),
            Some(t) => {
                let offset = dragged_offset_at(s, cursor, t, dpi);
                let width = widget_width(cards_of(s), dpi);
                let height = scaled(WIDGET_HEIGHT as int, dpi);
                let p = at_taskbar(
                    t.rect,
                    tray_edge(t.rect, t.tray) as int,
                    width,
                    height,
                    offset,
                    s.embedded,
                );
                done(
                    Some(AppState { tray_offset: offset as i32, ..s }),
                    seq![
                        Effect::MoveWindow(
                            Placement {
                                x: p.0 as i32,
                                y: p.1 as i32,
                                width: width as i32,
                                height: height as i32,
                            },
                        ),
                    ],
                )
            },
        }
    }
}

/// The first taskbar under a point.
pub open spec fn taskbar_under(at: Point, taskbars: Seq<Rect>, from: int) -> Option<int>
    decreases taskbars.len() - from,
{
    if from < 0 || from >= taskbars.len() {
        None
    } else if taskbars[from].contains(at) {
        Some(from)
    } else {
        taskbar_under(at, taskbars, from + 1)
    }
}

/// The offset a drop on another taskbar settles on.
pub open spec fn dropped_offset(m: Model, cursor: Point, rect: Rect, tray: Option<Rect>, dpi: u32)
    -> int {
    let width = widget_width(cards_of(m), dpi);
    let edge = tray_edge(rect, tray) as int;
    clamped(
        drop_offset(rect, edge, width, cursor, m.drag_start_client_x as int),
        0,
        offset_limit(rect, edge, width),
    )
}

pub open spec fn left_up_step(
    m: Option<Model>,
    cursor: Point,
    taskbars: Seq<Rect>,
    trays: Seq<Option<Rect>>,
    dpi: u32,
) -> Step {
    if floats(m) {
        answered(m, Reply::PassOn, Seq::empty())
    } else if !is_dragging(m) {
        done(m, Seq::empty())
    } else {
        let s = AppState { dragging: false, ..m->0 };
        match taskbar_under(cursor, taskbars, 0) {
            Some(i) => if i != s.taskbar_index {
                let offset = dropped_offset(s, cursor, taskbars[i], trays[i], dpi);
                done(
                    Some(AppState { tray_offset: offset as i32, ..s }),
                    seq![
                        Effect::ReleaseCapture,
                        Effect::Reattach { index: i as usize, embed: s.embed_in_taskbar },
                        Effect::SaveSettings,
                    ],
                )
            } else {
                done(Some(s), seq![Effect::ReleaseCapture, Effect::SaveSettings])
            },
            None => done(Some(s), seq![Effect::ReleaseCapture, Effect::SaveSettings]),
        }
    }
}

/// A state after its visibility was toggled.
pub open spec fn toggled_visibility(m: Model) -> Model {
    AppState { widget_visible: !m.widget_visible, ..m }
}

pub open spec fn visibility_effects(visible: bool) -> Seq<Effect> {
    if visible {
        seq![
            Effect::SaveSettings,
            Effect::Reposition,
            Effect::ShowWindow,
            Effect::Render,
            Effect::SetTimer { timer: Timer::Anim, ms: ANIM_REFRESH_MS },
        ]
    } else {
        seq![Effect::SaveSettings, Effect::HideWindow, Effect::KillTimer(Timer::Anim)]
    }
}

/// A refresh waits for both countdowns of the first two providers and lets the
/// next sign-in problem be announced.
pub open spec fn waiting(m: Model) -> Model {
    AppState {
        claude: with_texts(m.claude, "..."@, "..."@),
        codex: with_texts(m.codex, "..."@, "..."@),
        polling: Polling { force_notify_auth_error: true, ..m.polling },
        ..m
    }
}

/// The polling interval a menu entry stands for.
pub open spec fn interval_of(id: u16) -> u32 {
    if id == IDM_FREQ_1MIN {
        POLL_1_MIN
    } else if id == IDM_FREQ_5MIN {
        POLL_5_MIN
    } else if id == IDM_FREQ_1HOUR {
        POLL_1_HOUR
    } else {
        POLL_15_MIN
    }
}

/// Which of the three providers are shown once a menu entry was chosen: its
/// provider is shown, or hidden while another one stays.
pub open spec fn shown_after(id: u16, claude: bool, codex: bool, antigravity: bool) -> (
    bool,
    bool,
    bool,
) {
    if id == IDM_MODEL_CLAUDE_CODE {
        (!claude || !(codex || antigravity), codex, antigravity)
    } else if id == IDM_MODEL_CODEX {
        (claude, !codex || !(claude || antigravity), antigravity)
    } else {
        (claude, codex, !antigravity || !(claude || codex))
    }
}

pub open spec fn toggled_provider(m: Model, id: u16) -> Model {
    let shown = shown_after(id, m.claude.shown, m.codex.shown, m.antigravity.shown);
    AppState {
        claude: Card { shown: shown.0, ..m.claude },
        codex: Card { shown: shown.1, ..m.codex },
        antigravity: Card { shown: shown.2, ..m.antigravity },
        ..m
    }
}

/// What the version entry of the menu does.
pub open spec fn version_effect(m: Option<Model>) -> Effect {
    if m is Some && m->0.update_status is Available {
        match m->0.install_channel {
            InstallChannel::Winget => Effect::UpdateThroughWinget,
            InstallChannel::Portable => Effect::ApplyUpdate,
        }
    } else {
        Effect::CheckForUpdates { interactive: true }
    }
}

/// A state whose widget goes back to its default position.
pub open spec fn unplaced(m: Model) -> Model {
    AppState { tray_offset: 0, floating_position: None, ..m }
}

pub open spec fn with_interval(m: Model, ms: u32) -> Model {
    AppState { polling: Polling { interval_ms: ms, ..m.polling }, ..m }
}

/// A state whose providers changed, waiting for all of them.
pub open spec fn rechosen(m: Model, id: u16) -> Model {
    with_every_text(toggled_provider(m, id), "..."@)
}

/// What a menu entry makes of the state.
pub open spec fn commanded(m: Model, id: u16) -> Model {
    if id == IDM_REFRESH {
        waiting(m)
    } else if id == IDM_RESET_POSITION {
        unplaced(m)
    } else if IDM_FREQ_1MIN <= id <= IDM_FREQ_1HOUR {
        with_interval(m, interval_of(id))
    } else if IDM_MODEL_CLAUDE_CODE <= id <= IDM_MODEL_ANTIGRAVITY {
        rechosen(m, id)
    } else if id == IDM_TOGGLE_WIDGET {
        toggled_visibility(m)
    } else {
        m
    }
}

/// What a menu entry asks for.
pub open spec fn command_effects(m: Option<Model>, id: u16) -> Seq<Effect> {
    if id == IDM_APPEARANCE {
        seq![Effect::OpenAppearance]
    } else if id == IDM_REFRESH {
        seq![Effect::Render, Effect::StartPoll]
    } else if id == IDM_VERSION_ACTION {
        seq![version_effect(m)]
    } else if id == IDM_EXIT {
        seq![Effect::UnhookTray, Effect::Quit]
    } else if id == IDM_RESET_POSITION {
        seq![Effect::SaveSettings, Effect::Reposition]
    } else if id == IDM_START_WITH_WINDOWS {
        seq![Effect::ToggleStartup]
    } else if IDM_FREQ_1MIN <= id <= IDM_FREQ_1HOUR {
        seq![Effect::SaveSettings, Effect::SetTimer { timer: Timer::Poll, ms: interval_of(id) }]
    } else if IDM_MODEL_CLAUDE_CODE <= id <= IDM_MODEL_ANTIGRAVITY {
        seq![
            Effect::SaveSettings,
            Effect::Reposition,
            Effect::Render,
            Effect::SyncTrayIcons,
            Effect::StartPoll,
        ]
    } else if id == IDM_TOGGLE_WIDGET && m is Some {
        visibility_effects(!m->0.widget_visible)
    } else {
        Seq::empty()
    }
}

pub open spec fn command_step(m: Option<Model>, id: u16) -> Step {
    done(
        match m {
            None => None,
            Some(s) => Some(commanded(s, id)),
        },
        command_effects(m, id),
    )
}

/// The answer to a message.
pub open spec fn step(m: Option<Model>, message: Message, dpi: u32) -> Step {
    match message {
        Message::Paint => done(
            m,
            seq![
                if m is Some && m->0.embedded {
                    Effect::ValidatePaint
                } else {
                    Effect::PaintWindow
                },
            ],
        ),
        Message::EraseBackground => answered(m, Reply::Done(1), Seq::empty()),
        Message::DisplayChanged(change) => done(m, display_effects(change)),
        Message::Timer(timer) => timer_step(m, timer),
        Message::CredentialsChecked { mode, previous, current } => credentials_step(
            m,
            mode,
            previous@,
            current@,
        ),
        Message::TaskbarFound => done(m, found_effects()),
        Message::UsageUpdated => done(m, usage_effects(m)),
        Message::UpdateCheckComplete => done(m, seq![Effect::ScheduleUpdateCheck]),
        Message::SetCursor { in_client, on_handle } => cursor_step(m, in_client, on_handle),
        Message::EnterSizeMove => done(
            match m {
                None => None,
                Some(s) => Some(AppState { dragging: true, ..s }),
            },
            Seq::empty(),
        ),
        Message::ExitSizeMove { rect } => done(
            match m {
                None => None,
                Some(s) => Some(dropped(s, rect)),
            },
            seq![Effect::Reposition, Effect::SaveSettings, Effect::Render],
        ),
        Message::LeftDown { packed, cursor } => left_down_step(m, packed, cursor, dpi),
        Message::MouseMove { cursor, taskbar } => mouse_move_step(m, cursor, taskbar, dpi),
        Message::LeftUp { cursor, taskbars, trays } => left_up_step(
            m,
            cursor,
            taskbars@,
            trays@,
            dpi,
        ),
        Message::RightUp => done(m, seq![Effect::ShowContextMenu]),
        Message::Command(id) => command_step(m, id),
        Message::Tray(action) => match action {
            TrayAction::ToggleWidget => command_step(m, IDM_TOGGLE_WIDGET),
            TrayAction::ShowContextMenu => done(m, seq![Effect::ShowContextMenu]),
            TrayAction::Nothing => done(m, Seq::empty()),
        },
        Message::ForegroundChanged => done(m, given(keeps_on_top(m), Effect::ReassertTopmost)),
        Message::Destroy => done(
            m,
            seq![
                Effect::UnhookTray,
                Effect::UnhookForeground,
                Effect::RemoveTrayIcons,
                Effect::Quit,
            ],
        ),
    }
}

/// The sums a drag over a taskbar takes stay within 32 bits.
pub open spec fn move_fits(m: Option<Model>, cursor: Point, taskbar: Option<Taskbar>, dpi: u32)
    -> bool {
    !floats(m) && is_dragging(m) ==> {
        &&& fits(m->0.drag_start_mouse_x - cursor.x)
        &&& fits(m->0.drag_start_offset + (m->0.drag_start_mouse_x - cursor.x))
        &&& taskbar is Some ==> taskbar_fits(
            taskbar->0.rect,
            tray_edge(taskbar->0.rect, taskbar->0.tray) as int,
            widget_width(cards_of(m->0), dpi),
            scaled(WIDGET_HEIGHT as int, dpi),
            dragged_offset_at(m->0, cursor, taskbar->0, dpi),
        )
    }
}

/// The sums a drop takes stay within 32 bits.
pub open spec fn drop_fits(
    m: Option<Model>,
    cursor: Point,
    taskbars: Seq<Rect>,
    trays: Seq<Option<Rect>>,
    dpi: u32,
) -> bool {
    &&& taskbars.len() == trays.len()
    &&& !floats(m) && is_dragging(m) ==> forall|i: int|
        #![trigger taskbars[i]]
        0 <= i < taskbars.len() ==> {
            let edge = tray_edge(taskbars[i], trays[i]);
            let width = widget_width(cards_of(m->0), dpi);
            &&& fits(edge - taskbars[i].left)
            &&& fits(edge - taskbars[i].left - width)
            &&& fits(cursor.x - taskbars[i].left)
            &&& fits(cursor.x - taskbars[i].left - m->0.drag_start_client_x)
            &&& fits(
                drop_offset(
                    taskbars[i],
                    edge as int,
                    width,
                    cursor,
                    m->0.drag_start_client_x as int,
                ),
            )
        }
}

/// The coordinates of a message can be worked with.
pub open spec fn message_fits(m: Option<Model>, message: Message, dpi: u32) -> bool {
    match message {
        Message::MouseMove { cursor, taskbar } => move_fits(m, cursor, taskbar, dpi),
        Message::LeftUp { cursor, taskbars, trays } => drop_fits(m, cursor, taskbars@, trays@, dpi),
        _ => true,
    }
}

/// A response and the state it leaves are those of a step.
pub open spec fn gives(state: Option<State>, r: Response, s: Step) -> bool {
    &&& model_of(state) =~~= s.state
    &&& r.reply == s.reply
    &&& r.effects@ =~= s.effects
    &&& match (r.watch, s.watch) {
        (Some((mode, snapshot)), Some((asked, known))) => mode == asked && snapshot@ =~= known,
        (None, None) => true,
        _ => false,
    }
}

fn answer(reply: Reply, effects: Vec<Effect>) -> (r: Response)
    ensures
        r.reply == reply,
        r.effects@ == effects@,
        r.watch is None,
{
    Response { reply, effects, watch: None }
}

fn finish(effects: Vec<Effect>) -> (r: Response)
    ensures
        r.reply == Reply::Done(0),
        r.effects@ == effects@,
        r.watch is None,
{
    Response { reply: Reply::Done(0), effects, watch: None }
}

fn effect_if(condition: bool, effect: Effect) -> (effects: Vec<Effect>)
    ensures
        effects@ == given(condition, effect),
{
    let mut effects: Vec<Effect> = Vec::new();
    if condition {
        effects.push(effect);
    }
    effects
}

fn is_floating(state: &Option<State>) -> (b: bool)
    ensures
        b == floats(model_of(*state)),
{
    match state {
        Some(s) => !s.embedded,
        None => false,
    }
}

fn drag_is_on(state: &Option<State>) -> (b: bool)
    ensures
        b == is_dragging(model_of(*state)),
{
    match state {
        Some(s) => s.dragging,
        None => false,
    }
}

fn shows_widget(state: &Option<State>) -> (b: bool)
    ensures
        b == is_visible(model_of(*state)),
{
    match state {
        Some(s) => s.widget_visible,
        None => false,
    }
}

fn stays_on_top(state: &Option<State>) -> (b: bool)
    ensures
        b == keeps_on_top(model_of(*state)),
{
    match state {
        Some(s) => !s.embedded && s.widget_visible,
        None => false,
    }
}

fn copy_snapshot(v: &Vec<u64>) -> (c: Vec<u64>)
    ensures
        c@ == v@,
{
    let mut c: Vec<u64> = Vec::new();
    let mut i: usize = 0;
    while i < v.len()
        invariant
            i <= v@.len(),
            c@ == v@.take(i as int),
        decreases v@.len() - i,
    {
        c.push(v[i]);
        i = i + 1;
        assert(v@.take(i as int) =~= v@.take(i - 1).push(v@[i - 1]));
    }
    assert(v@.take(v@.len() as int) =~= v@);
    c
}

fn same_snapshot(a: &Vec<u64>, b: &Vec<u64>) -> (same: bool)
    ensures
        same == (a@ == b@),
{
    if a.len() != b.len() {
        return false;
    }
    let mut i: usize = 0;
    while i < a.len()
        invariant
            i <= a@.len(),
            a@.len() == b@.len(),
            forall|j: int| 0 <= j < i ==> a@[j] == b@[j],
        decreases a@.len() - i,
    {
        if a[i] != b[i] {
            return false;
        }
        i = i + 1;
    }
    assert(a@ =~= b@);
    true
}

/// Answer a timer.
pub fn on_timer(state: &Option<State>, timer: Timer) -> (r: Response)
    ensures
        gives(*state, r, timer_step(model_of(*state), timer)),
{
    match timer {
        Timer::Poll => match state {
            None => finish(Vec::new()),
            Some(s) => {
                if s.polling.auth_error_paused {
                    let snapshot = copy_snapshot(&s.polling.watch_snapshot);
                    Response {
                        reply: Reply::Done(0),
                        effects: Vec::new(),
                        watch: Some((s.polling.watch_mode, snapshot)),
                    }
                } else {
                    finish(vec![Effect::StartPoll])
                }
            },
        },
        Timer::Countdown => finish(
            vec![Effect::UpdateDisplay, Effect::Render, Effect::ScheduleCountdown],
        ),
        Timer::Ram => finish(effect_if(shows_widget(state), Effect::SampleRam)),
        Timer::Anim => finish(effect_if(shows_widget(state), Effect::Render)),
        Timer::ResetPoll => {
            let active: bool = match state {
                Some(s) => !s.polling.auth_error_paused,
                None => false,
            };
            finish(effect_if(active, Effect::StartPoll))
        },
        Timer::UpdateCheck => finish(vec![Effect::CheckForUpdates { interactive: false }]),
        Timer::Topmost => finish(effect_if(stays_on_top(state), Effect::ReassertTopmost)),
        Timer::TaskbarRetry => match state {
            None => finish(vec![Effect::RetryAttach { index: 0, embed: false }]),
            Some(s) => {
                if s.attached {
                    finish(
                        vec![
                            Effect::KillTimer(Timer::TaskbarRetry),
                            Effect::Reposition,
                            Effect::Render,
                        ],
                    )
                } else {
                    finish(
                        vec![
                            Effect::RetryAttach {
                                index: s.taskbar_index,
                                embed: s.embed_in_taskbar,
                            },
                        ],
                    )
                }
            },
        },
    }
}

/// Poll again once watched credentials changed.
pub fn on_credentials_checked(
    state: &mut Option<State>,
    mode: WatchMode,
    previous: &Vec<u64>,
    current: Vec<u64>,
) -> (r: Response)
    ensures
        gives(
            *final(state),
            r,
            credentials_step(model_of(*old(state)), mode, previous@, current@),
        ),
{
    if same_snapshot(&current, previous) {
        return finish(Vec::new());
    }
    match state {
        None => {},
        Some(s) => {
            if s.polling.auth_error_paused && s.polling.watch_mode == mode {
                s.polling.watch_snapshot = current;
            }
        },
    }
    finish(vec![Effect::StartPoll])
}

/// Choose the cursor over the widget.
pub fn on_set_cursor(state: &Option<State>, in_client: bool, on_handle: bool) -> (r: Response)
    ensures
        gives(*state, r, cursor_step(model_of(*state), in_client, on_handle)),
{
    if is_floating(state) && in_client {
        answer(Reply::Done(1), vec![Effect::SetCursor(Cursor::SizeAll)])
    } else if drag_is_on(state) || on_handle {
        answer(Reply::Done(1), vec![Effect::SetCursor(Cursor::SizeWestEast)])
    } else {
        answer(Reply::PassOn, Vec::new())
    }
}

/// The left button went down at the client position `packed`.
pub fn on_left_down(state: &mut Option<State>, packed: u32, cursor: Point, dpi: u32) -> (r: Response)
    ensures
        gives(*final(state), r, left_down_step(model_of(*old(state)), packed, cursor, dpi)),
{
    if is_floating(state) {
        return finish(
            vec![Effect::ReleaseCapture, Effect::DragByCaption(pack_point(cursor))],
        );
    }
    let at = unpack_point(packed);
    if !is_drag_handle_point(at.x, at.y, dpi) {
        return finish(Vec::new());
    }
    match state {
        None => {},
        Some(s) => {
            s.dragging = true;
            s.drag_start_mouse_x = cursor.x;
            s.drag_start_client_x = at.x;
            s.drag_start_offset = s.tray_offset;
        },
    }
    finish(vec![Effect::SetCapture])
}

/// The mouse moved; an embedded widget that is dragged follows it along the
/// taskbar.
pub fn on_mouse_move(
    state: &mut Option<State>,
    cursor: Point,
    taskbar: Option<Taskbar>,
    dpi: u32,
) -> (r: Response)
    requires
        dpi <= MAX_DPI,
        move_fits(model_of(*old(state)), cursor, taskbar, dpi),
    ensures
        gives(*final(state), r, mouse_move_step(model_of(*old(state)), cursor, taskbar, dpi)),
{
    if is_floating(state) {
        return answer(Reply::PassOn, Vec::new());
    }
    if !drag_is_on(state) {
        return finish(Vec::new());
    }
    match state {
        None => finish(Vec::new()),
        Some(s) => {
            let moved: i32 = s.drag_start_offset + (s.drag_start_mouse_x - cursor.x);
            let wanted: i32 = if moved < 0 {
                0
            } else {
                moved
            };
            match taskbar {
                None => {
                    s.tray_offset = wanted;
                    finish(Vec::new())
                },
                Some(t) => {
                    let tray_left: i32 = tray_left_for_taskbar(t.rect, t.tray);
                    let width: i32 = s.total_widget_width(dpi);
                    let offset: i32 = clamp_offset_for_taskbar(t.rect, tray_left, width, wanted);
                    s.tray_offset = offset;
                    let p = taskbar_placement(
                        t.rect,
                        tray_left,
                        width,
                        sc(WIDGET_HEIGHT, dpi),
                        offset,
                        s.embedded,
                    );
                    finish(vec![Effect::MoveWindow(p)])
                },
            }
        },
    }
}

proof fn lemma_under(at: Point, taskbars: Seq<Rect>, from: int, found: Option<usize>)
    requires
        0 <= from <= taskbars.len(),
        match found {
            Some(i) => from <= i < taskbars.len() && taskbars[i as int].contains(at) && forall|
                j: int,
            |
                from <= j < i ==> !taskbars[j].contains(at),
            None => forall|j: int| from <= j < taskbars.len() ==> !taskbars[j].contains(at),
        },
    ensures
        taskbar_under(at, taskbars, from) == (match found {
            Some(i) => Some(i as int),
            None => None,
        }),
    decreases taskbars.len() - from,
{
    if from < taskbars.len() && !taskbars[from].contains(at) {
        lemma_under(at, taskbars, from + 1, found);
    }
}

/// The left button came up; a drag ends where it is, or on another taskbar.
pub fn on_left_up(
    state: &mut Option<State>,
    cursor: Point,
    taskbars: &Vec<Rect>,
    trays: &Vec<Option<Rect>>,
    dpi: u32,
) -> (r: Response)
    requires
        dpi <= MAX_DPI,
        drop_fits(model_of(*old(state)), cursor, taskbars@, trays@, dpi),
    ensures
        gives(
            *final(state),
            r,
            left_up_step(model_of(*old(state)), cursor, taskbars@, trays@, dpi),
        ),
{
    if is_floating(state) {
        return answer(Reply::PassOn, Vec::new());
    }
    if !drag_is_on(state) {
        return finish(Vec::new());
    }
    match state {
        None => finish(Vec::new()),
        Some(s) => {
            s.dragging = false;
            let target = taskbar_at_point(cursor, taskbars);
            proof {
                lemma_under(cursor, taskbars@, 0, target);
            }
            match target {
                Some(i) => {
                    if i != s.taskbar_index {
                        let rect = taskbars[i];
                        let tray_left: i32 = tray_left_for_taskbar(rect, trays[i]);
                        let width: i32 = s.total_widget_width(dpi);
                        s.tray_offset = offset_for_drop_point(
                            rect,
                            tray_left,
                            width,
                            cursor,
                            s.drag_start_client_x,
                        );
                        finish(
                            vec![
                                Effect::ReleaseCapture,
                                Effect::Reattach { index: i, embed: s.embed_in_taskbar },
                                Effect::SaveSettings,
                            ],
                        )
                    } else {
                        finish(vec![Effect::ReleaseCapture, Effect::SaveSettings])
                    }
                },
                None => finish(vec![Effect::ReleaseCapture, Effect::SaveSettings]),
            }
        },
    }
}

fn toggle_shown(id: u16, claude: bool, codex: bool, antigravity: bool) -> (shown: (
    bool,
    bool,
    bool,
))
    ensures
        shown == shown_after(id, claude, codex, antigravity),
{
    if id == IDM_MODEL_CLAUDE_CODE {
        (!claude || !(codex || antigravity), codex, antigravity)
    } else if id == IDM_MODEL_CODEX {
        (claude, !codex || !(claude || antigravity), antigravity)
    } else {
        (claude, codex, !antigravity || !(claude || codex))
    }
}

impl AppState<String, Vec<u64>> {
    fn await_refresh(&mut self)
        ensures
            final(self)@ == waiting(old(self)@),
    {
        self.claude.set_texts("...", "...");
        self.codex.set_texts("...", "...");
        self.polling.force_notify_auth_error = true;
    }

    fn toggle_provider(&mut self, id: u16)
        ensures
            final(self)@ == toggled_provider(old(self)@, id),
    {
        let (claude, codex, antigravity) = toggle_shown(
            id,
            self.claude.shown,
            self.codex.shown,
            self.antigravity.shown,
        );
        self.claude.shown = claude;
        self.codex.shown = codex;
        self.antigravity.shown = antigravity;
    }

    fn unplace(&mut self)
        ensures
            final(self)@ == unplaced(old(self)@),
    {
        self.tray_offset = 0;
        self.floating_position = None;
    }

    fn set_interval(&mut self, ms: u32)
        ensures
            final(self)@ == with_interval(old(self)@, ms),
    {
        self.polling.interval_ms = ms;
    }

    fn rechoose(&mut self, id: u16)
        ensures
            final(self)@ == rechosen(old(self)@, id),
    {
        self.toggle_provider(id);
        self.set_every_text("...");
    }

    fn toggle_visibility(&mut self)
        ensures
            final(self)@ == toggled_visibility(old(self)@),
    {
        self.widget_visible = !self.widget_visible;
    }

    /// Carry out what a menu entry makes of the state.
    fn command(&mut self, id: u16)
        ensures
            final(self)@ == commanded(old(self)@, id),
    {
        if id == IDM_REFRESH {
            self.await_refresh();
        } else if id == IDM_RESET_POSITION {
            self.unplace();
        } else if IDM_FREQ_1MIN <= id && id <= IDM_FREQ_1HOUR {
            self.set_interval(interval_for(id));
        } else if IDM_MODEL_CLAUDE_CODE <= id && id <= IDM_MODEL_ANTIGRAVITY {
            self.rechoose(id);
        } else if id == IDM_TOGGLE_WIDGET {
            self.toggle_visibility();
        }
    }

    fn drop_at(&mut self, rect: Option<Rect>)
        ensures
            final(self)@ == dropped(old(self)@, rect),
    {
        self.dragging = false;
        if !self.embedded {
            match rect {
                Some(r) => {
                    self.floating_position = Some((r.left, r.top));
                },
                None => {},
            }
        }
    }
}

fn version_action(state: &Option<State>) -> (effect: Effect)
    ensures
        effect == version_effect(model_of(*state)),
{
    match state {
        Some(s) => match s.update_status {
            UpdateStatus::Available(_) => match s.install_channel {
                InstallChannel::Winget => Effect::UpdateThroughWinget,
                InstallChannel::Portable => Effect::ApplyUpdate,
            },
            _ => Effect::CheckForUpdates { interactive: true },
        },
        None => Effect::CheckForUpdates { interactive: true },
    }
}

fn interval_for(id: u16) -> (ms: u32)
    ensures
        ms == interval_of(id),
{
    if id == IDM_FREQ_1MIN {
        POLL_1_MIN
    } else if id == IDM_FREQ_5MIN {
        POLL_5_MIN
    } else if id == IDM_FREQ_1HOUR {
        POLL_1_HOUR
    } else {
        POLL_15_MIN
    }
}

fn menu_effects(state: &Option<State>, id: u16) -> (effects: Vec<Effect>)
    ensures
        effects@ == command_effects(model_of(*state), id),
{
    if id == IDM_APPEARANCE {
        vec![Effect::OpenAppearance]
    } else if id == IDM_REFRESH {
        vec![Effect::Render, Effect::StartPoll]
    } else if id == IDM_VERSION_ACTION {
        vec![version_action(state)]
    } else if id == IDM_EXIT {
        vec![Effect::UnhookTray, Effect::Quit]
    } else if id == IDM_RESET_POSITION {
        vec![Effect::SaveSettings, Effect::Reposition]
    } else if id == IDM_START_WITH_WINDOWS {
        vec![Effect::ToggleStartup]
    } else if IDM_FREQ_1MIN <= id && id <= IDM_FREQ_1HOUR {
        vec![Effect::SaveSettings, Effect::SetTimer { timer: Timer::Poll, ms: interval_for(id) }]
    } else if IDM_MODEL_CLAUDE_CODE <= id && id <= IDM_MODEL_ANTIGRAVITY {
        vec![
            Effect::SaveSettings,
            Effect::Reposition,
            Effect::Render,
            Effect::SyncTrayIcons,
            Effect::StartPoll,
        ]
    } else if id == IDM_TOGGLE_WIDGET {
        match state {
            None => Vec::new(),
            Some(s) => {
                if s.widget_visible {
                    vec![
                        Effect::SaveSettings,
                        Effect::HideWindow,
                        Effect::KillTimer(Timer::Anim),
                    ]
                } else {
                    vec![
                        Effect::SaveSettings,
                        Effect::Reposition,
                        Effect::ShowWindow,
                        Effect::Render,
                        Effect::SetTimer { timer: Timer::Anim, ms: ANIM_REFRESH_MS },
                    ]
                }
            },
        }
    } else {
        Vec::new()
    }
}

/// A menu entry was chosen.
pub fn on_command(state: &mut Option<State>, id: u16) -> (r: Response)
    ensures
        gives(*final(state), r, command_step(model_of(*old(state)), id)),
{
    let effects = menu_effects(state, id);
    match state {
        None => {},
        Some(s) => s.command(id),
    }
    finish(effects)
}

/// Show or hide the widget.
pub fn toggle_widget_visibility(state: &mut Option<State>) -> (r: Response)
    ensures
        gives(*final(state), r, command_step(model_of(*old(state)), IDM_TOGGLE_WIDGET)),
{
    on_command(state, IDM_TOGGLE_WIDGET)
}

fn on_display_changed(change: DisplayChange) -> (effects: Vec<Effect>)
    ensures
        effects@ == display_effects(change),
{
    match change {
        DisplayChange::Display => vec![Effect::RefreshDpi, Effect::Reposition, Effect::Render],
        DisplayChange::Dpi(parameter) => {
            let effects = vec![
                Effect::SetDpi((parameter % 0x10000) as u32),
                Effect::RefreshDpi,
                Effect::Reposition,
                Effect::Render,
            ];
            assert(effects@ =~= display_effects(change));
            effects
        },
        DisplayChange::Setting => {
            let effects = vec![
                Effect::CheckTheme,
                Effect::RefreshDpi,
                Effect::Reposition,
                Effect::Render,
            ];
            assert(effects@ =~= display_effects(change));
            effects
        },
    }
}

fn on_usage_updated(state: &Option<State>) -> (effects: Vec<Effect>)
    ensures
        effects@ == usage_effects(model_of(*state)),
{
    let fresh: bool = match state {
        Some(s) => s.polling.last_ok,
        None => false,
    };
    let mut effects = effect_if(fresh, Effect::MarkPoll);
    effects.push(Effect::CheckTheme);
    effects.push(Effect::Render);
    effects.push(Effect::ScheduleCountdown);
    effects.push(Effect::SuppressTrayReposition { ms: TRAY_SUPPRESS_MS });
    effects.push(Effect::SyncTrayIcons);
    assert(effects@ =~= usage_effects(model_of(*state)));
    effects
}

/// Answer a message to the widget window.
pub fn wnd_proc(state: &mut Option<State>, message: Message, dpi: u32) -> (r: Response)
    requires
        dpi <= MAX_DPI,
        message_fits(model_of(*old(state)), message, dpi),
    ensures
        gives(*final(state), r, step(model_of(*old(state)), message, dpi)),
{
    match message {
        Message::Paint => {
            let embedded: bool = match state {
                Some(s) => s.embedded,
                None => false,
            };
            finish(
                vec![
                    if embedded {
                        Effect::ValidatePaint
                    } else {
                        Effect::PaintWindow
                    },
                ],
            )
        },
        Message::EraseBackground => answer(Reply::Done(1), Vec::new()),
        Message::DisplayChanged(change) => finish(on_display_changed(change)),
        Message::Timer(timer) => on_timer(state, timer),
        Message::CredentialsChecked { mode, previous, current } => on_credentials_checked(
            state,
            mode,
            &previous,
            current,
        ),
        Message::TaskbarFound => finish(
            vec![Effect::KillTimer(Timer::TaskbarRetry), Effect::Reposition, Effect::Render],
        ),
        Message::UsageUpdated => finish(on_usage_updated(state)),
        Message::UpdateCheckComplete => finish(vec![Effect::ScheduleUpdateCheck]),
        Message::SetCursor { in_client, on_handle } => on_set_cursor(state, in_client, on_handle),
        Message::EnterSizeMove => {
            match state {
                None => {},
                Some(s) => {
                    s.dragging = true;
                },
            }
            finish(Vec::new())
        },
        Message::ExitSizeMove { rect } => {
            match state {
                None => {},
                Some(s) => s.drop_at(rect),
            }
            finish(vec![Effect::Reposition, Effect::SaveSettings, Effect::Render])
        },
        Message::LeftDown { packed, cursor } => on_left_down(state, packed, cursor, dpi),
        Message::MouseMove { cursor, taskbar } => on_mouse_move(state, cursor, taskbar, dpi),
        Message::LeftUp { cursor, taskbars, trays } => on_left_up(
            state,
            cursor,
            &taskbars,
            &trays,
            dpi,
        ),
        Message::RightUp => finish(vec![Effect::ShowContextMenu]),
        Message::Command(id) => on_command(state, id),
        Message::Tray(action) => match action {
            TrayAction::ToggleWidget => toggle_widget_visibility(state),
            TrayAction::ShowContextMenu => finish(vec![Effect::ShowContextMenu]),
            TrayAction::Nothing => finish(Vec::new()),
        },
        Message::ForegroundChanged => finish(
            effect_if(stays_on_top(state), Effect::ReassertTopmost),
        ),
        Message::Destroy => finish(
            vec![
                Effect::UnhookTray,
                Effect::UnhookForeground,
                Effect::RemoveTrayIcons,
                Effect::Quit,
            ],
        ),
    }
}

/// No message leaves the widget without a provider to show.
pub proof fn law_some_provider_stays_shown(m: Model, message: Message, dpi: u32)
    requires
        some_card_is_shown(m),
    ensures
        step(Some(m), message, dpi).state is Some,
        some_card_is_shown(step(Some(m), message, dpi).state->0),
{
}

/// A provider's menu entry turns it on when it is off, and off again unless it
/// is the only one left; the other providers keep their choice.
pub proof fn law_provider_entries_toggle(m: Model, id: u16)
    requires
        IDM_MODEL_CLAUDE_CODE <= id <= IDM_MODEL_ANTIGRAVITY,
        some_card_is_shown(m),
    ensures
        ({
            let c = commanded(m, id);
            &&& id == IDM_MODEL_CLAUDE_CODE ==> c.codex.shown == m.codex.shown
                && c.antigravity.shown == m.antigravity.shown && (c.claude.shown <==> !(
            m.claude.shown && (m.codex.shown || m.antigravity.shown)))
            &&& id == IDM_MODEL_CODEX ==> c.claude.shown == m.claude.shown && c.antigravity.shown
                == m.antigravity.shown && (c.codex.shown <==> !(m.codex.shown && (m.claude.shown
                || m.antigravity.shown)))
            &&& id == IDM_MODEL_ANTIGRAVITY ==> c.claude.shown == m.claude.shown && c.codex.shown
                == m.codex.shown && (c.antigravity.shown <==> !(m.antigravity.shown && (
            m.claude.shown || m.codex.shown)))
        }),
{
}

/// While polling is paused, the poll timer only looks at the credentials, and a
/// poll starts exactly when their fingerprints changed.
pub proof fn law_paused_polling_waits_for_credentials(
    m: Model,
    current: Seq<u64>,
)
    requires
        m.polling.auth_error_paused,
    ensures
        ({
            let asked = timer_step(Some(m), Timer::Poll);
            let known = m.polling.watch_snapshot;
            let told = credentials_step(Some(m), m.polling.watch_mode, known, current);
            &&& asked.effects == Seq::<Effect>::empty()
            &&& asked.watch == Some((m.polling.watch_mode, known))
            &&& told.effects == (if current == known {
                Seq::<Effect>::empty()
            } else {
                seq![Effect::StartPoll]
            })
            &&& told.state is Some && told.state->0.polling.watch_snapshot == current
            &&& timer_step(Some(m), Timer::ResetPoll).effects == Seq::<Effect>::empty()
        }),
{
}

/// A hidden widget costs nothing: its sampling and animation timers do nothing.
pub proof fn law_hidden_widgets_are_idle(m: Model)
    requires
        !m.widget_visible,
    ensures
        timer_step(Some(m), Timer::Ram).effects == Seq::<Effect>::empty(),
        timer_step(Some(m), Timer::Anim).effects == Seq::<Effect>::empty(),
        timer_step(Some(m), Timer::Topmost).effects == Seq::<Effect>::empty(),
{
}

/// Toggling the widget twice gives the state back.
pub proof fn law_toggling_twice_changes_nothing(m: Model)
    ensures
        commanded(commanded(m, IDM_TOGGLE_WIDGET), IDM_TOGGLE_WIDGET) == m,
{
}

/// A drag along the taskbar keeps the offset between the tray and the
/// taskbar's left end, and a move back to where it began restores it.
pub proof fn law_drags_stay_on_the_taskbar(m: Model, cursor: Point, t: Taskbar, dpi: u32)
    ensures
        ({
            let edge = tray_edge(t.rect, t.tray) as int;
            let limit = offset_limit(t.rect, edge, widget_width(cards_of(m), dpi));
            &&& 0 <= dragged_offset_at(m, cursor, t, dpi) <= limit
            &&& cursor.x == m.drag_start_mouse_x && 0 <= m.drag_start_offset <= limit
                ==> dragged_offset_at(m, cursor, t, dpi) == m.drag_start_offset
        }),
{
}

/// A floating widget that is dropped remembers where, and Reset Position
/// forgets it; an embedded one keeps its floating position.
pub proof fn law_drops_are_remembered(m: Model, rect: Rect)
    ensures
        !m.embedded ==> dropped(m, Some(rect)).floating_position == Some((rect.left, rect.top)),
        m.embedded ==> dropped(m, Some(rect)).floating_position == m.floating_position,
        commanded(dropped(m, Some(rect)), IDM_RESET_POSITION).floating_position is None,
        commanded(dropped(m, Some(rect)), IDM_RESET_POSITION).tray_offset == 0,
{
}

/// A floating widget that was dropped is found there again after a restart.
pub proof fn law_drops_survive_a_restart(
    m: Model,
    rect: Rect,
    system_dark: bool,
    channel: InstallChannel,
)
    requires
        !m.embedded,
    ensures
        started(saved_as(dropped(m, Some(rect))), system_dark, channel).floating_position == Some(
            (rect.left, rect.top),
        ),
{
}

/// Neither the animation nor the memory readings cause a poll.
pub proof fn law_animation_never_polls(m: Option<Model>)
    ensures
        !timer_step(m, Timer::Anim).effects.contains(Effect::StartPoll),
        !timer_step(m, Timer::Ram).effects.contains(Effect::StartPoll),
        !timer_step(m, Timer::Countdown).effects.contains(Effect::StartPoll),
        !timer_step(m, Timer::Topmost).effects.contains(Effect::StartPoll),
{
}

/// An update-frequency entry sets the polling interval it names, and the poll
/// timer it asks for has that very period; it is saved, and nothing else of the
/// state changes.
pub proof fn law_frequencies_take_effect(m: Model, id: u16, dpi: u32, i: int)
    requires
        10 <= id <= 13,
    ensures
        ({
            let r = step(Some(m), Message::Command(id), dpi);
            let p = r.state->0;
            &&& r.state is Some
            &&& id == IDM_FREQ_1MIN ==> p.polling.interval_ms == 60_000
            &&& id == IDM_FREQ_5MIN ==> p.polling.interval_ms == 300_000
            &&& id == IDM_FREQ_15MIN ==> p.polling.interval_ms == 900_000
            &&& id == IDM_FREQ_1HOUR ==> p.polling.interval_ms == 3_600_000
            &&& saved_as(p) == (SettingsFile {
                poll_interval_ms: p.polling.interval_ms,
                ..saved_as(m)
            })
            &&& p.claude == m.claude && p.codex == m.codex && p.antigravity == m.antigravity
            &&& r.effects.contains(Effect::SaveSettings)
            &&& r.effects.contains(
                Effect::SetTimer { timer: Timer::Poll, ms: p.polling.interval_ms },
            )
            &&& 0 <= i < r.effects.len() && r.effects[i] is SetTimer ==> r.effects[i] == (
            Effect::SetTimer { timer: Timer::Poll, ms: p.polling.interval_ms })
            &&& r.effects.len() == 2
        }),
        IDM_FREQ_1MIN == 10 && IDM_FREQ_5MIN == 11 && IDM_FREQ_15MIN == 12 && IDM_FREQ_1HOUR
            == 13,
{
    let r = step(Some(m), Message::Command(id), dpi);
    assert(r.effects[0] == Effect::SaveSettings);
    assert(r.effects[1] == (Effect::SetTimer {
        timer: Timer::Poll,
        ms: r.state->0.polling.interval_ms,
    }));
}

/// Refresh polls at once, shows the first two providers as waiting, and lets
/// the next sign-in problem be announced; it saves nothing.
pub proof fn law_refresh_polls_at_once(m: Model, dpi: u32)
    ensures
        ({
            let r = step(Some(m), Message::Command(IDM_REFRESH), dpi);
            let p = r.state->0;
            &&& r.state is Some
            &&& r.effects.contains(Effect::StartPoll)
            &&& p.claude.session.text == "..."@ && p.claude.weekly.text == "..."@
            &&& p.codex.session.text == "..."@ && p.codex.weekly.text == "..."@
            &&& p.claude.session.percent == m.claude.session.percent
            &&& p.claude.weekly.percent == m.claude.weekly.percent
            &&& p.codex.session.percent == m.codex.session.percent
            &&& p.codex.weekly.percent == m.codex.weekly.percent
            &&& p.antigravity == m.antigravity
            &&& p.polling == (Polling { force_notify_auth_error: true, ..m.polling })
            &&& saved_as(p) == saved_as(m)
            &&& p.data == m.data
        }),
{
    assert(step(Some(m), Message::Command(IDM_REFRESH), dpi).effects[1] == Effect::StartPoll);
}

/// Choosing providers shows every row as waiting and polls at once with the new
/// choice, which is saved and shown in the tray; no other preference changes.
pub proof fn law_choosing_providers_polls_them(m: Model, id: u16, dpi: u32)
    requires
        60 <= id <= 62,
    ensures
        ({
            let r = step(Some(m), Message::Command(id), dpi);
            let p = r.state->0;
            &&& r.state is Some
            &&& r.effects.contains(Effect::StartPoll)
            &&& r.effects.contains(Effect::SaveSettings)
            &&& r.effects.contains(Effect::SyncTrayIcons)
            &&& r.effects.contains(Effect::Reposition)
            &&& p.claude.session.text == "..."@ && p.claude.weekly.text == "..."@
            &&& p.codex.session.text == "..."@ && p.codex.weekly.text == "..."@
            &&& p.antigravity.session.text == "..."@ && p.antigravity.weekly.text == "..."@
            &&& p.polling == m.polling
            &&& saved_as(p) == (SettingsFile {
                show_claude_code: p.claude.shown,
                show_codex: p.codex.shown,
                show_antigravity: p.antigravity.shown,
                ..saved_as(m)
            })
            &&& id == 60 ==> p.codex.shown == m.codex.shown && p.antigravity.shown
                == m.antigravity.shown
            &&& id == 61 ==> p.claude.shown == m.claude.shown && p.antigravity.shown
                == m.antigravity.shown
            &&& id == 62 ==> p.claude.shown == m.claude.shown && p.codex.shown == m.codex.shown
            &&& id == 60 && !m.claude.shown ==> p.claude.shown
            &&& id == 61 && !m.codex.shown ==> p.codex.shown
            &&& id == 62 && !m.antigravity.shown ==> p.antigravity.shown
            &&& id == 60 && m.claude.shown && (m.codex.shown || m.antigravity.shown)
                ==> !p.claude.shown
            &&& id == 61 && m.codex.shown && (m.claude.shown || m.antigravity.shown)
                ==> !p.codex.shown
            &&& id == 62 && m.antigravity.shown && (m.claude.shown || m.codex.shown)
                ==> !p.antigravity.shown
        }),
        IDM_MODEL_CLAUDE_CODE == 60 && IDM_MODEL_CODEX == 61 && IDM_MODEL_ANTIGRAVITY == 62,
{
    let e = step(Some(m), Message::Command(id), dpi).effects;
    assert(e[0] == Effect::SaveSettings);
    assert(e[1] == Effect::Reposition);
    assert(e[3] == Effect::SyncTrayIcons);
    assert(e[4] == Effect::StartPoll);
}

/// Reset Position forgets where the widget stood, in both of its modes, saves
/// that and places it anew; nothing else changes.
pub proof fn law_reset_position_forgets_the_place(m: Model, dpi: u32)
    ensures
        ({
            let r = step(Some(m), Message::Command(IDM_RESET_POSITION), dpi);
            let p = r.state->0;
            &&& r.state is Some
            &&& p.floating_position is None && p.tray_offset == 0
            &&& (Model {
                floating_position: m.floating_position,
                tray_offset: m.tray_offset,
                ..p
            }) == m
            &&& r.effects == seq![Effect::SaveSettings, Effect::Reposition]
        }),
{
}

/// The widget's entry, and a click on a tray icon, show a hidden widget and
/// hide a shown one. The choice is saved, and only a shown widget is animated,
/// ten times a second.
pub proof fn law_visibility_is_toggled(m: Model, dpi: u32)
    ensures
        ({
            let r = step(Some(m), Message::Command(IDM_TOGGLE_WIDGET), dpi);
            let p = r.state->0;
            &&& r.state is Some
            &&& p.widget_visible == !m.widget_visible
            &&& (Model { widget_visible: m.widget_visible, ..p }) == m
            &&& r.effects.contains(Effect::SaveSettings)
            &&& r.effects.contains(Effect::ShowWindow) <==> p.widget_visible
            &&& r.effects.contains(Effect::HideWindow) <==> !p.widget_visible
            &&& r.effects.contains(
                Effect::SetTimer { timer: Timer::Anim, ms: 100 },
            ) <==> p.widget_visible
            &&& r.effects.contains(Effect::KillTimer(Timer::Anim)) <==> !p.widget_visible
            &&& step(Some(m), Message::Tray(TrayAction::ToggleWidget), dpi) == r
        }),
{
    let e = step(Some(m), Message::Command(IDM_TOGGLE_WIDGET), dpi).effects;
    assert(e[0] == Effect::SaveSettings);
    if m.widget_visible {
        assert(e[1] == Effect::HideWindow);
        assert(e[2] == Effect::KillTimer(Timer::Anim));
    } else {
        assert(e[2] == Effect::ShowWindow);
        assert(e[4] == (Effect::SetTimer { timer: Timer::Anim, ms: 100 }));
    }
}

/// The remaining entries ask for what they name and leave the state alone: the
/// studio, the startup entry, leaving, and the version entry, which updates
/// where a release is known and otherwise looks for one. An entry that is none
/// of the menu's does nothing.
pub proof fn law_other_entries_leave_the_state_alone(m: Model, id: u16, dpi: u32)
    requires
        !(10 <= id <= 13) && !(60 <= id <= 62) && id != IDM_REFRESH && id != IDM_RESET_POSITION
            && id != IDM_TOGGLE_WIDGET,
    ensures
        ({
            let r = step(Some(m), Message::Command(id), dpi);
            &&& r.state == Some(m)
            &&& id == IDM_APPEARANCE ==> r.effects == seq![Effect::OpenAppearance]
            &&& id == IDM_START_WITH_WINDOWS ==> r.effects == seq![Effect::ToggleStartup]
            &&& id == IDM_EXIT ==> r.effects.contains(Effect::Quit)
            &&& id == IDM_VERSION_ACTION && m.update_status is Available && m.install_channel
                == InstallChannel::Portable ==> r.effects == seq![Effect::ApplyUpdate]
            &&& id == IDM_VERSION_ACTION && m.update_status is Available && m.install_channel
                == InstallChannel::Winget ==> r.effects == seq![Effect::UpdateThroughWinget]
            &&& id == IDM_VERSION_ACTION && !(m.update_status is Available) ==> r.effects
                == seq![Effect::CheckForUpdates { interactive: true }]
            &&& id != IDM_APPEARANCE && id != IDM_START_WITH_WINDOWS && id != IDM_EXIT && id
                != IDM_VERSION_ACTION ==> r.effects.len() == 0
        }),
{
    if id == IDM_EXIT {
        assert(step(Some(m), Message::Command(id), dpi).effects[1] == Effect::Quit);
    }
}

/// Whatever a message changes of the saved preferences is saved at once, except
/// the offset of a drag that is still under way.
pub proof fn law_changed_preferences_are_saved(m: Model, message: Message, dpi: u32)
    requires
        saved_as(step(Some(m), message, dpi).state->0) != saved_as(m),
        !(message is MouseMove),
    ensures
        step(Some(m), message, dpi).effects.contains(Effect::SaveSettings),
{
    let e = step(Some(m), message, dpi).effects;
    match message {
        Message::ExitSizeMove { rect } => {
            assert(e[1] == Effect::SaveSettings);
        },
        Message::LeftUp { cursor, taskbars, trays } => {
            assert(e.len() == 3 ==> e[2] == Effect::SaveSettings);
            assert(e.len() == 2 ==> e[1] == Effect::SaveSettings);
        },
        Message::Command(id) => {
            assert(e.len() > 0 ==> e[0] == Effect::SaveSettings || !(10 <= id <= 13 || 60 <= id
                <= 62 || id == IDM_RESET_POSITION || id == IDM_TOGGLE_WIDGET));
        },
        Message::Tray(action) => {
            assert(e.len() > 0 ==> e[0] == Effect::SaveSettings || !(action
                is ToggleWidget));
        },
        _ => {},
    }
}

/// Nothing that was polled, read or looked up differs between two states.
pub open spec fn same_readings(a: Model, b: Model) -> bool {
    &&& a.data == b.data
    &&& a.appearance == b.appearance && a.is_dark == b.is_dark
    &&& a.update_status == b.update_status
    &&& a.last_update_check_unix == b.last_update_check_unix
    &&& a.embedded == b.embedded && a.attached == b.attached
    &&& a.taskbar_index == b.taskbar_index
    &&& a.claude.session.percent == b.claude.session.percent
    &&& a.claude.weekly.percent == b.claude.weekly.percent
    &&& a.codex.session.percent == b.codex.session.percent
    &&& a.codex.weekly.percent == b.codex.weekly.percent
    &&& a.antigravity.session.percent == b.antigravity.session.percent
    &&& a.antigravity.weekly.percent == b.antigravity.weekly.percent
    &&& a.polling.retry_count == b.polling.retry_count
    &&& a.polling.last_ok == b.polling.last_ok
    &&& a.polling.auth_error_paused == b.polling.auth_error_paused
}

/// No message touches what was polled, the appearance or the update status, and
/// none but a menu entry changes the countdowns or the choice of providers.
pub proof fn law_messages_leave_the_readings_alone(m: Model, message: Message, dpi: u32)
    ensures
        step(Some(m), message, dpi).state is Some,
        same_readings(step(Some(m), message, dpi).state->0, m),
        !(message is Command) ==> {
            let p = step(Some(m), message, dpi).state->0;
            p.claude == m.claude && p.codex == m.codex && p.antigravity == m.antigravity
        },
{
    match message {
        Message::Command(id) => {
            lemma_commands_keep_the_readings(m, id);
        },
        Message::LeftUp { cursor, taskbars, trays } => {
            lemma_drops_keep_the_readings(m, cursor, taskbars@, trays@, dpi);
        },
        Message::MouseMove { cursor, taskbar } => {
            lemma_moves_keep_the_readings(m, cursor, taskbar, dpi);
        },
        Message::LeftDown { packed, cursor } => {
            lemma_grabs_keep_the_readings(m, packed, cursor, dpi);
        },
        Message::Timer(timer) => {
            lemma_timers_keep_the_state(m, timer);
        },
        Message::CredentialsChecked { mode, previous, current } => {
            lemma_credentials_keep_the_readings(m, mode, previous@, current@);
        },
        _ => {},
    }
}

proof fn lemma_drops_keep_the_readings(
    m: Model,
    cursor: Point,
    taskbars: Seq<Rect>,
    trays: Seq<Option<Rect>>,
    dpi: u32,
)
    ensures
        ({
            let p = left_up_step(Some(m), cursor, taskbars, trays, dpi).state;
            &&& p is Some
            &&& same_readings(p->0, m)
            &&& p->0.claude == m.claude && p->0.codex == m.codex && p->0.antigravity
                == m.antigravity
        }),
{
}

proof fn lemma_moves_keep_the_readings(
    m: Model,
    cursor: Point,
    taskbar: Option<Taskbar>,
    dpi: u32,
)
    ensures
        ({
            let p = mouse_move_step(Some(m), cursor, taskbar, dpi).state;
            &&& p is Some
            &&& same_readings(p->0, m)
            &&& p->0.claude == m.claude && p->0.codex == m.codex && p->0.antigravity
                == m.antigravity
        }),
{
}

proof fn lemma_grabs_keep_the_readings(m: Model, packed: u32, cursor: Point, dpi: u32)
    ensures
        ({
            let p = left_down_step(Some(m), packed, cursor, dpi).state;
            &&& p is Some
            &&& same_readings(p->0, m)
            &&& p->0.claude == m.claude && p->0.codex == m.codex && p->0.antigravity
                == m.antigravity
        }),
{
}

proof fn lemma_credentials_keep_the_readings(
    m: Model,
    mode: WatchMode,
    previous: Seq<u64>,
    current: Seq<u64>,
)
    ensures
        ({
            let p = credentials_step(Some(m), mode, previous, current).state;
            &&& p is Some
            &&& same_readings(p->0, m)
            &&& p->0.claude == m.claude && p->0.codex == m.codex && p->0.antigravity
                == m.antigravity
        }),
{
}

proof fn lemma_timers_keep_the_state(m: Model, timer: Timer)
    ensures
        timer_step(Some(m), timer).state == Some(m),
{
}

proof fn lemma_commands_keep_the_readings(m: Model, id: u16)
    ensures
        same_readings(commanded(m, id), m),
{
}

/// A poll starts when the poll timer fires unpaused, when a passed reset is
/// polled for, when watched credentials changed, and when the user refreshes or
/// chooses providers; at no other message.
pub proof fn law_polls_start_for_a_reason(m: Model, message: Message, dpi: u32)
    ensures
        step(Some(m), message, dpi).effects.contains(Effect::StartPoll) <==> match message {
            Message::Timer(timer) => (timer == Timer::Poll || timer == Timer::ResetPoll)
                && !m.polling.auth_error_paused,
            Message::CredentialsChecked { mode, previous, current } => previous@ != current@,
            Message::Command(id) => id == IDM_REFRESH || 60 <= id <= 62,
            _ => false,
        },
{
    match message {
        Message::Timer(timer) => {
            lemma_timers_that_poll(m, timer);
        },
        Message::Command(id) => {
            lemma_commands_that_poll(m, id);
        },
        Message::CredentialsChecked { mode, previous, current } => {
            let e = credentials_step(Some(m), mode, previous@, current@).effects;
            if previous@ != current@ {
                assert(e[0] == Effect::StartPoll);
            }
        },
        Message::LeftUp { cursor, taskbars, trays } => {
            let e = left_up_step(Some(m), cursor, taskbars@, trays@, dpi).effects;
            assert(!e.contains(Effect::StartPoll));
        },
        Message::MouseMove { cursor, taskbar } => {
            let e = mouse_move_step(Some(m), cursor, taskbar, dpi).effects;
            assert(!e.contains(Effect::StartPoll));
        },
        Message::LeftDown { packed, cursor } => {
            let e = left_down_step(Some(m), packed, cursor, dpi).effects;
            assert(!e.contains(Effect::StartPoll));
        },
        Message::Tray(action) => {
            lemma_commands_that_poll(m, IDM_TOGGLE_WIDGET);
        },
        Message::UsageUpdated => {
            assert(!usage_effects(Some(m)).contains(Effect::StartPoll));
        },
        Message::DisplayChanged(change) => {
            assert(!display_effects(change).contains(Effect::StartPoll));
        },
        _ => {},
    }
}

proof fn lemma_timers_that_poll(m: Model, timer: Timer)
    ensures
        timer_step(Some(m), timer).effects.contains(Effect::StartPoll) <==> (timer == Timer::Poll
            || timer == Timer::ResetPoll) && !m.polling.auth_error_paused,
{
    if (timer == Timer::Poll || timer == Timer::ResetPoll) && !m.polling.auth_error_paused {
        assert(timer_step(Some(m), timer).effects[0] == Effect::StartPoll);
    }
}

proof fn lemma_commands_that_poll(m: Model, id: u16)
    ensures
        command_effects(Some(m), id).contains(Effect::StartPoll) <==> id == IDM_REFRESH || 60
            <= id <= 62,
{
    let e = command_effects(Some(m), id);
    if id == IDM_REFRESH {
        assert(e[1] == Effect::StartPoll);
    }
    if 60 <= id <= 62 {
        assert(e[4] == Effect::StartPoll);
    }
}

/// The timers of a shown widget do their own work: countdowns are redrawn,
/// memory is sampled, frames are drawn, updates are looked for, and a floating
/// widget is kept on top.
pub proof fn law_timers_do_their_own_work(m: Model, dpi: u32)
    requires
        m.widget_visible,
    ensures
        step(Some(m), Message::Timer(Timer::Ram), dpi).effects == seq![Effect::SampleRam],
        step(Some(m), Message::Timer(Timer::Anim), dpi).effects == seq![Effect::Render],
        step(Some(m), Message::Timer(Timer::UpdateCheck), dpi).effects == seq![
            Effect::CheckForUpdates { interactive: false },
        ],
        step(Some(m), Message::Timer(Timer::Countdown), dpi).effects == seq![
            Effect::UpdateDisplay,
            Effect::Render,
            Effect::ScheduleCountdown,
        ],
        !m.embedded ==> step(Some(m), Message::Timer(Timer::Topmost), dpi).effects == seq![
            Effect::ReassertTopmost,
        ],
        m.embedded ==> step(Some(m), Message::Timer(Timer::Topmost), dpi).effects.len() == 0,
        !m.embedded ==> step(Some(m), Message::ForegroundChanged, dpi).effects == seq![
            Effect::ReassertTopmost,
        ],
        m.embedded ==> step(Some(m), Message::ForegroundChanged, dpi).effects.len() == 0,
        !m.attached ==> step(Some(m), Message::Timer(Timer::TaskbarRetry), dpi).effects == seq![
            Effect::RetryAttach { index: m.taskbar_index, embed: m.embed_in_taskbar },
        ],
        m.attached ==> step(Some(m), Message::Timer(Timer::TaskbarRetry), dpi).effects.contains(
            Effect::KillTimer(Timer::TaskbarRetry),
        ),
{
    if m.attached {
        assert(step(Some(m), Message::Timer(Timer::TaskbarRetry), dpi).effects[0]
            == Effect::KillTimer(Timer::TaskbarRetry));
    }
}

/// A timer, and a change of the display, the theme or the foreground window,
/// leave the state as it is.
pub proof fn law_timers_leave_the_state_alone(m: Option<Model>, message: Message, dpi: u32)
    requires
        message is Timer || message is DisplayChanged || message is ForegroundChanged || message
            is Paint || message is UsageUpdated || message is SetCursor || message
            is UpdateCheckComplete || message is TaskbarFound || message is EraseBackground
            || message is RightUp || message is Destroy,
    ensures
        step(m, message, dpi).state == m,
{
}

/// Every change of the display places and draws the widget anew; a new DPI is
/// taken over first, and a changed setting has the theme looked at.
pub proof fn law_display_changes_are_followed(m: Option<Model>, parameter: u64, dpi: u32)
    ensures
        ({
            let base = seq![Effect::RefreshDpi, Effect::Reposition, Effect::Render];
            &&& step(m, Message::DisplayChanged(DisplayChange::Display), dpi).effects == base
            &&& step(m, Message::DisplayChanged(DisplayChange::Dpi(parameter)), dpi).effects
                == seq![Effect::SetDpi((parameter % 0x10000) as u32)] + base
            &&& step(m, Message::DisplayChanged(DisplayChange::Setting), dpi).effects == seq![
                Effect::CheckTheme,
            ] + base
        }),
{
    let base = seq![Effect::RefreshDpi, Effect::Reposition, Effect::Render];
    assert(step(m, Message::DisplayChanged(DisplayChange::Display), dpi).effects =~= base);
}

/// New readings are drawn, counted down and shown in the tray, whose movements
/// are ignored for a while; only a successful poll restarts the freshness
/// hairline.
pub proof fn law_new_readings_are_shown(m: Model, dpi: u32)
    ensures
        ({
            let e = step(Some(m), Message::UsageUpdated, dpi).effects;
            &&& e.contains(Effect::MarkPoll) <==> m.polling.last_ok
            &&& e.contains(Effect::Render)
            &&& e.contains(Effect::ScheduleCountdown)
            &&& e.contains(Effect::SyncTrayIcons)
            &&& e.contains(Effect::SuppressTrayReposition { ms: 750 })
        }),
{
    let e = step(Some(m), Message::UsageUpdated, dpi).effects;
    let n = e.len() as int;
    assert(e[n - 1] == Effect::SyncTrayIcons);
    assert(e[n - 2] == (Effect::SuppressTrayReposition { ms: 750 }));
    assert(e[n - 3] == Effect::ScheduleCountdown);
    assert(e[n - 4] == Effect::Render);
    if m.polling.last_ok {
        assert(e[0] == Effect::MarkPoll);
    }
}

/// An embedded widget leaves painting to its composition, a floating one paints
/// itself; the background is never erased by itself.
pub proof fn law_who_paints(m: Model, dpi: u32)
    ensures
        m.embedded ==> step(Some(m), Message::Paint, dpi).effects == seq![Effect::ValidatePaint],
        !m.embedded ==> step(Some(m), Message::Paint, dpi).effects == seq![Effect::PaintWindow],
        step(Some(m), Message::EraseBackground, dpi).reply == Reply::Done(1),
        step(Some(m), Message::RightUp, dpi).effects == seq![Effect::ShowContextMenu],
        step(Some(m), Message::Tray(TrayAction::ShowContextMenu), dpi).effects == seq![
            Effect::ShowContextMenu,
        ],
        step(Some(m), Message::Tray(TrayAction::Nothing), dpi).effects.len() == 0,
        step(Some(m), Message::Destroy, dpi).effects.last() == Effect::Quit,
{
}

/// The cursor tells what can be dragged: all of a floating widget, in every
/// direction; of an embedded one the handle, along the taskbar.
pub proof fn law_cursors_tell_what_can_be_dragged(
    m: Model,
    in_client: bool,
    on_handle: bool,
    dpi: u32,
)
    ensures
        ({
            let r = step(Some(m), Message::SetCursor { in_client, on_handle }, dpi);
            &&& !m.embedded && in_client ==> r.effects == seq![
                Effect::SetCursor(Cursor::SizeAll),
            ] && r.reply == Reply::Done(1)
            &&& m.embedded && (on_handle || m.dragging) ==> r.effects == seq![
                Effect::SetCursor(Cursor::SizeWestEast),
            ] && r.reply == Reply::Done(1)
            &&& m.embedded && !on_handle && !m.dragging ==> r.effects.len() == 0 && r.reply
                == Reply::PassOn
        }),
{
}

/// A floating widget is dragged by its caption from anywhere on it, and leaves
/// the moving to the window system.
pub proof fn law_floating_widgets_are_dragged_from_anywhere(
    m: Model,
    packed: u32,
    cursor: Point,
    taskbar: Option<Taskbar>,
    dpi: u32,
)
    requires
        !m.embedded,
    ensures
        ({
            let r = step(Some(m), Message::LeftDown { packed, cursor }, dpi);
            &&& r.state == Some(m)
            &&& r.effects == seq![
                Effect::ReleaseCapture,
                Effect::DragByCaption(packed_point(cursor) as u32),
            ]
        }),
        step(Some(m), Message::MouseMove { cursor, taskbar }, dpi).state == Some(m),
        step(Some(m), Message::MouseMove { cursor, taskbar }, dpi).reply == Reply::PassOn,
{
}

/// A press on the handle of an embedded widget starts a drag from its present
/// offset; a press elsewhere does not.
pub proof fn law_drags_start_on_the_handle(m: Model, packed: u32, cursor: Point, dpi: u32)
    requires
        m.embedded,
    ensures
        ({
            let at = Point {
                x: signed_word(packed as int) as i32,
                y: signed_word(packed as int / 0x10000) as i32,
            };
            let r = step(Some(m), Message::LeftDown { packed, cursor }, dpi);
            let p = r.state->0;
            let hit = handle_contains(at.x as int, at.y as int, dpi);
            &&& r.state is Some
            &&& hit ==> p.dragging && p.drag_start_mouse_x == cursor.x && p.drag_start_client_x
                == at.x && p.drag_start_offset == m.tray_offset && r.effects == seq![
                Effect::SetCapture,
            ]
            &&& !hit ==> p == m && r.effects.len() == 0
            &&& p.tray_offset == m.tray_offset
        }),
{
}

/// While it is dragged, an embedded widget follows the cursor: a move to the
/// left by some pixels makes the offset larger by as many, up to the ends of
/// its way, and the widget is moved to where that offset puts it.
pub proof fn law_drags_follow_the_cursor(m: Model, cursor: Point, t: Taskbar, dpi: u32)
    requires
        m.embedded,
        m.dragging,
        dpi <= MAX_DPI,
        move_fits(Some(m), cursor, Some(t), dpi),
    ensures
        ({
            let r = step(Some(m), Message::MouseMove { cursor, taskbar: Some(t) }, dpi);
            let p = r.state->0;
            let edge = match t.tray {
                Some(tray) => tray.left as int,
                None => t.rect.right as int,
            };
            let width = widget_width(cards_of(m), dpi);
            let wanted = m.drag_start_offset + (m.drag_start_mouse_x - cursor.x);
            let room = larger(edge - t.rect.left - width, 0);
            &&& r.state is Some
            &&& 0 <= p.tray_offset <= room
            &&& 0 <= wanted <= room ==> p.tray_offset == wanted
            &&& wanted < 0 ==> p.tray_offset == 0
            &&& wanted > room ==> p.tray_offset == room
            &&& (Model { tray_offset: m.tray_offset, ..p }) == m
            &&& r.effects.len() == 1
            &&& r.effects[0] matches Effect::MoveWindow(w) && {
                &&& w.x == edge - t.rect.left - width - p.tray_offset
                &&& w.width == width && w.height == scaled(62, dpi)
            }
        }),
{
    crate::geometry::lemma_widths_fit(cards_of(m), dpi);
}

/// Letting go ends the drag and saves it. On another taskbar the widget moves
/// there, its grabbed spot under the cursor where there is room; on its own it
/// stays.
pub proof fn law_drops_end_the_drag(
    m: Model,
    cursor: Point,
    taskbars: Vec<Rect>,
    trays: Vec<Option<Rect>>,
    dpi: u32,
    i: int,
)
    requires
        m.embedded,
        m.dragging,
        drop_fits(Some(m), cursor, taskbars@, trays@, dpi),
        taskbars@.len() <= usize::MAX,
    ensures
        ({
            let r = step(Some(m), Message::LeftUp { cursor, taskbars, trays }, dpi);
            let p = r.state->0;
            let first = 0 <= i < taskbars@.len() && taskbars@[i].contains(cursor) && forall|j: int|
                0 <= j < i ==> !(#[trigger] taskbars@[j].contains(cursor));
            &&& r.state is Some
            &&& !p.dragging
            &&& r.effects.contains(Effect::ReleaseCapture)
            &&& r.effects.contains(Effect::SaveSettings)
            &&& first && i != m.taskbar_index ==> r.effects.contains(
                Effect::Reattach { index: i as usize, embed: m.embed_in_taskbar },
            )
            &&& first && i == m.taskbar_index ==> p.tray_offset == m.tray_offset
            &&& first && i != m.taskbar_index ==> {
                let edge = match trays@[i] {
                    Some(tray) => tray.left as int,
                    None => taskbars@[i].right as int,
                };
                let width = widget_width(cards_of(m), dpi);
                let room = larger(edge - taskbars@[i].left - width, 0);
                let wanted = edge - width - (cursor.x - m.drag_start_client_x);
                &&& 0 <= p.tray_offset <= room
                &&& 0 <= wanted <= room ==> p.tray_offset == wanted
            }
        }),
{
    let r = step(Some(m), Message::LeftUp { cursor, taskbars, trays }, dpi);
    let first = 0 <= i < taskbars@.len() && taskbars@[i].contains(cursor) && forall|j: int|
        0 <= j < i ==> !(#[trigger] taskbars@[j].contains(cursor));
    if first {
        lemma_first_taskbar(cursor, taskbars@, 0, i);
        assert(fits(tray_edge(taskbars@[i], trays@[i]) - taskbars@[i].left));
    }
    lemma_under_is_within(cursor, taskbars@, 0);
    assert(r.effects[0] == Effect::ReleaseCapture);
    assert(r.effects.last() == Effect::SaveSettings);
    if first && i != m.taskbar_index {
        assert(r.effects[1] is Reattach);
    }
}

proof fn lemma_first_taskbar(at: Point, taskbars: Seq<Rect>, from: int, i: int)
    requires
        0 <= from <= i < taskbars.len(),
        taskbars[i].contains(at),
        forall|j: int| from <= j < i ==> !(#[trigger] taskbars[j].contains(at)),
    ensures
        taskbar_under(at, taskbars, from) == Some(i),
    decreases i - from,
{
    if from < i {
        lemma_first_taskbar(at, taskbars, from + 1, i);
    }
}

proof fn lemma_under_is_within(at: Point, taskbars: Seq<Rect>, from: int)
    requires
        0 <= from <= taskbars.len(),
    ensures
        taskbar_under(at, taskbars, from) is Some ==> 0 <= taskbar_under(
            at,
            taskbars,
            from,
        )->0 < taskbars.len(),
    decreases taskbars.len() - from,
{
    if from < taskbars.len() {
        lemma_under_is_within(at, taskbars, from + 1);
    }
}

/// Moving a floating widget's window marks it as dragged until it is dropped;
/// the place it is dropped at is remembered and saved, and the widget is drawn
/// there.
pub proof fn law_moves_end_where_they_are_dropped(m: Model, rect: Option<Rect>, dpi: u32)
    ensures
        ({
            let a = step(Some(m), Message::EnterSizeMove, dpi);
            &&& a.state is Some && a.state->0.dragging
            &&& (Model { dragging: m.dragging, ..a.state->0 }) == m
            &&& a.effects.len() == 0
        }),
        ({
            let b = step(Some(m), Message::ExitSizeMove { rect }, dpi);
            let p = b.state->0;
            &&& b.state is Some
            &&& !p.dragging
            &&& !m.embedded && rect is Some ==> p.floating_position == Some(
                (rect->0.left, rect->0.top),
            )
            &&& m.embedded || rect is None ==> p.floating_position == m.floating_position
            &&& b.effects.contains(Effect::SaveSettings)
            &&& b.effects.contains(Effect::Reposition)
            &&& b.effects.contains(Effect::Render)
        }),
{
    let b = step(Some(m), Message::ExitSizeMove { rect }, dpi);
    assert(b.effects[0] == Effect::Reposition);
    assert(b.effects[1] == Effect::SaveSettings);
    assert(b.effects[2] == Effect::Render);
}

/// Credentials that changed are polled with at once; their fingerprints are
/// remembered while polling is paused on them.
pub proof fn law_changed_credentials_are_tried(
    m: Model,
    mode: WatchMode,
    previous: Vec<u64>,
    current: Vec<u64>,
    dpi: u32,
)
    ensures
        ({
            let r = step(
                Some(m),
                Message::CredentialsChecked { mode, previous, current },
                dpi,
            );
            let p = r.state->0;
            &&& r.state is Some
            &&& previous@ == current@ ==> p == m && r.effects.len() == 0
            &&& previous@ != current@ ==> r.effects == seq![Effect::StartPoll]
            &&& previous@ != current@ && m.polling.auth_error_paused && m.polling.watch_mode
                == mode ==> p.polling.watch_snapshot == current@
            &&& !(m.polling.auth_error_paused && m.polling.watch_mode == mode) ==> p == m
            &&& p.polling.auth_error_paused == m.polling.auth_error_paused
        }),
        m.polling.auth_error_paused ==> step(Some(m), Message::Timer(Timer::Poll), dpi).watch
            == Some((m.polling.watch_mode, m.polling.watch_snapshot)),
        !m.polling.auth_error_paused ==> step(Some(m), Message::Timer(Timer::Poll), dpi).watch
            is None,
{
}

} // verus!
