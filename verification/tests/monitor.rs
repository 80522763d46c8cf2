use stealthy_usage_monitor::effects::{Cursor, Effect, Timer};
use stealthy_usage_monitor::geometry::{Placement, Point, Rect};
use stealthy_usage_monitor::measure::Binary64;
use stealthy_usage_monitor::models::{AppUsageData, Moment, UsageData, UsageSection};
use stealthy_usage_monitor::polling::{
    auth_watch, do_poll, fable_readout, poll_choices, reset_or_dash, retry_delay,
    schedule_countdown_timer, Countdowns, DisplayChanges, PollError, PollOutcome,
};
use stealthy_usage_monitor::readout::{figure, reset_label};
use stealthy_usage_monitor::settings::SettingsFile;
use stealthy_usage_monitor::state::{
    position_at_taskbar, AppState, InstallChannel, Positioning, Provider, State, UpdateStatus,
    WatchMode,
};
use stealthy_usage_monitor::updates::{
    auto_update_check_due, begin_update_apply, begin_update_check, schedule_auto_update_check,
    update_accepted, update_applied, update_checked, winget_started, UpdateCheck,
};
use stealthy_usage_monitor::window::{
    wnd_proc, DisplayChange, Message, Reply, Taskbar, TrayAction, IDM_APPEARANCE, IDM_EXIT,
    IDM_FREQ_1HOUR, IDM_FREQ_1MIN, IDM_MODEL_ANTIGRAVITY, IDM_MODEL_CLAUDE_CODE, IDM_MODEL_CODEX,
    IDM_REFRESH, IDM_RESET_POSITION, IDM_START_WITH_WINDOWS, IDM_TOGGLE_WIDGET,
    IDM_VERSION_ACTION,
};

fn number(value: f64) -> Binary64 {
    Binary64 { bits: value.to_bits() }
}

fn fresh() -> Option<State> {
    Some(AppState::start(SettingsFile::default(), false, InstallChannel::Portable))
}

fn embedded() -> Option<State> {
    let settings = SettingsFile { embed_in_taskbar: true, ..SettingsFile::default() };
    let mut state = AppState::start(settings, false, InstallChannel::Portable);
    state.attach(0, true);
    Some(state)
}

fn send(state: &mut Option<State>, message: Message) -> (Reply, Vec<Effect>) {
    let response = wnd_proc(state, message, 96);
    assert!(response.watch.is_none());
    (response.reply, response.effects)
}

fn usage(session: f64, weekly: f64) -> UsageData {
    let section = |percentage: f64| UsageSection {
        available: true,
        percentage: number(percentage),
        ..UsageSection::default()
    };
    UsageData { session: section(session), weekly: section(weekly), fable: section(11.0) }
}

fn countdowns() -> Countdowns<String> {
    Countdowns {
        claude_session: "3h".to_string(),
        claude_weekly: "4d".to_string(),
        codex_session: "1h".to_string(),
        codex_weekly: String::new(),
        antigravity_session: "2h".to_string(),
        antigravity_weekly: "6d".to_string(),
        fable: "5d".to_string(),
    }
}

fn ready(data: AppUsageData) -> PollOutcome {
    PollOutcome::Ready { data, past_reset: false, texts: countdowns() }
}

#[test]
fn a_poll_fills_the_cards() {
    let mut state = fresh();
    let data = AppUsageData {
        claude_code: Some(usage(32.0, 58.0)),
        codex: Some(usage(76.0, 91.0)),
        antigravity: None,
    };
    let effects = do_poll(&mut state, ready(data));
    assert_eq!(effects, vec![Effect::KillTimer(Timer::ResetPoll), Effect::PostUsageUpdated]);
    let s = state.as_ref().unwrap();
    assert!(s.polling.last_ok);
    assert_eq!(s.claude.session.percent, number(32.0));
    assert_eq!(s.claude.weekly.text, "4d");
    assert_eq!(s.codex.weekly.percent, number(91.0));
    assert_eq!(s.codex.weekly.text, "--");
    // A hidden provider keeps what it had.
    assert_eq!(s.antigravity.session.text, "...");
    assert_eq!(s.data, Some(data));
    let fable = fable_readout(&state, "5d");
    assert_eq!((fable.percent, fable.text.as_str()), (number(11.0), "5d"));
}

#[test]
fn a_provider_that_did_not_answer_is_offline() {
    let mut state = fresh();
    let data = AppUsageData { codex: Some(usage(1.0, 2.0)), ..AppUsageData::default() };
    do_poll(&mut state, ready(data));
    let s = state.as_ref().unwrap();
    assert_eq!(s.claude.session.text, "!");
    assert_eq!(s.claude.weekly.text, "!");
    assert_eq!(s.claude.session.percent, number(0.0));
    assert_eq!(fable_readout(&state, "").text, "!");
}

#[test]
fn an_unused_extra_quota_reads_as_unknown() {
    let mut state = fresh();
    let data = AppUsageData { antigravity: Some(usage(5.0, 0.0)), ..AppUsageData::default() };
    do_poll(&mut state, ready(data));
    assert_eq!(state.as_ref().unwrap().antigravity.weekly.text, "--");
    let data = AppUsageData { antigravity: Some(usage(5.0, 1.0)), ..AppUsageData::default() };
    do_poll(&mut state, ready(data));
    assert_eq!(state.as_ref().unwrap().antigravity.weekly.text, "6d");
}

#[test]
fn an_unreported_extra_quota_is_no_unused_allowance() {
    let mut state = fresh();
    let reported = usage(5.0, 0.0);
    let missing = UsageData { weekly: UsageSection::default(), ..reported };
    let data = AppUsageData { antigravity: Some(missing), ..AppUsageData::default() };
    do_poll(&mut state, ready(data));
    let row = &state.as_ref().unwrap().antigravity.weekly;
    assert_eq!(row.text, "n/a");
    assert_eq!(figure(row.percent, &row.text), "—");
    assert_eq!(reset_label(&row.text), "Not reported");
    // So does one that holds a stale figure.
    let weekly = UsageSection { available: false, ..usage(5.0, 40.0).weekly };
    let data = AppUsageData { antigravity: Some(UsageData { weekly, ..reported }), ..data };
    do_poll(&mut state, ready(data));
    assert_eq!(state.as_ref().unwrap().antigravity.weekly.text, "n/a");
}

#[test]
fn failures_back_off_and_recover() {
    let mut state = fresh();
    for (attempt, wait) in [(1u32, 30_000u32), (2, 60_000), (3, 120_000), (4, 240_000)] {
        let effects = do_poll(&mut state, PollOutcome::Failed { watch: None });
        assert_eq!(
            effects,
            vec![
                Effect::KillTimer(Timer::ResetPoll),
                Effect::SetTimer { timer: Timer::Poll, ms: wait },
                Effect::PostUsageUpdated,
            ]
        );
        let s = state.as_ref().unwrap();
        assert_eq!(s.polling.retry_count, attempt);
        assert_eq!(s.codex.weekly.text, "...");
        assert!(!s.polling.last_ok && !s.polling.auth_error_paused);
    }
    assert_eq!(fable_readout(&state, "5d").text, "...");
    let effects = do_poll(&mut state, ready(AppUsageData::default()));
    assert_eq!(
        effects,
        vec![
            Effect::KillTimer(Timer::ResetPoll),
            Effect::SetTimer { timer: Timer::Poll, ms: 900_000 },
            Effect::PostUsageUpdated,
        ]
    );
    assert_eq!(state.as_ref().unwrap().polling.retry_count, 0);
}

#[test]
fn retries_never_wait_longer_than_the_interval() {
    assert_eq!(retry_delay(1, 900_000), 30_000);
    assert_eq!(retry_delay(5, 900_000), 480_000);
    assert_eq!(retry_delay(6, 900_000), 900_000);
    assert_eq!(retry_delay(18, u32::MAX), 3_932_160_000);
    assert_eq!(retry_delay(19, u32::MAX), u32::MAX);
    assert_eq!(retry_delay(33, 60_000), 60_000);
    assert_eq!(retry_delay(u32::MAX, 60_000), 60_000);
}

#[test]
fn an_expired_sign_in_pauses_polling_and_notifies_once() {
    let mut state = fresh();
    let failed = || PollOutcome::Failed { watch: Some((WatchMode::ActiveSource, vec![7])) };
    let effects = do_poll(&mut state, failed());
    assert_eq!(
        effects,
        vec![
            Effect::KillTimer(Timer::Poll),
            Effect::KillTimer(Timer::ResetPoll),
            Effect::KillTimer(Timer::Countdown),
            Effect::SetTimer { timer: Timer::Poll, ms: 900_000 },
            Effect::NotifySignIn(Provider::Claude),
            Effect::PostUsageUpdated,
        ]
    );
    assert_eq!(state.as_ref().unwrap().claude.session.text, "!");
    assert_eq!(fable_readout(&state, "5d").text, "!");
    let again = do_poll(&mut state, failed());
    assert!(!again.contains(&Effect::NotifySignIn(Provider::Claude)));
    send(&mut state, Message::Command(IDM_REFRESH));
    let forced = do_poll(&mut state, failed());
    assert!(forced.contains(&Effect::NotifySignIn(Provider::Claude)));
}

#[test]
fn paused_polling_resumes_when_credentials_change() {
    let mut state = fresh();
    do_poll(&mut state, PollOutcome::Failed { watch: Some((WatchMode::AllSources, vec![7])) });
    let asked = wnd_proc(&mut state, Message::Timer(Timer::Poll), 96);
    assert_eq!(asked.effects, vec![]);
    assert_eq!(asked.watch, Some((WatchMode::AllSources, vec![7])));
    let checked = |current: u64| Message::CredentialsChecked {
        mode: WatchMode::AllSources,
        previous: vec![7],
        current: vec![current],
    };
    assert_eq!(send(&mut state, checked(7)).1, vec![]);
    assert_eq!(send(&mut state, checked(8)).1, vec![Effect::StartPoll]);
    assert_eq!(state.as_ref().unwrap().polling.watch_snapshot, vec![8]);
    assert_eq!(send(&mut state, Message::Timer(Timer::ResetPoll)).1, vec![]);
}

#[test]
fn the_credentials_to_watch_follow_the_providers() {
    let expired = PollError::TokenExpired;
    assert_eq!(auth_watch(expired, false, true, false), Some(WatchMode::Codex));
    assert_eq!(auth_watch(expired, false, false, true), Some(WatchMode::Antigravity));
    assert_eq!(auth_watch(expired, true, true, false), Some(WatchMode::ActiveSource));
    assert_eq!(
        auth_watch(PollError::AuthRequired, true, false, false),
        Some(WatchMode::ActiveSource)
    );
    assert_eq!(
        auth_watch(PollError::NoCredentials, true, false, false),
        Some(WatchMode::AllSources)
    );
    assert_eq!(
        auth_watch(PollError::NoCredentials, false, false, true),
        Some(WatchMode::AllSources)
    );
    assert_eq!(auth_watch(PollError::NoCredentials, false, true, false), Some(WatchMode::Codex));
    assert_eq!(auth_watch(PollError::RequestFailed, false, true, false), None);
}

#[test]
fn polls_ask_the_shown_providers() {
    assert_eq!(poll_choices(&None), (true, false, false));
    assert_eq!(poll_choices(&fresh()), (true, true, false));
    assert_eq!(reset_or_dash(""), "--");
    assert_eq!(reset_or_dash("2h"), "2h");
}

#[test]
fn the_countdown_timer_follows_the_next_change() {
    let mut state = fresh();
    let none = DisplayChanges {
        claude_session: None,
        claude_weekly: None,
        fable: None,
        codex_session: None,
        codex_weekly: None,
        antigravity_session: None,
        antigravity_weekly: None,
    };
    let now = Moment { nanos: 0 };
    assert_eq!(
        schedule_countdown_timer(&state, false, none, now),
        vec![Effect::KillTimer(Timer::Countdown), Effect::KillTimer(Timer::ResetPoll)]
    );
    let data = AppUsageData { codex: Some(usage(1.0, 2.0)), ..AppUsageData::default() };
    do_poll(&mut state, ready(data));
    assert_eq!(
        schedule_countdown_timer(&state, true, none, now),
        vec![
            Effect::SetTimer { timer: Timer::ResetPoll, ms: 5_000 },
            Effect::SetTimer { timer: Timer::Countdown, ms: 60_000 },
        ]
    );
    let soon = DisplayChanges {
        codex_session: Some(90_000_000_000),
        codex_weekly: Some(7_500_000_000),
        ..none
    };
    assert_eq!(
        schedule_countdown_timer(&state, false, soon, now),
        vec![Effect::SetTimer { timer: Timer::Countdown, ms: 7_500 }]
    );
    let now_due = DisplayChanges { codex_weekly: Some(3), ..none };
    assert_eq!(
        schedule_countdown_timer(&state, false, now_due, now),
        vec![Effect::SetTimer { timer: Timer::Countdown, ms: 1_000 }]
    );
}

#[test]
fn a_live_pace_marker_ticks_every_minute() {
    let mut state = fresh();
    let mut live = usage(1.0, 2.0);
    live.weekly.resets_at = Some(Moment { nanos: 500_000_000_000_000 });
    do_poll(&mut state, ready(AppUsageData { claude_code: Some(live), ..Default::default() }));
    let hours = DisplayChanges {
        claude_session: None,
        claude_weekly: Some(7_200_000_000_000),
        fable: None,
        codex_session: None,
        codex_weekly: None,
        antigravity_session: None,
        antigravity_weekly: None,
    };
    let at = |nanos: i128| Moment { nanos };
    assert_eq!(
        schedule_countdown_timer(&state, false, hours, at(0)),
        vec![Effect::SetTimer { timer: Timer::Countdown, ms: 60_000 }]
    );
    assert_eq!(
        schedule_countdown_timer(&state, false, hours, at(500_000_000_000_001)),
        vec![Effect::SetTimer { timer: Timer::Countdown, ms: 7_200_000 }]
    );
}

#[test]
fn provider_entries_toggle_but_one_stays() {
    let mut state = fresh();
    let (reply, effects) = send(&mut state, Message::Command(IDM_MODEL_CLAUDE_CODE));
    assert_eq!(reply, Reply::Done(0));
    assert_eq!(
        effects,
        vec![
            Effect::SaveSettings,
            Effect::Reposition,
            Effect::Render,
            Effect::SyncTrayIcons,
            Effect::StartPoll,
        ]
    );
    assert!(!state.as_ref().unwrap().claude.shown);
    assert_eq!(state.as_ref().unwrap().antigravity.session.text, "...");
    send(&mut state, Message::Command(IDM_MODEL_CODEX));
    assert!(state.as_ref().unwrap().codex.shown);
    send(&mut state, Message::Command(IDM_MODEL_ANTIGRAVITY));
    send(&mut state, Message::Command(IDM_MODEL_CODEX));
    let s = state.as_ref().unwrap();
    assert!(!s.claude.shown && !s.codex.shown && s.antigravity.shown);
}

#[test]
fn refreshing_waits_for_new_readings() {
    let mut state = fresh();
    let (_, effects) = send(&mut state, Message::Command(IDM_REFRESH));
    assert_eq!(effects, vec![Effect::Render, Effect::StartPoll]);
    let s = state.as_ref().unwrap();
    assert_eq!(s.claude.session.text, "...");
    assert_eq!(s.codex.weekly.text, "...");
    assert_eq!(s.antigravity.weekly.text, "...");
    assert!(s.polling.force_notify_auth_error);
}

#[test]
fn frequencies_restart_the_poll_timer() {
    let mut state = fresh();
    let (_, effects) = send(&mut state, Message::Command(IDM_FREQ_1HOUR));
    assert_eq!(
        effects,
        vec![Effect::SaveSettings, Effect::SetTimer { timer: Timer::Poll, ms: 3_600_000 }]
    );
    send(&mut state, Message::Command(IDM_FREQ_1MIN));
    assert_eq!(state.as_ref().unwrap().polling.interval_ms, 60_000);
}

#[test]
fn other_entries_ask_for_what_they_say() {
    let mut state = fresh();
    assert_eq!(send(&mut state, Message::Command(IDM_APPEARANCE)).1, vec![Effect::OpenAppearance]);
    assert_eq!(
        send(&mut state, Message::Command(IDM_START_WITH_WINDOWS)).1,
        vec![Effect::ToggleStartup]
    );
    assert_eq!(
        send(&mut state, Message::Command(IDM_EXIT)).1,
        vec![Effect::UnhookTray, Effect::Quit]
    );
    assert_eq!(send(&mut state, Message::Command(9_999)).1, vec![]);
    assert_eq!(
        send(&mut state, Message::Command(IDM_VERSION_ACTION)).1,
        vec![Effect::CheckForUpdates { interactive: true }]
    );
    state.as_mut().unwrap().update_status = UpdateStatus::Available("2.0".to_string());
    assert_eq!(
        send(&mut state, Message::Command(IDM_VERSION_ACTION)).1,
        vec![Effect::ApplyUpdate]
    );
    state.as_mut().unwrap().install_channel = InstallChannel::Winget;
    assert_eq!(
        send(&mut state, Message::Command(IDM_VERSION_ACTION)).1,
        vec![Effect::UpdateThroughWinget]
    );
}

#[test]
fn toggling_hides_and_shows_the_widget() {
    let mut state = fresh();
    let (_, effects) = send(&mut state, Message::Command(IDM_TOGGLE_WIDGET));
    assert_eq!(
        effects,
        vec![Effect::SaveSettings, Effect::HideWindow, Effect::KillTimer(Timer::Anim)]
    );
    assert_eq!(send(&mut state, Message::Timer(Timer::Anim)).1, vec![]);
    assert_eq!(send(&mut state, Message::Timer(Timer::Ram)).1, vec![]);
    let (_, effects) = send(&mut state, Message::Tray(TrayAction::ToggleWidget));
    assert_eq!(
        effects,
        vec![
            Effect::SaveSettings,
            Effect::Reposition,
            Effect::ShowWindow,
            Effect::Render,
            Effect::SetTimer { timer: Timer::Anim, ms: 100 },
        ]
    );
    assert_eq!(send(&mut state, Message::Timer(Timer::Anim)).1, vec![Effect::Render]);
    assert_eq!(send(&mut state, Message::Timer(Timer::Ram)).1, vec![Effect::SampleRam]);
}

#[test]
fn a_floating_widget_is_dragged_anywhere_and_remembers() {
    let mut state = fresh();
    let cursor = Point { x: -700, y: 240 };
    let (_, effects) = send(&mut state, Message::LeftDown { packed: 0x0010_0064, cursor });
    assert_eq!(effects, vec![Effect::ReleaseCapture, Effect::DragByCaption(0x00f0_fd44)]);
    send(&mut state, Message::EnterSizeMove);
    assert_eq!(position_at_taskbar(&state), Positioning::Nothing);
    let rect = Rect { left: -800, top: 240, right: -416, bottom: 302 };
    let (_, effects) = send(&mut state, Message::ExitSizeMove { rect: Some(rect) });
    assert_eq!(effects, vec![Effect::Reposition, Effect::SaveSettings, Effect::Render]);
    assert_eq!(state.as_ref().unwrap().floating_position, Some((-800, 240)));
    assert_eq!(position_at_taskbar(&state), Positioning::Floating);
    let (_, effects) = send(&mut state, Message::Command(IDM_RESET_POSITION));
    assert_eq!(effects, vec![Effect::SaveSettings, Effect::Reposition]);
    assert_eq!(state.as_ref().unwrap().floating_position, None);
}

#[test]
fn floating_placement_is_saved_when_it_moves() {
    let mut state = fresh().unwrap();
    let work = Rect { left: 0, top: 0, right: 1920, bottom: 1040 };
    let (placement, changed) = state.place_floating(work, 96);
    assert_eq!(placement, Placement { x: 1520, y: 16, width: 384, height: 62 });
    assert!(changed);
    assert!(!state.place_floating(work, 96).1);
    let smaller = Rect { left: 0, top: 0, right: 1000, bottom: 700 };
    let (placement, changed) = state.place_floating(smaller, 96);
    assert_eq!((placement.x, placement.y, changed), (616, 16, true));
}

#[test]
fn an_embedded_widget_is_dragged_along_the_taskbar() {
    let mut state = embedded();
    let bar = Rect { left: 0, top: 1040, right: 1920, bottom: 1080 };
    let tray = Some(Rect { left: 1700, top: 1040, right: 1920, bottom: 1080 });
    let start = Point { x: 1400, y: 1050 };
    // Outside the handle nothing starts.
    assert_eq!(send(&mut state, Message::LeftDown { packed: 30 << 16 | 9, cursor: start }).1, []);
    let (_, effects) = send(&mut state, Message::LeftDown { packed: 30 << 16 | 1, cursor: start });
    assert_eq!(effects, vec![Effect::SetCapture]);
    assert!(state.as_ref().unwrap().dragging);
    let moved = Message::MouseMove {
        cursor: Point { x: 1300, y: 1050 },
        taskbar: Some(Taskbar { rect: bar, tray }),
    };
    let (_, effects) = send(&mut state, moved);
    assert_eq!(
        effects,
        vec![Effect::MoveWindow(Placement { x: 1216, y: 0, width: 384, height: 62 })]
    );
    assert_eq!(state.as_ref().unwrap().tray_offset, 100);
    let up = Message::LeftUp {
        cursor: Point { x: 1300, y: 1050 },
        taskbars: vec![bar],
        trays: vec![tray],
    };
    let (_, effects) = send(&mut state, up);
    assert_eq!(effects, vec![Effect::ReleaseCapture, Effect::SaveSettings]);
    assert!(!state.as_ref().unwrap().dragging);
}

#[test]
fn dropping_on_another_taskbar_moves_over() {
    let mut state = embedded();
    let bars = vec![
        Rect { left: 0, top: 1040, right: 1920, bottom: 1080 },
        Rect { left: 1920, top: 1040, right: 3840, bottom: 1080 },
    ];
    send(
        &mut state,
        Message::LeftDown { packed: 30 << 16 | 1, cursor: Point { x: 1400, y: 1050 } },
    );
    let up = Message::LeftUp {
        cursor: Point { x: 3000, y: 1050 },
        taskbars: bars,
        trays: vec![None, None],
    };
    let (_, effects) = send(&mut state, up);
    assert_eq!(
        effects,
        vec![
            Effect::ReleaseCapture,
            Effect::Reattach { index: 1, embed: true },
            Effect::SaveSettings,
        ]
    );
    // 1920 wide, less 384 for the widget, less 1079 to its left edge.
    assert_eq!(state.as_ref().unwrap().tray_offset, 457);
}

#[test]
fn cursors_tell_what_can_be_dragged() {
    let mut state = fresh();
    let cursor = |in_client: bool, on_handle: bool| Message::SetCursor { in_client, on_handle };
    assert_eq!(
        send(&mut state, cursor(true, false)),
        (Reply::Done(1), vec![Effect::SetCursor(Cursor::SizeAll)])
    );
    assert_eq!(send(&mut state, cursor(false, false)).0, Reply::PassOn);
    let mut state = embedded();
    assert_eq!(
        send(&mut state, cursor(true, true)),
        (Reply::Done(1), vec![Effect::SetCursor(Cursor::SizeWestEast)])
    );
    assert_eq!(send(&mut state, cursor(true, false)), (Reply::PassOn, vec![]));
}

#[test]
fn painting_and_display_changes() {
    let mut state = embedded();
    assert_eq!(send(&mut state, Message::Paint).1, vec![Effect::ValidatePaint]);
    assert_eq!(send(&mut state, Message::EraseBackground), (Reply::Done(1), vec![]));
    assert_eq!(
        send(&mut state, Message::DisplayChanged(DisplayChange::Dpi(0x0090_0078))).1,
        vec![Effect::SetDpi(0x78), Effect::RefreshDpi, Effect::Reposition, Effect::Render]
    );
    assert_eq!(
        send(&mut state, Message::DisplayChanged(DisplayChange::Setting)).1,
        vec![Effect::CheckTheme, Effect::RefreshDpi, Effect::Reposition, Effect::Render]
    );
    let mut state = fresh();
    assert_eq!(send(&mut state, Message::Paint).1, vec![Effect::PaintWindow]);
    assert_eq!(send(&mut state, Message::ForegroundChanged).1, vec![Effect::ReassertTopmost]);
}

#[test]
fn new_readings_are_shown_everywhere() {
    let mut state = fresh();
    let rest = vec![
        Effect::CheckTheme,
        Effect::Render,
        Effect::ScheduleCountdown,
        Effect::SuppressTrayReposition { ms: 750 },
        Effect::SyncTrayIcons,
    ];
    assert_eq!(send(&mut state, Message::UsageUpdated).1, rest);
    do_poll(&mut state, ready(AppUsageData::default()));
    let (_, effects) = send(&mut state, Message::UsageUpdated);
    assert_eq!(effects[0], Effect::MarkPoll);
    assert_eq!(effects[1..], rest[..]);
}

#[test]
fn a_missing_taskbar_is_looked_for() {
    let mut state = fresh();
    assert_eq!(
        send(&mut state, Message::Timer(Timer::TaskbarRetry)).1,
        vec![Effect::RetryAttach { index: 0, embed: false }]
    );
    assert_eq!(
        send(&mut state, Message::TaskbarFound).1,
        vec![Effect::KillTimer(Timer::TaskbarRetry), Effect::Reposition, Effect::Render]
    );
    let mut state = embedded();
    assert_eq!(
        send(&mut state, Message::Timer(Timer::TaskbarRetry)).1,
        vec![Effect::KillTimer(Timer::TaskbarRetry), Effect::Reposition, Effect::Render]
    );
    assert_eq!(position_at_taskbar(&state), Positioning::Taskbar);
}

#[test]
fn an_embedded_widget_keeps_its_offset_in_range() {
    let mut state = embedded().unwrap();
    state.tray_offset = 5_000;
    let bar = Rect { left: 0, top: 1040, right: 1920, bottom: 1080 };
    let (placement, changed) = state.place_at_taskbar(bar, None, 96);
    assert_eq!(placement, Placement { x: 0, y: 0, width: 384, height: 62 });
    assert!(changed);
    assert_eq!(state.tray_offset, 1_536);
}

#[test]
fn without_a_state_little_happens() {
    let mut state = None;
    assert_eq!(send(&mut state, Message::Timer(Timer::Poll)).1, vec![]);
    assert_eq!(send(&mut state, Message::Command(IDM_TOGGLE_WIDGET)).1, vec![]);
    assert_eq!(position_at_taskbar(&state), Positioning::Nothing);
    assert_eq!(fable_readout(&state, "5d").text, "...");
    assert_eq!(do_poll(&mut state, ready(AppUsageData::default())), vec![Effect::PostUsageUpdated]);
}

#[test]
fn closing_removes_everything() {
    let mut state = fresh();
    assert_eq!(
        send(&mut state, Message::Destroy).1,
        vec![
            Effect::UnhookTray,
            Effect::UnhookForeground,
            Effect::RemoveTrayIcons,
            Effect::Quit,
        ]
    );
}

#[test]
fn update_checks_are_a_day_apart() {
    assert!(auto_update_check_due(None, 0));
    assert!(!auto_update_check_due(Some(1_000), 1_000 + 86_399));
    assert!(auto_update_check_due(Some(1_000), 1_000 + 86_400));
    assert!(!auto_update_check_due(Some(1_000), 0));
    let mut state = fresh();
    assert_eq!(
        schedule_auto_update_check(&state, 50),
        vec![Effect::KillTimer(Timer::UpdateCheck)]
    );
    state.as_mut().unwrap().last_update_check_unix = Some(50);
    assert_eq!(
        schedule_auto_update_check(&state, 150),
        vec![
            Effect::KillTimer(Timer::UpdateCheck),
            Effect::SetTimer { timer: Timer::UpdateCheck, ms: 86_300_000 },
        ]
    );
    assert_eq!(schedule_auto_update_check(&None, 150), vec![]);
}

#[test]
fn one_update_check_runs_at_a_time() {
    let mut state = fresh();
    assert_eq!(
        begin_update_check(&mut state, true),
        vec![Effect::RunUpdateCheck { interactive: true }]
    );
    assert_eq!(begin_update_check(&mut state, true), vec![Effect::ShowUpdateInProgress]);
    assert_eq!(begin_update_check(&mut state, false), vec![]);
    assert_eq!(begin_update_apply(&mut state), vec![Effect::ShowUpdateInProgress]);
    let found = UpdateCheck::Available("2.0".to_string());
    assert_eq!(
        update_checked(&mut state, found, 77, true),
        vec![Effect::SaveSettings, Effect::PromptForUpdate, Effect::PostUpdateCheckComplete]
    );
    let s = state.as_ref().unwrap();
    assert_eq!(s.last_update_check_unix, Some(77));
    assert!(matches!(&s.update_status, UpdateStatus::Available(v) if v == "2.0"));
}

#[test]
fn quiet_checks_show_nothing() {
    for (result, shown) in [
        (UpdateCheck::UpToDate, Effect::ShowUpToDate),
        (UpdateCheck::Failed, Effect::ShowUpdateFailed),
    ] {
        let quiet = match &result {
            UpdateCheck::UpToDate => UpdateCheck::UpToDate,
            _ => UpdateCheck::Failed,
        };
        let mut state = fresh();
        assert_eq!(
            update_checked(&mut state, result, 5, true),
            vec![Effect::SaveSettings, shown, Effect::PostUpdateCheckComplete]
        );
        assert_eq!(
            update_checked(&mut state, quiet, 6, false),
            vec![Effect::SaveSettings, Effect::PostUpdateCheckComplete]
        );
        assert_eq!(state.as_ref().unwrap().last_update_check_unix, Some(6));
    }
}

#[test]
fn updates_are_applied_by_their_channel() {
    assert_eq!(update_accepted(InstallChannel::Portable), Effect::ApplyUpdate);
    assert_eq!(update_accepted(InstallChannel::Winget), Effect::UpdateThroughWinget);
    assert_eq!(winget_started(true), Effect::PostClose);
    assert_eq!(winget_started(false), Effect::ShowUpdateFailed);
    let mut state = fresh();
    assert_eq!(begin_update_apply(&mut state), vec![Effect::RunUpdate]);
    assert!(state.as_ref().unwrap().update_status.in_progress());
    assert_eq!(
        update_applied(&mut state, false, "2.0".to_string()),
        vec![Effect::ShowUpdateFailed, Effect::PostUpdateCheckComplete]
    );
    assert!(!state.as_ref().unwrap().update_status.in_progress());
    assert_eq!(update_applied(&mut state, true, "2.0".to_string()), vec![Effect::PostClose]);
}
