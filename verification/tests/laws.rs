use stealthy_usage_monitor::appearance::{Appearance, Mode, AFTERGLOW};
use stealthy_usage_monitor::color::{bgr_to_rgb, color, rgb};
use stealthy_usage_monitor::effects::{Effect, Timer};
use stealthy_usage_monitor::geometry::{clamp_desktop_position, sc, Rect};
use stealthy_usage_monitor::led::{state_level, Level};
use stealthy_usage_monitor::measure::Binary64;
use stealthy_usage_monitor::models::{AppUsageData, UsageData, UsageSection};
use stealthy_usage_monitor::polling::{
    do_poll, fable_readout, poll_choices, Countdowns, PollOutcome,
};
use stealthy_usage_monitor::readout::{figure, reset_label};
use stealthy_usage_monitor::render::key_pixels;
use stealthy_usage_monitor::settings::{select_codex_only, start_settings, SettingsFile};
use stealthy_usage_monitor::state::{AppState, InstallChannel, State, WatchMode};
use stealthy_usage_monitor::studio::{choose_color, command, finish_choice, Request};
use stealthy_usage_monitor::updates::{auto_update_check_due, update_checked, UpdateCheck};
use stealthy_usage_monitor::window::{wnd_proc, Message, IDM_MODEL_CODEX, IDM_TOGGLE_WIDGET};

fn number(value: f64) -> Binary64 {
    Binary64 { bits: value.to_bits() }
}

fn fresh(settings: SettingsFile) -> Option<State> {
    Some(AppState::start(settings, true, InstallChannel::Portable))
}

fn countdowns(text: &str) -> Countdowns<String> {
    let t = || text.to_string();
    Countdowns {
        claude_session: t(),
        claude_weekly: t(),
        codex_session: t(),
        codex_weekly: t(),
        antigravity_session: t(),
        antigravity_weekly: t(),
        fable: t(),
    }
}

#[test]
fn polling_keeps_the_preferences() {
    let settings = SettingsFile { tray_offset: 9, taskbar_index: 2, ..SettingsFile::default() };
    let mut state = fresh(settings);
    let data = AppUsageData { codex: Some(UsageData::default()), ..AppUsageData::default() };
    do_poll(&mut state, PollOutcome::Ready { data, past_reset: true, texts: countdowns("2h") });
    assert_eq!(state.as_ref().unwrap().settings(), settings);
    do_poll(&mut state, PollOutcome::Failed { watch: None });
    assert_eq!(state.as_ref().unwrap().settings(), settings);
    do_poll(&mut state, PollOutcome::Failed { watch: Some((WatchMode::Codex, vec![1])) });
    assert_eq!(state.as_ref().unwrap().settings(), settings);
}

#[test]
fn errors_outlive_a_refresh_of_the_countdowns() {
    let mut state = fresh(SettingsFile::default());
    let weekly = UsageSection { available: true, ..UsageSection::default() };
    let codex = Some(UsageData { weekly, ..UsageData::default() });
    let data = AppUsageData { codex, ..AppUsageData::default() };
    do_poll(&mut state, PollOutcome::Ready { data, past_reset: false, texts: countdowns("2h") });
    let s = state.as_mut().unwrap();
    s.refresh_usage_texts(&countdowns("1h"));
    assert_eq!(s.codex.weekly.text, "1h");
    do_poll(&mut state, PollOutcome::Failed { watch: None });
    let s = state.as_mut().unwrap();
    s.refresh_usage_texts(&countdowns("59m"));
    assert_eq!(s.codex.weekly.text, "...");
}

#[test]
fn a_success_ends_a_pause() {
    let mut state = fresh(SettingsFile::default());
    do_poll(&mut state, PollOutcome::Failed { watch: Some((WatchMode::Codex, vec![1])) });
    assert!(state.as_ref().unwrap().polling.auth_error_paused);
    let data = AppUsageData::default();
    do_poll(&mut state, PollOutcome::Ready { data, past_reset: false, texts: countdowns("") });
    let polling = &state.as_ref().unwrap().polling;
    assert!(polling.last_ok && !polling.auth_error_paused);
    assert!(polling.retry_count == 0 && polling.watch_snapshot.is_empty());
}

#[test]
fn starting_with_codex_alone_polls_codex_alone() {
    let saved = SettingsFile { show_antigravity: true, ..SettingsFile::default() };
    assert_eq!(poll_choices(&fresh(start_settings(true, saved))), (false, true, false));
    assert_eq!(start_settings(false, saved), saved);
}

#[test]
fn a_launch_shows_no_reading() {
    let state = fresh(SettingsFile { show_antigravity: true, ..SettingsFile::default() });
    let fable = fable_readout(&state, "5d");
    let s = state.as_ref().unwrap();
    for card in [&s.claude, &s.codex, &s.antigravity] {
        for row in [&card.session, &card.weekly, &fable] {
            assert_eq!(figure(row.percent, &row.text), "—");
            assert_eq!(reset_label(&row.text), "Waiting");
        }
    }
}

#[test]
fn missing_quotas_show_no_reading() {
    let missing = Some(UsageData::default());
    let data = AppUsageData { claude_code: missing, codex: missing, antigravity: missing };
    for text in ["n/a", "", "3h"] {
        let mut state = fresh(SettingsFile { show_antigravity: true, ..SettingsFile::default() });
        let texts = countdowns(text);
        do_poll(&mut state, PollOutcome::Ready { data, past_reset: false, texts });
        let fable = fable_readout(&state, text);
        let s = state.as_ref().unwrap();
        for card in [&s.claude, &s.codex, &s.antigravity] {
            for row in [&card.session, &card.weekly, &fable] {
                assert_eq!(figure(row.percent, &row.text), "—");
                assert_eq!(reset_label(&row.text), "Not reported");
            }
        }
    }
}

#[test]
fn only_the_background_is_keyed() {
    let bg = color(0x151923);
    for value in [0x0015_1923, 0x0023_1915, 0x7f15_1923, 0x0015_1924, 0] {
        let mut pixels = vec![value];
        key_pixels(&mut pixels, bg);
        let opaque = value % 0x100_0000 + 0xff00_0000;
        assert_eq!(pixels[0], if color(value) == bg { 0x0100_0000 } else { opaque });
        assert_eq!(rgb(color(value)), value % 0x100_0000);
    }
}

#[test]
fn a_dropped_widget_is_found_there_after_a_restart() {
    let mut state = fresh(SettingsFile::default());
    let rect = Rect { left: -800, top: 240, right: -416, bottom: 302 };
    wnd_proc(&mut state, Message::ExitSizeMove { rect: Some(rect) }, 96);
    let again = fresh(state.unwrap().settings()).unwrap();
    assert_eq!(again.floating_position, Some((-800, 240)));
}

#[test]
fn animation_causes_no_polls() {
    let mut state = fresh(SettingsFile::default());
    for timer in [Timer::Anim, Timer::Ram, Timer::Countdown, Timer::Topmost] {
        let response = wnd_proc(&mut state, Message::Timer(timer), 96);
        assert!(!response.effects.contains(&Effect::StartPoll));
    }
    let response = wnd_proc(&mut state, Message::Timer(Timer::Poll), 96);
    assert_eq!(response.effects, vec![Effect::StartPoll]);
}

#[test]
fn toggling_twice_changes_nothing() {
    let mut state = fresh(SettingsFile::default());
    let before = format!("{state:?}");
    wnd_proc(&mut state, Message::Command(IDM_TOGGLE_WIDGET), 96);
    assert_ne!(format!("{state:?}"), before);
    wnd_proc(&mut state, Message::Command(IDM_TOGGLE_WIDGET), 96);
    assert_eq!(format!("{state:?}"), before);
}

#[test]
fn the_only_provider_cannot_be_hidden() {
    let mut settings = SettingsFile::default();
    select_codex_only(&mut settings);
    let mut state = fresh(settings);
    wnd_proc(&mut state, Message::Command(IDM_MODEL_CODEX), 96);
    assert!(state.as_ref().unwrap().codex.shown);
}

#[test]
fn placing_twice_is_placing_once() {
    let work = Rect { left: -100, top: 50, right: 900, bottom: 700 };
    for (x, y) in [(-5_000, -5_000), (10, 60), (5_000, 5_000)] {
        let once = clamp_desktop_position(x, y, 384, 62, work);
        assert_eq!(clamp_desktop_position(once.0, once.1, 384, 62, work), once);
    }
}

#[test]
fn scaling_is_monotone() {
    for dpi in [96, 120, 144, 192] {
        for px in -50..200 {
            assert!(sc(px, dpi) <= sc(px + 1, dpi));
        }
    }
}

#[test]
fn swapping_twice_gives_the_value_back() {
    for value in [0, 0xff, 0x12_3456, 0xff_ffff] {
        assert_eq!(bgr_to_rgb(bgr_to_rgb(value)), value);
        assert_eq!(bgr_to_rgb(color(value).to_colorref()), value);
    }
}

#[test]
fn further_along_never_warns_less() {
    let rank = |level: Level| match level {
        Level::Calm => 0,
        Level::Warm => 1,
        Level::Hot => 2,
    };
    for percent in 0..100 {
        for burn in [-5.0, 0.0, 8.0, 18.0] {
            let now = state_level(number(percent as f64), number(burn));
            let later = state_level(number(percent as f64 + 1.0), number(burn));
            assert!(rank(now) <= rank(later));
        }
    }
    let burns = [f64::NEG_INFINITY, -5.0, -0.0, 0.0, 7.9, 8.0, 18.0, f64::INFINITY];
    for pair in burns.windows(2) {
        let now = state_level(number(10.0), number(pair[0]));
        let later = state_level(number(10.0), number(pair[1]));
        assert!(rank(now) <= rank(later));
    }
}

#[test]
fn keying_twice_is_keying_once_for_what_stays_visible() {
    let mut pixels = vec![0x0012_3456, 0x00ab_cdef];
    key_pixels(&mut pixels, color(0x1c1c1c));
    let once = pixels.clone();
    key_pixels(&mut pixels, color(0x1c1c1c));
    assert_eq!(pixels, once);
}

#[test]
fn confirming_the_colour_a_dialog_starts_from_keeps_the_palette() {
    let current = Appearance { mode: Mode::Custom, colors: AFTERGLOW, ..Appearance::default() };
    for index in 0..5 {
        let mut picker = None;
        let chooser = choose_color(&mut picker, current, index, false);
        assert_eq!(finish_choice(&mut picker, current, true, chooser.initial), current);
    }
}

#[test]
fn choosing_a_mode_keeps_the_custom_colours() {
    let current = Appearance {
        mode: Mode::Custom,
        colors: AFTERGLOW,
        widget_size: 125,
    };
    for id in 100..=103 {
        match command(id, current, None) {
            Request::Apply(next) => {
                assert_eq!((next.colors, next.widget_size), (AFTERGLOW, 125));
            }
            other => panic!("{other:?}"),
        }
    }
}

#[test]
fn a_check_makes_the_next_one_due_a_day_later() {
    let mut state = fresh(SettingsFile::default());
    update_checked(&mut state, UpdateCheck::Failed, 1_000, false);
    let last = state.as_ref().unwrap().last_update_check_unix;
    assert!(!auto_update_check_due(last, 1_000 + 86_399));
    assert!(auto_update_check_due(last, 1_000 + 86_400));
}
