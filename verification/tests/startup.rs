use stealthy_usage_monitor::effects::{Effect, Timer};
use stealthy_usage_monitor::settings::SettingsFile;
use stealthy_usage_monitor::startup::{
    claim_after_wait, claim_instance, is_startup_enabled, parse_arguments, relaunch_backoff, run,
    startup_entry, taskbar_was_replaced, Claim, Launch, WaitOutcome,
};
use stealthy_usage_monitor::state::{AppState, InstallChannel};
use stealthy_usage_monitor::timing::{note_texts, TrayGate};

fn words(args: &[&str]) -> Vec<String> {
    args.iter().map(|a| a.to_string()).collect()
}

fn wide(text: &str) -> Vec<u16> {
    text.encode_utf16().collect()
}

fn stored(units: &[u16]) -> Vec<u8> {
    units.iter().flat_map(|u| u.to_le_bytes()).collect()
}

#[test]
fn a_plain_launch_runs() {
    match parse_arguments(&words(&["monitor"])) {
        Launch::Run { diagnose, codex_only } => assert!(!diagnose && !codex_only),
        other => panic!("{other:?}"),
    }
    match parse_arguments(&words(&["monitor", "--codex-only", "--diagnose"])) {
        Launch::Run { diagnose, codex_only } => assert!(diagnose && codex_only),
        other => panic!("{other:?}"),
    }
}

#[test]
fn previews_name_their_file() {
    match parse_arguments(&words(&["monitor", "--preview", "dark.bmp"])) {
        Launch::Preview { path, dark, unavailable } => {
            assert_eq!(path.as_deref(), Some("dark.bmp"));
            assert!(dark && !unavailable);
        }
        other => panic!("{other:?}"),
    }
    match parse_arguments(&words(&["monitor", "--unavailable", "--light", "--preview"])) {
        Launch::Preview { path, dark, unavailable } => {
            assert_eq!(path, None);
            assert!(!dark && unavailable);
        }
        other => panic!("{other:?}"),
    }
}

#[test]
fn the_diagnostic_poll_comes_first() {
    let args = words(&["monitor", "--preview", "a.bmp", "--check-codex"]);
    assert!(matches!(parse_arguments(&args), Launch::CheckCodex));
}

#[test]
fn one_copy_runs_at_a_time() {
    assert_eq!(claim_instance(true, false, false), Claim::Start);
    assert_eq!(claim_instance(true, true, false), Claim::Abort);
    assert_eq!(claim_instance(true, true, true), Claim::WaitForPrevious(10_000));
    assert_eq!(claim_instance(false, false, true), Claim::Abort);
    assert_eq!(claim_after_wait(WaitOutcome::Released), Claim::Start);
    assert_eq!(claim_after_wait(WaitOutcome::Abandoned), Claim::Start);
    assert_eq!(claim_after_wait(WaitOutcome::Other), Claim::Abort);
}

#[test]
fn relaunch_storms_are_slowed_down() {
    assert_eq!(relaunch_backoff(0, 5), None);
    assert_eq!(relaunch_backoff(100, 109), Some(30));
    assert_eq!(relaunch_backoff(100, 110), None);
    assert_eq!(relaunch_backoff(100, 50), Some(30));
}

#[test]
fn a_restarted_shell_is_noticed() {
    assert!(!taskbar_was_replaced(None, &vec![1, 2]));
    assert!(!taskbar_was_replaced(Some(2), &vec![1, 2]));
    assert!(taskbar_was_replaced(Some(3), &vec![1, 2]));
    assert!(!taskbar_was_replaced(Some(3), &vec![]));
}

#[test]
fn a_floating_launch_keeps_itself_on_top() {
    let state = AppState::start(SettingsFile::default(), true, InstallChannel::Portable);
    let effects = run(&state, true, true);
    assert_eq!(
        effects,
        vec![
            Effect::MakeLayered,
            Effect::ReassertTopmost,
            Effect::InstallForegroundHook,
            Effect::SetTimer { timer: Timer::Topmost, ms: 1_000 },
            Effect::SyncTrayIcons,
            Effect::Reposition,
            Effect::ShowWindow,
            Effect::Render,
            Effect::SetTimer { timer: Timer::Poll, ms: 900_000 },
            Effect::SetTimer { timer: Timer::Ram, ms: 2_000 },
            Effect::SetTimer { timer: Timer::Anim, ms: 100 },
            Effect::WatchTaskbar,
            Effect::StartPoll,
            Effect::ScheduleUpdateCheck,
            Effect::CheckForUpdates { interactive: false },
            Effect::CheckTheme,
        ]
    );
}

#[test]
fn a_hidden_embedded_launch_stays_hidden_and_still() {
    let settings = SettingsFile {
        embed_in_taskbar: true,
        widget_visible: false,
        ..SettingsFile::default()
    };
    let state = AppState::start(settings, true, InstallChannel::Portable);
    let effects = run(&state, true, false);
    assert_eq!(effects[..3], [Effect::SyncTrayIcons, Effect::Reposition, Effect::HideWindow]);
    assert!(!effects.contains(&Effect::SetTimer { timer: Timer::Anim, ms: 100 }));
    let missing = run(&state, false, false);
    assert_eq!(missing[0], Effect::SetTimer { timer: Timer::TaskbarRetry, ms: 1_000 });
    assert!(missing.contains(&Effect::MakeLayered));
}

#[test]
fn a_written_startup_entry_is_recognised() {
    for path in ["C:\\Apps\\monitor.exe", "C:\\Użytkownik\\𝄞.exe"] {
        let exe = wide(path);
        let entry = startup_entry(&exe).unwrap();
        assert_eq!(entry.len(), 2 * exe.len() + 2);
        assert!(is_startup_enabled(Some(&entry), &exe));
    }
    assert!(startup_entry(&vec![]).is_none());
}

#[test]
fn startup_entries_are_compared_without_case() {
    let exe = wide("C:\\Apps\\Monitor.EXE");
    assert!(is_startup_enabled(Some(&stored(&wide("c:\\apps\\monitor.exe\0\0"))), &exe));
    assert!(is_startup_enabled(Some(&stored(&wide("C:\\APPS\\MONITOR.EXE"))), &exe));
    assert!(!is_startup_enabled(Some(&stored(&wide("C:\\Apps\\Other.exe"))), &exe));
    assert!(!is_startup_enabled(Some(&stored(&wide("C:\\Apps\\Monitor.EXE1"))), &exe));
    assert!(!is_startup_enabled(None, &exe));
    assert!(!is_startup_enabled(Some(&vec![]), &exe));
    assert!(!is_startup_enabled(Some(&stored(&wide("\0"))), &vec![]));
    // Only ASCII letters are folded.
    assert!(!is_startup_enabled(Some(&stored(&wide("É"))), &wide("é")));
}

#[test]
fn unpaired_surrogates_read_as_the_replacement_character() {
    let music = vec![0xd834, 0xdd1e, 0x6d, 0x75, 0x73, 0xdd1e, 0x69, 0x63, 0xd834];
    assert!(is_startup_enabled(Some(&stored(&music)), &wide("𝄞mus\u{fffd}ic\u{fffd}")));
    assert!(!is_startup_enabled(Some(&stored(&music)), &wide("𝄞mus\u{fffd}ic")));
    let mut odd = stored(&wide("ab"));
    odd.push(0x63);
    assert!(is_startup_enabled(Some(&odd), &wide("AB")));
}

#[test]
fn tray_movements_are_followed_at_most_twice_a_second() {
    let ms: u128 = 1_000_000;
    let mut gate = TrayGate::new();
    assert!(!gate.on_location_changed(false, 0));
    assert!(gate.on_location_changed(true, 10 * ms));
    assert!(!gate.on_location_changed(true, 510 * ms));
    assert!(gate.on_location_changed(true, 511 * ms));
    gate.suppress_for(2_000 * ms, 750);
    assert!(!gate.on_location_changed(true, 2_749 * ms));
    assert!(gate.is_suppressed(2_749 * ms));
    assert!(gate.on_location_changed(true, 2_750 * ms));
    assert_eq!(gate.suppressed_until, None);
}

#[test]
fn a_countdown_that_rolls_over_flashes() {
    let mut last = words(&["", ""]);
    assert!(!note_texts(&mut last, &words(&["1h 1m", "2d"])));
    assert!(!note_texts(&mut last, &words(&["1h 1m", "2d"])));
    assert!(note_texts(&mut last, &words(&["1h 0m", "2d"])));
    assert_eq!(last, words(&["1h 0m", "2d"]));
    assert!(note_texts(&mut last, &words(&["", "2d"])));
    assert!(!note_texts(&mut last, &words(&["1h", "2d"])));
}
