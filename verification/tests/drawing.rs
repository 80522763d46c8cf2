use stealthy_usage_monitor::appearance::{Appearance, Mode, EVERGREEN, MIDNIGHT};
use stealthy_usage_monitor::calendar::WeekBlocks;
use stealthy_usage_monitor::color::{color, Color};
use stealthy_usage_monitor::draw::{Align, Canvas, DrawOp, Font, Signal, Tint, Weight};
use stealthy_usage_monitor::gauges::{Pace, RamReading, RowDraw, Shown};
use stealthy_usage_monitor::geometry::Rect;
use stealthy_usage_monitor::led::{
    claude_led, hot_led, ram_led, ring_led, state_led, state_level, warm_led, Level,
};
use stealthy_usage_monitor::measure::Binary64;
use stealthy_usage_monitor::menu::{show_context_menu, Mark, MenuEntry, MenuPart};
use stealthy_usage_monitor::models::{AppUsageData, UsageData, UsageSection};
use stealthy_usage_monitor::polling::fable_readout;
use stealthy_usage_monitor::render::{
    encode_bitmap, freshness_interval, key_pixels, paint, preview_readings, preview_scene,
    readings, render_layered, Layer, PREVIEW_DPI,
};
use stealthy_usage_monitor::settings::SettingsFile;
use stealthy_usage_monitor::state::{AppState, InstallChannel, Provider, State, UpdateStatus};
use stealthy_usage_monitor::strings::Strings;
use stealthy_usage_monitor::studio;
use stealthy_usage_monitor::studio::{
    buttons, choose_color, command, finish_choice, picker_hook, preview_appearance,
    preview_picked, set_appearance, translate, PickerMessage, Request, Translation,
};
use stealthy_usage_monitor::studio_view::{draw_button, ButtonItem};
use stealthy_usage_monitor::tray::tray_icon_data_from_state;
use stealthy_usage_monitor::updates::{
    update_failure_message, update_prompt, version_action_label,
};
use stealthy_usage_monitor::widget::{paint_content, Frame, Scene, Slots};
use stealthy_usage_monitor::{effects::Effect, studio_view};

fn number(value: f64) -> Binary64 {
    Binary64 { bits: value.to_bits() }
}

fn strings() -> Strings {
    Strings {
        claude_code_model: "First",
        codex_model: "Codex",
        antigravity_model: "Antigravity",
        claude_card: "FIRST",
        claude_field: "first",
        window_title: "Usage",
        codex_window_title: "Codex usage",
        antigravity_window_title: "Antigravity usage",
        session_window: "5h",
        weekly_window: "7d",
        weekday_initials: ["S", "M", "T", "W", "T", "F", "S"],
        refresh: "Refresh",
        update_frequency: "Update Frequency",
        one_minute: "1 Minute",
        five_minutes: "5 Minutes",
        fifteen_minutes: "15 Minutes",
        one_hour: "1 Hour",
        models: "Models",
        settings: "Settings",
        start_with_windows: "Start with Windows",
        reset_position: "Reset Position",
        show_widget: "Show Widget",
        exit: "Exit",
        check_for_updates: "Check for updates",
        checking_for_updates: "Checking",
        applying_update: "Applying",
        up_to_date_short: "Up to date",
        update_to: "Update to",
        update_via_winget: "Update via WinGet",
        update_prompt_now: "Install v{version} now?",
        update_failed: "Update failed",
    }
}

fn fresh() -> State {
    AppState::start(SettingsFile::default(), true, InstallChannel::Portable)
}

fn frame(shown: Shown, pace: Option<Pace>) -> Frame {
    Frame {
        breath: number(0.5),
        ram: RamReading { percent: number(42.0), fill: 12, low: 11, high: 13 },
        shown: Slots {
            session: shown,
            weekly: shown,
            codex_session: shown,
            codex_weekly: shown,
            antigravity_session: shown,
            antigravity_weekly: shown,
            fable: shown,
        },
        session_pace: pace,
        weekly_pace: pace,
        freshness: 90,
    }
}

fn half() -> Shown {
    Shown { percent: number(50.0), fill: 61 }
}

fn texts_of(canvas: &Canvas) -> Vec<&str> {
    canvas
        .ops
        .iter()
        .filter_map(|op| match op {
            DrawOp::Text { text, .. } => Some(text.as_str()),
            _ => None,
        })
        .collect()
}

fn fills_of(canvas: &Canvas) -> Vec<(Rect, &Tint)> {
    canvas
        .ops
        .iter()
        .filter_map(|op| match op {
            DrawOp::Fill { rect, color } => Some((*rect, color)),
            _ => None,
        })
        .collect()
}

fn area(left: i32, top: i32, right: i32, bottom: i32) -> Rect {
    Rect { left, top, right, bottom }
}

fn solid(rgb: u32) -> Tint {
    Tint::Solid(color(rgb))
}

fn row(time_text: &str, shown: Shown, pace: Option<Pace>) -> RowDraw<String> {
    RowDraw {
        custom_ink: false,
        x: 70,
        y: 13,
        shown,
        pace,
        time_text: time_text.to_string(),
        base: claude_led(),
        week: None,
        is_dark: true,
        bg: solid(0x111111),
        track: solid(0x222222),
        ink: solid(0xeeeeee),
    }
}

fn drawn(row: &RowDraw<String>) -> Canvas {
    let mut canvas = Canvas::new();
    canvas.draw_numeric_row(row, &strings(), 96);
    canvas
}

#[test]
fn warnings_turn_amber_then_red() {
    let calm = number(0.0);
    assert_eq!(state_level(number(69.9), calm), Level::Calm);
    assert_eq!(state_level(number(70.0), calm), Level::Warm);
    assert_eq!(state_level(number(90.0), calm), Level::Hot);
    assert_eq!(state_level(number(10.0), number(8.0)), Level::Warm);
    assert_eq!(state_level(number(10.0), number(18.0)), Level::Hot);
    assert_eq!(state_level(number(10.0), number(-50.0)), Level::Calm);
    assert_eq!(state_led(number(75.0), calm, &claude_led()), warm_led());
    assert_eq!(state_led(number(95.0), calm, &ring_led()), hot_led());
    assert_eq!(state_led(number(5.0), calm, &ring_led()), ring_led());
    assert_eq!(hot_led().mid, solid(0xf87171));
}

#[test]
fn memory_warms_continuously() {
    assert_eq!(ram_led(number(60.0)), ring_led());
    match ram_led(number(72.5)).mid {
        Tint::Mix { from, to, weight } => {
            assert_eq!((*from, *to), (ring_led().mid, warm_led().mid));
            let reading = number(72.5);
            assert_eq!(weight, Weight::Ramp { reading, start: 60, span: 25 });
        }
        other => panic!("{other:?}"),
    }
    match ram_led(number(85.1)).glow {
        Tint::Mix { from, to, .. } => assert_eq!((*from, *to), (warm_led().glow, hot_led().glow)),
        other => panic!("{other:?}"),
    }
}

#[test]
fn a_missing_reading_is_a_dash_without_a_gauge() {
    let canvas = drawn(&row("!", Shown { percent: number(0.0), fill: 0 }, None));
    assert_eq!(texts_of(&canvas), ["—", "Offline"]);
    assert_eq!(fills_of(&canvas), [(area(70, 26, 192, 27), &solid(0x222222))]);
}

#[test]
fn a_reading_has_a_fill_and_an_ember() {
    let canvas = drawn(&row("3h", half(), None));
    assert_eq!(texts_of(&canvas), ["50%", "3h"]);
    let fills = fills_of(&canvas);
    assert_eq!(fills.len(), 3);
    assert_eq!(fills[1].0, area(70, 26, 131, 27));
    assert_eq!(fills[2].0, area(130, 25, 132, 27));
    match fills[2].1 {
        Tint::Mix { weight, .. } => assert_eq!(
            *weight,
            Weight::Live { base: 180, gain: 300, signal: Signal::Breath }
        ),
        other => panic!("{other:?}"),
    }
    // Without a fill there is only the ember.
    let empty = drawn(&row("3h", Shown { percent: number(0.0), fill: 0 }, None));
    assert_eq!(fills_of(&empty).len(), 2);
    assert_eq!(fills_of(&empty)[1].0, area(70, 25, 72, 27));
}

#[test]
fn being_ahead_of_pace_draws_the_overdraft() {
    let ahead = drawn(&row("3h", half(), Some(Pace { burn: number(5.0), at: 55 })));
    let fills = fills_of(&ahead);
    assert_eq!(fills.len(), 5);
    assert_eq!(fills[2].0, area(125, 25, 131, 28));
    assert_eq!(fills[3].0, area(125, 25, 126, 28));
    let barely = drawn(&row("3h", half(), Some(Pace { burn: number(0.5), at: 60 })));
    assert_eq!(fills_of(&barely).len(), 4);
    let behind = drawn(&row("3h", half(), Some(Pace { burn: number(-5.0), at: 67 })));
    assert_eq!(fills_of(&behind).len(), 4);
    assert_eq!(fills_of(&behind)[2].0, area(137, 25, 138, 28));
    // A loud ember is taller.
    let loud = drawn(&row("3h", half(), Some(Pace { burn: number(8.0), at: 50 })));
    assert_eq!(fills_of(&loud)[4].0, area(130, 25, 132, 28));
}

#[test]
fn the_day_band_marks_today() {
    let mut weekly = row("4d", half(), None);
    weekly.week = Some(WeekBlocks { days: [3, 4, 5, 6, 0, 1, 2], today: Some(2) });
    let canvas = drawn(&weekly);
    assert_eq!(texts_of(&canvas)[2..], ["W", "T", "F", "S", "S", "M", "T"]);
    let bold = Font { height: -9, weight: 700 };
    let mut lit = Vec::new();
    let mut edges = Vec::new();
    for op in &canvas.ops {
        if let DrawOp::Text { rect, text, font, align: Align::Center, .. } = op {
            edges.push(rect.left);
            if *font == bold {
                lit.push(text.as_str());
            }
        }
    }
    assert_eq!(lit, ["F"]);
    let expected: Vec<i32> =
        (0..7).map(|d| 70 + (122.0 * d as f64 / 7.0).round() as i32).collect();
    assert_eq!(edges, expected);
}

#[test]
fn custom_figures_are_plain_ink() {
    let mut custom = row("3h", half(), None);
    custom.custom_ink = true;
    match &drawn(&custom).ops[0] {
        DrawOp::Text { color, .. } => assert_eq!(*color, solid(0xeeeeee)),
        other => panic!("{other:?}"),
    }
    match &drawn(&row("3h", half(), None)).ops[0] {
        DrawOp::Text { color: Tint::Mix { to, weight, .. }, .. } => {
            assert_eq!(**to, claude_led().core);
            assert_eq!(*weight, Weight::Live { base: 300, gain: 600, signal: Signal::Flash });
        }
        other => panic!("{other:?}"),
    }
}

#[test]
fn the_memory_column_is_brightest_in_the_middle() {
    let ram = RamReading { percent: number(42.0), fill: 12, low: 11, high: 13 };
    let mut canvas = Canvas::new();
    canvas.draw_ram_column(13, ram, true, &solid(0), number(0.5), 96);
    let columns: Vec<Weight> = fills_of(&canvas)
        .iter()
        .filter(|(rect, _)| rect.right - rect.left == 1 && rect.bottom - rect.top == 12)
        .map(|(_, tint)| match tint {
            Tint::Mix { weight, .. } => *weight,
            other => panic!("{other:?}"),
        })
        .collect();
    let part = |of: u32| Weight::Part { of, whole: 4 };
    assert_eq!(columns, [part(4), part(2), part(0), part(2), part(4)]);
    assert!(matches!(canvas.ops[0], DrawOp::FillRounded { diameter: 8, .. }));
    assert!(matches!(canvas.ops[1], DrawOp::FillRounded { diameter: 6, .. }));
    let fills = fills_of(&canvas);
    assert_eq!(fills[fills.len() - 2].0, area(11, 26, 12, 27));
    assert_eq!(fills[fills.len() - 1].0, area(11, 24, 12, 25));
    // An empty column has a track and ticks, and breathing that dim no halo.
    let mut canvas = Canvas::new();
    let empty = RamReading { percent: number(0.0), fill: 0, low: 0, high: 0 };
    canvas.draw_ram_column(13, empty, true, &solid(0), number(0.5), 96);
    assert_eq!(canvas.ops.len(), 3);
    let mut canvas = Canvas::new();
    canvas.draw_ram_column(13, ram, true, &solid(0), number(0.02), 96);
    assert!(matches!(canvas.ops[0], DrawOp::FillRounded { diameter: 4, .. }));
}

fn scene(width: i32) -> Scene<String> {
    let text = |t: &str| t.to_string();
    Scene {
        width,
        height: 62,
        is_dark: true,
        appearance: Appearance::default(),
        bg: color(0x1c1c1c),
        text_color: color(0xe8ecef),
        data: None,
        claude: true,
        codex: true,
        antigravity: true,
        texts: Slots {
            session: text("1h"),
            weekly: text("2d"),
            codex_session: text("3h"),
            codex_weekly: text("4d"),
            antigravity_session: text("5h"),
            antigravity_weekly: text("6d"),
            fable: text("7d"),
        },
    }
}

#[test]
fn cards_hold_their_own_rows() {
    let canvas = paint_content(&scene(566), &frame(half(), None), &strings(), 96);
    assert_eq!(
        texts_of(&canvas),
        [
            "FIRST", "USED / RESET IN", "5h", "50%", "1h", "7d", "50%", "2d", "Fable", "50%", "7d",
            "CODEX", "USED / RESET IN", "7d", "50%", "4d", "ANTIGRAVITY", "USED / RESET IN",
            "Quota", "50%", "5h", "Extra", "50%", "6d",
        ]
    );
    let names: Vec<i32> = canvas
        .ops
        .iter()
        .filter_map(|op| match op {
            DrawOp::FillRounded { rect, diameter: 8, .. } if rect.bottom == 62 => Some(rect.left),
            _ => None,
        })
        .collect();
    assert_eq!(names, [28, 210, 392]);
}

#[test]
fn only_the_first_provider_is_paced() {
    let pace = Some(Pace { burn: number(-1.0), at: 70 });
    let paced = paint_content(&scene(566), &frame(half(), pace), &strings(), 96);
    let plain = paint_content(&scene(566), &frame(half(), None), &strings(), 96);
    assert_eq!(paced.ops.len(), plain.ops.len() + 2);
}

#[test]
fn codex_is_labelled_by_its_reported_window() {
    let mut named = scene(566);
    let weekly = UsageSection { window_minutes: Some(4_320), ..UsageSection::default() };
    let codex = UsageData { weekly, ..UsageData::default() };
    named.data = Some(AppUsageData { codex: Some(codex), ..AppUsageData::default() });
    named.claude = false;
    named.antigravity = false;
    let canvas = paint_content(&named, &frame(half(), None), &strings(), 96);
    assert_eq!(texts_of(&canvas), ["CODEX", "USED / RESET IN", "3d", "50%", "4d"]);
}

#[test]
fn the_backdrop_and_the_hairline_frame_the_cards() {
    let canvas = paint_content(&scene(566), &frame(half(), None), &strings(), 96);
    let fills = fills_of(&canvas);
    assert_eq!(fills[0], (area(0, 0, 566, 62), &solid(0x1c1c1c)));
    assert_eq!(fills[1], (area(0, 18, 2, 43), &solid(0x505050)));
    assert_eq!(fills[2], (area(2, 18, 3, 43), &solid(0x282828)));
    assert_eq!(fills[fills.len() - 2].0, area(28, 0, 565, 1));
    assert_eq!(fills[fills.len() - 1].0, area(28, 0, 118, 1));
    // Too narrow for a hairline.
    let narrow = paint_content(&scene(29), &frame(half(), None), &strings(), 96);
    assert_eq!(narrow.ops.len(), canvas.ops.len() - 2);
}

#[test]
fn rendering_depends_on_where_the_widget_is() {
    let fable = fable_readout(&None, "");
    assert!(matches!(render_layered(&None, &fable, 96), Layer::Nothing));
    let mut state = fresh();
    assert_eq!(readings(&state, &fable).codex_weekly, number(0.0));
    assert_eq!(freshness_interval(&None), 60_000);
    let floating = Some(fresh());
    assert_eq!(freshness_interval(&floating), 900_000);
    assert!(matches!(render_layered(&floating, &fable, 96), Layer::Invalidate));
    assert!(paint(&floating, &fable, 0, 62).is_none());
    assert!(paint(&None, &fable, 10, 62).is_none());
    assert_eq!(paint(&floating, &fable, 10, 20).unwrap().texts.fable, "...");
    state.attach(0, true);
    match render_layered(&Some(state), &fable, 144) {
        Layer::Compose(scene) => {
            assert_eq!((scene.width, scene.height), (576, 93));
            assert_eq!(scene.bg, Color::new(0x1c, 0x1c, 0x1c));
            assert_eq!(scene.texts.session, "...");
        }
        other => panic!("{other:?}"),
    }
}

#[test]
fn background_pixels_become_nearly_invisible() {
    let mut pixels = vec![0x001c_1c1c, 0xff1c_1c1c, 0x0012_3456, 0xab00_0000];
    key_pixels(&mut pixels, color(0x1c1c1c));
    assert_eq!(pixels, [0x0100_0000, 0x0100_0000, 0xff12_3456, 0xff00_0000]);
    let mut pixels = vec![0x0023_1915, 0x0015_1923];
    key_pixels(&mut pixels, color(MIDNIGHT[0]));
    assert_eq!(pixels, [0xff23_1915, 0x0100_0000]);
}

#[test]
fn previews_show_sample_readings() {
    let scene = preview_scene(true, false);
    assert_eq!((scene.width, scene.height), (768, 124));
    assert_eq!(scene.bg, color(0x1c1c1c));
    assert_eq!(scene.text_color, color(0xd7dee6));
    assert_eq!(preview_readings().codex_weekly, 91);
    let canvas = paint_content(&scene, &frame(half(), None), &strings(), PREVIEW_DPI);
    assert!(texts_of(&canvas).contains(&"2d 6h"));
    let scene = preview_scene(false, true);
    let canvas = paint_content(&scene, &frame(half(), None), &strings(), PREVIEW_DPI);
    assert!(texts_of(&canvas).contains(&"Not reported"));
    assert!(!texts_of(&canvas).contains(&"Offline"));
    assert_eq!(scene.texts.codex_session, "!");
}

#[test]
fn bitmaps_are_headed_field_by_field() {
    let file = encode_bitmap(2, 1, &vec![1, 2, 3, 4, 5, 6, 7, 8]);
    let mut expected = vec![0x42, 0x4d, 62, 0, 0, 0, 0, 0, 0, 0, 54, 0, 0, 0, 40, 0, 0, 0];
    expected.extend([2, 0, 0, 0, 255, 255, 255, 255, 1, 0, 32, 0]);
    expected.extend([0; 24]);
    expected.extend([1, 2, 3, 4, 5, 6, 7, 8]);
    assert_eq!(file, expected);
    let file = encode_bitmap(768, 124, &vec![]);
    assert_eq!(file[18..22], 768i32.to_le_bytes());
    assert_eq!(file[22..26], (-124i32).to_le_bytes());
}

#[test]
fn the_menu_reflects_the_state() {
    let mut state = fresh();
    state.polling.interval_ms = 60_000;
    state.update_status = UpdateStatus::Checking;
    let menu = show_context_menu(&Some(state), &strings(), "1.4.0", true);
    let lines: Vec<String> = menu
        .entries
        .iter()
        .map(|entry| match entry {
            MenuEntry::Item { part, id, label, mark } => {
                format!("{part:?} {id} {label} {mark:?}")
            }
            MenuEntry::Separator(part) => format!("{part:?} -"),
            MenuEntry::Submenu { part, label } => format!("{part:?} > {label}"),
        })
        .collect();
    assert_eq!(
        lines,
        [
            "Main 80 Appearance... Plain",
            "Main -",
            "Main 1 Refresh Plain",
            "Frequency 10 1 Minute Checked",
            "Frequency 11 5 Minutes Plain",
            "Frequency 12 15 Minutes Plain",
            "Frequency 13 1 Hour Plain",
            "Frequency > Update Frequency",
            "Models 60 First Checked",
            "Models 61 Codex Checked",
            "Models 62 Antigravity Plain",
            "Models > Models",
            "Settings 20 Start with Windows Checked",
            "Settings 30 Reset Position Plain",
            "Settings -",
            "Settings 31 v1.4.0 - Checking Grayed",
            "Settings > Settings",
            "Main 50 Show Widget Checked",
            "Main -",
            "Main 2 Exit Plain",
        ]
    );
}

#[test]
fn the_menu_works_before_there_is_a_state() {
    let menu = show_context_menu(&None, &strings(), "1.4.0", false);
    let checked: Vec<u16> = menu
        .entries
        .iter()
        .filter_map(|entry| match entry {
            MenuEntry::Item { id, mark: Mark::Checked, .. } => Some(*id),
            _ => None,
        })
        .collect();
    assert_eq!(checked, [12, 60, 50]);
    assert!(matches!(&menu.entries[1], MenuEntry::Separator(MenuPart::Main)));
}

#[test]
fn the_version_entry_says_what_it_does() {
    let label = |channel: InstallChannel, status: UpdateStatus<String>| {
        version_action_label(&strings(), "1.4.0", channel, &status)
    };
    let available = || UpdateStatus::Available("2.0".to_string());
    let portable = InstallChannel::Portable;
    assert_eq!(label(portable, UpdateStatus::Idle), "v1.4.0 - Check for updates");
    assert_eq!(label(portable, UpdateStatus::Applying), "v1.4.0 - Applying");
    assert_eq!(label(portable, UpdateStatus::UpToDate), "v1.4.0 - Up to date");
    assert_eq!(label(portable, available()), "v1.4.0 - Update to v2.0");
    assert_eq!(label(InstallChannel::Winget, available()), "v1.4.0 - Update via WinGet v2.0");
    assert_eq!(update_prompt(&strings(), "2.0"), "Install v2.0 now?");
    assert_eq!(update_failure_message(&strings(), "no network"), "Update failed.\n\nno network");
}

#[test]
fn tray_icons_badge_only_readings() {
    let mut state = fresh();
    let icons = tray_icon_data_from_state(&Some(fresh()), &strings(), "5d");
    assert_eq!(icons.len(), 2);
    assert_eq!(icons[0].tooltip, "Usage");
    assert!(icons[0].percent.is_none());
    state.polling.last_ok = true;
    state.claude.session.percent = number(32.0);
    state.claude.session.text = "3h".to_string();
    state.claude.weekly.text = "!".to_string();
    state.codex.weekly.percent = number(91.0);
    state.codex.weekly.text = "2d".to_string();
    state.antigravity.shown = true;
    state.antigravity.session.text = "n/a".to_string();
    let fable =
        UsageSection { available: true, percentage: number(38.0), ..UsageSection::default() };
    let usage = UsageData { fable, ..UsageData::default() };
    state.data = Some(AppUsageData { claude_code: Some(usage), ..AppUsageData::default() });
    let icons = tray_icon_data_from_state(&Some(state), &strings(), "5d");
    assert_eq!(icons[0].kind, Provider::Claude);
    assert_eq!(icons[0].percent, Some(number(32.0)));
    assert_eq!(
        icons[0].tooltip,
        "First 5h: 32% used · 3h | 7d: — used · Offline | Fable: 38% used · 5d"
    );
    assert_eq!(icons[1].percent, Some(number(91.0)));
    assert_eq!(icons[1].tooltip, "Codex 7d: 91% used · 2d");
    assert_eq!(icons[2].percent, None);
    assert_eq!(
        icons[2].tooltip,
        "Antigravity Quota: — used · Not reported | Extra: — used · Waiting"
    );
    assert!(tray_icon_data_from_state(&None, &strings(), "5d").is_empty());
}

#[test]
fn studio_buttons_ask_for_appearances() {
    let current = Appearance { widget_size: 150, ..Appearance::default() };
    let opening = Appearance { mode: Mode::Light, ..Appearance::default() };
    assert_eq!(
        command(102, current, None),
        Request::Apply(Appearance { mode: Mode::Dark, ..current })
    );
    assert_eq!(
        command(112, current, None),
        Request::Apply(Appearance { mode: Mode::Custom, colors: EVERGREEN, ..current })
    );
    assert_eq!(command(124, current, None), Request::Choose(4));
    assert_eq!(command(130, current, None), Request::Apply(Appearance::default()));
    assert_eq!(command(131, current, Some(opening)), Request::Apply(opening));
    assert_eq!(command(131, current, None), Request::Nothing);
    assert_eq!(command(132, current, None), Request::Close);
    assert_eq!(command(2, current, None), Request::Close);
    assert_eq!(command(104, current, None), Request::Nothing);
}

#[test]
fn escape_closes_the_studio() {
    assert_eq!(translate(false, true, 27, true), Translation::PassOn);
    assert_eq!(translate(true, true, 27, true), Translation::Close);
    assert_eq!(translate(true, true, 27, false), Translation::Dialog);
    assert_eq!(translate(true, false, 27, true), Translation::Dialog);
    assert_eq!(translate(true, true, 9, true), Translation::Dialog);
}

#[test]
fn opening_the_studio_notes_the_appearance() {
    let mut original = None;
    let current = Appearance { mode: Mode::Dark, ..Appearance::default() };
    assert!(studio::open(&mut original, false, current));
    assert!(!studio::open(&mut original, true, Appearance::default()));
    assert_eq!(original, Some(current));
}

#[test]
fn a_colour_is_previewed_and_confirmed() {
    let mut picker = None;
    let current = Appearance::default();
    let chooser = choose_color(&mut picker, current, 1, true);
    assert_eq!(chooser.initial, 0xef_ece8);
    assert_eq!(chooser.custom.len(), 16);
    assert_eq!(chooser.custom[0], 0x23_1915);
    assert_eq!(chooser.custom[4], 0xed_f3f6);
    let some = |v: u32| Some(v);
    // Not ready yet.
    assert_eq!(preview_picked(&mut picker, some(1), some(2), some(3)), None);
    assert_eq!(picker_hook(&mut picker, PickerMessage::Init), (1, false));
    // The colour the dialog starts from is no change.
    assert_eq!(preview_picked(&mut picker, some(0xe8), some(0xec), some(0xef)), None);
    let changed = PickerMessage::Command { notification: 0x300, id: 707 };
    assert_eq!(picker_hook(&mut picker, changed), (0, true));
    let elsewhere = PickerMessage::Command { notification: 0x300, id: 709 };
    assert_eq!(picker_hook(&mut picker, elsewhere), (0, false));
    assert_eq!(preview_picked(&mut picker, some(1), None, some(3)), None);
    let preview = preview_picked(&mut picker, some(1), some(2), some(900)).unwrap();
    assert_eq!(preview.mode, Mode::Custom);
    assert_eq!(preview.colors, [0x1c1c1c, 0x01_02ff, 0xeaa082, 0xf5f5f5, 0x8ab4f8]);
    assert_eq!(preview_picked(&mut picker, some(1), some(2), some(255)), None);
    let confirmed = finish_choice(&mut picker, current, true, 0xff_0201);
    assert_eq!(confirmed, preview);
    assert!(picker.is_none());
}

#[test]
fn cancelling_leaves_the_appearance() {
    let mut state = Some(fresh());
    let current = studio::appearance(&state);
    let mut picker = None;
    choose_color(&mut picker, current, 0, true);
    picker_hook(&mut picker, PickerMessage::Init);
    let preview = preview_picked(&mut picker, Some(200), Some(200), Some(200)).unwrap();
    assert_eq!(preview_appearance(&mut state, preview, true), vec![Effect::Render]);
    assert!(!state.as_ref().unwrap().is_dark);
    let next = finish_choice(&mut picker, current, false, 0);
    assert_eq!(
        set_appearance(&mut state, next, true),
        vec![Effect::SaveSettings, Effect::Render]
    );
    let s = state.as_ref().unwrap();
    assert_eq!(s.appearance, current);
    assert!(s.is_dark);
    assert_eq!(studio::appearance(&None), Appearance::default());
}

#[test]
fn the_studio_is_laid_out_in_rows() {
    let list = buttons(&strings(), 96);
    let ids: Vec<u16> = list.iter().map(|b| b.id).collect();
    assert_eq!(
        ids,
        [100, 101, 102, 103, 110, 111, 112, 113, 120, 121, 122, 123, 124, 130, 131, 132]
    );
    assert_eq!(list[1].text, "Light");
    assert_eq!(list[1].rect, area(136, 120, 240, 184));
    assert_eq!(list[7].text, "Afterglow");
    let names: Vec<&str> = list[8..13].iter().map(|b| b.text.as_str()).collect();
    assert_eq!(names, ["Background", "Text", "first", "Codex", "Antigravity"]);
    assert_eq!(list[12].rect, area(384, 442, 464, 510));
    assert_eq!(list[15].text, "Done");
    assert_eq!(buttons(&strings(), 192)[15].rect, area(712, 1096, 928, 1160));
}

#[test]
fn the_studio_previews_the_palette() {
    let canvas = studio_view::paint(&Appearance::default(), true, &strings(), 96);
    let texts = texts_of(&canvas);
    assert_eq!(texts[..4], [
        "A little more you.",
        "Your usage. Your colors. No restart.",
        "01  /  CHOOSE YOUR MODE",
        "COLOR PREVIEW  /  sample usage",
    ]);
    assert_eq!(texts[4..10], ["FIRST", "32%", "resets in 3h 12m", "CODEX", "58%", "resets in 4d 8h"]);
    assert_eq!(texts.len(), 14);
    let bars: Vec<(Rect, &Tint)> = canvas
        .ops
        .iter()
        .filter_map(|op| match op {
            DrawOp::FillRounded { rect, color, .. } if rect.top == 292 => Some((*rect, color)),
            _ => None,
        })
        .collect();
    assert_eq!(bars[1], (area(40, 292, 102, 295), &solid(0xeaa082)));
    assert_eq!(bars[3], (area(254, 292, 366, 295), &solid(0xf5f5f5)));
}

#[test]
fn studio_buttons_show_what_is_in_force() {
    let a = Appearance { mode: Mode::Custom, ..Appearance::default() };
    let rect = area(10, 20, 114, 84);
    let item = |id: u16| ButtonItem { id, rect, focus: false, pressed: false };
    let edge = |canvas: &Canvas| match &canvas.ops[1] {
        DrawOp::FillRounded { color, diameter: 14, .. } => color.copy(),
        other => panic!("{other:?}"),
    };
    let custom = draw_button(item(103), &a, true, &strings(), 96);
    assert_eq!(texts_of(&custom), ["Custom", "✓"]);
    assert_eq!(edge(&custom), solid(0xa6b9ff));
    let light = draw_button(item(101), &a, true, &strings(), 96);
    assert_eq!(texts_of(&light), ["Light"]);
    assert_eq!(edge(&light), solid(0x343c4d));
    let midnight = draw_button(item(110), &a, true, &strings(), 96);
    assert_eq!(edge(&midnight), solid(0xa6b9ff));
    let porcelain = draw_button(item(111), &a, true, &strings(), 96);
    assert_eq!(edge(&porcelain), solid(0x343c4d));
    assert_eq!(texts_of(&porcelain), ["Porcelain"]);
    let text = draw_button(item(121), &a, true, &strings(), 96);
    assert_eq!(texts_of(&text), ["Text", "#E7EDF7"]);
    let done = draw_button(item(132), &a, true, &strings(), 96);
    assert_eq!(texts_of(&done), ["Done  →"]);
    let held = ButtonItem { id: 130, rect, focus: true, pressed: true };
    let held = draw_button(held, &a, true, &strings(), 96);
    assert_eq!(edge(&held), solid(0xa6b9ff));
    match held.ops.last().unwrap() {
        DrawOp::FocusRect(inner) => assert_eq!(*inner, area(14, 24, 110, 80)),
        other => panic!("{other:?}"),
    }
    // At the far edge of what coordinates can hold.
    let rect = area(i32::MAX - 133, i32::MAX - 33, i32::MAX - 1, i32::MAX - 1);
    let far = ButtonItem { id: 132, rect, focus: true, pressed: false };
    assert_eq!(texts_of(&draw_button(far, &a, true, &strings(), 96)), ["Done  →"]);
}
