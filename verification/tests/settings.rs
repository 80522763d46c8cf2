use serde_json::{from_str, Value};
use stealthy_usage_monitor::appearance::{snap_widget_size, Appearance, Mode};
use stealthy_usage_monitor::measure::Binary64;
use stealthy_usage_monitor::settings::{
    default_click_through, default_embed_in_taskbar, default_poll_interval,
    default_show_antigravity, default_show_claude_code, default_show_codex,
    default_widget_visible, load_settings, migrate_desktop_settings, select_codex_only,
    start_settings, SettingsFile, Stored,
};
use stealthy_usage_monitor::state::{AppState, InstallChannel};

fn flag(value: &Value, key: &str, fallback: bool) -> bool {
    value.get(key).map_or(fallback, |v| v.as_bool().unwrap())
}

fn appearance_from_json(value: &Value) -> Appearance {
    let mut a = Appearance::default();
    if let Some(mode) = value.get("mode") {
        a.mode = match mode.as_str().unwrap() {
            "light" => Mode::Light,
            "dark" => Mode::Dark,
            "custom" => Mode::Custom,
            _ => Mode::System,
        };
    }
    if let Some(colors) = value.get("colors") {
        for (slot, color) in a.colors.iter_mut().zip(colors.as_array().unwrap()) {
            *slot = color.as_u64().unwrap() as u32;
        }
    }
    if let Some(size) = value.get("widget_size") {
        a.widget_size = snap_widget_size(Binary64 { bits: size.as_f64().unwrap().to_bits() });
    }
    a
}

fn from_json(text: &str) -> SettingsFile {
    let value: Value = from_str(text).unwrap();
    SettingsFile {
        appearance: value.get("appearance").map_or(Appearance::default(), appearance_from_json),
        floating_position: value.get("floating_position").and_then(|v| v.as_array()).map(|v| {
            (v[0].as_i64().unwrap() as i32, v[1].as_i64().unwrap() as i32)
        }),
        desktop_layout_version: value
            .get("desktop_layout_version")
            .map_or(0, |v| v.as_u64().unwrap() as u32),
        tray_offset: value.get("tray_offset").map_or(0, |v| v.as_i64().unwrap() as i32),
        taskbar_index: value.get("taskbar_index").map_or(0, |v| v.as_u64().unwrap() as usize),
        poll_interval_ms: value
            .get("poll_interval_ms")
            .map_or(default_poll_interval(), |v| v.as_u64().unwrap() as u32),
        last_update_check_unix: value.get("last_update_check_unix").and_then(|v| v.as_u64()),
        widget_visible: flag(&value, "widget_visible", default_widget_visible()),
        show_claude_code: flag(&value, "show_claude_code", default_show_claude_code()),
        show_codex: flag(&value, "show_codex", default_show_codex()),
        show_antigravity: flag(&value, "show_antigravity", default_show_antigravity()),
        embed_in_taskbar: flag(&value, "embed_in_taskbar", default_embed_in_taskbar()),
        click_through: flag(&value, "click_through", default_click_through()),
    }
}

fn to_json(s: &SettingsFile) -> String {
    let mut look = serde_json::Map::new();
    let mode = match s.appearance.mode {
        Mode::Light => "light",
        Mode::Dark => "dark",
        Mode::Custom => "custom",
        Mode::System => "system",
    };
    look.insert("mode".to_string(), Value::from(mode));
    look.insert("colors".to_string(), Value::from(s.appearance.colors.to_vec()));
    look.insert("widget_size".to_string(), Value::from(s.appearance.widget_size));
    let position = match s.floating_position {
        Some((x, y)) => Value::from(vec![x, y]),
        None => Value::Null,
    };
    let mut object = serde_json::Map::new();
    object.insert("appearance".to_string(), Value::Object(look));
    object.insert("floating_position".to_string(), position);
    object.insert("desktop_layout_version".to_string(), Value::from(s.desktop_layout_version));
    object.insert("tray_offset".to_string(), Value::from(s.tray_offset));
    object.insert("taskbar_index".to_string(), Value::from(s.taskbar_index as u64));
    object.insert("poll_interval_ms".to_string(), Value::from(s.poll_interval_ms));
    if let Some(at) = s.last_update_check_unix {
        object.insert("last_update_check_unix".to_string(), Value::from(at));
    }
    object.insert("widget_visible".to_string(), Value::from(s.widget_visible));
    object.insert("show_claude_code".to_string(), Value::from(s.show_claude_code));
    object.insert("show_codex".to_string(), Value::from(s.show_codex));
    object.insert("show_antigravity".to_string(), Value::from(s.show_antigravity));
    object.insert("embed_in_taskbar".to_string(), Value::from(s.embed_in_taskbar));
    object.insert("click_through".to_string(), Value::from(s.click_through));
    Value::Object(object).to_string()
}

#[test]
fn old_settings_migrate_without_losing_provider_choices() {
    let mut settings = from_json(
        r#"{"embed_in_taskbar":true,"click_through":true,"show_claude_code":false,"show_codex":true}"#,
    );
    migrate_desktop_settings(&mut settings);
    assert!(!settings.embed_in_taskbar && !settings.click_through);
    assert!(!settings.show_claude_code && settings.show_codex);
    settings.floating_position = Some((-800, 240));
    let saved = to_json(&settings);
    let restored = from_json(&saved);
    assert_eq!(restored.floating_position, Some((-800, 240)));
    assert_eq!(restored.desktop_layout_version, 1);
}

#[test]
fn old_settings_with_a_language_key_still_load_and_drop_it_on_save() {
    let settings = from_json(r#"{"poll_interval_ms":60000,"language":"de","show_codex":false}"#);
    assert_eq!(settings.poll_interval_ms, 60000);
    assert!(!settings.show_codex);
    let saved = to_json(&settings);
    assert!(!saved.contains("language"));
}

#[test]
fn fresh_installs_show_two_providers_in_a_floating_widget() {
    let s = load_settings(Stored::Missing);
    assert_eq!(s, SettingsFile::default());
    assert_eq!(s, load_settings(Stored::Malformed));
    assert!(s.show_claude_code && s.show_codex && !s.show_antigravity);
    assert!(s.widget_visible && !s.embed_in_taskbar && !s.click_through);
    assert_eq!(s.poll_interval_ms, 900_000);
    assert_eq!(s.desktop_layout_version, 1);
    assert_eq!(s.floating_position, None);
}

#[test]
fn loading_always_leaves_a_provider() {
    let hidden = SettingsFile {
        show_claude_code: false,
        show_codex: false,
        show_antigravity: false,
        ..SettingsFile::default()
    };
    let s = load_settings(Stored::Parsed(hidden));
    assert!(s.show_claude_code && !s.show_codex && !s.show_antigravity);
    assert_eq!(load_settings(Stored::Parsed(s)), s);
}

#[test]
fn current_settings_are_not_migrated_again() {
    let embedded = SettingsFile {
        embed_in_taskbar: true,
        click_through: true,
        ..SettingsFile::default()
    };
    assert_eq!(load_settings(Stored::Parsed(embedded)), embedded);
    let old = SettingsFile { desktop_layout_version: 0, ..embedded };
    let s = load_settings(Stored::Parsed(old));
    assert!(!s.embed_in_taskbar && !s.click_through);
    assert_eq!(s.desktop_layout_version, 1);
}

#[test]
fn codex_can_be_selected_alone() {
    let mut s = SettingsFile { show_antigravity: true, ..SettingsFile::default() };
    select_codex_only(&mut s);
    assert!(!s.show_claude_code && s.show_codex && !s.show_antigravity);
    assert_eq!(start_settings(true, SettingsFile { show_codex: false, ..s }), s);
    let both = SettingsFile::default();
    assert_eq!(start_settings(false, both), both);
}

#[test]
fn what_a_launch_starts_with_is_what_it_saves() {
    let s = SettingsFile {
        appearance: Appearance { mode: Mode::Dark, ..Appearance::default() },
        floating_position: Some((-5, 7)),
        desktop_layout_version: 1,
        tray_offset: 12,
        taskbar_index: 3,
        poll_interval_ms: 60_000,
        last_update_check_unix: Some(99),
        widget_visible: false,
        show_claude_code: false,
        show_codex: true,
        show_antigravity: true,
        embed_in_taskbar: true,
        click_through: true,
    };
    let state = AppState::start(s, false, InstallChannel::Portable);
    assert!(state.is_dark && !state.embedded && !state.attached);
    assert_eq!(state.claude.weekly.text, "...");
    assert_eq!(state.settings(), s);
    assert_eq!(from_json(&to_json(&s)), s);
}
