use serde_json::{from_str, Value};
use stealthy_usage_monitor::appearance::{
    preset_colors, preset_name, snap_widget_size, Appearance, Mode, MIDNIGHT, PORCELAIN,
    PRESET_COUNT,
};
use stealthy_usage_monitor::color::{bgr_to_rgb, color, rgb, Color};
use stealthy_usage_monitor::measure::Binary64;

fn number(value: f64) -> Binary64 {
    Binary64 { bits: value.to_bits() }
}

fn mode_text(mode: Mode) -> &'static str {
    match mode {
        Mode::Light => "light",
        Mode::Dark => "dark",
        Mode::Custom => "custom",
        Mode::System => "system",
    }
}

fn to_json(a: &Appearance) -> String {
    let mut object = serde_json::Map::new();
    object.insert("mode".to_string(), Value::from(mode_text(a.mode)));
    object.insert("colors".to_string(), Value::from(a.colors.to_vec()));
    object.insert("widget_size".to_string(), Value::from(a.widget_size));
    Value::Object(object).to_string()
}

fn from_json(text: &str) -> Appearance {
    let value: Value = from_str(text).unwrap();
    let mut a = Appearance::default();
    if let Some(mode) = value.get("mode") {
        a.mode = match mode.as_str().unwrap() {
            "light" => Mode::Light,
            "dark" => Mode::Dark,
            "custom" => Mode::Custom,
            _ => Mode::System,
        };
    }
    if let Some(colors) = value.get("colors") {
        for (slot, color) in a.colors.iter_mut().zip(colors.as_array().unwrap()) {
            *slot = color.as_u64().unwrap() as u32;
        }
    }
    if let Some(size) = value.get("widget_size") {
        a.widget_size = snap_widget_size(number(size.as_f64().unwrap()));
    }
    a
}

#[test]
fn explicit_themes_ignore_system_changes() {
    let mut a = Appearance::default();
    assert!(a.is_dark(true));
    assert!(!a.is_dark(false));
    a.mode = Mode::Light;
    assert!(!a.is_dark(true));
    a.mode = Mode::Dark;
    assert!(a.is_dark(false));
}

#[test]
fn custom_colors_survive_round_trip_and_determine_contrast() {
    for i in 0..PRESET_COUNT {
        let colors = preset_colors(i);
        let a = Appearance { mode: Mode::Custom, colors, ..Appearance::default() };
        let b = from_json(&to_json(&a));
        assert_eq!(a, b);
        assert_eq!(a.palette(false)[0].to_colorref(), color(colors[0]).to_colorref());
    }
    assert!(!Appearance { mode: Mode::Custom, colors: preset_colors(1), ..Appearance::default() }
        .is_dark(true));
}

#[test]
fn missing_preferences_default_safely() {
    assert_eq!(from_json("{}"), Appearance::default());
}

#[test]
fn widget_size_snaps_to_five_percent_steps_within_range() {
    assert_eq!(snap_widget_size(number(60.0)), 75);
    assert_eq!(snap_widget_size(number(203.0)), 200);
    assert_eq!(snap_widget_size(number(112.0)), 110);
    assert_eq!(snap_widget_size(number(113.0)), 115);
    assert_eq!(snap_widget_size(number(112.5)), 115);
    assert_eq!(snap_widget_size(number(125.0)), 125);
    assert_eq!(snap_widget_size(number(-40.0)), 75);
    assert_eq!(snap_widget_size(number(f64::NAN)), 100);
    let a = Appearance { widget_size: 999, ..Appearance::default() };
    assert_eq!(a.clamped_widget_size(), 200);
}

#[test]
fn widget_size_defaults_and_hand_edits_are_snapped_on_load() {
    let old = from_json(r#"{"mode":"dark","colors":[1,2,3,4,5]}"#);
    assert_eq!(old.widget_size, 100);
    let edited = from_json(r#"{"widget_size":-12}"#);
    assert_eq!(edited.widget_size, 75);
    let edited = from_json(r#"{"widget_size":187.4}"#);
    assert_eq!(edited.widget_size, 185);
    let a = Appearance { widget_size: 150, ..Appearance::default() };
    let b = from_json(&to_json(&a));
    assert_eq!(b.widget_size, 150);
}

/// The nearest 5% step as floating point computes it.
fn snapped_in_floating_point(value: f64) -> u32 {
    if value.is_nan() {
        return 100;
    }
    ((value / 5.0).round() * 5.0).clamp(75.0, 200.0) as u32
}

#[test]
fn snapping_agrees_with_floating_point() {
    let mut seed: u64 = 0x2545_f491_4f6c_dd1d;
    for _ in 0..200_000 {
        seed = seed.wrapping_mul(6364136223846793005).wrapping_add(1442695040888963407);
        let any = f64::from_bits(seed);
        assert_eq!(snap_widget_size(number(any)), snapped_in_floating_point(any), "{any:e}");
        let near = 60.0 + (seed >> 11) as f64 / (1u64 << 53) as f64 * 160.0;
        assert_eq!(snap_widget_size(number(near)), snapped_in_floating_point(near), "{near:e}");
    }
    for step in 0..2_000u64 {
        let half = step as f64 * 0.25;
        for value in [
            half,
            f64::from_bits(half.to_bits().wrapping_add(1)),
            f64::from_bits(half.to_bits().wrapping_sub(1)),
        ] {
            assert_eq!(
                snap_widget_size(number(value)),
                snapped_in_floating_point(value),
                "{value:e}"
            );
        }
    }
    for value in [f64::INFINITY, f64::NEG_INFINITY, -0.0, f64::MIN_POSITIVE, f64::MAX] {
        assert_eq!(snap_widget_size(number(value)), snapped_in_floating_point(value));
    }
}

#[test]
fn every_whole_percent_is_snapped_as_a_number_is() {
    for percent in 0..5_000u32 {
        let a = Appearance { widget_size: percent, ..Appearance::default() };
        assert_eq!(a.clamped_widget_size(), snap_widget_size(number(percent as f64)));
    }
    let a = Appearance { widget_size: u32::MAX, ..Appearance::default() };
    assert_eq!(a.clamped_widget_size(), 200);
}

#[test]
fn the_default_is_the_system_theme_over_midnight() {
    let a = Appearance::default();
    assert_eq!(a.mode, Mode::System);
    assert_eq!(a.colors, MIDNIGHT);
    assert_eq!(a.widget_size, 100);
}

#[test]
fn presets_are_named() {
    let names: Vec<&str> = (0..PRESET_COUNT).map(preset_name).collect();
    assert_eq!(names, ["Midnight", "Porcelain", "Evergreen", "Afterglow"]);
    assert_eq!(preset_colors(1), PORCELAIN);
    assert_eq!(preset_colors(3)[4], 0xf19abf);
}

#[test]
fn built_in_palettes_follow_the_theme() {
    let a = Appearance::default();
    assert_eq!(a.palette(true)[0], Color::new(0x1c, 0x1c, 0x1c));
    assert_eq!(a.palette(true)[4], Color::new(0x8a, 0xb4, 0xf8));
    assert_eq!(a.palette(false)[0], Color::new(0xf3, 0xf3, 0xf3));
    assert_eq!(a.palette(false)[2], Color::new(0x9a, 0x45, 0x2a));
}

#[test]
fn custom_contrast_turns_at_half_brightness() {
    let mut a = Appearance { mode: Mode::Custom, ..Appearance::default() };
    a.colors[0] = 0x7f7f7f;
    assert!(a.is_dark(false));
    a.colors[0] = 0x808080;
    assert!(!a.is_dark(true));
}

#[test]
fn colours_are_packed_both_ways() {
    assert_eq!(color(0x12_34_56), Color::new(0x12, 0x34, 0x56));
    assert_eq!(color(0xff12_3456), color(0x12_3456));
    assert_eq!(color(0x12_34_56).to_colorref(), 0x56_34_12);
    assert_eq!(rgb(Color::new(1, 2, 3)), 0x01_02_03);
    assert_eq!(bgr_to_rgb(0x56_34_12), 0x12_34_56);
    assert_eq!(bgr_to_rgb(0xff56_3412), 0x12_34_56);
}
