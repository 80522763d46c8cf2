use stealthy_usage_monitor::measure::{Binary64, Tail};
use stealthy_usage_monitor::models::UsageSection;
use stealthy_usage_monitor::readout::{
    figure, has_reading, reset_label, tooltip_row, whole_percent, window_label,
};
use stealthy_usage_monitor::text::{decimal_text, hex6_text, join3, same_text, substitute};

fn number(value: f64) -> Binary64 {
    Binary64 { bits: value.to_bits() }
}

#[test]
fn unavailable_is_not_zero() {
    for reset in ["!", "...", "n/a", ""] {
        assert_eq!(figure(number(0.0), reset), "—");
    }
    assert_eq!(figure(number(0.0), "2h 0m"), "0%");
    assert_eq!(figure(number(42.0), "--"), "42%");
    assert_eq!(figure(number(f64::NAN), "--"), "—");
}

#[test]
fn percentages_are_bounded() {
    assert_eq!(figure(number(150.0), "now"), "100%");
    assert_eq!(figure(number(-1.0), "now"), "0%");
}

#[test]
fn window_length_comes_from_the_provider() {
    let mut section = UsageSection::default();
    for (minutes, expected) in [(15, "15m"), (300, "5h"), (10080, "7d")] {
        section.window_minutes = Some(minutes);
        assert_eq!(window_label(Some(&section), "Short"), expected);
    }
    assert_eq!(window_label(None, "Short"), "Short");
}

#[test]
fn a_window_of_no_length_keeps_its_fallback() {
    let mut section = UsageSection::default();
    assert_eq!(window_label(Some(&section), "7d"), "7d");
    section.window_minutes = Some(0);
    assert_eq!(window_label(Some(&section), "7d"), "7d");
}

/// A percentage as the standard formatter shows it.
fn formatted(value: f64) -> String {
    format!("{:.0}%", value.clamp(0.0, 100.0))
}

#[test]
fn figures_round_as_the_standard_formatter_does() {
    for quarter in -40..=440i32 {
        let value = quarter as f64 / 4.0;
        assert_eq!(figure(number(value), "1h"), formatted(value), "{value}");
        for neighbour in [value.to_bits().wrapping_add(1), value.to_bits().wrapping_sub(1)] {
            let value = f64::from_bits(neighbour);
            if value.is_finite() {
                assert_eq!(figure(number(value), "1h"), formatted(value), "{value:e}");
            }
        }
    }
    let mut seed: u64 = 0x9e37_79b9_7f4a_7c15;
    for _ in 0..200_000 {
        seed = seed.wrapping_mul(6364136223846793005).wrapping_add(1442695040888963407);
        let any = f64::from_bits(seed);
        if any.is_finite() {
            assert_eq!(figure(number(any), "1h"), formatted(any), "{any:e}");
        } else {
            assert_eq!(figure(number(any), "1h"), "—");
        }
        let near = (seed >> 11) as f64 / (1u64 << 53) as f64 * 110.0 - 5.0;
        assert_eq!(figure(number(near), "1h"), formatted(near), "{near:e}");
    }
    assert_eq!(figure(number(-0.0), "1h"), "-0%");
    assert_eq!(figure(number(f64::INFINITY), "1h"), "—");
}

#[test]
fn halves_go_to_the_even_neighbour() {
    assert_eq!(whole_percent(number(0.5)), 0);
    assert_eq!(whole_percent(number(1.5)), 2);
    assert_eq!(whole_percent(number(98.5)), 98);
    assert_eq!(whole_percent(number(99.5)), 100);
    assert_eq!(whole_percent(number(99.49)), 99);
}

#[test]
fn absent_readings_are_named() {
    assert_eq!(reset_label("!"), "Offline");
    assert_eq!(reset_label("..."), "Waiting");
    assert_eq!(reset_label(""), "Waiting");
    assert_eq!(reset_label("n/a"), "Not reported");
    assert_eq!(reset_label("--"), "Unknown");
    assert_eq!(reset_label("3h 12m"), "3h 12m");
    assert!(has_reading("--"));
    assert!(!has_reading("n/a"));
}

#[test]
fn tooltips_give_the_figure_and_the_reset() {
    assert_eq!(tooltip_row(number(41.6), "3h 12m"), "42% used · 3h 12m");
    assert_eq!(tooltip_row(number(41.6), "!"), "— used · Offline");
}

#[test]
fn numbers_compare_as_floating_point_does() {
    let mut seed: u64 = 0xd1b5_4a32_d192_ed03;
    for _ in 0..100_000 {
        seed = seed.wrapping_mul(6364136223846793005).wrapping_add(1442695040888963407);
        for value in [f64::from_bits(seed), (seed >> 12) as f64 / (1u64 << 44) as f64] {
            for k in [0u32, 7, 60, 70, 90, u32::MAX] {
                assert_eq!(number(value).is_at_least(k), value >= k as f64, "{value:e} {k}");
                assert_eq!(number(value).is_above(k), value > k as f64, "{value:e} {k}");
            }
            for limit in [0.0, 0.02, 0.5, 1e300] {
                assert_eq!(number(value).is_over(number(limit)), value > limit, "{value:e}");
            }
            assert_eq!(number(value).is_nan(), value.is_nan());
            assert_eq!(number(value).is_finite(), value.is_finite());
            assert_eq!(number(value).is_zero(), value == 0.0);
        }
    }
}

#[test]
fn numbers_split_at_the_point() {
    assert!(number(3.0).parts() == (3, Tail::Zero));
    assert!(number(3.25).parts() == (3, Tail::BelowHalf));
    assert!(number(3.5).parts() == (3, Tail::Half));
    assert!(number(3.75).parts() == (3, Tail::AboveHalf));
    assert!(number(f64::MIN_POSITIVE).parts() == (0, Tail::BelowHalf));
}

#[test]
fn texts_are_put_together() {
    for n in [0, 7, 10, 99, 100, 1440, u64::MAX] {
        assert_eq!(decimal_text(n), n.to_string());
    }
    for rgb in [0, 0xf, 0xab_cdef, 0x10_2030, 0xff_ffff] {
        assert_eq!(hex6_text(rgb), format!("{rgb:06X}"));
    }
    assert_eq!(join3("a", "", "b"), "ab");
    assert!(same_text("n/a", "n/a"));
    assert!(!same_text("n/a", "n/b"));
    assert!(!same_text("n/a", "n/"));
}

#[test]
fn marks_are_substituted_everywhere() {
    for template in ["", "Install v{version} now?", "{version}{version}", "{version", "{{version}}"]
    {
        assert_eq!(
            substitute(template, "{version}", "1.2.3"),
            template.replace("{version}", "1.2.3")
        );
    }
    assert_eq!(substitute("aaaa", "aa", "b"), "aaaa".replace("aa", "b"));
    assert_eq!(substitute("{version}", "{version}", "{version}"), "{version}");
}
