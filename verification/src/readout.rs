//! Presentation rules shared by the compact widget and tray tooltips.
use crate::measure::{one, tail_of, Binary64, Tail};
use crate::models::UsageSection;
use crate::text::{decimal, decimal_text, join3, same_text};
use vstd::arithmetic::power2::lemma_pow2_pos;
use vstd::prelude::*;
use vstd::string::*;

verus! {

/// A countdown text that stands for a reading, not for its absence.
pub open spec fn reads(reset: Seq<char>) -> bool {
    &&& reset != "!"@
    &&& reset != "..."@
    &&& reset != "n/a"@
    &&& reset != ""@
}

/// The whole number nearest to `units / one()`, an exact half going to the
/// even neighbour.
pub open spec fn nearest_whole(units: nat) -> nat {
    let whole = units / one();
    match tail_of(units) {
        Tail::Zero => whole,
        Tail::BelowHalf => whole,
        Tail::Half => if whole % 2 == 0 {
            whole
        } else {
            whole + 1
        },
        Tail::AboveHalf => whole + 1,
    }
}

/// The percentage as shown: clamped to 0..=100 and rounded to a whole number.
pub open spec fn shown_percent(percent: Binary64) -> nat {
    if percent.negative() {
        0
    } else if percent.units() >= 100 * one() {
        100
    } else {
        nearest_whole(percent.units())
    }
}

/// The figure for a percentage: a whole percentage, or a dash where there is
/// no reading. Zero with a minus sign keeps its sign.
pub open spec fn figure_text(percent: Binary64, reset: Seq<char>) -> Seq<char> {
    if !reads(reset) || !percent.finite() {
        "—"@
    } else if percent.negative() && percent.zero() {
        "-0%"@
    } else {
        decimal(shown_percent(percent)) + "%"@
    }
}

/// What a countdown text is called on screen.
pub open spec fn label_text(reset: Seq<char>) -> Seq<char> {
    if reset == "!"@ {
        "Offline"@
    } else if reset == "..."@ || reset == ""@ {
        "Waiting"@
    } else if reset == "n/a"@ {
        "Not reported"@
    } else if reset == "--"@ {
        "Unknown"@
    } else {
        reset
    }
}

/// A window length in the largest unit that divides it.
pub open spec fn window_text(minutes: u64) -> Seq<char> {
    if minutes % 1440 == 0 {
        decimal((minutes / 1440) as nat) + "d"@
    } else if minutes % 60 == 0 {
        decimal((minutes / 60) as nat) + "h"@
    } else {
        decimal(minutes as nat) + "m"@
    }
}

pub open spec fn section_label(section: Option<&UsageSection>, fallback: Seq<char>) -> Seq<char> {
    match section {
        Some(s) => match s.window_minutes {
            Some(m) => if m > 0 {
                window_text(m)
            } else {
                fallback
            },
            None => fallback,
        },
        None => fallback,
    }
}

/// One provider window as a tooltip states it.
pub open spec fn tooltip_text(percent: Binary64, reset: Seq<char>) -> Seq<char> {
    figure_text(percent, reset) + " used · "@ + label_text(reset)
}

pub fn has_reading(reset: &str) -> (reading: bool)
    ensures
        reading == reads(reset@),
{
    !(same_text(reset, "!") || same_text(reset, "...") || same_text(reset, "n/a") || same_text(
        reset,
        "",
    ))
}

/// The percentage rounded to a whole number within 0..=100.
pub fn whole_percent(percent: Binary64) -> (shown: u64)
    requires
        percent.finite(),
    ensures
        shown == shown_percent(percent),
        shown <= 100,
{
    proof {
        lemma_shown_percent(percent);
    }
    if percent.is_negative() {
        return 0;
    }
    if percent.is_at_least(100) {
        return 100;
    }
    let (whole, tail) = percent.parts();
    match tail {
        Tail::Zero => whole,
        Tail::BelowHalf => whole,
        Tail::Half => if whole % 2 == 0 {
            whole
        } else {
            whole + 1
        },
        Tail::AboveHalf => whole + 1,
    }
}

proof fn lemma_shown_percent(percent: Binary64)
    ensures
        shown_percent(percent) <= 100,
        percent.units() < 100 * one() ==> percent.units() / one() < 100,
{
    lemma_pow2_pos(1074);
    let d = one();
    let u = percent.units();
    assert(u < 100 * d ==> u / d < 100) by (nonlinear_arith)
        requires
            d > 0,
    ;
}

pub fn figure(percent: Binary64, reset: &str) -> (text: String)
    ensures
        text@ == figure_text(percent, reset@),
{
    if !has_reading(reset) || !percent.is_finite() {
        return "—".to_owned();
    }
    if percent.is_negative() && percent.is_zero() {
        return "-0%".to_owned();
    }
    decimal_text(whole_percent(percent)).concat("%")
}

pub fn reset_label<'a>(reset: &'a str) -> (label: &'a str)
    ensures
        label@ == label_text(reset@),
{
    if same_text(reset, "!") {
        "Offline"
    } else if same_text(reset, "...") || same_text(reset, "") {
        "Waiting"
    } else if same_text(reset, "n/a") {
        "Not reported"
    } else if same_text(reset, "--") {
        "Unknown"
    } else {
        reset
    }
}

pub fn window_label(section: Option<&UsageSection>, fallback: &str) -> (label: String)
    ensures
        label@ == section_label(section, fallback@),
{
    let minutes: Option<u64> = match section {
        Some(s) => s.window_minutes,
        None => None,
    };
    match minutes {
        Some(m) => {
            if m == 0 {
                fallback.to_owned()
            } else if m % 1440 == 0 {
                decimal_text(m / 1440).concat("d")
            } else if m % 60 == 0 {
                decimal_text(m / 60).concat("h")
            } else {
                decimal_text(m).concat("m")
            }
        },
        None => fallback.to_owned(),
    }
}

pub fn tooltip_row(percent: Binary64, reset: &str) -> (row: String)
    ensures
        row@ == tooltip_text(percent, reset@),
{
    join3(figure(percent, reset).as_str(), " used · ", reset_label(reset))
}

/// Unavailable data is never shown as a percentage: without a reading, or for
/// a percentage that is no number, the figure is a dash and nothing else.
pub proof fn law_unavailable_is_not_zero(percent: Binary64, reset: Seq<char>)
    ensures
        figure_text(percent, reset) == "—"@ <==> !reads(reset) || !percent.finite(),
        figure_text(percent, reset) != "—"@ <==> figure_text(percent, reset).last() == '%',
{
    reveal_strlit("—");
    reveal_strlit("%");
    reveal_strlit("-0%");
    assert("—"@.last() != '%');
    assert("-0%"@.last() == '%');
    assert((decimal(shown_percent(percent)) + "%"@).last() == '%');
}

/// A percentage with a reading is shown as a whole number from 0 to 100.
pub proof fn law_percentages_are_bounded(percent: Binary64, reset: Seq<char>)
    requires
        reads(reset),
        percent.finite(),
        !(percent.negative() && percent.zero()),
    ensures
        shown_percent(percent) <= 100,
        figure_text(percent, reset) == decimal(shown_percent(percent)) + "%"@,
        percent.negative() ==> shown_percent(percent) == 0,
        percent.at_least(100) ==> shown_percent(percent) == 100,
{
    lemma_shown_percent(percent);
    lemma_pow2_pos(1074);
}

/// The four texts that stand for no reading have labels of their own, and an
/// unknown reset time is not one of them.
pub proof fn law_absence_is_named()
    ensures
        label_text("!"@) == "Offline"@,
        label_text("..."@) == "Waiting"@,
        label_text(""@) == "Waiting"@,
        label_text("n/a"@) == "Not reported"@,
        label_text("--"@) == "Unknown"@,
        !reads("!"@) && !reads("..."@) && !reads("n/a"@) && !reads(""@),
        reads("--"@),
{
    reveal_strlit("!");
    reveal_strlit("...");
    reveal_strlit("");
    reveal_strlit("n/a");
    reveal_strlit("--");
    assert("!"@.len() == 1 && "..."@.len() == 3 && ""@.len() == 0 && "n/a"@.len() == 3
        && "--"@.len() == 2);
    assert("..."@[0] != "n/a"@[0]);
}

/// The shown number is the nearest whole percentage: no further than half a
/// point from the reading where that is within 0 and 100, and the even
/// neighbour of an exact half.
pub proof fn law_figures_are_rounded_to_the_nearest(percent: Binary64)
    requires
        percent.finite(),
        !percent.negative(),
        percent.units() <= 100 * one(),
    ensures
        -(one() as int) <= 2 * (shown_percent(percent) * one() - percent.units()) <= one(),
        2 * (shown_percent(percent) * one() - percent.units()) == one() || 2 * (percent.units()
            - shown_percent(percent) * one()) == one() ==> shown_percent(percent) % 2 == 0,
{
    lemma_pow2_pos(1074);
    let d = one() as int;
    let u = percent.units() as int;
    if u < 100 * d {
        let q = u / d;
        let r = u % d;
        vstd::arithmetic::div_mod::lemma_fundamental_div_mod(u, d);
        assert(q * d == u - r) by (nonlinear_arith)
            requires
                u == d * q + r,
        ;
        assert((q + 1) * d == u - r + d) by (nonlinear_arith)
            requires
                u == d * q + r,
        ;
    }
}

/// The countdown decides whether there is a figure, and not what it is.
pub proof fn law_figures_depend_on_the_reading(percent: Binary64, a: Seq<char>, b: Seq<char>)
    requires
        reads(a),
        reads(b),
    ensures
        figure_text(percent, a) == figure_text(percent, b),
{
}

/// A countdown that stands for a reading is its own label, unless the reset
/// time is unknown.
pub proof fn law_countdowns_are_their_own_labels(reset: Seq<char>)
    requires
        reads(reset),
        reset != "--"@,
    ensures
        label_text(reset) == reset,
{
}

/// A tooltip row gives the figure, then the label.
pub proof fn law_tooltip_rows_give_use_and_reset(percent: Binary64, reset: Seq<char>)
    ensures
        ({
            let row = tooltip_text(percent, reset);
            let figure = figure_text(percent, reset);
            &&& figure.is_prefix_of(row)
            &&& row.skip(figure.len() as int) == " used · "@ + label_text(reset)
        }),
{
    let figure = figure_text(percent, reset);
    let row = tooltip_text(percent, reset);
    assert(row =~= figure + (" used · "@ + label_text(reset)));
    assert(row.skip(figure.len() as int) =~= " used · "@ + label_text(reset));
    assert(figure =~= row.take(figure.len() as int));
}

/// A reported window is named by its length: whole days in days, whole hours in
/// hours, anything else in minutes. One without a length keeps the fallback.
pub proof fn law_windows_are_named_by_their_length(s: UsageSection, n: u64, fallback: Seq<char>)
    ensures
        s.window_minutes is None || s.window_minutes == Some(0u64) ==> section_label(
            Some(&s),
            fallback,
        ) == fallback,
        section_label(None, fallback) == fallback,
        n > 0 && s.window_minutes is Some && s.window_minutes->0 == n * 1440 ==> section_label(
            Some(&s),
            fallback,
        ) == decimal(n as nat) + "d"@,
        n > 0 && n % 24 != 0 && s.window_minutes is Some && s.window_minutes->0 == n * 60
            ==> section_label(Some(&s), fallback) == decimal(n as nat) + "h"@,
        n % 60 != 0 && s.window_minutes == Some(n) ==> section_label(Some(&s), fallback)
            == decimal(n as nat) + "m"@,
{
}

} // verus!
