//! What the tray icons show.
use crate::appearance::Appearance;
use crate::measure::Binary64;
use crate::polling::fable_of;
use crate::readout::{
    figure_text, has_reading, label_text, reads, tooltip_row, tooltip_text,
};
use crate::state::{model_of, with_appearance, Model, Provider, State};
use crate::strings::Strings;
use vstd::prelude::*;
use vstd::string::*;

verus! {

/// One tray icon: its provider, the badge's percentage, and the tooltip.
#[verifier::ext_equal]
#[derive(Debug)]
pub struct TrayIcon<T> {
    pub kind: Provider,
    pub percent: Option<Binary64>,
    pub tooltip: T,
}

impl View for TrayIcon<String> {
    type V = TrayIcon<Seq<char>>;

    open spec fn view(&self) -> TrayIcon<Seq<char>> {
        TrayIcon { kind: self.kind, percent: self.percent, tooltip: self.tooltip@ }
    }
}

/// The icons with their tooltips as characters.
pub open spec fn listed(icons: Seq<TrayIcon<String>>) -> Seq<TrayIcon<Seq<char>>> {
    icons.map_values(|i: TrayIcon<String>| i@)
}

/// A badge is shown only where there is a reading.
pub open spec fn badge(percent: Binary64, reset: Seq<char>) -> Option<Binary64> {
    if reads(reset) {
        Some(percent)
    } else {
        None
    }
}

pub open spec fn claude_tooltip(m: Model, strings: Strings, fable: Seq<char>) -> Seq<char> {
    strings.claude_code_model@ + " 5h: "@ + tooltip_text(
        m.claude.session.percent,
        m.claude.session.text,
    ) + " | 7d: "@ + tooltip_text(m.claude.weekly.percent, m.claude.weekly.text) + " | Fable: "@
        + tooltip_text(fable_of(m, fable).percent, fable_of(m, fable).text)
}

pub open spec fn codex_tooltip(m: Model, strings: Strings) -> Seq<char> {
    strings.codex_model@ + " 7d: "@ + tooltip_text(m.codex.weekly.percent, m.codex.weekly.text)
}

pub open spec fn antigravity_tooltip(m: Model, strings: Strings) -> Seq<char> {
    strings.antigravity_model@ + " Quota: "@ + tooltip_text(
        m.antigravity.session.percent,
        m.antigravity.session.text,
    ) + " | Extra: "@ + tooltip_text(m.antigravity.weekly.percent, m.antigravity.weekly.text)
}

/// The icon of a provider, while the last poll was good and while it was not.
pub open spec fn icon(m: Model, kind: Provider, strings: Strings, fable: Seq<char>) -> TrayIcon<
    Seq<char>,
> {
    if m.polling.last_ok {
        match kind {
            Provider::Claude => TrayIcon {
                kind,
                percent: badge(m.claude.session.percent, m.claude.session.text),
                tooltip: claude_tooltip(m, strings, fable),
            },
            Provider::Codex => TrayIcon {
                kind,
                percent: badge(m.codex.weekly.percent, m.codex.weekly.text),
                tooltip: codex_tooltip(m, strings),
            },
            Provider::Antigravity => TrayIcon {
                kind,
                percent: badge(m.antigravity.session.percent, m.antigravity.session.text),
                tooltip: antigravity_tooltip(m, strings),
            },
        }
    } else {
        TrayIcon {
            kind,
            percent: None,
            tooltip: match kind {
                Provider::Claude => strings.window_title@,
                Provider::Codex => strings.codex_window_title@,
                Provider::Antigravity => strings.antigravity_window_title@,
            },
        }
    }
}

pub open spec fn icon_if(shown: bool, i: TrayIcon<Seq<char>>) -> Seq<TrayIcon<Seq<char>>> {
    if shown {
        seq![i]
    } else {
        Seq::empty()
    }
}

/// One icon per shown provider, in card order.
pub open spec fn tray_icons(m: Option<Model>, strings: Strings, fable: Seq<char>) -> Seq<
    TrayIcon<Seq<char>>,
> {
    match m {
        None => Seq::empty(),
        Some(s) => icon_if(s.claude.shown, icon(s, Provider::Claude, strings, fable)) + icon_if(
            s.codex.shown,
            icon(s, Provider::Codex, strings, fable),
        ) + icon_if(s.antigravity.shown, icon(s, Provider::Antigravity, strings, fable)),
    }
}

fn badge_of(percent: Binary64, reset: &str) -> (b: Option<Binary64>)
    ensures
        b == badge(percent, reset@),
{
    if has_reading(reset) {
        Some(percent)
    } else {
        None
    }
}

fn claude_icon(s: &State, strings: &Strings, fable: &str) -> (i: TrayIcon<String>)
    requires
        s@.polling.last_ok,
    ensures
        i@ == icon(s@, Provider::Claude, *strings, fable@),
{
    let session = tooltip_row(s.claude.session.percent, s.claude.session.text.as_str());
    let weekly = tooltip_row(s.claude.weekly.percent, s.claude.weekly.text.as_str());
    let row = s.fable_readout(fable);
    let model = tooltip_row(row.percent, row.text.as_str());
    let tooltip = strings.claude_code_model.to_owned()
        .concat(" 5h: ")
        .concat(session.as_str())
        .concat(" | 7d: ")
        .concat(weekly.as_str())
        .concat(" | Fable: ")
        .concat(model.as_str());
    TrayIcon {
        kind: Provider::Claude,
        percent: badge_of(s.claude.session.percent, s.claude.session.text.as_str()),
        tooltip,
    }
}

fn codex_icon(s: &State, strings: &Strings, fable: Ghost<Seq<char>>) -> (i: TrayIcon<String>)
    requires
        s@.polling.last_ok,
    ensures
        i@ == icon(s@, Provider::Codex, *strings, fable@),
{
    let weekly = tooltip_row(s.codex.weekly.percent, s.codex.weekly.text.as_str());
    TrayIcon {
        kind: Provider::Codex,
        percent: badge_of(s.codex.weekly.percent, s.codex.weekly.text.as_str()),
        tooltip: strings.codex_model.to_owned().concat(" 7d: ").concat(weekly.as_str()),
    }
}

fn antigravity_icon(s: &State, strings: &Strings, fable: Ghost<Seq<char>>) -> (i: TrayIcon<String>)
    requires
        s@.polling.last_ok,
    ensures
        i@ == icon(s@, Provider::Antigravity, *strings, fable@),
{
    let session = tooltip_row(s.antigravity.session.percent, s.antigravity.session.text.as_str());
    let weekly = tooltip_row(s.antigravity.weekly.percent, s.antigravity.weekly.text.as_str());
    TrayIcon {
        kind: Provider::Antigravity,
        percent: badge_of(s.antigravity.session.percent, s.antigravity.session.text.as_str()),
        tooltip: strings.antigravity_model.to_owned()
            .concat(" Quota: ")
            .concat(session.as_str())
            .concat(" | Extra: ")
            .concat(weekly.as_str()),
    }
}

fn idle_icon(s: &State, kind: Provider, strings: &Strings, fable: Ghost<Seq<char>>) -> (i: TrayIcon<
    String,
>)
    requires
        !s@.polling.last_ok,
    ensures
        i@ == icon(s@, kind, *strings, fable@),
{
    let tooltip = match kind {
        Provider::Claude => strings.window_title.to_owned(),
        Provider::Codex => strings.codex_window_title.to_owned(),
        Provider::Antigravity => strings.antigravity_window_title.to_owned(),
    };
    TrayIcon { kind, percent: None, tooltip }
}

fn add(icons: &mut Vec<TrayIcon<String>>, i: TrayIcon<String>)
    ensures
        listed(final(icons)@) == listed(old(icons)@).push(i@),
{
    icons.push(i);
    assert(listed(icons@) =~= listed(old(icons)@).push(i@));
}

/// The tray icons of the current state; `fable` is the formatted countdown of
/// the Fable window.
pub fn tray_icon_data_from_state(state: &Option<State>, strings: &Strings, fable: &str) -> (icons:
    Vec<TrayIcon<String>>)
    ensures
        listed(icons@) == tray_icons(model_of(*state), *strings, fable@),
{
    let mut icons: Vec<TrayIcon<String>> = Vec::new();
    assert(listed(icons@) =~= Seq::empty());
    match state {
        None => {},
        Some(s) => {
            let ok: bool = s.polling.last_ok;
            let g = Ghost(fable@);
            if s.claude.shown {
                let i = if ok {
                    claude_icon(s, strings, fable)
                } else {
                    idle_icon(s, Provider::Claude, strings, g)
                };
                self::add(&mut icons, i);
            }
            if s.codex.shown {
                let i = if ok {
                    codex_icon(s, strings, g)
                } else {
                    idle_icon(s, Provider::Codex, strings, g)
                };
                self::add(&mut icons, i);
            }
            if s.antigravity.shown {
                let i = if ok {
                    antigravity_icon(s, strings, g)
                } else {
                    idle_icon(s, Provider::Antigravity, strings, g)
                };
                self::add(&mut icons, i);
            }
            assert(listed(icons@) =~= tray_icons(model_of(*state), *strings, fable@));
        },
    }
    icons
}

/// No badge is shown for a provider without a reading, nor after a failed
/// poll; Codex is badged by its weekly use.
pub proof fn law_badges_need_a_reading(m: Model, kind: Provider, strings: Strings, fable: Seq<char>)
    ensures
        icon(m, kind, strings, fable).kind == kind,
        !m.polling.last_ok ==> icon(m, kind, strings, fable).percent is None,
        m.polling.last_ok ==> icon(m, Provider::Codex, strings, fable).percent == badge(
            m.codex.weekly.percent,
            m.codex.weekly.text,
        ),
        icon(m, Provider::Claude, strings, fable).percent is Some ==> reads(m.claude.session.text),
        icon(m, Provider::Codex, strings, fable).percent is Some ==> reads(m.codex.weekly.text),
        icon(m, Provider::Antigravity, strings, fable).percent is Some ==> reads(
            m.antigravity.session.text,
        ),
{
}

/// There is exactly one icon for each shown provider.
pub proof fn law_one_icon_per_shown_provider(m: Model, strings: Strings, fable: Seq<char>)
    ensures
        tray_icons(Some(m), strings, fable).len() == (if m.claude.shown {
            1int
        } else {
            0
        }) + (if m.codex.shown {
            1int
        } else {
            0
        }) + (if m.antigravity.shown {
            1int
        } else {
            0
        }),
{
}

/// The appearance of the widget does not reach the icons.
pub proof fn law_icons_ignore_the_appearance(
    m: Model,
    value: Appearance,
    system_dark: bool,
    strings: Strings,
    fable: Seq<char>,
)
    ensures
        tray_icons(Some(with_appearance(m, value, system_dark)), strings, fable) == tray_icons(
            Some(m),
            strings,
            fable,
        ),
{
    let other = with_appearance(m, value, system_dark);
    assert(fable_of(other, fable) == fable_of(m, fable));
    assert(icon(other, Provider::Claude, strings, fable) == icon(m, Provider::Claude, strings, fable));
    assert(icon(other, Provider::Codex, strings, fable) == icon(m, Provider::Codex, strings, fable));
    assert(icon(other, Provider::Antigravity, strings, fable) == icon(
        m,
        Provider::Antigravity,
        strings,
        fable,
    ));
}

/// `text` ends with `end`.
pub open spec fn ends_with(text: Seq<char>, end: Seq<char>) -> bool {
    text.len() >= end.len() && text.skip(text.len() - end.len()) == end
}

/// What a tooltip says of one window.
pub open spec fn use_and_reset(percent: Binary64, reset: Seq<char>) -> Seq<char> {
    figure_text(percent, reset) + " used · "@ + label_text(reset)
}

/// Each part of a tooltip states its own window's use and reset: the first one
/// opens the tooltip and the later ones close it, whatever the windows before
/// them hold. So states that differ in one window differ in that part alone.
pub proof fn law_tooltips_state_each_window(m: Model, strings: Strings, fable: Seq<char>)
    requires
        m.polling.last_ok,
    ensures
        ({
            let row = fable_of(m, fable);
            let t = icon(m, Provider::Claude, strings, fable).tooltip;
            let first = strings.claude_code_model@ + " 5h: "@ + use_and_reset(
                m.claude.session.percent,
                m.claude.session.text,
            );
            let last = " | Fable: "@ + use_and_reset(row.percent, row.text);
            let middle = " | 7d: "@ + use_and_reset(
                m.claude.weekly.percent,
                m.claude.weekly.text,
            );
            &&& first.is_prefix_of(t)
            &&& ends_with(t, last)
            &&& ends_with(t, middle + last)
            &&& t.len() == first.len() + middle.len() + last.len()
        }),
        ({
            let t = icon(m, Provider::Codex, strings, fable).tooltip;
            let only = " 7d: "@ + use_and_reset(m.codex.weekly.percent, m.codex.weekly.text);
            &&& strings.codex_model@.is_prefix_of(t)
            &&& ends_with(t, only)
            &&& t.len() == strings.codex_model@.len() + only.len()
        }),
        ({
            let t = icon(m, Provider::Antigravity, strings, fable).tooltip;
            let first = strings.antigravity_model@ + " Quota: "@ + use_and_reset(
                m.antigravity.session.percent,
                m.antigravity.session.text,
            );
            let last = " | Extra: "@ + use_and_reset(
                m.antigravity.weekly.percent,
                m.antigravity.weekly.text,
            );
            &&& first.is_prefix_of(t)
            &&& ends_with(t, last)
            &&& t.len() == first.len() + last.len()
        }),
{
    let row = fable_of(m, fable);
    let t = icon(m, Provider::Claude, strings, fable).tooltip;
    let first = strings.claude_code_model@ + " 5h: "@ + use_and_reset(
        m.claude.session.percent,
        m.claude.session.text,
    );
    let middle = " | 7d: "@ + use_and_reset(m.claude.weekly.percent, m.claude.weekly.text);
    let last = " | Fable: "@ + use_and_reset(row.percent, row.text);
    assert(t =~= first + middle + last);
    assert(t.skip(t.len() - last.len()) =~= last);
    assert(t.skip(t.len() - (middle + last).len()) =~= middle + last);
    assert(first =~= t.take(first.len() as int));
    let c = icon(m, Provider::Codex, strings, fable).tooltip;
    let only = " 7d: "@ + use_and_reset(m.codex.weekly.percent, m.codex.weekly.text);
    assert(c =~= strings.codex_model@ + only);
    assert(c.skip(c.len() - only.len()) =~= only);
    let a = icon(m, Provider::Antigravity, strings, fable).tooltip;
    let quota = strings.antigravity_model@ + " Quota: "@ + use_and_reset(
        m.antigravity.session.percent,
        m.antigravity.session.text,
    );
    let extra = " | Extra: "@ + use_and_reset(
        m.antigravity.weekly.percent,
        m.antigravity.weekly.text,
    );
    assert(a =~= quota + extra);
    assert(a.skip(a.len() - extra.len()) =~= extra);
}

/// With a reading, the badge is the percentage of the provider's own window:
/// the session for the first provider and Antigravity, the week for Codex.
/// After a failed poll the tooltip is the provider's own title.
pub proof fn law_badges_are_the_readings(m: Model, strings: Strings, fable: Seq<char>)
    ensures
        m.polling.last_ok && reads(m.claude.session.text) ==> icon(
            m,
            Provider::Claude,
            strings,
            fable,
        ).percent == Some(m.claude.session.percent),
        m.polling.last_ok && reads(m.codex.weekly.text) ==> icon(
            m,
            Provider::Codex,
            strings,
            fable,
        ).percent == Some(m.codex.weekly.percent),
        m.polling.last_ok && reads(m.antigravity.session.text) ==> icon(
            m,
            Provider::Antigravity,
            strings,
            fable,
        ).percent == Some(m.antigravity.session.percent),
        !m.polling.last_ok ==> icon(m, Provider::Claude, strings, fable).tooltip
            == strings.window_title@,
        !m.polling.last_ok ==> icon(m, Provider::Codex, strings, fable).tooltip
            == strings.codex_window_title@,
        !m.polling.last_ok ==> icon(m, Provider::Antigravity, strings, fable).tooltip
            == strings.antigravity_window_title@,
{
}

/// A provider is shown.
pub open spec fn has_card(m: Model, kind: Provider) -> bool {
    match kind {
        Provider::Claude => m.claude.shown,
        Provider::Codex => m.codex.shown,
        Provider::Antigravity => m.antigravity.shown,
    }
}

/// Exactly the shown providers have an icon, each its own, and the icons stand
/// in card order.
pub proof fn law_icons_are_those_of_the_shown_providers(
    m: Model,
    strings: Strings,
    fable: Seq<char>,
    kind: Provider,
    i: int,
    j: int,
)
    ensures
        ({
            let icons = tray_icons(Some(m), strings, fable);
            &&& has_card(m, kind) <==> icons.contains(icon(m, kind, strings, fable))
            &&& 0 <= i < icons.len() ==> has_card(m, icons[i].kind) && icons[i] == icon(
                m,
                icons[i].kind,
                strings,
                fable,
            )
            &&& 0 <= i < j < icons.len() ==> icons[i].kind != icons[j].kind && icons[j].kind
                != Provider::Claude && icons[i].kind != Provider::Antigravity
        }),
        tray_icons(None, strings, fable).len() == 0,
{
    let icons = tray_icons(Some(m), strings, fable);
    let a = icon(m, Provider::Claude, strings, fable);
    let b = icon(m, Provider::Codex, strings, fable);
    let c = icon(m, Provider::Antigravity, strings, fable);
    assert(a.kind == Provider::Claude && b.kind == Provider::Codex && c.kind
        == Provider::Antigravity);
    if m.claude.shown {
        assert(icons[0] == a);
    }
    if m.codex.shown {
        assert(icons[if m.claude.shown {
            1
        } else {
            0int
        }] == b);
    }
    if m.antigravity.shown {
        assert(icons.last() == c);
    }
}

} // verus!
