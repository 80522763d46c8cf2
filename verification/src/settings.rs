//! Saved preferences: defaults, migration, and what a launch makes of them.
use crate::appearance::{default_appearance, Appearance, Mode};
use vstd::prelude::*;

verus! {

pub const POLL_1_MIN: u32 = 60_000;

pub const POLL_5_MIN: u32 = 300_000;

pub const POLL_15_MIN: u32 = 900_000;

pub const POLL_1_HOUR: u32 = 3_600_000;

/// The preferences as they are kept on disk.
#[derive(Clone, Copy, Debug, PartialEq, Eq)]
pub struct SettingsFile {
    pub appearance: Appearance,
    pub floating_position: Option<(i32, i32)>,
    /// Migrate older taskbar/click-through preferences once.
    pub desktop_layout_version: u32,
    pub tray_offset: i32,
    pub taskbar_index: usize,
    pub poll_interval_ms: u32,
    pub last_update_check_unix: Option<u64>,
    pub widget_visible: bool,
    pub show_claude_code: bool,
    pub show_codex: bool,
    pub show_antigravity: bool,
    /// Make the widget a child of the taskbar instead of a floating popup.
    pub embed_in_taskbar: bool,
    /// Let mouse input pass straight through the widget.
    pub click_through: bool,
}

/// What reading the settings file gave.
#[derive(Clone, Copy, Debug, PartialEq, Eq)]
pub enum Stored {
    /// There is no file, or it cannot be read.
    Missing,
    /// There is a file, but it does not hold settings.
    Malformed,
    Parsed(SettingsFile),
}

pub open spec fn default_settings() -> SettingsFile {
    SettingsFile {
        appearance: default_appearance(),
        floating_position: None,
        desktop_layout_version: 1,
        tray_offset: 0,
        taskbar_index: 0,
        poll_interval_ms: POLL_15_MIN,
        last_update_check_unix: None,
        widget_visible: true,
        show_claude_code: true,
        show_codex: true,
        show_antigravity: false,
        embed_in_taskbar: false,
        click_through: false,
    }
}

/// Settings older than the desktop layout lose their taskbar and click-through
/// preferences, once.
pub open spec fn migrated(s: SettingsFile) -> SettingsFile {
    if s.desktop_layout_version == 0 {
        SettingsFile {
            embed_in_taskbar: false,
            click_through: false,
            desktop_layout_version: 1,
            ..s
        }
    } else {
        s
    }
}

pub open spec fn shows_a_provider(s: SettingsFile) -> bool {
    s.show_claude_code || s.show_codex || s.show_antigravity
}

/// Settings that show no provider show the first one.
pub open spec fn with_a_provider(s: SettingsFile) -> SettingsFile {
    if shows_a_provider(s) {
        s
    } else {
        SettingsFile { show_claude_code: true, ..s }
    }
}

/// The settings a launch starts from.
pub open spec fn loaded(stored: Stored) -> SettingsFile {
    match stored {
        Stored::Missing => default_settings(),
        Stored::Malformed => with_a_provider(migrated(default_settings())),
        Stored::Parsed(s) => with_a_provider(migrated(s)),
    }
}

/// Settings with only Codex selected.
pub open spec fn codex_alone(s: SettingsFile) -> SettingsFile {
    SettingsFile { show_claude_code: false, show_codex: true, show_antigravity: false, ..s }
}

/// The settings a launch starts with, asked for Codex alone or not.
pub open spec fn first_settings(codex_only: bool, saved: SettingsFile) -> SettingsFile {
    if codex_only {
        codex_alone(saved)
    } else {
        saved
    }
}

pub fn default_poll_interval() -> (ms: u32)
    ensures
        ms == default_settings().poll_interval_ms,
{
    POLL_15_MIN
}

pub fn default_widget_visible() -> (b: bool)
    ensures
        b == default_settings().widget_visible,
{
    true
}

/// Desktop popup by default: interactive so the entire widget can be dragged.
pub fn default_embed_in_taskbar() -> (b: bool)
    ensures
        b == default_settings().embed_in_taskbar,
{
    false
}

pub fn default_click_through() -> (b: bool)
    ensures
        b == default_settings().click_through,
{
    false
}

pub fn default_show_claude_code() -> (b: bool)
    ensures
        b == default_settings().show_claude_code,
{
    true
}

pub fn default_show_codex() -> (b: bool)
    ensures
        b == default_settings().show_codex,
{
    true
}

pub fn default_show_antigravity() -> (b: bool)
    ensures
        b == default_settings().show_antigravity,
{
    false
}

impl Default for SettingsFile {
    fn default() -> (s: Self)
        ensures
            s == default_settings(),
    {
        SettingsFile {
            appearance: Appearance::default(),
            floating_position: None,
            desktop_layout_version: 1,
            tray_offset: 0,
            taskbar_index: 0,
            poll_interval_ms: default_poll_interval(),
            last_update_check_unix: None,
            widget_visible: true,
            show_claude_code: true,
            show_codex: true,
            show_antigravity: false,
            embed_in_taskbar: default_embed_in_taskbar(),
            click_through: default_click_through(),
        }
    }
}

pub fn migrate_desktop_settings(settings: &mut SettingsFile)
    ensures
        *final(settings) == migrated(*old(settings)),
{
    if settings.desktop_layout_version == 0 {
        settings.embed_in_taskbar = false;
        settings.click_through = false;
        settings.desktop_layout_version = 1;
    }
}

/// Turn what the settings file held into the settings to start with.
pub fn load_settings(stored: Stored) -> (settings: SettingsFile)
    ensures
        settings == loaded(stored),
{
    let mut settings = match stored {
        Stored::Missing => {
            return SettingsFile::default();
        },
        Stored::Malformed => SettingsFile::default(),
        Stored::Parsed(s) => s,
    };
    migrate_desktop_settings(&mut settings);
    if !settings.show_claude_code && !settings.show_codex && !settings.show_antigravity {
        settings.show_claude_code = true;
    }
    settings
}

/// Start with only Codex selected.
pub fn select_codex_only(settings: &mut SettingsFile)
    ensures
        *final(settings) == codex_alone(*old(settings)),
{
    settings.show_claude_code = false;
    settings.show_codex = true;
    settings.show_antigravity = false;
}

/// Choose the settings to start with: the saved ones, or those with only Codex
/// selected where the command line asks for that.
pub fn start_settings(codex_only: bool, saved: SettingsFile) -> (s: SettingsFile)
    ensures
        s == first_settings(codex_only, saved),
{
    let mut s = saved;
    if codex_only {
        select_codex_only(&mut s);
    }
    s
}

/// Migration happens once, keeps provider choices and the saved position, and
/// leaves an interactive floating widget where it happens.
pub proof fn law_migration_keeps_choices(s: SettingsFile)
    ensures
        migrated(migrated(s)) == migrated(s),
        migrated(s).desktop_layout_version != 0,
        migrated(s).show_claude_code == s.show_claude_code,
        migrated(s).show_codex == s.show_codex,
        migrated(s).show_antigravity == s.show_antigravity,
        migrated(s).floating_position == s.floating_position,
        migrated(s).appearance == s.appearance,
        s.desktop_layout_version == 0 ==> !migrated(s).embed_in_taskbar && !migrated(
            s,
        ).click_through,
{
}

/// Whatever was stored, at least one provider is shown, and a stored choice of
/// providers is kept.
pub proof fn law_loading_shows_a_provider(stored: Stored)
    ensures
        shows_a_provider(loaded(stored)),
        match stored {
            Stored::Parsed(s) => shows_a_provider(s) ==> {
                &&& loaded(stored).show_claude_code == s.show_claude_code
                &&& loaded(stored).show_codex == s.show_codex
                &&& loaded(stored).show_antigravity == s.show_antigravity
            },
            _ => loaded(stored) == default_settings(),
        },
        shows_a_provider(first_settings(true, loaded(stored))),
{
}

/// Loading what a load would write back changes nothing more.
pub proof fn law_loading_is_stable(stored: Stored)
    ensures
        loaded(Stored::Parsed(loaded(stored))) == loaded(stored),
{
}

/// A fresh install shows the first provider and Codex in a visible, floating
/// widget that takes clicks, follows the system theme and polls every fifteen
/// minutes; nothing but a file changes that.
pub proof fn law_fresh_installs(stored: Stored)
    ensures
        ({
            let s = loaded(Stored::Missing);
            &&& s.show_claude_code && s.show_codex && !s.show_antigravity
            &&& s.widget_visible && !s.embed_in_taskbar && !s.click_through
            &&& s.poll_interval_ms == 15 * 60 * 1000
            &&& s.appearance.mode == Mode::System
            &&& s.appearance.widget_size == 100
            &&& s.floating_position is None
            &&& s.tray_offset == 0 && s.taskbar_index == 0
            &&& s.last_update_check_unix is None
        }),
        !(stored is Parsed) ==> loaded(stored) == loaded(Stored::Missing),
{
}

/// Stored preferences are kept one by one. Only those older than the desktop
/// layout lose the taskbar and click-through, and only a choice of no provider
/// is mended.
pub proof fn law_stored_preferences_are_kept(s: SettingsFile)
    ensures
        ({
            let l = loaded(Stored::Parsed(s));
            &&& l.appearance == s.appearance
            &&& l.floating_position == s.floating_position
            &&& l.tray_offset == s.tray_offset
            &&& l.taskbar_index == s.taskbar_index
            &&& l.poll_interval_ms == s.poll_interval_ms
            &&& l.last_update_check_unix == s.last_update_check_unix
            &&& l.widget_visible == s.widget_visible
            &&& l.show_codex == s.show_codex
            &&& l.show_antigravity == s.show_antigravity
            &&& l.show_claude_code == (s.show_claude_code || !(s.show_codex
                || s.show_antigravity))
            &&& l.embed_in_taskbar == (s.embed_in_taskbar && s.desktop_layout_version != 0)
            &&& l.click_through == (s.click_through && s.desktop_layout_version != 0)
            &&& l.desktop_layout_version == (if s.desktop_layout_version == 0 {
                1
            } else {
                s.desktop_layout_version
            })
        }),
{
}

/// Starting with Codex alone changes the choice of providers and nothing else,
/// and starting without that changes nothing.
pub proof fn law_codex_alone_keeps_the_rest(saved: SettingsFile)
    ensures
        ({
            let s = first_settings(true, saved);
            &&& s.show_codex && !s.show_claude_code && !s.show_antigravity
            &&& (SettingsFile {
                show_claude_code: saved.show_claude_code,
                show_codex: saved.show_codex,
                show_antigravity: saved.show_antigravity,
                ..s
            }) == saved
        }),
        first_settings(false, saved) == saved,
{
}

} // verus!
