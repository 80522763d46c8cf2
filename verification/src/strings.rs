//! The texts the interface is made of.
use vstd::prelude::*;

verus! {

/// Every text that depends on the language or on product naming.
#[derive(Clone, Copy, Debug)]
pub struct Strings {
    /// Product names, as menus and tooltips give them.
    pub claude_code_model: &'static str,
    pub codex_model: &'static str,
    pub antigravity_model: &'static str,
    /// The first provider's name, as its card and its swatch give it.
    pub claude_card: &'static str,
    pub claude_field: &'static str,
    /// Tray tooltips while there is nothing to report.
    pub window_title: &'static str,
    pub codex_window_title: &'static str,
    pub antigravity_window_title: &'static str,
    /// Quota-window labels.
    pub session_window: &'static str,
    pub weekly_window: &'static str,
    /// Weekday initials, Sunday first.
    pub weekday_initials: [&'static str; 7],
    /// Context menu.
    pub refresh: &'static str,
    pub update_frequency: &'static str,
    pub one_minute: &'static str,
    pub five_minutes: &'static str,
    pub fifteen_minutes: &'static str,
    pub one_hour: &'static str,
    pub models: &'static str,
    pub settings: &'static str,
    pub start_with_windows: &'static str,
    pub reset_position: &'static str,
    pub show_widget: &'static str,
    pub exit: &'static str,
    /// Updates.
    pub check_for_updates: &'static str,
    pub checking_for_updates: &'static str,
    pub applying_update: &'static str,
    pub up_to_date_short: &'static str,
    pub update_to: &'static str,
    pub update_via_winget: &'static str,
    pub update_prompt_now: &'static str,
    pub update_failed: &'static str,
}

} // verus!
