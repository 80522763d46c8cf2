//! Usage readings as the providers report them.
use crate::measure::Binary64;
use vstd::prelude::*;

verus! {

/// An instant, in nanoseconds since the Unix epoch.
#[derive(Clone, Copy, Debug, PartialEq, Eq, Structural)]
pub struct Moment {
    pub nanos: i128,
}

/// One quota window of one provider.
#[derive(Clone, Copy, Debug, PartialEq, Eq, Structural)]
pub struct UsageSection {
    /// Missing quota data must never masquerade as an unused allowance.
    pub available: bool,
    pub window_minutes: Option<u64>,
    pub percentage: Binary64,
    pub resets_at: Option<Moment>,
}

/// Everything one provider reports.
#[derive(Clone, Copy, Debug, PartialEq, Eq, Structural)]
pub struct UsageData {
    pub session: UsageSection,
    pub weekly: UsageSection,
    pub fable: UsageSection,
}

/// One poll's worth of readings; a provider that did not answer is absent.
#[derive(Clone, Copy, Debug, PartialEq, Eq, Structural)]
pub struct AppUsageData {
    pub claude_code: Option<UsageData>,
    pub codex: Option<UsageData>,
    pub antigravity: Option<UsageData>,
}

/// A section that reports nothing.
pub open spec fn blank_section() -> UsageSection {
    UsageSection {
        available: false,
        window_minutes: None,
        percentage: Binary64 { bits: 0 },
        resets_at: None,
    }
}

impl Default for UsageSection {
    fn default() -> (s: Self)
        ensures
            s == blank_section(),
    {
        UsageSection {
            available: false,
            window_minutes: None,
            percentage: Binary64 { bits: 0 },
            resets_at: None,
        }
    }
}

impl Default for UsageData {
    fn default() -> (d: Self)
        ensures
            d.session == blank_section(),
            d.weekly == blank_section(),
            d.fable == blank_section(),
    {
        UsageData {
            session: UsageSection::default(),
            weekly: UsageSection::default(),
            fable: UsageSection::default(),
        }
    }
}

impl Default for AppUsageData {
    fn default() -> (d: Self)
        ensures
            d == (AppUsageData { claude_code: None, codex: None, antigravity: None }),
    {
        AppUsageData { claude_code: None, codex: None, antigravity: None }
    }
}

} // verus!
