//! What the state machine asks of the window system, in order.
use crate::geometry::Placement;
use crate::state::Provider;
use vstd::prelude::*;

verus! {

/// The window's timers.
#[derive(Clone, Copy, Debug, PartialEq, Eq, Structural)]
pub enum Timer {
    Poll,
    Countdown,
    Ram,
    Anim,
    ResetPoll,
    UpdateCheck,
    Topmost,
    TaskbarRetry,
}

#[derive(Clone, Copy, Debug, PartialEq, Eq, Structural)]
pub enum Cursor {
    SizeAll,
    SizeWestEast,
}

/// One step for the window system to perform.
#[derive(Clone, Copy, Debug, PartialEq, Eq, Structural)]
pub enum Effect {
    SetTimer { timer: Timer, ms: u32 },
    KillTimer(Timer),
    /// Write the settings of the current state.
    SaveSettings,
    Render,
    /// Position the widget anew.
    Reposition,
    MoveWindow(Placement),
    ShowWindow,
    HideWindow,
    MakeLayered,
    ReassertTopmost,
    InstallForegroundHook,
    SetCursor(Cursor),
    SetCapture,
    ReleaseCapture,
    /// Hand a left click to the caption, at the packed screen position.
    DragByCaption(u32),
    /// Validate the paint region without drawing.
    ValidatePaint,
    /// Draw into the window's own paint cycle.
    PaintWindow,
    SetDpi(u32),
    RefreshDpi,
    CheckTheme,
    SampleRam,
    MarkPoll,
    UpdateDisplay,
    ScheduleCountdown,
    ScheduleUpdateCheck,
    SuppressTrayReposition { ms: u32 },
    SyncTrayIcons,
    RemoveTrayIcons,
    /// Poll the providers on a thread of their own.
    StartPoll,
    PostUsageUpdated,
    PostUpdateCheckComplete,
    PostClose,
    NotifySignIn(Provider),
    /// Ask for an update check, unless one is under way.
    CheckForUpdates { interactive: bool },
    /// Ask the update service for the latest release.
    RunUpdateCheck { interactive: bool },
    /// Ask for the available update to be applied, unless one is under way.
    ApplyUpdate,
    /// Download and apply the available update.
    RunUpdate,
    UpdateThroughWinget,
    ShowUpdateInProgress,
    ShowUpToDate,
    ShowUpdateFailed,
    PromptForUpdate,
    /// Find a taskbar; once found, place and draw the widget.
    Reattach { index: usize, embed: bool },
    /// Find a taskbar; once found, report it.
    RetryAttach { index: usize, embed: bool },
    WatchTaskbar,
    ToggleStartup,
    OpenAppearance,
    ShowContextMenu,
    UnhookTray,
    UnhookForeground,
    Quit,
}

/// The effect if the condition holds, nothing otherwise.
pub open spec fn given(condition: bool, effect: Effect) -> Seq<Effect> {
    if condition {
        seq![effect]
    } else {
        Seq::empty()
    }
}

} // verus!
