//! Update checks: when they are due, and what their outcome does.
use crate::effects::{given, Effect, Timer};
use crate::state::{model_of, AppState, InstallChannel, Model, State, UpdateStatus};
use crate::strings::Strings;
use crate::text::{join3, substitute, substituted};
use vstd::prelude::*;
use vstd::string::*;

verus! {

/// Seconds between automatic update checks.
pub const UPDATE_CHECK_INTERVAL_SECS: u64 = 86_400;

/// How an update check ended.
#[derive(Debug)]
pub enum UpdateCheck {
    UpToDate,
    /// A newer release, by its version.
    Available(String),
    Failed,
}

/// Seconds from `then` to `now`; none have passed where the clock went back.
pub open spec fn elapsed(now: u64, then: u64) -> int {
    if now < then {
        0
    } else {
        now - then
    }
}

/// No check was made yet, or the last one is a day old.
pub open spec fn due(last: Option<u64>, now: u64) -> bool {
    match last {
        None => true,
        Some(t) => elapsed(now, t) >= UPDATE_CHECK_INTERVAL_SECS,
    }
}

/// What scheduling the next automatic check asks for: nothing when one is due
/// already, a timer over the rest of the day otherwise.
pub open spec fn schedule_effects(m: Option<Model>, now: u64) -> Seq<Effect> {
    match m {
        None => Seq::empty(),
        Some(s) => if due(s.last_update_check_unix, now) {
            seq![Effect::KillTimer(Timer::UpdateCheck)]
        } else {
            seq![
                Effect::KillTimer(Timer::UpdateCheck),
                Effect::SetTimer {
                    timer: Timer::UpdateCheck,
                    ms: ((UPDATE_CHECK_INTERVAL_SECS - elapsed(
                        now,
                        s.last_update_check_unix->0,
                    )) * 1000) as u32,
                },
            ]
        },
    }
}

/// A check or an update is under way.
pub open spec fn busy(m: Model) -> bool {
    m.update_status is Checking || m.update_status is Applying
}

pub open spec fn with_status(m: Model, status: UpdateStatus<Seq<char>>) -> Model {
    AppState { update_status: status, ..m }
}

/// A state after a check that ended at `at`.
pub open spec fn checked(m: Model, result: UpdateCheck, at: u64) -> Model {
    AppState {
        update_status: match result {
            UpdateCheck::UpToDate => UpdateStatus::UpToDate,
            UpdateCheck::Available(version) => UpdateStatus::Available(version@),
            UpdateCheck::Failed => UpdateStatus::Idle,
        },
        last_update_check_unix: Some(at),
        ..m
    }
}

pub open spec fn checked_effects(result: UpdateCheck, interactive: bool) -> Seq<Effect> {
    seq![Effect::SaveSettings] + given(
        interactive,
        match result {
            UpdateCheck::UpToDate => Effect::ShowUpToDate,
            UpdateCheck::Available(version) => Effect::PromptForUpdate,
            UpdateCheck::Failed => Effect::ShowUpdateFailed,
        },
    ) + seq![Effect::PostUpdateCheckComplete]
}

/// The version entry of the menu.
pub open spec fn action_text(
    strings: Strings,
    current: Seq<char>,
    channel: InstallChannel,
    status: UpdateStatus<Seq<char>>,
) -> Seq<char> {
    "v"@ + current + " - "@ + match status {
        UpdateStatus::Idle => strings.check_for_updates@,
        UpdateStatus::Checking => strings.checking_for_updates@,
        UpdateStatus::Applying => strings.applying_update@,
        UpdateStatus::UpToDate => strings.up_to_date_short@,
        UpdateStatus::Available(version) => match channel {
            InstallChannel::Portable => strings.update_to@ + " v"@ + version,
            InstallChannel::Winget => strings.update_via_winget@ + " v"@ + version,
        },
    }
}

pub fn auto_update_check_due(last_update_check_unix: Option<u64>, now_unix: u64) -> (is_due: bool)
    ensures
        is_due == due(last_update_check_unix, now_unix),
{
    match last_update_check_unix {
        None => true,
        Some(t) => now_unix.saturating_sub(t) >= UPDATE_CHECK_INTERVAL_SECS,
    }
}

/// Schedule the next automatic update check.
pub fn schedule_auto_update_check(state: &Option<State>, now_unix: u64) -> (effects: Vec<Effect>)
    ensures
        effects@ == schedule_effects(model_of(*state), now_unix),
{
    match state {
        None => Vec::new(),
        Some(s) => match s.last_update_check_unix {
            None => vec![Effect::KillTimer(Timer::UpdateCheck)],
            Some(t) => {
                let passed: u64 = now_unix.saturating_sub(t);
                if passed >= UPDATE_CHECK_INTERVAL_SECS {
                    vec![Effect::KillTimer(Timer::UpdateCheck)]
                } else {
                    let ms: u32 = ((UPDATE_CHECK_INTERVAL_SECS - passed) * 1000) as u32;
                    vec![
                        Effect::KillTimer(Timer::UpdateCheck),
                        Effect::SetTimer { timer: Timer::UpdateCheck, ms },
                    ]
                }
            },
        },
    }
}

/// Begin an update check, unless one is under way.
pub fn begin_update_check(state: &mut Option<State>, interactive: bool) -> (effects: Vec<Effect>)
    ensures
        match model_of(*old(state)) {
            None => *final(state) is None && effects@.len() == 0,
            Some(m) => if busy(m) {
                &&& model_of(*final(state)) == Some(m)
                &&& effects@ == given(interactive, Effect::ShowUpdateInProgress)
            } else {
                &&& model_of(*final(state)) == Some(with_status(m, UpdateStatus::Checking))
                &&& effects@ == seq![Effect::RunUpdateCheck { interactive }]
            },
        },
{
    match state {
        None => Vec::new(),
        Some(s) => {
            if s.update_status.in_progress() {
                let mut effects: Vec<Effect> = Vec::new();
                if interactive {
                    effects.push(Effect::ShowUpdateInProgress);
                }
                effects
            } else {
                s.update_status = UpdateStatus::Checking;
                vec![Effect::RunUpdateCheck { interactive }]
            }
        },
    }
}

/// Take over how an update check ended.
pub fn update_checked(
    state: &mut Option<State>,
    result: UpdateCheck,
    checked_at: u64,
    interactive: bool,
) -> (effects: Vec<Effect>)
    ensures
        match model_of(*old(state)) {
            None => *final(state) is None,
            Some(m) => model_of(*final(state)) == Some(checked(m, result, checked_at)),
        },
        effects@ == checked_effects(result, interactive),
{
    let mut effects = vec![Effect::SaveSettings];
    if interactive {
        let shown = match &result {
            UpdateCheck::UpToDate => Effect::ShowUpToDate,
            UpdateCheck::Available(_version) => Effect::PromptForUpdate,
            UpdateCheck::Failed => Effect::ShowUpdateFailed,
        };
        effects.push(shown);
    }
    effects.push(Effect::PostUpdateCheckComplete);
    assert(effects@ =~= checked_effects(result, interactive));
    match state {
        None => {},
        Some(s) => {
            s.update_status = match result {
                UpdateCheck::UpToDate => UpdateStatus::UpToDate,
                UpdateCheck::Available(version) => UpdateStatus::Available(version),
                UpdateCheck::Failed => UpdateStatus::Idle,
            };
            s.last_update_check_unix = Some(checked_at);
        },
    }
    effects
}

/// How an accepted update is carried out.
pub fn update_accepted(channel: InstallChannel) -> (effect: Effect)
    ensures
        effect == (match channel {
            InstallChannel::Portable => Effect::ApplyUpdate,
            InstallChannel::Winget => Effect::UpdateThroughWinget,
        }),
{
    match channel {
        InstallChannel::Portable => Effect::ApplyUpdate,
        InstallChannel::Winget => Effect::UpdateThroughWinget,
    }
}

/// Begin to apply an update, unless one is under way.
pub fn begin_update_apply(state: &mut Option<State>) -> (effects: Vec<Effect>)
    ensures
        match model_of(*old(state)) {
            None => *final(state) is None && effects@.len() == 0,
            Some(m) => if busy(m) {
                &&& model_of(*final(state)) == Some(m)
                &&& effects@ == seq![Effect::ShowUpdateInProgress]
            } else {
                &&& model_of(*final(state)) == Some(with_status(m, UpdateStatus::Applying))
                &&& effects@ == seq![Effect::RunUpdate]
            },
        },
{
    match state {
        None => Vec::new(),
        Some(s) => {
            if s.update_status.in_progress() {
                vec![Effect::ShowUpdateInProgress]
            } else {
                s.update_status = UpdateStatus::Applying;
                vec![Effect::RunUpdate]
            }
        },
    }
}

/// Take over how applying release `version` ended. A failed one is available
/// again.
pub fn update_applied(state: &mut Option<State>, succeeded: bool, version: String) -> (effects: Vec<
    Effect,
>)
    ensures
        succeeded ==> {
            &&& model_of(*final(state)) == model_of(*old(state))
            &&& effects@ == seq![Effect::PostClose]
        },
        !succeeded ==> {
            &&& match model_of(*old(state)) {
                None => *final(state) is None,
                Some(m) => model_of(*final(state)) == Some(
                    with_status(m, UpdateStatus::Available(version@)),
                ),
            }
            &&& effects@ == seq![Effect::ShowUpdateFailed, Effect::PostUpdateCheckComplete]
        },
{
    if succeeded {
        return vec![Effect::PostClose];
    }
    match state {
        None => {},
        Some(s) => {
            s.update_status = UpdateStatus::Available(version);
        },
    }
    vec![Effect::ShowUpdateFailed, Effect::PostUpdateCheckComplete]
}

/// What follows once winget was started, or could not be.
pub fn winget_started(succeeded: bool) -> (effect: Effect)
    ensures
        effect == (if succeeded {
            Effect::PostClose
        } else {
            Effect::ShowUpdateFailed
        }),
{
    if succeeded {
        Effect::PostClose
    } else {
        Effect::ShowUpdateFailed
    }
}

/// The label of the version entry; `current` is this build's version.
pub fn version_action_label(
    strings: &Strings,
    current: &str,
    channel: InstallChannel,
    status: &UpdateStatus<String>,
) -> (label: String)
    ensures
        label@ == action_text(*strings, current@, channel, status@),
{
    let head = "v".to_owned().concat(current).concat(" - ");
    match status {
        UpdateStatus::Idle => head.concat(strings.check_for_updates),
        UpdateStatus::Checking => head.concat(strings.checking_for_updates),
        UpdateStatus::Applying => head.concat(strings.applying_update),
        UpdateStatus::UpToDate => head.concat(strings.up_to_date_short),
        UpdateStatus::Available(version) => {
            let what = match channel {
                InstallChannel::Portable => strings.update_to,
                InstallChannel::Winget => strings.update_via_winget,
            };
            let tail = join3(what, " v", version.as_str());
            head.concat(tail.as_str())
        },
    }
}

/// The question asked before an update, with the version filled in.
pub fn update_prompt(strings: &Strings, version: &str) -> (message: String)
    ensures
        message@ == substituted(strings.update_prompt_now@, "{version}"@, version@),
{
    proof {
        reveal_strlit("{version}");
    }
    substitute(strings.update_prompt_now, "{version}", version)
}

/// The message shown when a check or an update failed.
pub fn update_failure_message(strings: &Strings, error: &str) -> (message: String)
    ensures
        message@ == strings.update_failed@ + ".\n\n"@ + error@,
{
    join3(strings.update_failed, ".\n\n", error)
}

/// After a check no further one is due for a day, and the timer set then runs
/// out no later than it becomes due.
pub proof fn law_checks_are_a_day_apart(m: Model, result: UpdateCheck, at: u64, now: u64)
    requires
        at <= now,
    ensures
        due(checked(m, result, at).last_update_check_unix, now) <==> now - at
            >= UPDATE_CHECK_INTERVAL_SECS,
        now - at < UPDATE_CHECK_INTERVAL_SECS ==> schedule_effects(
            Some(checked(m, result, at)),
            now,
        )[1] == (Effect::SetTimer {
            timer: Timer::UpdateCheck,
            ms: ((at + UPDATE_CHECK_INTERVAL_SECS - now) * 1000) as u32,
        }),
        !busy(checked(m, result, at)),
{
}

/// A finished check is remembered with its time and what it found, and changes
/// nothing else; a failed one leaves nothing found.
pub proof fn law_checks_are_remembered(m: Model, version: String, at: u64)
    ensures
        ({
            let a = checked(m, UpdateCheck::Available(version), at);
            let u = checked(m, UpdateCheck::UpToDate, at);
            let f = checked(m, UpdateCheck::Failed, at);
            &&& a.update_status == UpdateStatus::Available(version@)
            &&& u.update_status is UpToDate
            &&& f.update_status is Idle
            &&& a.last_update_check_unix == Some(at)
            &&& u.last_update_check_unix == Some(at)
            &&& f.last_update_check_unix == Some(at)
            &&& (Model {
                update_status: m.update_status,
                last_update_check_unix: m.last_update_check_unix,
                ..a
            }) == m
            &&& (Model {
                update_status: m.update_status,
                last_update_check_unix: m.last_update_check_unix,
                ..u
            }) == m
            &&& (Model {
                update_status: m.update_status,
                last_update_check_unix: m.last_update_check_unix,
                ..f
            }) == m
        }),
{
}

/// A finished check is saved and reported; the user is told what it found only
/// where they asked for it.
pub proof fn law_only_asked_for_checks_speak(version: String)
    ensures
        checked_effects(UpdateCheck::Available(version), true) == seq![
            Effect::SaveSettings,
            Effect::PromptForUpdate,
            Effect::PostUpdateCheckComplete,
        ],
        checked_effects(UpdateCheck::UpToDate, true) == seq![
            Effect::SaveSettings,
            Effect::ShowUpToDate,
            Effect::PostUpdateCheckComplete,
        ],
        checked_effects(UpdateCheck::Failed, true) == seq![
            Effect::SaveSettings,
            Effect::ShowUpdateFailed,
            Effect::PostUpdateCheckComplete,
        ],
        checked_effects(UpdateCheck::Available(version), false) == seq![
            Effect::SaveSettings,
            Effect::PostUpdateCheckComplete,
        ],
        checked_effects(UpdateCheck::UpToDate, false) == seq![
            Effect::SaveSettings,
            Effect::PostUpdateCheckComplete,
        ],
        checked_effects(UpdateCheck::Failed, false) == seq![
            Effect::SaveSettings,
            Effect::PostUpdateCheckComplete,
        ],
{
    assert(checked_effects(UpdateCheck::UpToDate, false) =~= seq![
        Effect::SaveSettings,
        Effect::PostUpdateCheckComplete,
    ]);
}

/// A check is due where none was made, and a day after the last one; a clock
/// that went back makes none due. Until then the timer covers the rest of the
/// day, to the second.
pub proof fn law_checks_wait_out_the_day(m: Model, last: u64, now: u64)
    requires
        m.last_update_check_unix == Some(last),
    ensures
        due(None, now),
        now < last ==> !due(Some(last), now),
        last <= now ==> (due(Some(last), now) <==> now >= last + 86_400),
        due(Some(last), now) ==> schedule_effects(Some(m), now) == seq![
            Effect::KillTimer(Timer::UpdateCheck),
        ],
        last <= now < last + 86_400 ==> schedule_effects(Some(m), now) == seq![
            Effect::KillTimer(Timer::UpdateCheck),
            Effect::SetTimer {
                timer: Timer::UpdateCheck,
                ms: ((last + 86_400 - now) * 1000) as u32,
            },
        ],
        schedule_effects(None, now).len() == 0,
{
}

/// The version entry gives this build's version and what choosing it does: a
/// known release is named by its version.
pub proof fn law_the_version_entry_says_what_it_does(
    s: Strings,
    current: Seq<char>,
    channel: InstallChannel,
    version: Seq<char>,
)
    ensures
        ({
            let head = "v"@ + current + " - "@;
            &&& action_text(s, current, channel, UpdateStatus::Idle) == head
                + s.check_for_updates@
            &&& action_text(s, current, channel, UpdateStatus::Checking) == head
                + s.checking_for_updates@
            &&& action_text(s, current, channel, UpdateStatus::Applying) == head
                + s.applying_update@
            &&& action_text(s, current, channel, UpdateStatus::UpToDate) == head
                + s.up_to_date_short@
            &&& action_text(
                s,
                current,
                InstallChannel::Portable,
                UpdateStatus::Available(version),
            ) == head + (s.update_to@ + " v"@ + version)
            &&& action_text(
                s,
                current,
                InstallChannel::Winget,
                UpdateStatus::Available(version),
            ) == head + (s.update_via_winget@ + " v"@ + version)
        }),
{
}

/// A state is busy exactly while a check or an update runs, and only its update
/// status is changed by starting one.
pub proof fn law_one_update_at_a_time(m: Model, version: Seq<char>)
    ensures
        busy(with_status(m, UpdateStatus::Checking)),
        busy(with_status(m, UpdateStatus::Applying)),
        !busy(with_status(m, UpdateStatus::Idle)),
        !busy(with_status(m, UpdateStatus::UpToDate)),
        !busy(with_status(m, UpdateStatus::Available(version))),
        (Model {
            update_status: m.update_status,
            ..with_status(m, UpdateStatus::Checking)
        }) == m,
        with_status(m, UpdateStatus::Available(version)).update_status
            == UpdateStatus::Available(version),
{
}

/// An accepted update is carried out by the way this copy was installed.
pub proof fn law_updates_go_by_their_channel(effect: Effect, channel: InstallChannel)
    requires
        call_ensures(update_accepted, (channel,), effect),
    ensures
        channel == InstallChannel::Portable <==> effect == Effect::ApplyUpdate,
        channel == InstallChannel::Winget <==> effect == Effect::UpdateThroughWinget,
{
}

/// Only an update that was started closes this copy; one that was not is
/// reported.
pub proof fn law_started_updates_close(effect: Effect, succeeded: bool)
    requires
        call_ensures(winget_started, (succeeded,), effect),
    ensures
        succeeded <==> effect == Effect::PostClose,
        !succeeded <==> effect == Effect::ShowUpdateFailed,
{
}

} // verus!
