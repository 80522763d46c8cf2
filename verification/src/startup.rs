//! Launching: command line, single instance, first effects, relaunches and the
//! startup entry.
use crate::effects::{given, Effect, Timer};
use crate::state::{Model, State};
use crate::text::same_text;
use crate::window::{ANIM_REFRESH_MS, RAM_REFRESH_MS};
use vstd::prelude::*;
use vstd::string::*;

verus! {

/// Relaunches closer together than this are treated as a storm.
pub const RELAUNCH_THROTTLE_SECS: u64 = 10;

pub const RELAUNCH_BACKOFF_SECS: u64 = 30;

/// How long a relaunched process waits for the one it replaces.
pub const TAKEOVER_WAIT_MS: u32 = 10_000;

/// How often a missing taskbar is looked for, and the widget is raised.
pub const TASKBAR_RETRY_MS: u32 = 1_000;

pub const TOPMOST_MS: u32 = 1_000;

/// What the command line asks for.
#[verifier::ext_equal]
#[derive(Debug)]
pub enum Launch<T> {
    /// Poll Codex once and report.
    CheckCodex,
    /// Draw the widget with sample data into a file.
    Preview { path: Option<T>, dark: bool, unavailable: bool },
    Run { diagnose: bool, codex_only: bool },
}

impl View for Launch<String> {
    type V = Launch<Seq<char>>;

    open spec fn view(&self) -> Launch<Seq<char>> {
        match self {
            Launch::CheckCodex => Launch::CheckCodex,
            Launch::Preview { path, dark, unavailable } => Launch::Preview {
                path: match path {
                    Some(p) => Some(p@),
                    None => None,
                },
                dark: *dark,
                unavailable: *unavailable,
            },
            Launch::Run { diagnose, codex_only } => Launch::Run {
                diagnose: *diagnose,
                codex_only: *codex_only,
            },
        }
    }
}

/// Arguments as character sequences.
pub open spec fn words(args: Seq<String>) -> Seq<Seq<char>> {
    args.map_values(|a: String| a@)
}

/// Where a word first stands.
pub open spec fn first_at(args: Seq<Seq<char>>, word: Seq<char>, from: int) -> Option<int>
    decreases args.len() - from,
{
    if from < 0 || from >= args.len() {
        None
    } else if args[from] == word {
        Some(from)
    } else {
        first_at(args, word, from + 1)
    }
}

pub open spec fn launch(args: Seq<Seq<char>>) -> Launch<Seq<char>> {
    if args.contains("--check-codex"@) {
        Launch::CheckCodex
    } else {
        match first_at(args, "--preview"@, 0) {
            Some(i) => Launch::Preview {
                path: if i + 1 < args.len() {
                    Some(args[i + 1])
                } else {
                    None
                },
                dark: !args.contains("--light"@),
                unavailable: args.contains("--unavailable"@),
            },
            None => Launch::Run {
                diagnose: args.contains("--diagnose"@),
                codex_only: args.contains("--codex-only"@),
            },
        }
    }
}

fn position(args: &Vec<String>, word: &str) -> (at: Option<usize>)
    ensures
        match at {
            Some(i) => first_at(words(args@), word@, 0) == Some(i as int) && i < args@.len(),
            None => first_at(words(args@), word@, 0) is None,
        },
        at is Some <==> words(args@).contains(word@),
{
    let mut i: usize = 0;
    while i < args.len()
        invariant
            i <= args@.len(),
            first_at(words(args@), word@, 0) == first_at(words(args@), word@, i as int),
            forall|j: int| 0 <= j < i ==> words(args@)[j] != word@,
        decreases args@.len() - i,
    {
        assert(words(args@)[i as int] == args@[i as int]@);
        if same_text(args[i].as_str(), word) {
            assert(words(args@)[i as int] == word@);
            return Some(i);
        }
        i = i + 1;
    }
    None
}

/// Read the command line, the program's name included.
pub fn parse_arguments(args: &Vec<String>) -> (l: Launch<String>)
    ensures
        l@ == launch(words(args@)),
{
    if position(args, "--check-codex").is_some() {
        return Launch::CheckCodex;
    }
    match position(args, "--preview") {
        Some(i) => {
            let path = if i < args.len() - 1 {
                Some(args[i + 1].clone())
            } else {
                None
            };
            Launch::Preview {
                path,
                dark: position(args, "--light").is_none(),
                unavailable: position(args, "--unavailable").is_some(),
            }
        },
        None => Launch::Run {
            diagnose: position(args, "--diagnose").is_some(),
            codex_only: position(args, "--codex-only").is_some(),
        },
    }
}

/// What to do about other running copies.
#[derive(Clone, Copy, Debug, PartialEq, Eq, Structural)]
pub enum Claim {
    Start,
    /// Wait this long for the previous copy, in milliseconds.
    WaitForPrevious(u32),
    Abort,
}

/// How waiting for the previous copy ended.
#[derive(Clone, Copy, Debug, PartialEq, Eq, Structural)]
pub enum WaitOutcome {
    Released,
    Abandoned,
    Other,
}

/// Only one copy runs; one that was relaunched waits for the copy it replaces.
pub fn claim_instance(guard_created: bool, already_running: bool, relaunched: bool) -> (claim: Claim)
    ensures
        claim == (if !guard_created {
            Claim::Abort
        } else if !already_running {
            Claim::Start
        } else if relaunched {
            Claim::WaitForPrevious(TAKEOVER_WAIT_MS)
        } else {
            Claim::Abort
        }),
{
    if !guard_created {
        Claim::Abort
    } else if !already_running {
        Claim::Start
    } else if relaunched {
        Claim::WaitForPrevious(TAKEOVER_WAIT_MS)
    } else {
        Claim::Abort
    }
}

/// Take over once the previous copy let go.
pub fn claim_after_wait(outcome: WaitOutcome) -> (claim: Claim)
    ensures
        claim == (if outcome == WaitOutcome::Other {
            Claim::Abort
        } else {
            Claim::Start
        }),
{
    match outcome {
        WaitOutcome::Other => Claim::Abort,
        _ => Claim::Start,
    }
}

/// What a fresh launch does once its state and window exist: `found` tells
/// whether there is a taskbar, `due` whether an update check is due.
pub open spec fn first_effects(m: Model, found: bool, due: bool) -> Seq<Effect> {
    let popup = !(found && m.embed_in_taskbar);
    given(!found, Effect::SetTimer { timer: Timer::TaskbarRetry, ms: TASKBAR_RETRY_MS }) + (
    if popup {
        seq![
            Effect::MakeLayered,
            Effect::ReassertTopmost,
            Effect::InstallForegroundHook,
            Effect::SetTimer { timer: Timer::Topmost, ms: TOPMOST_MS },
        ]
    } else {
        Seq::empty()
    }) + seq![
        Effect::SyncTrayIcons,
        Effect::Reposition,
        if m.widget_visible {
            Effect::ShowWindow
        } else {
            Effect::HideWindow
        },
        Effect::Render,
        Effect::SetTimer { timer: Timer::Poll, ms: m.polling.interval_ms },
        Effect::SetTimer { timer: Timer::Ram, ms: RAM_REFRESH_MS },
    ] + given(
        m.widget_visible,
        Effect::SetTimer { timer: Timer::Anim, ms: ANIM_REFRESH_MS },
    ) + seq![Effect::WatchTaskbar, Effect::StartPoll, Effect::ScheduleUpdateCheck] + given(
        due,
        Effect::CheckForUpdates { interactive: false },
    ) + seq![Effect::CheckTheme]
}

/// The effects of a fresh launch, in order.
pub fn run(state: &State, found: bool, due: bool) -> (effects: Vec<Effect>)
    ensures
        effects@ == first_effects(state@, found, due),
{
    let mut effects: Vec<Effect> = Vec::new();
    if !found {
        effects.push(Effect::SetTimer { timer: Timer::TaskbarRetry, ms: TASKBAR_RETRY_MS });
    }
    if !(found && state.embed_in_taskbar) {
        effects.push(Effect::MakeLayered);
        effects.push(Effect::ReassertTopmost);
        effects.push(Effect::InstallForegroundHook);
        effects.push(Effect::SetTimer { timer: Timer::Topmost, ms: TOPMOST_MS });
    }
    effects.push(Effect::SyncTrayIcons);
    effects.push(Effect::Reposition);
    effects.push(
        if state.widget_visible {
            Effect::ShowWindow
        } else {
            Effect::HideWindow
        },
    );
    effects.push(Effect::Render);
    effects.push(Effect::SetTimer { timer: Timer::Poll, ms: state.polling.interval_ms });
    effects.push(Effect::SetTimer { timer: Timer::Ram, ms: RAM_REFRESH_MS });
    if state.widget_visible {
        effects.push(Effect::SetTimer { timer: Timer::Anim, ms: ANIM_REFRESH_MS });
    }
    effects.push(Effect::WatchTaskbar);
    effects.push(Effect::StartPoll);
    effects.push(Effect::ScheduleUpdateCheck);
    if due {
        effects.push(Effect::CheckForUpdates { interactive: false });
    }
    effects.push(Effect::CheckTheme);
    assert(effects@ =~= first_effects(state@, found, due));
    effects
}

/// How long to hold back a relaunch, in seconds. `last` is when the relaunch
/// that started this process happened, 0 for none.
pub fn relaunch_backoff(last: u64, now: u64) -> (wait: Option<u64>)
    ensures
        wait == (if last != 0 && now - last < RELAUNCH_THROTTLE_SECS {
            Some(RELAUNCH_BACKOFF_SECS)
        } else {
            None::<u64>
        }),
{
    if last != 0 && now.saturating_sub(last) < RELAUNCH_THROTTLE_SECS {
        Some(RELAUNCH_BACKOFF_SECS)
    } else {
        None
    }
}

/// Whether the shell was restarted: there are taskbars, but the one the widget
/// was attached to is not among them.
pub fn taskbar_was_replaced(attached: Option<u64>, taskbars: &Vec<u64>) -> (replaced: bool)
    ensures
        replaced == (attached is Some && taskbars@.len() > 0 && !taskbars@.contains(attached->0)),
{
    match attached {
        None => false,
        Some(old_taskbar) => {
            let mut i: usize = 0;
            while i < taskbars.len()
                invariant
                    i <= taskbars@.len(),
                    attached == Some(old_taskbar),
                    forall|j: int| 0 <= j < i ==> taskbars@[j] != old_taskbar,
                decreases taskbars@.len() - i,
            {
                if taskbars[i] == old_taskbar {
                    assert(taskbars@.contains(old_taskbar));
                    return false;
                }
                i = i + 1;
            }
            taskbars.len() > 0
        },
    }
}

/// Text encoded in 16-bit units: a pair of surrogates is one character, and a
/// surrogate without its partner is read as U+FFFD.
pub open spec fn decoded(units: Seq<u16>) -> Seq<char>
    decreases units.len(),
{
    if units.len() == 0 {
        Seq::empty()
    } else if units[0] < 0xd800 || units[0] > 0xdfff {
        seq![units[0] as char] + decoded(units.skip(1))
    } else if units[0] < 0xdc00 && units.len() > 1 && 0xdc00 <= units[1] <= 0xdfff {
        seq![(0x10000 + (units[0] - 0xd800) * 0x400 + (units[1] - 0xdc00)) as char] + decoded(
            units.skip(2),
        )
    } else {
        seq![0xfffd as char] + decoded(units.skip(1))
    }
}

/// `String::from_utf16_lossy`: the text that 16-bit units encode, with U+FFFD
/// in place of each surrogate that has no partner.
#[verifier::external_body]
fn text_of_units(units: &Vec<u16>) -> (text: String)
    ensures
        text@ == decoded(units@),
{
    String::from_utf16_lossy(units)
}

/// Little-endian pairs of bytes as 16-bit units; an odd byte at the end is
/// dropped.
pub open spec fn units_of(bytes: Seq<u8>) -> Seq<u16> {
    Seq::new(
        bytes.len() / 2,
        |i: int| (bytes[2 * i] + bytes[2 * i + 1] * 0x100) as u16,
    )
}

/// 16-bit units as little-endian bytes.
pub open spec fn bytes_of(units: Seq<u16>) -> Seq<u8> {
    Seq::new(
        units.len() * 2,
        |i: int|
            if i % 2 == 0 {
                (units[i / 2] % 0x100) as u8
            } else {
                (units[i / 2] / 0x100) as u8
            },
    )
}

/// `text` without the NUL characters at its end.
pub open spec fn without_nuls(text: Seq<char>) -> Seq<char>
    decreases text.len(),
{
    if text.len() > 0 && text.last() == '\0' {
        without_nuls(text.drop_last())
    } else {
        text
    }
}

/// A character with ASCII capitals made small.
pub open spec fn small(c: char) -> char {
    if 'A' <= c <= 'Z' {
        (c as int + 32) as char
    } else {
        c
    }
}

/// Two texts differ at most in the case of ASCII letters.
pub open spec fn same_but_for_case(a: Seq<char>, b: Seq<char>) -> bool {
    &&& a.len() == b.len()
    &&& forall|i: int| 0 <= i < a.len() ==> small(#[trigger] a[i]) == small(b[i])
}

/// The startup entry names this executable.
pub open spec fn entry_names(value: Seq<u8>, exe: Seq<u16>) -> bool {
    same_but_for_case(without_nuls(decoded(units_of(value))), decoded(exe))
}

fn read_units(bytes: &Vec<u8>) -> (units: Vec<u16>)
    ensures
        units@ == units_of(bytes@),
{
    let mut units: Vec<u16> = Vec::new();
    let n: usize = bytes.len() / 2;
    let mut i: usize = 0;
    while i < n
        invariant
            i <= n,
            n == bytes@.len() / 2,
            bytes@.len() <= usize::MAX,
            units@ == units_of(bytes@).take(i as int),
        decreases n - i,
    {
        let unit: u16 = bytes[2 * i] as u16 + bytes[2 * i + 1] as u16 * 0x100;
        units.push(unit);
        i = i + 1;
        assert(units_of(bytes@).take(i as int) =~= units_of(bytes@).take(i - 1).push(
            units_of(bytes@)[i - 1],
        ));
    }
    assert(units_of(bytes@).take(n as int) =~= units_of(bytes@));
    units
}

fn trim_nuls(text: &str) -> (trimmed: &str)
    ensures
        trimmed@ == without_nuls(text@),
{
    let mut end: usize = text.unicode_len();
    assert(text@.take(end as int) =~= text@);
    while end > 0 && text.get_char(end - 1) == '\0'
        invariant
            end <= text@.len(),
            without_nuls(text@.take(end as int)) == without_nuls(text@),
        ensures
            end == 0 || text@[end - 1] != '\0',
        decreases end,
    {
        assert(text@.take(end as int).drop_last() =~= text@.take(end - 1));
        end = end - 1;
    }
    let trimmed = text.substring_char(0, end);
    assert(trimmed@ =~= text@.take(end as int));
    trimmed
}

fn equal_ignoring_case(a: &str, b: &str) -> (same: bool)
    ensures
        same == same_but_for_case(a@, b@),
{
    let n: usize = a.unicode_len();
    if b.unicode_len() != n {
        return false;
    }
    let mut i: usize = 0;
    while i < n
        invariant
            i <= n,
            n == a@.len(),
            n == b@.len(),
            forall|j: int| 0 <= j < i ==> small(#[trigger] a@[j]) == small(b@[j]),
        decreases n - i,
    {
        let (x, y) = (lowered(a.get_char(i)), lowered(b.get_char(i)));
        if x != y {
            return false;
        }
        i = i + 1;
    }
    true
}

fn lowered(c: char) -> (code: u32)
    ensures
        code == small(c) as u32,
{
    let code: u32 = c as u32;
    if 'A' as u32 <= code && code <= 'Z' as u32 {
        code + 32
    } else {
        code
    }
}

/// Whether the startup entry, as read from the registry, points to this
/// executable. Paths are compared without regard to case.
pub fn is_startup_enabled(value: Option<&Vec<u8>>, exe: &Vec<u16>) -> (enabled: bool)
    ensures
        enabled == (value is Some && value->0@.len() > 0 && exe@.len() > 0 && entry_names(
            value->0@,
            exe@,
        )),
{
    match value {
        None => false,
        Some(bytes) => {
            if bytes.len() == 0 || exe.len() == 0 {
                return false;
            }
            let stored = text_of_units(&read_units(bytes));
            let current = text_of_units(exe);
            equal_ignoring_case(trim_nuls(stored.as_str()), current.as_str())
        },
    }
}

/// The bytes to write as the startup entry: the path, closed by a NUL. There is
/// nothing to write without a path.
pub fn startup_entry(exe: &Vec<u16>) -> (entry: Option<Vec<u8>>)
    requires
        2 * exe@.len() + 2 <= usize::MAX,
    ensures
        exe@.len() == 0 <==> entry is None,
        entry is Some ==> entry->0@ == bytes_of(exe@.push(0)),
{
    if exe.len() == 0 {
        return None;
    }
    let mut bytes: Vec<u8> = Vec::new();
    let mut i: usize = 0;
    let ghost all = exe@.push(0);
    while i < exe.len()
        invariant
            i <= exe@.len(),
            all == exe@.push(0),
            2 * exe@.len() + 2 <= usize::MAX,
            bytes@ == bytes_of(all).take(2 * i),
        decreases exe@.len() - i,
    {
        bytes.push((exe[i] % 0x100) as u8);
        bytes.push((exe[i] / 0x100) as u8);
        i = i + 1;
        assert(bytes@ =~= bytes_of(all).take(2 * i));
    }
    bytes.push(0);
    bytes.push(0);
    assert(bytes@ =~= bytes_of(all));
    Some(bytes)
}

proof fn lemma_decoded_nul(units: Seq<u16>)
    ensures
        decoded(units.push(0)) == decoded(units).push('\0'),
    decreases units.len(),
{
    let all = units.push(0);
    reveal_with_fuel(decoded, 3);
    if units.len() == 0 {
        assert(all.skip(1) =~= Seq::empty());
        assert(decoded(all) =~= seq!['\0']);
        assert(decoded(units).push('\0') =~= seq!['\0']);
    } else if 0xd800 <= units[0] < 0xdc00 && units.len() > 1 && 0xdc00 <= units[1] <= 0xdfff {
        lemma_decoded_nul(units.skip(2));
        assert(all.skip(2) =~= units.skip(2).push(0));
        assert(decoded(all) =~= decoded(units).push('\0'));
    } else {
        lemma_decoded_nul(units.skip(1));
        assert(all.skip(1) =~= units.skip(1).push(0));
        assert(decoded(all) =~= decoded(units).push('\0'));
    }
}

/// An entry written for an executable is recognised as its own, for every path
/// whose text does not itself end in a NUL.
pub proof fn law_written_entries_are_recognised(exe: Seq<u16>)
    requires
        exe.len() > 0,
        decoded(exe).len() > 0 ==> decoded(exe).last() != '\0',
    ensures
        entry_names(bytes_of(exe.push(0)), exe),
{
    let all = exe.push(0);
    assert(units_of(bytes_of(all)) =~= all);
    lemma_decoded_nul(exe);
    assert(decoded(exe).push('\0').drop_last() =~= decoded(exe));
    reveal_with_fuel(without_nuls, 2);
    assert(without_nuls(decoded(all)) == decoded(exe));
}

/// The command line's modes exclude each other: a diagnostic run or a preview
/// never starts the monitor.
pub proof fn law_previews_start_no_services(args: Seq<Seq<char>>)
    ensures
        args.contains("--check-codex"@) ==> launch(args) is CheckCodex,
        args.contains("--preview"@) ==> !(launch(args) is Run),
        launch(args) is Run <==> !args.contains("--check-codex"@) && !args.contains("--preview"@),
{
    lemma_first_at(args, "--preview"@, 0);
}

proof fn lemma_first_at(args: Seq<Seq<char>>, word: Seq<char>, from: int)
    requires
        0 <= from <= args.len(),
    ensures
        first_at(args, word, from) is Some <==> exists|i: int|
            from <= i < args.len() && args[i] == word,
    decreases args.len() - from,
{
    if from < args.len() {
        lemma_first_at(args, word, from + 1);
    }
}

/// The command line means what it says: each switch acts wherever it stands, a
/// preview is written to the word after the first `--preview`, and nothing else
/// is looked at.
pub proof fn law_switches_mean_what_they_say(args: Seq<Seq<char>>, i: int)
    requires
        !args.contains("--check-codex"@),
    ensures
        !args.contains("--preview"@) ==> launch(args) == (Launch::<Seq<char>>::Run {
            diagnose: args.contains("--diagnose"@),
            codex_only: args.contains("--codex-only"@),
        }),
        0 <= i < args.len() && args[i] == "--preview"@ && (forall|j: int|
            0 <= j < i ==> args[j] != "--preview"@) ==> launch(args) == (Launch::Preview {
            path: if i + 1 < args.len() {
                Some(args[i + 1])
            } else {
                None
            },
            dark: !args.contains("--light"@),
            unavailable: args.contains("--unavailable"@),
        }),
{
    lemma_first_at(args, "--preview"@, 0);
    if 0 <= i < args.len() && args[i] == "--preview"@ && (forall|j: int|
        0 <= j < i ==> args[j] != "--preview"@) {
        lemma_first_is(args, "--preview"@, 0, i);
    }
}

proof fn lemma_first_is(args: Seq<Seq<char>>, word: Seq<char>, from: int, i: int)
    requires
        0 <= from <= i < args.len(),
        args[i] == word,
        forall|j: int| from <= j < i ==> args[j] != word,
    ensures
        first_at(args, word, from) == Some(i),
    decreases i - from,
{
    if from < i {
        lemma_first_is(args, word, from + 1, i);
    }
}

/// A launch polls at once and then at its own interval; it shows and animates
/// the widget exactly if it is to be seen, samples memory every two seconds,
/// and looks for an update exactly if one is due.
pub proof fn law_a_launch_starts_what_it_needs(m: Model, found: bool, due: bool)
    ensures
        ({
            let e = first_effects(m, found, due);
            &&& e.contains(Effect::StartPoll)
            &&& e.contains(
                Effect::SetTimer { timer: Timer::Poll, ms: m.polling.interval_ms },
            )
            &&& e.contains(Effect::SetTimer { timer: Timer::Ram, ms: 2_000 })
            &&& e.contains(Effect::SetTimer { timer: Timer::Anim, ms: 100 }) <==> m.widget_visible
            &&& e.contains(Effect::ShowWindow) <==> m.widget_visible
            &&& e.contains(Effect::HideWindow) <==> !m.widget_visible
            &&& e.contains(Effect::CheckForUpdates { interactive: false }) <==> due
            &&& e.contains(Effect::SyncTrayIcons)
            &&& e.contains(Effect::Reposition)
            &&& e.contains(Effect::WatchTaskbar)
            &&& e.contains(Effect::ScheduleUpdateCheck)
            &&& !e.contains(Effect::SaveSettings)
        }),
{
    lemma_launch_effects(m, found, due);
    let e = first_effects(m, found, due);
    let a = (if found {
        0int
    } else {
        1
    }) + (if found && m.embed_in_taskbar {
        0int
    } else {
        4
    });
    let b = a + 6 + (if m.widget_visible {
        1int
    } else {
        0
    });
    assert(e[a] == Effect::SyncTrayIcons);
    assert(e[a + 1] == Effect::Reposition);
    assert(e[a + 2] == if m.widget_visible {
        Effect::ShowWindow
    } else {
        Effect::HideWindow
    });
    assert(e[a + 4] == (Effect::SetTimer { timer: Timer::Poll, ms: m.polling.interval_ms }));
    assert(e[a + 5] == (Effect::SetTimer { timer: Timer::Ram, ms: 2_000 }));
    if m.widget_visible {
        assert(e[a + 6] == (Effect::SetTimer { timer: Timer::Anim, ms: 100 }));
    }
    assert(e[b] == Effect::WatchTaskbar);
    assert(e[b + 1] == Effect::StartPoll);
    assert(e[b + 2] == Effect::ScheduleUpdateCheck);
    if due {
        assert(e[b + 3] == (Effect::CheckForUpdates { interactive: false }));
    }
}

/// A missing taskbar is looked for every second; a widget that is not part of a
/// taskbar is raised above other windows, again every second.
pub proof fn law_a_launch_finds_its_place(m: Model, found: bool, due: bool)
    ensures
        ({
            let e = first_effects(m, found, due);
            let floats = !found || !m.embed_in_taskbar;
            &&& e.contains(
                Effect::SetTimer { timer: Timer::TaskbarRetry, ms: 1_000 },
            ) <==> !found
            &&& e.contains(Effect::MakeLayered) <==> floats
            &&& e.contains(Effect::ReassertTopmost) <==> floats
            &&& e.contains(Effect::InstallForegroundHook) <==> floats
            &&& e.contains(Effect::SetTimer { timer: Timer::Topmost, ms: 1_000 }) <==> floats
        }),
{
    lemma_launch_effects(m, found, due);
    let e = first_effects(m, found, due);
    let a = if found {
        0int
    } else {
        1
    };
    if !found {
        assert(e[0] == (Effect::SetTimer { timer: Timer::TaskbarRetry, ms: 1_000 }));
    }
    if !found || !m.embed_in_taskbar {
        assert(e[a] == Effect::MakeLayered);
        assert(e[a + 1] == Effect::ReassertTopmost);
        assert(e[a + 2] == Effect::InstallForegroundHook);
        assert(e[a + 3] == (Effect::SetTimer { timer: Timer::Topmost, ms: 1_000 }));
    }
}

proof fn lemma_launch_effects(m: Model, found: bool, due: bool)
    ensures
        forall|x: Effect| #[trigger]
            first_effects(m, found, due).contains(x) ==> {
                ||| !found && x == (Effect::SetTimer { timer: Timer::TaskbarRetry, ms: 1_000 })
                ||| (!found || !m.embed_in_taskbar) && (x == Effect::MakeLayered || x
                    == Effect::ReassertTopmost || x == Effect::InstallForegroundHook || x == (
                Effect::SetTimer { timer: Timer::Topmost, ms: 1_000 }))
                ||| x == Effect::SyncTrayIcons || x == Effect::Reposition || x == Effect::Render
                ||| m.widget_visible && x == Effect::ShowWindow
                ||| !m.widget_visible && x == Effect::HideWindow
                ||| x == (Effect::SetTimer { timer: Timer::Poll, ms: m.polling.interval_ms })
                ||| x == (Effect::SetTimer { timer: Timer::Ram, ms: 2_000 })
                ||| m.widget_visible && x == (Effect::SetTimer { timer: Timer::Anim, ms: 100 })
                ||| x == Effect::WatchTaskbar || x == Effect::StartPoll || x
                    == Effect::ScheduleUpdateCheck
                ||| due && x == (Effect::CheckForUpdates { interactive: false })
                ||| x == Effect::CheckTheme
            },
{
}

/// Only one copy runs: a second one stops, unless it was relaunched to take
/// over, in which case it waits.
pub proof fn law_only_one_copy_runs(
    claim: Claim,
    guard_created: bool,
    already_running: bool,
    relaunched: bool,
)
    requires
        call_ensures(claim_instance, (guard_created, already_running, relaunched), claim),
    ensures
        claim == Claim::Start <==> guard_created && !already_running,
        claim is WaitForPrevious <==> guard_created && already_running && relaunched,
        claim is WaitForPrevious ==> claim == Claim::WaitForPrevious(10_000),
        already_running && !relaunched ==> claim == Claim::Abort,
{
}

/// A copy that waited starts once the previous one let go, however it did, and
/// gives up otherwise.
pub proof fn law_waiting_ends_when_the_other_lets_go(claim: Claim, outcome: WaitOutcome)
    requires
        call_ensures(claim_after_wait, (outcome,), claim),
    ensures
        claim == Claim::Start <==> outcome == WaitOutcome::Released || outcome
            == WaitOutcome::Abandoned,
        claim == Claim::Abort <==> outcome == WaitOutcome::Other,
{
}

/// A relaunch within ten seconds of the last one is held back for thirty; the
/// first one and later ones are not.
pub proof fn law_relaunch_storms_are_held_back(wait: Option<u64>, last: u64, now: u64)
    requires
        call_ensures(relaunch_backoff, (last, now), wait),
    ensures
        last == 0 ==> wait is None,
        now >= last + 10 ==> wait is None,
        last != 0 && now < last + 10 ==> wait == Some(30u64),
{
}

/// A text holds no ASCII capitals.
pub open spec fn without_capitals(text: Seq<char>) -> bool {
    forall|i: int| #![trigger text[i]] 0 <= i < text.len() ==> text[i] < 'A' || 'Z' < text[i]
}

/// Recognising a startup entry takes no notice of the case of ASCII letters and
/// of nothing else: texts without capitals have to be equal.
pub proof fn law_only_case_is_overlooked(a: Seq<char>, b: Seq<char>)
    ensures
        same_but_for_case(a, a),
        same_but_for_case(a, b) == same_but_for_case(b, a),
        same_but_for_case(a, b) ==> a.len() == b.len(),
        same_but_for_case(a, b) && without_capitals(a) && without_capitals(b) ==> a == b,
        small('A') == 'a' && small('Z') == 'z' && small('@') == '@' && small('[') == '[',
{
    if same_but_for_case(a, b) && without_capitals(a) && without_capitals(b) {
        assert forall|i: int| 0 <= i < a.len() implies a[i] == b[i] by {
            assert(small(a[i]) == small(b[i]));
        }
        assert(a =~= b);
    }
    if same_but_for_case(a, b) {
        assert forall|i: int| 0 <= i < b.len() implies small(#[trigger] b[i]) == small(a[i]) by {
            assert(small(a[i]) == small(b[i]));
        }
    }
    if same_but_for_case(b, a) {
        assert forall|i: int| 0 <= i < a.len() implies small(#[trigger] a[i]) == small(b[i]) by {
            assert(small(b[i]) == small(a[i]));
        }
    }
}

/// Writing units as bytes and reading them back gives the units; each unit
/// takes two bytes, the low one first.
pub proof fn law_units_survive_as_bytes(units: Seq<u16>, i: int)
    requires
        0 <= i < units.len(),
    ensures
        units_of(bytes_of(units)) == units,
        bytes_of(units).len() == 2 * units.len(),
        bytes_of(units)[2 * i] + bytes_of(units)[2 * i + 1] * 0x100 == units[i],
        bytes_of(units)[2 * i] == units[i] % 0x100,
{
    let bytes = bytes_of(units);
    lemma_unit_bytes(units, i);
    assert forall|k: int| 0 <= k < units.len() implies #[trigger] units_of(bytes)[k]
        == units[k] by {
        lemma_unit_bytes(units, k);
    }
    assert(units_of(bytes) =~= units);
}

proof fn lemma_unit_bytes(units: Seq<u16>, k: int)
    requires
        0 <= k < units.len(),
    ensures
        bytes_of(units)[2 * k] == units[k] % 0x100,
        bytes_of(units)[2 * k + 1] == units[k] / 0x100,
        bytes_of(units)[2 * k] + bytes_of(units)[2 * k + 1] * 0x100 == units[k],
{
    assert((2 * k) % 2 == 0 && (2 * k) / 2 == k);
    assert((2 * k + 1) % 2 == 1 && (2 * k + 1) / 2 == k);
}

/// A character in 16-bit units: itself, or a pair of surrogates.
pub open spec fn units_for(c: char) -> Seq<u16> {
    let n = c as int;
    if n < 0x10000 {
        seq![n as u16]
    } else {
        seq![(0xd800 + (n - 0x10000) / 0x400) as u16, (0xdc00 + (n - 0x10000) % 0x400) as u16]
    }
}

/// Every character is read back from its units, whatever follows them; a
/// surrogate on its own is read as U+FFFD.
pub proof fn law_characters_are_read_from_their_units(c: char, rest: Seq<u16>, lone: u16)
    requires
        0xdc00 <= lone <= 0xdfff,
    ensures
        decoded(units_for(c) + rest) == seq![c] + decoded(rest),
        decoded(seq![lone] + rest) == seq!['\u{fffd}'] + decoded(rest),
        decoded(Seq::empty()).len() == 0,
{
    let units = units_for(c) + rest;
    if (c as int) < 0x10000 {
        assert(units.skip(1) =~= rest);
    } else {
        assert(units.skip(2) =~= rest);
        let n = c as int - 0x10000;
        assert(n == n / 0x400 * 0x400 + n % 0x400);
        assert(units[0] == 0xd800 + n / 0x400);
        assert(units[1] == 0xdc00 + n % 0x400);
    }
    assert((seq![lone] + rest).skip(1) =~= rest);
}

} // verus!
