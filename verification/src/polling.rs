//! Polling: what a poll's outcome does to the state and to the timers.
use crate::effects::{given, Effect, Timer};
use crate::geometry::larger;
use crate::measure::Binary64;
use crate::models::{AppUsageData, Moment, UsageData, UsageSection};
use crate::readout::{figure_text, label_text, law_absence_is_named, reads};
use crate::settings::{first_settings, SettingsFile};
use crate::state::{
    model_of, saved_as, started, with_every_text, with_texts, AppState, Card, InstallChannel, Model,
    Polling, Provider, Row, State, WatchMode,
};
use vstd::arithmetic::power2::{
    lemma_pow2_pos, lemma_pow2_strictly_increases, lemma2_to64, lemma2_to64_rest, pow2,
};
use vstd::bits::{lemma_u64_pow2_no_overflow, lemma_u64_shl_is_mul};
use vstd::prelude::*;

verus! {

/// The wait before the first retry, doubled for each retry after it.
pub const RETRY_BASE_MS: u32 = 30_000;

/// How often a passed reset is polled for fresh data.
pub const RESET_POLL_MS: u32 = 5_000;

/// Why a poll failed.
#[derive(Clone, Copy, Debug, PartialEq, Eq, Structural)]
pub enum PollError {
    AuthRequired,
    TokenExpired,
    NoCredentials,
    RequestFailed,
}

/// The countdown of each window, as formatted from a poll's data. A text of a
/// provider without data is not looked at.
#[verifier::ext_equal]
#[derive(Debug)]
pub struct Countdowns<T> {
    pub claude_session: T,
    pub claude_weekly: T,
    pub codex_session: T,
    pub codex_weekly: T,
    pub antigravity_session: T,
    pub antigravity_weekly: T,
    pub fable: T,
}

impl View for Countdowns<String> {
    type V = Countdowns<Seq<char>>;

    open spec fn view(&self) -> Countdowns<Seq<char>> {
        Countdowns {
            claude_session: self.claude_session@,
            claude_weekly: self.claude_weekly@,
            codex_session: self.codex_session@,
            codex_weekly: self.codex_weekly@,
            antigravity_session: self.antigravity_session@,
            antigravity_weekly: self.antigravity_weekly@,
            fable: self.fable@,
        }
    }
}

/// Which providers a poll asks.
pub open spec fn choices(m: Option<Model>) -> (bool, bool, bool) {
    match m {
        Some(s) => (s.claude.shown, s.codex.shown, s.antigravity.shown),
        None => (true, false, false),
    }
}

/// An empty countdown means no known reset time, and reads as such.
pub open spec fn or_dash(text: Seq<char>) -> Seq<char> {
    if text.len() == 0 {
        "--"@
    } else {
        text
    }
}

/// A card's figures after a poll: the reported ones, zero where a shown
/// provider reported nothing, and the old ones of a hidden provider.
pub open spec fn with_percents(card: Card<Seq<char>>, usage: Option<UsageData>) -> Card<Seq<char>> {
    match usage {
        Some(u) => Card {
            shown: card.shown,
            session: Row { percent: u.session.percentage, text: card.session.text },
            weekly: Row { percent: u.weekly.percentage, text: card.weekly.text },
        },
        None => if card.shown {
            Card {
                shown: card.shown,
                session: Row { percent: Binary64 { bits: 0 }, text: card.session.text },
                weekly: Row { percent: Binary64 { bits: 0 }, text: card.weekly.text },
            }
        } else {
            card
        },
    }
}

/// A window's countdown as it is kept: one that was not reported says so,
/// whatever was formatted for it.
pub open spec fn window_countdown(section: UsageSection, text: Seq<char>) -> Seq<char> {
    if section.available {
        or_dash(text)
    } else {
        "n/a"@
    }
}

/// A card's countdowns once its provider's data is known.
pub open spec fn with_countdowns(
    card: Card<Seq<char>>,
    usage: Option<UsageData>,
    session: Seq<char>,
    weekly: Seq<char>,
) -> Card<Seq<char>> {
    match usage {
        Some(u) => with_texts(
            card,
            window_countdown(u.session, session),
            window_countdown(u.weekly, weekly),
        ),
        None => if card.shown {
            with_texts(card, "!"@, "!"@)
        } else {
            card
        },
    }
}

/// The extra quota of Antigravity reads as unknown while it reports neither a
/// use nor a reset.
pub open spec fn antigravity_weekly_text(usage: Option<UsageData>, text: Seq<char>) -> Seq<char> {
    match usage {
        Some(u) => if u.weekly.resets_at is None && u.weekly.percentage.zero() {
            "--"@
        } else {
            text
        },
        None => text,
    }
}

/// A state with its countdowns brought up to date. Error texts are kept: stale
/// data never overwrites them.
pub open spec fn refreshed(m: Model, texts: Countdowns<Seq<char>>) -> Model {
    if !m.polling.last_ok {
        m
    } else {
        match m.data {
            None => m,
            Some(d) => AppState {
                claude: with_countdowns(
                    m.claude,
                    d.claude_code,
                    texts.claude_session,
                    texts.claude_weekly,
                ),
                codex: with_countdowns(m.codex, d.codex, texts.codex_session, texts.codex_weekly),
                antigravity: with_countdowns(
                    m.antigravity,
                    d.antigravity,
                    texts.antigravity_session,
                    antigravity_weekly_text(d.antigravity, texts.antigravity_weekly),
                ),
                ..m
            },
        }
    }
}

/// Polling settled down: no retry, no pause, nothing watched.
pub open spec fn settled(p: Polling<Seq<u64>>) -> Polling<Seq<u64>> {
    Polling {
        interval_ms: p.interval_ms,
        retry_count: 0,
        force_notify_auth_error: false,
        auth_error_paused: false,
        watch_mode: WatchMode::ActiveSource,
        watch_snapshot: Seq::empty(),
        last_ok: true,
    }
}

/// A state with the figures of a poll, and polling settled down.
pub open spec fn with_readings(m: Model, data: AppUsageData) -> Model {
    AppState {
        claude: with_percents(m.claude, data.claude_code),
        codex: with_percents(m.codex, data.codex),
        antigravity: with_percents(m.antigravity, data.antigravity),
        data: Some(data),
        polling: settled(m.polling),
        ..m
    }
}

/// A state after a poll that brought `data`.
pub open spec fn polled(m: Model, data: AppUsageData, texts: Countdowns<Seq<char>>) -> Model {
    refreshed(with_readings(m, data), texts)
}

/// What a successful poll asks for.
pub open spec fn polled_effects(m: Model, past_reset: bool) -> Seq<Effect> {
    given(!past_reset, Effect::KillTimer(Timer::ResetPoll)) + given(
        m.polling.retry_count > 0,
        Effect::SetTimer { timer: Timer::Poll, ms: m.polling.interval_ms },
    ) + seq![Effect::PostUsageUpdated]
}

/// Which credentials to watch after an error, if signing in can mend it.
pub open spec fn watch_after(error: PollError, claude: bool, codex: bool, antigravity: bool)
    -> Option<WatchMode> {
    match error {
        PollError::RequestFailed => None,
        PollError::NoCredentials => if codex && !claude && !antigravity {
            Some(WatchMode::Codex)
        } else {
            Some(WatchMode::AllSources)
        },
        _ => if codex && !claude && !antigravity {
            Some(WatchMode::Codex)
        } else if antigravity && !claude && !codex {
            Some(WatchMode::Antigravity)
        } else {
            Some(WatchMode::ActiveSource)
        },
    }
}

/// The number of failures in a row after one more.
pub open spec fn one_more(retries: u32) -> u32 {
    if retries == u32::MAX {
        u32::MAX
    } else {
        (retries + 1) as u32
    }
}

/// The wait before retry number `retry`: 30 seconds, doubled each time, but
/// never longer than the regular interval.
pub open spec fn backoff(retry: u32, interval_ms: u32) -> int {
    let wait = RETRY_BASE_MS * pow2((retry - 1) as nat);
    if wait < interval_ms {
        wait
    } else {
        interval_ms as int
    }
}

/// Polling after one more failure, paused to watch credentials or not.
pub open spec fn failed(
    p: Polling<Seq<u64>>,
    pause: bool,
    mode: WatchMode,
    snapshot: Seq<u64>,
) -> Polling<Seq<u64>> {
    Polling {
        interval_ms: p.interval_ms,
        retry_count: one_more(p.retry_count),
        force_notify_auth_error: false,
        auth_error_paused: pause,
        watch_mode: mode,
        watch_snapshot: snapshot,
        last_ok: false,
    }
}

/// A state after an error that signing in can mend: polling pauses and watches
/// the credentials.
pub open spec fn paused(m: Model, mode: WatchMode, snapshot: Seq<u64>) -> Model {
    with_every_text(
        AppState { polling: failed(m.polling, true, mode, snapshot), ..m },
        "!"@,
    )
}

/// A state after an error that may pass by itself.
pub open spec fn backing_off(m: Model) -> Model {
    with_every_text(
        AppState {
            polling: failed(m.polling, false, WatchMode::ActiveSource, Seq::empty()),
            ..m
        },
        "..."@,
    )
}

/// The provider whose sign-in a notification is about.
pub open spec fn notified(m: Model) -> Provider {
    if m.claude.shown {
        Provider::Claude
    } else if m.codex.shown {
        Provider::Codex
    } else {
        Provider::Antigravity
    }
}

pub open spec fn paused_effects(m: Model) -> Seq<Effect> {
    seq![
        Effect::KillTimer(Timer::Poll),
        Effect::KillTimer(Timer::ResetPoll),
        Effect::KillTimer(Timer::Countdown),
        Effect::SetTimer { timer: Timer::Poll, ms: m.polling.interval_ms },
    ] + given(
        m.polling.retry_count == 0 || m.polling.force_notify_auth_error,
        Effect::NotifySignIn(notified(m)),
    ) + seq![Effect::PostUsageUpdated]
}

pub open spec fn backing_off_effects(m: Model) -> Seq<Effect> {
    seq![
        Effect::KillTimer(Timer::ResetPoll),
        Effect::SetTimer {
            timer: Timer::Poll,
            ms: backoff(one_more(m.polling.retry_count), m.polling.interval_ms) as u32,
        },
        Effect::PostUsageUpdated,
    ]
}

/// The Fable figure and countdown of a state.
pub open spec fn fable_of(m: Model, text: Seq<char>) -> Row<Seq<char>> {
    if !m.polling.last_ok {
        Row {
            percent: Binary64 { bits: 0 },
            text: if m.claude.weekly.text == "!"@ {
                "!"@
            } else {
                "..."@
            },
        }
    } else if m.data is Some && m.data->0.claude_code is Some {
        let fable = m.data->0.claude_code->0.fable;
        Row { percent: fable.percentage, text: window_countdown(fable, text) }
    } else {
        Row { percent: Binary64 { bits: 0 }, text: "!"@ }
    }
}

pub open spec fn fable_shown(m: Option<Model>, text: Seq<char>) -> Row<Seq<char>> {
    match m {
        Some(s) => fable_of(s, text),
        None => Row { percent: Binary64 { bits: 0 }, text: "..."@ },
    }
}

/// Which providers the next poll asks.
pub fn poll_choices(state: &Option<State>) -> (c: (bool, bool, bool))
    ensures
        c == choices(model_of(*state)),
{
    match state {
        Some(s) => (s.claude.shown, s.codex.shown, s.antigravity.shown),
        None => (true, false, false),
    }
}

/// An empty countdown means no known reset time; the readout needs something
/// to draw.
pub fn reset_or_dash(text: &str) -> (shown: String)
    ensures
        shown@ == or_dash(text@),
{
    if text.is_empty() {
        "--".to_owned()
    } else {
        text.to_owned()
    }
}

/// The countdown to keep for a window.
fn countdown_of(section: &UsageSection, text: &str) -> (shown: String)
    ensures
        shown@ == window_countdown(*section, text@),
{
    if section.available {
        reset_or_dash(text)
    } else {
        "n/a".to_owned()
    }
}

/// Which credentials to watch after a poll of the given providers failed.
pub fn auth_watch(error: PollError, claude: bool, codex: bool, antigravity: bool) -> (mode: Option<
    WatchMode,
>)
    ensures
        mode == watch_after(error, claude, codex, antigravity),
{
    match error {
        PollError::RequestFailed => None,
        PollError::NoCredentials => {
            if codex && !claude && !antigravity {
                Some(WatchMode::Codex)
            } else {
                Some(WatchMode::AllSources)
            }
        },
        _ => {
            if codex && !claude && !antigravity {
                Some(WatchMode::Codex)
            } else if antigravity && !claude && !codex {
                Some(WatchMode::Antigravity)
            } else {
                Some(WatchMode::ActiveSource)
            }
        },
    }
}

/// The wait before a retry, in milliseconds.
pub fn retry_delay(retry: u32, interval_ms: u32) -> (ms: u32)
    requires
        retry >= 1,
    ensures
        ms == backoff(retry, interval_ms),
{
    let shift: u32 = retry - 1;
    proof {
        lemma2_to64();
        lemma2_to64_rest();
    }
    if shift >= 32 {
        proof {
            if shift > 32 {
                lemma_pow2_strictly_increases(32, shift as nat);
            }
        }
        return interval_ms;
    }
    let power: u64 = 1u64 << (shift as u64);
    proof {
        lemma_u64_pow2_no_overflow(shift as nat);
        lemma_u64_shl_is_mul(1, shift as u64);
        lemma_pow2_strictly_increases(shift as nat, 32);
    }
    let wait: u64 = RETRY_BASE_MS as u64 * power;
    if wait < interval_ms as u64 {
        wait as u32
    } else {
        interval_ms
    }
}

impl Card<String> {
    fn take_percents(&mut self, usage: Option<UsageData>)
        ensures
            final(self)@ == with_percents(old(self)@, usage),
    {
        match usage {
            Some(u) => {
                self.session.percent = u.session.percentage;
                self.weekly.percent = u.weekly.percentage;
            },
            None => {
                if self.shown {
                    self.session.percent = Binary64 { bits: 0 };
                    self.weekly.percent = Binary64 { bits: 0 };
                }
            },
        }
    }

    fn take_countdowns(&mut self, usage: Option<UsageData>, session: &str, weekly: &str)
        ensures
            final(self)@ == with_countdowns(old(self)@, usage, session@, weekly@),
    {
        match usage {
            Some(u) => {
                self.session.text = countdown_of(&u.session, session);
                self.weekly.text = countdown_of(&u.weekly, weekly);
            },
            None => {
                if self.shown {
                    self.set_texts("!", "!");
                }
            },
        }
    }
}

impl Polling<Vec<u64>> {
    fn settle(&mut self)
        ensures
            final(self)@ == settled(old(self)@),
    {
        self.retry_count = 0;
        self.force_notify_auth_error = false;
        self.auth_error_paused = false;
        self.watch_mode = WatchMode::ActiveSource;
        self.watch_snapshot.clear();
        self.last_ok = true;
    }

    fn fail(&mut self, pause: bool, mode: WatchMode, snapshot: Vec<u64>)
        ensures
            final(self)@ == failed(old(self)@, pause, mode, snapshot@),
    {
        self.retry_count = if self.retry_count == u32::MAX {
            u32::MAX
        } else {
            self.retry_count + 1
        };
        self.force_notify_auth_error = false;
        self.auth_error_paused = pause;
        self.watch_mode = mode;
        self.watch_snapshot = snapshot;
        self.last_ok = false;
    }
}

impl AppState<String, Vec<u64>> {
    /// Bring the countdowns up to date with the last good poll.
    pub fn refresh_usage_texts(&mut self, texts: &Countdowns<String>)
        ensures
            final(self)@ == refreshed(old(self)@, texts@),
    {
        if !self.polling.last_ok {
            return;
        }
        match self.data {
            None => {},
            Some(d) => {
                self.claude.take_countdowns(
                    d.claude_code,
                    texts.claude_session.as_str(),
                    texts.claude_weekly.as_str(),
                );
                self.codex.take_countdowns(
                    d.codex,
                    texts.codex_session.as_str(),
                    texts.codex_weekly.as_str(),
                );
                let weekly: &str = match d.antigravity {
                    Some(u) => {
                        if u.weekly.resets_at.is_none() && u.weekly.percentage.is_zero() {
                            "--"
                        } else {
                            texts.antigravity_weekly.as_str()
                        }
                    },
                    None => texts.antigravity_weekly.as_str(),
                };
                self.antigravity.take_countdowns(
                    d.antigravity,
                    texts.antigravity_session.as_str(),
                    weekly,
                );
            },
        }
    }

    fn take_readings(&mut self, data: AppUsageData)
        ensures
            final(self)@ == with_readings(old(self)@, data),
    {
        self.claude.take_percents(data.claude_code);
        self.codex.take_percents(data.codex);
        self.antigravity.take_percents(data.antigravity);
        self.data = Some(data);
        self.polling.settle();
    }

    /// Take over what a successful poll brought. `past_reset` tells whether
    /// some window's reset lies in the past.
    pub fn poll_succeeded(
        &mut self,
        data: AppUsageData,
        past_reset: bool,
        texts: &Countdowns<String>,
    ) -> (effects: Vec<Effect>)
        ensures
            final(self)@ == polled(old(self)@, data, texts@),
            effects@ == polled_effects(old(self)@, past_reset),
    {
        let mut effects: Vec<Effect> = Vec::new();
        if !past_reset {
            effects.push(Effect::KillTimer(Timer::ResetPoll));
        }
        if self.polling.retry_count > 0 {
            effects.push(Effect::SetTimer { timer: Timer::Poll, ms: self.polling.interval_ms });
        }
        effects.push(Effect::PostUsageUpdated);
        assert(effects@ =~= polled_effects(self@, past_reset));
        self.take_readings(data);
        self.refresh_usage_texts(texts);
        effects
    }

    /// Take over that a poll failed. `watch` holds the credentials to watch and
    /// their fingerprints, where signing in can mend the error.
    pub fn poll_failed(&mut self, watch: Option<(WatchMode, Vec<u64>)>) -> (effects: Vec<Effect>)
        ensures
            match watch {
                Some((mode, snapshot)) => {
                    &&& final(self)@ == paused(old(self)@, mode, snapshot@)
                    &&& effects@ == paused_effects(old(self)@)
                },
                None => {
                    &&& final(self)@ == backing_off(old(self)@)
                    &&& effects@ == backing_off_effects(old(self)@)
                },
            },
    {
        match watch {
            Some((mode, snapshot)) => {
                let effects = self.pause_effects();
                self.polling.fail(true, mode, snapshot);
                self.set_every_text("!");
                effects
            },
            None => {
                self.polling.fail(false, WatchMode::ActiveSource, Vec::new());
                self.set_every_text("...");
                let ms: u32 = retry_delay(self.polling.retry_count, self.polling.interval_ms);
                vec![
                    Effect::KillTimer(Timer::ResetPoll),
                    Effect::SetTimer { timer: Timer::Poll, ms },
                    Effect::PostUsageUpdated,
                ]
            },
        }
    }

    fn pause_effects(&self) -> (effects: Vec<Effect>)
        ensures
            effects@ == paused_effects(self@),
    {
        let mut effects = vec![
            Effect::KillTimer(Timer::Poll),
            Effect::KillTimer(Timer::ResetPoll),
            Effect::KillTimer(Timer::Countdown),
            Effect::SetTimer { timer: Timer::Poll, ms: self.polling.interval_ms },
        ];
        if self.polling.retry_count == 0 || self.polling.force_notify_auth_error {
            effects.push(Effect::NotifySignIn(self.balloon_provider()));
        }
        effects.push(Effect::PostUsageUpdated);
        assert(effects@ =~= paused_effects(self@));
        effects
    }

    /// The provider whose sign-in a notification is about.
    pub fn balloon_provider(&self) -> (p: Provider)
        ensures
            p == notified(self@),
    {
        if self.claude.shown {
            Provider::Claude
        } else if self.codex.shown {
            Provider::Codex
        } else {
            Provider::Antigravity
        }
    }

    /// The Fable figure and countdown; `text` is its formatted countdown.
    pub fn fable_readout(&self, text: &str) -> (row: Row<String>)
        ensures
            row@ == fable_of(self@, text@),
    {
        if !self.polling.last_ok {
            let shown = if crate::text::same_text(self.claude.weekly.text.as_str(), "!") {
                "!".to_owned()
            } else {
                "...".to_owned()
            };
            return Row { percent: Binary64 { bits: 0 }, text: shown };
        }
        match self.data {
            Some(d) => match d.claude_code {
                Some(u) => Row {
                    percent: u.fable.percentage,
                    text: countdown_of(&u.fable, text),
                },
                None => Row { percent: Binary64 { bits: 0 }, text: "!".to_owned() },
            },
            None => Row { percent: Binary64 { bits: 0 }, text: "!".to_owned() },
        }
    }
}

/// How a poll ended.
#[derive(Debug)]
pub enum PollOutcome {
    /// The providers answered.
    Ready { data: AppUsageData, past_reset: bool, texts: Countdowns<String> },
    /// They did not; with the credentials to watch, where that can help.
    Failed { watch: Option<(WatchMode, Vec<u64>)> },
}

/// The state after a poll.
pub open spec fn after_poll(m: Option<Model>, outcome: PollOutcome) -> Option<Model> {
    match m {
        None => None,
        Some(s) => match outcome {
            PollOutcome::Ready { data, past_reset, texts } => Some(polled(s, data, texts@)),
            PollOutcome::Failed { watch } => match watch {
                Some((mode, snapshot)) => Some(paused(s, mode, snapshot@)),
                None => Some(backing_off(s)),
            },
        },
    }
}

/// What a poll's outcome asks for.
pub open spec fn after_poll_effects(m: Option<Model>, outcome: PollOutcome) -> Seq<Effect> {
    match m {
        None => seq![Effect::PostUsageUpdated],
        Some(s) => match outcome {
            PollOutcome::Ready { data, past_reset, texts } => polled_effects(s, past_reset),
            PollOutcome::Failed { watch } => if watch is Some {
                paused_effects(s)
            } else {
                backing_off_effects(s)
            },
        },
    }
}

/// Take over how a poll ended.
pub fn do_poll(state: &mut Option<State>, outcome: PollOutcome) -> (effects: Vec<Effect>)
    ensures
        model_of(*final(state)) == after_poll(model_of(*old(state)), outcome),
        effects@ == after_poll_effects(model_of(*old(state)), outcome),
{
    match state {
        None => vec![Effect::PostUsageUpdated],
        Some(s) => match outcome {
            PollOutcome::Ready { data, past_reset, texts } => s.poll_succeeded(
                data,
                past_reset,
                &texts,
            ),
            PollOutcome::Failed { watch } => s.poll_failed(watch),
        },
    }
}

/// The Fable row of a state that may not exist yet.
pub fn fable_readout(state: &Option<State>, text: &str) -> (row: Row<String>)
    ensures
        row@ == fable_shown(model_of(*state), text@),
{
    match state {
        Some(s) => s.fable_readout(text),
        None => Row { percent: Binary64 { bits: 0 }, text: "...".to_owned() },
    }
}

/// The times until each shown countdown changes, in nanoseconds.
#[derive(Clone, Copy, Debug, PartialEq, Eq, Structural)]
pub struct DisplayChanges {
    pub claude_session: Option<u128>,
    pub claude_weekly: Option<u128>,
    pub fable: Option<u128>,
    pub codex_session: Option<u128>,
    pub codex_weekly: Option<u128>,
    pub antigravity_session: Option<u128>,
    pub antigravity_weekly: Option<u128>,
}

pub const MINUTE_NANOS: u128 = 60_000_000_000;

/// The earlier of two times, where a missing one never comes.
pub open spec fn earlier(a: Option<u128>, b: Option<u128>) -> Option<u128> {
    match (a, b) {
        (Some(x), Some(y)) => if x < y {
            Some(x)
        } else {
            Some(y)
        },
        (Some(x), None) => Some(x),
        (None, b) => b,
    }
}

fn earlier_of(a: Option<u128>, b: Option<u128>) -> (e: Option<u128>)
    ensures
        e == earlier(a, b),
{
    match a {
        Some(x) => match b {
            Some(y) => {
                if x < y {
                    Some(x)
                } else {
                    Some(y)
                }
            },
            None => Some(x),
        },
        None => b,
    }
}

impl DisplayChanges {
    pub open spec fn first(self) -> Option<u128> {
        earlier(
            self.claude_session,
            earlier(
                self.claude_weekly,
                earlier(
                    self.fable,
                    earlier(
                        self.codex_session,
                        earlier(
                            self.codex_weekly,
                            earlier(self.antigravity_session, self.antigravity_weekly),
                        ),
                    ),
                ),
            ),
        )
    }
}

/// A reset time that has not passed.
pub open spec fn upcoming(t: Option<Moment>, now: Moment) -> bool {
    t is Some && t->0.nanos >= now.nanos
}

/// A pace marker is drawn and moves with the clock.
pub open spec fn pace_is_live(m: Model, now: Moment) -> bool {
    &&& m.claude.shown
    &&& m.data is Some
    &&& m.data->0.claude_code is Some
    &&& upcoming(m.data->0.claude_code->0.session.resets_at, now) || upcoming(
        m.data->0.claude_code->0.weekly.resets_at,
        now,
    )
}

/// The wait until the display has to change, in nanoseconds: the first change,
/// a minute when none is known, and at most a minute while a marker moves.
pub open spec fn display_wait(m: Model, changes: DisplayChanges, now: Moment) -> int {
    let wait = match changes.first() {
        Some(n) => n as int,
        None => MINUTE_NANOS as int,
    };
    if pace_is_live(m, now) && wait > MINUTE_NANOS {
        MINUTE_NANOS as int
    } else {
        wait
    }
}

/// A wait in milliseconds, no less than a second, kept to its low 32 bits.
pub open spec fn timer_ms(nanos: int) -> int {
    (if nanos / 1_000_000 < 1000 {
        1000
    } else {
        nanos / 1_000_000
    }) % 0x1_0000_0000
}

/// What scheduling the countdown asks for. `changes` holds the times until the
/// countdowns change; a provider without data has none.
pub open spec fn countdown_effects(
    m: Option<Model>,
    past_reset: bool,
    changes: DisplayChanges,
    now: Moment,
) -> Seq<Effect> {
    match m {
        None => Seq::empty(),
        Some(s) => if !s.polling.last_ok {
            seq![Effect::KillTimer(Timer::Countdown), Effect::KillTimer(Timer::ResetPoll)]
        } else if s.data is None {
            Seq::empty()
        } else {
            given(
                past_reset,
                Effect::SetTimer { timer: Timer::ResetPoll, ms: RESET_POLL_MS },
            ) + seq![
                Effect::SetTimer {
                    timer: Timer::Countdown,
                    ms: timer_ms(display_wait(s, changes, now)) as u32,
                },
            ]
        },
    }
}

fn is_upcoming(t: Option<Moment>, now: Moment) -> (b: bool)
    ensures
        b == upcoming(t, now),
{
    match t {
        Some(m) => m.nanos >= now.nanos,
        None => false,
    }
}

/// Schedule the next change of the display.
pub fn schedule_countdown_timer(
    state: &Option<State>,
    past_reset: bool,
    changes: DisplayChanges,
    now: Moment,
) -> (effects: Vec<Effect>)
    ensures
        effects@ == countdown_effects(model_of(*state), past_reset, changes, now),
{
    let s = match state {
        Some(s) => s,
        None => {
            return Vec::new();
        },
    };
    if !s.polling.last_ok {
        return vec![Effect::KillTimer(Timer::Countdown), Effect::KillTimer(Timer::ResetPoll)];
    }
    let d = match s.data {
        Some(d) => d,
        None => {
            return Vec::new();
        },
    };
    let mut effects: Vec<Effect> = Vec::new();
    if past_reset {
        effects.push(Effect::SetTimer { timer: Timer::ResetPoll, ms: RESET_POLL_MS });
    }
    let first: Option<u128> = earlier_of(
        changes.claude_session,
        earlier_of(
            changes.claude_weekly,
            earlier_of(
                changes.fable,
                earlier_of(
                    changes.codex_session,
                    earlier_of(
                        changes.codex_weekly,
                        earlier_of(changes.antigravity_session, changes.antigravity_weekly),
                    ),
                ),
            ),
        ),
    );
    let live: bool = s.claude.shown && match d.claude_code {
        Some(u) => is_upcoming(u.session.resets_at, now) || is_upcoming(u.weekly.resets_at, now),
        None => false,
    };
    let mut wait: u128 = match first {
        Some(n) => n,
        None => MINUTE_NANOS,
    };
    if live && wait > MINUTE_NANOS {
        wait = MINUTE_NANOS;
    }
    let millis: u128 = if wait / 1_000_000 < 1000 {
        1000
    } else {
        wait / 1_000_000
    };
    let ms: u32 = (millis % 0x1_0000_0000) as u32;
    effects.push(Effect::SetTimer { timer: Timer::Countdown, ms });
    effects
}

/// The first wait is the base, each further one doubles until the regular
/// interval caps it, and no wait exceeds the interval.
pub proof fn law_backoff_doubles_up_to_the_interval(retry: u32, interval_ms: u32)
    requires
        retry >= 1,
    ensures
        0 <= backoff(retry, interval_ms) <= interval_ms,
        RETRY_BASE_MS < interval_ms ==> backoff(1, interval_ms) == RETRY_BASE_MS,
        retry < u32::MAX ==> {
            let next = backoff((retry + 1) as u32, interval_ms);
            next == (if 2 * backoff(retry, interval_ms) < interval_ms {
                2 * backoff(retry, interval_ms)
            } else {
                interval_ms as int
            })
        },
{
    lemma_pow2_pos((retry - 1) as nat);
    lemma2_to64();
    if retry < u32::MAX {
        vstd::arithmetic::power2::lemma_pow2_unfold(retry as nat);
        assert(RETRY_BASE_MS * pow2(retry as nat) == 2 * (RETRY_BASE_MS * pow2(
            (retry - 1) as nat,
        ))) by (nonlinear_arith)
            requires
                pow2(retry as nat) == 2 * pow2((retry - 1) as nat),
        ;
    }
}

/// A failed poll shows no figure in any row, and a later success ends retries,
/// the pause and the watch.
pub proof fn law_failures_show_no_reading(
    m: Model,
    mode: WatchMode,
    snapshot: Seq<u64>,
    data: AppUsageData,
    texts: Countdowns<Seq<char>>,
)
    ensures
        ({
            let a = paused(m, mode, snapshot);
            let b = backing_off(m);
            &&& !reads(a.claude.session.text) && !reads(a.claude.weekly.text)
            &&& !reads(a.codex.session.text) && !reads(a.codex.weekly.text)
            &&& !reads(a.antigravity.session.text) && !reads(a.antigravity.weekly.text)
            &&& !reads(b.claude.session.text) && !reads(b.claude.weekly.text)
            &&& !reads(b.codex.session.text) && !reads(b.codex.weekly.text)
            &&& !reads(b.antigravity.session.text) && !reads(b.antigravity.weekly.text)
            &&& !reads(fable_of(a, texts.fable).text) && !reads(fable_of(b, texts.fable).text)
            &&& polled(a, data, texts).polling == settled(m.polling)
            &&& polled(b, data, texts).polling == settled(m.polling)
        }),
{
}

/// A shown provider that did not answer is offline, not at zero; a provider
/// that did answer always has a countdown to draw.
pub proof fn law_missing_providers_are_offline(
    m: Model,
    data: AppUsageData,
    texts: Countdowns<Seq<char>>,
)
    ensures
        ({
            let p = polled(m, data, texts);
            &&& data.claude_code is None && m.claude.shown ==> p.claude.weekly.text == "!"@
                && p.claude.session.text == "!"@
            &&& data.codex is None && m.codex.shown ==> p.codex.weekly.text == "!"@
                && p.codex.session.text == "!"@
            &&& data.antigravity is None && m.antigravity.shown ==> p.antigravity.weekly.text
                == "!"@ && p.antigravity.session.text == "!"@
            &&& data.claude_code is None ==> fable_of(p, texts.fable).text == "!"@
            &&& data.claude_code is Some ==> p.claude.weekly.text.len() > 0
                && p.claude.session.text.len() > 0 && fable_of(p, texts.fable).text.len() > 0
            &&& data.codex is Some ==> p.codex.weekly.text.len() > 0 && p.codex.session.text.len()
                > 0
            &&& data.antigravity is Some ==> p.antigravity.weekly.text.len() > 0
                && p.antigravity.session.text.len() > 0
        }),
{
    reveal_strlit("--");
    reveal_strlit("n/a");
}

/// A row without a reading: a dash in place of a figure, with the given label.
pub open spec fn shows_only(row: Row<Seq<char>>, label: Seq<char>) -> bool {
    &&& !reads(row.text)
    &&& figure_text(row.percent, row.text) == "—"@
    &&& label_text(row.text) == label
}

/// Before the first poll no row shows a figure: each reads as waiting.
pub proof fn law_a_launch_shows_no_reading(
    s: SettingsFile,
    system_dark: bool,
    channel: InstallChannel,
    text: Seq<char>,
)
    ensures
        ({
            let m = started(s, system_dark, channel);
            &&& shows_only(m.claude.session, "Waiting"@)
            &&& shows_only(m.claude.weekly, "Waiting"@)
            &&& shows_only(m.codex.session, "Waiting"@)
            &&& shows_only(m.codex.weekly, "Waiting"@)
            &&& shows_only(m.antigravity.session, "Waiting"@)
            &&& shows_only(m.antigravity.weekly, "Waiting"@)
            &&& shows_only(fable_of(m, text), "Waiting"@)
        }),
{
    law_absence_is_named();
    reveal_strlit("...");
    reveal_strlit("!");
}

/// A missing quota window never reads as an unused allowance: its row shows no
/// figure and reads as not reported.
pub proof fn law_missing_quotas_show_no_reading(
    m: Model,
    data: AppUsageData,
    texts: Countdowns<Seq<char>>,
)
    ensures
        ({
            let p = polled(m, data, texts);
            let missing = "Not reported"@;
            &&& data.claude_code is Some ==> {
                let u = data.claude_code->0;
                &&& !u.session.available ==> shows_only(p.claude.session, missing)
                &&& !u.weekly.available ==> shows_only(p.claude.weekly, missing)
                &&& !u.fable.available ==> shows_only(fable_of(p, texts.fable), missing)
            }
            &&& data.codex is Some ==> {
                let u = data.codex->0;
                &&& !u.session.available ==> shows_only(p.codex.session, missing)
                &&& !u.weekly.available ==> shows_only(p.codex.weekly, missing)
            }
            &&& data.antigravity is Some ==> {
                let u = data.antigravity->0;
                &&& !u.session.available ==> shows_only(p.antigravity.session, missing)
                &&& !u.weekly.available ==> shows_only(p.antigravity.weekly, missing)
            }
        }),
{
    law_absence_is_named();
}

/// Error texts outlive a refresh of the display.
pub proof fn law_errors_outlive_a_refresh(m: Model, texts: Countdowns<Seq<char>>)
    requires
        !m.polling.last_ok,
    ensures
        refreshed(m, texts) == m,
{
}

/// Polling changes neither what is shown, nor where, nor the preferences.
pub proof fn law_polling_keeps_preferences(
    m: Model,
    data: AppUsageData,
    texts: Countdowns<Seq<char>>,
    mode: WatchMode,
    snapshot: Seq<u64>,
)
    ensures
        saved_as(polled(m, data, texts)) == saved_as(m),
        saved_as(paused(m, mode, snapshot)) == saved_as(m),
        saved_as(backing_off(m)) == saved_as(m),
{
}

/// The countdown timer never fires faster than once a second, and while a pace
/// marker moves no slower than once a minute.
pub proof fn law_countdown_timer_is_bounded(m: Model, changes: DisplayChanges, now: Moment)
    requires
        display_wait(m, changes, now) / 1_000_000 < 0x1_0000_0000,
    ensures
        1000 <= timer_ms(display_wait(m, changes, now)),
        pace_is_live(m, now) ==> timer_ms(display_wait(m, changes, now)) <= 60_000,
{
}

/// Started with Codex alone, no other provider is polled.
pub proof fn law_codex_alone_polls_codex_alone(
    s: SettingsFile,
    system_dark: bool,
    channel: InstallChannel,
)
    ensures
        choices(Some(started(first_settings(true, s), system_dark, channel))) == (
            false,
            true,
            false,
        ),
{
}

/// The notification to sign in comes with the first failure alone, unless the
/// user asks for a refresh: a second failure in a row does not repeat it.
pub proof fn law_sign_in_is_asked_for_once(
    m: Model,
    mode: WatchMode,
    snapshot: Seq<u64>,
    provider: Provider,
)
    ensures
        !paused_effects(paused(m, mode, snapshot)).contains(Effect::NotifySignIn(provider)),
{
}

/// A poll that succeeds ends whatever a failure began: polling is neither
/// paused nor backing off.
pub proof fn law_success_ends_every_failure(
    m: Model,
    data: AppUsageData,
    texts: Countdowns<Seq<char>>,
)
    ensures
        ({
            let p = polled(m, data, texts);
            &&& p.polling.last_ok
            &&& !p.polling.auth_error_paused
            &&& p.polling.retry_count == 0
            &&& p.polling.watch_snapshot.len() == 0
        }),
{
}

/// After a successful poll each row shows the countdown of its own provider and
/// window: the one formatted for it, or an unknown reset where there is none.
/// Only the extra quota of Antigravity hides a countdown, while it is unused
/// and has no reset.
pub proof fn law_countdowns_belong_to_their_windows(
    m: Model,
    data: AppUsageData,
    texts: Countdowns<Seq<char>>,
)
    ensures
        ({
            let p = polled(m, data, texts);
            &&& data.claude_code is Some ==> {
                let u = data.claude_code->0;
                &&& u.session.available && texts.claude_session.len() > 0
                    ==> p.claude.session.text == texts.claude_session
                &&& u.session.available && texts.claude_session.len() == 0
                    ==> p.claude.session.text == "--"@
                &&& u.weekly.available && texts.claude_weekly.len() > 0 ==> p.claude.weekly.text
                    == texts.claude_weekly
                &&& u.weekly.available && texts.claude_weekly.len() == 0
                    ==> p.claude.weekly.text == "--"@
                &&& u.fable.available && texts.fable.len() > 0 ==> fable_of(p, texts.fable).text
                    == texts.fable
                &&& u.fable.available && texts.fable.len() == 0 ==> fable_of(
                    p,
                    texts.fable,
                ).text == "--"@
            }
            &&& data.codex is Some ==> {
                let u = data.codex->0;
                &&& u.session.available && texts.codex_session.len() > 0
                    ==> p.codex.session.text == texts.codex_session
                &&& u.session.available && texts.codex_session.len() == 0
                    ==> p.codex.session.text == "--"@
                &&& u.weekly.available && texts.codex_weekly.len() > 0 ==> p.codex.weekly.text
                    == texts.codex_weekly
                &&& u.weekly.available && texts.codex_weekly.len() == 0 ==> p.codex.weekly.text
                    == "--"@
            }
            &&& data.antigravity is Some ==> {
                let u = data.antigravity->0;
                let idle = u.weekly.resets_at is None && u.weekly.percentage.zero();
                &&& u.session.available && texts.antigravity_session.len() > 0
                    ==> p.antigravity.session.text == texts.antigravity_session
                &&& u.session.available && texts.antigravity_session.len() == 0
                    ==> p.antigravity.session.text == "--"@
                &&& u.weekly.available && !idle && texts.antigravity_weekly.len() > 0
                    ==> p.antigravity.weekly.text == texts.antigravity_weekly
                &&& u.weekly.available && (idle || texts.antigravity_weekly.len() == 0)
                    ==> p.antigravity.weekly.text == "--"@
            }
        }),
{
    reveal_strlit("--");
}

/// After a successful poll each row shows the percentage of its own provider
/// and window. A shown provider that did not answer has none, and a hidden one
/// keeps its whole card.
pub proof fn law_percentages_belong_to_their_windows(
    m: Model,
    data: AppUsageData,
    texts: Countdowns<Seq<char>>,
)
    ensures
        ({
            let p = polled(m, data, texts);
            let none = Binary64 { bits: 0 };
            &&& data.claude_code is Some ==> p.claude.session.percent
                == data.claude_code->0.session.percentage && p.claude.weekly.percent
                == data.claude_code->0.weekly.percentage && fable_of(p, texts.fable).percent
                == data.claude_code->0.fable.percentage
            &&& data.codex is Some ==> p.codex.session.percent
                == data.codex->0.session.percentage && p.codex.weekly.percent
                == data.codex->0.weekly.percentage
            &&& data.antigravity is Some ==> p.antigravity.session.percent
                == data.antigravity->0.session.percentage && p.antigravity.weekly.percent
                == data.antigravity->0.weekly.percentage
            &&& data.claude_code is None && m.claude.shown ==> p.claude.session.percent == none
                && p.claude.weekly.percent == none && fable_of(p, texts.fable).percent == none
            &&& data.codex is None && m.codex.shown ==> p.codex.session.percent == none
                && p.codex.weekly.percent == none
            &&& data.antigravity is None && m.antigravity.shown ==> p.antigravity.session.percent
                == none && p.antigravity.weekly.percent == none
            &&& data.claude_code is None && !m.claude.shown ==> p.claude == m.claude
            &&& data.codex is None && !m.codex.shown ==> p.codex == m.codex
            &&& data.antigravity is None && !m.antigravity.shown ==> p.antigravity
                == m.antigravity
            &&& p.data == Some(data)
        }),
{
}

/// Bringing the countdowns up to date is what a poll with the same data and the
/// newer countdowns would have shown; figures, data and polling stay.
pub proof fn law_refreshing_follows_the_clock(
    m: Model,
    data: AppUsageData,
    texts: Countdowns<Seq<char>>,
    later: Countdowns<Seq<char>>,
)
    ensures
        refreshed(polled(m, data, texts), later) == polled(m, data, later),
        polled(m, data, texts).polling == polled(m, data, later).polling,
        refreshed(m, texts).data == m.data,
        refreshed(m, texts).polling == m.polling,
        refreshed(m, texts).claude.session.percent == m.claude.session.percent,
        refreshed(m, texts).claude.weekly.percent == m.claude.weekly.percent,
        refreshed(m, texts).codex.session.percent == m.codex.session.percent,
        refreshed(m, texts).codex.weekly.percent == m.codex.weekly.percent,
        refreshed(m, texts).antigravity.session.percent == m.antigravity.session.percent,
        refreshed(m, texts).antigravity.weekly.percent == m.antigravity.weekly.percent,
{
    assert(refreshed(polled(m, data, texts), later) =~= polled(m, data, later));
}

/// A poll's readings depend on nothing that was shown before, for a provider
/// that is shown: two states that show it take the same readings.
pub proof fn law_old_readings_do_not_linger(
    m: Model,
    other: Model,
    data: AppUsageData,
    texts: Countdowns<Seq<char>>,
)
    requires
        m.claude.shown && other.claude.shown,
        m.codex.shown && other.codex.shown,
        m.antigravity.shown && other.antigravity.shown,
    ensures
        polled(m, data, texts).claude == polled(other, data, texts).claude,
        polled(m, data, texts).codex == polled(other, data, texts).codex,
        polled(m, data, texts).antigravity == polled(other, data, texts).antigravity,
{
}

/// A successful poll always reports itself; it stops polling for a passed reset
/// exactly when none has passed, and gives the poll timer its regular period
/// back exactly after failures.
pub proof fn law_successes_restore_the_regular_rhythm(
    m: Model,
    data: AppUsageData,
    past_reset: bool,
    texts: Countdowns<String>,
    i: int,
)
    ensures
        ({
            let outcome = PollOutcome::Ready { data, past_reset, texts };
            let e = after_poll_effects(Some(m), outcome);
            &&& after_poll(Some(m), outcome) == Some(polled(m, data, texts@))
            &&& e.len() > 0 && e.last() == Effect::PostUsageUpdated
            &&& e.contains(Effect::KillTimer(Timer::ResetPoll)) <==> !past_reset
            &&& e.contains(
                Effect::SetTimer { timer: Timer::Poll, ms: m.polling.interval_ms },
            ) <==> m.polling.retry_count > 0
            &&& 0 <= i < e.len() && e[i] is SetTimer ==> e[i] == (Effect::SetTimer {
                timer: Timer::Poll,
                ms: m.polling.interval_ms,
            })
        }),
{
    let stop = Effect::KillTimer(Timer::ResetPoll);
    let timer = Effect::SetTimer { timer: Timer::Poll, ms: m.polling.interval_ms };
    let e = polled_effects(m, past_reset);
    if !past_reset {
        assert(e[0] == stop);
    }
    if m.polling.retry_count > 0 {
        assert(e[e.len() - 2] == timer);
    }
}

/// A failed poll is counted, reported and retried. With credentials to watch,
/// polling pauses on them; otherwise the retry waits 30 seconds, twice as long
/// after each further failure, and never longer than the regular interval.
pub proof fn law_failures_pause_or_back_off(m: Model, mode: WatchMode, known: Vec<u64>)
    requires
        m.polling.retry_count < 20,
    ensures
        ({
            let out = PollOutcome::Failed { watch: None };
            let n = m.polling.retry_count;
            let wait = if 30_000 * pow2(n as nat) < m.polling.interval_ms {
                30_000 * pow2(n as nat)
            } else {
                m.polling.interval_ms as nat
            };
            let p = after_poll(Some(m), out)->0;
            let e = after_poll_effects(Some(m), out);
            &&& after_poll(Some(m), out) is Some
            &&& p.polling.retry_count == n + 1
            &&& !p.polling.auth_error_paused && !p.polling.last_ok
            &&& p.data == m.data
            &&& e.contains(Effect::SetTimer { timer: Timer::Poll, ms: wait as u32 })
            &&& e.contains(Effect::KillTimer(Timer::ResetPoll))
            &&& e.last() == Effect::PostUsageUpdated
        }),
        ({
            let out = PollOutcome::Failed { watch: Some((mode, known)) };
            let p = after_poll(Some(m), out)->0;
            let e = after_poll_effects(Some(m), out);
            &&& after_poll(Some(m), out) is Some
            &&& p.polling.retry_count == m.polling.retry_count + 1
            &&& p.polling.auth_error_paused && !p.polling.last_ok
            &&& p.polling.watch_mode == mode
            &&& p.polling.watch_snapshot == known@
            &&& p.data == m.data
            &&& e.contains(Effect::KillTimer(Timer::ResetPoll))
            &&& e.contains(Effect::KillTimer(Timer::Countdown))
            &&& e.contains(
                Effect::SetTimer { timer: Timer::Poll, ms: m.polling.interval_ms },
            )
            &&& e.last() == Effect::PostUsageUpdated
        }),
        after_poll(None, PollOutcome::Failed { watch: None }) is None,
        after_poll_effects(None, PollOutcome::Failed { watch: None }) == seq![
            Effect::PostUsageUpdated,
        ],
{
    let e = after_poll_effects(Some(m), PollOutcome::Failed { watch: None });
    assert(e[0] == Effect::KillTimer(Timer::ResetPoll));
    assert(e[1] is SetTimer);
    let p = after_poll_effects(Some(m), PollOutcome::Failed { watch: Some((mode, known)) });
    assert(p[1] == Effect::KillTimer(Timer::ResetPoll));
    assert(p[2] == Effect::KillTimer(Timer::Countdown));
    assert(p[3] is SetTimer);
}

/// After a failed poll every row reads alike: offline where signing in can mend
/// it, waiting otherwise. The figures behind them are kept.
pub proof fn law_failures_read_alike(m: Model, mode: WatchMode, known: Seq<u64>, text: Seq<char>)
    ensures
        ({
            let a = paused(m, mode, known);
            &&& shows_only(a.claude.session, "Offline"@) && shows_only(a.claude.weekly, "Offline"@)
            &&& shows_only(a.codex.session, "Offline"@) && shows_only(a.codex.weekly, "Offline"@)
            &&& shows_only(a.antigravity.session, "Offline"@)
            &&& shows_only(a.antigravity.weekly, "Offline"@)
            &&& shows_only(fable_of(a, text), "Offline"@)
            &&& a.claude.session.percent == m.claude.session.percent
            &&& a.claude.weekly.percent == m.claude.weekly.percent
            &&& a.codex.session.percent == m.codex.session.percent
            &&& a.codex.weekly.percent == m.codex.weekly.percent
            &&& a.antigravity.session.percent == m.antigravity.session.percent
            &&& a.antigravity.weekly.percent == m.antigravity.weekly.percent
        }),
        ({
            let b = backing_off(m);
            &&& shows_only(b.claude.session, "Waiting"@) && shows_only(b.claude.weekly, "Waiting"@)
            &&& shows_only(b.codex.session, "Waiting"@) && shows_only(b.codex.weekly, "Waiting"@)
            &&& shows_only(b.antigravity.session, "Waiting"@)
            &&& shows_only(b.antigravity.weekly, "Waiting"@)
            &&& shows_only(fable_of(b, text), "Waiting"@)
            &&& b.claude.session.percent == m.claude.session.percent
            &&& b.claude.weekly.percent == m.claude.weekly.percent
            &&& b.codex.session.percent == m.codex.session.percent
            &&& b.codex.weekly.percent == m.codex.weekly.percent
            &&& b.antigravity.session.percent == m.antigravity.session.percent
            &&& b.antigravity.weekly.percent == m.antigravity.weekly.percent
        }),
{
    law_absence_is_named();
    reveal_strlit("...");
    reveal_strlit("!");
}

/// A sign-in is asked for at the first failure or when the user asked for a
/// refresh, and it names the first shown provider.
pub proof fn law_the_first_shown_provider_is_named(
    m: Model,
    mode: WatchMode,
    known: Vec<u64>,
    p: Provider,
)
    ensures
        after_poll_effects(Some(m), PollOutcome::Failed { watch: Some((mode, known)) }).contains(
            Effect::NotifySignIn(p),
        ) <==> {
            &&& m.polling.retry_count == 0 || m.polling.force_notify_auth_error
            &&& p == Provider::Claude <==> m.claude.shown
            &&& p == Provider::Codex <==> !m.claude.shown && m.codex.shown
        },
        !after_poll_effects(Some(m), PollOutcome::Failed { watch: None }).contains(
            Effect::NotifySignIn(p),
        ),
{
    let e = after_poll_effects(Some(m), PollOutcome::Failed { watch: Some((mode, known)) });
    if m.polling.retry_count == 0 || m.polling.force_notify_auth_error {
        assert(e[4] is NotifySignIn);
    }
}

/// Signing in mends every error but a failed request, so exactly those watch
/// credentials; a lone provider's own are watched, and all of them where none
/// were found.
pub proof fn law_what_signing_in_mends_is_watched(
    error: PollError,
    claude: bool,
    codex: bool,
    antigravity: bool,
)
    ensures
        ({
            let w = watch_after(error, claude, codex, antigravity);
            let lone_codex = codex && !claude && !antigravity;
            let lone_antigravity = antigravity && !claude && !codex;
            &&& w is None <==> error == PollError::RequestFailed
            &&& w == Some(WatchMode::Codex) <==> error != PollError::RequestFailed && lone_codex
            &&& w == Some(WatchMode::Antigravity) <==> lone_antigravity && (error
                == PollError::AuthRequired || error == PollError::TokenExpired)
            &&& w == Some(WatchMode::AllSources) <==> error == PollError::NoCredentials
                && !lone_codex
        }),
{
}

/// A poll asks exactly the shown providers; before there is a state, the first
/// one alone.
pub proof fn law_shown_providers_are_polled(m: Model)
    ensures
        choices(Some(m)).0 == m.claude.shown,
        choices(Some(m)).1 == m.codex.shown,
        choices(Some(m)).2 == m.antigravity.shown,
        choices(None) == (true, false, false),
{
}

/// The wait comes no later than a countdown's change.
pub open spec fn no_later(ms: int, change: Option<u128>) -> bool {
    change is Some ==> ms <= larger(change->0 as int / 1_000_000, 1000)
}

/// The wait is that of a countdown's change.
pub open spec fn just_then(ms: int, change: Option<u128>) -> bool {
    change is Some && ms == larger(change->0 as int / 1_000_000, 1000)
}

/// The display is next drawn when the first of the seven countdowns changes,
/// within a minute while a pace marker moves, and after a minute where no
/// countdown is known. A passed reset is polled for every five seconds.
pub proof fn law_the_first_change_is_drawn(
    m: Model,
    past_reset: bool,
    changes: DisplayChanges,
    now: Moment,
)
    requires
        m.polling.last_ok,
        m.data is Some,
        display_wait(m, changes, now) / 1_000_000 < 0x1_0000_0000,
    ensures
        ({
            let e = countdown_effects(Some(m), past_reset, changes, now);
            let ms = e.last()->SetTimer_ms as int;
            &&& e.len() > 0
            &&& e.last() == (Effect::SetTimer { timer: Timer::Countdown, ms: ms as u32 })
            &&& no_later(ms, changes.claude_session) && no_later(ms, changes.claude_weekly)
            &&& no_later(ms, changes.codex_session) && no_later(ms, changes.codex_weekly)
            &&& no_later(ms, changes.antigravity_session)
            &&& no_later(ms, changes.antigravity_weekly) && no_later(ms, changes.fable)
            &&& {
                ||| just_then(ms, changes.claude_session)
                ||| just_then(ms, changes.claude_weekly)
                ||| just_then(ms, changes.codex_session)
                ||| just_then(ms, changes.codex_weekly)
                ||| just_then(ms, changes.antigravity_session)
                ||| just_then(ms, changes.antigravity_weekly)
                ||| just_then(ms, changes.fable)
                ||| ms == 60_000
            }
            &&& pace_is_live(m, now) ==> ms <= 60_000
            &&& past_reset <==> e.contains(
                Effect::SetTimer { timer: Timer::ResetPoll, ms: 5_000 },
            )
            &&& e.len() <= 2
        }),
{
    let e = countdown_effects(Some(m), past_reset, changes, now);
    if past_reset {
        assert(e[0] == (Effect::SetTimer { timer: Timer::ResetPoll, ms: 5_000 }));
    }
}

/// The pace marker moves while the provider it belongs to is shown and one of
/// its two windows has yet to reset.
pub proof fn law_paces_move_until_the_reset(m: Model, now: Moment, u: UsageData)
    requires
        m.data is Some,
        m.data->0.claude_code == Some(u),
    ensures
        pace_is_live(m, now) <==> m.claude.shown && ((u.session.resets_at is Some
            && u.session.resets_at->0.nanos >= now.nanos) || (u.weekly.resets_at is Some
            && u.weekly.resets_at->0.nanos >= now.nanos)),
{
}

/// While the last poll failed nothing is counted down and no reset is polled
/// for.
pub proof fn law_failures_stop_the_countdown(
    m: Model,
    past_reset: bool,
    changes: DisplayChanges,
    now: Moment,
    i: int,
)
    requires
        !m.polling.last_ok,
    ensures
        ({
            let e = countdown_effects(Some(m), past_reset, changes, now);
            &&& e.contains(Effect::KillTimer(Timer::Countdown))
            &&& e.contains(Effect::KillTimer(Timer::ResetPoll))
            &&& 0 <= i < e.len() ==> e[i] is KillTimer
        }),
        countdown_effects(None, past_reset, changes, now).len() == 0,
{
    let e = countdown_effects(Some(m), past_reset, changes, now);
    assert(e[0] == Effect::KillTimer(Timer::Countdown));
    assert(e[1] == Effect::KillTimer(Timer::ResetPoll));
}

/// The Fable row is offline or waiting with its provider's other rows, and
/// offline where that provider did not answer.
pub proof fn law_fable_follows_its_provider(m: Model, text: Seq<char>)
    ensures
        ({
            let row = fable_of(m, text);
            &&& !m.polling.last_ok && m.claude.weekly.text == "!"@ ==> row.text == "!"@
            &&& !m.polling.last_ok && m.claude.weekly.text != "!"@ ==> row.text == "..."@
            &&& !m.polling.last_ok ==> row.percent == (Binary64 { bits: 0 })
            &&& m.polling.last_ok && (m.data is None || m.data->0.claude_code is None)
                ==> row.text == "!"@
        }),
        fable_shown(Some(m), text) == fable_of(m, text),
        fable_shown(None, text).text == "..."@,
{
}

} // verus!
