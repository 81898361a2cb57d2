//! The telemetry scheduler: the decisions of the sampling loop.
//!
//! The loop collects a snapshot, publishes it, prunes the history on every
//! 180th tick, and sleeps for an interval that depends on the operating mode.
//! The caller does the work; the scheduler says what comes next. It hands out
//! one `Action` at a time and takes the `Event` that reports its outcome. No
//! outcome stops the loop.

use vstd::prelude::*;

verus! {

/// The shortest pause between two samples, in milliseconds.
pub const MIN_INTERVAL_MS: u64 = 100;

/// The longest pause between two samples, in milliseconds.
pub const MAX_INTERVAL_MS: u64 = 10_000;

/// The history is pruned on every tick whose number is a multiple of this.
pub const PRUNE_EVERY: u64 = 180;

/// The name under which a snapshot is published.
pub const SNAPSHOT_EVENT: &'static str = "telemetry.snapshot";

/// The name under which a warning is published.
pub const WARNING_EVENT: &'static str = "system.warning";

/// The source that a warning about a failed pruning names.
pub const PRUNE_SOURCE: &'static str = "history_prune";

/// The two cadences of the loop.
#[derive(Clone, Copy, Debug, PartialEq, Eq, Structural)]
pub enum Mode {
    Normal,
    LowPower,
}

/// The settings that the loop reads on every tick.
#[derive(Clone, Copy, Debug, PartialEq, Eq, Structural)]
pub struct AppSettings {
    /// The pause between two samples in normal mode, in milliseconds.
    pub refresh_rate_ms: u64,
    /// The pause between two samples in low-power mode, in milliseconds.
    pub low_power_rate_ms: u64,
}

/// A warning for the subscribers.
#[derive(Clone, Debug, PartialEq, Eq)]
pub struct WarningEvent {
    pub message: String,
    pub source: String,
}

/// What the caller is to do next.
#[derive(Clone, Copy, Debug, PartialEq, Eq, Structural)]
pub enum Action {
    /// Collect a snapshot and keep it in the recent history.
    Collect,
    /// Publish the snapshot under `SNAPSHOT_EVENT`.
    Publish,
    /// Prune the history store.
    Prune,
    /// Publish the warning about the failed pruning under `WARNING_EVENT`.
    Warn,
    /// Sleep for this many milliseconds.
    Sleep { interval_ms: u64 },
}

/// What came of the action that was handed out.
#[derive(Clone, Copy, Debug, PartialEq, Eq, Structural)]
pub enum Event {
    /// The snapshot was collected.
    Collected,
    /// The snapshot was published, or publishing failed.
    Published { ok: bool },
    /// The history was pruned, or pruning failed.
    Pruned { ok: bool },
    /// The warning was published, or publishing failed.
    Warned,
    /// The sleep is over.
    Slept,
}

/// `ms` brought into `MIN_INTERVAL_MS..=MAX_INTERVAL_MS`.
pub open spec fn clamped_interval(ms: u64) -> u64 {
    if ms < MIN_INTERVAL_MS {
        MIN_INTERVAL_MS
    } else if ms > MAX_INTERVAL_MS {
        MAX_INTERVAL_MS
    } else {
        ms
    }
}

/// The pause after a tick: the rate that the settings give for the mode, clamped.
pub open spec fn interval_for(mode: Mode, settings: AppSettings) -> u64 {
    match mode {
        Mode::Normal => clamped_interval(settings.refresh_rate_ms),
        Mode::LowPower => clamped_interval(settings.low_power_rate_ms),
    }
}

/// The number of the next tick; the count stays at the largest `u64`.
pub open spec fn next_tick(tick_count: u64) -> u64 {
    if tick_count == u64::MAX {
        u64::MAX
    } else {
        (tick_count + 1) as u64
    }
}

/// Whether the history is pruned on the tick with this number.
pub open spec fn prune_due(tick_count: u64) -> bool {
    tick_count % PRUNE_EVERY == 0
}

/// Whether `event` reports the outcome of `action`.
pub open spec fn answers(event: Event, action: Action) -> bool {
    match action {
        Action::Collect => event is Collected,
        Action::Publish => event is Published,
        Action::Prune => event is Pruned,
        Action::Warn => event is Warned,
        Action::Sleep { .. } => event is Slept,
    }
}

/// The tick count and the pending action after `event`. An event that does not
/// answer the pending action changes nothing.
pub open spec fn step(
    tick_count: u64,
    pending: Action,
    event: Event,
    mode: Mode,
    settings: AppSettings,
) -> (u64, Action) {
    let sleep = Action::Sleep { interval_ms: interval_for(mode, settings) };
    match (pending, event) {
        (Action::Collect, Event::Collected) => (tick_count, Action::Publish),
        (Action::Publish, Event::Published { ok }) => if prune_due(next_tick(tick_count)) {
            (next_tick(tick_count), Action::Prune)
        } else {
            (next_tick(tick_count), sleep)
        },
        (Action::Prune, Event::Pruned { ok }) => if ok {
            (tick_count, sleep)
        } else {
            (tick_count, Action::Warn)
        },
        (Action::Warn, Event::Warned) => (tick_count, sleep),
        (Action::Sleep { interval_ms }, Event::Slept) => (tick_count, Action::Collect),
        _ => (tick_count, pending),
    }
}

/// Every sleep that the scheduler asks for lies within the bounds, whatever
/// the settings say.
pub proof fn lemma_interval_bounds(
    tick_count: u64,
    pending: Action,
    event: Event,
    mode: Mode,
    settings: AppSettings,
)
    requires
        pending matches Action::Sleep { interval_ms } ==> MIN_INTERVAL_MS <= interval_ms
            <= MAX_INTERVAL_MS,
    ensures
        step(tick_count, pending, event, mode, settings).1 matches Action::Sleep { interval_ms }
            ==> MIN_INTERVAL_MS <= interval_ms <= MAX_INTERVAL_MS,
{
}

/// An event that does not report the outcome of the pending action changes
/// neither the tick count nor the pending action, and one that does never
/// leaves the loop without a next action.
pub proof fn lemma_only_answers_count(
    tick_count: u64,
    pending: Action,
    event: Event,
    mode: Mode,
    settings: AppSettings,
)
    ensures
        !answers(event, pending) ==> step(tick_count, pending, event, mode, settings) == (
            tick_count,
            pending,
        ),
        answers(event, pending) ==> step(tick_count, pending, event, mode, settings).1 != pending,
        step(tick_count, pending, event, mode, settings).0 == tick_count || step(
            tick_count,
            pending,
            event,
            mode,
            settings,
        ).0 == next_tick(tick_count),
{
}

/// One round of the loop. After a snapshot was collected and published, the
/// history is pruned exactly on every 180th tick; whether publishing and
/// pruning succeed or fail, the round ends in the sleep for the current mode,
/// and after it the next snapshot is collected.
pub proof fn lemma_round(tick_count: u64, published: bool, pruned: bool, mode: Mode, settings:
    AppSettings)
    ensures
        ({
            let s1 = step(tick_count, Action::Collect, Event::Collected, mode, settings);
            let s2 = step(s1.0, s1.1, Event::Published { ok: published }, mode, settings);
            let sleep = Action::Sleep { interval_ms: interval_for(mode, settings) };
            &&& s1 == (tick_count, Action::Publish)
            &&& s2.0 == next_tick(tick_count)
            &&& s2.1 is Prune <==> prune_due(next_tick(tick_count))
            &&& !prune_due(next_tick(tick_count)) ==> s2.1 == sleep
            &&& prune_due(next_tick(tick_count)) ==> {
                let s3 = step(s2.0, s2.1, Event::Pruned { ok: pruned }, mode, settings);
                let s4 = step(s3.0, s3.1, Event::Warned, mode, settings);
                &&& pruned ==> s3 == (s2.0, sleep)
                &&& !pruned ==> s3 == (s2.0, Action::Warn) && s4 == (s2.0, sleep)
            }
            &&& step(s2.0, sleep, Event::Slept, mode, settings) == (s2.0, Action::Collect)
        }),
{
}

/// Brings a configured rate into `MIN_INTERVAL_MS..=MAX_INTERVAL_MS`.
pub fn clamp_interval(ms: u64) -> (r: u64)
    ensures
        r == clamped_interval(ms),
        MIN_INTERVAL_MS <= r <= MAX_INTERVAL_MS,
{
    if ms < MIN_INTERVAL_MS {
        MIN_INTERVAL_MS
    } else if ms > MAX_INTERVAL_MS {
        MAX_INTERVAL_MS
    } else {
        ms
    }
}

/// The pause after a tick in `mode` under `settings`, in milliseconds.
pub fn next_interval_ms(mode: Mode, settings: &AppSettings) -> (r: u64)
    ensures
        r == interval_for(mode, *settings),
        MIN_INTERVAL_MS <= r <= MAX_INTERVAL_MS,
{
    match mode {
        Mode::Normal => clamp_interval(settings.refresh_rate_ms),
        Mode::LowPower => clamp_interval(settings.low_power_rate_ms),
    }
}

/// The warning that reports a failed pruning.
pub fn prune_warning(message: &str) -> (w: WarningEvent)
    ensures
        w.message@ == message@,
        w.source@ == PRUNE_SOURCE@,
{
    WarningEvent { message: message.to_owned(), source: PRUNE_SOURCE.to_owned() }
}

/// The state of the sampling loop: the number of ticks so far and the action
/// that the caller is carrying out.
#[derive(Clone, Copy, Debug, PartialEq, Eq, Structural)]
pub struct TelemetryScheduler {
    tick_count: u64,
    pending: Action,
}

impl TelemetryScheduler {
    #[verifier::type_invariant]
    spec fn sleeps_within_bounds(self) -> bool {
        self.pending matches Action::Sleep { interval_ms } ==> MIN_INTERVAL_MS <= interval_ms
            <= MAX_INTERVAL_MS
    }

    /// The number of snapshots that were published, or failed to be.
    pub closed spec fn ticks(self) -> u64 {
        self.tick_count
    }

    /// The action that the caller is carrying out.
    pub closed spec fn awaited(self) -> Action {
        self.pending
    }

    /// A loop that has not begun: no tick yet, and a snapshot is to be collected.
    pub fn new() -> (r: TelemetryScheduler)
        ensures
            r.ticks() == 0,
            r.awaited() == Action::Collect,
    {
        TelemetryScheduler { tick_count: 0, pending: Action::Collect }
    }

    /// The number of ticks so far.
    pub fn tick_count(&self) -> (n: u64)
        ensures
            n == self.ticks(),
    {
        self.tick_count
    }

    /// The action that the caller is to carry out now.
    pub fn pending(&self) -> (action: Action)
        ensures
            action == self.awaited(),
            action matches Action::Sleep { interval_ms } ==> MIN_INTERVAL_MS <= interval_ms
                <= MAX_INTERVAL_MS,
    {
        proof {
            use_type_invariant(self);
        }
        self.pending
    }

    /// Takes the outcome of the pending action and says what to do next.
    /// `mode` and `settings` are the current ones: a change takes effect with
    /// the next sleep.
    pub fn advance(&mut self, event: Event, mode: Mode, settings: &AppSettings) -> (action: Action)
        ensures
            (final(self).ticks(), final(self).awaited()) == step(
                old(self).ticks(),
                old(self).awaited(),
                event,
                mode,
                *settings,
            ),
            action == final(self).awaited(),
            action matches Action::Sleep { interval_ms } ==> MIN_INTERVAL_MS <= interval_ms
                <= MAX_INTERVAL_MS,
    {
        proof {
            use_type_invariant(&*self);
        }
        let sleep = Action::Sleep { interval_ms: next_interval_ms(mode, settings) };
        let tick_count = self.tick_count;
        let next: (u64, Action) = match (self.pending, event) {
            (Action::Collect, Event::Collected) => (tick_count, Action::Publish),
            (Action::Publish, Event::Published { ok: _ }) => {
                let ticks = tick_count.saturating_add(1);
                if ticks % PRUNE_EVERY == 0 {
                    (ticks, Action::Prune)
                } else {
                    (ticks, sleep)
                }
            },
            (Action::Prune, Event::Pruned { ok }) => if ok {
                (tick_count, sleep)
            } else {
                (tick_count, Action::Warn)
            },
            (Action::Warn, Event::Warned) => (tick_count, sleep),
            (Action::Sleep { interval_ms: _ }, Event::Slept) => (tick_count, Action::Collect),
            _ => (tick_count, self.pending),
        };
        *self = TelemetryScheduler { tick_count: next.0, pending: next.1 };
        next.1
    }
}

} // verus!
