//! The refresh scheduler: what to do next in the loop that pulls
//! snapshots, sorts, draws, polls for input and idles.
//!
//! The scheduler performs no outside work itself. It hands out one
//! [`Action`] at a time; the caller carries the action out and reports
//! what came of it as an [`Event`], together with the current time in
//! milliseconds on a clock of its choosing.

use crate::dashboard::{App, AppView};
use crate::record::Snapshot;
use vstd::prelude::*;

verus! {

/// The key that ends the loop.
pub const QUIT_KEY: char = 'q';

/// The cadences of the loop, in milliseconds.
#[derive(Clone, Copy, Debug, PartialEq, Eq, Structural)]
pub struct Intervals {
    /// The least time between two pulls of a snapshot.
    pub data_interval: u64,
    /// The least time between two sorts of the rows.
    pub sort_interval: u64,
    /// How long one poll for input may wait.
    pub poll_timeout: u64,
    /// The least duration of one pass through the loop.
    pub tick_period: u64,
}

/// Whether the loop goes on.
#[derive(Clone, Copy, Debug, PartialEq, Eq, Structural)]
pub enum Phase {
    Running,
    ShuttingDown,
}

/// A key press, as far as the scheduler tells keys apart.
#[derive(Clone, Copy, Debug, PartialEq, Eq, Structural)]
pub enum Key {
    /// A character key.
    Char(char),
    /// Any other key.
    Other,
}

/// What the caller is asked to do next.
#[derive(Clone, Copy, Debug, PartialEq, Eq, Structural)]
pub enum Action {
    /// Pull a snapshot from the collector.
    Collect,
    /// Draw the dashboard.
    Draw,
    /// Wait for a key press, no longer than `timeout` milliseconds.
    Poll { timeout: u64 },
    /// Idle for `duration` milliseconds.
    Sleep { duration: u64 },
    /// Restore the terminal and leave the loop.
    Exit,
    /// Nothing: the loop has been left.
    Halt,
}

/// What came of the action that the caller carried out.
#[derive(Debug, PartialEq, Eq)]
pub enum Event {
    /// The idle time is over; a pass through the loop begins.
    Tick,
    /// The collector returned a snapshot.
    Snapshot(Snapshot),
    /// The collector failed.
    CollectionFailed,
    /// The dashboard was drawn.
    Drawn,
    /// Drawing failed.
    DrawFailed,
    /// A key was pressed.
    Key(Key),
    /// The poll timed out without a key press.
    NoKey,
    /// Reading the input failed.
    InputFailed,
}

/// The time from `since` to `now`; none if the clock stepped back.
pub open spec fn elapsed(since: u64, now: u64) -> u64 {
    if now >= since {
        (now - since) as u64
    } else {
        0
    }
}

/// Whether something last done at `last` is due again at `now`: it is if
/// it was never done, or if at least `interval` has passed since.
pub open spec fn due(last: Option<u64>, interval: u64, now: u64) -> bool {
    match last {
        None => true,
        Some(since) => elapsed(since, now) >= interval,
    }
}

/// What is left at `now` of a period that began at `start`.
pub open spec fn remaining(period: u64, start: u64, now: u64) -> u64 {
    if elapsed(start, now) >= period {
        0
    } else {
        (period - elapsed(start, now)) as u64
    }
}

/// Whether `key` asks to quit.
pub open spec fn is_quit(key: Key) -> bool {
    key == Key::Char(QUIT_KEY)
}

/// What a scheduler holds.
pub struct SchedulerView {
    pub intervals: Intervals,
    pub phase: Phase,
    /// The action handed out last, whose outcome is awaited.
    pub pending: Action,
    /// When the current pass through the loop began.
    pub tick_start: u64,
    /// The dashboard.
    pub app: AppView,
    /// Whether the latest pull of a snapshot failed.
    pub pull_failed: bool,
    /// Whether the loop was left because drawing failed.
    pub render_failed: bool,
}

impl SchedulerView {
    /// A scheduler before the first pass: it awaits the first tick.
    pub open spec fn initial(intervals: Intervals) -> SchedulerView {
        SchedulerView {
            intervals,
            phase: Phase::Running,
            pending: Action::Sleep { duration: 0 },
            tick_start: 0,
            app: AppView::initial(),
            pull_failed: false,
            render_failed: false,
        }
    }

    /// While the loop runs the scheduler awaits the outcome of outside
    /// work; once it is left, nothing but the exit is handed out. The
    /// dashboard is valid.
    pub open spec fn valid(self) -> bool {
        &&& self.app.valid()
        &&& self.phase == Phase::Running ==> self.pending != Action::Exit && self.pending
            != Action::Halt
        &&& self.phase == Phase::ShuttingDown ==> self.pending == Action::Exit || self.pending
            == Action::Halt
    }

    /// The second half of a pass that changed or kept the data: the rows
    /// are sorted if a sort is due, then the dashboard is to be drawn.
    pub open spec fn sort_then_draw(self, now: u64) -> SchedulerView {
        SchedulerView {
            app: if due(self.app.last_sort, self.intervals.sort_interval, now) {
                self.app.after_resort(now)
            } else {
                self.app
            },
            pending: Action::Draw,
            ..self
        }
    }

    /// The start of a pass at `now`: a snapshot is asked for if one is
    /// due; else the pass goes on with sorting and drawing.
    pub open spec fn begin_tick(self, now: u64) -> SchedulerView {
        if due(self.app.last_refresh, self.intervals.data_interval, now) {
            SchedulerView { tick_start: now, pending: Action::Collect, ..self }
        } else {
            SchedulerView { tick_start: now, ..self }.sort_then_draw(now)
        }
    }

    /// The end of a pass without a quit key: idle for what is left of the
    /// tick period.
    pub open spec fn idle(self, now: u64) -> SchedulerView {
        SchedulerView {
            pending: Action::Sleep {
                duration: remaining(self.intervals.tick_period, self.tick_start, now),
            },
            ..self
        }
    }

    /// The loop is left; the caller is asked to restore the terminal.
    pub open spec fn shut_down(self, render_failed: bool) -> SchedulerView {
        SchedulerView {
            phase: Phase::ShuttingDown,
            pending: Action::Exit,
            render_failed,
            ..self
        }
    }

    /// The scheduler after `event` was reported at time `now`. The action
    /// handed out for it is the new `pending`.
    ///
    /// While the loop runs, an event that answers the pending action moves
    /// the pass on:
    /// - a tick begins a pass;
    /// - a snapshot is applied, then the rows are sorted if due and the
    ///   dashboard is drawn; a failed pull is noted, leaves the dashboard
    ///   as it is, unsorted too, and has it drawn again;
    /// - after a draw the input is polled; a failed draw ends the loop;
    /// - the quit key ends the loop; any other key, none, or a failed
    ///   read lets the scheduler idle until the tick period is over.
    /// An event that does not answer the pending action changes nothing,
    /// and the pending action is handed out again. Once the loop is left,
    /// every event is answered by `Halt`.
    pub open spec fn step(self, now: u64, event: Event) -> SchedulerView {
        if self.phase == Phase::ShuttingDown {
            SchedulerView { pending: Action::Halt, ..self }
        } else {
            match (self.pending, event) {
                (Action::Sleep { .. }, Event::Tick) => self.begin_tick(now),
                (Action::Collect, Event::Snapshot(snapshot)) => SchedulerView {
                    app: self.app.after_snapshot(snapshot, now),
                    pull_failed: false,
                    ..self
                }.sort_then_draw(now),
                (Action::Collect, Event::CollectionFailed) => SchedulerView {
                    pending: Action::Draw,
                    pull_failed: true,
                    ..self
                },
                (Action::Draw, Event::Drawn) => SchedulerView {
                    pending: Action::Poll { timeout: self.intervals.poll_timeout },
                    ..self
                },
                (Action::Draw, Event::DrawFailed) => self.shut_down(true),
                (Action::Poll { .. }, Event::Key(key)) => if is_quit(key) {
                    self.shut_down(self.render_failed)
                } else {
                    self.idle(now)
                },
                (Action::Poll { .. }, Event::NoKey) => self.idle(now),
                (Action::Poll { .. }, Event::InputFailed) => self.idle(now),
                _ => self,
            }
        }
    }

    /// How often the caller is asked to exit while `inputs`, pairs of a
    /// time and an event, are reported one after the other.
    pub open spec fn exits(self, inputs: Seq<(u64, Event)>) -> nat
        decreases inputs.len(),
    {
        if inputs.len() == 0 {
            0
        } else {
            let next = self.step(inputs.first().0, inputs.first().1);
            let here: nat = if next.pending == Action::Exit {
                1
            } else {
                0
            };
            here + next.exits(inputs.drop_first())
        }
    }
}

/// A step leads from a valid scheduler to a valid one.
pub proof fn lemma_step_keeps_valid(state: SchedulerView, now: u64, event: Event)
    requires
        state.valid(),
    ensures
        state.step(now, event).valid(),
{
}

/// No event but a tick or a snapshot changes the dashboard. So a pass in
/// which the collector fails leaves the dashboard as it found it.
pub proof fn lemma_dashboard_changes_only_on_tick_or_snapshot(
    state: SchedulerView,
    now: u64,
    event: Event,
)
    requires
        !(event is Tick),
        !(event is Snapshot),
    ensures
        state.step(now, event).app == state.app,
{
}

/// Whatever is reported to a valid scheduler, and for however long, the
/// caller is asked to exit at most once; after the loop was left, never.
pub proof fn lemma_exit_at_most_once(state: SchedulerView, inputs: Seq<(u64, Event)>)
    requires
        state.valid(),
    ensures
        state.exits(inputs) <= 1,
        state.phase == Phase::ShuttingDown ==> state.exits(inputs) == 0,
    decreases inputs.len(),
{
    if inputs.len() > 0 {
        let next = state.step(inputs.first().0, inputs.first().1);
        lemma_exit_at_most_once(next, inputs.drop_first());
    }
}

/// The quit key, pressed while the input is polled, ends the loop at
/// once: the caller is asked to exit, and the dashboard stays as it was.
pub proof fn lemma_quit_key_exits(state: SchedulerView, now: u64)
    requires
        state.phase == Phase::Running,
        state.pending is Poll,
    ensures
        state.step(now, Event::Key(Key::Char(QUIT_KEY))).pending == Action::Exit,
        state.step(now, Event::Key(Key::Char(QUIT_KEY))).phase == Phase::ShuttingDown,
        state.step(now, Event::Key(Key::Char(QUIT_KEY))).app == state.app,
{
}

impl Intervals {
    /// A snapshot every second, a sort every five seconds, polls of half
    /// a second and passes of one second.
    pub fn standard() -> (intervals: Self)
        ensures
            intervals == (Intervals {
                data_interval: 1000,
                sort_interval: 5000,
                poll_timeout: 500,
                tick_period: 1000,
            }),
    {
        Intervals { data_interval: 1000, sort_interval: 5000, poll_timeout: 500, tick_period: 1000 }
    }
}

/// The time from `since` to `now`; none if the clock stepped back.
pub fn elapsed_between(since: u64, now: u64) -> (time: u64)
    ensures
        time == elapsed(since, now),
{
    if now >= since {
        now - since
    } else {
        0
    }
}

/// Whether something last done at `last` is due again at `now`.
pub fn is_due(last: Option<u64>, interval: u64, now: u64) -> (result: bool)
    ensures
        result == due(last, interval, now),
{
    match last {
        None => true,
        Some(since) => elapsed_between(since, now) >= interval,
    }
}

/// What is left at `now` of a period that began at `start`.
pub fn remaining_of(period: u64, start: u64, now: u64) -> (time: u64)
    ensures
        time == remaining(period, start, now),
{
    let passed = elapsed_between(start, now);
    if passed >= period {
        0
    } else {
        period - passed
    }
}

impl Key {
    /// Whether the key asks to quit.
    pub fn is_quit(&self) -> (result: bool)
        ensures
            result == is_quit(*self),
    {
        match self {
            Key::Char(c) => *c == QUIT_KEY,
            Key::Other => false,
        }
    }
}

/// The scheduler: the dashboard together with the place the loop is at.
pub struct RefreshScheduler {
    intervals: Intervals,
    phase: Phase,
    pending: Action,
    tick_start: u64,
    app: App,
    pull_failed: bool,
    render_failed: bool,
}

impl View for RefreshScheduler {
    type V = SchedulerView;

    closed spec fn view(&self) -> SchedulerView {
        SchedulerView {
            intervals: self.intervals,
            phase: self.phase,
            pending: self.pending,
            tick_start: self.tick_start,
            app: self.app@,
            pull_failed: self.pull_failed,
            render_failed: self.render_failed,
        }
    }
}

impl RefreshScheduler {
    /// The dashboard is well formed and the scheduler's state is valid.
    pub closed spec fn wf(&self) -> bool {
        &&& self.app.wf()
        &&& self@.valid()
    }

    /// A well-formed scheduler holds a valid state.
    pub proof fn lemma_wf_is_valid(&self)
        requires
            self.wf(),
        ensures
            self@.valid(),
    {
    }

    /// A scheduler with an empty dashboard that awaits the first tick.
    pub fn new(intervals: Intervals) -> (scheduler: Self)
        ensures
            scheduler.wf(),
            scheduler@ == SchedulerView::initial(intervals),
    {
        let app = App::new();
        RefreshScheduler {
            intervals,
            phase: Phase::Running,
            pending: Action::Sleep { duration: 0 },
            tick_start: 0,
            app,
            pull_failed: false,
            render_failed: false,
        }
    }

    /// Sorts the rows if a sort is due, and asks for a draw.
    fn sort_then_draw(&mut self, now: u64)
        requires
            old(self).app.wf(),
        ensures
            final(self).app.wf(),
            final(self)@ == old(self)@.sort_then_draw(now),
    {
        if is_due(self.app.last_sort(), self.intervals.sort_interval, now) {
            self.app.resort(now);
        }
        self.pending = Action::Draw;
    }

    /// Asks the caller to idle for what is left of the tick period.
    fn idle(&mut self, now: u64)
        ensures
            final(self).app == old(self).app,
            final(self)@ == old(self)@.idle(now),
    {
        self.pending = Action::Sleep {
            duration: remaining_of(self.intervals.tick_period, self.tick_start, now),
        };
    }

    /// Takes in what came of the pending action at time `now`, and says
    /// what to do next.
    pub fn step(&mut self, now: u64, event: Event) -> (action: Action)
        requires
            old(self).wf(),
        ensures
            final(self).wf(),
            final(self)@ == old(self)@.step(now, event),
            action == final(self)@.pending,
    {
        match self.phase {
            Phase::ShuttingDown => {
                self.pending = Action::Halt;
            },
            Phase::Running => {
                match (self.pending, event) {
                    (Action::Sleep { .. }, Event::Tick) => {
                        self.tick_start = now;
                        if is_due(self.app.last_refresh(), self.intervals.data_interval, now) {
                            self.pending = Action::Collect;
                        } else {
                            self.sort_then_draw(now);
                        }
                    },
                    (Action::Collect, Event::Snapshot(snapshot)) => {
                        self.app.apply_snapshot(snapshot, now);
                        self.pull_failed = false;
                        self.sort_then_draw(now);
                    },
                    (Action::Collect, Event::CollectionFailed) => {
                        self.pull_failed = true;
                        self.pending = Action::Draw;
                    },
                    (Action::Draw, Event::Drawn) => {
                        self.pending = Action::Poll { timeout: self.intervals.poll_timeout };
                    },
                    (Action::Draw, Event::DrawFailed) => {
                        self.phase = Phase::ShuttingDown;
                        self.pending = Action::Exit;
                        self.render_failed = true;
                    },
                    (Action::Poll { .. }, Event::Key(key)) => {
                        if key.is_quit() {
                            self.phase = Phase::ShuttingDown;
                            self.pending = Action::Exit;
                        } else {
                            self.idle(now);
                        }
                    },
                    (Action::Poll { .. }, Event::NoKey) => {
                        self.idle(now);
                    },
                    (Action::Poll { .. }, Event::InputFailed) => {
                        self.idle(now);
                    },
                    _ => {},
                }
            },
        }
        self.pending
    }

    /// The dashboard, to read and to draw.
    pub fn state(&self) -> (app: &App)
        ensures
            app@ == self@.app,
            self.wf() ==> app.wf(),
    {
        &self.app
    }

    /// Whether the loop goes on.
    pub fn phase(&self) -> (phase: Phase)
        ensures
            phase == self@.phase,
    {
        self.phase
    }

    /// The action handed out last.
    pub fn pending(&self) -> (action: Action)
        ensures
            action == self@.pending,
    {
        self.pending
    }

    /// Whether the latest pull of a snapshot failed, so that the dashboard
    /// shows older data than it would.
    pub fn pull_failed(&self) -> (failed: bool)
        ensures
            failed == self@.pull_failed,
    {
        self.pull_failed
    }

    /// Whether the loop was left because drawing failed.
    pub fn render_failed(&self) -> (failed: bool)
        ensures
            failed == self@.render_failed,
    {
        self.render_failed
    }

    /// The cadences of the loop.
    pub fn intervals(&self) -> (intervals: Intervals)
        ensures
            intervals == self@.intervals,
    {
        self.intervals
    }
}

} // verus!
