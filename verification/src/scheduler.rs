//! The renewal schedule: one step function from the task's phase and an event
//! to the next phase and the action to perform, and what holds of every run of
//! it. Whoever drives the task performs each action and hands back the event
//! that answers it.

use crate::config::Interval;
use crate::error::VaultError;
use vaultrs::error::ClientError;
use vstd::prelude::*;

verus! {

/// Where the task stands.
#[derive(Clone, Copy, Debug, PartialEq, Eq, Structural)]
pub enum Phase {
    /// Running, and waiting for the timer.
    Waiting,
    /// Running, with the renewal request under way.
    Renewing,
    /// Running, with the lookup that follows a renewal under way.
    LookingUp,
    /// Cancelled. Nothing leads out of this phase.
    Stopped,
}

/// What an event tells the schedule, without what it carries.
#[derive(Clone, Copy, Debug, PartialEq, Eq, Structural)]
pub enum Signal {
    TimerFired,
    Cancelled,
    RenewSucceeded,
    RenewFailed,
    LookupSucceeded,
    LookupFailed,
}

/// What an action asks for, without what it carries.
#[derive(Clone, Copy, Debug, PartialEq, Eq, Structural)]
pub enum Command {
    AwaitTick,
    Renew,
    Lookup,
    Stop,
}

/// Whether `signal` is one that a task in `phase` takes: the cancellation at
/// any time, otherwise the answer to what the phase is waiting for. A stopped
/// task takes everything, and does nothing with it.
pub open spec fn answers(phase: Phase, signal: Signal) -> bool {
    match (phase, signal) {
        (Phase::Stopped, _) => true,
        (_, Signal::Cancelled) => true,
        (Phase::Waiting, Signal::TimerFired) => true,
        (Phase::Renewing, Signal::RenewSucceeded) => true,
        (Phase::Renewing, Signal::RenewFailed) => true,
        (Phase::LookingUp, Signal::LookupSucceeded) => true,
        (Phase::LookingUp, Signal::LookupFailed) => true,
        _ => false,
    }
}

/// The phase that follows `phase` on `signal`. A signal that the phase does not
/// take leaves it as it is.
pub open spec fn next_phase(phase: Phase, signal: Signal) -> Phase {
    match (phase, signal) {
        (Phase::Stopped, _) => Phase::Stopped,
        (_, Signal::Cancelled) => Phase::Stopped,
        (Phase::Waiting, Signal::TimerFired) => Phase::Renewing,
        (Phase::Renewing, Signal::RenewSucceeded) => Phase::LookingUp,
        (Phase::Renewing, Signal::RenewFailed) => Phase::Waiting,
        (Phase::LookingUp, Signal::LookupSucceeded) => Phase::Waiting,
        (Phase::LookingUp, Signal::LookupFailed) => Phase::Waiting,
        _ => phase,
    }
}

/// What a task asks for on entering `phase`.
pub open spec fn command_on_entering(phase: Phase) -> Command {
    match phase {
        Phase::Waiting => Command::AwaitTick,
        Phase::Renewing => Command::Renew,
        Phase::LookingUp => Command::Lookup,
        Phase::Stopped => Command::Stop,
    }
}

/// Whether a task in `phase` starts a renewal attempt on `signal`.
pub open spec fn starts_renewal(phase: Phase, signal: Signal) -> bool {
    phase == Phase::Waiting && signal == Signal::TimerFired
}

/// The phase of a task that started in `start` and was handed `signals` in turn.
pub open spec fn phase_after(start: Phase, signals: Seq<Signal>) -> Phase
    decreases signals.len(),
{
    if signals.len() == 0 {
        start
    } else {
        next_phase(phase_after(start, signals.drop_last()), signals.last())
    }
}

/// How many renewal attempts a task that started in `start` has begun once it
/// was handed `signals` in turn.
pub open spec fn renewals_started(start: Phase, signals: Seq<Signal>) -> nat
    decreases signals.len(),
{
    if signals.len() == 0 {
        0
    } else {
        let earlier = signals.drop_last();
        let now: nat = if starts_renewal(phase_after(start, earlier), signals.last()) {
            1
        } else {
            0
        };
        renewals_started(start, earlier) + now
    }
}

/// How often the timer fired in `signals`.
pub open spec fn timer_firings(signals: Seq<Signal>) -> nat
    decreases signals.len(),
{
    if signals.len() == 0 {
        0
    } else {
        let now: nat = if signals.last() == Signal::TimerFired {
            1
        } else {
            0
        };
        timer_firings(signals.drop_last()) + now
    }
}

/// Whether each of `signals` is one that the task takes at the time it comes,
/// having started in `start`.
pub open spec fn follows_protocol(start: Phase, signals: Seq<Signal>) -> bool
    decreases signals.len(),
{
    signals.len() == 0 || (follows_protocol(start, signals.drop_last()) && answers(
        phase_after(start, signals.drop_last()),
        signals.last(),
    ))
}

/// What a successful lookup tells of the token.
#[derive(Debug)]
pub struct TokenInfo {
    /// When the token expires, where it does.
    pub expire_time: Option<String>,
    /// The identifier that stands for the token where its value must not show.
    pub accessor: String,
}

/// A completed renewal, as it is reported.
#[derive(Debug)]
pub struct Renewal {
    /// When the token now expires; the word `None` where it does not.
    pub expire_time: String,
    pub accessor: String,
}

/// The text that stands for an expiration time in a report.
pub open spec fn shown_expiry(expire_time: Option<String>) -> Seq<char> {
    match expire_time {
        Some(time) => time@,
        None => "None"@,
    }
}

impl Renewal {
    /// The report of a renewal whose lookup returned `info`.
    pub fn from_lookup(info: TokenInfo) -> (renewal: Renewal)
        ensures
            renewal.accessor == info.accessor,
            renewal.expire_time@ == shown_expiry(info.expire_time),
    {
        let expire_time = match info.expire_time {
            Some(time) => time,
            None => "None".to_owned(),
        };
        Renewal { expire_time, accessor: info.accessor }
    }
}

/// What happened outside the task.
#[derive(Debug)]
pub enum Event {
    /// The interval has elapsed.
    TimerFired,
    /// The cancellation signal was received.
    Cancelled,
    /// The renewal request returned.
    RenewReturned(Result<(), ClientError>),
    /// The lookup request returned.
    LookupReturned(Result<TokenInfo, ClientError>),
}

impl Event {
    /// What the event tells the schedule.
    pub open spec fn signal(self) -> Signal {
        match self {
            Event::TimerFired => Signal::TimerFired,
            Event::Cancelled => Signal::Cancelled,
            Event::RenewReturned(Ok(_)) => Signal::RenewSucceeded,
            Event::RenewReturned(Err(_)) => Signal::RenewFailed,
            Event::LookupReturned(Ok(_)) => Signal::LookupSucceeded,
            Event::LookupReturned(Err(_)) => Signal::LookupFailed,
        }
    }
}

/// What the driver is to do next.
#[derive(Debug)]
pub enum Action {
    /// Wait until the timer fires or the cancellation comes, whichever is first.
    AwaitTick,
    /// Ask the service to extend the token by `increment`.
    Renew { increment: String },
    /// Look the token up.
    Lookup,
    /// Leave the loop.
    Stop,
}

impl Action {
    /// What the action asks for.
    pub open spec fn command(self) -> Command {
        match self {
            Action::AwaitTick => Command::AwaitTick,
            Action::Renew { .. } => Command::Renew,
            Action::Lookup => Command::Lookup,
            Action::Stop => Command::Stop,
        }
    }

    /// Whether the action begins a renewal attempt.
    pub fn is_renew(&self) -> (b: bool)
        ensures
            b == (self.command() == Command::Renew),
    {
        match self {
            Action::Renew { .. } => true,
            _ => false,
        }
    }
}

/// What a step has to tell an observer. Nothing of it reaches a caller of the
/// client.
#[derive(Debug)]
pub enum Report {
    /// Nothing to tell.
    Quiet,
    /// The token was renewed and looked up.
    Renewed(Renewal),
    /// The renewal request failed; the tick is over.
    RenewFailed(VaultError),
    /// The token was renewed, but the lookup failed; the tick is over.
    LookupFailed(VaultError),
    /// The cancellation was received; the loop ends.
    Stopping,
}

/// The outcome of one step.
#[derive(Debug)]
pub struct Step {
    pub action: Action,
    pub report: Report,
}

/// Whether `report` is what a task in `phase` tells of `event`.
pub open spec fn reported(phase: Phase, event: Event, report: Report) -> bool {
    match (phase, event) {
        (Phase::Stopped, _) => report is Quiet,
        (_, Event::Cancelled) => report is Stopping,
        (Phase::Renewing, Event::RenewReturned(Err(cause))) => report == Report::RenewFailed(
            VaultError::TransportError(cause),
        ),
        (Phase::LookingUp, Event::LookupReturned(Err(cause))) => report == Report::LookupFailed(
            VaultError::TransportError(cause),
        ),
        (Phase::LookingUp, Event::LookupReturned(Ok(info))) => {
            &&& report matches Report::Renewed(renewal)
            &&& renewal.accessor == info.accessor
            &&& renewal.expire_time@ == shown_expiry(info.expire_time)
        },
        _ => report is Quiet,
    }
}

/// The background task that keeps a client's token alive: its phase, the
/// increment it asks for, and the interval it runs at.
#[derive(Debug)]
pub struct RenewalTask {
    phase: Phase,
    increment: String,
    interval: Interval,
}

/// What a task is, as plain values.
pub ghost struct TaskView {
    pub phase: Phase,
    pub increment: Seq<char>,
    /// The time between two ticks, in nanoseconds.
    pub interval: nat,
}

impl View for RenewalTask {
    type V = TaskView;

    closed spec fn view(&self) -> TaskView {
        TaskView { phase: self.phase, increment: self.increment@, interval: self.interval@ }
    }
}

/// Whether `step` is what a task `task` does on an `event` that it takes.
pub open spec fn performs(task: TaskView, event: Event, step: Step) -> bool {
    &&& step.action.command() == command_on_entering(next_phase(task.phase, event.signal()))
    &&& step.action matches Action::Renew { increment } ==> increment@ == task.increment
    &&& reported(task.phase, event, step.report)
}

impl RenewalTask {
    /// A task that has not run yet: it waits for its first tick.
    pub open spec fn initial(increment: Seq<char>, interval: nat) -> TaskView {
        TaskView { phase: Phase::Waiting, increment, interval }
    }

    /// A task that asks for `increment` every `interval`. It begins by waiting:
    /// its first renewal comes one interval after its start.
    pub fn new(increment: String, interval: Interval) -> (task: RenewalTask)
        ensures
            task@ == Self::initial(increment@, interval@),
    {
        RenewalTask { phase: Phase::Waiting, increment, interval }
    }

    /// Where the task stands.
    pub fn phase(&self) -> (phase: Phase)
        ensures
            phase == self@.phase,
    {
        self.phase
    }

    /// Whether the task was cancelled.
    pub fn is_stopped(&self) -> (stopped: bool)
        ensures
            stopped == (self@.phase == Phase::Stopped),
    {
        match self.phase {
            Phase::Stopped => true,
            _ => false,
        }
    }

    /// The increment asked for at each renewal.
    pub fn increment(&self) -> (increment: &str)
        ensures
            increment@ == self@.increment,
    {
        self.increment.as_str()
    }

    /// The time between two ticks.
    pub fn interval(&self) -> (interval: Interval)
        ensures
            interval@ == self@.interval,
    {
        self.interval
    }

    /// What the driver of a task that has not run yet is to do first: wait for
    /// the first tick.
    pub fn first_action() -> (action: Action)
        ensures
            action == Action::AwaitTick,
            action.command() == command_on_entering(Phase::Waiting),
    {
        Action::AwaitTick
    }

    /// Takes one event, and says what to do next.
    ///
    /// A tick asks for a renewal; a renewal that succeeded asks for the lookup;
    /// a renewal or a lookup that failed ends the tick with a report, and the
    /// task waits for the next tick as if nothing had happened. The
    /// cancellation stops the task from any phase, and a stopped task answers
    /// every event with `Stop`. An event that answers nothing the task is
    /// waiting for changes nothing and gets `None`. Increment and interval
    /// never change.
    pub fn step(&mut self, event: Event) -> (out: Option<Step>)
        ensures
            final(self)@.increment == old(self)@.increment,
            final(self)@.interval == old(self)@.interval,
            final(self)@.phase == next_phase(old(self)@.phase, event.signal()),
            out is Some <==> answers(old(self)@.phase, event.signal()),
            out matches Some(step) ==> performs(old(self)@, event, step),
    {
        match self.phase {
            Phase::Stopped => Some(Step { action: Action::Stop, report: Report::Quiet }),
            Phase::Waiting => match event {
                Event::Cancelled => Some(self.stop()),
                Event::TimerFired => {
                    self.phase = Phase::Renewing;
                    Some(
                        Step {
                            action: Action::Renew { increment: self.increment.clone() },
                            report: Report::Quiet,
                        },
                    )
                },
                _ => None,
            },
            Phase::Renewing => match event {
                Event::Cancelled => Some(self.stop()),
                Event::RenewReturned(Ok(_)) => {
                    self.phase = Phase::LookingUp;
                    Some(Step { action: Action::Lookup, report: Report::Quiet })
                },
                Event::RenewReturned(Err(cause)) => {
                    self.phase = Phase::Waiting;
                    Some(
                        Step {
                            action: Action::AwaitTick,
                            report: Report::RenewFailed(VaultError::TransportError(cause)),
                        },
                    )
                },
                _ => None,
            },
            Phase::LookingUp => match event {
                Event::Cancelled => Some(self.stop()),
                Event::LookupReturned(Ok(info)) => {
                    self.phase = Phase::Waiting;
                    Some(
                        Step {
                            action: Action::AwaitTick,
                            report: Report::Renewed(Renewal::from_lookup(info)),
                        },
                    )
                },
                Event::LookupReturned(Err(cause)) => {
                    self.phase = Phase::Waiting;
                    Some(
                        Step {
                            action: Action::AwaitTick,
                            report: Report::LookupFailed(VaultError::TransportError(cause)),
                        },
                    )
                },
                _ => None,
            },
        }
    }

    /// Stops a running task.
    fn stop(&mut self) -> (step: Step)
        requires
            old(self)@.phase != Phase::Stopped,
        ensures
            final(self)@.increment == old(self)@.increment,
            final(self)@.interval == old(self)@.interval,
            final(self)@.phase == Phase::Stopped,
            step.action == Action::Stop,
            step.report == Report::Stopping,
    {
        self.phase = Phase::Stopped;
        Step { action: Action::Stop, report: Report::Stopping }
    }
}

/// A step asks for a renewal exactly where a waiting task sees its timer fire:
/// the attempts that `renewals_started` counts are the `Renew` actions that
/// `step` hands out.
pub proof fn lemma_renew_only_on_tick(phase: Phase, signal: Signal)
    ensures
        starts_renewal(phase, signal) <==> (answers(phase, signal) && command_on_entering(
            next_phase(phase, signal),
        ) == Command::Renew),
{
}

/// Without a cancellation, a task makes exactly one renewal attempt for each
/// time its timer fired: none is skipped and none is made twice, whatever came
/// of the attempts before.
pub proof fn lemma_one_renewal_per_tick(start: Phase, signals: Seq<Signal>)
    requires
        start != Phase::Stopped,
        follows_protocol(start, signals),
        !signals.contains(Signal::Cancelled),
    ensures
        renewals_started(start, signals) == timer_firings(signals),
        phase_after(start, signals) != Phase::Stopped,
    decreases signals.len(),
{
    if signals.len() > 0 {
        let earlier = signals.drop_last();
        assert(signals[signals.len() - 1] != Signal::Cancelled);
        assert forall|i: int| 0 <= i < earlier.len() implies earlier[i] != Signal::Cancelled by {
            assert(signals[i] == earlier[i]);
        }
        lemma_one_renewal_per_tick(start, earlier);
    }
}

/// A stopped task stays stopped and begins no renewal attempt, whatever it is
/// handed: nothing starts it again.
pub proof fn lemma_stopped_is_terminal(signals: Seq<Signal>)
    ensures
        phase_after(Phase::Stopped, signals) == Phase::Stopped,
        renewals_started(Phase::Stopped, signals) == 0,
    decreases signals.len(),
{
    if signals.len() > 0 {
        lemma_stopped_is_terminal(signals.drop_last());
    }
}

/// Once the cancellation was observed the task is stopped for good, and no
/// renewal attempt begins after it, whatever events follow.
pub proof fn lemma_no_renewal_after_cancel(
    start: Phase,
    before: Seq<Signal>,
    after: Seq<Signal>,
)
    ensures
        phase_after(start, before.push(Signal::Cancelled) + after) == Phase::Stopped,
        renewals_started(start, before.push(Signal::Cancelled) + after) == renewals_started(
            start,
            before,
        ),
    decreases after.len(),
{
    let whole = before.push(Signal::Cancelled) + after;
    if after.len() == 0 {
        assert(whole.drop_last() =~= before);
        assert(whole.last() == Signal::Cancelled);
    } else {
        assert(whole.drop_last() =~= before.push(Signal::Cancelled) + after.drop_last());
        assert(whole.last() == after.last());
        lemma_no_renewal_after_cancel(start, before, after.drop_last());
    }
}

/// A renewal attempt that fails, at the renewal or at the lookup, neither stops
/// the task nor makes it try again at once: the task waits, and the next time
/// the timer fires it makes the next attempt.
pub proof fn lemma_failure_keeps_schedule(start: Phase, signals: Seq<Signal>, failure: Signal)
    requires
        (failure == Signal::RenewFailed && phase_after(start, signals) == Phase::Renewing) || (
        failure == Signal::LookupFailed && phase_after(start, signals) == Phase::LookingUp),
    ensures
        phase_after(start, signals.push(failure)) == Phase::Waiting,
        renewals_started(start, signals.push(failure)) == renewals_started(start, signals),
        phase_after(start, signals.push(failure).push(Signal::TimerFired)) == Phase::Renewing,
        renewals_started(start, signals.push(failure).push(Signal::TimerFired))
            == renewals_started(start, signals) + 1,
{
    let failed = signals.push(failure);
    assert(failed.drop_last() =~= signals);
    assert(failed.last() == failure);
    assert(phase_after(start, failed) == Phase::Waiting);
    assert(renewals_started(start, failed) == renewals_started(start, signals));
    let ticked = failed.push(Signal::TimerFired);
    assert(ticked.drop_last() =~= failed);
    assert(ticked.last() == Signal::TimerFired);
}

} // verus!
