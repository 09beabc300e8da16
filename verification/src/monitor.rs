//! The monitor state machine.
//!
//! Terminals 1 and 2 of the burner's controller board are connected while the
//! burner operates normally (a `Low` reading) and disconnected when it is in
//! an error state, power failures included (a `High` reading). Each iteration
//! of the monitor loop takes one reading and decides, from the reading and
//! the context kept across iterations, which notification (if any) is due:
//!
//! - going `High` is an alert, or a failed startup if the burner went `High`
//!   again before the startup window had elapsed since it last went `Low`;
//! - staying `High` calls for a reminder whenever a notifier is due for one;
//! - the first iteration after going `Low` marks the start of a startup
//!   attempt, and staying `Low` for the whole startup window is reported once
//!   as a successful startup.
//!
//! The loop itself (reading the input, sending, sleeping) is run by the
//! caller, which hands each reading and clock value to `Context::advance`,
//! sends what the returned action asks for, then reports back with
//! `Context::record_sent` and closes the iteration with `Context::end_loop`.
use vstd::prelude::*;

verus! {

/// A reading of the error circuit of the burner.
#[derive(Clone, Copy, Debug, PartialEq, Eq, Structural)]
pub enum Reading {
    /// The circuit is closed: the burner operates normally.
    Low,
    /// The circuit is open: the burner is in an error state.
    High,
}

/// A point in time: a monotonic clock reading in nanoseconds, by which
/// durations are measured, and the wall-clock time in seconds since the UNIX
/// epoch, which messages report.
#[derive(Clone, Copy, Debug, PartialEq, Eq, Structural)]
pub struct Timestamp {
    pub instant_ns: u128,
    pub unix_seconds: i64,
}

/// The kinds of notification.
#[derive(Clone, Copy, Debug, PartialEq, Eq, Structural)]
pub enum MessageType {
    /// The burner went into an error state.
    Alert,
    /// The burner is still in an error state.
    Reminder,
    /// The burner tried to start up but went into an error state before the
    /// startup window had elapsed.
    StartupFailed,
    /// The burner stayed operational for the whole startup window.
    StartupSuccess,
}

impl MessageType {
    /// The name by which the type of a message is passed on, as to external
    /// commands.
    pub fn name(&self) -> (n: &'static str)
        ensures
            n@ == match self {
                MessageType::Alert => "alert"@,
                MessageType::Reminder => "reminder"@,
                MessageType::StartupFailed => "startup_failed"@,
                MessageType::StartupSuccess => "startup_success"@,
            },
    {
        match self {
            MessageType::Alert => "alert",
            MessageType::Reminder => "reminder",
            MessageType::StartupFailed => "startup_failed",
            MessageType::StartupSuccess => "startup_success",
        }
    }
}

/// What an iteration of the monitor loop calls for.
#[derive(Clone, Copy, Debug, PartialEq, Eq, Structural)]
pub enum Action {
    /// Nothing to do.
    Idle,
    /// The burner just went `Low`: a startup attempt begins now.
    StartupBegun,
    /// A notification of this type is to be sent through all notifiers.
    Send(MessageType),
}

/// The outcome of handing a reading to the monitor.
#[derive(Clone, Copy, Debug, PartialEq, Eq, Structural)]
pub struct Step {
    /// Whether the reading differs from the previous one.
    pub reading_changed: bool,
    /// What the iteration calls for.
    pub action: Action,
}

/// The state of the monitor loop, kept across iterations.
#[derive(Clone, Copy, Debug, PartialEq, Eq, Structural)]
pub struct Context {
    /// The time of the current iteration.
    pub now: Timestamp,
    /// The reading of the previous iteration (`Low` before the first).
    pub previous_reading: Reading,
    /// When the reading last changed to `Low`.
    pub went_low_at: Option<Timestamp>,
    /// When the reading last changed to `High`.
    pub went_high_at: Option<Timestamp>,
    /// When the reading last changed at all.
    pub time_of_state_change: Option<Timestamp>,
    /// When the current (or last) startup attempt began: the first iteration
    /// after the reading went `Low`.
    pub time_of_startup: Option<Timestamp>,
    /// Whether the current startup attempt was reported successful.
    pub startup_succeeded: bool,
    /// The number of completed iterations.
    pub loop_iteration: u64,
}

/// The context before the first iteration.
pub open spec fn initial_context(now: Timestamp) -> Context {
    Context {
        now,
        previous_reading: Reading::Low,
        went_low_at: None,
        went_high_at: None,
        time_of_state_change: None,
        time_of_startup: None,
        startup_succeeded: false,
        loop_iteration: 0,
    }
}

/// The time elapsed between `since` and the clock reading `clock_ns`, zero
/// if the clock reads earlier.
pub open spec fn elapsed_ns(since: Timestamp, clock_ns: u128) -> u128 {
    if clock_ns >= since.instant_ns {
        (clock_ns - since.instant_ns) as u128
    } else {
        0
    }
}

/// The context after taking `reading` into account: on a change, the time of
/// the change is recorded, and going `Low` starts afresh (no startup attempt
/// yet, none succeeded).
pub open spec fn observed(c: Context, reading: Reading) -> Context {
    if reading != c.previous_reading {
        let reset = match reading {
            Reading::Low => Context {
                went_low_at: Some(c.now),
                time_of_startup: None,
                startup_succeeded: false,
                ..c
            },
            Reading::High => Context { went_high_at: Some(c.now), ..c },
        };
        Context { previous_reading: reading, time_of_state_change: Some(c.now), ..reset }
    } else {
        c
    }
}

/// What a `Low` reading calls for, in the context after observing it.
pub open spec fn low_action(c: Context, clock_ns: u128, startup_window_ns: u128) -> Action {
    if c.time_of_state_change is None || c.startup_succeeded {
        Action::Idle
    } else {
        match c.time_of_startup {
            None => Action::StartupBegun,
            Some(t) => if elapsed_ns(t, clock_ns) >= startup_window_ns {
                Action::Send(MessageType::StartupSuccess)
            } else {
                Action::Idle
            },
        }
    }
}

/// What a `High` reading calls for, in the context after observing it.
pub open spec fn high_action(
    c: Context,
    reading_changed: bool,
    clock_ns: u128,
    startup_window_ns: u128,
    reminder_due: bool,
) -> Action {
    if reading_changed || c.loop_iteration == 0 {
        match c.time_of_startup {
            Some(t) => if elapsed_ns(t, clock_ns) < startup_window_ns {
                Action::Send(MessageType::StartupFailed)
            } else {
                Action::Send(MessageType::Alert)
            },
            None => Action::Send(MessageType::Alert),
        }
    } else if reminder_due {
        Action::Send(MessageType::Reminder)
    } else {
        Action::Idle
    }
}

/// What `reading` calls for in the context `c` (before observing it).
pub open spec fn decided(
    c: Context,
    reading: Reading,
    clock_ns: u128,
    startup_window_ns: u128,
    reminder_due: bool,
) -> Action {
    let o = observed(c, reading);
    match reading {
        Reading::Low => low_action(o, clock_ns, startup_window_ns),
        Reading::High => high_action(o, reading != c.previous_reading, clock_ns, startup_window_ns, reminder_due),
    }
}

/// The context after deciding on `action`: a startup attempt that begins is
/// timed at the current iteration.
pub open spec fn after_action(c: Context, action: Action) -> Context {
    if action == Action::StartupBegun {
        Context { time_of_startup: Some(c.now), ..c }
    } else {
        c
    }
}

/// The context after handing `reading` to the monitor.
pub open spec fn advanced(
    c: Context,
    reading: Reading,
    clock_ns: u128,
    startup_window_ns: u128,
    reminder_due: bool,
) -> Context {
    after_action(observed(c, reading), decided(c, reading, clock_ns, startup_window_ns, reminder_due))
}

/// The context after a notification of type `message` was sent: a successful
/// startup is reported only once.
pub open spec fn recorded(c: Context, message: MessageType) -> Context {
    if message == MessageType::StartupSuccess {
        Context { startup_succeeded: true, ..c }
    } else {
        c
    }
}

/// The context after the end of an iteration.
pub open spec fn ended(c: Context) -> Context {
    Context { loop_iteration: (c.loop_iteration + 1) as u64, ..c }
}

impl Context {
    /// The relations between the fields that every iteration keeps.
    pub open spec fn wf(self) -> bool {
        &&& self.startup_succeeded ==> self.time_of_startup is Some
        &&& self.time_of_startup is Some ==> self.time_of_state_change is Some
        &&& self.time_of_state_change is None ==> {
            &&& self.previous_reading == Reading::Low
            &&& self.went_low_at is None
            &&& self.went_high_at is None
            &&& self.time_of_startup is None
        }
        &&& self.time_of_state_change is Some && self.previous_reading == Reading::Low ==> self.went_low_at is Some
        &&& self.previous_reading == Reading::High ==> self.went_high_at is Some
    }

    /// The context before the first iteration, taken at `now`.
    pub fn new(now: Timestamp) -> (c: Context)
        ensures
            c == initial_context(now),
            c.wf(),
    {
        Context {
            now,
            previous_reading: Reading::Low,
            went_low_at: None,
            went_high_at: None,
            time_of_state_change: None,
            time_of_startup: None,
            startup_succeeded: false,
            loop_iteration: 0,
        }
    }

    /// Sets the time of the current iteration.
    pub fn set_now(&mut self, now: Timestamp)
        ensures
            *final(self) == (Context { now, ..*old(self) }),
            old(self).wf() ==> final(self).wf(),
    {
        self.now = now;
    }

    /// Takes `reading` into account and tells whether it differs from the
    /// previous one.
    pub fn observe_reading(&mut self, reading: Reading) -> (changed: bool)
        ensures
            changed == (reading != old(self).previous_reading),
            *final(self) == observed(*old(self), reading),
            old(self).wf() ==> final(self).wf(),
    {
        let changed = reading != self.previous_reading;
        if changed {
            match reading {
                Reading::Low => {
                    self.went_low_at = Some(self.now);
                    self.time_of_startup = None;
                    self.startup_succeeded = false;
                },
                Reading::High => {
                    self.went_high_at = Some(self.now);
                },
            }
            self.previous_reading = reading;
            self.time_of_state_change = Some(self.now);
        }
        changed
    }

    /// Decides what a `Low` reading calls for, once observed. A startup attempt
    /// that begins is timed now; a successful startup is to be reported once
    /// `clock_ns` is at least `startup_window_ns` past its beginning.
    pub fn handle_low_reading(&mut self, clock_ns: u128, startup_window_ns: u128) -> (action: Action)
        ensures
            action == low_action(*old(self), clock_ns, startup_window_ns),
            *final(self) == after_action(*old(self), action),
            old(self).wf() && old(self).previous_reading == Reading::Low ==> final(self).wf(),
    {
        if self.time_of_state_change.is_none() || self.startup_succeeded {
            return Action::Idle;
        }
        match self.time_of_startup {
            None => {
                self.time_of_startup = Some(self.now);
                Action::StartupBegun
            },
            Some(t) => {
                if elapsed(t, clock_ns) >= startup_window_ns {
                    Action::Send(MessageType::StartupSuccess)
                } else {
                    Action::Idle
                }
            },
        }
    }

    /// Decides what a `High` reading calls for, once observed: after a change
    /// (or on the first iteration) a failed startup if a startup attempt
    /// began less than `startup_window_ns` before `clock_ns`, else an alert;
    /// otherwise a reminder if one is due.
    pub fn handle_high_reading(
        &self,
        reading_changed: bool,
        clock_ns: u128,
        startup_window_ns: u128,
        reminder_due: bool,
    ) -> (action: Action)
        ensures
            action == high_action(*self, reading_changed, clock_ns, startup_window_ns, reminder_due),
    {
        if reading_changed || self.loop_iteration == 0 {
            match self.time_of_startup {
                Some(t) => {
                    if elapsed(t, clock_ns) < startup_window_ns {
                        Action::Send(MessageType::StartupFailed)
                    } else {
                        Action::Send(MessageType::Alert)
                    }
                },
                None => Action::Send(MessageType::Alert),
            }
        } else if reminder_due {
            Action::Send(MessageType::Reminder)
        } else {
            Action::Idle
        }
    }

    /// Hands one reading to the monitor: observes it, then decides what it
    /// calls for. `clock_ns` is the clock at the time of the decision,
    /// `reminder_due` whether some notifier is due for a reminder (consulted
    /// only while the reading stays `High`).
    pub fn advance(
        &mut self,
        reading: Reading,
        clock_ns: u128,
        startup_window_ns: u128,
        reminder_due: bool,
    ) -> (step: Step)
        ensures
            step.reading_changed == (reading != old(self).previous_reading),
            step.action == decided(*old(self), reading, clock_ns, startup_window_ns, reminder_due),
            *final(self) == advanced(*old(self), reading, clock_ns, startup_window_ns, reminder_due),
            old(self).wf() ==> final(self).wf(),
    {
        let reading_changed = self.observe_reading(reading);
        let action = match reading {
            Reading::Low => self.handle_low_reading(clock_ns, startup_window_ns),
            Reading::High => self.handle_high_reading(reading_changed, clock_ns, startup_window_ns, reminder_due),
        };
        Step { reading_changed, action }
    }

    /// Records that a notification of type `message` was sent through the
    /// notifiers (whatever their results).
    pub fn record_sent(&mut self, message: MessageType)
        ensures
            *final(self) == recorded(*old(self), message),
            old(self).wf() && (message == MessageType::StartupSuccess ==> old(self).time_of_startup is Some)
                ==> final(self).wf(),
    {
        if let MessageType::StartupSuccess = message {
            self.startup_succeeded = true;
        }
    }

    /// Closes an iteration of the loop.
    pub fn end_loop(&mut self)
        requires
            old(self).loop_iteration < u64::MAX,
        ensures
            *final(self) == ended(*old(self)),
            old(self).wf() ==> final(self).wf(),
    {
        self.loop_iteration = self.loop_iteration + 1;
    }
}

/// The time elapsed between `since` and the clock reading `clock_ns`.
pub fn elapsed(since: Timestamp, clock_ns: u128) -> (d: u128)
    ensures
        d == elapsed_ns(since, clock_ns),
{
    if clock_ns >= since.instant_ns {
        clock_ns - since.instant_ns
    } else {
        0
    }
}

/// Every iteration keeps the context well formed: handing a reading to the
/// monitor, recording what was sent as it asked, and closing the iteration.
pub proof fn law_iteration_keeps_wf(
    c: Context,
    reading: Reading,
    clock_ns: u128,
    startup_window_ns: u128,
    reminder_due: bool,
)
    requires
        c.wf(),
    ensures
        ({
            let a = decided(c, reading, clock_ns, startup_window_ns, reminder_due);
            let c1 = advanced(c, reading, clock_ns, startup_window_ns, reminder_due);
            &&& c1.wf()
            &&& a matches Action::Send(m) ==> recorded(c1, m).wf()
            &&& a matches Action::Send(m) ==> ended(recorded(c1, m)).wf()
            &&& ended(c1).wf()
        }),
{
}

/// A `Low` reading never calls for an alert, a reminder or a failed startup.
pub proof fn law_low_never_alerts(
    c: Context,
    clock_ns: u128,
    startup_window_ns: u128,
    reminder_due: bool,
)
    ensures
        ({
            let a = decided(c, Reading::Low, clock_ns, startup_window_ns, reminder_due);
            a == Action::Idle || a == Action::StartupBegun
                || a == Action::Send(MessageType::StartupSuccess)
        }),
{
}

/// While the reading has stayed `Low` since the monitor started, nothing is
/// done and the context stays as it is.
pub proof fn law_quiet_while_low_since_start(
    c: Context,
    clock_ns: u128,
    startup_window_ns: u128,
    reminder_due: bool,
)
    requires
        c.wf(),
        c.time_of_state_change is None,
    ensures
        decided(c, Reading::Low, clock_ns, startup_window_ns, reminder_due) == Action::Idle,
        advanced(c, Reading::Low, clock_ns, startup_window_ns, reminder_due) == c,
{
}

/// The first `Low` reading after a `High` one begins a startup attempt, timed
/// at that iteration, without any notification.
pub proof fn law_going_low_begins_startup(
    c: Context,
    clock_ns: u128,
    startup_window_ns: u128,
    reminder_due: bool,
)
    requires
        c.wf(),
        c.previous_reading == Reading::High,
    ensures
        decided(c, Reading::Low, clock_ns, startup_window_ns, reminder_due) == Action::StartupBegun,
        ({
            let c1 = advanced(c, Reading::Low, clock_ns, startup_window_ns, reminder_due);
            &&& c1.time_of_startup == Some(c.now)
            &&& c1.went_low_at == Some(c.now)
            &&& c1.time_of_state_change == Some(c.now)
            &&& !c1.startup_succeeded
        }),
{
}

/// While `Low` during a startup attempt, a successful startup is to be
/// reported exactly when the startup window has elapsed since the attempt
/// began.
pub proof fn law_startup_success_after_window(
    c: Context,
    clock_ns: u128,
    startup_window_ns: u128,
    reminder_due: bool,
)
    requires
        c.wf(),
        c.previous_reading == Reading::Low,
        c.time_of_startup is Some,
        !c.startup_succeeded,
    ensures
        decided(c, Reading::Low, clock_ns, startup_window_ns, reminder_due) == (
            if elapsed_ns(c.time_of_startup->0, clock_ns) >= startup_window_ns {
                Action::Send(MessageType::StartupSuccess)
            } else {
                Action::Idle
            }),
{
}

/// Once a successful startup was reported, staying `Low` calls for nothing
/// more and changes nothing, however much time passes.
pub proof fn law_startup_success_reported_once(
    c: Context,
    clock_ns: u128,
    startup_window_ns: u128,
    reminder_due: bool,
)
    requires
        c.wf(),
        c.previous_reading == Reading::Low,
        c.time_of_startup is Some,
        !c.startup_succeeded,
        decided(c, Reading::Low, clock_ns, startup_window_ns, reminder_due) == Action::Send(MessageType::StartupSuccess),
    ensures
        ({
            let c1 = ended(recorded(advanced(c, Reading::Low, clock_ns, startup_window_ns, reminder_due), MessageType::StartupSuccess));
            forall|later_clock_ns: u128, later_due: bool|
                decided(c1, Reading::Low, later_clock_ns, startup_window_ns, later_due) == Action::Idle
                && #[trigger] advanced(c1, Reading::Low, later_clock_ns, startup_window_ns, later_due) == c1
        }),
{
}

/// Going `High` always calls for a notification: a failed startup exactly
/// when a startup attempt began less than the startup window before,
/// otherwise an alert.
pub proof fn law_going_high_notifies(
    c: Context,
    clock_ns: u128,
    startup_window_ns: u128,
    reminder_due: bool,
)
    requires
        c.previous_reading == Reading::Low,
    ensures
        decided(c, Reading::High, clock_ns, startup_window_ns, reminder_due) == (
            if c.time_of_startup matches Some(t) && elapsed_ns(t, clock_ns) < startup_window_ns {
                Action::Send(MessageType::StartupFailed)
            } else {
                Action::Send(MessageType::Alert)
            }),
        advanced(c, Reading::High, clock_ns, startup_window_ns, reminder_due).went_high_at == Some(c.now),
{
}

/// A reminder is called for exactly when the reading stays `High` past the
/// first iteration and some notifier is due for one; staying `High`
/// otherwise calls for nothing.
pub proof fn law_reminders_only_while_high_persists(
    c: Context,
    reading: Reading,
    clock_ns: u128,
    startup_window_ns: u128,
    reminder_due: bool,
)
    ensures
        (decided(c, reading, clock_ns, startup_window_ns, reminder_due) == Action::Send(MessageType::Reminder))
            <==> (reading == Reading::High && c.previous_reading == Reading::High
                && c.loop_iteration != 0 && reminder_due),
{
}

/// On the first iteration a `High` reading is alerted on even without a
/// change (the burner may have been in error before the monitor started).
pub proof fn law_first_high_reading_alerts(
    now: Timestamp,
    clock_ns: u128,
    startup_window_ns: u128,
    reminder_due: bool,
)
    ensures
        decided(initial_context(now), Reading::High, clock_ns, startup_window_ns, reminder_due)
            == Action::Send(MessageType::Alert),
{
}

/// A startup attempt is never reported both successful and failed: once its
/// success was reported, going `High` later (by a clock that did not run
/// backwards) is an alert.
pub proof fn law_success_then_high_is_alert(
    c: Context,
    success_clock_ns: u128,
    later_clock_ns: u128,
    startup_window_ns: u128,
    due: bool,
    later_due: bool,
)
    requires
        c.wf(),
        decided(c, Reading::Low, success_clock_ns, startup_window_ns, due) == Action::Send(MessageType::StartupSuccess),
        success_clock_ns <= later_clock_ns,
    ensures
        ({
            let c1 = ended(recorded(advanced(c, Reading::Low, success_clock_ns, startup_window_ns, due), MessageType::StartupSuccess));
            decided(c1, Reading::High, later_clock_ns, startup_window_ns, later_due) == Action::Send(MessageType::Alert)
        }),
{
}

/// A `High` reading that does not differ from the previous one, past the
/// first iteration, calls for a reminder if one is due and for nothing
/// otherwise, whatever the state of the last startup attempt; the context
/// stays as it is.
pub proof fn law_persisting_high_only_reminds(
    c: Context,
    clock_ns: u128,
    startup_window_ns: u128,
    reminder_due: bool,
)
    requires
        c.previous_reading == Reading::High,
        c.loop_iteration != 0,
    ensures
        decided(c, Reading::High, clock_ns, startup_window_ns, reminder_due) == (if reminder_due {
            Action::Send(MessageType::Reminder)
        } else {
            Action::Idle
        }),
        decided(c, Reading::High, clock_ns, startup_window_ns, false) == Action::Idle,
        advanced(c, Reading::High, clock_ns, startup_window_ns, reminder_due) == c,
{
}

/// Deciding on an observed `High` reading that did not change, past the
/// first iteration, gives a reminder if one is due and nothing otherwise.
pub proof fn law_unchanged_high_decision(
    c: Context,
    clock_ns: u128,
    startup_window_ns: u128,
    reminder_due: bool,
)
    requires
        c.loop_iteration != 0,
    ensures
        high_action(c, false, clock_ns, startup_window_ns, reminder_due) == (if reminder_due {
            Action::Send(MessageType::Reminder)
        } else {
            Action::Idle
        }),
{
}

/// An alert or a failed startup is called for only by a `High` reading that
/// changed, or on the first iteration; so an error that persists is alerted
/// on once.
pub proof fn law_alerts_only_on_change_or_first_iteration(
    c: Context,
    reading: Reading,
    clock_ns: u128,
    startup_window_ns: u128,
    reminder_due: bool,
)
    ensures
        ({
            let a = decided(c, reading, clock_ns, startup_window_ns, reminder_due);
            (a == Action::Send(MessageType::Alert) || a == Action::Send(MessageType::StartupFailed))
                ==> reading == Reading::High && (c.previous_reading == Reading::Low || c.loop_iteration == 0)
        }),
{
}

/// Two iterations in a row with a `High` reading: once the first has closed,
/// the second calls for no alert or failed startup, only a due reminder.
pub proof fn law_high_twice_notifies_once(
    c: Context,
    clock1_ns: u128,
    clock2_ns: u128,
    startup_window_ns: u128,
    due1: bool,
    due2: bool,
)
    requires
        c.loop_iteration < u64::MAX,
    ensures
        ({
            let a1 = decided(c, Reading::High, clock1_ns, startup_window_ns, due1);
            let c1 = advanced(c, Reading::High, clock1_ns, startup_window_ns, due1);
            let c2 = ended(match a1 { Action::Send(m) => recorded(c1, m), _ => c1 });
            decided(c2, Reading::High, clock2_ns, startup_window_ns, due2) == (if due2 {
                Action::Send(MessageType::Reminder)
            } else {
                Action::Idle
            })
        }),
{
}

} // verus!
