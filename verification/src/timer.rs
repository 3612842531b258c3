//! The destruct-timer state machine.
//!
//! A countdown is driven by commands from a single owner; every `Start`
//! supersedes the countdown before it. Supersession is modelled by a
//! generation counter: each `Start` begins a new generation, and a tick
//! bearing any other generation is ignored outright, so a superseded
//! countdown can never emit a late `Tick` or `Completed`. The caller runs
//! the clock: it passes the current time in milliseconds into every
//! transition.

use vstd::prelude::*;

verus! {

/// The phase a timer is in.
#[derive(Debug, PartialEq)]
pub enum TimerState {
    /// No countdown has run since the last reset.
    Idle,
    /// A countdown is under way.
    Running {
        /// When the countdown started, in milliseconds.
        start_ms: u64,
        /// How long it runs, in milliseconds.
        total_ms: u64,
    },
    /// The countdown ran to its end.
    Completed,
    /// The countdown was stopped before its end.
    Cancelled,
    /// The timer failed.
    Error(String),
}

impl TimerState {
    /// Whether two states are the same phase with the same values.
    pub open spec fn like(self, other: TimerState) -> bool {
        match self {
            TimerState::Idle => other is Idle,
            TimerState::Running { start_ms: s1, total_ms: t1 } => match other {
                TimerState::Running { start_ms: s2, total_ms: t2 } => s1 == s2 && t1 == t2,
                _ => false,
            },
            TimerState::Completed => other is Completed,
            TimerState::Cancelled => other is Cancelled,
            TimerState::Error(a) => match other {
                TimerState::Error(b) => a@ == b@,
                _ => false,
            },
        }
    }
}

/// A lifecycle event the timer emits.
#[derive(Debug, Clone, Copy, PartialEq, Eq, Structural)]
pub enum TimerEvent {
    /// A countdown started.
    Started {
        /// Its full duration, in milliseconds.
        duration_ms: u64,
        /// When it started.
        timestamp_ms: u64,
    },
    /// A countdown is still running; emitted about once per second.
    Tick {
        /// Time left, in milliseconds.
        remaining_ms: u64,
        /// Time since the start, in milliseconds.
        elapsed_ms: u64,
        /// When the tick was taken.
        timestamp_ms: u64,
    },
    /// A countdown ran to its end.
    Completed {
        /// Its full duration, in milliseconds.
        total_duration_ms: u64,
        /// When it completed.
        timestamp_ms: u64,
    },
    /// A countdown was stopped.
    Cancelled {
        /// Time that was left, in milliseconds.
        remaining_ms: u64,
        /// When it was stopped.
        timestamp_ms: u64,
    },
    /// The timer returned to idle.
    Reset {
        /// When it was reset.
        timestamp_ms: u64,
    },
}

/// A command on the timer's queue.
#[derive(Debug, Clone, Copy, PartialEq, Eq, Structural)]
pub enum TimerCommand {
    /// Begin a countdown of the given length, in milliseconds.
    Start(u64),
    /// Stop the countdown that is under way.
    Stop,
    /// Return to idle.
    Reset,
    /// Ask for the state; the state is read separately, so this is a no-op.
    GetStatus,
    /// Stop the service; no further commands are accepted.
    Shutdown,
}

/// Time left in a state at a given moment: the full duration minus what has
/// elapsed, never below zero, and zero outside a running countdown.
pub open spec fn remaining_at(state: TimerState, now_ms: u64) -> u64 {
    match state {
        TimerState::Running { start_ms, total_ms } => if now_ms >= start_ms && now_ms - start_ms
            < total_ms {
            (total_ms - (now_ms - start_ms)) as u64
        } else {
            0u64
        },
        _ => 0u64,
    }
}

/// The countdown state machine.
pub struct DestructTimer {
    state: TimerState,
    service_running: bool,
    generation: u64,
    countdown_spawned: bool,
}

/// The timer after a `Start` command: a new generation begins, superseding
/// every earlier one, and the countdown runs from `now_ms`.
pub closed spec fn spec_start(t: DestructTimer, duration_ms: u64, now_ms: u64) -> DestructTimer {
    DestructTimer {
        state: TimerState::Running { start_ms: now_ms, total_ms: duration_ms },
        service_running: t.service_running,
        generation: (t.generation + 1) as u64,
        countdown_spawned: true,
    }
}

/// The timer and the event after one tick of the countdown of generation
/// `gen`. A tick of a superseded or unknown generation, or outside a
/// running countdown, changes nothing and emits nothing.
pub closed spec fn spec_tick(t: DestructTimer, gen: u64, now_ms: u64) -> (
    DestructTimer,
    Option<TimerEvent>,
) {
    if !t.service_running || gen != t.generation || !(t.state is Running) {
        (t, None)
    } else {
        let start_ms = t.state->Running_start_ms;
        let total_ms = t.state->Running_total_ms;
        let elapsed = if now_ms >= start_ms {
            (now_ms - start_ms) as u64
        } else {
            0u64
        };
        if elapsed >= total_ms {
            (
                DestructTimer { state: TimerState::Completed, ..t },
                Some(TimerEvent::Completed { total_duration_ms: total_ms, timestamp_ms: now_ms }),
            )
        } else {
            (
                t,
                Some(
                    TimerEvent::Tick {
                        remaining_ms: (total_ms - elapsed) as u64,
                        elapsed_ms: elapsed,
                        timestamp_ms: now_ms,
                    },
                ),
            )
        }
    }
}

impl DestructTimer {
    /// The timer's current phase.
    pub closed spec fn spec_state(&self) -> TimerState {
        self.state
    }

    /// Whether the command-processing service is running.
    pub closed spec fn spec_service_running(&self) -> bool {
        self.service_running
    }

    /// The generation of the current countdown; ticks of any other
    /// generation are stale.
    pub closed spec fn spec_generation(&self) -> u64 {
        self.generation
    }

    /// Whether a countdown has been started and not yet stopped or reset.
    pub closed spec fn spec_countdown_spawned(&self) -> bool {
        self.countdown_spawned
    }

    /// A fresh timer: idle, with the service not yet started.
    pub fn new() -> (r: DestructTimer)
        ensures
            r.spec_state() is Idle,
            !r.spec_service_running(),
            r.spec_generation() == 0,
            !r.spec_countdown_spawned(),
    {
        DestructTimer {
            state: TimerState::Idle,
            service_running: false,
            generation: 0,
            countdown_spawned: false,
        }
    }

    /// Start the command-processing service. Starting it twice is harmless.
    pub fn start_service(&mut self)
        ensures
            final(self).spec_service_running(),
            final(self).spec_state() == old(self).spec_state(),
            final(self).spec_generation() == old(self).spec_generation(),
            final(self).spec_countdown_spawned() == old(self).spec_countdown_spawned(),
    {
        self.service_running = true;
    }

    /// Process one command from the queue, at the given moment. Returns the
    /// event the command emits, if any.
    pub fn handle_command(&mut self, command: TimerCommand, now_ms: u64) -> (r: Option<TimerEvent>)
        requires
            old(self).spec_service_running(),
            old(self).spec_generation() < u64::MAX,
        ensures
            command matches TimerCommand::Start(d) ==> *final(self) == spec_start(*old(self), d, now_ms)
                && final(self).spec_state() == (TimerState::Running {
                start_ms: now_ms,
                total_ms: d,
            }) && final(self).spec_generation() == old(self).spec_generation() + 1
                && final(self).spec_countdown_spawned() && final(self).spec_service_running() && r
                == Some(TimerEvent::Started { duration_ms: d, timestamp_ms: now_ms }),
            command is Stop && old(self).spec_countdown_spawned() ==> final(self).spec_state()
                is Cancelled && final(self).spec_generation() == old(self).spec_generation() + 1
                && !final(self).spec_countdown_spawned() && final(self).spec_service_running() && r
                == Some(
                TimerEvent::Cancelled {
                    remaining_ms: remaining_at(old(self).spec_state(), now_ms),
                    timestamp_ms: now_ms,
                },
            ),
            command is Stop && !old(self).spec_countdown_spawned() ==> *final(self) == *old(self)
                && r is None,
            command is Reset ==> final(self).spec_state() is Idle && final(self).spec_generation()
                == old(self).spec_generation() + 1 && !final(self).spec_countdown_spawned()
                && final(self).spec_service_running() && r == Some(
                TimerEvent::Reset { timestamp_ms: now_ms },
            ),
            command is GetStatus ==> *final(self) == *old(self) && r is None,
            command is Shutdown ==> !final(self).spec_service_running()
                && final(self).spec_generation() == old(self).spec_generation() + 1
                && !final(self).spec_countdown_spawned() && r is None,
    {
        match command {
            TimerCommand::Start(duration_ms) => {
                self.generation = self.generation + 1;
                self.state = TimerState::Running { start_ms: now_ms, total_ms: duration_ms };
                self.countdown_spawned = true;
                Some(TimerEvent::Started { duration_ms, timestamp_ms: now_ms })
            },
            TimerCommand::Stop => {
                if self.countdown_spawned {
                    let remaining = self.remaining_now(now_ms);
                    self.generation = self.generation + 1;
                    self.state = TimerState::Cancelled;
                    self.countdown_spawned = false;
                    Some(TimerEvent::Cancelled { remaining_ms: remaining, timestamp_ms: now_ms })
                } else {
                    None
                }
            },
            TimerCommand::Reset => {
                self.generation = self.generation + 1;
                self.state = TimerState::Idle;
                self.countdown_spawned = false;
                Some(TimerEvent::Reset { timestamp_ms: now_ms })
            },
            TimerCommand::GetStatus => None,
            TimerCommand::Shutdown => {
                self.generation = self.generation + 1;
                self.service_running = false;
                self.countdown_spawned = false;
                None
            },
        }
    }

    /// One tick of the countdown of generation `gen`, at the given moment.
    /// A stale generation is ignored; the current one emits `Tick` while
    /// time remains and `Completed` exactly when it runs out.
    pub fn tick(&mut self, gen: u64, now_ms: u64) -> (r: Option<TimerEvent>)
        ensures
            *final(self) == spec_tick(*old(self), gen, now_ms).0,
            r == spec_tick(*old(self), gen, now_ms).1,
    {
        if !self.service_running || gen != self.generation {
            return None;
        }
        match self.state {
            TimerState::Running { start_ms, total_ms } => {
                let elapsed = if now_ms >= start_ms {
                    now_ms - start_ms
                } else {
                    0
                };
                if elapsed >= total_ms {
                    self.state = TimerState::Completed;
                    Some(
                        TimerEvent::Completed {
                            total_duration_ms: total_ms,
                            timestamp_ms: now_ms,
                        },
                    )
                } else {
                    Some(
                        TimerEvent::Tick {
                            remaining_ms: total_ms - elapsed,
                            elapsed_ms: elapsed,
                            timestamp_ms: now_ms,
                        },
                    )
                }
            },
            _ => None,
        }
    }

    /// Time left in the current countdown, in milliseconds; zero outside
    /// one.
    fn remaining_now(&self, now_ms: u64) -> (r: u64)
        ensures
            r == remaining_at(self.spec_state(), now_ms),
    {
        match &self.state {
            TimerState::Running { start_ms, total_ms } => {
                if now_ms >= *start_ms && now_ms - *start_ms < *total_ms {
                    *total_ms - (now_ms - *start_ms)
                } else {
                    0
                }
            },
            _ => 0,
        }
    }

    /// Time left in the current countdown, or nothing when none runs.
    pub fn get_remaining_time(&self, now_ms: u64) -> (r: Option<u64>)
        ensures
            self.spec_state() is Running ==> r == Some(remaining_at(self.spec_state(), now_ms)),
            !(self.spec_state() is Running) ==> r is None,
    {
        match &self.state {
            TimerState::Running { start_ms: _, total_ms: _ } => Some(self.remaining_now(now_ms)),
            _ => None,
        }
    }

    /// The current phase, as a copy.
    pub fn get_state(&self) -> (r: TimerState)
        ensures
            r.like(self.spec_state()),
    {
        match &self.state {
            TimerState::Idle => TimerState::Idle,
            TimerState::Running { start_ms, total_ms } => TimerState::Running {
                start_ms: *start_ms,
                total_ms: *total_ms,
            },
            TimerState::Completed => TimerState::Completed,
            TimerState::Cancelled => TimerState::Cancelled,
            TimerState::Error(msg) => TimerState::Error(msg.clone()),
        }
    }

    /// The generation of the current countdown; a tick task keeps the
    /// generation it was spawned for and dies once a newer one begins.
    pub fn generation(&self) -> (r: u64)
        ensures
            r == self.spec_generation(),
    {
        self.generation
    }

    /// Whether a countdown is under way.
    pub fn is_running(&self) -> (r: bool)
        ensures
            r == self.spec_state() is Running,
    {
        match &self.state {
            TimerState::Running { start_ms: _, total_ms: _ } => true,
            _ => false,
        }
    }
}

/// Why a timer request was refused.
#[derive(Debug, Clone, Copy, PartialEq, Eq, Structural)]
pub enum TimerError {
    /// The command-processing service has not been started.
    ServiceNotRunning,
}

impl TimerError {
    /// A short description of the failure.
    pub fn message(&self) -> (r: &'static str)
        ensures
            r@.len() > 0,
    {
        proof {
            reveal_strlit("timer service not started");
        }
        "timer service not started"
    }
}

impl DestructTimer {
    /// Begin a countdown, superseding any countdown under way. Fails only
    /// while the service is not running, and is then a no-op.
    pub fn start_countdown(&mut self, duration_ms: u64, now_ms: u64) -> (r: Result<
        TimerEvent,
        TimerError,
    >)
        requires
            old(self).spec_generation() < u64::MAX,
        ensures
            r is Ok <==> old(self).spec_service_running(),
            r is Ok ==> *final(self) == spec_start(*old(self), duration_ms, now_ms) && r->Ok_0
                == (TimerEvent::Started { duration_ms, timestamp_ms: now_ms }),
            r is Err ==> *final(self) == *old(self) && r->Err_0 == TimerError::ServiceNotRunning,
    {
        if !self.service_running {
            return Err(TimerError::ServiceNotRunning);
        }
        match self.handle_command(TimerCommand::Start(duration_ms), now_ms) {
            Some(event) => Ok(event),
            None => Err(TimerError::ServiceNotRunning),
        }
    }

    /// Stop the countdown under way, reporting the time it had left; no
    /// event if none was under way. Fails only while the service is not
    /// running.
    pub fn stop_countdown(&mut self, now_ms: u64) -> (r: Result<Option<TimerEvent>, TimerError>)
        requires
            old(self).spec_generation() < u64::MAX,
        ensures
            r is Ok <==> old(self).spec_service_running(),
            r is Ok && old(self).spec_countdown_spawned() ==> final(self).spec_state()
                is Cancelled && !final(self).spec_countdown_spawned() && r->Ok_0 == Some(
                TimerEvent::Cancelled {
                    remaining_ms: remaining_at(old(self).spec_state(), now_ms),
                    timestamp_ms: now_ms,
                },
            ),
            r is Ok && !old(self).spec_countdown_spawned() ==> *final(self) == *old(self)
                && r->Ok_0 is None,
            r is Err ==> *final(self) == *old(self) && r->Err_0 == TimerError::ServiceNotRunning,
    {
        if !self.service_running {
            return Err(TimerError::ServiceNotRunning);
        }
        Ok(self.handle_command(TimerCommand::Stop, now_ms))
    }

    /// Return the timer to idle, superseding any countdown under way. Fails
    /// only while the service is not running.
    pub fn reset(&mut self, now_ms: u64) -> (r: Result<TimerEvent, TimerError>)
        requires
            old(self).spec_generation() < u64::MAX,
        ensures
            r is Ok <==> old(self).spec_service_running(),
            r is Ok ==> final(self).spec_state() is Idle && !final(self).spec_countdown_spawned()
                && r->Ok_0 == (TimerEvent::Reset { timestamp_ms: now_ms }),
            r is Err ==> *final(self) == *old(self) && r->Err_0 == TimerError::ServiceNotRunning,
    {
        if !self.service_running {
            return Err(TimerError::ServiceNotRunning);
        }
        match self.handle_command(TimerCommand::Reset, now_ms) {
            Some(event) => Ok(event),
            None => Err(TimerError::ServiceNotRunning),
        }
    }

    /// Stop the service; every countdown is superseded and no further
    /// command is accepted. Shutting a stopped service down is harmless.
    pub fn shutdown(&mut self, now_ms: u64) -> (r: Result<(), TimerError>)
        requires
            old(self).spec_generation() < u64::MAX,
        ensures
            r is Ok,
            !final(self).spec_service_running(),
            old(self).spec_service_running() ==> !final(self).spec_countdown_spawned(),
            !old(self).spec_service_running() ==> *final(self) == *old(self),
    {
        if self.service_running {
            let _ = self.handle_command(TimerCommand::Shutdown, now_ms);
        }
        Ok(())
    }
}

/// The character of one decimal digit.
pub open spec fn dec_digit(v: int) -> char {
    ((48 + v) as u8) as char
}

/// The decimal digits of a number, most significant first.
pub open spec fn dec_str(n: int) -> Seq<char>
    decreases n,
{
    if n < 10 {
        seq![dec_digit(n)]
    } else {
        dec_str(n / 10).push(dec_digit(n % 10))
    }
}

/// A number below sixty as exactly two decimal digits.
pub open spec fn two_digits(n: int) -> Seq<char> {
    seq![dec_digit(n / 10), dec_digit(n % 10)]
}

/// A duration in seconds as readable text: `h:mm:ss` over an hour, `m:ss`
/// over a minute, plain seconds with an `s` suffix below that.
pub open spec fn duration_text(total_seconds: int) -> Seq<char> {
    if total_seconds >= 3600 {
        dec_str(total_seconds / 3600) + seq![':'] + two_digits((total_seconds % 3600) / 60)
            + seq![':'] + two_digits(total_seconds % 60)
    } else if total_seconds >= 60 {
        dec_str(total_seconds / 60) + seq![':'] + two_digits(total_seconds % 60)
    } else {
        dec_str(total_seconds) + seq!['s']
    }
}

/// The character of one decimal digit.
fn dec_digit_of(v: u8) -> (c: char)
    requires
        v < 10,
    ensures
        c == dec_digit(v as int),
{
    (48 + v) as char
}

/// Append the decimal digits of a number.
pub(crate) fn push_decimal(s: &mut String, n: u64)
    ensures
        final(s)@ == old(s)@ + dec_str(n as int),
    decreases n,
{
    if n >= 10 {
        push_decimal(s, n / 10);
        crate::base64::push_char(s, dec_digit_of((n % 10) as u8));
        proof {
            assert(s@ =~= old(s)@ + dec_str(n as int));
        }
    } else {
        crate::base64::push_char(s, dec_digit_of(n as u8));
        proof {
            assert(s@ =~= old(s)@ + dec_str(n as int));
        }
    }
}

/// Append a number below sixty as two decimal digits.
fn push_two_digits(s: &mut String, n: u64)
    requires
        n < 60,
    ensures
        final(s)@ == old(s)@ + two_digits(n as int),
{
    crate::base64::push_char(s, dec_digit_of((n / 10) as u8));
    crate::base64::push_char(s, dec_digit_of((n % 10) as u8));
    proof {
        assert(s@ =~= old(s)@ + two_digits(n as int));
    }
}

impl DestructTimer {
    /// A duration in milliseconds as readable text, to the second.
    pub fn format_duration(duration_ms: u64) -> (r: String)
        ensures
            r@ == duration_text(duration_ms as int / 1000),
    {
        let total_seconds = duration_ms / 1000;
        let mut r = String::new();
        if total_seconds >= 3600 {
            push_decimal(&mut r, total_seconds / 3600);
            crate::base64::push_char(&mut r, ':');
            push_two_digits(&mut r, (total_seconds % 3600) / 60);
            crate::base64::push_char(&mut r, ':');
            push_two_digits(&mut r, total_seconds % 60);
        } else if total_seconds >= 60 {
            push_decimal(&mut r, total_seconds / 60);
            crate::base64::push_char(&mut r, ':');
            push_two_digits(&mut r, total_seconds % 60);
        } else {
            push_decimal(&mut r, total_seconds);
            crate::base64::push_char(&mut r, 's');
        }
        proof {
            assert(r@ =~= duration_text(duration_ms as int / 1000));
        }
        r
    }
}

/// What starting a countdown does, in full, over the timer's readable
/// state: the countdown runs from `now_ms` for the given duration, under a
/// fresh generation one past the previous, with the service flag kept.
pub proof fn lemma_start_transition(t: DestructTimer, duration_ms: u64, now_ms: u64)
    requires
        t.spec_generation() < u64::MAX,
    ensures
        spec_start(t, duration_ms, now_ms).spec_state() == (TimerState::Running {
            start_ms: now_ms,
            total_ms: duration_ms,
        }),
        spec_start(t, duration_ms, now_ms).spec_generation() == t.spec_generation() + 1,
        spec_start(t, duration_ms, now_ms).spec_service_running() == t.spec_service_running(),
        spec_start(t, duration_ms, now_ms).spec_countdown_spawned(),
{
}

/// What one tick does, in full, over the timer's readable state: outside a
/// running countdown of the current generation nothing is emitted and
/// nothing changes; within one, a tick at or past the deadline sets the
/// state `Completed` and emits `Completed` with the full duration, and an
/// earlier tick leaves the timer unchanged and emits `Tick` with the exact
/// remaining and elapsed times.
pub proof fn lemma_tick_emission(t: DestructTimer, gen: u64, now_ms: u64)
    ensures
        (!t.spec_service_running() || gen != t.spec_generation() || !(t.spec_state() is Running))
            ==> spec_tick(t, gen, now_ms).0 == t && spec_tick(t, gen, now_ms).1 is None,
        (t.spec_service_running() && gen == t.spec_generation() && t.spec_state() is Running)
            ==> ({
            let start_ms = t.spec_state()->Running_start_ms;
            let total_ms = t.spec_state()->Running_total_ms;
            let elapsed = if now_ms >= start_ms {
                (now_ms - start_ms) as u64
            } else {
                0u64
            };
            &&& (elapsed >= total_ms ==> spec_tick(t, gen, now_ms).0.spec_state() is Completed
                && spec_tick(t, gen, now_ms).0.spec_service_running() == t.spec_service_running()
                && spec_tick(t, gen, now_ms).0.spec_generation() == t.spec_generation()
                && spec_tick(t, gen, now_ms).0.spec_countdown_spawned()
                    == t.spec_countdown_spawned() && spec_tick(t, gen, now_ms).1 == Some(
                TimerEvent::Completed { total_duration_ms: total_ms, timestamp_ms: now_ms },
            ))
            &&& (elapsed < total_ms ==> spec_tick(t, gen, now_ms).0 == t && spec_tick(
                t,
                gen,
                now_ms,
            ).1 == Some(
                TimerEvent::Tick {
                    remaining_ms: (total_ms - elapsed) as u64,
                    elapsed_ms: elapsed,
                    timestamp_ms: now_ms,
                },
            ))
        }),
{
}

/// A completing tick is final: it leaves the state `Completed`, and after it
/// no tick of any generation emits anything more, so `Completed` is
/// observed exactly once per countdown.
pub proof fn lemma_completed_once(t: DestructTimer, gen: u64, now_ms: u64, gen2: u64, now2_ms: u64)
    requires
        spec_tick(t, gen, now_ms).1 matches Some(e) && e is Completed,
    ensures
        spec_tick(t, gen, now_ms).0.spec_state() is Completed,
        spec_tick(spec_tick(t, gen, now_ms).0, gen2, now2_ms).1 is None,
        spec_tick(spec_tick(t, gen, now_ms).0, gen2, now2_ms).0 == spec_tick(t, gen, now_ms).0,
{
}

/// Starting a countdown supersedes every earlier one: a tick bearing any
/// earlier generation emits nothing and changes nothing, at any moment.
pub proof fn lemma_supersession(
    t: DestructTimer,
    duration_ms: u64,
    now_ms: u64,
    gen: u64,
    now2_ms: u64,
)
    requires
        t.spec_generation() < u64::MAX,
        gen <= t.spec_generation(),
    ensures
        spec_tick(spec_start(t, duration_ms, now_ms), gen, now2_ms).1 is None,
        spec_tick(spec_start(t, duration_ms, now_ms), gen, now2_ms).0 == spec_start(
            t,
            duration_ms,
            now_ms,
        ),
{
}

} // verus!
