//! The timer that rests on a Linux `timerfd`.

use crate::oneshot::{duration_secs, duration_subsec_nanos, nonzero, Oneshot};
use core::task::Waker;
use core::time::Duration;
use vstd::prelude::*;

verus! {

/// The set of readiness kinds that the reactor reports of a resource.
#[verifier::external_type_specification]
#[verifier::external_body]
pub struct ExReady(mio::Ready);

/// Whether a readiness set holds readable readiness: what
/// `mio::Ready::is_readable` returns of it.
pub uninterp spec fn ready_is_readable(ready: mio::Ready) -> bool;

/// `mio::Ready::readable`. Trusted: the set it returns includes readable
/// readiness.
pub assume_specification[ mio::Ready::readable ]() -> (ready: mio::Ready)
    ensures
        ready_is_readable(ready),
;

/// `mio::Ready::is_readable`. Trusted: the result tells whether the set
/// includes readable readiness, which `ready_is_readable` names.
pub assume_specification[ mio::Ready::is_readable ](ready: &mio::Ready) -> (readable: bool)
    ensures
        readable == ready_is_readable(*ready),
;

/// The readiness that the reactor is asked for, and cleared of, on behalf of
/// the timer: a timer that has expired can be read.
pub fn read_interest() -> (interest: mio::Ready)
    ensures
        ready_is_readable(interest),
{
    mio::Ready::readable()
}

/// A point or a span of time as the OS timer facility takes it.
#[allow(non_camel_case_types)]
#[derive(Clone, Copy, Debug, PartialEq, Eq, Structural)]
pub struct timespec {
    pub tv_sec: i64,
    pub tv_nsec: i64,
}

/// What a `timerfd` is set to: the time to the first expiration and the
/// period of the expirations after it.
#[allow(non_camel_case_types)]
#[derive(Clone, Copy, Debug, PartialEq, Eq, Structural)]
pub struct itimerspec {
    pub it_interval: timespec,
    pub it_value: timespec,
}

impl itimerspec {
    /// The setting that disarms a timer: no expiration is due.
    pub open spec fn disarmed() -> itimerspec {
        itimerspec {
            it_interval: timespec { tv_sec: 0, tv_nsec: 0 },
            it_value: timespec { tv_sec: 0, tv_nsec: 0 },
        }
    }

    /// The timer expires once and never again.
    pub open spec fn is_oneshot(self) -> bool {
        self.it_interval.tv_sec == 0 && self.it_interval.tv_nsec == 0
    }

    /// The setting stops the timer instead of starting it.
    pub open spec fn disarms(self) -> bool {
        self.it_value.tv_sec == 0 && self.it_value.tv_nsec == 0
    }

    /// The nanoseconds to the first expiration stay below one second, as
    /// the OS asks.
    pub open spec fn nanos_in_range(self) -> bool {
        0 <= self.it_value.tv_nsec < 1_000_000_000
    }
}

/// The setting that makes a timer expire once, `timeout` from the moment it
/// is set.
pub open spec fn spec_timer_value(timeout: Duration) -> itimerspec {
    itimerspec {
        it_interval: timespec { tv_sec: 0, tv_nsec: 0 },
        it_value: timespec {
            tv_sec: duration_secs(timeout) as i64,
            tv_nsec: duration_subsec_nanos(timeout) as i64,
        },
    }
}

/// The setting that makes a timer expire once, `timeout` from the moment it
/// is set. Seconds beyond what the OS can count wrap around, and the OS is
/// left to reject what comes of it.
#[verifier::when_used_as_spec(spec_timer_value)]
pub fn timer_value(timeout: Duration) -> (new_value: itimerspec)
    ensures
        new_value == spec_timer_value(timeout),
        new_value.nanos_in_range(),
{
    let it_value = timespec {
        tv_sec: timeout.as_secs() as i64,
        tv_nsec: timeout.subsec_nanos() as i64,
    };
    itimerspec { it_interval: timespec { tv_sec: 0, tv_nsec: 0 }, it_value }
}

/// A timeout other than zero arms: the value it gives expires once and is
/// never the one that disarms.
pub proof fn lemma_timer_value_arms(timeout: Duration)
    requires
        nonzero(timeout),
    ensures
        timer_value(timeout).is_oneshot(),
        !timer_value(timeout).disarms(),
{
    let secs = duration_secs(timeout);
    assert(secs != 0 ==> secs as i64 != 0) by (bit_vector);
}

/// What a non-blocking read of the expiration counter of a `timerfd` gave.
#[derive(Clone, Copy, Debug, PartialEq, Eq, Structural)]
pub enum ReadResult {
    /// Nothing could be read without waiting.
    WouldBlock,
    /// The read went through; the counter stood at this number.
    Count(u64),
}

/// What consuming the expiration signal of the timer found.
#[derive(Clone, Copy, Debug, PartialEq, Eq, Structural)]
pub enum ExpirationOutcome {
    /// The timer has not expired: the wake-up was spurious.
    Spurious,
    /// The timer has expired.
    Expired,
}

/// The timer has expired exactly when the read went through and counted at
/// least one expiration.
pub open spec fn spec_consume_expiration(read: ReadResult) -> ExpirationOutcome {
    if read matches ReadResult::Count(expirations) && expirations != 0 {
        ExpirationOutcome::Expired
    } else {
        ExpirationOutcome::Spurious
    }
}

/// Tells from the read of the expiration counter whether the timer has
/// expired.
#[verifier::when_used_as_spec(spec_consume_expiration)]
pub fn consume_expiration(read: ReadResult) -> (outcome: ExpirationOutcome)
    ensures
        outcome == spec_consume_expiration(read),
{
    match read {
        ReadResult::WouldBlock => ExpirationOutcome::Spurious,
        ReadResult::Count(expirations) => if expirations == 0 {
            ExpirationOutcome::Spurious
        } else {
            ExpirationOutcome::Expired
        },
    }
}

/// Where a timer stands.
#[derive(Clone, Copy, Debug)]
pub enum State {
    /// Not armed yet: the first poll arms the timer with this timeout.
    Init(Duration),
    /// Armed. The flag records that the expiration was observed.
    Running(bool),
}

impl State {
    /// The timer is armed and its expiration was not observed yet.
    pub open spec fn ticking(self) -> bool {
        self == State::Running(false)
    }

    /// The expiration of the timer was observed.
    pub open spec fn expired(self) -> bool {
        self == State::Running(true)
    }

    /// The timer was armed: the resource it counts on exists.
    pub open spec fn armed(self) -> bool {
        self is Running
    }
}

/// What the reactor answered when asked whether the timer can be read.
#[derive(Clone, Copy)]
pub enum Readiness {
    /// Nothing is ready; the task will be woken when that changes.
    Pending,
    /// The resource is ready for these kinds of operation.
    Ready(mio::Ready),
}

/// What happened since the timer last said what to do.
#[derive(Clone, Copy)]
pub enum Event {
    /// The scheduler polled the timer.
    Polled,
    /// The timer was set as `Action::Arm` asked.
    Armed,
    /// The reactor answered `Action::PollReadReady`.
    Readiness(Readiness),
    /// The readiness edge was cleared as `Action::ClearReadReady` asked.
    Cleared,
    /// The expiration counter was read as `Action::Read` asked.
    Read(ReadResult),
}

/// What is to be done next for a poll of the timer.
#[derive(Clone, Copy, Debug, PartialEq, Eq, Structural)]
pub enum Action {
    /// Create the timer resource, register it with the reactor and set it
    /// to this value, then report `Event::Armed`.
    Arm(itimerspec),
    /// Ask the reactor whether the timer is ready for `read_interest`,
    /// registering the task for a wake-up if it is not, then report the
    /// answer.
    PollReadReady,
    /// Clear the reactor's readiness of the timer for `read_interest`, then
    /// report `Event::Cleared`.
    ClearReadReady,
    /// Read the expiration counter of the timer without waiting, then
    /// report what the read gave.
    Read,
    /// Return to the scheduler: the timer is still pending.
    Pending,
    /// Return to the scheduler: the timer is ready.
    Ready,
}

/// The decision taken on `event` by a timer in `state`: the state it goes to
/// and what is to be done next.
///
/// A timer that is not armed yet asks to be armed with its timeout and is
/// running from then on. A timer whose expiration was observed is ready. A
/// running timer asks the reactor for read readiness, suspends while none is
/// reported, clears the edge and reads the counter once it is, and is ready
/// only if that read counted an expiration.
pub open spec fn step(state: State, event: Event) -> (State, Action) {
    match state {
        State::Init(timeout) => (State::Running(false), Action::Arm(timer_value(timeout))),
        State::Running(true) => (state, Action::Ready),
        State::Running(false) => match event {
            Event::Polled | Event::Armed => (state, Action::PollReadReady),
            Event::Readiness(Readiness::Pending) => (state, Action::Pending),
            Event::Readiness(Readiness::Ready(ready)) => if ready_is_readable(ready) {
                (state, Action::ClearReadReady)
            } else {
                (state, Action::Pending)
            },
            Event::Cleared => (state, Action::Read),
            Event::Read(read) => match consume_expiration(read) {
                ExpirationOutcome::Expired => (State::Running(true), Action::Ready),
                ExpirationOutcome::Spurious => (state, Action::Pending),
            },
        },
    }
}

/// What a cancel makes of a timer in `state`, and what it asks of the timer
/// resource: the timer stays as it was; one that was never armed asks
/// nothing, any other asks for its resource to be disarmed.
pub open spec fn cancelled(state: State) -> (State, Option<itimerspec>) {
    if state.armed() {
        (state, Some(itimerspec::disarmed()))
    } else {
        (state, None)
    }
}

/// What a restart with `timeout` makes of a timer in `state`, and what it
/// asks of the timer resource: a timer that was never armed takes the new
/// timeout for its first poll and asks nothing; any other is counting down
/// again and asks for its resource to be set to the new timeout.
pub open spec fn restarted(state: State, timeout: Duration) -> (State, Option<itimerspec>) {
    if state.armed() {
        (State::Running(false), Some(timer_value(timeout)))
    } else {
        (State::Init(timeout), None)
    }
}

/// Linux `timerfd` timer: the decisions of the timer, free of the resource
/// they are about.
pub struct TimerFd {
    state: State,
}

impl View for TimerFd {
    type V = State;

    closed spec fn view(&self) -> State {
        self.state
    }
}

impl TimerFd {
    /// A timer that waits to be armed holds a timeout that can arm it.
    #[verifier::type_invariant]
    spec fn armable(self) -> bool {
        self.state matches State::Init(timeout) ==> nonzero(timeout)
    }

    /// Takes one decision of a poll: moves the timer on `event` and says
    /// what is to be done next.
    pub fn poll(&mut self, event: Event) -> (action: Action)
        ensures
            (final(self)@, action) == step(old(self)@, event),
            action matches Action::Arm(new_value) ==> new_value.is_oneshot() && !new_value.disarms()
                && new_value.nanos_in_range(),
    {
        proof {
            use_type_invariant(&*self);
            if let State::Init(timeout) = self.state {
                lemma_timer_value_arms(timeout);
            }
        }
        match self.state {
            State::Init(timeout) => {
                self.state = State::Running(false);
                Action::Arm(timer_value(timeout))
            },
            State::Running(true) => Action::Ready,
            State::Running(false) => match event {
                Event::Polled | Event::Armed => Action::PollReadReady,
                Event::Readiness(Readiness::Pending) => Action::Pending,
                Event::Readiness(Readiness::Ready(ready)) => if ready.is_readable() {
                    Action::ClearReadReady
                } else {
                    Action::Pending
                },
                Event::Cleared => Action::Read,
                Event::Read(read) => match consume_expiration(read) {
                    ExpirationOutcome::Expired => {
                        self.state = State::Running(true);
                        Action::Ready
                    },
                    ExpirationOutcome::Spurious => Action::Pending,
                },
            },
        }
    }
}

impl Oneshot for TimerFd {
    type Command = itimerspec;

    open spec fn ticking(&self) -> bool {
        self@.ticking()
    }

    open spec fn expired(&self) -> bool {
        self@.expired()
    }

    proof fn lemma_ticking_excludes_expired(&self) {
    }

    fn new(timeout: Duration) -> (timer: Self)
        ensures
            timer@ == State::Init(timeout),
    {
        TimerFd { state: State::Init(timeout) }
    }

    fn is_ticking(&self) -> (ticking: bool) {
        match self.state {
            State::Init(_) => false,
            State::Running(is_finished) => !is_finished,
        }
    }

    fn is_expired(&self) -> (expired: bool) {
        match self.state {
            State::Init(_) => false,
            State::Running(is_finished) => is_finished,
        }
    }

    fn cancel(&mut self) -> (command: Option<itimerspec>)
        ensures
            (final(self)@, command) == cancelled(old(self)@),
    {
        match self.state {
            State::Init(_) => None,
            State::Running(_) => Some(
                itimerspec {
                    it_interval: timespec { tv_sec: 0, tv_nsec: 0 },
                    it_value: timespec { tv_sec: 0, tv_nsec: 0 },
                },
            ),
        }
    }

    fn restart(&mut self, new_value: Duration, _waker: &Waker) -> (command: Option<itimerspec>)
        ensures
            (final(self)@, command) == restarted(old(self)@, new_value),
            command matches Some(setting) ==> setting.is_oneshot() && !setting.disarms()
                && setting.nanos_in_range(),
    {
        proof {
            lemma_timer_value_arms(new_value);
        }
        match self.state {
            State::Init(_) => {
                self.state = State::Init(new_value);
                None
            },
            State::Running(_) => {
                self.state = State::Running(false);
                Some(timer_value(new_value))
            },
        }
    }
}

} // verus!
