//! One-shot timers: the capability every timer backend offers, and the
//! length of time a timer is armed with.

use core::task::Waker;
use core::time::Duration;
use vstd::prelude::*;

pub mod laws;
pub mod timer_fd;

pub use timer_fd::TimerFd;

verus! {

/// Alias to Linux `timerfd` Timer
pub type Timer = timer_fd::TimerFd;

/// The handle by which a task is woken. Nothing is known of its contents.
#[verifier::external_type_specification]
#[verifier::external_body]
pub struct ExWaker(Waker);

/// The whole seconds held by a `Duration`: what `Duration::as_secs` returns.
pub uninterp spec fn duration_secs(timeout: Duration) -> u64;

/// The part of a `Duration` below one second, in nanoseconds: what
/// `Duration::subsec_nanos` returns.
pub uninterp spec fn duration_subsec_nanos(timeout: Duration) -> u32;

/// `Duration::as_secs` of std. Trusted: the result is the number of whole
/// seconds of the duration, which `duration_secs` names.
pub assume_specification[ Duration::as_secs ](timeout: &Duration) -> (secs: u64)
    ensures
        secs == duration_secs(*timeout),
;

/// `Duration::subsec_nanos` of std. Trusted: the result is the fractional
/// part of the duration in nanoseconds, which `duration_subsec_nanos` names,
/// and it is always below one billion.
pub assume_specification[ Duration::subsec_nanos ](timeout: &Duration) -> (nanos: u32)
    ensures
        nanos == duration_subsec_nanos(*timeout),
        nanos < 1_000_000_000,
;

/// A timeout a timer can be armed with: any length of time but zero.
pub open spec fn spec_nonzero(timeout: Duration) -> bool {
    duration_secs(timeout) != 0 || duration_subsec_nanos(timeout) != 0
}

/// Tells whether a timer can be armed with `timeout`: zero timeout makes no
/// sense.
#[verifier::when_used_as_spec(spec_nonzero)]
pub fn nonzero(timeout: Duration) -> (armable: bool)
    ensures
        armable == spec_nonzero(timeout),
{
    !(timeout.as_secs() == 0 && timeout.subsec_nanos() == 0)
}

/// One-shot timer that expires once.
///
/// A timer is made without being started; its first poll arms it. The
/// caller carries out on the timer resource what `cancel` and `restart`
/// hand back.
pub trait Oneshot: Send + Sync + Sized {
    /// What is to be done to the timer resource for a call to take effect.
    type Command;

    /// The timer is armed and its expiration was not observed yet.
    spec fn ticking(&self) -> bool;

    /// The expiration of the timer was observed.
    spec fn expired(&self) -> bool;

    /// No timer is ticking and expired at once.
    proof fn lemma_ticking_excludes_expired(&self)
        ensures
            !(self.ticking() && self.expired()),
    ;

    /// Creates new instance without actually starting timer.
    ///
    /// Timer should start only on first poll.
    fn new(timeout: Duration) -> (timer: Self)
        requires
            nonzero(timeout),
        ensures
            !timer.ticking(),
            !timer.expired(),
    ;

    /// Returns whether timer is ongoing.
    ///
    /// Note that if it returns `false` it doesn't mean that `is_expired`
    /// will return `true` as initially timer is not armed.
    fn is_ticking(&self) -> (ticking: bool)
        ensures
            ticking == self.ticking(),
    ;

    /// Returns whether timer has expired.
    fn is_expired(&self) -> (expired: bool)
        ensures
            expired == self.expired(),
    ;

    /// Cancels ongoing timer, if it is not expired yet.
    ///
    /// What the timer records stays as it was.
    fn cancel(&mut self) -> (command: Option<Self::Command>)
        ensures
            final(self).ticking() == old(self).ticking(),
            final(self).expired() == old(self).expired(),
    ;

    /// Restarts timer with new timeout value.
    ///
    /// A timer that was armed before is ticking again, and its expiration
    /// is forgotten; one that was not waits for its first poll as before.
    fn restart(&mut self, timeout: Duration, waker: &Waker) -> (command: Option<Self::Command>)
        requires
            nonzero(timeout),
        ensures
            !final(self).expired(),
            final(self).ticking() == (old(self).ticking() || old(self).expired()),
    ;
}

} // verus!
