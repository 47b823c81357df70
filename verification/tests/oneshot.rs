use async_timer::oneshot::timer_fd::{
    itimerspec, read_interest, Action, Event, ReadResult, Readiness,
};
use async_timer::oneshot::{Oneshot, Timer};

use std::task::Waker;
use std::time;

/// Stands in for the timer resource of one timer and for its registration
/// with the reactor, on a clock that the test moves.
struct Resource {
    created: usize,
    deadline: Option<time::Duration>,
    ready: bool,
}

impl Resource {
    fn new() -> Self {
        Resource { created: 0, deadline: None, ready: false }
    }

    fn set(&mut self, now: time::Duration, value: itimerspec) {
        assert_eq!(value.it_interval.tv_sec, 0);
        assert_eq!(value.it_interval.tv_nsec, 0);
        assert!(value.it_value.tv_sec >= 0);
        assert!(value.it_value.tv_nsec >= 0 && value.it_value.tv_nsec < 1_000_000_000);
        if value.it_value.tv_sec == 0 && value.it_value.tv_nsec == 0 {
            self.deadline = None;
        } else {
            let timeout = time::Duration::new(value.it_value.tv_sec as u64, value.it_value.tv_nsec as u32);
            self.deadline = Some(now + timeout);
        }
    }

    fn notify(&mut self, now: time::Duration) {
        if let Some(deadline) = self.deadline {
            if deadline <= now {
                self.ready = true;
            }
        }
    }

    fn read(&mut self, now: time::Duration) -> ReadResult {
        match self.deadline {
            Some(deadline) if deadline <= now => {
                self.deadline = None;
                ReadResult::Count(1)
            }
            _ => ReadResult::WouldBlock,
        }
    }
}

/// Polls the timer once, doing to the resource what the timer asks for.
fn poll_once(timer: &mut Timer, resource: &mut Resource, now: time::Duration) -> bool {
    resource.notify(now);
    let mut event = Event::Polled;
    loop {
        event = match timer.poll(event) {
            Action::Arm(value) => {
                resource.created += 1;
                resource.set(now, value);
                Event::Armed
            }
            Action::PollReadReady => {
                if resource.ready {
                    Event::Readiness(Readiness::Ready(read_interest()))
                } else {
                    Event::Readiness(Readiness::Pending)
                }
            }
            Action::ClearReadReady => {
                resource.ready = false;
                Event::Cleared
            }
            Action::Read => Event::Read(resource.read(now)),
            Action::Pending => return false,
            Action::Ready => return true,
        }
    }
}

/// Polls the timers until all are ready, moving the clock to the next
/// deadline whenever all that are left are pending. Returns the time on the
/// clock at the end.
fn run_all(jobs: &mut Vec<(Timer, Resource)>, start: time::Duration) -> time::Duration {
    let mut now = start;
    let mut done = vec![false; jobs.len()];
    loop {
        let mut next: Option<time::Duration> = None;
        for (index, (timer, resource)) in jobs.iter_mut().enumerate() {
            if done[index] {
                continue;
            }
            if poll_once(timer, resource, now) {
                done[index] = true;
                continue;
            }
            let deadline = resource.deadline.expect("a pending timer has a deadline to be woken at");
            next = Some(match next {
                Some(earliest) if earliest <= deadline => earliest,
                _ => deadline,
            });
        }
        match next {
            Some(wake_up) => now = wake_up,
            None => return now,
        }
    }
}

fn run(work: Timer, start: time::Duration) -> (time::Duration, Timer, Resource) {
    let mut jobs = vec![(work, Resource::new())];
    let end = run_all(&mut jobs, start);
    let (work, resource) = jobs.pop().unwrap();
    (end, work, resource)
}

#[test]
fn test_oneshot() {
    let work = Timer::new(time::Duration::from_secs(2));
    assert!(!work.is_expired());

    let before = time::Duration::from_secs(100);
    let (after, work, resource) = run(work, before);
    let diff = after - before;

    assert!(diff.as_millis() >= 1_500 && diff.as_millis() <= 2_500);
    assert!(work.is_expired());
    assert_eq!(resource.created, 1);
}

#[test]
fn test_tons_oneshot() {
    const NUM: usize = 1024;
    let mut jobs = Vec::with_capacity(NUM);

    for _ in 0..NUM {
        jobs.push((Timer::new(time::Duration::from_secs(2)), Resource::new()));
    }

    let before = time::Duration::from_secs(100);
    let after = run_all(&mut jobs, before);
    let diff = after - before;

    assert!(diff.as_millis() >= 1_500 && diff.as_millis() <= 2_500);
    assert!(jobs.iter().all(|(timer, resource)| timer.is_expired() && resource.created == 1));
}

#[test]
fn test_smol_oneshot() {
    let work = Timer::new(time::Duration::from_millis(500));
    assert!(!work.is_expired());

    let before = time::Duration::from_secs(100);
    let (after, _, _) = run(work, before);
    let diff = after - before;

    assert!(diff.as_millis() >= 250 && diff.as_millis() <= 750);
}

#[test]
fn test_nano_oneshot() {
    let work = Timer::new(time::Duration::from_nanos(604000));
    assert!(!work.is_expired());
    let (_, work, _) = run(work, time::Duration::from_secs(100));
    assert!(work.is_expired());
}

#[test]
fn pending_then_ready_after_the_wait() {
    let mut work = Timer::new(time::Duration::from_secs(2));
    let mut resource = Resource::new();
    let start = time::Duration::from_secs(7);

    assert!(!poll_once(&mut work, &mut resource, start));
    assert!(work.is_ticking());
    assert!(!work.is_expired());

    let early = start + time::Duration::from_millis(1_999);
    assert!(!poll_once(&mut work, &mut resource, early));
    assert!(!work.is_expired());

    let late = start + time::Duration::from_millis(2_500);
    assert!(poll_once(&mut work, &mut resource, late));
    assert!(work.is_expired());
    assert!(!work.is_ticking());
    assert_eq!(resource.deadline, None);
}

#[test]
fn restart_counts_from_the_moment_of_the_restart() {
    let mut work = Timer::new(time::Duration::from_secs(2));
    let mut resource = Resource::new();
    let start = time::Duration::from_secs(7);
    assert!(!poll_once(&mut work, &mut resource, start));

    let restart_at = start + time::Duration::from_secs(1);
    let command = work.restart(time::Duration::from_secs(5), Waker::noop());
    resource.set(restart_at, command.expect("a running timer is set anew"));
    assert_eq!(resource.deadline, Some(restart_at + time::Duration::from_secs(5)));

    let mut jobs = vec![(work, resource)];
    let end = run_all(&mut jobs, restart_at);
    assert_eq!(end - restart_at, time::Duration::from_secs(5));
    assert_eq!(jobs[0].1.created, 1);
}

#[test]
fn restart_before_the_first_poll_replaces_the_timeout() {
    let mut work = Timer::new(time::Duration::from_secs(2));
    assert!(work.restart(time::Duration::from_millis(300), Waker::noop()).is_none());
    assert!(!work.is_ticking());

    let start = time::Duration::from_secs(7);
    let (end, _, resource) = run(work, start);
    assert_eq!(end - start, time::Duration::from_millis(300));
    assert_eq!(resource.created, 1);
}

#[test]
fn cancelled_timer_stays_pending_until_restarted() {
    let mut work = Timer::new(time::Duration::from_secs(2));
    let mut resource = Resource::new();
    let start = time::Duration::from_secs(7);
    assert!(!poll_once(&mut work, &mut resource, start));

    let command = work.cancel().expect("a running timer is disarmed");
    resource.set(start, command);
    assert_eq!(resource.deadline, None);
    let again = work.cancel().expect("a running timer is disarmed");
    assert_eq!(again, command);
    resource.set(start, again);
    assert_eq!(resource.deadline, None);

    let much_later = start + time::Duration::from_secs(60);
    assert!(!poll_once(&mut work, &mut resource, much_later));
    assert!(!work.is_expired());

    let command = work.restart(time::Duration::from_secs(1), Waker::noop());
    resource.set(much_later, command.expect("a running timer is set anew"));
    let mut jobs = vec![(work, resource)];
    let end = run_all(&mut jobs, much_later);
    assert_eq!(end - much_later, time::Duration::from_secs(1));
    assert!(jobs[0].0.is_expired());
}

#[test]
fn wake_up_without_expiration_is_not_completion() {
    let mut work = Timer::new(time::Duration::from_secs(2));
    let mut resource = Resource::new();
    let start = time::Duration::from_secs(7);
    assert!(!poll_once(&mut work, &mut resource, start));

    resource.ready = true;
    assert!(!poll_once(&mut work, &mut resource, start + time::Duration::from_secs(1)));
    assert!(!resource.ready);
    assert!(work.is_ticking());
    assert!(!work.is_expired());

    assert!(poll_once(&mut work, &mut resource, start + time::Duration::from_secs(2)));
    assert!(work.is_expired());
}

#[test]
fn cancel_then_drop_leaves_one_disarmed_resource() {
    let mut work = Timer::new(time::Duration::from_secs(2));
    let mut resource = Resource::new();
    let start = time::Duration::from_secs(7);
    assert!(!poll_once(&mut work, &mut resource, start));
    assert_eq!(resource.created, 1);

    let command = work.cancel().expect("a running timer is disarmed");
    resource.set(start, command);
    drop(work);

    assert_eq!(resource.created, 1);
    assert_eq!(resource.deadline, None);
    assert!(!resource.ready);
}

#[test]
fn timer_never_polled_asks_for_no_resource() {
    let mut work = Timer::new(time::Duration::from_secs(2));
    assert!(work.cancel().is_none());
    assert!(work.restart(time::Duration::from_secs(3), Waker::noop()).is_none());
    assert!(work.cancel().is_none());
    assert!(!work.is_ticking());
    assert!(!work.is_expired());
}
