use async_native_timer::poll::step;
use async_native_timer::{Delay, Phase, Polled, RawTimer, Schedule};
use std::time::Duration;

/// A backend that only records how it was armed.
struct Recorder {
    armed: Option<(Duration, Option<Duration>)>,
    calls: u32,
}

impl RawTimer for Recorder {
    fn schedule(&self) -> Option<Schedule> {
        self.armed.map(|(time, interval)| Schedule { time, interval })
    }

    fn new_timer() -> Self {
        Recorder { armed: None, calls: 0 }
    }

    fn set_timer(&mut self, time: Duration, interval: Option<Duration>) {
        self.armed = Some((time, interval));
        self.calls += 1;
    }
}

#[test]
fn new_backend_is_unarmed() {
    let raw = Recorder::new_timer();
    assert_eq!(raw.armed, None);
    assert_eq!(raw.calls, 0);
}

#[test]
fn new_arms_a_fresh_backend_one_shot() {
    let delay = Delay::<Recorder>::new(Duration::from_secs(2));
    assert_eq!(delay.get_ref().armed, Some((Duration::from_secs(2), None)));
    assert_eq!(delay.get_ref().calls, 1);
    assert_eq!(
        delay.get_ref().schedule(),
        Some(Schedule { time: Duration::from_secs(2), interval: None })
    );
    assert!(!delay.is_completed());
}

#[test]
fn from_raw_arms_one_shot() {
    let delay = Delay::from_raw(Recorder::new_timer(), Duration::from_secs(1));
    assert_eq!(delay.get_ref().armed, Some((Duration::from_secs(1), None)));
    assert_eq!(delay.get_ref().calls, 1);
    assert!(!delay.is_completed());
}

#[test]
fn from_raw_replaces_an_earlier_schedule() {
    let mut raw = Recorder::new_timer();
    raw.set_timer(Duration::from_secs(60), Some(Duration::from_secs(1)));
    let delay = Delay::from_raw(raw, Duration::from_millis(5));
    assert_eq!(delay.get_ref().armed, Some((Duration::from_millis(5), None)));
}

#[test]
fn one_second_delay_completes_when_readiness_is_observed() {
    let mut delay = Delay::from_raw(Recorder::new_timer(), Duration::from_secs(1));
    assert_eq!(delay.poll(false), Polled::Pending);
    assert!(!delay.is_completed());
    assert_eq!(delay.poll(true), Polled::Ready);
    assert!(delay.is_completed());
}

#[test]
fn wake_without_readiness_stays_pending() {
    let mut delay = Delay::from_raw(Recorder::new_timer(), Duration::from_secs(1));
    for _ in 0..5 {
        assert_eq!(delay.poll(false), Polled::Pending);
        assert!(!delay.is_completed());
    }
    assert_eq!(delay.poll(true), Polled::Ready);
}

#[test]
fn empty_delay_completes_on_first_observed_readiness() {
    let mut delay = Delay::from_raw(Recorder::new_timer(), Duration::new(0, 0));
    assert_eq!(delay.get_ref().armed, Some((Duration::new(0, 0), None)));
    assert_eq!(delay.poll(true), Polled::Ready);
}

#[test]
fn one_shot_reports_readiness_once() {
    let mut delay = Delay::from_raw(Recorder::new_timer(), Duration::from_millis(10));
    assert_eq!(delay.poll(true), Polled::Ready);
    assert_eq!(delay.poll(true), Polled::AlreadyCompleted);
    assert_eq!(delay.poll(false), Polled::AlreadyCompleted);
    assert_eq!(delay.poll(true), Polled::AlreadyCompleted);
    assert!(delay.is_completed());
}

#[test]
fn polling_does_not_touch_the_backend() {
    let mut delay = Delay::from_raw(Recorder::new_timer(), Duration::from_millis(10));
    delay.poll(false);
    delay.poll(true);
    delay.poll(true);
    assert_eq!(delay.get_ref().calls, 1);
    assert_eq!(delay.get_ref().armed, Some((Duration::from_millis(10), None)));
}

#[test]
fn periodic_delay_reports_every_observed_tick() {
    let mut delay = Delay::periodic_from_raw(
        Recorder::new_timer(),
        Duration::from_millis(100),
        Duration::from_millis(100),
    );
    assert_eq!(
        delay.get_ref().armed,
        Some((Duration::from_millis(100), Some(Duration::from_millis(100))))
    );
    for _ in 0..5 {
        assert_eq!(delay.poll(false), Polled::Pending);
        assert_eq!(delay.poll(true), Polled::Ready);
        assert!(!delay.is_completed());
    }
}

#[test]
fn periodic_delay_with_empty_period_is_one_shot() {
    let mut delay =
        Delay::periodic_from_raw(Recorder::new_timer(), Duration::from_secs(1), Duration::new(0, 0));
    assert_eq!(delay.get_ref().armed, Some((Duration::from_secs(1), Some(Duration::new(0, 0)))));
    assert_eq!(delay.poll(true), Polled::Ready);
    assert_eq!(delay.poll(true), Polled::AlreadyCompleted);
}

#[test]
fn periodic_delay_with_nanosecond_period_repeats() {
    let mut delay =
        Delay::periodic_from_raw(Recorder::new_timer(), Duration::from_secs(1), Duration::new(0, 1));
    assert_eq!(delay.poll(true), Polled::Ready);
    assert_eq!(delay.poll(true), Polled::Ready);
}

#[test]
fn get_mut_reaches_the_backend_only() {
    let mut delay = Delay::from_raw(Recorder::new_timer(), Duration::from_secs(1));
    assert_eq!(delay.poll(true), Polled::Ready);
    delay.get_mut().calls = 9;
    assert_eq!(delay.get_ref().calls, 9);
    assert!(delay.is_completed());
}

#[test]
fn step_table() {
    assert_eq!(step(false, Phase::Armed, false), (Phase::Armed, Polled::Pending));
    assert_eq!(step(false, Phase::Armed, true), (Phase::Completed, Polled::Ready));
    assert_eq!(step(true, Phase::Armed, false), (Phase::Armed, Polled::Pending));
    assert_eq!(step(true, Phase::Armed, true), (Phase::Armed, Polled::Ready));
    assert_eq!(step(false, Phase::Completed, false), (Phase::Completed, Polled::AlreadyCompleted));
    assert_eq!(step(false, Phase::Completed, true), (Phase::Completed, Polled::AlreadyCompleted));
    assert_eq!(step(true, Phase::Completed, true), (Phase::Completed, Polled::AlreadyCompleted));
}

/// The observations of `len` polls, one bit of `bits` each.
fn observations(bits: u32, len: u32) -> Vec<bool> {
    (0..len).map(|i| bits & (1 << i) != 0).collect()
}

#[test]
fn one_shot_is_ready_once_whatever_is_observed() {
    for len in 0..9 {
        for bits in 0..(1u32 << len) {
            let mut delay = Delay::<Recorder>::new(Duration::from_millis(3));
            let mut completed = false;
            for ready in observations(bits, len) {
                let polled = delay.poll(ready);
                if completed {
                    assert_eq!(polled, Polled::AlreadyCompleted);
                } else if ready {
                    assert_eq!(polled, Polled::Ready);
                    completed = true;
                } else {
                    assert_eq!(polled, Polled::Pending);
                }
                assert_eq!(delay.is_completed(), completed);
            }
        }
    }
}

#[test]
fn periodic_is_ready_as_often_as_readiness_is_observed() {
    for len in 0..9 {
        for bits in 0..(1u32 << len) {
            let mut delay = Delay::periodic_from_raw(
                Recorder::new_timer(),
                Duration::from_millis(3),
                Duration::from_millis(3),
            );
            assert!(delay.is_periodic());
            for ready in observations(bits, len) {
                let expected = if ready { Polled::Ready } else { Polled::Pending };
                assert_eq!(delay.poll(ready), expected);
                assert!(!delay.is_completed());
            }
        }
    }
}

#[test]
fn one_shot_is_not_periodic() {
    let delay = Delay::from_raw(Recorder::new_timer(), Duration::from_secs(1));
    assert!(!delay.is_periodic());
}
