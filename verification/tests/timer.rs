use augustus::event::{ActiveTimer, Error, ScheduleEvent};
use augustus::timer::Timer;
use std::time::Duration;

/// A context that hands out timers by number and remembers which are set.
struct Context {
    next: u32,
    active: Vec<(u32, Duration, u8)>,
    offered: bool,
}

impl Context {
    fn new() -> Self {
        Context { next: 0, active: Vec::new(), offered: true }
    }
}

impl ScheduleEvent<u8> for Context {
    fn set_internal(
        &mut self,
        period: Duration,
        mut event: impl FnMut() -> u8 + Send + 'static,
    ) -> Result<ActiveTimer, Error> {
        if !self.offered {
            return Err(Error::Unimplemented);
        }
        self.next += 1;
        self.active.push((self.next, period, event()));
        Ok(ActiveTimer(self.next))
    }

    fn unset(&mut self, id: ActiveTimer) -> Result<(), Error> {
        let before = self.active.len();
        self.active.retain(|(active, _, _)| *active != id.0);
        if self.active.len() < before {
            Ok(())
        } else {
            Err(Error::Refused)
        }
    }
}

#[test]
fn new_timer_is_not_set() {
    let timer = Timer::<u8>::new(Duration::from_secs(1));
    assert!(!timer.is_set());
    assert_eq!(timer, Timer::new(Duration::from_secs(1)));
    assert_ne!(timer, Timer::new(Duration::from_secs(2)));
}

#[test]
fn install_keeps_the_handle() {
    let mut timer = Timer::<u8>::new(Duration::from_secs(1));
    assert_eq!(timer.install(Err(Error::Closed)), Err(Error::Closed));
    assert!(!timer.is_set());
    assert_eq!(timer.install(Ok(ActiveTimer(7))), Ok(()));
    assert!(timer.is_set());
    assert_eq!(timer.release(), Ok(ActiveTimer(7)));
    assert!(!timer.is_set());
    assert_eq!(timer.release(), Err(Error::TimerUnset));
}

#[test]
fn set_asks_the_context_with_period_and_event() {
    let mut context = Context::new();
    let mut timer = Timer::new(Duration::from_millis(300));
    assert_eq!(timer.set(42, &mut context), Ok(()));
    assert!(timer.is_set());
    assert_eq!(context.active, vec![(1, Duration::from_millis(300), 42)]);
}

#[test]
fn set_twice_is_an_error() {
    let mut context = Context::new();
    let mut timer = Timer::new(Duration::from_secs(1));
    assert_eq!(timer.set(1, &mut context), Ok(()));
    assert_eq!(timer.set(2, &mut context), Err(Error::TimerSet));
    // the context was not asked again, and the timer holds the handle that it had
    assert_eq!(context.active, vec![(1, Duration::from_secs(1), 1)]);
    assert_eq!(timer.unset(&mut context), Ok(()));
    assert!(context.active.is_empty());
}

#[test]
fn borrowed_context_is_the_context() {
    let mut context = Context::new();
    let mut timer = Timer::new(Duration::from_secs(1));
    {
        let mut borrowed = &mut context;
        assert_eq!(timer.set(5, &mut borrowed), Ok(()));
    }
    assert_eq!(context.active, vec![(1, Duration::from_secs(1), 5)]);
    let mut borrowed = &mut context;
    assert_eq!(timer.unset(&mut borrowed), Ok(()));
    assert!(context.active.is_empty());
}

#[test]
fn set_hands_on_the_error_of_the_context() {
    let mut context = Context::new();
    context.offered = false;
    let mut timer = Timer::new(Duration::from_secs(1));
    assert_eq!(timer.set(1, &mut context), Err(Error::Unimplemented));
    assert!(!timer.is_set());
}

#[test]
fn unset_gives_the_handle_back() {
    let mut context = Context::new();
    let mut timer = Timer::new(Duration::from_secs(1));
    timer.set(1, &mut context).unwrap();
    assert_eq!(timer.unset(&mut context), Ok(()));
    assert!(!timer.is_set());
    assert!(context.active.is_empty());
}

#[test]
fn unset_of_a_timer_that_is_not_set_is_an_error() {
    let mut context = Context::new();
    let mut timer = Timer::<u8>::new(Duration::from_secs(1));
    assert_eq!(timer.unset(&mut context), Err(Error::TimerUnset));
    timer.set(1, &mut context).unwrap();
    timer.unset(&mut context).unwrap();
    assert_eq!(timer.unset(&mut context), Err(Error::TimerUnset));
    assert_eq!(context.active.len(), 0);
}

#[test]
fn ensure_set_sets_once() {
    let mut context = Context::new();
    let mut timer = Timer::new(Duration::from_secs(1));
    assert_eq!(timer.ensure_set(1, &mut context), Ok(()));
    assert_eq!(timer.ensure_set(2, &mut context), Ok(()));
    assert_eq!(context.active, vec![(1, Duration::from_secs(1), 1)]);
    assert!(timer.is_set());
}

#[test]
fn ensure_unset_unsets_if_set() {
    let mut context = Context::new();
    let mut timer = Timer::new(Duration::from_secs(1));
    assert_eq!(timer.ensure_unset(&mut context), Ok(()));
    timer.set(1, &mut context).unwrap();
    assert_eq!(timer.ensure_unset(&mut context), Ok(()));
    assert!(!timer.is_set());
    assert!(context.active.is_empty());
    assert_eq!(timer.ensure_unset(&mut context), Ok(()));
}

#[test]
fn clone_of_a_timer_is_the_same_timer() {
    let mut timer = Timer::<u8>::new(Duration::from_secs(1));
    timer.install(Ok(ActiveTimer(3))).unwrap();
    let mut copy = timer.clone();
    assert_eq!(copy, timer);
    assert_eq!(copy.release(), Ok(ActiveTimer(3)));
    assert!(timer.is_set());
}

/// A context that only takes timers back.
struct Unset;

impl ScheduleEvent<u8> for Unset {
    fn unset(&mut self, _: ActiveTimer) -> Result<(), Error> {
        Ok(())
    }
}

#[test]
fn context_that_sets_no_timers_says_so() {
    let mut timer = Timer::new(Duration::from_secs(1));
    assert_eq!(timer.set(1, &mut Unset), Err(Error::Unimplemented));
    assert!(!timer.is_set());
    assert_eq!(timer.ensure_set(1, &mut Unset), Err(Error::Unimplemented));
    assert_eq!(Unset.set(Duration::from_secs(1), 1), Err(Error::Unimplemented));
}
