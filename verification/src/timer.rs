use crate::event::{set_gives, ActiveTimer, Error, ScheduleEvent};
use std::marker::PhantomData;
use std::time::Duration;
use vstd::prelude::*;

verus! {

/// A timer of a fixed period for events of one kind, which is set or not. While it is set
/// it holds the handle that it owes to `unset`.
#[derive(Debug, PartialEq, Eq, Hash)]
pub struct Timer<M> {
    id: Option<ActiveTimer>,
    period: Duration,
    _m: PhantomData<M>,
}

impl<M> Clone for Timer<M> {
    /// A copy for a snapshot of the state that holds the timer. The handle in it is no
    /// second handle: only one of the two is owed to `unset`.
    fn clone(&self) -> (copy: Self)
        ensures
            copy.id() == self.id(),
            copy.period() == self.period(),
    {
        Timer {
            id: match &self.id {
                Some(id) => Some(ActiveTimer(id.0)),
                None => None,
            },
            period: self.period,
            _m: PhantomData,
        }
    }
}

impl<M> Timer<M> {
    /// The handle of the timer, while it is set.
    pub closed spec fn id(&self) -> Option<ActiveTimer> {
        self.id
    }

    /// The period of the timer.
    pub closed spec fn period(&self) -> Duration {
        self.period
    }

    /// What becomes of the handle of a timer that is not set when a context has answered
    /// the request to set it.
    pub open spec fn installed(scheduled: Result<ActiveTimer, Error>) -> Option<ActiveTimer> {
        match scheduled {
            Ok(new) => Some(new),
            Err(_) => None,
        }
    }

    /// What a timer that is not set answers when a context has answered the request to
    /// set it: the context's error, if it gave one.
    pub open spec fn install_result(scheduled: Result<ActiveTimer, Error>) -> Result<(), Error> {
        match scheduled {
            Ok(_) => Ok(()),
            Err(error) => Err(error),
        }
    }

    /// A timer of the given period that is not set.
    pub fn new(period: Duration) -> (timer: Self)
        ensures
            timer.id() is None,
            timer.period() == period,
    {
        Self { period, id: None, _m: PhantomData }
    }

    /// Whether the timer is set.
    pub fn is_set(&self) -> (set: bool)
        ensures
            set == self.id() is Some,
    {
        self.id.is_some()
    }

    /// Takes in what a context answered to the request to set the timer. The timer takes
    /// a handle only while it holds none, so that no handle is lost.
    pub fn install(&mut self, scheduled: Result<ActiveTimer, Error>) -> (result: Result<(), Error>)
        requires
            old(self).id() is None,
        ensures
            final(self).id() == Self::installed(scheduled),
            final(self).period() == old(self).period(),
            result == Self::install_result(scheduled),
    {
        match scheduled {
            Ok(new) => {
                self.id = Some(new);
                Ok(())
            },
            Err(error) => Err(error),
        }
    }

    /// Sets the timer: asks the context to bring `event` every period from now on, and
    /// keeps the handle that the context gives. A timer that is set already is an error:
    /// it keeps its handle, and the context is not asked.
    pub fn set<C: ScheduleEvent<M>>(&mut self, event: M, context: &mut C) -> (result: Result<
        (),
        Error,
    >) where M: Clone + Send + 'static
        ensures
            final(self).period() == old(self).period(),
            old(self).id() is Some ==> {
                &&& result == Err::<(), Error>(Error::TimerSet)
                &&& final(self).id() == old(self).id()
                &&& *final(context) == *old(context)
            },
            old(self).id() is None ==> exists|scheduled: Result<ActiveTimer, Error>|
                {
                    &&& #[trigger] set_gives::<C, M>(
                        &*old(context),
                        old(self).period(),
                        event,
                        &*final(context),
                        scheduled,
                    )
                    &&& final(self).id() == Self::installed(scheduled)
                    &&& result == Self::install_result(scheduled)
                },
    {
        if self.id.is_some() {
            return Err(Error::TimerSet);
        }
        let scheduled = context.set(self.period, event);
        assert(set_gives::<C, M>(&*old(context), old(self).period(), event, &*context, scheduled));
        self.install(scheduled)
    }

    /// Gives up the handle of the timer, for `unset`.
    pub fn release(&mut self) -> (result: Result<ActiveTimer, Error>)
        ensures
            final(self).id() is None,
            final(self).period() == old(self).period(),
            match old(self).id() {
                Some(id) => result == Ok::<ActiveTimer, Error>(id),
                None => result == Err::<ActiveTimer, Error>(Error::TimerUnset),
            },
    {
        match self.id.take() {
            Some(id) => Ok(id),
            None => Err(Error::TimerUnset),
        }
    }

    /// Unsets the timer: hands its handle back to the context, and answers what the
    /// context answers. A timer that is not set has none: that is an error, and the
    /// context is not asked.
    pub fn unset<C: ScheduleEvent<M>>(&mut self, context: &mut C) -> (result: Result<(), Error>)
        ensures
            final(self).id() is None,
            final(self).period() == old(self).period(),
            match old(self).id() {
                Some(id) => C::unsets(&*old(context), id, &*final(context), result),
                None => {
                    &&& result == Err::<(), Error>(Error::TimerUnset)
                    &&& *final(context) == *old(context)
                },
            },
    {
        match self.release() {
            Ok(id) => context.unset(id),
            Err(error) => Err(error),
        }
    }

    /// Sets the timer unless it is set. A timer that is set stays as it is, and the
    /// context is not asked.
    pub fn ensure_set<C: ScheduleEvent<M>>(&mut self, event: M, context: &mut C) -> (result: Result<
        (),
        Error,
    >) where M: Clone + Send + 'static
        ensures
            final(self).period() == old(self).period(),
            old(self).id() is Some ==> {
                &&& result == Ok::<(), Error>(())
                &&& final(self).id() == old(self).id()
                &&& *final(context) == *old(context)
            },
            old(self).id() is None ==> exists|scheduled: Result<ActiveTimer, Error>|
                {
                    &&& #[trigger] set_gives::<C, M>(
                        &*old(context),
                        old(self).period(),
                        event,
                        &*final(context),
                        scheduled,
                    )
                    &&& final(self).id() == Self::installed(scheduled)
                    &&& result == Self::install_result(scheduled)
                },
    {
        if self.id.is_none() {
            self.set(event, context)
        } else {
            Ok(())
        }
    }

    /// Unsets the timer if it is set. A timer that is not set stays so, and the context
    /// is not asked.
    pub fn ensure_unset<C: ScheduleEvent<M>>(&mut self, context: &mut C) -> (result: Result<
        (),
        Error,
    >)
        ensures
            final(self).id() is None,
            final(self).period() == old(self).period(),
            match old(self).id() {
                Some(id) => C::unsets(&*old(context), id, &*final(context), result),
                None => {
                    &&& result == Ok::<(), Error>(())
                    &&& *final(context) == *old(context)
                },
            },
    {
        if self.id.is_some() {
            self.unset(context)
        } else {
            Ok(())
        }
    }
}

} // verus!
