use std::time::Duration;
use vstd::prelude::*;

verus! {

/// Why an event could not be delivered, handled or scheduled.
#[derive(Debug, Clone, Copy, PartialEq, Eq, Structural)]
pub enum Error {
    /// The operation is not offered.
    Unimplemented,
    /// The other side is gone.
    Closed,
    /// The event was refused.
    Refused,
    /// A timer was set that was set already.
    TimerSet,
    /// A timer was unset that was not set.
    TimerUnset,
    /// A client was added under an identifier that is taken.
    DuplicateClient,
    /// No client has the identifier.
    UnknownClient,
    /// A client answered that had not been asked.
    MissingInstant,
    /// No replica has the identifier.
    UnknownReplica,
}

/// A handle on where events of one kind go. Sending appends the event to what the
/// receiver has yet to handle; it does not wait for the handling.
pub trait SendEvent<M> {
    /// What this handle says of one `send`: whether sending `event` may turn the handle
    /// into `after` and give `result`. A handle that says nothing allows everything.
    open spec fn sends(&self, event: M, after: &Self, result: Result<(), Error>) -> bool {
        true
    }

    fn send(&mut self, event: M) -> (result: Result<(), Error>)
        ensures
            Self::sends(&*old(self), event, &*final(self), result),
    ;
}

impl<E: SendEvent<M>, M> SendEvent<M> for &mut E {
    /// Sending on a borrowed handle is sending on the handle.
    open spec fn sends(&self, event: M, after: &Self, result: Result<(), Error>) -> bool {
        E::sends(&**self, event, &**after, result)
    }

    /// The borrow stays the borrow of the same handle.
    fn send(&mut self, event: M) -> (result: Result<(), Error>)
        ensures
            *final(*final(self)) == *final(*old(self)),
    {
        E::send(self, event)
    }
}

/// A state machine: it handles its events one at a time, in a context.
pub trait OnEvent<C> {
    type Event;

    /// What this state says of handling one event: whether handling `event` in `context`
    /// may turn the state into `after` and the context into `context_after`, and give
    /// `result`. A state that says nothing allows everything.
    open spec fn handles(
        &self,
        event: Self::Event,
        context: &C,
        after: &Self,
        context_after: &C,
        result: Result<(), Error>,
    ) -> bool {
        true
    }

    fn on_event(&mut self, event: Self::Event, context: &mut C) -> (result: Result<(), Error>)
        ensures
            Self::handles(
                &*old(self),
                event,
                &*old(context),
                &*final(self),
                &*final(context),
                result,
            ),
    ;
}

impl<S: OnEvent<C>, C> OnEvent<C> for &mut S {
    type Event = S::Event;

    /// Handling an event in a borrowed state is handling it in the state.
    open spec fn handles(
        &self,
        event: Self::Event,
        context: &C,
        after: &Self,
        context_after: &C,
        result: Result<(), Error>,
    ) -> bool {
        S::handles(&**self, event, context, &**after, context_after, result)
    }

    /// The borrow stays the borrow of the same state.
    fn on_event(&mut self, event: Self::Event, context: &mut C) -> (result: Result<(), Error>)
        ensures
            *final(*final(self)) == *final(*old(self)),
    {
        S::on_event(self, event, context)
    }
}

/// The session is asked to end.
#[derive(Debug)]
pub struct Exit;

/// A timer that is set. It is a resource: whoever holds it owes it to `unset`, once.
#[derive(Debug, Clone, PartialEq, Eq, Structural, PartialOrd, Ord, Hash)]
pub struct ActiveTimer(pub u32);

/// Where timers are set: the event comes back every `period` until the timer is unset.
pub trait ScheduleEvent<M> {
    /// What this context says of one `set` of its own: whether setting a timer of the
    /// period for the event may turn the context into `after` and give `result`. A
    /// context that says nothing allows everything.
    open spec fn sets(
        &self,
        period: Duration,
        event: M,
        after: &Self,
        result: Result<ActiveTimer, Error>,
    ) -> bool {
        true
    }

    /// What this context says of one `set_internal` of its own: whether setting a timer of
    /// the period may turn the context into `after` and give `result`. A context that
    /// says nothing allows everything.
    open spec fn sets_internal(
        &self,
        period: Duration,
        after: &Self,
        result: Result<ActiveTimer, Error>,
    ) -> bool {
        true
    }

    /// What this context says of one `unset`: whether taking the timer back may turn the
    /// context into `after` and give `result`. A context that says nothing allows
    /// everything.
    open spec fn unsets(&self, id: ActiveTimer, after: &Self, result: Result<(), Error>) -> bool {
        true
    }

    /// Sets a timer that brings `event` every period. Unless a context has its own way,
    /// this is `set_internal` with the same period, for a source of copies of the event.
    fn set(&mut self, period: Duration, event: M) -> (result: Result<ActiveTimer, Error>) where
        M: Send + Clone + 'static,

        ensures
            Self::sets(&*old(self), period, event, &*final(self), result) || Self::sets_internal(
                &*old(self),
                period,
                &*final(self),
                result,
            ) || (result == Err::<ActiveTimer, Error>(Error::Unimplemented) && &*final(self) == &*old(
                self,
            )),
    {
        self.set_internal(period, move || event.clone())
    }

    /// Sets a timer that brings what `event` gives, every period. Unless a context has
    /// its own way, no timer is set: the context stays as it is, and says that it does
    /// not offer this.
    #[allow(unused)]
    fn set_internal(&mut self, period: Duration, event: impl FnMut() -> M + Send + 'static) -> (result:
        Result<ActiveTimer, Error>)
        ensures
            Self::sets_internal(&*old(self), period, &*final(self), result) || (result == Err::<
                ActiveTimer,
                Error,
            >(Error::Unimplemented) && &*final(self) == &*old(self)),
        default_ensures
            result == Err::<ActiveTimer, Error>(Error::Unimplemented),
            &*final(self) == &*old(self),
    {
        Err(Error::Unimplemented)
    }

    /// Takes a timer back: its event comes no more.
    fn unset(&mut self, id: ActiveTimer) -> (result: Result<(), Error>)
        ensures
            Self::unsets(&*old(self), id, &*final(self), result),
    ;
}

/// What may come of one `set_internal`: what the context says of its own, or else the
/// refusal of a context that has none, which leaves the context as it is.
pub open spec fn set_internal_gives<C: ScheduleEvent<M> + ?Sized, M>(
    before: &C,
    period: Duration,
    after: &C,
    result: Result<ActiveTimer, Error>,
) -> bool {
    ||| C::sets_internal(before, period, after, result)
    ||| (result == Err::<ActiveTimer, Error>(Error::Unimplemented) && after == before)
}

/// What may come of one `set`: what the context says of its own, or else what may come of
/// its `set_internal` for the same period.
pub open spec fn set_gives<C: ScheduleEvent<M> + ?Sized, M>(
    before: &C,
    period: Duration,
    event: M,
    after: &C,
    result: Result<ActiveTimer, Error>,
) -> bool {
    ||| C::sets(before, period, event, after, result)
    ||| set_internal_gives::<C, M>(before, period, after, result)
}

impl<T: ScheduleEvent<M>, M> ScheduleEvent<M> for &mut T {
    /// Setting a timer in a borrowed context is setting it in the context.
    open spec fn sets(
        &self,
        period: Duration,
        event: M,
        after: &Self,
        result: Result<ActiveTimer, Error>,
    ) -> bool {
        set_gives::<T, M>(&**self, period, event, &**after, result)
    }

    open spec fn sets_internal(
        &self,
        period: Duration,
        after: &Self,
        result: Result<ActiveTimer, Error>,
    ) -> bool {
        set_internal_gives::<T, M>(&**self, period, &**after, result)
    }

    /// Taking a timer back in a borrowed context is taking it back in the context.
    open spec fn unsets(&self, id: ActiveTimer, after: &Self, result: Result<(), Error>) -> bool {
        T::unsets(&**self, id, &**after, result)
    }

    /// The borrow stays the borrow of the same context.
    fn set(&mut self, period: Duration, event: M) -> (result: Result<ActiveTimer, Error>) where
        M: Clone + Send + 'static,

        ensures
            *final(*final(self)) == *final(*old(self)),
    {
        T::set(self, period, event)
    }

    /// The borrow stays the borrow of the same context.
    fn set_internal(&mut self, period: Duration, event: impl FnMut() -> M + Send + 'static) -> (result:
        Result<ActiveTimer, Error>)
        ensures
            *final(*final(self)) == *final(*old(self)),
    {
        T::set_internal(self, period, event)
    }

    /// The borrow stays the borrow of the same context.
    fn unset(&mut self, id: ActiveTimer) -> (result: Result<(), Error>)
        ensures
            *final(*final(self)) == *final(*old(self)),
    {
        T::unset(self, id)
    }
}

/// A state that handles events of kind `M` in a context.
pub trait OnErasedEvent<M, C: ?Sized> {
    fn on_event(&mut self, event: M, context: &mut C) -> Result<(), Error>;
}

/// A handle on where the events of a state go, whatever their kind.
pub trait SendEventFor<S, C: ?Sized> {
    fn send<M: Send + 'static>(&mut self, event: M) -> Result<(), Error> where
        S: OnErasedEvent<M, C>,
    ;
}

/// Where the timers of a state are set, whatever the kind of their events.
pub trait ScheduleEventFor<S, C> {
    fn set<M: Clone + Send + 'static>(&mut self, period: Duration, event: M) -> Result<
        ActiveTimer,
        Error,
    > where S: OnErasedEvent<M, C>;

    fn unset(&mut self, id: ActiveTimer) -> Result<(), Error>;
}

} // verus!
