use vstd::prelude::*;

use crate::state::Repr;
use crate::surface::Surface;
use crate::types::Event;

verus! {

/// The two states of the event dispatch loop.  The loop starts `Running`,
/// consumes one event at a time, and moves to `Terminated` exactly when it
/// receives the shutdown event or its channel is disconnected; it never
/// leaves `Terminated`.
#[derive(Clone, Copy, Debug, PartialEq, Eq, Structural)]
pub enum LoopState {
    Running,
    Terminated,
}

/// How the loop state advances on one received event.  `None` stands for a
/// receive on a disconnected channel, which stops the loop like a shutdown.
pub open spec fn spec_loop_step(state: LoopState, received: Option<Event>) -> LoopState {
    match state {
        LoopState::Terminated => LoopState::Terminated,
        LoopState::Running => match received {
            None => LoopState::Terminated,
            Some(Event::Quit) => LoopState::Terminated,
            Some(Event::Menu(_)) => LoopState::Running,
            Some(Event::Balloon) => LoopState::Running,
        },
    }
}

/// Advances the loop state machine by one received event.
pub fn loop_step(state: LoopState, received: Option<Event>) -> (next: LoopState)
    ensures
        next == spec_loop_step(state, received),
{
    match state {
        LoopState::Terminated => LoopState::Terminated,
        LoopState::Running => match received {
            None => LoopState::Terminated,
            Some(Event::Quit) => LoopState::Terminated,
            Some(Event::Menu(_)) => LoopState::Running,
            Some(Event::Balloon) => LoopState::Running,
        },
    }
}

/// What the dispatch loop does with one received event.  The decision is
/// taken under the shared-state lock; the returned action is invoked only
/// after the lock is released, so that an action may itself call any
/// mutator (including close) without deadlocking.
pub enum Dispatch<A> {
    /// Invoke this action, handing it a fresh handle to the shared state.
    Invoke(A),
    /// Nothing to dispatch for this event; keep running.
    Nothing,
    /// Stop the loop.
    Stop,
}

impl<A: Copy, S: Surface> Repr<A, S> {
    /// The dispatch loop's decision for one received event, where `None`
    /// stands for a receive on a disconnected channel.  A menu selection
    /// dispatches the registered action and leaves the registry unchanged;
    /// an unknown id dispatches nothing and has no effect.  A balloon click
    /// takes the pending action, emptying the slot.  The decision is `Stop`
    /// exactly when the loop state machine terminates on this event.
    pub fn dispatch_event(&mut self, received: Option<Event>) -> (d: Dispatch<A>)
        ensures
            received matches Some(Event::Menu(id)) ==> ({
                &&& final(self)@ == old(self)@
                &&& d == match old(self)@.menu_dispatch(id) {
                    Some(action) => Dispatch::Invoke(action),
                    None => Dispatch::<A>::Nothing,
                }
            }),
            received == Some(Event::Balloon) ==> ({
                &&& final(self)@ == old(self)@.clear_balloon()
                &&& d == match old(self)@.balloon_dispatch() {
                    Some(action) => Dispatch::Invoke(action),
                    None => Dispatch::<A>::Nothing,
                }
            }),
            received is None || received == Some(Event::Quit) ==> final(self)@ == old(self)@
                && d is Stop,
            d is Stop <==> spec_loop_step(LoopState::Running, received) is Terminated,
    {
        match received {
            None => Dispatch::Stop,
            Some(Event::Quit) => Dispatch::Stop,
            Some(Event::Menu(id)) => match self.menu_action(id) {
                Some(action) => Dispatch::Invoke(action),
                None => Dispatch::Nothing,
            },
            Some(Event::Balloon) => match self.take_balloon_action() {
                Some(action) => Dispatch::Invoke(action),
                None => Dispatch::Nothing,
            },
        }
    }
}

/// A running dispatch loop stops on the shutdown event or a disconnected
/// channel and on nothing else, and once terminated it stays terminated
/// whatever else is queued.
pub proof fn lemma_loop_stops_only_on_shutdown(received: Option<Event>)
    ensures
        spec_loop_step(LoopState::Running, received) is Terminated <==> (received is None
            || received == Some(Event::Quit)),
        spec_loop_step(LoopState::Terminated, received) is Terminated,
{
}

} // verus!
