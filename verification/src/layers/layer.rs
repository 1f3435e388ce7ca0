//! Layers: state that changes only through commands and the events they
//! produce.

use vstd::prelude::*;

verus! {

/// An event: a change that has been decided on.
pub trait Event<S: View>: Sized {
    /// The state after the event.
    spec fn evolved(&self, state: S::V) -> S::V;

    /// Applies the event to the state.
    fn evolve(&self, state: &mut S)
        ensures
            final(state)@ == self.evolved(old(state)@),
    ;
}

/// A command: a request to change the state, which is decided on with the
/// state in view.
pub trait Command<S: View>: Sized {
    /// The events that the command can produce.
    type Event: Event<S>;

    /// The events that the command produces in the given state.
    spec fn decided(self, state: S::V) -> Seq<Self::Event>;

    /// Decides what the command leads to, and adds those events.
    fn decide(self, state: &S, events: &mut Vec<Self::Event>)
        ensures
            final(events)@ == old(events)@ + self.decided(state@),
    ;
}

/// The state after all the events, first to last.
pub open spec fn evolved_all<S: View, E: Event<S>>(events: Seq<E>, state: S::V) -> S::V
    decreases events.len(),
{
    if events.len() == 0 {
        state
    } else {
        events.last().evolved(evolved_all(events.drop_last(), state))
    }
}

/// No events leave the state as it is; one event changes it as that event
/// does.
pub proof fn lemma_evolved_few<S: View, E: Event<S>>(event: E, state: S::V)
    ensures
        evolved_all(Seq::<E>::empty(), state) == state,
        evolved_all(seq![event], state) == event.evolved(state),
{
    assert(seq![event].drop_last() =~= Seq::<E>::empty());
    assert(seq![event].last() == event);
    reveal_with_fuel(evolved_all, 2);
}

/// A layer: a state, and the one way to change it.
#[derive(Debug)]
pub struct Layer<S> {
    pub state: S,
}

impl<S: View> Layer<S> {
    /// A layer around the given state.
    pub fn new(state: S) -> (layer: Layer<S>)
        ensures
            layer.state == state,
    {
        Layer { state }
    }

    /// Processes a command: it is decided on, and then every event in
    /// `events`, those that were there and those that the command added, is
    /// applied to the state.
    pub fn process<C: Command<S>>(&mut self, command: C, events: &mut Vec<C::Event>)
        ensures
            final(events)@ == old(events)@ + command.decided(old(self).state@),
            final(self).state@ == evolved_all(final(events)@, old(self).state@),
    {
        command.decide(&self.state, events);
        let ghost before = self.state@;
        let mut i: usize = 0;
        while i < events.len()
            invariant
                i <= events.len(),
                self.state@ == evolved_all(events@.take(i as int), before),
            decreases events.len() - i,
        {
            assert(events@.take(i + 1).drop_last() =~= events@.take(i as int));
            events[i].evolve(&mut self.state);
            i += 1;
        }
        assert(events@.take(i as int) =~= events@);
    }
}

} // verus!
