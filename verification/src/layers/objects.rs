//! The layer that holds the stores of objects.

use crate::layers::layer::{lemma_evolved_few, Command, Event, Layer};
use crate::layers::validation::{Validation, ValidationCommand, ValidationEvent};
use crate::objects::{store_into, stored_as, AboutToBeStored, Objects, Stored};
use vstd::prelude::*;

verus! {

/// Insert an object into the stores.
///
/// This serves as both command and event for `Layer<Objects>`.
#[derive(Clone, Copy, Debug)]
pub struct InsertObject {
    /// The object to insert.
    pub object: AboutToBeStored,
}

impl Command<Objects> for InsertObject {
    type Event = InsertObject;

    open spec fn decided(self, state: Stored) -> Seq<InsertObject> {
        seq![self]
    }

    fn decide(self, _state: &Objects, events: &mut Vec<InsertObject>) {
        events.push(self);
        assert(events@ =~= old(events)@ + seq![self]);
    }
}

impl Event<Objects> for InsertObject {
    open spec fn evolved(&self, state: Stored) -> Stored {
        store_into(state, self.object)
    }

    fn evolve(&self, state: &mut Objects) {
        let _ = state.insert(self.object);
    }
}

impl Layer<Objects> {
    /// Insert an object into the stores, and have the validation layer
    /// validate it as it is stored.
    pub fn insert(&mut self, object: AboutToBeStored, validation: &mut Layer<Validation>)
        ensures
            final(self).state@ == store_into(old(self).state@, object),
            final(validation).state@ == (ValidationCommand::ValidateObject {
                object: stored_as(old(self).state@, object),
            }).outcome(old(validation).state@),
    {
        let stored = self.state.reserve(&object);
        let command = InsertObject { object };
        let mut events: Vec<InsertObject> = Vec::new();
        self.process(command, &mut events);
        proof {
            assert(events@ =~= seq![command]);
            lemma_evolved_few::<Objects, InsertObject>(command, old(self).state@);
        }
        let ghost before = validation.state@;
        let mut i: usize = 0;
        while i < events.len()
            invariant
                events@.len() == 1,
                i <= 1,
                validation.state@ == if i == 0 {
                    before
                } else {
                    (ValidationCommand::ValidateObject { object: stored }).outcome(before)
                },
            decreases events.len() - i,
        {
            let mut failed: Vec<ValidationEvent> = Vec::new();
            validation.process(ValidationCommand::ValidateObject { object: stored }, &mut failed);
            assert(failed@ =~= (ValidationCommand::ValidateObject { object: stored }).decided(
                before,
            ));
            i += 1;
        }
    }
}

} // verus!
