//! The layer that keeps the errors found in stored objects.

use crate::layers::layer::{evolved_all, Command, Event};
use crate::objects::AnyObject;
use crate::validation::{ValidationConfig, ValidationError};
use std::collections::BTreeMap;
use vstd::prelude::*;

verus! {

/// The errors that validation has found, and the configuration it runs
/// with.
#[derive(Debug)]
pub struct Validation {
    /// The error last found in each object that was found at fault, by the
    /// object's identity.
    pub errors: BTreeMap<(u8, u64), ValidationError>,
    /// The configuration that validation runs with.
    pub config: ValidationConfig,
}

/// What the validation layer holds.
pub struct ValidationState {
    pub errors: Map<(u8, u64), ValidationError>,
    pub config: ValidationConfig,
}

impl View for Validation {
    type V = ValidationState;

    open spec fn view(&self) -> ValidationState {
        ValidationState { errors: self.errors@, config: self.config }
    }
}

impl Validation {
    /// A validation state without errors.
    pub fn with_validation_config(config: ValidationConfig) -> (validation: Validation)
        ensures
            validation@ == (ValidationState { errors: Map::empty(), config }),
    {
        Validation { errors: BTreeMap::new(), config }
    }
}

/// Command for `Layer<Validation>`.
#[derive(Clone, Copy, Debug)]
pub enum ValidationCommand {
    /// Validate the provided object.
    ValidateObject {
        /// The object to validate.
        object: AnyObject,
    },
}

/// Event produced by `Layer<Validation>`.
#[derive(Clone, Copy, Debug)]
pub enum ValidationEvent {
    /// Validation of an object failed.
    ValidationFailed {
        /// The object for which validation failed.
        object: AnyObject,
        /// The validation error.
        err: ValidationError,
    },
}

impl ValidationCommand {
    /// The state once the command has been processed: each fault of the
    /// object has been recorded under the object's identity, the last one
    /// last.
    pub open spec fn outcome(self, state: ValidationState) -> ValidationState {
        evolved_all::<Validation, ValidationEvent>(self.decided(state), state)
    }
}

impl Command<Validation> for ValidationCommand {
    type Event = ValidationEvent;

    /// One failure for each fault of the object, in the order in which
    /// validating finds them.
    open spec fn decided(self, state: ValidationState) -> Seq<ValidationEvent> {
        match self {
            ValidationCommand::ValidateObject { object } => object.faults().map_values(
                |err: ValidationError| ValidationEvent::ValidationFailed { object, err },
            ),
        }
    }

    fn decide(self, _state: &Validation, events: &mut Vec<ValidationEvent>) {
        let mut errors: Vec<ValidationError> = Vec::new();
        match self {
            ValidationCommand::ValidateObject { object } => {
                object.validate(&mut errors);
                assert(errors@ =~= object.faults());
                let ghost before = events@;
                let mut i: usize = 0;
                while i < errors.len()
                    invariant
                        i <= errors.len(),
                        events@ == before + errors@.take(i as int).map_values(
                            |err: ValidationError| ValidationEvent::ValidationFailed { object, err },
                        ),
                    decreases errors.len() - i,
                {
                    events.push(ValidationEvent::ValidationFailed { object, err: errors[i] });
                    assert(events@ =~= before + errors@.take(i + 1).map_values(
                        |err: ValidationError| ValidationEvent::ValidationFailed { object, err },
                    ));
                    i += 1;
                }
                assert(errors@.take(i as int) =~= errors@);
            },
        }
    }
}

impl Event<Validation> for ValidationEvent {
    open spec fn evolved(&self, state: ValidationState) -> ValidationState {
        match *self {
            ValidationEvent::ValidationFailed { object, err } => ValidationState {
                errors: state.errors.insert(object.identity(), err),
                ..state
            },
        }
    }

    fn evolve(&self, state: &mut Validation) {
        broadcast use vstd::std_specs::btree::group_btree_axioms;

        match self {
            ValidationEvent::ValidationFailed { object, err } => {
                state.errors.insert(object.id(), *err);
            },
        }
    }
}

} // verus!
