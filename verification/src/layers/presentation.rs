//! The layer that knows how objects are presented.

use crate::layers::layer::{lemma_evolved_few, Command, Event, Layer};
use crate::objects::{AnyObject, Color, Region};
use crate::storage::Handle;
use std::collections::BTreeMap;
use vstd::prelude::*;

verus! {

/// How objects are presented: the colors that regions were given.
#[derive(Debug)]
pub struct Presentation {
    /// The color of each region that has one, by the region's identity.
    pub color: BTreeMap<u64, Color>,
}

impl View for Presentation {
    type V = Map<u64, Color>;

    open spec fn view(&self) -> Map<u64, Color> {
        self.color@
    }
}

impl Default for Presentation {
    fn default() -> (presentation: Presentation)
        ensures
            presentation@ == Map::<u64, Color>::empty(),
    {
        Presentation { color: BTreeMap::new() }
    }
}

/// Set the color of a region.
#[derive(Clone, Copy, Debug)]
pub struct SetColor {
    /// The region to set the color for.
    pub region: Handle<Region>,
    /// The color to set.
    pub color: Color,
}

impl Command<Presentation> for SetColor {
    type Event = SetColor;

    open spec fn decided(self, state: Map<u64, Color>) -> Seq<SetColor> {
        seq![self]
    }

    fn decide(self, _state: &Presentation, events: &mut Vec<SetColor>) {
        events.push(self);
        assert(events@ =~= old(events)@ + seq![self]);
    }
}

impl Event<Presentation> for SetColor {
    open spec fn evolved(&self, state: Map<u64, Color>) -> Map<u64, Color> {
        state.insert(self.region.id, self.color)
    }

    fn evolve(&self, state: &mut Presentation) {
        broadcast use vstd::std_specs::btree::group_btree_axioms;

        state.color.insert(self.region.id, self.color);
    }
}

/// Handle an object being derived from another.
#[derive(Clone, Copy, Debug)]
pub struct DeriveObject {
    /// The original object.
    pub original: AnyObject,
    /// The derived object.
    pub derived: AnyObject,
}

impl Command<Presentation> for DeriveObject {
    type Event = SetColor;

    /// A region that is derived from a region with a color gets that color;
    /// nothing else follows from a derivation.
    open spec fn decided(self, state: Map<u64, Color>) -> Seq<SetColor> {
        match (self.original, self.derived) {
            (AnyObject::Region(original), AnyObject::Region(derived)) => {
                if state.contains_key(original.id) {
                    seq![SetColor { region: derived, color: state[original.id] }]
                } else {
                    Seq::empty()
                }
            },
            _ => Seq::empty(),
        }
    }

    fn decide(self, state: &Presentation, events: &mut Vec<SetColor>) {
        broadcast use vstd::std_specs::btree::group_btree_axioms;

        match (self.original, self.derived) {
            (AnyObject::Region(original), AnyObject::Region(derived)) => {
                match state.color.get(&original.id) {
                    Some(color) => {
                        let event = SetColor { region: derived, color: *color };
                        events.push(event);
                        assert(events@ =~= old(events)@ + seq![event]);
                    },
                    None => {
                        assert(events@ =~= old(events)@ + Seq::<SetColor>::empty());
                    },
                }
            },
            _ => {
                assert(events@ =~= old(events)@ + Seq::<SetColor>::empty());
            },
        }
    }
}

/// Event produced by `Layer<Presentation>`.
#[derive(Clone, Copy, Debug)]
pub enum PresentationEvent {
    /// The color of a region is being set.
    SetColor {
        /// The region the color is being set for.
        region: Handle<Region>,
        /// The color being set.
        color: Color,
    },
}

impl Layer<Presentation> {
    /// Set the color of a region.
    pub fn set_color(&mut self, region: Handle<Region>, color: Color)
        ensures
            final(self).state@ == old(self).state@.insert(region.id, color),
    {
        let mut events: Vec<SetColor> = Vec::new();
        let command = SetColor { region, color };
        self.process(command, &mut events);
        proof {
            assert(events@ =~= seq![command]);
            lemma_evolved_few::<Presentation, SetColor>(command, old(self).state@);
        }
    }

    /// Mark an object as being derived from another: a region that is
    /// derived from a region with a color gets that color.
    pub fn derive_object(&mut self, original: AnyObject, derived: AnyObject)
        ensures
            final(self).state@ == match (original, derived) {
                (AnyObject::Region(original), AnyObject::Region(derived)) => {
                    if old(self).state@.contains_key(original.id) {
                        old(self).state@.insert(derived.id, old(self).state@[original.id])
                    } else {
                        old(self).state@
                    }
                },
                _ => old(self).state@,
            },
    {
        let mut events: Vec<SetColor> = Vec::new();
        let command = DeriveObject { original, derived };
        self.process(command, &mut events);
        proof {
            let decided = command.decided(old(self).state@);
            assert(events@ =~= decided);
            if decided.len() > 0 {
                assert(decided =~= seq![decided[0]]);
                lemma_evolved_few::<Presentation, SetColor>(decided[0], old(self).state@);
            } else {
                assert(decided =~= Seq::<SetColor>::empty());
            }
        }
    }
}

} // verus!
