//! Distributed simulation node: the clock, a copy of the model and a subset
//! of the entities, stepped one clock tick at a time.

use vstd::prelude::*;

use crate::entity::Entity;
use crate::error::Result;
use crate::map::VecMap;
use crate::model::{EventModel, Model};
use crate::text::string_of;
use crate::{EntityName, EventName, StringId};

verus! {

/// Distributed simulation node.
///
/// It holds the current clock value, a full copy of the sim model, and
/// a subset of simulation entities.
#[derive(Debug)]
pub struct Node {
    /// Current clock according to this node.
    pub clock: usize,
    /// Full copy of the model.
    pub model: Model,
    /// Events queued for execution during next step.
    pub event_queue: Vec<StringId>,
    /// Entities stored at this node.
    pub entities: VecMap<EntityName, Entity>,
}

impl Default for Node {
    /// Node at clock zero, with an empty model, no queued events and no
    /// entities.
    fn default() -> (res: Self)
        ensures
            res.clock == 0,
            res.model@ == crate::model::empty_model_view(),
            res.event_queue@.len() == 0,
            res.entities@ == Map::<Seq<char>, Entity>::empty(),
    {
        Node { clock: 0, model: Model::default(), event_queue: Vec::new(), entities: VecMap::new() }
    }
}

impl Node {
    /// Node holding the given model, at clock zero, with no queued events
    /// and no entities.
    pub fn from_model(model: Model, script_init: bool) -> (res: Result<Self>)
        ensures
            res matches Ok(n) && n.model == model && n.clock == 0 && n.event_queue@.len() == 0
                && n.entities@ == Map::<Seq<char>, Entity>::empty(),
    {
        let mut node = Node::default();
        node.model = model;
        Ok(node)
    }

    /// Performs single simulation step: the clock advances by one, the
    /// queued events are consumed, and the `step` event is queued for the
    /// next step.
    pub fn step(&mut self) -> (res: Result<()>)
        requires
            old(self).clock < usize::MAX,
        ensures
            res is Ok,
            final(self).clock == old(self).clock + 1,
            final(self).event_queue@.len() == 1,
            final(self).event_queue@[0]@ == "step"@,
            final(self).model == old(self).model,
            final(self).entities == old(self).entities,
    {
        self.event_queue.clear();
        self.clock = self.clock + 1;
        self.event_queue.push(string_of("step"));
        Ok(())
    }

    /// Registers an event with the node's model.
    pub fn add_event(&mut self, name: EventName) -> (res: Result<()>)
        ensures
            res is Ok,
            final(self).model.events@ == old(self).model.events@.push(EventModel { id: name }),
            final(self).model.prefabs == old(self).model.prefabs,
            final(self).model.components == old(self).model.components,
            final(self).clock == old(self).clock,
            final(self).event_queue == old(self).event_queue,
    {
        self.model.events.push(EventModel { id: name });
        Ok(())
    }
}

} // verus!
