//! Two-way maps between the ids of rows in the simulation's database and
//! the ids of the entities that show them. An entity is known here by
//! the bits of its id.

use vstd::prelude::*;
use std::collections::HashMap;

verus! {

broadcast use vstd::std_specs::hash::group_hash_axioms;

/// Which entity shows which database entity, and the other way round.
pub struct EntityMapping {
    pub spacetime_to_bevy: HashMap<u64, u64>,
    pub bevy_to_spacetime: HashMap<u64, u64>,
}

/// Each of the two maps is the other one turned round.
pub open spec fn mirrored(forward: Map<u64, u64>, backward: Map<u64, u64>) -> bool {
    &&& forall|id: u64| #[trigger]
        forward.contains_key(id) ==> backward.contains_key(forward[id]) && backward[forward[id]]
            == id
    &&& forall|e: u64| #[trigger]
        backward.contains_key(e) ==> forward.contains_key(backward[e]) && forward[backward[e]] == e
}

impl EntityMapping {
    /// The two maps agree with each other.
    pub open spec fn consistent(&self) -> bool {
        mirrored(self.spacetime_to_bevy@, self.bevy_to_spacetime@)
    }

    /// A mapping that knows no row yet.
    pub fn new() -> (m: EntityMapping)
        ensures
            m.spacetime_to_bevy@ == Map::<u64, u64>::empty(),
            m.bevy_to_spacetime@ == Map::<u64, u64>::empty(),
            m.consistent(),
    {
        EntityMapping { spacetime_to_bevy: HashMap::new(), bevy_to_spacetime: HashMap::new() }
    }

    /// Records that `bevy_entity` shows `spacetime_id`.
    pub fn insert(&mut self, spacetime_id: u64, bevy_entity: u64)
        ensures
            final(self).spacetime_to_bevy@ == old(self).spacetime_to_bevy@.insert(
                spacetime_id,
                bevy_entity,
            ),
            final(self).bevy_to_spacetime@ == old(self).bevy_to_spacetime@.insert(
                bevy_entity,
                spacetime_id,
            ),
    {
        self.spacetime_to_bevy.insert(spacetime_id, bevy_entity);
        self.bevy_to_spacetime.insert(bevy_entity, spacetime_id);
    }

    /// Forgets `spacetime_id` and returns the entity that showed it.
    pub fn remove_by_spacetime_id(&mut self, spacetime_id: u64) -> (removed: Option<u64>)
        ensures
            removed == if old(self).spacetime_to_bevy@.contains_key(spacetime_id) {
                Some(old(self).spacetime_to_bevy@[spacetime_id])
            } else {
                None
            },
            final(self).spacetime_to_bevy@ == old(self).spacetime_to_bevy@.remove(spacetime_id),
            final(self).bevy_to_spacetime@ == match removed {
                Some(e) => old(self).bevy_to_spacetime@.remove(e),
                None => old(self).bevy_to_spacetime@,
            },
    {
        match self.spacetime_to_bevy.remove(&spacetime_id) {
            Some(bevy_entity) => {
                self.bevy_to_spacetime.remove(&bevy_entity);
                Some(bevy_entity)
            },
            None => {
                None
            },
        }
    }

    /// The entity that shows `spacetime_id`, if one does.
    pub fn get_bevy_entity(&self, spacetime_id: u64) -> (found: Option<u64>)
        ensures
            found == if self.spacetime_to_bevy@.contains_key(spacetime_id) {
                Some(self.spacetime_to_bevy@[spacetime_id])
            } else {
                None
            },
    {
        match self.spacetime_to_bevy.get(&spacetime_id) {
            Some(e) => Some(*e),
            None => None,
        }
    }

    /// The row that `bevy_entity` shows, if it shows one.
    pub fn get_spacetime_id(&self, bevy_entity: u64) -> (found: Option<u64>)
        ensures
            found == if self.bevy_to_spacetime@.contains_key(bevy_entity) {
                Some(self.bevy_to_spacetime@[bevy_entity])
            } else {
                None
            },
    {
        match self.bevy_to_spacetime.get(&bevy_entity) {
            Some(id) => Some(*id),
            None => None,
        }
    }
}

impl Default for EntityMapping {
    fn default() -> (m: EntityMapping)
        ensures
            m.spacetime_to_bevy@ == Map::<u64, u64>::empty(),
            m.bevy_to_spacetime@ == Map::<u64, u64>::empty(),
    {
        EntityMapping::new()
    }
}

/// Marks an entity that shows a waypoint, and says which.
#[derive(Clone, Copy, Debug, PartialEq, Eq, Structural)]
pub struct WaypointMarker {
    /// The id of the waypoint's row.
    pub spacetime_id: u64,
    /// The id of the entity that is to fly there.
    pub entity_id: u64,
    /// The waypoint's place in the entity's route; 0 is the next one.
    pub order_index: u32,
}

/// Which entity shows which waypoint, and the other way round.
pub struct WaypointMapping {
    pub spacetime_to_bevy: HashMap<u64, u64>,
    pub bevy_to_spacetime: HashMap<u64, u64>,
}

impl WaypointMapping {
    /// The two maps agree with each other.
    pub open spec fn consistent(&self) -> bool {
        mirrored(self.spacetime_to_bevy@, self.bevy_to_spacetime@)
    }

    /// A mapping that knows no waypoint yet.
    pub fn new() -> (m: WaypointMapping)
        ensures
            m.spacetime_to_bevy@ == Map::<u64, u64>::empty(),
            m.bevy_to_spacetime@ == Map::<u64, u64>::empty(),
            m.consistent(),
    {
        WaypointMapping { spacetime_to_bevy: HashMap::new(), bevy_to_spacetime: HashMap::new() }
    }

    /// Records that `bevy_entity` shows waypoint `spacetime_id`.
    pub fn insert(&mut self, spacetime_id: u64, bevy_entity: u64)
        ensures
            final(self).spacetime_to_bevy@ == old(self).spacetime_to_bevy@.insert(
                spacetime_id,
                bevy_entity,
            ),
            final(self).bevy_to_spacetime@ == old(self).bevy_to_spacetime@.insert(
                bevy_entity,
                spacetime_id,
            ),
    {
        self.spacetime_to_bevy.insert(spacetime_id, bevy_entity);
        self.bevy_to_spacetime.insert(bevy_entity, spacetime_id);
    }

    /// Forgets waypoint `spacetime_id` and returns the entity that
    /// showed it.
    pub fn remove_by_spacetime_id(&mut self, spacetime_id: u64) -> (removed: Option<u64>)
        ensures
            removed == if old(self).spacetime_to_bevy@.contains_key(spacetime_id) {
                Some(old(self).spacetime_to_bevy@[spacetime_id])
            } else {
                None
            },
            final(self).spacetime_to_bevy@ == old(self).spacetime_to_bevy@.remove(spacetime_id),
            final(self).bevy_to_spacetime@ == match removed {
                Some(e) => old(self).bevy_to_spacetime@.remove(e),
                None => old(self).bevy_to_spacetime@,
            },
    {
        match self.spacetime_to_bevy.remove(&spacetime_id) {
            Some(bevy_entity) => {
                self.bevy_to_spacetime.remove(&bevy_entity);
                Some(bevy_entity)
            },
            None => {
                None
            },
        }
    }

    /// The entity that shows waypoint `spacetime_id`, if one does.
    pub fn get_bevy_entity(&self, spacetime_id: u64) -> (found: Option<u64>)
        ensures
            found == if self.spacetime_to_bevy@.contains_key(spacetime_id) {
                Some(self.spacetime_to_bevy@[spacetime_id])
            } else {
                None
            },
    {
        match self.spacetime_to_bevy.get(&spacetime_id) {
            Some(e) => Some(*e),
            None => None,
        }
    }

    /// The waypoint that `bevy_entity` shows, if it shows one.
    pub fn get_spacetime_id(&self, bevy_entity: u64) -> (found: Option<u64>)
        ensures
            found == if self.bevy_to_spacetime@.contains_key(bevy_entity) {
                Some(self.bevy_to_spacetime@[bevy_entity])
            } else {
                None
            },
    {
        match self.bevy_to_spacetime.get(&bevy_entity) {
            Some(id) => Some(*id),
            None => None,
        }
    }
}

impl Default for WaypointMapping {
    fn default() -> (m: WaypointMapping)
        ensures
            m.spacetime_to_bevy@ == Map::<u64, u64>::empty(),
            m.bevy_to_spacetime@ == Map::<u64, u64>::empty(),
    {
        WaypointMapping::new()
    }
}

/// What the database reports of a row.
#[derive(Clone, Copy, Debug, PartialEq, Eq, Structural)]
pub enum SyncEvent {
    /// The row with this id was inserted.
    Inserted(u64),
    /// The row with this id changed.
    Updated(u64),
    /// The row with this id was deleted.
    Deleted(u64),
}

/// What the host is to do about a [`SyncEvent`].
#[derive(Clone, Copy, Debug, PartialEq, Eq, Structural)]
pub enum SyncAction {
    /// Spawn an entity for the row with this id and record the pair.
    Spawn(u64),
    /// The inserted row is shown by this entity already: do nothing.
    AlreadyShown(u64),
    /// Move this entity to where its row now says.
    Move(u64),
    /// Despawn this entity; its row is forgotten.
    Despawn(u64),
    /// The row is not known: do nothing.
    Unknown,
}

/// The action that an event calls for, given which rows are known.
pub open spec fn sync_action_for(forward: Map<u64, u64>, event: SyncEvent) -> SyncAction {
    match event {
        SyncEvent::Inserted(id) => if forward.contains_key(id) {
            SyncAction::AlreadyShown(forward[id])
        } else {
            SyncAction::Spawn(id)
        },
        SyncEvent::Updated(id) => if forward.contains_key(id) {
            SyncAction::Move(forward[id])
        } else {
            SyncAction::Unknown
        },
        SyncEvent::Deleted(id) => if forward.contains_key(id) {
            SyncAction::Despawn(forward[id])
        } else {
            SyncAction::Unknown
        },
    }
}

/// The forward map after an event: only the deletion of a row changes
/// it.
pub open spec fn forward_after(forward: Map<u64, u64>, event: SyncEvent) -> Map<u64, u64> {
    match event {
        SyncEvent::Deleted(id) => forward.remove(id),
        _ => forward,
    }
}

/// The backward map after an event.
pub open spec fn backward_after(
    forward: Map<u64, u64>,
    backward: Map<u64, u64>,
    event: SyncEvent,
) -> Map<u64, u64> {
    match event {
        SyncEvent::Deleted(id) => if forward.contains_key(id) {
            backward.remove(forward[id])
        } else {
            backward
        },
        _ => backward,
    }
}

impl EntityMapping {
    /// Decides what to do about an event and forgets a deleted row. For
    /// [`SyncAction::Spawn`] the host records the new pair with
    /// [`EntityMapping::insert`].
    pub fn sync_action(&mut self, event: SyncEvent) -> (action: SyncAction)
        ensures
            action == sync_action_for(old(self).spacetime_to_bevy@, event),
            final(self).spacetime_to_bevy@ == forward_after(old(self).spacetime_to_bevy@, event),
            final(self).bevy_to_spacetime@ == backward_after(
                old(self).spacetime_to_bevy@,
                old(self).bevy_to_spacetime@,
                event,
            ),
    {
        match event {
            SyncEvent::Inserted(id) => match self.get_bevy_entity(id) {
                Some(e) => SyncAction::AlreadyShown(e),
                None => SyncAction::Spawn(id),
            },
            SyncEvent::Updated(id) => match self.get_bevy_entity(id) {
                Some(e) => SyncAction::Move(e),
                None => SyncAction::Unknown,
            },
            SyncEvent::Deleted(id) => match self.remove_by_spacetime_id(id) {
                Some(e) => SyncAction::Despawn(e),
                None => SyncAction::Unknown,
            },
        }
    }
}

impl WaypointMapping {
    /// Decides what to do about an event and forgets a deleted waypoint.
    /// For [`SyncAction::Spawn`] the host records the new pair with
    /// [`WaypointMapping::insert`].
    pub fn sync_action(&mut self, event: SyncEvent) -> (action: SyncAction)
        ensures
            action == sync_action_for(old(self).spacetime_to_bevy@, event),
            final(self).spacetime_to_bevy@ == forward_after(old(self).spacetime_to_bevy@, event),
            final(self).bevy_to_spacetime@ == backward_after(
                old(self).spacetime_to_bevy@,
                old(self).bevy_to_spacetime@,
                event,
            ),
    {
        match event {
            SyncEvent::Inserted(id) => match self.get_bevy_entity(id) {
                Some(e) => SyncAction::AlreadyShown(e),
                None => SyncAction::Spawn(id),
            },
            SyncEvent::Updated(id) => match self.get_bevy_entity(id) {
                Some(e) => SyncAction::Move(e),
                None => SyncAction::Unknown,
            },
            SyncEvent::Deleted(id) => match self.remove_by_spacetime_id(id) {
                Some(e) => SyncAction::Despawn(e),
                None => SyncAction::Unknown,
            },
        }
    }
}

/// Recording a pair of which neither id is known keeps the two maps in
/// agreement, and so does forgetting a row.
pub proof fn lemma_mapping_stays_mirrored(
    forward: Map<u64, u64>,
    backward: Map<u64, u64>,
    spacetime_id: u64,
    bevy_entity: u64,
)
    requires
        mirrored(forward, backward),
    ensures
        !forward.contains_key(spacetime_id) && !backward.contains_key(bevy_entity) ==> mirrored(
            forward.insert(spacetime_id, bevy_entity),
            backward.insert(bevy_entity, spacetime_id),
        ),
        forward.contains_key(spacetime_id) ==> mirrored(
            forward.remove(spacetime_id),
            backward.remove(forward[spacetime_id]),
        ),
{
}

} // verus!
