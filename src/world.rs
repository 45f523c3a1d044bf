use vstd::prelude::*;

use crate::block::Block;
use crate::components::{Camera, SpriteRender, Transform};
use crate::map::TileMap;

verus! {

/// The components attached to one entity; each kind at most once.
pub struct Components {
    pub sprite: Option<SpriteRender>,
    pub block: Option<Block>,
    pub transform: Option<Transform>,
    pub camera: Option<Camera>,
    pub tile_map: Option<TileMap>,
}

impl Components {
    /// Every tile map among the components is well formed.
    pub open spec fn wf(&self) -> bool {
        self.tile_map matches Some(m) ==> m.wf()
    }
}

/// An entity: its identifier and its components.
pub struct Entity {
    pub id: u64,
    pub components: Components,
}

/// The entity store. Entities are never removed, so an entity's identifier
/// is its position in the store.
pub struct World {
    entities: Vec<Entity>,
}

/// `e` with its transform replaced by `t`.
pub open spec fn with_transform(e: Entity, t: Transform) -> Entity {
    Entity { id: e.id, components: Components { transform: Some(t), ..e.components } }
}

/// The store `s` after a new entity with components `c` was created.
pub open spec fn spawned(s: Seq<Entity>, c: Components) -> Seq<Entity> {
    s.push(Entity { id: s.len() as u64, components: c })
}

/// Every identifier is its entity's position.
pub open spec fn ids_are_positions(s: Seq<Entity>) -> bool {
    forall|i: int| 0 <= i < s.len() ==> (#[trigger] s[i]).id == i
}

/// A store whose identifiers are positions and whose components are well formed.
pub open spec fn store_wf(s: Seq<Entity>) -> bool {
    &&& ids_are_positions(s)
    &&& forall|i: int| 0 <= i < s.len() ==> (#[trigger] s[i]).components.wf()
}

impl View for World {
    type V = Seq<Entity>;

    closed spec fn view(&self) -> Seq<Entity> {
        self.entities@
    }
}

impl World {
    pub open spec fn wf(&self) -> bool {
        store_wf(self@)
    }

    /// An empty world.
    pub fn new() -> (w: World)
        ensures
            w.wf(),
            w@.len() == 0,
    {
        World { entities: Vec::new() }
    }

    /// Number of entities.
    pub fn len(&self) -> (n: usize)
        ensures
            n == self@.len(),
    {
        self.entities.len()
    }

    /// The entity at position `i`.
    pub fn entity(&self, i: usize) -> (e: &Entity)
        requires
            i < self@.len(),
        ensures
            *e == self@[i as int],
    {
        &self.entities[i]
    }

    /// Creates a new entity with the components `c` and returns its identifier.
    pub fn spawn(&mut self, c: Components) -> (id: u64)
        requires
            old(self).wf(),
            c.wf(),
        ensures
            final(self).wf(),
            id == old(self)@.len(),
            final(self)@ == spawned(old(self)@, c),
    {
        let id = self.entities.len() as u64;
        self.entities.push(Entity { id, components: c });
        id
    }

    /// Replaces the transform of the entity at position `i`.
    pub fn set_transform(&mut self, i: usize, t: Transform)
        requires
            old(self).wf(),
            i < old(self)@.len(),
        ensures
            final(self).wf(),
            final(self)@ == old(self)@.update(i as int, with_transform(old(self)@[i as int], t)),
    {
        self.entities[i].components.transform = Some(t);
    }
}

} // verus!
