use vstd::prelude::*;

use crate::block::{ARENA_HEIGHT, ARENA_WIDTH};
use crate::components::{Camera, Transform};
use crate::world::{spawned, with_transform, Components, Entity, World};

verus! {

/// Where the camera stands: over the centre of the arena, one unit in front.
pub open spec fn camera_home() -> Transform {
    Transform { x: (ARENA_WIDTH / 2) as i64, y: (ARENA_HEIGHT / 2) as i64, z: 1 }
}

/// The components of the camera entity: a projection the size of the arena,
/// placed at `camera_home()`.
pub open spec fn camera_components() -> Components {
    Components {
        sprite: None,
        block: None,
        transform: Some(camera_home()),
        camera: Some(Camera { width: ARENA_WIDTH, height: ARENA_HEIGHT }),
        tile_map: None,
    }
}

/// Number of entities that carry a camera.
pub open spec fn camera_count(s: Seq<Entity>) -> nat
    decreases s.len(),
{
    if s.len() == 0 {
        0
    } else {
        camera_count(s.drop_last()) + if s.last().components.camera is Some { 1nat } else { 0nat }
    }
}

fn home_transform() -> (t: Transform)
    ensures
        t == camera_home(),
{
    Transform { x: (ARENA_WIDTH / 2) as i64, y: (ARENA_HEIGHT / 2) as i64, z: 1 }
}

/// Creates the camera entity and returns its identifier.
pub fn initialise_camera(world: &mut World) -> (id: u64)
    requires
        old(world).wf(),
    ensures
        final(world).wf(),
        id == old(world)@.len(),
        final(world)@ == spawned(old(world)@, camera_components()),
        camera_count(final(world)@) == camera_count(old(world)@) + 1,
{
    let ghost before = world@;
    let id = world.spawn(
        Components {
            sprite: None,
            block: None,
            transform: Some(home_transform()),
            camera: Some(Camera { width: ARENA_WIDTH, height: ARENA_HEIGHT }),
            tile_map: None,
        },
    );
    assert(world@.drop_last() =~= before);
    id
}

/// One tick of the camera system on entity `e`: a camera is put back over
/// the arena; anything else is left alone.
pub open spec fn tick_entity(e: Entity) -> Entity {
    if e.components.camera is Some {
        with_transform(e, camera_home())
    } else {
        e
    }
}

/// The store after one tick of the camera system.
pub open spec fn camera_ticked(s: Seq<Entity>) -> Seq<Entity> {
    Seq::new(s.len(), |i: int| tick_entity(s[i]))
}

/// The store after `n` ticks of the camera system.
pub open spec fn camera_ticked_n(s: Seq<Entity>, n: nat) -> Seq<Entity>
    decreases n,
{
    if n == 0 {
        s
    } else {
        camera_ticked(camera_ticked_n(s, (n - 1) as nat))
    }
}

/// Keeps every camera positioned over the playing field.
pub struct CameraSystem;

impl CameraSystem {
    /// Runs one tick.
    pub fn run(&self, world: &mut World)
        requires
            old(world).wf(),
        ensures
            final(world).wf(),
            final(world)@ == camera_ticked(old(world)@),
    {
        let ghost before = world@;
        let n = world.len();
        let mut i: usize = 0;
        while i < n
            invariant
                world.wf(),
                n == before.len(),
                world@.len() == n,
                i <= n,
                forall|k: int| 0 <= k < i ==> world@[k] == tick_entity(before[k]),
                forall|k: int| i <= k < n ==> world@[k] == before[k],
            decreases n - i,
        {
            if world.entity(i).components.camera.is_some() {
                world.set_transform(i, home_transform());
            }
            i = i + 1;
        }
        assert(world@ =~= camera_ticked(before));
    }
}

proof fn lemma_same_cameras_same_count(a: Seq<Entity>, b: Seq<Entity>)
    requires
        a.len() == b.len(),
        forall|i: int| 0 <= i < a.len() ==> a[i].components.camera == b[i].components.camera,
    ensures
        camera_count(a) == camera_count(b),
    decreases a.len(),
{
    if a.len() > 0 {
        lemma_same_cameras_same_count(a.drop_last(), b.drop_last());
    }
}

/// However many ticks the camera system runs, every entity keeps its place,
/// its identifier and its camera: none is removed and none is added, so the
/// number of cameras stays the same.
pub proof fn lemma_camera_ticks_keep_cameras(s: Seq<Entity>, n: nat)
    ensures
        camera_ticked_n(s, n).len() == s.len(),
        forall|i: int|
            0 <= i < s.len() ==> (#[trigger] camera_ticked_n(s, n)[i]).id == s[i].id
                && camera_ticked_n(s, n)[i].components.camera == s[i].components.camera,
        camera_count(camera_ticked_n(s, n)) == camera_count(s),
    decreases n,
{
    if n > 0 {
        lemma_camera_ticks_keep_cameras(s, (n - 1) as nat);
    }
    lemma_same_cameras_same_count(camera_ticked_n(s, n), s);
}

} // verus!
