use vstd::prelude::*;

use crate::block::{block_components, initialise_blocks};
use crate::camera::{camera_components, initialise_camera};
use crate::components::SpriteSheetHandle;
use crate::map::{initialise_map, is_start_map};
use crate::world::{Entity, World};

verus! {

/// Sprite of the block sheet that the block shows.
pub const BLOCK_SPRITE: usize = 0;

/// The one-time set-up of the scene, once its sprite sheets are loaded.
pub struct GameState;

impl GameState {
    /// Places the block (drawn from `block_sheet`), the camera and the tile
    /// map (drawn from `tile_sheet`), in that order, after the entities that
    /// `world` already holds.
    pub fn on_start(&self, world: &mut World, block_sheet: SpriteSheetHandle, tile_sheet: SpriteSheetHandle)
        requires
            old(world).wf(),
        ensures
            final(world).wf(),
            ({
                let n = old(world)@.len() as int;
                let s = final(world)@;
                &&& s.len() == n + 3
                &&& s.subrange(0, n) == old(world)@
                &&& s[n] == (Entity { id: n as u64, components: block_components(block_sheet, BLOCK_SPRITE) })
                &&& s[n + 1] == (Entity { id: (n + 1) as u64, components: camera_components() })
                &&& s[n + 2].id == n + 2
                &&& s[n + 2].components.tile_map matches Some(m) && is_start_map(m, tile_sheet)
                &&& s[n + 2].components.camera is None
            }),
    {
        let ghost s0 = world@;
        initialise_blocks(world, block_sheet, BLOCK_SPRITE);
        let ghost s1 = world@;
        initialise_camera(world);
        let ghost s2 = world@;
        initialise_map(world, tile_sheet);
        assert(world@.subrange(0, s0.len() as int) =~= s0) by {
            assert(world@.subrange(0, s2.len() as int) == s2);
            assert(s2.subrange(0, s1.len() as int) =~= s1);
            assert(s1.subrange(0, s0.len() as int) =~= s0);
        }
    }
}

} // verus!
