use vstd::prelude::*;

use crate::components::{SpriteRender, SpriteSheetHandle, Transform};
use crate::world::{spawned, store_wf, Components, Entity, World};

verus! {

pub const BLOCK_HEIGHT: u32 = 16;

pub const BLOCK_WIDTH: u32 = 4;

pub const ARENA_HEIGHT: u32 = 100;

pub const ARENA_WIDTH: u32 = 100;

/// The size of the block sprite, in world units.
#[derive(Clone, Copy, Debug, PartialEq, Eq, Structural)]
pub struct Block {
    pub width: u32,
    pub height: u32,
}

impl Block {
    /// A block of the fixed size.
    pub fn new() -> (b: Block)
        ensures
            b == (Block { width: BLOCK_WIDTH, height: BLOCK_HEIGHT }),
    {
        Block { width: BLOCK_WIDTH, height: BLOCK_HEIGHT }
    }
}

/// Where the block stands: half its width from the left edge, at half the
/// arena's height.
pub open spec fn block_transform() -> Transform {
    Transform { x: (BLOCK_WIDTH / 2) as i64, y: (ARENA_HEIGHT / 2) as i64, z: 0 }
}

/// The components of a block entity drawn with sprite `n` of `sheet`.
pub open spec fn block_components(sheet: SpriteSheetHandle, n: usize) -> Components {
    Components {
        sprite: Some(SpriteRender { sprite_sheet: sheet, sprite_number: n }),
        block: Some(Block { width: BLOCK_WIDTH, height: BLOCK_HEIGHT }),
        transform: Some(block_transform()),
        camera: None,
        tile_map: None,
    }
}

/// Creates one block entity, drawn with sprite `sprite_number` of
/// `sprite_sheet`, and returns its identifier.
pub fn initialise_blocks(world: &mut World, sprite_sheet: SpriteSheetHandle, sprite_number: usize) -> (id: u64)
    requires
        old(world).wf(),
    ensures
        final(world).wf(),
        id == old(world)@.len(),
        final(world)@ == spawned(old(world)@, block_components(sprite_sheet, sprite_number)),
{
    let block_transform = Transform { x: (BLOCK_WIDTH / 2) as i64, y: (ARENA_HEIGHT / 2) as i64, z: 0 };
    let sprite_render = SpriteRender { sprite_sheet, sprite_number };
    world.spawn(
        Components {
            sprite: Some(sprite_render),
            block: Some(Block::new()),
            transform: Some(block_transform),
            camera: None,
            tile_map: None,
        },
    )
}

/// Creating a block twice gives two new entities with the same components
/// and different identifiers, and leaves the earlier entities as they were.
pub proof fn lemma_blocks_twice(s: Seq<Entity>, sheet: SpriteSheetHandle, n: usize)
    requires
        store_wf(s),
        s.len() + 2 <= usize::MAX,
    ensures
        ({
            let c = block_components(sheet, n);
            let t = spawned(spawned(s, c), c);
            &&& t.len() == s.len() + 2
            &&& t.subrange(0, s.len() as int) == s
            &&& t[s.len() as int].components == t[s.len() + 1int].components
            &&& t[s.len() as int].components == c
            &&& t[s.len() as int].id != t[s.len() + 1int].id
        }),
{
    let c = block_components(sheet, n);
    let t = spawned(spawned(s, c), c);
    assert(t.subrange(0, s.len() as int) =~= s);
}

} // verus!
