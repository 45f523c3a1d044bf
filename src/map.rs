use vstd::prelude::*;

use crate::components::SpriteSheetHandle;
use crate::world::{spawned, Components, World};

verus! {

/// Number of cells along each side of the tile map.
pub const BLOCK_SIZE: u32 = 32;

/// Side of one tile, in world units.
pub const TILE_SIZE: u32 = 8;

/// Sprite that every cell of a new map shows.
pub const GROUND_SPRITE: usize = 0;

/// One cell of the tile map: the sprite it shows, if any.
#[derive(Clone, Copy, Debug, PartialEq, Eq, Structural)]
pub struct BlockTile {
    pub sprite: Option<usize>,
}

/// A grid of `width` by `height` cells, each `tile_width` by `tile_height`
/// world units, stored row by row. The grid is centred on the world origin;
/// row 0 is the top row.
pub struct TileMap {
    pub width: u32,
    pub height: u32,
    pub tile_width: u32,
    pub tile_height: u32,
    pub sprite_sheet: Option<SpriteSheetHandle>,
    pub tiles: Vec<BlockTile>,
}

impl TileMap {
    pub open spec fn wf(&self) -> bool {
        &&& self.width > 0
        &&& self.height > 0
        &&& self.tile_width > 0
        &&& self.tile_height > 0
        &&& self.tiles@.len() == self.width * self.height
    }

    /// A map of the given size whose cells all show sprite `sprite`.
    pub fn new(
        width: u32,
        height: u32,
        tile_width: u32,
        tile_height: u32,
        sprite_sheet: Option<SpriteSheetHandle>,
        sprite: usize,
    ) -> (m: TileMap)
        requires
            width > 0,
            height > 0,
            tile_width > 0,
            tile_height > 0,
            width * height <= usize::MAX,
        ensures
            m.wf(),
            m.width == width,
            m.height == height,
            m.tile_width == tile_width,
            m.tile_height == tile_height,
            m.sprite_sheet == sprite_sheet,
            forall|k: int| 0 <= k < m.tiles@.len() ==> m.tiles@[k] == (BlockTile { sprite: Some(sprite) }),
    {
        let n: usize = (width as usize) * (height as usize);
        let mut tiles: Vec<BlockTile> = Vec::new();
        let mut k: usize = 0;
        while k < n
            invariant
                k <= n,
                tiles@.len() == k,
                forall|j: int| 0 <= j < k ==> tiles@[j] == (BlockTile { sprite: Some(sprite) }),
            decreases n - k,
        {
            tiles.push(BlockTile { sprite: Some(sprite) });
            k = k + 1;
        }
        TileMap { width, height, tile_width, tile_height, sprite_sheet, tiles }
    }

    /// The cell at column `x`, row `y`, if it lies on the map.
    pub fn tile(&self, x: u32, y: u32) -> (t: Option<BlockTile>)
        requires
            self.wf(),
        ensures
            t == (if x < self.width && y < self.height {
                Some(self.tiles@[y * self.width + x])
            } else {
                None
            }),
    {
        if x < self.width && y < self.height {
            let n = self.tiles.len();
            proof {
                assert(y * self.width + x < self.width * self.height) by (nonlinear_arith)
                    requires
                        x < self.width,
                        y < self.height,
                ;
            }
            assert((y as usize) * (self.width as usize) == y * self.width);
            Some(self.tiles[(y as usize) * (self.width as usize) + (x as usize)])
        } else {
            None
        }
    }
}

/// Whether `m` is the start-up map: `BLOCK_SIZE` cells square, each cell
/// `TILE_SIZE` square and showing `GROUND_SPRITE` of `sheet`.
pub open spec fn is_start_map(m: TileMap, sheet: SpriteSheetHandle) -> bool {
    &&& m.wf()
    &&& m.width == BLOCK_SIZE
    &&& m.height == BLOCK_SIZE
    &&& m.tiles@.len() == BLOCK_SIZE * BLOCK_SIZE
    &&& m.tile_width == TILE_SIZE
    &&& m.tile_height == TILE_SIZE
    &&& m.sprite_sheet == Some(sheet)
    &&& forall|k: int| 0 <= k < m.tiles@.len() ==> m.tiles@[k] == (BlockTile { sprite: Some(GROUND_SPRITE) })
}

/// Creates the map entity, a `BLOCK_SIZE` by `BLOCK_SIZE` grid drawn from
/// `sprite_sheet`, and returns its identifier.
pub fn initialise_map(world: &mut World, sprite_sheet: SpriteSheetHandle) -> (id: u64)
    requires
        old(world).wf(),
    ensures
        final(world).wf(),
        id == old(world)@.len(),
        final(world)@.len() == old(world)@.len() + 1,
        final(world)@.subrange(0, old(world)@.len() as int) == old(world)@,
        final(world)@[id as int].id == id,
        final(world)@[id as int].components.tile_map matches Some(m) && is_start_map(m, sprite_sheet),
        final(world)@[id as int].components.sprite is None,
        final(world)@[id as int].components.block is None,
        final(world)@[id as int].components.transform is None,
        final(world)@[id as int].components.camera is None,
{
    let map = TileMap::new(BLOCK_SIZE, BLOCK_SIZE, TILE_SIZE, TILE_SIZE, Some(sprite_sheet), GROUND_SPRITE);
    let ghost before = world@;
    let id = world.spawn(
        Components { sprite: None, block: None, transform: None, camera: None, tile_map: Some(map) },
    );
    assert(world@.subrange(0, before.len() as int) =~= before);
    id
}

} // verus!
