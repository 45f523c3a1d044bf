use tile_camera::block::{initialise_blocks, Block, ARENA_HEIGHT, BLOCK_HEIGHT, BLOCK_WIDTH};
use tile_camera::camera::{initialise_camera, CameraSystem};
use tile_camera::components::{Camera, SpriteRender, SpriteSheetHandle, Transform};
use tile_camera::game::GameState;
use tile_camera::map::{initialise_map, BlockTile, TileMap, BLOCK_SIZE, TILE_SIZE};
use tile_camera::raycast::{screen_to_tile, MouseRaycastSystem, Viewport};
use tile_camera::world::{Components, World};

fn sheet(id: u64) -> SpriteSheetHandle {
    SpriteSheetHandle { id }
}

fn camera_total(world: &World) -> usize {
    let mut n = 0;
    for i in 0..world.len() {
        if world.entity(i).components.camera.is_some() {
            n += 1;
        }
    }
    n
}

fn scene() -> World {
    let mut world = World::new();
    GameState.on_start(&mut world, sheet(1), sheet(2));
    world
}

#[test]
fn block_has_fixed_size() {
    let b = Block::new();
    assert_eq!(b.width, 4);
    assert_eq!(b.height, 16);
    assert_eq!(b.width, BLOCK_WIDTH);
    assert_eq!(b.height, BLOCK_HEIGHT);
}

#[test]
fn block_entity_geometry_and_place() {
    for (h, n) in [(0u64, 0usize), (7, 3), (u64::MAX, usize::MAX)] {
        let mut world = World::new();
        let id = initialise_blocks(&mut world, sheet(h), n);
        assert_eq!(id, 0);
        assert_eq!(world.len(), 1);
        let e = world.entity(0);
        assert_eq!(e.id, 0);
        assert_eq!(e.components.block, Some(Block { width: 4, height: 16 }));
        assert_eq!(e.components.transform, Some(Transform { x: 2, y: 50, z: 0 }));
        assert_eq!(ARENA_HEIGHT, 100);
        assert_eq!(
            e.components.sprite,
            Some(SpriteRender { sprite_sheet: sheet(h), sprite_number: n })
        );
        assert!(e.components.camera.is_none());
        assert!(e.components.tile_map.is_none());
    }
}

#[test]
fn blocks_twice_are_two_entities() {
    let mut world = World::new();
    let a = initialise_blocks(&mut world, sheet(3), 5);
    let b = initialise_blocks(&mut world, sheet(3), 5);
    assert_eq!(world.len(), 2);
    assert_ne!(a, b);
    let ea = world.entity(a as usize);
    let eb = world.entity(b as usize);
    assert_ne!(ea.id, eb.id);
    assert_eq!(ea.components.block, eb.components.block);
    assert_eq!(ea.components.transform, eb.components.transform);
    assert_eq!(ea.components.sprite, eb.components.sprite);
}

#[test]
fn map_is_thirty_two_square() {
    for h in [0u64, 9, u64::MAX] {
        let mut world = World::new();
        let id = initialise_map(&mut world, sheet(h));
        let m = world.entity(id as usize).components.tile_map.as_ref().unwrap();
        assert_eq!(m.width, 32);
        assert_eq!(m.height, 32);
        assert_eq!(BLOCK_SIZE, 32);
        assert_eq!(m.tiles.len(), 32 * 32);
        assert_eq!(m.tile_width, TILE_SIZE);
        assert_eq!(m.sprite_sheet, Some(sheet(h)));
        assert!(m.tiles.iter().all(|t| *t == BlockTile { sprite: Some(0) }));
    }
}

#[test]
fn tile_lookup_in_and_out_of_bounds() {
    let m = TileMap::new(3, 2, 4, 4, None, 6);
    assert_eq!(m.tiles.len(), 6);
    assert_eq!(m.tile(2, 1), Some(BlockTile { sprite: Some(6) }));
    assert_eq!(m.tile(3, 0), None);
    assert_eq!(m.tile(0, 2), None);
}

#[test]
fn camera_ticks_keep_one_camera() {
    let mut world = scene();
    assert_eq!(camera_total(&world), 1);
    let before = world.len();
    for _ in 0..50 {
        CameraSystem.run(&mut world);
        assert_eq!(world.len(), before);
        assert_eq!(camera_total(&world), 1);
    }
    let cam = world.entity(1);
    assert_eq!(cam.id, 1);
    assert_eq!(cam.components.transform, Some(Transform { x: 50, y: 50, z: 1 }));
}

#[test]
fn camera_tick_moves_camera_home_only() {
    let mut world = World::new();
    initialise_blocks(&mut world, sheet(1), 0);
    initialise_camera(&mut world);
    world.set_transform(1, Transform { x: -9, y: 3, z: 1 });
    CameraSystem.run(&mut world);
    assert_eq!(world.entity(1).components.transform, Some(Transform { x: 50, y: 50, z: 1 }));
    assert_eq!(world.entity(0).components.transform, Some(Transform { x: 2, y: 50, z: 0 }));
}

#[test]
fn start_places_block_camera_map() {
    let world = scene();
    assert_eq!(world.len(), 3);
    assert!(world.entity(0).components.block.is_some());
    assert_eq!(world.entity(1).components.camera, Some(Camera { width: 100, height: 100 }));
    assert!(world.entity(2).components.tile_map.is_some());
}

#[test]
fn raycast_centre_hits_camera_cell() {
    let world = scene();
    let r = MouseRaycastSystem.run(&world, Some((400, 300)), Viewport { width: 800, height: 600 });
    // camera at (50, 50): column 50 / 8 + 16 = 22.25, row 16 - 50 / 8 = 9.75
    assert_eq!(r, Some((22, 10)));
}

#[test]
fn raycast_outside_viewport_is_none() {
    let world = scene();
    let screen = Viewport { width: 800, height: 600 };
    for c in [(-1, 10), (800, 10), (10, -1), (10, 600), (i64::MIN, i64::MAX)] {
        assert_eq!(MouseRaycastSystem.run(&world, Some(c), screen), None);
    }
    assert_eq!(MouseRaycastSystem.run(&world, None, screen), None);
    assert_eq!(MouseRaycastSystem.run(&world, Some((0, 0)), Viewport { width: 0, height: 0 }), None);
}

#[test]
fn raycast_corners() {
    let world = scene();
    let screen = Viewport { width: 100, height: 100 };
    // one pixel per world unit: top-left pixel is world (0, 100)
    assert_eq!(MouseRaycastSystem.run(&world, Some((0, 0)), screen), Some((16, 4)));
    // bottom-right pixel is world (99, 1)
    assert_eq!(MouseRaycastSystem.run(&world, Some((99, 99)), screen), Some((28, 16)));
}

#[test]
fn raycast_needs_camera_and_map() {
    let screen = Viewport { width: 800, height: 600 };
    let mut world = World::new();
    initialise_map(&mut world, sheet(2));
    assert_eq!(MouseRaycastSystem.run(&world, Some((400, 300)), screen), None);
    let mut world = World::new();
    initialise_camera(&mut world);
    assert_eq!(MouseRaycastSystem.run(&world, Some((400, 300)), screen), None);
}

#[test]
fn screen_to_tile_off_map() {
    let m = TileMap::new(32, 32, 8, 8, None, 0);
    let screen = Viewport { width: 800, height: 600 };
    let cam = Camera { width: 100, height: 100 };
    // far to the right of the map
    assert_eq!(screen_to_tile((400, 300), screen, Transform { x: 1000, y: 0, z: 1 }, cam, &m), None);
    // far to the left
    assert_eq!(screen_to_tile((400, 300), screen, Transform { x: -1000, y: 0, z: 1 }, cam, &m), None);
    // the world origin is the centre of cell (16, 16)
    assert_eq!(screen_to_tile((400, 300), screen, Transform { x: 0, y: 0, z: 1 }, cam, &m), Some((16, 16)));
    // extreme camera positions do not overflow
    assert_eq!(screen_to_tile((0, 0), screen, Transform { x: i64::MAX, y: i64::MIN, z: 0 }, cam, &m), None);
}

#[test]
fn spawn_gives_sequential_ids() {
    let mut world = World::new();
    let empty = || Components { sprite: None, block: None, transform: None, camera: None, tile_map: None };
    assert_eq!(world.spawn(empty()), 0);
    assert_eq!(world.spawn(empty()), 1);
    assert_eq!(world.entity(1).id, 1);
}
