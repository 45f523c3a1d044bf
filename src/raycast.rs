use vstd::prelude::*;
use vstd::arithmetic::div_mod::{lemma_div_denominator, lemma_div_multiples_vanish};

use crate::components::{Camera, Transform};
use crate::map::TileMap;
use crate::world::{Entity, World};

verus! {

/// Size of the rendered viewport, in pixels.
#[derive(Clone, Copy, Debug, PartialEq, Eq, Structural)]
pub struct Viewport {
    pub width: u32,
    pub height: u32,
}

/// The cell `floor(num / den)` along an axis of `dim` cells, if it lies on it.
pub open spec fn cell_index(num: int, den: int, dim: int) -> Option<u32> {
    if num < 0 || num / den >= dim {
        None
    } else {
        Some((num / den) as u32)
    }
}

/// `2 * sw * tw` times the column coordinate, plus one half, of the world
/// point under pixel column `sx` of a viewport `sw` pixels wide, seen by a
/// camera at `cam_x` spanning `view_w` units, over `cols` columns of width `tw`.
pub open spec fn column_numerator(sx: int, sw: int, cam_x: int, view_w: int, tw: int, cols: int) -> int {
    2 * cam_x * sw + (2 * sx - sw) * view_w + sw * tw * (cols + 1)
}

/// `2 * sh * th` times the row coordinate, plus one half, of the world point
/// under pixel row `sy` (rows count downward on screen and on the map).
pub open spec fn row_numerator(sy: int, sh: int, cam_y: int, view_h: int, th: int, rows: int) -> int {
    sh * th * (rows + 1) - 2 * cam_y * sh - (sh - 2 * sy) * view_h
}

/// Pairs two cell indices into a cell.
pub open spec fn both(x: Option<u32>, y: Option<u32>) -> Option<(u32, u32)> {
    match (x, y) {
        (Some(a), Some(b)) => Some((a, b)),
        _ => None,
    }
}

/// The cell (column, row) of `map` whose square holds the world point under
/// pixel `cursor`, for a camera at `at` with projection `cam`. Cells are
/// squares centred on whole tile coordinates; the grid is centred on the
/// world origin. `None` for a cursor off the viewport or a point off the map.
pub open spec fn tile_under_cursor(
    cursor: (i64, i64),
    screen: Viewport,
    at: Transform,
    cam: Camera,
    map: TileMap,
) -> Option<(u32, u32)> {
    let (sx, sy) = cursor;
    if sx < 0 || sx >= screen.width || sy < 0 || sy >= screen.height {
        None
    } else {
        both(
            cell_index(
                column_numerator(sx as int, screen.width as int, at.x as int, cam.width as int, map.tile_width as int, map.width as int),
                2 * screen.width * map.tile_width,
                map.width as int,
            ),
            cell_index(
                row_numerator(sy as int, screen.height as int, at.y as int, cam.height as int, map.tile_height as int, map.height as int),
                2 * screen.height * map.tile_height,
                map.height as int,
            ),
        )
    }
}

/// The cell of `map` whose square holds the world point `(px, py)`.
pub open spec fn cell_at_point(px: int, py: int, map: TileMap) -> Option<(u32, u32)> {
    both(
        cell_index(2 * px + map.tile_width * (map.width + 1), 2 * map.tile_width, map.width as int),
        cell_index(map.tile_height * (map.height + 1) - 2 * py, 2 * map.tile_height, map.height as int),
    )
}

fn cell(num: i128, den: i128, dim: u32) -> (r: Option<u32>)
    requires
        den > 0,
    ensures
        r == cell_index(num as int, den as int, dim as int),
{
    if num < 0 {
        None
    } else {
        let q = num / den;
        if q >= dim as i128 {
            None
        } else {
            Some(q as u32)
        }
    }
}

/// The cell of `map` under pixel `cursor`, seen by a camera at `at` with
/// projection `cam`; `None` when the cursor is off the viewport or the point
/// off the map.
pub fn screen_to_tile(cursor: (i64, i64), screen: Viewport, at: Transform, cam: Camera, map: &TileMap) -> (r: Option<(u32, u32)>)
    requires
        map.wf(),
    ensures
        r == tile_under_cursor(cursor, screen, at, cam, *map),
        (cursor.0 < 0 || cursor.0 >= screen.width || cursor.1 < 0 || cursor.1 >= screen.height) ==> r is None,
{
    let (sx, sy) = cursor;
    if sx < 0 || sx >= screen.width as i64 || sy < 0 || sy >= screen.height as i64 {
        return None;
    }
    let sx = sx as i128;
    let sy = sy as i128;
    let sw = screen.width as i128;
    let sh = screen.height as i128;
    let cx = at.x as i128;
    let cy = at.y as i128;
    let vw = cam.width as i128;
    let vh = cam.height as i128;
    let tw = map.tile_width as i128;
    let th = map.tile_height as i128;
    let cols = map.width as i128;
    let rows = map.height as i128;
    let ghost lim: int = 0x1_0000_0000int;
    proof {
        assert(-0x1_0000_0000_0000_0000_0000_0000 <= 2 * cx * sw <= 0x1_0000_0000_0000_0000_0000_0000) by (nonlinear_arith)
            requires
                -0x8000_0000_0000_0000 <= cx < 0x8000_0000_0000_0000,
                0 < sw < lim,
                lim == 0x1_0000_0000,
        ;
        assert(-0x1_0000_0000_0000_0000_0000_0000 <= 2 * cy * sh <= 0x1_0000_0000_0000_0000_0000_0000) by (nonlinear_arith)
            requires
                -0x8000_0000_0000_0000 <= cy < 0x8000_0000_0000_0000,
                0 < sh < lim,
                lim == 0x1_0000_0000,
        ;
        assert(-0x1_0000_0000_0000_0000 <= (2 * sx - sw) * vw <= 0x4_0000_0000_0000_0000) by (nonlinear_arith)
            requires
                0 <= sx < sw < lim,
                0 <= vw < lim,
                lim == 0x1_0000_0000,
        ;
        assert(-0x1_0000_0000_0000_0000 <= (sh - 2 * sy) * vh <= 0x4_0000_0000_0000_0000) by (nonlinear_arith)
            requires
                0 <= sy < sh < lim,
                0 <= vh < lim,
                lim == 0x1_0000_0000,
        ;
        assert(0 < sw * tw < 0x1_0000_0000_0000_0000 && sw * tw * (cols + 1) <= 0x2_0000_0000_0000_0000_0000_0000 && 0 < 2 * sw * tw && 2 * sw * tw <= 0x2_0000_0000_0000_0000) by (nonlinear_arith)
            requires
                0 < sw < lim,
                0 < tw < lim,
                0 < cols < lim,
                lim == 0x1_0000_0000,
        ;
        assert(0 < sh * th < 0x1_0000_0000_0000_0000 && sh * th * (rows + 1) <= 0x2_0000_0000_0000_0000_0000_0000 && 0 < 2 * sh * th && 2 * sh * th <= 0x2_0000_0000_0000_0000) by (nonlinear_arith)
            requires
                0 < sh < lim,
                0 < th < lim,
                0 < rows < lim,
                lim == 0x1_0000_0000,
        ;
    }
    let col_num = 2 * cx * sw + (2 * sx - sw) * vw + sw * tw * (cols + 1);
    let row_num = sh * th * (rows + 1) - 2 * cy * sh - (sh - 2 * sy) * vh;
    let x = cell(col_num, 2 * sw * tw, map.width);
    let y = cell(row_num, 2 * sh * th, map.height);
    match (x, y) {
        (Some(a), Some(b)) => Some((a, b)),
        _ => None,
    }
}

proof fn lemma_cell_cancel(k: int, a: int, b: int, dim: int)
    requires
        k > 0,
        b > 0,
    ensures
        cell_index(k * a, k * b, dim) == cell_index(a, b, dim),
{
    if a < 0 {
        assert(k * a < 0) by (nonlinear_arith)
            requires
                k > 0,
                a < 0,
        ;
    } else {
        assert(k * a >= 0) by (nonlinear_arith)
            requires
                k > 0,
                a >= 0,
        ;
        lemma_div_denominator(k * a, k, b);
        lemma_div_multiples_vanish(a, k);
    }
}

/// With an axis-aligned camera, the cursor at the centre pixel of a viewport
/// of even width and height hits the cell that holds the camera's own
/// position.
pub proof fn lemma_centre_cursor_hits_camera_cell(screen: Viewport, at: Transform, cam: Camera, map: TileMap)
    requires
        screen.width > 0,
        screen.height > 0,
        screen.width % 2 == 0,
        screen.height % 2 == 0,
        map.wf(),
    ensures
        tile_under_cursor(((screen.width / 2) as i64, (screen.height / 2) as i64), screen, at, cam, map)
            == cell_at_point(at.x as int, at.y as int, map),
{
    let sw = screen.width as int;
    let sh = screen.height as int;
    let tw = map.tile_width as int;
    let th = map.tile_height as int;
    let a = 2 * at.x + tw * (map.width + 1);
    let b = th * (map.height + 1) - 2 * at.y;
    assert(column_numerator(sw / 2, sw, at.x as int, cam.width as int, tw, map.width as int) == sw * a) by (nonlinear_arith)
        requires
            2 * (sw / 2) == sw,
            a == 2 * at.x + tw * (map.width + 1),
    ;
    assert(row_numerator(sh / 2, sh, at.y as int, cam.height as int, th, map.height as int) == sh * b) by (nonlinear_arith)
        requires
            2 * (sh / 2) == sh,
            b == th * (map.height + 1) - 2 * at.y,
    ;
    assert(2 * sw * tw == sw * (2 * tw)) by (nonlinear_arith);
    assert(2 * sh * th == sh * (2 * th)) by (nonlinear_arith);
    lemma_cell_cancel(sw, a, 2 * tw, map.width as int);
    lemma_cell_cancel(sh, b, 2 * th, map.height as int);
}

/// Whether position `i` holds the first entity with both a camera and a transform.
pub open spec fn is_first_camera(s: Seq<Entity>, i: int) -> bool {
    &&& 0 <= i < s.len()
    &&& s[i].components.camera is Some
    &&& s[i].components.transform is Some
    &&& forall|k: int|
        0 <= k < i ==> !((#[trigger] s[k]).components.camera is Some && s[k].components.transform is Some)
}

/// Whether position `i` holds the first entity with a tile map.
pub open spec fn is_first_map(s: Seq<Entity>, i: int) -> bool {
    &&& 0 <= i < s.len()
    &&& s[i].components.tile_map is Some
    &&& forall|k: int| 0 <= k < i ==> !((#[trigger] s[k]).components.tile_map is Some)
}

/// Position of the active camera, if any.
pub open spec fn first_camera(s: Seq<Entity>) -> Option<int> {
    if exists|i: int| is_first_camera(s, i) {
        Some(choose|i: int| is_first_camera(s, i))
    } else {
        None
    }
}

/// Position of the tile map, if any.
pub open spec fn first_map(s: Seq<Entity>) -> Option<int> {
    if exists|i: int| is_first_map(s, i) {
        Some(choose|i: int| is_first_map(s, i))
    } else {
        None
    }
}

/// The tile under `cursor` in the store `s`: seen by its first camera, on
/// its first tile map. `None` without a cursor, a camera or a map.
pub open spec fn hovered_tile(s: Seq<Entity>, cursor: Option<(i64, i64)>, screen: Viewport) -> Option<(u32, u32)> {
    match (cursor, first_camera(s), first_map(s)) {
        (Some(c), Some(i), Some(j)) => tile_under_cursor(
            c,
            screen,
            s[i].components.transform->0,
            s[i].components.camera->0,
            s[j].components.tile_map->0,
        ),
        _ => None,
    }
}

fn find_camera(world: &World) -> (r: Option<usize>)
    requires
        world.wf(),
    ensures
        r == (match first_camera(world@) {
            Some(i) => Some(i as usize),
            None => None,
        }),
        r matches Some(i) ==> is_first_camera(world@, i as int),
{
    let n = world.len();
    let mut i: usize = 0;
    while i < n
        invariant
            n == world@.len(),
            i <= n,
            forall|k: int|
                0 <= k < i ==> !((#[trigger] world@[k]).components.camera is Some
                    && world@[k].components.transform is Some),
        decreases n - i,
    {
        let e = world.entity(i);
        if e.components.camera.is_some() && e.components.transform.is_some() {
            assert(is_first_camera(world@, i as int));
            let ghost j = choose|j: int| is_first_camera(world@, j);
            assert(j == i) by {
                if j < i {
                    assert(!(world@[j].components.camera is Some && world@[j].components.transform is Some));
                } else if j > i {
                    assert(!(world@[i as int].components.camera is Some && world@[i as int].components.transform is Some));
                }
            }
            return Some(i);
        }
        i = i + 1;
    }
    assert(!exists|j: int| is_first_camera(world@, j));
    None
}

fn find_map(world: &World) -> (r: Option<usize>)
    requires
        world.wf(),
    ensures
        r == (match first_map(world@) {
            Some(i) => Some(i as usize),
            None => None,
        }),
        r matches Some(i) ==> is_first_map(world@, i as int),
{
    let n = world.len();
    let mut i: usize = 0;
    while i < n
        invariant
            n == world@.len(),
            i <= n,
            forall|k: int| 0 <= k < i ==> !((#[trigger] world@[k]).components.tile_map is Some),
        decreases n - i,
    {
        if world.entity(i).components.tile_map.is_some() {
            assert(is_first_map(world@, i as int));
            let ghost j = choose|j: int| is_first_map(world@, j);
            assert(j == i) by {
                if j < i {
                    assert(!(world@[j].components.tile_map is Some));
                } else if j > i {
                    assert(!(world@[i as int].components.tile_map is Some));
                }
            }
            return Some(i);
        }
        i = i + 1;
    }
    assert(!exists|j: int| is_first_map(world@, j));
    None
}

/// Resolves which tile, if any, lies under the mouse cursor.
pub struct MouseRaycastSystem;

impl MouseRaycastSystem {
    /// Runs one tick: the tile under `cursor` (in pixels of `screen`), or
    /// `None` when there is no cursor, no camera, no map, or the cursor is
    /// off the viewport or over no cell.
    pub fn run(&self, world: &World, cursor: Option<(i64, i64)>, screen: Viewport) -> (r: Option<(u32, u32)>)
        requires
            world.wf(),
        ensures
            r == hovered_tile(world@, cursor, screen),
            cursor is None ==> r is None,
            (cursor matches Some(c) && (c.0 < 0 || c.0 >= screen.width || c.1 < 0 || c.1 >= screen.height))
                ==> r is None,
    {
        let c = match cursor {
            Some(c) => c,
            None => {
                return None;
            },
        };
        let i = match find_camera(world) {
            Some(i) => i,
            None => {
                return None;
            },
        };
        let j = match find_map(world) {
            Some(j) => j,
            None => {
                return None;
            },
        };
        let cam_entity = world.entity(i);
        let map_entity = world.entity(j);
        match (&cam_entity.components.transform, &cam_entity.components.camera, &map_entity.components.tile_map) {
            (Some(at), Some(cam), Some(map)) => {
                assert(world@[j as int].components.wf());
                screen_to_tile(c, screen, *at, *cam, map)
            },
            _ => None,
        }
    }
}

} // verus!
