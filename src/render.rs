use vstd::prelude::*;

use crate::tiles::{TileInstance, TileProperties};

verus! {

/// Width of the texture atlas in pixels; one atlas cell is 8 pixels wide.
pub const TILESET_WIDTH: i32 = 128;

/// Height of the texture atlas in pixels; one atlas cell is 8 pixels high.
pub const TILESET_HEIGHT: i32 = 80;

/// A corner of a textured quad.
///
/// The screen runs from -1 to 1 on each axis. A position is given as a
/// number of tiles, `pos`, over the number of tiles from the centre of the
/// screen to its edge, `tile_span`: the corner lies at `pos[i] / tile_span[i]`.
/// Texture coordinates count whole atlas cells.
#[derive(Clone, Copy, Debug)]
pub struct Vertex {
    pub pos: [i32; 2],
    pub tile_span: [i32; 2],
    pub tex_coords: [i32; 2],
    pub animation_frames: u32,
}

/// The instance that draws tile `tile` at place (`x`, `y`) of a window of
/// `cam_width` x `cam_height` tiles.
pub open spec fn instance_of(
    tile: TileProperties,
    x: int,
    y: int,
    cam_width: i32,
    cam_height: i32,
) -> TileInstance {
    TileInstance {
        x: x as i32,
        y: y as i32,
        offset_x: tile.offset_x,
        offset_y: tile.offset_y,
        cam_width,
        cam_height,
        ts_coord_x: tile.ts_coord_x,
        ts_coord_y: tile.ts_coord_y,
        animation_frames: tile.animation_frames,
        width: tile.width,
        height: tile.height,
    }
}

/// Number of tiles along one side of the window: the window shows one tile
/// more than its size, to cover the part of a tile that scrolls into view.
pub open spec fn span(size: i32) -> int {
    if size < 0 {
        0
    } else {
        size + 1
    }
}

/// The window `[start_x, start_x + width] x [start_y, start_y + height]`
/// lies inside the world grid.
pub open spec fn window_in_world(
    world: Seq<Vec<TileProperties>>,
    start_x: i32,
    start_y: i32,
    width: i32,
    height: i32,
) -> bool {
    span(width) > 0 && span(height) > 0 ==> {
        &&& 0 <= start_x
        &&& 0 <= start_y
        &&& start_x + width < world.len()
        &&& forall|i: int|
            start_x <= i <= start_x + width ==> start_y + height < #[trigger] world[i]@.len()
    }
}

/// The instances of the window whose first tile is (`start_x`, `start_y`),
/// column by column: the `k`-th instance draws the tile at column
/// `k / (height + 1)` and row `k % (height + 1)` of the window.
pub fn gen_tile_instances(
    world: &Vec<Vec<TileProperties>>,
    start_x: i32,
    start_y: i32,
    width: i32,
    height: i32,
) -> (instances: Vec<TileInstance>)
    requires
        window_in_world(world@, start_x, start_y, width, height),
    ensures
        instances@.len() == span(width) * span(height),
        forall|k: int|
            0 <= k < instances@.len() ==> #[trigger] instances@[k] == instance_of(
                world@[start_x + k / span(height)]@[start_y + k % span(height)],
                k / span(height),
                k % span(height),
                width,
                height,
            ),
{
    let mut instances: Vec<TileInstance> = Vec::new();
    let cols: i64 = if width < 0 {
        0
    } else {
        width as i64 + 1
    };
    let rows: i64 = if height < 0 {
        0
    } else {
        height as i64 + 1
    };
    if cols == 0 || rows == 0 {
        assert(span(width) * span(height) == 0) by (nonlinear_arith)
            requires
                span(width) == 0 || span(height) == 0,
        ;
        return instances;
    }
    let mut i: i64 = 0;
    while i < cols
        invariant
            cols == span(width),
            rows == span(height),
            0 < rows,
            0 <= i <= cols,
            window_in_world(world@, start_x, start_y, width, height),
            instances@.len() == i * rows,
            forall|k: int|
                0 <= k < instances@.len() ==> #[trigger] instances@[k] == instance_of(
                    world@[start_x + k / (rows as int)]@[start_y + k % (rows as int)],
                    k / (rows as int),
                    k % (rows as int),
                    width,
                    height,
                ),
        decreases cols - i,
    {
        let column = &world[(start_x as i64 + i) as usize];
        let mut j: i64 = 0;
        while j < rows
            invariant
                cols == span(width),
                rows == span(height),
                0 < rows,
                0 <= i < cols,
                0 <= j <= rows,
                window_in_world(world@, start_x, start_y, width, height),
                *column == world@[start_x + i],
                instances@.len() == i * rows + j,
                forall|k: int|
                    0 <= k < instances@.len() ==> #[trigger] instances@[k] == instance_of(
                        world@[start_x + k / (rows as int)]@[start_y + k % (rows as int)],
                        k / (rows as int),
                        k % (rows as int),
                        width,
                        height,
                    ),
            decreases rows - j,
        {
            let tile = column[(start_y as i64 + j) as usize];
            proof {
                let k = i * rows + j;
                vstd::arithmetic::div_mod::lemma_fundamental_div_mod_converse(
                    k as int,
                    rows as int,
                    i as int,
                    j as int,
                );
            }
            instances.push(
                TileInstance {
                    x: i as i32,
                    y: j as i32,
                    offset_x: tile.offset_x,
                    offset_y: tile.offset_y,
                    cam_width: width,
                    cam_height: height,
                    ts_coord_x: tile.ts_coord_x,
                    ts_coord_y: tile.ts_coord_y,
                    animation_frames: tile.animation_frames,
                    width: tile.width,
                    height: tile.height,
                },
            );
            j = j + 1;
        }
        assert(instances@.len() == (i + 1) * rows) by (nonlinear_arith)
            requires
                instances@.len() == i * rows + rows,
        ;
        i = i + 1;
    }
    instances
}

} // verus!
