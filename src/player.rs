use vstd::prelude::*;

use crate::render::Vertex;
use crate::tiles::{ItemKind, ItemProperties, TileProperties};

verus! {

/// Positions and speeds are fixed-point numbers: this many units make one
/// tile.
pub const SUBTILES: i64 = 1000;

/// Half a tile, in position units.
pub const HALF_TILE: i64 = 500;

/// Speed added per tick, in position units, while a direction key is held.
pub const ACCELERATION: i64 = 20;

/// Rows between the sprite's anchor and the cell under the player's feet.
pub const FEET_ROWS: i64 = 2;

/// Largest position, in position units, that a player may hold (over four
/// billion tiles, far beyond any grid with `i32` dimensions).
pub const MAX_POSITION: i64 = 0x400_0000_0000;

/// Largest speed, in position units per tick, that a player may hold.
pub const MAX_SPEED: i64 = 0x10_0000;

/// Largest grid side, in cells.
pub const MAX_GRID_SIDE: usize = 0x7fff_ffff;

/// Ticks in one time unit: each tick advances the clock by a hundredth.
pub const TICKS_PER_TIME_UNIT: i64 = 100;

/// Length of one day, in ticks (36 time units).
pub const DAY_LENGTH: i64 = 3600;

/// Angles are counted in tenths of a degree: this many make a full turn.
pub const FULL_TURN: i64 = 3600;

/// Half a turn, in tenths of a degree.
pub const HALF_TURN: i64 = 1800;

/// Light intensities are counted in thousandths: this is full light.
pub const FULL_LIGHT: i32 = 1000;

/// Health that a new player starts with and can hold at most.
pub const START_HEALTH: u32 = 6;

/// How many sticks a new player carries.
pub const START_STICKS: usize = 13;

/// The ways the game can be paused.
#[derive(Clone, Copy, Debug, PartialEq, Eq, Structural)]
pub enum PauseType {
    Pause,
    Inventory,
}

/// The four movement keys.
#[derive(Clone, Copy, Debug, PartialEq, Eq, Structural)]
pub enum MoveKey {
    Up,
    Left,
    Down,
    Right,
}

/// Which movement keys are held down.
#[derive(Clone, Copy, Debug, PartialEq, Eq, Structural)]
pub struct HeldKeys {
    pub up: bool,
    pub left: bool,
    pub down: bool,
    pub right: bool,
}

/// What the renderer reads of the player each frame.
///
/// `translate_vector` is the part of the position past the last whole tile,
/// in position units, for smooth scrolling; `time` counts ticks;
/// `light_intensity` holds the red, green and blue light in thousandths.
#[derive(Clone, Copy, Debug)]
pub struct Uniforms {
    pub translate_vector: [i64; 2],
    pub is_swimming: i32,
    pub time: i64,
    pub light_intensity: [i32; 3],
}

/// The record that a save holds.
#[derive(Clone, Copy, Debug, PartialEq, Eq, Structural)]
pub struct GameData {
    pub x: i64,
    pub y: i64,
    pub health: u32,
    pub max_health: u32,
    pub seed: u32,
    pub time: i64,
}

/// Why a save record was not loaded.
#[derive(Clone, Copy, Debug, PartialEq, Eq, Structural)]
pub enum LoadError {
    /// A coordinate is negative or beyond `MAX_POSITION`.
    PositionOutOfRange,
}

/// The player's state: position and speed in position units (see
/// `SUBTILES`), the size of the camera window in tiles, and the session's
/// stats.
pub struct Player<'a> {
    pub keys_down: HeldKeys,
    pub width: i32,
    pub height: i32,
    pub x: i64,
    pub y: i64,
    pub x_speed: i64,
    pub y_speed: i64,
    pub uniforms: Uniforms,
    pub is_swimming: bool,
    pub health: u32,
    pub max_health: u32,
    pub paused: bool,
    pub pause_type: PauseType,
    pub seed: u32,
    pub world_name: String,
    pub inventory: Vec<ItemProperties<'a>>,
}

// ---------------------------------------------------------------------------
// The model of one tick

pub open spec fn abs(v: int) -> int {
    if v < 0 {
        -v
    } else {
        v
    }
}

pub open spec fn clamp_low(v: int) -> int {
    if v < 0 {
        0
    } else {
        v
    }
}

/// Speed after the drag of one tick: divided by 1.8 in water and by 1.2 on
/// land, rounded toward zero.
pub open spec fn damp(v: int, swimming: bool) -> int {
    let d = if swimming {
        9int
    } else {
        6int
    };
    if v >= 0 {
        v * 5 / d
    } else {
        -((-v) * 5 / d)
    }
}

/// Speed after one tick: drag, then a push for each of the two opposing
/// keys that is held.
pub open spec fn next_speed(v: int, swimming: bool, plus: bool, minus: bool) -> int {
    damp(v, swimming) + (if plus {
        ACCELERATION as int
    } else {
        0
    }) - (if minus {
        ACCELERATION as int
    } else {
        0
    })
}

/// The whole cell that a position lies in; negative positions count as
/// cell 0.
pub open spec fn cell_of(v: int) -> int {
    if v < 0 {
        0
    } else {
        v / SUBTILES as int
    }
}

/// Half a camera size, rounded toward zero.
pub open spec fn half(size: i32) -> int {
    if size >= 0 {
        size / 2
    } else {
        -((-size) / 2)
    }
}

/// Grid column under the player's feet: the cell nearest the horizontal
/// position, shifted to the centre of the camera window.
pub open spec fn feet_col(x: int, width: i32) -> int {
    cell_of(x + HALF_TILE) + half(width)
}

/// Grid row under the player's feet: the cell of the vertical position,
/// shifted to the centre of the camera window and down to the feet.
pub open spec fn feet_row(y: int, height: i32) -> int {
    cell_of(y) + half(height) + FEET_ROWS
}

/// The tile at a cell, if the cell lies in the grid.
pub open spec fn tile_at(world: Seq<Vec<TileProperties>>, col: int, row: int) -> Option<
    TileProperties,
> {
    if 0 <= col < world.len() && 0 <= row < world[col]@.len() {
        Some(world[col]@[row])
    } else {
        None
    }
}

/// A cell that cannot be entered: a solid tile, or a cell off the grid.
pub open spec fn blocked(world: Seq<Vec<TileProperties>>, col: int, row: int) -> bool {
    match tile_at(world, col, row) {
        Some(t) => t.solid,
        None => true,
    }
}

/// A cell that submerges the player: a swimmable tile of the grid.
pub open spec fn swimmable_at(world: Seq<Vec<TileProperties>>, col: int, row: int) -> bool {
    match tile_at(world, col, row) {
        Some(t) => t.swimmable,
        None => false,
    }
}

/// A grid whose sides fit in an `i32`.
pub open spec fn world_fits(world: Seq<Vec<TileProperties>>) -> bool {
    &&& world.len() <= MAX_GRID_SIDE
    &&& forall|c: int| 0 <= c < world.len() ==> #[trigger] world[c]@.len() <= MAX_GRID_SIDE
}

impl<'a> Player<'a> {
    /// Position inside `[0, MAX_POSITION]`, speed inside
    /// `[-MAX_SPEED, MAX_SPEED]`.
    pub open spec fn wf(&self) -> bool {
        &&& 0 <= self.x <= MAX_POSITION
        &&& 0 <= self.y <= MAX_POSITION
        &&& abs(self.x_speed as int) <= MAX_SPEED
        &&& abs(self.y_speed as int) <= MAX_SPEED
    }

    pub open spec fn vx(&self) -> int {
        next_speed(
            self.x_speed as int,
            self.is_swimming,
            self.keys_down.right,
            self.keys_down.left,
        )
    }

    pub open spec fn vy(&self) -> int {
        next_speed(self.y_speed as int, self.is_swimming, self.keys_down.down, self.keys_down.up)
    }

    /// Horizontal position after the x step: moved by the new speed, or
    /// left where it was if the feet would land on a blocked cell.
    pub open spec fn x_after(&self, world: Seq<Vec<TileProperties>>, width: i32, height: i32) -> int {
        let tx = self.x + self.vx();
        if blocked(world, feet_col(tx, width), feet_row(self.y as int, height)) {
            self.x as int
        } else {
            tx
        }
    }

    /// Vertical position after the y step, taken from the x already
    /// resolved.
    pub open spec fn y_after(&self, world: Seq<Vec<TileProperties>>, width: i32, height: i32) -> int {
        let x1 = self.x_after(world, width, height);
        let ty = self.y + self.vy();
        if blocked(world, feet_col(x1, width), feet_row(ty, height)) {
            self.y as int
        } else {
            ty
        }
    }

    /// `next` is `self` after one tick of movement with a camera window of
    /// `width` x `height` tiles.
    pub open spec fn moved_to(
        &self,
        next: &Player,
        world: Seq<Vec<TileProperties>>,
        width: i32,
        height: i32,
    ) -> bool {
        let x1 = self.x_after(world, width, height);
        let y1 = self.y_after(world, width, height);
        &&& next.x_speed == self.vx()
        &&& next.y_speed == self.vy()
        &&& next.is_swimming == swimmable_at(
            world,
            feet_col(x1, width),
            feet_row(y1, height),
        )
        &&& next.x == clamp_low(x1)
        &&& next.y == clamp_low(y1)
    }

    /// The session's stats (health, pause state, world, inventory) are
    /// equal in both.
    pub open spec fn same_stats(&self, other: &Player) -> bool {
        &&& other.health == self.health
        &&& other.max_health == self.max_health
        &&& other.paused == self.paused
        &&& other.pause_type == self.pause_type
        &&& other.seed == self.seed
        &&& other.world_name@ == self.world_name@
        &&& other.inventory@ == self.inventory@
    }

    /// The fields that movement leaves alone are equal in both.
    pub open spec fn same_session(&self, other: &Player) -> bool {
        &&& other.keys_down == self.keys_down
        &&& self.same_stats(other)
    }

    pub open spec fn same_motion(&self, other: &Player) -> bool {
        &&& other.x == self.x
        &&& other.y == self.y
        &&& other.x_speed == self.x_speed
        &&& other.y_speed == self.y_speed
        &&& other.is_swimming == self.is_swimming
    }
}

// ---------------------------------------------------------------------------
// Day light

/// An angle in tenths of a degree, in `[0, FULL_TURN)`, that a time of day
/// stands at.
pub open spec fn phase_of(time: int, day_length: int) -> int {
    (time % day_length) * FULL_TURN / day_length
}

/// Bhaskara's rational approximation of the sine on `[0, HALF_TURN]`, in
/// thousandths (off by less than two thousandths).
pub open spec fn arch(a: int) -> int {
    let q = a * (HALF_TURN - a);
    4000 * q / (4_050_000 - q)
}

/// The sine of an angle in `[0, FULL_TURN)`, in thousandths.
pub open spec fn sine_milli(a: int) -> int {
    if a < HALF_TURN {
        arch(a)
    } else {
        -arch(a - HALF_TURN)
    }
}

/// `v` cut to `[low, FULL_LIGHT]`.
pub open spec fn clip_light(v: int, low: int) -> int {
    if v > FULL_LIGHT {
        FULL_LIGHT as int
    } else if v < low {
        low
    } else {
        v
    }
}

/// The red, green and blue light at a time: the sine of the time of day,
/// lifted by 1, 0.9 and 0.8 and cut to at least 0.03, 0.06 and 0.1, so that
/// red rises first at sunrise and blue last.
pub open spec fn light_at(time: int, day_length: int) -> Seq<int> {
    let s = sine_milli(phase_of(time, day_length));
    seq![clip_light(s + 1000, 30), clip_light(s + 900, 60), clip_light(s + 800, 100)]
}

fn arch_of(a: i64) -> (r: i64)
    requires
        0 <= a <= HALF_TURN,
    ensures
        r == arch(a as int),
        0 <= r <= 1000,
{
    assert(0 <= a * (HALF_TURN - a) <= 810_000) by (nonlinear_arith)
        requires
            0 <= a <= HALF_TURN,
    ;
    let q = a * (HALF_TURN - a);
    let r = 4000 * q / (4_050_000 - q);
    proof {
        let n = 4000 * q;
        let d = 4_050_000 - q;
        vstd::arithmetic::div_mod::lemma_fundamental_div_mod(n as int, d as int);
        assert(0 <= n / d);
        assert(n / d <= 1000) by (nonlinear_arith)
            requires
                d * (n / d) <= n,
                n <= 1000 * d,
                d > 0,
        ;
    }
    r
}

fn phase(time: i64, day_length: i64) -> (r: i64)
    requires
        day_length > 0,
    ensures
        r == phase_of(time as int, day_length as int),
        0 <= r < FULL_TURN,
{
    let m = match time.checked_rem_euclid(day_length) {
        Some(m) => m,
        None => 0,
    };
    assert(m == time % day_length);
    let r = (m as i128 * FULL_TURN as i128) / day_length as i128;
    proof {
        let d = day_length as int;
        let p = m * FULL_TURN;
        vstd::arithmetic::div_mod::lemma_fundamental_div_mod(p, d);
        assert(0 <= p / d);
        assert(d * (p / d) <= p);
        assert(p < d * FULL_TURN) by (nonlinear_arith)
            requires
                0 <= m < d,
                p == m * FULL_TURN,
        ;
        assert(p / d < FULL_TURN) by (nonlinear_arith)
            requires
                d * (p / d) <= p,
                p < d * FULL_TURN,
                d > 0,
        ;
    }
    r as i64
}

/// The red, green and blue light, in thousandths, at `time` ticks into a
/// cycle of `day_length` ticks.
pub fn daylight(time: i64, day_length: i64) -> (r: [i32; 3])
    requires
        day_length > 0,
    ensures
        r@.len() == 3,
        forall|i: int| 0 <= i < 3 ==> r@[i] == #[trigger] light_at(time as int, day_length as int)[i],
{
    let a = phase(time, day_length);
    let s = if a < HALF_TURN {
        arch_of(a)
    } else {
        -arch_of(a - HALF_TURN)
    };
    let red = clip(s + 1000, 30);
    let green = clip(s + 900, 60);
    let blue = clip(s + 800, 100);
    [red, green, blue]
}

fn clip(v: i64, low: i64) -> (r: i32)
    requires
        0 <= low <= FULL_LIGHT,
    ensures
        r == clip_light(v as int, low as int),
{
    if v > FULL_LIGHT as i64 {
        FULL_LIGHT
    } else if v < low {
        low as i32
    } else {
        v as i32
    }
}

/// The light at `time` ticks, with the day of `DAY_LENGTH` ticks.
pub fn light_intensity(time: i64) -> (r: [i32; 3])
    ensures
        r@.len() == 3,
        forall|i: int| 0 <= i < 3 ==> r@[i] == #[trigger] light_at(time as int, DAY_LENGTH as int)[i],
{
    daylight(time, DAY_LENGTH)
}

/// The light is periodic with the length of the day, for every time,
/// negative ones included.
pub proof fn lemma_light_periodic(time: int, day_length: int, days: int)
    requires
        day_length > 0,
    ensures
        light_at(time + days * day_length, day_length) == light_at(time, day_length),
{
    vstd::arithmetic::div_mod::lemma_mod_multiples_vanish(days, time, day_length);
    assert(day_length * days + time == time + days * day_length) by (nonlinear_arith);
}

/// Each channel of the light stays between its floor (0.03 for red, 0.06
/// for green, 0.1 for blue) and full light, at every time.
pub proof fn lemma_light_bounded(time: int, day_length: int)
    ensures
        30 <= light_at(time, day_length)[0] <= FULL_LIGHT,
        60 <= light_at(time, day_length)[1] <= FULL_LIGHT,
        100 <= light_at(time, day_length)[2] <= FULL_LIGHT,
{
}

// ---------------------------------------------------------------------------
// Movement

pub(crate) fn next_speed_of(v: i64, swimming: bool, plus: bool, minus: bool) -> (r: i64)
    requires
        abs(v as int) <= MAX_SPEED,
    ensures
        r == next_speed(v as int, swimming, plus, minus),
        abs(r as int) <= MAX_SPEED,
{
    let d: i64 = if swimming {
        9
    } else {
        6
    };
    let m: i64 = if v >= 0 {
        v
    } else {
        -v
    };
    let dm = m * 5 / d;
    proof {
        let n = m * 5;
        let d = d as int;
        vstd::arithmetic::div_mod::lemma_fundamental_div_mod(n, d);
        assert(0 <= n / d);
        assert(n / d <= MAX_SPEED - ACCELERATION) by (nonlinear_arith)
            requires
                d * (n / d) <= n,
                n <= 5 * MAX_SPEED,
                d >= 6,
        ;
    }
    let mut r: i64 = if v >= 0 {
        dm
    } else {
        -dm
    };
    if plus {
        r = r + ACCELERATION;
    }
    if minus {
        r = r - ACCELERATION;
    }
    r
}

fn cell(v: i64) -> (r: i64)
    ensures
        r == cell_of(v as int),
        0 <= r,
{
    if v < 0 {
        0
    } else {
        v / SUBTILES
    }
}

fn half_of(size: i32) -> (r: i64)
    ensures
        r == half(size),
{
    if size >= 0 {
        size as i64 / 2
    } else {
        -((-(size as i64)) / 2)
    }
}

fn feet_col_of(x: i64, width: i32) -> (r: i64)
    requires
        abs(x as int) <= MAX_POSITION + MAX_SPEED,
    ensures
        r == feet_col(x as int, width),
{
    cell(x + HALF_TILE) + half_of(width)
}

fn feet_row_of(y: i64, height: i32) -> (r: i64)
    requires
        abs(y as int) <= MAX_POSITION + MAX_SPEED,
    ensures
        r == feet_row(y as int, height),
{
    cell(y) + half_of(height) + FEET_ROWS
}

fn tile_under(world: &Vec<Vec<TileProperties>>, col: i64, row: i64) -> (r: Option<TileProperties>)
    ensures
        r == tile_at(world@, col as int, row as int),
{
    if col < 0 || row < 0 || col as u64 >= world.len() as u64 {
        return None;
    }
    let column = &world[col as usize];
    if row as u64 >= column.len() as u64 {
        return None;
    }
    Some(column[row as usize])
}

fn is_blocked(world: &Vec<Vec<TileProperties>>, col: i64, row: i64) -> (r: bool)
    ensures
        r == blocked(world@, col as int, row as int),
{
    match tile_under(world, col, row) {
        Some(t) => t.solid,
        None => true,
    }
}

fn is_swimmable(world: &Vec<Vec<TileProperties>>, col: i64, row: i64) -> (r: bool)
    ensures
        r == swimmable_at(world@, col as int, row as int),
{
    match tile_under(world, col, row) {
        Some(t) => t.swimmable,
        None => false,
    }
}

/// A position whose feet column lies on a grid that fits in an `i32` is
/// within `MAX_POSITION`.
proof fn lemma_col_in_grid_bounded(world: Seq<Vec<TileProperties>>, x: int, width: i32, row: int)
    requires
        world_fits(world),
        !blocked(world, feet_col(x, width), row),
    ensures
        x <= MAX_POSITION,
{
    let v = x + HALF_TILE;
    if v >= 0 {
        vstd::arithmetic::div_mod::lemma_fundamental_div_mod(v, SUBTILES as int);
        assert(v % (SUBTILES as int) < SUBTILES);
    }
}

/// A position whose feet row lies on a grid that fits in an `i32` is within
/// `MAX_POSITION`.
proof fn lemma_row_in_grid_bounded(world: Seq<Vec<TileProperties>>, col: int, y: int, height: i32)
    requires
        world_fits(world),
        !blocked(world, col, feet_row(y, height)),
    ensures
        y <= MAX_POSITION,
{
    if y >= 0 {
        vstd::arithmetic::div_mod::lemma_fundamental_div_mod(y, SUBTILES as int);
        assert(y % (SUBTILES as int) < SUBTILES);
    }
}

impl<'a> Player<'a> {
    /// One tick of movement: drag, then the push of the held keys, then the
    /// x step and the y step, each taken back if it would put the feet on a
    /// blocked cell; then whether the feet cell is swimmable; and last the
    /// position is kept from going below zero.
    #[verifier::rlimit(50)]
    pub fn move_character(&mut self, world: &Vec<Vec<TileProperties>>)
        requires
            old(self).wf(),
            world_fits(world@),
        ensures
            final(self).wf(),
            old(self).moved_to(&*final(self), world@, old(self).width, old(self).height),
            old(self).same_session(&*final(self)),
            final(self).width == old(self).width,
            final(self).height == old(self).height,
            final(self).uniforms == old(self).uniforms,
    {
        let vx = next_speed_of(
            self.x_speed,
            self.is_swimming,
            self.keys_down.right,
            self.keys_down.left,
        );
        let vy = next_speed_of(
            self.y_speed,
            self.is_swimming,
            self.keys_down.down,
            self.keys_down.up,
        );
        let width = self.width;
        let height = self.height;
        let x0 = self.x;
        let y0 = self.y;

        let tx = x0 + vx;
        let x1 = if is_blocked(world, feet_col_of(tx, width), feet_row_of(y0, height)) {
            x0
        } else {
            proof {
                lemma_col_in_grid_bounded(world@, tx as int, width, feet_row(y0 as int, height));
            }
            tx
        };
        let ty = y0 + vy;
        let y1 = if is_blocked(world, feet_col_of(x1, width), feet_row_of(ty, height)) {
            y0
        } else {
            proof {
                lemma_row_in_grid_bounded(world@, feet_col(x1 as int, width), ty as int, height);
            }
            ty
        };
        let swimming = is_swimmable(world, feet_col_of(x1, width), feet_row_of(y1, height));

        self.x_speed = vx;
        self.y_speed = vy;
        self.is_swimming = swimming;
        self.x = if x1 < 0 {
            0
        } else {
            x1
        };
        self.y = if y1 < 0 {
            0
        } else {
            y1
        };
    }
}

/// The clock after one tick: one more, held at `i64::MAX` once there.
pub open spec fn tick_time(time: i64) -> i64 {
    if time < i64::MAX {
        (time + 1) as i64
    } else {
        time
    }
}

/// The keys with `key` set to `down`.
pub open spec fn with_key(keys: HeldKeys, key: MoveKey, down: bool) -> HeldKeys {
    match key {
        MoveKey::Up => HeldKeys { up: down, ..keys },
        MoveKey::Left => HeldKeys { left: down, ..keys },
        MoveKey::Down => HeldKeys { down: down, ..keys },
        MoveKey::Right => HeldKeys { right: down, ..keys },
    }
}

impl Uniforms {
    /// What the renderer reads of a player at `x`, `y`, with the clock at
    /// `time`.
    pub open spec fn describes(&self, x: i64, y: i64, is_swimming: bool, time: i64) -> bool {
        &&& self.translate_vector@[0] == x % SUBTILES
        &&& self.translate_vector@[1] == y % SUBTILES
        &&& self.is_swimming == (if is_swimming {
            1i32
        } else {
            0i32
        })
        &&& self.time == time
        &&& forall|i: int|
            0 <= i < 3 ==> self.light_intensity@[i] == #[trigger] light_at(
                time as int,
                DAY_LENGTH as int,
            )[i]
    }

    /// The uniforms of a player at the origin, on land, at time zero.
    pub fn default() -> (r: Self)
        ensures
            r.describes(0, 0, false, 0),
    {
        Uniforms {
            translate_vector: [0, 0],
            is_swimming: 0,
            time: 0,
            light_intensity: light_intensity(0),
        }
    }
}

impl<'a> Player<'a> {
    /// A player at the origin, at rest, with full health, unpaused, in a
    /// world named "New Game", carrying sticks.
    pub fn new(width: i32, height: i32, seed: u32) -> (p: Self)
        ensures
            p.wf(),
            p.keys_down == (HeldKeys { up: false, left: false, down: false, right: false }),
            p.width == width,
            p.height == height,
            p.seed == seed,
            p.x == 0 && p.y == 0 && p.x_speed == 0 && p.y_speed == 0,
            !p.is_swimming,
            p.uniforms.describes(0, 0, false, 0),
            p.health == START_HEALTH && p.max_health == START_HEALTH,
            !p.paused,
            p.pause_type == PauseType::Pause,
            p.world_name@ == "New Game"@,
            p.inventory@.len() == START_STICKS,
            forall|i: int|
                0 <= i < START_STICKS ==> #[trigger] p.inventory@[i]
                    == ItemKind::Stick.spec_properties(),
    {
        let mut inventory: Vec<ItemProperties<'a>> = Vec::new();
        let mut i: usize = 0;
        while i < START_STICKS
            invariant
                i <= START_STICKS,
                inventory@.len() == i,
                forall|j: int|
                    0 <= j < i ==> #[trigger] inventory@[j] == ItemKind::Stick.spec_properties(),
            decreases START_STICKS - i,
        {
            inventory.push(ItemKind::Stick.properties());
            i = i + 1;
        }
        Player {
            keys_down: HeldKeys { up: false, left: false, down: false, right: false },
            width,
            height,
            x: 0,
            y: 0,
            x_speed: 0,
            y_speed: 0,
            uniforms: Uniforms::default(),
            is_swimming: false,
            health: START_HEALTH,
            max_health: START_HEALTH,
            paused: false,
            pause_type: PauseType::Pause,
            seed,
            world_name: "New Game".to_owned(),
            inventory,
        }
    }

    /// One frame: takes the camera size; unless paused, moves the player
    /// one tick and advances the clock; then refreshes the uniforms.
    pub fn update(&mut self, world: &Vec<Vec<TileProperties>>, cam_width: i32, cam_height: i32)
        requires
            old(self).wf(),
            world_fits(world@),
        ensures
            final(self).wf(),
            final(self).width == cam_width,
            final(self).height == cam_height,
            old(self).same_session(&*final(self)),
            old(self).paused ==> old(self).same_motion(&*final(self)) && final(self).uniforms.time
                == old(self).uniforms.time,
            !old(self).paused ==> old(self).moved_to(&*final(self), world@, cam_width, cam_height)
                && final(self).uniforms.time == tick_time(old(self).uniforms.time),
            final(self).uniforms.describes(
                final(self).x,
                final(self).y,
                final(self).is_swimming,
                final(self).uniforms.time,
            ),
    {
        self.width = cam_width;
        self.height = cam_height;
        if !self.paused {
            self.move_character(world);
            self.uniforms.time = if self.uniforms.time < i64::MAX {
                self.uniforms.time + 1
            } else {
                self.uniforms.time
            };
        }
        let time = self.uniforms.time;
        self.uniforms = Uniforms {
            translate_vector: [self.x % SUBTILES, self.y % SUBTILES],
            is_swimming: if self.is_swimming {
                1
            } else {
                0
            },
            time,
            light_intensity: light_intensity(time),
        };
    }

    /// Marks a movement key as held.
    pub fn key_pressed(&mut self, key: MoveKey)
        ensures
            final(self).keys_down == with_key(old(self).keys_down, key, true),
            old(self).same_motion(&*final(self)),
            old(self).same_stats(&*final(self)),
            final(self).width == old(self).width && final(self).height == old(self).height,
            final(self).uniforms == old(self).uniforms,
    {
        match key {
            MoveKey::Up => self.keys_down.up = true,
            MoveKey::Left => self.keys_down.left = true,
            MoveKey::Down => self.keys_down.down = true,
            MoveKey::Right => self.keys_down.right = true,
        }
    }

    /// Marks a movement key as released.
    pub fn key_released(&mut self, key: MoveKey)
        ensures
            final(self).keys_down == with_key(old(self).keys_down, key, false),
            old(self).same_motion(&*final(self)),
            old(self).same_stats(&*final(self)),
            final(self).width == old(self).width && final(self).height == old(self).height,
            final(self).uniforms == old(self).uniforms,
    {
        match key {
            MoveKey::Up => self.keys_down.up = false,
            MoveKey::Left => self.keys_down.left = false,
            MoveKey::Down => self.keys_down.down = false,
            MoveKey::Right => self.keys_down.right = false,
        }
    }

    /// The record to save: position, health, seed and clock.
    pub fn game_data(&self) -> (g: GameData)
        ensures
            g == (GameData {
                x: self.x,
                y: self.y,
                health: self.health,
                max_health: self.max_health,
                seed: self.seed,
                time: self.uniforms.time,
            }),
    {
        GameData {
            x: self.x,
            y: self.y,
            health: self.health,
            max_health: self.max_health,
            seed: self.seed,
            time: self.uniforms.time,
        }
    }

    /// Restores a saved record. A record whose position lies outside
    /// `[0, MAX_POSITION]` is refused and the player is left as it was;
    /// otherwise position, health, seed and clock are taken from it, and the
    /// seed of the world to generate again is returned.
    pub fn load_gamedata(&mut self, gamedata: GameData) -> (r: Result<u32, LoadError>)
        requires
            old(self).wf(),
        ensures
            final(self).wf(),
            r is Err <==> !(0 <= gamedata.x <= MAX_POSITION && 0 <= gamedata.y <= MAX_POSITION),
            r is Err ==> r == Err::<u32, LoadError>(LoadError::PositionOutOfRange),
            r is Err ==> final(self).same_motion(&*old(self)),
            r is Err ==> final(self).game_data_spec() == old(self).game_data_spec(),
            r is Ok ==> r == Ok::<u32, LoadError>(gamedata.seed),
            r is Ok ==> final(self).game_data_spec() == gamedata,
            final(self).x_speed == old(self).x_speed,
            final(self).y_speed == old(self).y_speed,
            final(self).keys_down == old(self).keys_down,
            final(self).is_swimming == old(self).is_swimming,
            final(self).paused == old(self).paused,
            final(self).pause_type == old(self).pause_type,
            final(self).world_name@ == old(self).world_name@,
            final(self).inventory@ == old(self).inventory@,
    {
        if gamedata.x < 0 || gamedata.x > MAX_POSITION || gamedata.y < 0 || gamedata.y
            > MAX_POSITION {
            return Err(LoadError::PositionOutOfRange);
        }
        self.x = gamedata.x;
        self.y = gamedata.y;
        self.max_health = gamedata.max_health;
        self.health = gamedata.health;
        self.seed = gamedata.seed;
        self.uniforms.time = gamedata.time;
        Ok(gamedata.seed)
    }

    pub open spec fn game_data_spec(&self) -> GameData {
        GameData {
            x: self.x,
            y: self.y,
            health: self.health,
            max_health: self.max_health,
            seed: self.seed,
            time: self.uniforms.time,
        }
    }

    /// Hearts drawn for the health bar: one per two points of the maximum,
    /// rounded up.
    pub fn heart_count(&self) -> (n: u32)
        ensures
            n == (self.max_health as int + 1) / 2,
    {
        self.max_health / 2 + self.max_health % 2
    }
}

/// The player's sprite: a quad two tiles wide and six high, centred on the
/// screen, showing the atlas cells of column 0, rows 4 to 7; and the six
/// indices of its two triangles.
pub fn player_vertices(width: i32, height: i32) -> (r: (Vec<Vertex>, Vec<u16>))
    ensures
        r.0@.len() == 4,
        r.0@[0].pos@ == seq![-1i32, 3i32] && r.0@[0].tex_coords@ == seq![0i32, 4i32],
        r.0@[1].pos@ == seq![-1i32, -3i32] && r.0@[1].tex_coords@ == seq![0i32, 7i32],
        r.0@[2].pos@ == seq![1i32, -3i32] && r.0@[2].tex_coords@ == seq![1i32, 7i32],
        r.0@[3].pos@ == seq![1i32, 3i32] && r.0@[3].tex_coords@ == seq![1i32, 4i32],
        forall|i: int|
            0 <= i < 4 ==> (#[trigger] r.0@[i]).tile_span@ == seq![width, height]
                && r.0@[i].animation_frames == 1,
        r.1@ == seq![0u16, 1, 2, 0, 2, 3],
{
    let corner = |px: i32, py: i32, tx: i32, ty: i32| -> (v: Vertex)
        ensures
            v.pos@ == seq![px, py],
            v.tile_span@ == seq![width, height],
            v.tex_coords@ == seq![tx, ty],
            v.animation_frames == 1,
        {
            let v = Vertex {
                pos: [px, py],
                tile_span: [width, height],
                tex_coords: [tx, ty],
                animation_frames: 1,
            };
            assert(v.pos@ =~= seq![px, py]);
            assert(v.tile_span@ =~= seq![width, height]);
            assert(v.tex_coords@ =~= seq![tx, ty]);
            v
        };
    let vertices = vec![
        corner(-1, 3, 0, 4),
        corner(-1, -3, 0, 7),
        corner(1, -3, 1, 7),
        corner(1, 3, 1, 4),
    ];
    let indices: Vec<u16> = vec![0, 1, 2, 0, 2, 3];
    assert(indices@ =~= seq![0u16, 1, 2, 0, 2, 3]);
    (vertices, indices)
}

/// A move into a blocked cell is taken back: after the tick the player
/// stands where it stood on that axis, while the other axis still follows
/// its own speed, moving exactly by it when its cell is free.
pub proof fn lemma_collision_containment(
    p: Player,
    q: Player,
    world: Seq<Vec<TileProperties>>,
    width: i32,
    height: i32,
)
    requires
        p.wf(),
        p.moved_to(&q, world, width, height),
        blocked(world, feet_col(p.x + p.vx(), width), feet_row(p.y as int, height)),
    ensures
        q.x == p.x,
        !blocked(world, feet_col(p.x as int, width), feet_row(p.y + p.vy(), height)) && p.y
            + p.vy() >= 0 ==> q.y == p.y + p.vy(),
        blocked(world, feet_col(p.x as int, width), feet_row(p.y + p.vy(), height)) ==> q.y
            == p.y,
{
}

/// Whatever the state and the keys before a tick, the position after it is
/// never negative.
pub proof fn lemma_position_nonnegative(
    p: Player,
    q: Player,
    world: Seq<Vec<TileProperties>>,
    width: i32,
    height: i32,
)
    requires
        p.moved_to(&q, world, width, height),
    ensures
        q.x >= 0,
        q.y >= 0,
{
}

/// One frame of a run: a tick of movement with that frame's camera size, or
/// a pause or key change that leaves the motion alone.
pub open spec fn frame_step(prev: Player, next: Player, world: Seq<Vec<TileProperties>>) -> bool {
    prev.moved_to(&next, world, next.width, next.height) || next.same_motion(&prev)
}

proof fn lemma_run_nonnegative_at(states: Seq<Player>, world: Seq<Vec<TileProperties>>, k: int)
    requires
        0 <= k < states.len(),
        states[0].x >= 0 && states[0].y >= 0,
        forall|i: int|
            0 <= i < states.len() - 1 ==> #[trigger] frame_step(states[i], states[i + 1], world),
    ensures
        states[k].x >= 0 && states[k].y >= 0,
    decreases k,
{
    if k > 0 {
        lemma_run_nonnegative_at(states, world, k - 1);
        let j = k - 1;
        assert(frame_step(states[j], states[j + 1], world));
    }
}

/// Over any run of frames, whatever keys were held along it, the position
/// is never negative.
pub proof fn lemma_run_nonnegative(states: Seq<Player>, world: Seq<Vec<TileProperties>>)
    requires
        states.len() > 0,
        states[0].x >= 0 && states[0].y >= 0,
        forall|i: int|
            0 <= i < states.len() - 1 ==> #[trigger] frame_step(states[i], states[i + 1], world),
    ensures
        forall|i: int| 0 <= i < states.len() ==> #[trigger] states[i].x >= 0 && states[i].y >= 0,
{
    assert forall|i: int| 0 <= i < states.len() implies #[trigger] states[i].x >= 0
        && states[i].y >= 0 by {
        lemma_run_nonnegative_at(states, world, i);
    }
}

/// After a tick, the swimming flag is exactly the swimmable flag of the
/// tile under the feet at the player's new position.
pub proof fn lemma_submersion_consistent(
    p: Player,
    q: Player,
    world: Seq<Vec<TileProperties>>,
    width: i32,
    height: i32,
)
    requires
        p.moved_to(&q, world, width, height),
    ensures
        q.is_swimming == swimmable_at(
            world,
            feet_col(q.x as int, width),
            feet_row(q.y as int, height),
        ),
{
    let x1 = p.x_after(world, width, height);
    let y1 = p.y_after(world, width, height);
    assert(feet_col(clamp_low(x1), width) == feet_col(x1, width));
    assert(feet_row(clamp_low(y1), height) == feet_row(y1, height));
}

} // verus!
