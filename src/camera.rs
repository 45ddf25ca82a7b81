use vstd::prelude::*;

use crate::player::{
    abs, next_speed, next_speed_of, with_key, HeldKeys, MoveKey, MAX_POSITION, MAX_SPEED, SUBTILES,
};

verus! {

/// What the renderer reads of a free camera: the part of its position past
/// the last whole tile, in position units.
#[derive(Clone, Copy, Debug)]
pub struct Uniforms {
    pub translate_vector: [i64; 2],
}

impl Uniforms {
    pub fn default() -> (r: Self)
        ensures
            r.translate_vector@ == seq![0i64, 0i64],
    {
        let r = Uniforms { translate_vector: [0, 0] };
        assert(r.translate_vector@ =~= seq![0i64, 0i64]);
        r
    }
}

/// A camera that flies over the world with the movement keys, with the same
/// drag and push as the player on land but without collisions. Position
/// and speed are in position units (see `SUBTILES`).
pub struct Camera {
    pub keys_down: HeldKeys,
    pub width: i32,
    pub height: i32,
    pub x: i64,
    pub y: i64,
    pub x_speed: i64,
    pub y_speed: i64,
    pub uniforms: Uniforms,
}

/// `v` kept inside `[0, MAX_POSITION]`.
pub open spec fn clamp_position(v: int) -> int {
    if v < 0 {
        0
    } else if v > MAX_POSITION {
        MAX_POSITION as int
    } else {
        v
    }
}

impl Camera {
    /// Position inside `[0, MAX_POSITION]`, speed inside
    /// `[-MAX_SPEED, MAX_SPEED]`.
    pub open spec fn wf(&self) -> bool {
        &&& 0 <= self.x <= MAX_POSITION
        &&& 0 <= self.y <= MAX_POSITION
        &&& abs(self.x_speed as int) <= MAX_SPEED
        &&& abs(self.y_speed as int) <= MAX_SPEED
    }

    /// A camera at rest at the origin.
    pub fn new(width: i32, height: i32) -> (c: Self)
        ensures
            c.wf(),
            c.keys_down == (HeldKeys { up: false, left: false, down: false, right: false }),
            c.width == width && c.height == height,
            c.x == 0 && c.y == 0 && c.x_speed == 0 && c.y_speed == 0,
            c.uniforms.translate_vector@ == seq![0i64, 0i64],
    {
        Camera {
            keys_down: HeldKeys { up: false, left: false, down: false, right: false },
            x: 0,
            y: 0,
            x_speed: 0,
            y_speed: 0,
            width,
            height,
            uniforms: Uniforms::default(),
        }
    }

    /// One tick: drag, push of the held keys, a move by the new speed kept
    /// inside `[0, MAX_POSITION]`, and the new scroll offset.
    pub fn update(&mut self)
        requires
            old(self).wf(),
        ensures
            final(self).wf(),
            final(self).x_speed == next_speed(
                old(self).x_speed as int,
                false,
                old(self).keys_down.right,
                old(self).keys_down.left,
            ),
            final(self).y_speed == next_speed(
                old(self).y_speed as int,
                false,
                old(self).keys_down.down,
                old(self).keys_down.up,
            ),
            final(self).x == clamp_position(old(self).x + final(self).x_speed),
            final(self).y == clamp_position(old(self).y + final(self).y_speed),
            final(self).translate_vector_matches(),
            final(self).keys_down == old(self).keys_down,
            final(self).width == old(self).width && final(self).height == old(self).height,
    {
        let vx = next_speed_of(self.x_speed, false, self.keys_down.right, self.keys_down.left);
        let vy = next_speed_of(self.y_speed, false, self.keys_down.down, self.keys_down.up);
        self.x_speed = vx;
        self.y_speed = vy;
        self.x = clamp_to_world(self.x + vx);
        self.y = clamp_to_world(self.y + vy);
        self.uniforms = Uniforms { translate_vector: [self.x % SUBTILES, self.y % SUBTILES] };
    }

    pub open spec fn translate_vector_matches(&self) -> bool {
        &&& self.uniforms.translate_vector@.len() == 2
        &&& self.uniforms.translate_vector@[0] == self.x % SUBTILES
        &&& self.uniforms.translate_vector@[1] == self.y % SUBTILES
    }

    /// Marks a movement key as held.
    pub fn key_pressed(&mut self, key: MoveKey)
        ensures
            final(self).keys_down == with_key(old(self).keys_down, key, true),
            final(self).x == old(self).x && final(self).y == old(self).y,
            final(self).x_speed == old(self).x_speed && final(self).y_speed == old(self).y_speed,
            final(self).width == old(self).width && final(self).height == old(self).height,
            final(self).uniforms == old(self).uniforms,
    {
        match key {
            MoveKey::Up => self.keys_down.up = true,
            MoveKey::Left => self.keys_down.left = true,
            MoveKey::Down => self.keys_down.down = true,
            MoveKey::Right => self.keys_down.right = true,
        }
    }

    /// Marks a movement key as released.
    pub fn key_released(&mut self, key: MoveKey)
        ensures
            final(self).keys_down == with_key(old(self).keys_down, key, false),
            final(self).x == old(self).x && final(self).y == old(self).y,
            final(self).x_speed == old(self).x_speed && final(self).y_speed == old(self).y_speed,
            final(self).width == old(self).width && final(self).height == old(self).height,
            final(self).uniforms == old(self).uniforms,
    {
        match key {
            MoveKey::Up => self.keys_down.up = false,
            MoveKey::Left => self.keys_down.left = false,
            MoveKey::Down => self.keys_down.down = false,
            MoveKey::Right => self.keys_down.right = false,
        }
    }
}

fn clamp_to_world(v: i64) -> (r: i64)
    ensures
        r == clamp_position(v as int),
{
    if v < 0 {
        0
    } else if v > MAX_POSITION {
        MAX_POSITION
    } else {
        v
    }
}

} // verus!
