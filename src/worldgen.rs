use vstd::prelude::*;

use crate::tiles::{TileKind, TileProperties};

verus! {

/// Bit pattern of the sign of an IEEE 754 binary64 number.
pub const SIGN_BIT: u64 = 0x8000_0000_0000_0000;

/// Bit pattern of positive infinity; every larger magnitude is a NaN.
pub const INFINITY_BITS: u64 = 0x7ff0_0000_0000_0000;

/// Below this elevation (-0.3) lies deep water.
pub const DEEP_WATER_BELOW: u64 = 0xbfd3_3333_3333_3333;

/// Below this elevation (0.0) lies shallow water.
pub const SHALLOW_WATER_BELOW: u64 = 0x0000_0000_0000_0000;

/// Below this elevation (0.2) lies beach; from it on, grassland.
pub const BEACH_BELOW: u64 = 0x3fc9_9999_9999_999a;

/// Above this vegetation (0.5) deep water grows kelp.
pub const KELP_ABOVE: u64 = 0x3fe0_0000_0000_0000;

/// Above this vegetation (0.7) the shallow, beach and grass bands carry
/// their decoration or obstacle.
pub const FLORA_ABOVE: u64 = 0x3fe6_6666_6666_6666;

/// The two noise values sampled at one grid coordinate, each held as the
/// bit pattern of an IEEE 754 binary64 number, so that the thresholds of the
/// classifier compare exactly as binary64 comparisons do.
#[derive(Clone, Copy, Debug, PartialEq, Eq, Structural)]
pub struct NoiseSample {
    pub elevation: u64,
    pub vegetation: u64,
}

/// Magnitude bits of a binary64 number (everything but the sign).
pub open spec fn magnitude(b: u64) -> int {
    if b >= SIGN_BIT {
        b - SIGN_BIT
    } else {
        b as int
    }
}

pub open spec fn is_nan(b: u64) -> bool {
    magnitude(b) > INFINITY_BITS
}

/// A key that orders the non-NaN binary64 numbers as their real values are
/// ordered (both zeros map to 0).
pub open spec fn order_key(b: u64) -> int {
    if b >= SIGN_BIT {
        -magnitude(b)
    } else {
        magnitude(b)
    }
}

/// `a < b` on binary64 numbers: false whenever either is a NaN.
pub open spec fn binary64_lt(a: u64, b: u64) -> bool {
    !is_nan(a) && !is_nan(b) && order_key(a) < order_key(b)
}

/// The four elevation bands of the terrain.
#[derive(Clone, Copy, Debug, PartialEq, Eq, Structural)]
pub enum Band {
    DeepWater,
    ShallowWater,
    Beach,
    Land,
}

/// The band that an elevation falls in; thresholds are checked in order,
/// each with a strict `<`, so a value equal to a threshold belongs to the
/// band above it.
pub open spec fn band_of(elevation: u64) -> Band {
    if binary64_lt(elevation, DEEP_WATER_BELOW) {
        Band::DeepWater
    } else if binary64_lt(elevation, SHALLOW_WATER_BELOW) {
        Band::ShallowWater
    } else if binary64_lt(elevation, BEACH_BELOW) {
        Band::Beach
    } else {
        Band::Land
    }
}

/// The kinds of tile that a band can hold: its ground and its decoration.
pub open spec fn in_band(kind: TileKind, band: Band) -> bool {
    match band {
        Band::DeepWater => kind == TileKind::DeepOcean || kind == TileKind::Kelp,
        Band::ShallowWater => kind == TileKind::Ocean || kind == TileKind::Lilypad,
        Band::Beach => kind == TileKind::Sand || kind == TileKind::Cactus,
        Band::Land => kind == TileKind::Grass || kind == TileKind::Stump,
    }
}

/// The tile that a noise sample becomes: the elevation picks the band, the
/// vegetation value picks the decoration within it.
pub open spec fn classify_kind(s: NoiseSample) -> TileKind {
    match band_of(s.elevation) {
        Band::DeepWater => if binary64_lt(KELP_ABOVE, s.vegetation) {
            TileKind::Kelp
        } else {
            TileKind::DeepOcean
        },
        Band::ShallowWater => if binary64_lt(FLORA_ABOVE, s.vegetation) {
            TileKind::Lilypad
        } else {
            TileKind::Ocean
        },
        Band::Beach => if binary64_lt(FLORA_ABOVE, s.vegetation) {
            TileKind::Cactus
        } else {
            TileKind::Sand
        },
        Band::Land => if binary64_lt(FLORA_ABOVE, s.vegetation) {
            TileKind::Stump
        } else {
            TileKind::Grass
        },
    }
}

/// The grid of tiles that a grid of samples becomes, cell by cell.
pub open spec fn tiles_of(p_map: Seq<Vec<NoiseSample>>, world: Seq<Vec<TileProperties>>) -> bool {
    &&& world.len() == p_map.len()
    &&& forall|x: int|
        0 <= x < p_map.len() ==> #[trigger] world[x]@.len() == p_map[x]@.len()
    &&& forall|x: int, y: int|
        0 <= x < p_map.len() && 0 <= y < p_map[x]@.len() ==> #[trigger] world[x]@[y]
            == classify_kind(p_map[x]@[y]).spec_properties()
}

fn magnitude_of(b: u64) -> (r: u64)
    ensures
        r == magnitude(b),
{
    if b >= SIGN_BIT {
        b - SIGN_BIT
    } else {
        b
    }
}

/// `a < b` as binary64 numbers, decided on their bit patterns.
pub fn binary64_less(a: u64, b: u64) -> (r: bool)
    ensures
        r == binary64_lt(a, b),
{
    let ma = magnitude_of(a);
    let mb = magnitude_of(b);
    if ma > INFINITY_BITS || mb > INFINITY_BITS {
        return false;
    }
    let a_neg = a >= SIGN_BIT;
    let b_neg = b >= SIGN_BIT;
    if a_neg && b_neg {
        mb < ma
    } else if a_neg {
        ma > 0 || mb > 0
    } else if b_neg {
        false
    } else {
        ma < mb
    }
}

/// The tile kind for one noise sample.
pub fn classify(sample: NoiseSample) -> (r: TileKind)
    ensures
        r == classify_kind(sample),
        in_band(r, band_of(sample.elevation)),
{
    let veg = sample.vegetation;
    if binary64_less(sample.elevation, DEEP_WATER_BELOW) {
        if binary64_less(KELP_ABOVE, veg) {
            TileKind::Kelp
        } else {
            TileKind::DeepOcean
        }
    } else if binary64_less(sample.elevation, SHALLOW_WATER_BELOW) {
        if binary64_less(FLORA_ABOVE, veg) {
            TileKind::Lilypad
        } else {
            TileKind::Ocean
        }
    } else if binary64_less(sample.elevation, BEACH_BELOW) {
        if binary64_less(FLORA_ABOVE, veg) {
            TileKind::Cactus
        } else {
            TileKind::Sand
        }
    } else {
        if binary64_less(FLORA_ABOVE, veg) {
            TileKind::Stump
        } else {
            TileKind::Grass
        }
    }
}

/// Classifies every sample of a grid, keeping the grid's shape: the tile at
/// `[x][y]` is the classification of the sample at `[x][y]`.
pub fn elevation_to_tiles(p_map: Vec<Vec<NoiseSample>>) -> (world: Vec<Vec<TileProperties>>)
    ensures
        tiles_of(p_map@, world@),
{
    let mut world: Vec<Vec<TileProperties>> = Vec::new();
    let mut x: usize = 0;
    while x < p_map.len()
        invariant
            x <= p_map@.len(),
            world@.len() == x,
            forall|i: int| 0 <= i < x ==> #[trigger] world@[i]@.len() == p_map@[i]@.len(),
            forall|i: int, j: int|
                0 <= i < x && 0 <= j < p_map@[i]@.len() ==> #[trigger] world@[i]@[j]
                    == classify_kind(p_map@[i]@[j]).spec_properties(),
        decreases p_map@.len() - x,
    {
        let p_row = &p_map[x];
        let mut row: Vec<TileProperties> = Vec::new();
        let mut y: usize = 0;
        while y < p_row.len()
            invariant
                x < p_map@.len(),
                *p_row == p_map@[x as int],
                y <= p_row@.len(),
                row@.len() == y,
                forall|j: int|
                    0 <= j < y ==> #[trigger] row@[j] == classify_kind(p_row@[j]).spec_properties(),
            decreases p_row@.len() - y,
        {
            let kind = classify(p_row[y]);
            row.push(kind.properties());
            y = y + 1;
        }
        world.push(row);
        x = x + 1;
    }
    world
}

/// Classification is total and exclusive: every elevation lies in exactly
/// one band, and the tile that a sample becomes belongs to that band.
pub proof fn lemma_classify_total_exclusive(s: NoiseSample)
    ensures
        in_band(classify_kind(s), band_of(s.elevation)),
        (binary64_lt(s.elevation, DEEP_WATER_BELOW)) as int
            + (!binary64_lt(s.elevation, DEEP_WATER_BELOW) && binary64_lt(
            s.elevation,
            SHALLOW_WATER_BELOW,
        )) as int + (!binary64_lt(s.elevation, SHALLOW_WATER_BELOW) && binary64_lt(
            s.elevation,
            BEACH_BELOW,
        )) as int + (!binary64_lt(s.elevation, BEACH_BELOW)) as int == 1,
{
}

/// Generation is deterministic: the same grid of samples can only ever give
/// one grid of tiles.
pub proof fn lemma_generation_deterministic(
    p_map: Seq<Vec<NoiseSample>>,
    a: Seq<Vec<TileProperties>>,
    b: Seq<Vec<TileProperties>>,
)
    requires
        tiles_of(p_map, a),
        tiles_of(p_map, b),
    ensures
        a.len() == b.len(),
        forall|x: int| 0 <= x < a.len() ==> #[trigger] a[x]@ == b[x]@,
{
    assert forall|x: int| 0 <= x < a.len() implies #[trigger] a[x]@ == b[x]@ by {
        assert(a[x]@ =~= b[x]@);
    }
}

} // verus!
