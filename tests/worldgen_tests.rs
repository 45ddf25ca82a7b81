use noise::{NoiseFn, Perlin, Seedable};
use worldxplore::player::{Player, SUBTILES};
use worldxplore::tiles::{TileKind, TileProperties};
use worldxplore::worldgen::{binary64_less, classify, elevation_to_tiles, NoiseSample};

const CATALOG: [TileKind; 9] = [
    TileKind::DeepOcean,
    TileKind::Ocean,
    TileKind::Sand,
    TileKind::Grass,
    TileKind::Stump,
    TileKind::Kelp,
    TileKind::Lilypad,
    TileKind::Cactus,
    TileKind::Tree,
];

fn sample(elevation: f64, vegetation: f64) -> NoiseSample {
    NoiseSample { elevation: elevation.to_bits(), vegetation: vegetation.to_bits() }
}

fn noise_grid(width: i32, height: i32, seed: u32) -> Vec<Vec<NoiseSample>> {
    let p_noise = Perlin::new().set_seed(seed);
    let veg_noise = Perlin::new().set_seed(p_noise.seed() + 1);
    let mut world = Vec::new();
    for x in 0..width {
        let mut row = Vec::new();
        for y in 0..height {
            row.push(sample(
                p_noise.get([x as f64 / 16., y as f64 / 16., 0.]),
                veg_noise.get([x as f64 / 1.6, y as f64 / 1.6, 0.]),
            ));
        }
        world.push(row);
    }
    world
}

#[test]
fn boundary_deep_water_threshold_is_shallow() {
    assert_eq!(classify(sample(-0.3, 0.0)), TileKind::Ocean);
    let just_below = f64::from_bits((-0.3f64).to_bits() + 1);
    assert!(just_below < -0.3);
    assert_eq!(classify(sample(just_below, 0.0)), TileKind::DeepOcean);
}

#[test]
fn boundary_grass_threshold_is_grass() {
    assert_eq!(classify(sample(0.2, 0.0)), TileKind::Grass);
    let just_below = f64::from_bits(0.2f64.to_bits() - 1);
    assert_eq!(classify(sample(just_below, 0.0)), TileKind::Sand);
}

#[test]
fn boundary_zero_starts_the_beach() {
    assert_eq!(classify(sample(0.0, 0.0)), TileKind::Sand);
    assert_eq!(classify(sample(-0.0, 0.0)), TileKind::Sand);
    assert_eq!(classify(sample(-1e-300, 0.0)), TileKind::Ocean);
}

#[test]
fn classify_band_examples() {
    assert_eq!(classify(sample(-0.5, 0.0)), TileKind::DeepOcean);
    assert_eq!(classify(sample(-0.5, 0.6)), TileKind::Kelp);
    assert_eq!(classify(sample(-0.5, 0.5)), TileKind::DeepOcean);
    assert_eq!(classify(sample(-0.1, 0.75)), TileKind::Lilypad);
    assert_eq!(classify(sample(-0.1, 0.7)), TileKind::Ocean);
    assert_eq!(classify(sample(0.1, 0.71)), TileKind::Cactus);
    assert_eq!(classify(sample(0.1, 0.6)), TileKind::Sand);
    assert_eq!(classify(sample(0.25, 0.9)), TileKind::Stump);
    assert_eq!(classify(sample(0.25, 0.2)), TileKind::Grass);
    assert_eq!(classify(sample(5.0, -3.0)), TileKind::Grass);
}

#[test]
fn classify_nan_falls_through_to_grass() {
    assert_eq!(classify(sample(f64::NAN, f64::NAN)), TileKind::Grass);
    assert_eq!(classify(sample(-0.5, f64::NAN)), TileKind::DeepOcean);
}

#[test]
fn binary64_less_agrees_with_f64() {
    let values = [
        -f64::INFINITY,
        -2.5,
        -0.3,
        -1e-300,
        -0.0,
        0.0,
        1e-300,
        0.2,
        0.7,
        3.0,
        f64::INFINITY,
        f64::NAN,
    ];
    for a in values {
        for b in values {
            assert_eq!(binary64_less(a.to_bits(), b.to_bits()), a < b, "{} < {}", a, b);
        }
    }
}

#[test]
fn elevation_to_tiles_keeps_shape_and_classifies_each_cell() {
    let map = vec![
        vec![sample(-0.5, 0.0), sample(-0.1, 0.0), sample(0.1, 0.0)],
        vec![sample(0.3, 0.0), sample(0.3, 0.8)],
    ];
    let world = elevation_to_tiles(map);
    assert_eq!(world.len(), 2);
    assert_eq!(world[0].len(), 3);
    assert_eq!(world[1].len(), 2);
    assert_eq!(world[0][0], TileKind::DeepOcean.properties());
    assert_eq!(world[0][1], TileKind::Ocean.properties());
    assert_eq!(world[0][2], TileKind::Sand.properties());
    assert_eq!(world[1][0], TileKind::Grass.properties());
    assert_eq!(world[1][1], TileKind::Stump.properties());
}

#[test]
fn elevation_to_tiles_empty() {
    assert!(elevation_to_tiles(Vec::new()).is_empty());
}

#[test]
fn generation_is_deterministic() {
    let a = elevation_to_tiles(noise_grid(40, 30, 7));
    let b = elevation_to_tiles(noise_grid(40, 30, 7));
    assert_eq!(a, b);
    assert_eq!(a.len(), 40);
    assert!(a.iter().all(|col| col.len() == 30));
}

#[test]
fn generation_classifies_every_cell() {
    let map = noise_grid(20, 20, 3);
    let world = elevation_to_tiles(map.clone());
    for x in 0..20 {
        for y in 0..20 {
            assert_eq!(world[x][y], classify(map[x][y]).properties());
        }
    }
}

#[test]
fn end_to_end_seed_42() {
    let world = elevation_to_tiles(noise_grid(50, 50, 42));
    let (col, row) = (17usize, 23usize);
    let tile: TileProperties = world[col][row];
    assert!(CATALOG.iter().any(|k| k.properties() == tile));

    // with a camera of size zero the feet cell is the position's own cell,
    // two rows down
    let mut player = Player::new(0, 0, 42);
    player.x = col as i64 * SUBTILES;
    player.y = (row as i64 - 2) * SUBTILES;
    player.update(&world, 0, 0);
    assert_eq!(player.x, col as i64 * SUBTILES);
    assert_eq!(player.y, (row as i64 - 2) * SUBTILES);
    assert_eq!(player.is_swimming, tile.swimmable);
}
