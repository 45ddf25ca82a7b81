use worldxplore::player::{
    daylight, light_intensity, player_vertices, GameData, LoadError, MoveKey, PauseType, Player,
    Uniforms, DAY_LENGTH, MAX_POSITION, SUBTILES,
};
use worldxplore::tiles::{TileKind, TileProperties};

fn grass_world(side: usize) -> Vec<Vec<TileProperties>> {
    vec![vec![TileKind::Grass.properties(); side]; side]
}

/// A player whose feet cell is its own cell two rows down (camera of size
/// zero).
fn player_at(x: i64, y: i64) -> Player<'static> {
    let mut p = Player::new(0, 0, 1);
    p.x = x;
    p.y = y;
    p
}

#[test]
fn new_player_defaults() {
    let p = Player::new(33, 25, 9);
    assert_eq!((p.x, p.y, p.x_speed, p.y_speed), (0, 0, 0, 0));
    assert_eq!((p.width, p.height, p.seed), (33, 25, 9));
    assert_eq!((p.health, p.max_health), (6, 6));
    assert!(!p.paused && !p.is_swimming);
    assert_eq!(p.pause_type, PauseType::Pause);
    assert_eq!(p.world_name, "New Game");
    assert_eq!(p.inventory.len(), 13);
    assert!(p.inventory.iter().all(|i| i.name == "Stick"));
    assert_eq!(p.heart_count(), 3);
}

#[test]
fn heart_count_rounds_up() {
    let mut p = Player::new(1, 1, 0);
    p.max_health = 7;
    assert_eq!(p.heart_count(), 4);
    p.max_health = 0;
    assert_eq!(p.heart_count(), 0);
}

#[test]
fn uniforms_default() {
    let u = Uniforms::default();
    assert_eq!(u.translate_vector, [0, 0]);
    assert_eq!(u.is_swimming, 0);
    assert_eq!(u.time, 0);
    assert_eq!(u.light_intensity, [1000, 900, 800]);
}

#[test]
fn keys_press_and_release() {
    let mut p = Player::new(1, 1, 0);
    p.key_pressed(MoveKey::Up);
    p.key_pressed(MoveKey::Right);
    assert!(p.keys_down.up && p.keys_down.right && !p.keys_down.left && !p.keys_down.down);
    p.key_released(MoveKey::Up);
    assert!(!p.keys_down.up && p.keys_down.right);
}

#[test]
fn acceleration_and_drag_on_land() {
    let world = grass_world(30);
    let mut p = player_at(10 * SUBTILES, 10 * SUBTILES);
    p.key_pressed(MoveKey::Right);
    p.move_character(&world);
    assert_eq!(p.x_speed, 20);
    assert_eq!(p.x, 10 * SUBTILES + 20);
    p.move_character(&world);
    // 20 / 1.2 rounded toward zero is 16, plus 20
    assert_eq!(p.x_speed, 36);
    assert_eq!(p.x, 10 * SUBTILES + 56);
    p.key_released(MoveKey::Right);
    p.move_character(&world);
    assert_eq!(p.x_speed, 30);
    p.x_speed = -30;
    p.move_character(&world);
    assert_eq!(p.x_speed, -25);
}

#[test]
fn diagonal_is_additive() {
    let world = grass_world(30);
    let mut p = player_at(10 * SUBTILES, 10 * SUBTILES);
    p.key_pressed(MoveKey::Down);
    p.key_pressed(MoveKey::Left);
    p.move_character(&world);
    assert_eq!((p.x_speed, p.y_speed), (-20, 20));
    assert_eq!((p.x, p.y), (10 * SUBTILES - 20, 10 * SUBTILES + 20));
}

#[test]
fn opposite_keys_cancel() {
    let world = grass_world(30);
    let mut p = player_at(10 * SUBTILES, 10 * SUBTILES);
    p.key_pressed(MoveKey::Left);
    p.key_pressed(MoveKey::Right);
    p.move_character(&world);
    assert_eq!(p.x_speed, 0);
    assert_eq!(p.x, 10 * SUBTILES);
}

#[test]
fn water_drag_is_stronger() {
    let mut world = grass_world(30);
    world[10][12] = TileKind::DeepOcean.properties();
    let mut p = player_at(10 * SUBTILES, 10 * SUBTILES);
    p.move_character(&world);
    assert!(p.is_swimming);
    p.x_speed = 90;
    p.move_character(&world);
    // 90 / 1.8
    assert_eq!(p.x_speed, 50);
}

#[test]
fn collision_blocks_the_axis_into_the_obstacle() {
    let mut world = grass_world(10);
    // feet cell of the player is (4, 4); the stump stands right of it
    world[5][4] = TileKind::Stump.properties();
    let mut p = player_at(4 * SUBTILES + 490, 2 * SUBTILES);
    p.key_pressed(MoveKey::Right);
    p.key_pressed(MoveKey::Down);
    p.move_character(&world);
    assert_eq!(p.x, 4 * SUBTILES + 490);
    assert_eq!(p.y, 2 * SUBTILES + 20);
    assert_eq!(p.x_speed, 20);
}

#[test]
fn collision_with_grid_edge() {
    let world = grass_world(5);
    let mut p = player_at(4 * SUBTILES + 490, 0);
    p.key_pressed(MoveKey::Right);
    p.move_character(&world);
    assert_eq!(p.x, 4 * SUBTILES + 490);
}

#[test]
fn position_never_negative() {
    let world = grass_world(10);
    let mut p = player_at(30, 40);
    p.key_pressed(MoveKey::Up);
    p.key_pressed(MoveKey::Left);
    for _ in 0..50 {
        p.move_character(&world);
        assert!(p.x >= 0 && p.y >= 0);
    }
    assert_eq!((p.x, p.y), (0, 0));
    p.key_released(MoveKey::Up);
    p.key_pressed(MoveKey::Down);
    for _ in 0..20 {
        p.move_character(&world);
        assert!(p.x >= 0 && p.y >= 0);
    }
    assert!(p.y > 0);
}

#[test]
fn swimming_follows_feet_cell() {
    let mut world = grass_world(10);
    for y in 0..10 {
        world[5][y] = TileKind::Ocean.properties();
        world[6][y] = TileKind::Lilypad.properties();
    }
    let mut p = player_at(3 * SUBTILES, 3 * SUBTILES);
    p.key_pressed(MoveKey::Right);
    let mut seen_water = false;
    for _ in 0..200 {
        p.move_character(&world);
        let col = ((p.x + 500) / SUBTILES) as usize;
        let row = (p.y / SUBTILES) as usize + 2;
        assert_eq!(p.is_swimming, col < 10 && world[col][row].swimmable);
        seen_water |= p.is_swimming;
    }
    assert!(seen_water);
    assert!(!p.is_swimming);
}

#[test]
fn update_moves_and_ticks_unless_paused() {
    let world = grass_world(60);
    let mut p = Player::new(33, 25, 0);
    p.x = 1234;
    p.y = 5678;
    p.key_pressed(MoveKey::Down);
    p.update(&world, 20, 10);
    assert_eq!((p.width, p.height), (20, 10));
    assert_eq!(p.y, 5698);
    assert_eq!(p.uniforms.time, 1);
    assert_eq!(p.uniforms.translate_vector, [234, 698]);
    assert_eq!(p.uniforms.is_swimming, 0);
    assert_eq!(p.uniforms.light_intensity, light_intensity(1));

    p.paused = true;
    p.update(&world, 20, 10);
    assert_eq!(p.y, 5698);
    assert_eq!(p.y_speed, 20);
    assert_eq!(p.uniforms.time, 1);
}

#[test]
fn update_with_camera_offset() {
    // camera 4 x 6: feet cell is (cell(x + 0.5) + 2, cell(y) + 3 + 2)
    let mut world = grass_world(20);
    world[7][9] = TileKind::Kelp.properties();
    let mut p = player_at(5 * SUBTILES, 4 * SUBTILES);
    p.update(&world, 4, 6);
    assert!(p.is_swimming);
    assert_eq!(p.uniforms.is_swimming, 1);
}

#[test]
fn light_values() {
    assert_eq!(light_intensity(0), [1000, 900, 800]);
    assert_eq!(light_intensity(900), [1000, 1000, 1000]);
    assert_eq!(light_intensity(2700), [30, 60, 100]);
    // sine of 330 degrees is -0.5
    assert_eq!(light_intensity(3300), [500, 400, 300]);
}

#[test]
fn light_is_periodic() {
    for t in [-100_000i64, -3601, -1, 0, 1, 450, 1799, 2000, 3599, 1_000_000_007] {
        assert_eq!(light_intensity(t), light_intensity(t + DAY_LENGTH));
        assert_eq!(daylight(t, 100), daylight(t + 700, 100));
    }
    assert_eq!(light_intensity(-900), light_intensity(2700));
    assert_eq!(light_intensity(i64::MIN), light_intensity(i64::MIN + DAY_LENGTH));
}

#[test]
fn light_stays_in_bounds() {
    for t in (-5000i64..5000).step_by(7).chain([i64::MIN, i64::MAX]) {
        let [r, g, b] = light_intensity(t);
        assert!((30..=1000).contains(&r));
        assert!((60..=1000).contains(&g));
        assert!((100..=1000).contains(&b));
    }
}

#[test]
fn clock_saturates() {
    let world = grass_world(10);
    let mut p = player_at(0, 0);
    p.uniforms.time = i64::MAX;
    p.update(&world, 0, 0);
    assert_eq!(p.uniforms.time, i64::MAX);
}

#[test]
fn save_and_load() {
    let mut p = Player::new(33, 25, 5);
    p.x = 4000;
    p.y = 7000;
    p.uniforms.time = 77;
    let saved = p.game_data();
    assert_eq!(saved, GameData { x: 4000, y: 7000, health: 6, max_health: 6, seed: 5, time: 77 });

    let mut q = Player::new(33, 25, 1);
    let data = GameData { x: 10, y: 20, health: 3, max_health: 8, seed: 99, time: -5 };
    assert_eq!(q.load_gamedata(data), Ok(99));
    assert_eq!(q.game_data(), data);
}

#[test]
fn load_refuses_bad_positions() {
    let mut p = Player::new(33, 25, 5);
    p.x = 4000;
    let before = p.game_data();
    let bad = [
        GameData { x: -1, y: 0, health: 1, max_health: 1, seed: 2, time: 0 },
        GameData { x: 0, y: -1, health: 1, max_health: 1, seed: 2, time: 0 },
        GameData { x: MAX_POSITION + 1, y: 0, health: 1, max_health: 1, seed: 2, time: 0 },
        GameData { x: 0, y: MAX_POSITION + 1, health: 1, max_health: 1, seed: 2, time: 0 },
    ];
    for data in bad {
        assert_eq!(p.load_gamedata(data), Err(LoadError::PositionOutOfRange));
        assert_eq!(p.game_data(), before);
    }
    let edge = GameData { x: MAX_POSITION, y: 0, health: 1, max_health: 1, seed: 2, time: 0 };
    assert_eq!(p.load_gamedata(edge), Ok(2));
}

#[test]
fn player_sprite_quad() {
    let (vertices, indices) = player_vertices(33, 25);
    assert_eq!(indices, vec![0, 1, 2, 0, 2, 3]);
    let pos: Vec<[i32; 2]> = vertices.iter().map(|v| v.pos).collect();
    assert_eq!(pos, vec![[-1, 3], [-1, -3], [1, -3], [1, 3]]);
    let tex: Vec<[i32; 2]> = vertices.iter().map(|v| v.tex_coords).collect();
    assert_eq!(tex, vec![[0, 4], [0, 7], [1, 7], [1, 4]]);
    assert!(vertices.iter().all(|v| v.tile_span == [33, 25] && v.animation_frames == 1));
}
