use worldxplore::render::gen_tile_instances;
use worldxplore::tiles::{TileKind, TileProperties};
use worldxplore::ui::Group;

fn striped_world() -> Vec<Vec<TileProperties>> {
    let kinds = [TileKind::Sand, TileKind::Grass, TileKind::Ocean, TileKind::Tree, TileKind::Kelp];
    (0..5).map(|x| (0..5).map(|y| kinds[(x + 2 * y) % 5].properties()).collect()).collect()
}

#[test]
fn tile_instances_cover_the_window() {
    let world = striped_world();
    let instances = gen_tile_instances(&world, 1, 2, 2, 1);
    assert_eq!(instances.len(), 6);
    for (k, inst) in instances.iter().enumerate() {
        let (i, j) = (k / 2, k % 2);
        let tile = world[1 + i][2 + j];
        assert_eq!((inst.x, inst.y), (i as i32, j as i32));
        assert_eq!((inst.cam_width, inst.cam_height), (2, 1));
        assert_eq!((inst.ts_coord_x, inst.ts_coord_y), (tile.ts_coord_x, tile.ts_coord_y));
        assert_eq!((inst.offset_x, inst.offset_y), (tile.offset_x, tile.offset_y));
        assert_eq!((inst.width, inst.height), (tile.width, tile.height));
        assert_eq!(inst.animation_frames, tile.animation_frames);
    }
    // column 1 + 1, row 2 + 0 holds (2 + 4) % 5 = 1: grass
    assert_eq!(instances[2].ts_coord_x, TileKind::Grass.properties().ts_coord_x);
}

#[test]
fn tile_instances_of_a_tree_keep_its_footprint() {
    let world = vec![vec![TileKind::Tree.properties(); 2]; 2];
    let instances = gen_tile_instances(&world, 0, 0, 0, 0);
    assert_eq!(instances.len(), 1);
    assert_eq!((instances[0].width, instances[0].height), (3, 4));
    assert_eq!((instances[0].offset_x, instances[0].offset_y), (-1, -3));
}

#[test]
fn tile_instances_empty_window() {
    let world = striped_world();
    assert!(gen_tile_instances(&world, 0, 0, -1, 3).is_empty());
    assert!(gen_tile_instances(&world, 0, 0, 3, -1).is_empty());
}

#[test]
fn group_concatenates_children() {
    let group = Group { children: vec![vec![1u32, 2], vec![], vec![3], vec![4, 5, 6]] };
    assert_eq!(group.gen_vertices(), vec![1, 2, 3, 4, 5, 6]);
    let empty: Group<u32> = Group { children: Vec::new() };
    assert!(empty.gen_vertices().is_empty());
}
