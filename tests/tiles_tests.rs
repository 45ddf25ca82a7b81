use worldxplore::tiles::{ItemKind, ItemTypes, TileKind};

const CATALOG: [TileKind; 9] = [
    TileKind::DeepOcean,
    TileKind::Ocean,
    TileKind::Sand,
    TileKind::Grass,
    TileKind::Stump,
    TileKind::Kelp,
    TileKind::Lilypad,
    TileKind::Cactus,
    TileKind::Tree,
];

#[test]
fn atlas_coordinates_are_distinct() {
    for (i, a) in CATALOG.iter().enumerate() {
        for b in CATALOG.iter().skip(i + 1) {
            let (pa, pb) = (a.properties(), b.properties());
            assert_ne!((pa.ts_coord_x, pa.ts_coord_y), (pb.ts_coord_x, pb.ts_coord_y));
        }
    }
}

#[test]
fn catalog_flags() {
    let kelp = TileKind::Kelp.properties();
    assert!(kelp.swimmable && !kelp.solid);
    assert_eq!(kelp.animation_frames, 4);
    let lily = TileKind::Lilypad.properties();
    assert!(!lily.swimmable && !lily.solid);
    let cactus = TileKind::Cactus.properties();
    assert!(cactus.solid && cactus.damaging);
    assert!(TileKind::Stump.properties().solid);
    assert!(TileKind::DeepOcean.properties().swimmable);
    assert!(TileKind::Ocean.properties().swimmable);
    assert!(!TileKind::Sand.properties().solid);
    assert!(!TileKind::Grass.properties().swimmable);
}

#[test]
fn tree_footprint() {
    let tree = TileKind::Tree.properties();
    assert!(tree.solid);
    assert_eq!((tree.width, tree.height), (3, 4));
    assert_eq!((tree.offset_x, tree.offset_y), (-1, -3));
    assert_eq!((tree.ts_coord_x, tree.ts_coord_y), (8, 0));
}

#[test]
fn items() {
    let stick = ItemKind::Stick.properties();
    assert_eq!(stick.name, "Stick");
    assert_eq!((stick.ts_coord_x, stick.ts_coord_y), (4, 1));
    assert_eq!(stick.item_type, ItemTypes::Resource);
    let sword = ItemKind::Sword.properties();
    assert_eq!(sword.name, "Sword");
    assert_eq!(sword.item_type, ItemTypes::Weapon);
    assert!(!sword.stackable);
}
