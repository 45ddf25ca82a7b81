use vstd::prelude::*;

verus! {

/// Static gameplay properties of one kind of terrain tile.
///
/// Tiles that cover more than one grid cell (trees) give their footprint in
/// `width` x `height` cells and the offset that anchors the sprite's base on
/// its logical cell. `slowing` and `damaging` are carried for the renderer
/// and for later rules; movement reads only `solid` and `swimmable`.
#[derive(Clone, Copy, Debug, PartialEq, Eq, Structural)]
pub struct TileProperties {
    pub ts_coord_x: u32,
    pub ts_coord_y: u32,
    pub animation_frames: u32,
    pub solid: bool,
    pub swimmable: bool,
    pub slowing: bool,
    pub damaging: bool,
    pub width: u32,
    pub height: u32,
    pub offset_x: i32,
    pub offset_y: i32,
}

/// The closed catalog of terrain tiles.
#[derive(Clone, Copy, Debug, PartialEq, Eq, Structural)]
pub enum TileKind {
    /// Deep water.
    DeepOcean,
    /// Shallow water.
    Ocean,
    /// Beach sand.
    Sand,
    /// Grassland.
    Grass,
    /// A tree stump: a one-cell obstacle.
    Stump,
    /// Kelp growing in deep water.
    Kelp,
    /// A lily pad floating on shallow water; it cannot be swum in.
    Lilypad,
    /// A cactus on the beach: solid, and marked as damaging.
    Cactus,
    /// A tree: a solid obstacle drawn over three by four cells.
    Tree,
}

impl TileKind {
    /// The fixed properties of each kind.
    pub open spec fn spec_properties(self) -> TileProperties {
        match self {
            TileKind::DeepOcean => TileProperties {
                ts_coord_x: 0,
                ts_coord_y: 0,
                animation_frames: 4,
                solid: false,
                swimmable: true,
                slowing: true,
                damaging: false,
                width: 1,
                height: 1,
                offset_x: 0,
                offset_y: 0,
            },
            TileKind::Ocean => TileProperties {
                ts_coord_x: 1,
                ts_coord_y: 0,
                animation_frames: 4,
                solid: false,
                swimmable: true,
                slowing: true,
                damaging: false,
                width: 1,
                height: 1,
                offset_x: 0,
                offset_y: 0,
            },
            TileKind::Sand => TileProperties {
                ts_coord_x: 2,
                ts_coord_y: 0,
                animation_frames: 1,
                solid: false,
                swimmable: false,
                slowing: false,
                damaging: false,
                width: 1,
                height: 1,
                offset_x: 0,
                offset_y: 0,
            },
            TileKind::Grass => TileProperties {
                ts_coord_x: 3,
                ts_coord_y: 0,
                animation_frames: 1,
                solid: false,
                swimmable: false,
                slowing: false,
                damaging: false,
                width: 1,
                height: 1,
                offset_x: 0,
                offset_y: 0,
            },
            TileKind::Stump => TileProperties {
                ts_coord_x: 4,
                ts_coord_y: 0,
                animation_frames: 1,
                solid: true,
                swimmable: false,
                slowing: false,
                damaging: false,
                width: 1,
                height: 1,
                offset_x: 0,
                offset_y: 0,
            },
            TileKind::Kelp => TileProperties {
                ts_coord_x: 5,
                ts_coord_y: 0,
                animation_frames: 4,
                solid: false,
                swimmable: true,
                slowing: true,
                damaging: false,
                width: 1,
                height: 1,
                offset_x: 0,
                offset_y: 0,
            },
            TileKind::Lilypad => TileProperties {
                ts_coord_x: 6,
                ts_coord_y: 0,
                animation_frames: 4,
                solid: false,
                swimmable: false,
                slowing: false,
                damaging: false,
                width: 1,
                height: 1,
                offset_x: 0,
                offset_y: 0,
            },
            TileKind::Cactus => TileProperties {
                ts_coord_x: 7,
                ts_coord_y: 0,
                animation_frames: 1,
                solid: true,
                swimmable: false,
                slowing: false,
                damaging: true,
                width: 1,
                height: 1,
                offset_x: 0,
                offset_y: 0,
            },
            TileKind::Tree => TileProperties {
                ts_coord_x: 8,
                ts_coord_y: 0,
                animation_frames: 1,
                solid: true,
                swimmable: false,
                slowing: false,
                damaging: false,
                width: 3,
                height: 4,
                offset_x: -1i32,
                offset_y: -3i32,
            },
        }
    }

    pub fn properties(&self) -> (r: TileProperties)
        ensures
            r == self.spec_properties(),
    {
        match self {
            TileKind::DeepOcean => TileProperties {
                ts_coord_x: 0,
                ts_coord_y: 0,
                animation_frames: 4,
                solid: false,
                swimmable: true,
                slowing: true,
                damaging: false,
                width: 1,
                height: 1,
                offset_x: 0,
                offset_y: 0,
            },
            TileKind::Ocean => TileProperties {
                ts_coord_x: 1,
                ts_coord_y: 0,
                animation_frames: 4,
                solid: false,
                swimmable: true,
                slowing: true,
                damaging: false,
                width: 1,
                height: 1,
                offset_x: 0,
                offset_y: 0,
            },
            TileKind::Sand => TileProperties {
                ts_coord_x: 2,
                ts_coord_y: 0,
                animation_frames: 1,
                solid: false,
                swimmable: false,
                slowing: false,
                damaging: false,
                width: 1,
                height: 1,
                offset_x: 0,
                offset_y: 0,
            },
            TileKind::Grass => TileProperties {
                ts_coord_x: 3,
                ts_coord_y: 0,
                animation_frames: 1,
                solid: false,
                swimmable: false,
                slowing: false,
                damaging: false,
                width: 1,
                height: 1,
                offset_x: 0,
                offset_y: 0,
            },
            TileKind::Stump => TileProperties {
                ts_coord_x: 4,
                ts_coord_y: 0,
                animation_frames: 1,
                solid: true,
                swimmable: false,
                slowing: false,
                damaging: false,
                width: 1,
                height: 1,
                offset_x: 0,
                offset_y: 0,
            },
            TileKind::Kelp => TileProperties {
                ts_coord_x: 5,
                ts_coord_y: 0,
                animation_frames: 4,
                solid: false,
                swimmable: true,
                slowing: true,
                damaging: false,
                width: 1,
                height: 1,
                offset_x: 0,
                offset_y: 0,
            },
            TileKind::Lilypad => TileProperties {
                ts_coord_x: 6,
                ts_coord_y: 0,
                animation_frames: 4,
                solid: false,
                swimmable: false,
                slowing: false,
                damaging: false,
                width: 1,
                height: 1,
                offset_x: 0,
                offset_y: 0,
            },
            TileKind::Cactus => TileProperties {
                ts_coord_x: 7,
                ts_coord_y: 0,
                animation_frames: 1,
                solid: true,
                swimmable: false,
                slowing: false,
                damaging: true,
                width: 1,
                height: 1,
                offset_x: 0,
                offset_y: 0,
            },
            TileKind::Tree => TileProperties {
                ts_coord_x: 8,
                ts_coord_y: 0,
                animation_frames: 1,
                solid: true,
                swimmable: false,
                slowing: false,
                damaging: false,
                width: 3,
                height: 4,
                offset_x: -1i32,
                offset_y: -3i32,
            },
        }
    }
}
/// What the renderer needs to draw one tile of the visible window.
///
/// `x` and `y` give the tile's place relative to the window's first tile;
/// `cam_width` and `cam_height` are the window's size in tiles, which fixes
/// the on-screen size of one tile. The other fields are the tile's own
/// properties.
#[derive(Clone, Copy, Debug, PartialEq, Eq, Structural)]
pub struct TileInstance {
    pub x: i32,
    pub y: i32,
    pub offset_x: i32,
    pub offset_y: i32,
    pub cam_width: i32,
    pub cam_height: i32,
    pub ts_coord_x: u32,
    pub ts_coord_y: u32,
    pub animation_frames: u32,
    pub width: u32,
    pub height: u32,
}

#[derive(Clone, Copy, Debug, PartialEq, Eq, Structural)]
pub enum ItemTypes {
    Weapon,
    Tool,
    Resource,
}

/// Static properties of one kind of inventory item.
#[derive(Clone, Copy, Debug)]
pub struct ItemProperties<'a> {
    pub ts_coord_x: u32,
    pub ts_coord_y: u32,
    pub animation_frames: u32,
    pub name: &'a str,
    pub stackable: bool,
    pub item_type: ItemTypes,
}

/// The closed catalog of inventory items.
#[derive(Clone, Copy, Debug, PartialEq, Eq, Structural)]
pub enum ItemKind {
    Stick,
    Sword,
}

impl ItemKind {
    pub open spec fn spec_properties(self) -> ItemProperties<'static> {
        match self {
            ItemKind::Stick => ItemProperties {
                ts_coord_x: 4,
                ts_coord_y: 1,
                animation_frames: 1,
                name: "Stick",
                stackable: false,
                item_type: ItemTypes::Resource,
            },
            ItemKind::Sword => ItemProperties {
                ts_coord_x: 4,
                ts_coord_y: 2,
                animation_frames: 1,
                name: "Sword",
                stackable: false,
                item_type: ItemTypes::Weapon,
            },
        }
    }

    pub fn properties(&self) -> (r: ItemProperties<'static>)
        ensures
            r == self.spec_properties(),
    {
        match self {
            ItemKind::Stick => ItemProperties {
                ts_coord_x: 4,
                ts_coord_y: 1,
                animation_frames: 1,
                name: "Stick",
                stackable: false,
                item_type: ItemTypes::Resource,
            },
            ItemKind::Sword => ItemProperties {
                ts_coord_x: 4,
                ts_coord_y: 2,
                animation_frames: 1,
                name: "Sword",
                stackable: false,
                item_type: ItemTypes::Weapon,
            },
        }
    }
}

/// No two kinds of tile share a place in the texture atlas.
pub proof fn lemma_atlas_coords_distinct(a: TileKind, b: TileKind)
    requires
        a != b,
    ensures
        (a.spec_properties().ts_coord_x, a.spec_properties().ts_coord_y) != (
            b.spec_properties().ts_coord_x,
            b.spec_properties().ts_coord_y,
        ),
{
}

} // verus!
