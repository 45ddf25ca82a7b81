// A tile world and the player who walks it: the tile catalog, the
// classification of noise samples into tiles, the window of tiles that the
// renderer draws, and the per-tick movement of the player (and of a free
// camera) with collisions, swimming and the day-light cycle.

pub mod camera;
pub mod player;
pub mod render;
pub mod tiles;
pub mod ui;
pub mod worldgen;
