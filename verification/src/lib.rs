//! Per-frame visual presentation for a 2D action game: sprite-sheet frame
//! cycling, sprite mirroring from relative positions, and the decisions of a
//! camera that follows the player.

pub mod clock;
pub mod frames;
pub mod orientation;
pub mod camera;
pub mod stage;
pub mod animation;
pub mod pipeline;
