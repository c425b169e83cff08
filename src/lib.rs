//! A top-down yard scene: scenery boxes resolved through a scaled parent, and
//! a player whose moves are refused when they would run into scenery.

pub mod bounding;
pub mod geometry;
pub mod player;
pub mod sprite;

pub use bounding::{compute_bounding_boxes, composed_box, Bounding, ImageSize, SceneNode, SceneryItem};
pub use geometry::{Aabb, Transform, Vec2, UNIT};
pub use player::{
    move_player, next_walk_frame, player_collision_box, step_displacement, PLAYER_HEIGHT,
    PLAYER_SPEED, PLAYER_WIDTH, SHRINK_MARGIN,
};
pub use sprite::{Create, Tiling};
