//! Placement of scenery sprites: the transforms, tiling and empty bounding
//! records that a sprite starts with. The image itself is paired with these
//! by the caller.
use vstd::prelude::*;
use crate::bounding::Bounding;
use crate::geometry::{Aabb, Transform, Vec2, UNIT};

verus! {

/// How an image repeats across a stretched sprite: on which axes it is tiled,
/// and by what fixed-point factor the sprite is stretched on those axes. Each
/// tile keeps the image's size, so it covers one over that factor of the
/// sprite.
#[derive(Clone, Copy, Debug, PartialEq, Eq, Structural)]
pub struct Tiling {
    pub tile_x: bool,
    pub tile_y: bool,
    pub stretch_factor: i64,
}

/// Constructors for the placement of scenery sprites.
pub struct Create;

impl Create {
    /// A sprite placed at the given position and depth, at its natural size.
    pub fn sprite(trans_x: i64, trans_y: i64, trans_z: i64) -> (r: Transform)
        ensures
            r.translation == (Vec2 { x: trans_x, y: trans_y }),
            r.depth == trans_z,
            r.scale == (Vec2 { x: UNIT, y: UNIT }),
    {
        Transform::from_translation(trans_x, trans_y, trans_z)
    }

    /// A sprite as `sprite` makes it, with an empty bounding record.
    pub fn bounded_sprite(trans_x: i64, trans_y: i64, trans_z: i64) -> (r: (Transform, Bounding))
        ensures
            r.0 == Self::spec_sprite(trans_x, trans_y, trans_z),
            r.1@ == Seq::<Aabb>::empty(),
    {
        (Self::sprite(trans_x, trans_y, trans_z), Bounding::new())
    }

    pub open spec fn spec_sprite(trans_x: i64, trans_y: i64, trans_z: i64) -> Transform {
        Transform {
            translation: Vec2 { x: trans_x, y: trans_y },
            depth: trans_z,
            scale: Vec2 { x: UNIT, y: UNIT },
        }
    }

    /// A sprite stretched by `stretch_factor` along each tiled axis, with the
    /// image repeated along those axes; an axis that is not tiled keeps a
    /// scale of one.
    pub fn tiled_sprite(
        trans_x: i64,
        trans_y: i64,
        trans_z: i64,
        tile_x: bool,
        tile_y: bool,
        stretch_factor: i64,
    ) -> (r: (Transform, Tiling))
        ensures
            r.0 == Self::spec_tiled_sprite(trans_x, trans_y, trans_z, tile_x, tile_y, stretch_factor),
            r.1 == (Tiling { tile_x, tile_y, stretch_factor }),
    {
        let transform = Transform {
            translation: Vec2::new(trans_x, trans_y),
            depth: trans_z,
            scale: Vec2::new(
                if tile_x { stretch_factor } else { UNIT },
                if tile_y { stretch_factor } else { UNIT },
            ),
        };
        (transform, Tiling { tile_x, tile_y, stretch_factor })
    }

    pub open spec fn spec_tiled_sprite(
        trans_x: i64,
        trans_y: i64,
        trans_z: i64,
        tile_x: bool,
        tile_y: bool,
        stretch_factor: i64,
    ) -> Transform {
        Transform {
            translation: Vec2 { x: trans_x, y: trans_y },
            depth: trans_z,
            scale: Vec2 {
                x: if tile_x { stretch_factor } else { UNIT },
                y: if tile_y { stretch_factor } else { UNIT },
            },
        }
    }

    /// A tiled sprite as `tiled_sprite` makes it, with an empty bounding
    /// record.
    pub fn tiled_bounded_sprite(
        trans_x: i64,
        trans_y: i64,
        trans_z: i64,
        tile_x: bool,
        tile_y: bool,
        stretch_factor: i64,
    ) -> (r: (Transform, Tiling, Bounding))
        ensures
            r.0 == Self::spec_tiled_sprite(trans_x, trans_y, trans_z, tile_x, tile_y, stretch_factor),
            r.1 == (Tiling { tile_x, tile_y, stretch_factor }),
            r.2@ == Seq::<Aabb>::empty(),
    {
        let (transform, tiling) = Self::tiled_sprite(trans_x, trans_y, trans_z, tile_x, tile_y, stretch_factor);
        (transform, tiling, Bounding::new())
    }
}

} // verus!
