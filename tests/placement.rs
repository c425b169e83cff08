use yard_game::{Create, Tiling, Transform, Vec2, UNIT};

#[test]
fn sprite_has_unit_scale() {
    let t = Create::sprite(340 * UNIT, -600 * UNIT, 0);
    assert_eq!(t, Transform { translation: Vec2::new(340 * UNIT, -600 * UNIT), depth: 0, scale: Vec2::new(UNIT, UNIT) });
}

#[test]
fn bounded_sprite_starts_without_boxes() {
    let (t, bounding) = Create::bounded_sprite(0, -400 * UNIT, 3);
    assert_eq!(t, Create::sprite(0, -400 * UNIT, 3));
    assert!(bounding.boxes.is_empty());
}

#[test]
fn tiled_sprite_stretches_tiled_axes_only() {
    let (t, tiling) = Create::tiled_sprite(880 * UNIT, 0, 0, false, true, 15 * UNIT);
    assert_eq!(t.translation, Vec2::new(880 * UNIT, 0));
    assert_eq!(t.scale, Vec2::new(UNIT, 15 * UNIT));
    assert_eq!(tiling, Tiling { tile_x: false, tile_y: true, stretch_factor: 15 * UNIT });
    let (t, _) = Create::tiled_sprite(0, 0, 0, true, true, 2 * UNIT);
    assert_eq!(t.scale, Vec2::new(2 * UNIT, 2 * UNIT));
}

#[test]
fn tiled_bounded_sprite_matches_tiled_sprite() {
    let (t, tiling, bounding) = Create::tiled_bounded_sprite(-966 * UNIT, 0, -UNIT / 5, false, true, 60 * UNIT);
    let (t2, tiling2) = Create::tiled_sprite(-966 * UNIT, 0, -UNIT / 5, false, true, 60 * UNIT);
    assert_eq!(t, t2);
    assert_eq!(tiling, tiling2);
    assert!(bounding.boxes.is_empty());
}
