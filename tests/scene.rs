use yard_game::{
    compute_bounding_boxes, composed_box, Aabb, Bounding, ImageSize, SceneNode, SceneryItem,
    Transform, Vec2, UNIT,
};

fn transform(x: i64, y: i64, scale_x: i64, scale_y: i64) -> Transform {
    Transform { translation: Vec2::new(x, y), depth: 0, scale: Vec2::new(scale_x, scale_y) }
}

fn item(t: Transform, image: Option<ImageSize>) -> SceneryItem {
    SceneryItem { transform: t, image, bounding: Bounding::new() }
}

#[test]
fn half_scaled_parent_with_stretched_tree() {
    let parent = transform(0, 0, UNIT / 2, UNIT / 2);
    let child = transform(880 * UNIT, 0, 15 * UNIT, UNIT);
    let b = composed_box(&parent, &child, ImageSize { width: 64, height: 64 }).unwrap();
    assert_eq!(b.center, Vec2::new(440 * UNIT, 0));
    assert_eq!(b.half_extent, Vec2::new(240 * UNIT, 16 * UNIT));
}

#[test]
fn composition_adds_parent_translation() {
    let parent = transform(3 * UNIT, -7 * UNIT, 2 * UNIT, 3 * UNIT);
    let child = transform(5 * UNIT, 4 * UNIT, UNIT, 2 * UNIT);
    let b = composed_box(&parent, &child, ImageSize { width: 10, height: 6 }).unwrap();
    assert_eq!(b.center, Vec2::new(13 * UNIT, 5 * UNIT));
    assert_eq!(b.half_extent, Vec2::new(10 * UNIT, 18 * UNIT));
}

#[test]
fn composition_rounds_towards_negative_infinity() {
    let parent = transform(0, 0, UNIT / 2, UNIT / 2);
    let child = transform(-3, 3, UNIT, UNIT);
    let b = composed_box(&parent, &child, ImageSize { width: 1, height: 1 }).unwrap();
    assert_eq!(b.center, Vec2::new(-2, 1));
    assert_eq!(b.half_extent, Vec2::new(UNIT / 4, UNIT / 4));
}

#[test]
fn zero_scale_gives_degenerate_box() {
    let parent = transform(UNIT, UNIT, 0, UNIT);
    let child = transform(50 * UNIT, 50 * UNIT, UNIT, UNIT);
    let b = composed_box(&parent, &child, ImageSize { width: 64, height: 32 }).unwrap();
    assert_eq!(b.center, Vec2::new(UNIT, 51 * UNIT));
    assert_eq!(b.half_extent, Vec2::new(0, 16 * UNIT));
}

#[test]
fn unrepresentable_box_is_refused() {
    let parent = transform(0, 0, i64::MAX, UNIT);
    let child = transform(0, 0, i64::MAX, UNIT);
    assert!(composed_box(&parent, &child, ImageSize { width: u32::MAX, height: 1 }).is_none());
    let parent = transform(i64::MAX, 0, UNIT, UNIT);
    let child = transform(UNIT, 0, UNIT, UNIT);
    assert!(composed_box(&parent, &child, ImageSize { width: 1, height: 1 }).is_none());
}

#[test]
fn resolver_sets_one_box_per_loaded_item() {
    let mut node = SceneNode {
        transform: transform(0, 0, UNIT / 2, UNIT / 2),
        items: vec![
            item(transform(880 * UNIT, 0, 15 * UNIT, UNIT), Some(ImageSize { width: 64, height: 64 })),
            item(transform(0, -400 * UNIT, UNIT, UNIT), None),
        ],
    };
    compute_bounding_boxes(&mut node);
    assert_eq!(node.items.len(), 2);
    assert_eq!(
        node.items[0].bounding.boxes,
        vec![Aabb::new(Vec2::new(440 * UNIT, 0), Vec2::new(240 * UNIT, 16 * UNIT))]
    );
    assert!(node.items[1].bounding.boxes.is_empty());
    assert_eq!(node.items[1].transform, transform(0, -400 * UNIT, UNIT, UNIT));
}

#[test]
fn resolver_replaces_rather_than_appends() {
    let mut node = SceneNode {
        transform: transform(UNIT, 2 * UNIT, UNIT, UNIT),
        items: vec![item(transform(UNIT, UNIT, UNIT, UNIT), Some(ImageSize { width: 2, height: 4 }))],
    };
    compute_bounding_boxes(&mut node);
    compute_bounding_boxes(&mut node);
    assert_eq!(
        node.items[0].bounding.boxes,
        vec![Aabb::new(Vec2::new(2 * UNIT, 3 * UNIT), Vec2::new(UNIT, 2 * UNIT))]
    );
}

#[test]
fn resolver_follows_a_moved_parent() {
    let mut node = SceneNode {
        transform: transform(0, 0, UNIT, UNIT),
        items: vec![item(transform(UNIT, 0, UNIT, UNIT), Some(ImageSize { width: 2, height: 2 }))],
    };
    compute_bounding_boxes(&mut node);
    node.transform = transform(10 * UNIT, 0, UNIT, UNIT);
    compute_bounding_boxes(&mut node);
    assert_eq!(node.items[0].bounding.boxes, vec![Aabb::new(Vec2::new(11 * UNIT, 0), Vec2::new(UNIT, UNIT))]);
}

#[test]
fn missing_image_keeps_earlier_boxes() {
    let earlier = Aabb::new(Vec2::new(5, 5), Vec2::new(1, 1));
    let mut node = SceneNode {
        transform: transform(0, 0, UNIT, UNIT),
        items: vec![SceneryItem {
            transform: transform(UNIT, UNIT, UNIT, UNIT),
            image: None,
            bounding: Bounding { boxes: vec![earlier] },
        }],
    };
    compute_bounding_boxes(&mut node);
    assert_eq!(node.items[0].bounding.boxes, vec![earlier]);
}

#[test]
fn empty_scene_resolves_to_nothing() {
    let mut node = SceneNode { transform: transform(0, 0, UNIT, UNIT), items: Vec::new() };
    compute_bounding_boxes(&mut node);
    assert!(node.items.is_empty());
}

#[test]
fn boxes_touching_at_an_edge_intersect() {
    let a = Aabb::new(Vec2::new(0, 0), Vec2::new(10, 10));
    let b = Aabb::new(Vec2::new(20, 0), Vec2::new(10, 10));
    let c = Aabb::new(Vec2::new(21, 0), Vec2::new(10, 10));
    let d = Aabb::new(Vec2::new(0, 25), Vec2::new(10, 10));
    assert!(a.intersects(&b));
    assert!(b.intersects(&a));
    assert!(!a.intersects(&c));
    assert!(!a.intersects(&d));
}

#[test]
fn extreme_boxes_intersect_without_overflow() {
    let a = Aabb::new(Vec2::new(i64::MAX, i64::MIN), Vec2::new(i64::MAX, i64::MAX));
    let b = Aabb::new(Vec2::new(0, 0), Vec2::new(i64::MAX, i64::MAX));
    assert!(a.intersects(&b));
    let c = Aabb::new(Vec2::new(i64::MIN, 0), Vec2::new(0, 0));
    let d = Aabb::new(Vec2::new(i64::MAX, 0), Vec2::new(0, 0));
    assert!(!c.intersects(&d));
}

#[test]
fn shrink_reduces_half_extents_only() {
    let a = Aabb::new(Vec2::new(3, 4), Vec2::new(16, 24));
    let s = a.shrink(Vec2::new(10, 10));
    assert_eq!(s.center, Vec2::new(3, 4));
    assert_eq!(s.half_extent, Vec2::new(6, 14));
}
