//! Resolution of the world-space boxes of scenery placed under a scaled parent.
use vstd::prelude::*;
use crate::geometry::{fits_i64, fx_mul, Aabb, Transform, Vec2, UNIT};

verus! {

/// Pixel dimensions of a loaded image.
#[derive(Clone, Copy, Debug, PartialEq, Eq, Structural)]
pub struct ImageSize {
    pub width: u32,
    pub height: u32,
}

/// The boxes that one scenery item blocks, in world space.
#[derive(Debug)]
pub struct Bounding {
    pub boxes: Vec<Aabb>,
}

impl View for Bounding {
    type V = Seq<Aabb>;

    open spec fn view(&self) -> Seq<Aabb> {
        self.boxes@
    }
}

impl Bounding {
    /// A record with no boxes yet.
    pub fn new() -> (r: Bounding)
        ensures
            r@ == Seq::<Aabb>::empty(),
    {
        Bounding { boxes: Vec::new() }
    }
}

/// A piece of scenery: its transform relative to its parent, the pixel size
/// of its image once that is loaded, and its resolved boxes.
#[derive(Debug)]
pub struct SceneryItem {
    pub transform: Transform,
    pub image: Option<ImageSize>,
    pub bounding: Bounding,
}

/// A container that positions and scales its scenery items as one group.
#[derive(Debug)]
pub struct SceneNode {
    pub transform: Transform,
    pub items: Vec<SceneryItem>,
}

/// World-space center of a child, on one axis.
pub open spec fn composed_center(parent_translation: int, parent_scale: int, child_translation: int) -> int {
    parent_translation + fx_mul(parent_scale, child_translation)
}

/// World-space half-extent of a child, on one axis: the image's pixel length
/// scaled by parent and child, halved, rounded towards negative infinity.
pub open spec fn composed_half_extent(pixels: int, parent_scale: int, child_scale: int) -> int {
    (pixels * parent_scale * child_scale) / (2 * UNIT as int)
}

/// Whether every component of the composed box can be stored.
pub open spec fn composition_fits(parent: Transform, child: Transform, image: ImageSize) -> bool {
    &&& fits_i64(composed_center(parent.translation.x as int, parent.scale.x as int, child.translation.x as int))
    &&& fits_i64(composed_center(parent.translation.y as int, parent.scale.y as int, child.translation.y as int))
    &&& fits_i64(composed_half_extent(image.width as int, parent.scale.x as int, child.scale.x as int))
    &&& fits_i64(composed_half_extent(image.height as int, parent.scale.y as int, child.scale.y as int))
}

/// The world-space box of a child under its parent.
pub open spec fn composed(parent: Transform, child: Transform, image: ImageSize) -> Aabb {
    Aabb {
        center: Vec2 {
            x: composed_center(parent.translation.x as int, parent.scale.x as int, child.translation.x as int) as i64,
            y: composed_center(parent.translation.y as int, parent.scale.y as int, child.translation.y as int) as i64,
        },
        half_extent: Vec2 {
            x: composed_half_extent(image.width as int, parent.scale.x as int, child.scale.x as int) as i64,
            y: composed_half_extent(image.height as int, parent.scale.y as int, child.scale.y as int) as i64,
        },
    }
}

proof fn lemma_quotient_bounds(p: int, d: int)
    requires
        d > 0,
    ensures
        p >= 0 ==> 0 <= p / d <= p,
        p < 0 ==> p <= p / d < 0,
        p < d * (p / d + 1),
        d * (p / d) <= p,
{
    vstd::arithmetic::div_mod::lemma_fundamental_div_mod(p, d);
    vstd::arithmetic::div_mod::lemma_mod_bound(p, d);
    let q = p / d;
    let r = p % d;
    assert(p == d * q + r);
    if p >= 0 {
        vstd::arithmetic::div_mod::lemma_div_pos_is_pos(p, d);
        vstd::arithmetic::div_mod::lemma_div_is_ordered_by_denominator(p, 1, d);
    } else {
        assert(q < 0) by (nonlinear_arith)
            requires p == d * q + r, 0 <= r < d, p < 0, d > 0;
        assert(p <= q) by (nonlinear_arith)
            requires p == d * q + r, 0 <= r < d, q < 0, d > 0;
    }
    assert(p < d * (q + 1)) by (nonlinear_arith)
        requires p == d * q + r, 0 <= r < d;
}

/// `center + scale * translation / UNIT` on one axis, when it can be stored.
fn compose_center(parent_translation: i64, parent_scale: i64, child_translation: i64) -> (r: Option<i64>)
    ensures
        r is Some <==> fits_i64(composed_center(parent_translation as int, parent_scale as int, child_translation as int)),
        r matches Some(v) ==> v == composed_center(parent_translation as int, parent_scale as int, child_translation as int),
{
    assert(-0x4000_0000_0000_0000_0000_0000_0000_0000 <= parent_scale as int * child_translation as int
        <= 0x4000_0000_0000_0000_0000_0000_0000_0000) by (nonlinear_arith)
        requires
            -0x8000_0000_0000_0000 <= parent_scale < 0x8000_0000_0000_0000,
            -0x8000_0000_0000_0000 <= child_translation < 0x8000_0000_0000_0000;
    let product: i128 = parent_scale as i128 * child_translation as i128;
    proof {
        lemma_quotient_bounds(product as int, UNIT as int);
    }
    let scaled: i128 = match product.checked_div_euclid(UNIT as i128) {
        Some(q) => q,
        None => { return None; },
    };
    let center: i128 = parent_translation as i128 + scaled;
    if center < i64::MIN as i128 || center > i64::MAX as i128 {
        None
    } else {
        Some(center as i64)
    }
}

/// `pixels * parent_scale * child_scale / (2 * UNIT)` on one axis, when it
/// can be stored.
fn compose_half_extent(pixels: u32, parent_scale: i64, child_scale: i64) -> (r: Option<i64>)
    ensures
        r is Some <==> fits_i64(composed_half_extent(pixels as int, parent_scale as int, child_scale as int)),
        r matches Some(v) ==> v == composed_half_extent(pixels as int, parent_scale as int, child_scale as int),
{
    let ghost exact: int = pixels as int * parent_scale as int * child_scale as int;
    let ghost d: int = 2 * UNIT as int;
    assert(-0x1_0000_0000 * 0x8000_0000_0000_0000 <= pixels as int * parent_scale as int
        <= 0x1_0000_0000 * 0x8000_0000_0000_0000) by (nonlinear_arith)
        requires
            0 <= pixels < 0x1_0000_0000,
            -0x8000_0000_0000_0000 <= parent_scale < 0x8000_0000_0000_0000;
    let partial: i128 = pixels as i128 * parent_scale as i128;
    proof {
        lemma_quotient_bounds(exact, d);
    }
    let product: i128 = match partial.checked_mul(child_scale as i128) {
        Some(p) => p,
        None => {
            assert(!fits_i64(exact / d)) by (nonlinear_arith)
                requires
                    exact > i128::MAX || exact < i128::MIN,
                    exact < d * (exact / d + 1),
                    d * (exact / d) <= exact,
                    d == 2048;
            return None;
        },
    };
    proof {
        lemma_quotient_bounds(product as int, d);
    }
    let half: i128 = match product.checked_div_euclid(2 * UNIT as i128) {
        Some(q) => q,
        None => { return None; },
    };
    if half < i64::MIN as i128 || half > i64::MAX as i128 {
        None
    } else {
        Some(half as i64)
    }
}

/// The world-space box of a scenery item under its parent, or `None` when a
/// component of it lies outside the range of `i64`.
///
/// The center is the parent's translation plus the parent's scale times the
/// child's translation; the half-extent is the image's pixel size times the
/// parent's and the child's scale, halved.
pub fn composed_box(parent: &Transform, child: &Transform, image: ImageSize) -> (r: Option<Aabb>)
    ensures
        r is Some <==> composition_fits(*parent, *child, image),
        r matches Some(b) ==> {
            &&& b == composed(*parent, *child, image)
            &&& b.center.x == parent.translation.x + fx_mul(parent.scale.x as int, child.translation.x as int)
            &&& b.center.y == parent.translation.y + fx_mul(parent.scale.y as int, child.translation.y as int)
            &&& b.half_extent.x == (image.width * parent.scale.x * child.scale.x) / (2 * UNIT as int)
            &&& b.half_extent.y == (image.height * parent.scale.y * child.scale.y) / (2 * UNIT as int)
        },
{
    let cx = compose_center(parent.translation.x, parent.scale.x, child.translation.x);
    let cy = compose_center(parent.translation.y, parent.scale.y, child.translation.y);
    let hx = compose_half_extent(image.width, parent.scale.x, child.scale.x);
    let hy = compose_half_extent(image.height, parent.scale.y, child.scale.y);
    match (cx, cy, hx, hy) {
        (Some(x), Some(y), Some(w), Some(h)) => Some(Aabb::new(Vec2::new(x, y), Vec2::new(w, h))),
        _ => None,
    }
}

/// The boxes an item holds after one resolver pass under the given parent:
/// exactly its composed box when its image is loaded and that box can be
/// stored, else the boxes it held before.
pub open spec fn resolved_boxes(parent: Transform, item: SceneryItem) -> Seq<Aabb> {
    match item.image {
        Some(image) => if composition_fits(parent, item.transform, image) {
            seq![composed(parent, item.transform, image)]
        } else {
            item.bounding@
        },
        None => item.bounding@,
    }
}

/// `after` is `before` with its boxes resolved under `parent`.
pub open spec fn item_resolved(parent: Transform, before: SceneryItem, after: SceneryItem) -> bool {
    &&& after.transform == before.transform
    &&& after.image == before.image
    &&& after.bounding@ == resolved_boxes(parent, before)
}

/// An item resolved under a parent holds one box, whose center is the
/// parent's translation plus the parent's scale times the item's translation,
/// and whose half-extent is the image's size times both scales, halved.
pub proof fn lemma_resolved_box_composition(parent: Transform, item: SceneryItem, image: ImageSize)
    requires
        item.image == Some(image),
        composition_fits(parent, item.transform, image),
    ensures
        resolved_boxes(parent, item).len() == 1,
        resolved_boxes(parent, item)[0].center.x
            == parent.translation.x + parent.scale.x * item.transform.translation.x / (UNIT as int),
        resolved_boxes(parent, item)[0].center.y
            == parent.translation.y + parent.scale.y * item.transform.translation.y / (UNIT as int),
        resolved_boxes(parent, item)[0].half_extent.x
            == image.width * parent.scale.x * item.transform.scale.x / (2 * UNIT as int),
        resolved_boxes(parent, item)[0].half_extent.y
            == image.height * parent.scale.y * item.transform.scale.y / (2 * UNIT as int),
{
}

/// Resolving an item a second time under the same parent leaves its boxes as
/// the first pass left them: boxes are replaced, never appended.
pub proof fn lemma_resolve_twice(parent: Transform, before: SceneryItem, once: SceneryItem)
    requires
        item_resolved(parent, before, once),
    ensures
        resolved_boxes(parent, once) == resolved_boxes(parent, before),
{
}

/// Replaces the boxes of every item of the node with its world-space box.
///
/// An item whose image is not loaded yet, or whose box lies outside the range
/// of `i64`, is skipped and keeps the boxes it had. Nothing else changes, so
/// running the pass twice gives the same boxes as running it once.
pub fn compute_bounding_boxes(node: &mut SceneNode)
    ensures
        final(node).transform == old(node).transform,
        final(node).items@.len() == old(node).items@.len(),
        forall|i: int|
            0 <= i < old(node).items@.len() ==> item_resolved(
                old(node).transform,
                #[trigger] old(node).items@[i],
                final(node).items@[i],
            ),
{
    let parent = node.transform;
    let n = node.items.len();
    let mut i: usize = 0;
    while i < n
        invariant
            0 <= i <= n,
            n == node.items@.len(),
            n == old(node).items@.len(),
            parent == node.transform,
            parent == old(node).transform,
            forall|j: int| 0 <= j < i ==> item_resolved(parent, #[trigger] old(node).items@[j], node.items@[j]),
            forall|j: int| i <= j < n ==> #[trigger] node.items@[j] == old(node).items@[j],
        decreases n - i,
    {
        if let Some(image) = node.items[i].image {
            if let Some(b) = composed_box(&parent, &node.items[i].transform, image) {
                let mut boxes: Vec<Aabb> = Vec::new();
                boxes.push(b);
                assert(boxes@ =~= seq![b]);
                node.items[i].bounding.boxes = boxes;
            }
        }
        i += 1;
    }
}

} // verus!
