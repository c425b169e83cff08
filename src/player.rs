//! The player's collision box and the rule that refuses moves into scenery.
use vstd::prelude::*;
use crate::bounding::Bounding;
use crate::geometry::{fits_i64, overlaps, Aabb, Transform, Vec2, UNIT};

verus! {

/// Width of the player's sprite, in pixels.
pub const PLAYER_WIDTH: i64 = 32;

/// Height of the player's sprite, in pixels.
pub const PLAYER_HEIGHT: i64 = 47;

/// How much the player's collision box is shrunk on each side, in world
/// units, so that grazing a box does not block a move.
pub const SHRINK_MARGIN: i64 = 10;

/// The box the player's sprite covers when centered at `center`.
pub open spec fn sprite_box(center: Vec2) -> Aabb {
    Aabb {
        center,
        half_extent: Vec2 {
            x: (PLAYER_WIDTH * UNIT / 2) as i64,
            y: (PLAYER_HEIGHT * UNIT / 2) as i64,
        },
    }
}

/// The box that the player collides with when centered at `center`: the
/// sprite's box shrunk by the margin on both axes.
pub open spec fn collision_box(center: Vec2) -> Aabb {
    Aabb {
        center,
        half_extent: Vec2 {
            x: (PLAYER_WIDTH * UNIT / 2 - SHRINK_MARGIN * UNIT) as i64,
            y: (PLAYER_HEIGHT * UNIT / 2 - SHRINK_MARGIN * UNIT) as i64,
        },
    }
}

/// The boxes of each scenery record.
pub open spec fn boxes_of(scenery: Seq<Bounding>) -> Seq<Seq<Aabb>> {
    scenery.map_values(|b: Bounding| b@)
}

/// Whether `b` overlaps any box of any scenery record.
pub open spec fn blocked(b: Aabb, scenery: Seq<Seq<Aabb>>) -> bool {
    exists|i: int, j: int|
        0 <= i < scenery.len() && 0 <= j < scenery[i].len() && overlaps(b, #[trigger] scenery[i][j])
}

/// Whether a move by `d` from `player` stays within the range of `i64`.
pub open spec fn move_fits(player: Transform, displacement: Option<Vec2>) -> bool {
    displacement matches Some(d) ==> player.translation.can_add(d)
}

/// The player's transform after a move request: unchanged when no move is asked
/// for or when the moved collision box overlaps scenery, else moved by the
/// whole displacement.
pub open spec fn moved_player(player: Transform, displacement: Option<Vec2>, scenery: Seq<Seq<Aabb>>) -> Transform {
    match displacement {
        None => player,
        Some(d) => {
            let moved = player.translation.spec_add(d);
            if d.is_zero() || blocked(collision_box(moved), scenery) {
                player
            } else {
                Transform { translation: moved, ..player }
            }
        },
    }
}

/// Walking speed of the player, in world units per second.
pub const PLAYER_SPEED: i64 = 150;

/// Microseconds in a second.
pub const MICROS_PER_SECOND: i64 = 1_000_000;

/// Columns of the walking sprite sheet: frames of one walking direction.
pub const WALK_FRAMES: usize = 6;

/// Displacement along one axis over `elapsed_micros` at the walking speed,
/// for a direction component given in fixed point, rounded towards negative
/// infinity.
pub open spec fn step_along(direction: int, elapsed_micros: int) -> int {
    (direction * PLAYER_SPEED * elapsed_micros) / (MICROS_PER_SECOND as int)
}

/// The displacement for one frame: the walking direction times the speed
/// times the elapsed time, or `None` when a component of it lies outside the
/// range of `i64`.
pub fn step_displacement(direction: Vec2, elapsed_micros: u32) -> (r: Option<Vec2>)
    ensures
        r is Some <==> fits_i64(step_along(direction.x as int, elapsed_micros as int))
            && fits_i64(step_along(direction.y as int, elapsed_micros as int)),
        r matches Some(d) ==> d.x == step_along(direction.x as int, elapsed_micros as int)
            && d.y == step_along(direction.y as int, elapsed_micros as int),
{
    let x = step_component(direction.x, elapsed_micros);
    let y = step_component(direction.y, elapsed_micros);
    match (x, y) {
        (Some(x), Some(y)) => Some(Vec2::new(x, y)),
        _ => None,
    }
}

fn step_component(direction: i64, elapsed_micros: u32) -> (r: Option<i64>)
    ensures
        r is Some <==> fits_i64(step_along(direction as int, elapsed_micros as int)),
        r matches Some(v) ==> v == step_along(direction as int, elapsed_micros as int),
{
    assert(-0x8000_0000_0000_0000 * 150 * 0x1_0000_0000 <= direction as int * 150 * elapsed_micros as int
        <= 0x8000_0000_0000_0000 * 150 * 0x1_0000_0000) by (nonlinear_arith)
        requires
            0 <= elapsed_micros < 0x1_0000_0000,
            -0x8000_0000_0000_0000 <= direction < 0x8000_0000_0000_0000;
    let product: i128 = direction as i128 * PLAYER_SPEED as i128 * elapsed_micros as i128;
    let step: i128 = match product.checked_div_euclid(MICROS_PER_SECOND as i128) {
        Some(q) => q,
        None => { return None; },
    };
    if step < i64::MIN as i128 || step > i64::MAX as i128 {
        None
    } else {
        Some(step as i64)
    }
}

/// The walking frame after `frame` when the animation advances: the next
/// column of the row for the direction of movement (down, right, up, left),
/// with vertical movement taking precedence. Without movement the frame stays.
pub open spec fn next_frame(frame: int, movement: Option<Vec2>) -> int {
    let column = (frame + 1) % (WALK_FRAMES as int);
    match movement {
        None => frame,
        Some(m) => if m.y < 0 {
            column
        } else if m.y > 0 {
            2 * WALK_FRAMES + column
        } else if m.x > 0 {
            WALK_FRAMES + column
        } else if m.x < 0 {
            3 * WALK_FRAMES + column
        } else {
            column
        },
    }
}

/// Index of the walking frame to show after `frame`.
pub fn next_walk_frame(frame: usize, movement: Option<Vec2>) -> (r: usize)
    ensures
        r == next_frame(frame as int, movement),
{
    match movement {
        None => frame,
        Some(m) => {
            let column = (frame % WALK_FRAMES + 1) % WALK_FRAMES;
            proof {
                vstd::arithmetic::div_mod::lemma_add_mod_noop(frame as int, 1, WALK_FRAMES as int);
                vstd::arithmetic::div_mod::lemma_small_mod(1, WALK_FRAMES as nat);
            }
            if m.y < 0 {
                column
            } else if m.y > 0 {
                2 * WALK_FRAMES + column
            } else if m.x > 0 {
                WALK_FRAMES + column
            } else if m.x < 0 {
                3 * WALK_FRAMES + column
            } else {
                column
            }
        },
    }
}

/// The player's collision box centered at `center`.
pub fn player_collision_box(center: Vec2) -> (r: Aabb)
    ensures
        r == collision_box(center),
{
    let sprite = Aabb::new(center, Vec2::new(PLAYER_WIDTH * UNIT / 2, PLAYER_HEIGHT * UNIT / 2));
    sprite.shrink(Vec2::new(SHRINK_MARGIN * UNIT, SHRINK_MARGIN * UNIT))
}

/// Whether `b` overlaps any box of any scenery record.
pub fn hits_scenery(b: &Aabb, scenery: &Vec<Bounding>) -> (r: bool)
    ensures
        r == blocked(*b, boxes_of(scenery@)),
{
    let ghost all = boxes_of(scenery@);
    let mut i: usize = 0;
    while i < scenery.len()
        invariant
            0 <= i <= scenery@.len(),
            all == boxes_of(scenery@),
            all.len() == scenery@.len(),
            forall|k: int| 0 <= k < scenery@.len() ==> #[trigger] all[k] == scenery@[k]@,
            forall|k: int, j: int| 0 <= k < i && 0 <= j < all[k].len() ==> !overlaps(*b, #[trigger] all[k][j]),
        decreases scenery@.len() - i,
    {
        let boxes = &scenery[i].boxes;
        let mut j: usize = 0;
        while j < boxes.len()
            invariant
                0 <= i < scenery@.len(),
                0 <= j <= boxes@.len(),
                all == boxes_of(scenery@),
                all.len() == scenery@.len(),
                forall|k: int| 0 <= k < scenery@.len() ==> #[trigger] all[k] == scenery@[k]@,
                forall|k: int, m: int| 0 <= k < i && 0 <= m < all[k].len() ==> !overlaps(*b, #[trigger] all[k][m]),
                boxes@ == all[i as int],
                forall|m: int| 0 <= m < j ==> !overlaps(*b, #[trigger] boxes@[m]),
            decreases boxes@.len() - j,
        {
            if b.intersects(&boxes[j]) {
                assert(overlaps(*b, all[i as int][j as int]));
                assert(blocked(*b, all));
                return true;
            }
            j += 1;
        }
        i += 1;
    }
    false
}

/// Moves the player by `displacement` unless the moved collision box would
/// overlap a scenery box; a refused move is undone entirely.
pub fn move_player(player: &mut Transform, displacement: Option<Vec2>, scenery: &Vec<Bounding>)
    requires
        move_fits(*old(player), displacement),
    ensures
        *final(player) == moved_player(*old(player), displacement, boxes_of(scenery@)),
{
    let d = match displacement {
        None => { return; },
        Some(d) => d,
    };
    if d.x == 0 && d.y == 0 {
        return;
    }
    player.translation = player.translation.add(d);
    let bounds = player_collision_box(player.translation);
    if hits_scenery(&bounds, scenery) {
        player.translation = Vec2::new(player.translation.x - d.x, player.translation.y - d.y);
    }
}

/// Asking for no move, or for a zero displacement, never changes the
/// player's transform.
pub proof fn lemma_zero_move_is_noop(player: Transform, scenery: Seq<Seq<Aabb>>)
    ensures
        moved_player(player, None, scenery) == player,
        moved_player(player, Some(Vec2 { x: 0, y: 0 }), scenery) == player,
{
}

/// A move whose collision box overlaps at least one scenery box leaves the
/// player's transform exactly as it was.
pub proof fn lemma_blocked_move_rolls_back(player: Transform, d: Vec2, scenery: Seq<Seq<Aabb>>)
    requires
        player.translation.can_add(d),
        blocked(collision_box(player.translation.spec_add(d)), scenery),
    ensures
        moved_player(player, Some(d), scenery) == player,
{
}

/// A move whose collision box overlaps no scenery box moves the player by
/// exactly the displacement and changes nothing else.
pub proof fn lemma_free_move_is_taken(player: Transform, d: Vec2, scenery: Seq<Seq<Aabb>>)
    requires
        player.translation.can_add(d),
        !blocked(collision_box(player.translation.spec_add(d)), scenery),
    ensures
        moved_player(player, Some(d), scenery).translation.x == player.translation.x + d.x,
        moved_player(player, Some(d), scenery).translation.y == player.translation.y + d.y,
        moved_player(player, Some(d), scenery).depth == player.depth,
        moved_player(player, Some(d), scenery).scale == player.scale,
{
}

/// A scenery box that touches the player's sprite only within the shrink
/// margin does not block the move.
pub proof fn lemma_margin_allows_grazing(player: Transform, d: Vec2, scenery_box: Aabb)
    requires
        player.translation.can_add(d),
        overlaps(sprite_box(player.translation.spec_add(d)), scenery_box),
        !overlaps(collision_box(player.translation.spec_add(d)), scenery_box),
    ensures
        moved_player(player, Some(d), seq![seq![scenery_box]]).translation == player.translation.spec_add(d),
{
    let scenery = seq![seq![scenery_box]];
    if d.is_zero() {
        assert(player.translation.spec_add(d) == player.translation);
    } else {
        assert forall|i: int, j: int|
            0 <= i < scenery.len() && 0 <= j < scenery[i].len() implies !overlaps(
                collision_box(player.translation.spec_add(d)),
                #[trigger] scenery[i][j],
            ) by {
            assert(scenery[i][j] == scenery_box);
        }
    }
}

} // verus!
