use vstd::prelude::*;
use crate::world::{
    Input, Player, Platform, COORD_LIMIT, GRAVITY, JUMP_FORCE, MOVE_SPEED, PLATFORM_WIDTH,
    PLAYER_HEIGHT, PLAYER_WIDTH, SUBUNITS, WINDOW_WIDTH,
};

verus! {

/// Horizontal displacement for one frame of input, in sub-units; both
/// directions held cancel out.
pub open spec fn input_shift(input: Input) -> int {
    (if input.left { -MOVE_SPEED as int } else { 0int }) + (if input.right {
        MOVE_SPEED as int
    } else {
        0int
    })
}

/// Horizontal wraparound: strictly left of the field goes to its right edge,
/// strictly right of it goes to its left edge, the edges themselves stay.
pub open spec fn wrapped(x: int) -> int {
    if x < 0 {
        SUBUNITS * WINDOW_WIDTH
    } else if x > SUBUNITS * WINDOW_WIDTH {
        0
    } else {
        x
    }
}

/// A player at `(x, y)` moving down at `vy` lands on `q`: its horizontal span
/// overlaps the platform's and its bottom edge is past the platform's top edge.
/// There is deliberately no check against the platform's bottom edge.
pub open spec fn lands_on(x: int, y: int, vy: int, q: Platform) -> bool {
    &&& vy > 0
    &&& x + SUBUNITS * PLAYER_WIDTH > SUBUNITS * q.x
    &&& x < SUBUNITS * (q.x + PLATFORM_WIDTH)
    &&& y + SUBUNITS * PLAYER_HEIGHT > SUBUNITS * q.y
}

/// Vertical velocity after the platforms of `s` are tested in order against a
/// player at `(x, y)` that started the test with velocity `vy`; each landing
/// sets the velocity to `JUMP_FORCE`.
pub open spec fn velocity_after(x: int, y: int, vy: int, s: Seq<Platform>) -> int
    decreases s.len(),
{
    if s.len() == 0 {
        vy
    } else {
        let v = velocity_after(x, y, vy, s.drop_last());
        if lands_on(x, y, v, s.last()) {
            JUMP_FORCE as int
        } else {
            v
        }
    }
}

/// The player after one frame of gravity, input, wraparound and landings on
/// the platforms `s`.
pub open spec fn player_step(p: Player, input: Input, s: Seq<Platform>) -> Player {
    let vy = p.velocity_y + GRAVITY;
    let y = p.y + vy;
    let x = wrapped(p.x + input_shift(input));
    Player { x: x as i64, y: y as i64, velocity_y: velocity_after(x, y, vy, s) as i64 }
}

/// Applies gravity to the velocity, then the velocity to the vertical position.
pub fn fall(p: &mut Player)
    requires
        old(p).in_range(),
    ensures
        final(p).velocity_y == old(p).velocity_y + GRAVITY,
        final(p).y == old(p).y + old(p).velocity_y + GRAVITY,
        final(p).x == old(p).x,
{
    p.velocity_y = p.velocity_y + GRAVITY;
    p.y = p.y + p.velocity_y;
}

/// Moves the player by the directions held.
pub fn apply_input(p: &mut Player, input: Input)
    requires
        -COORD_LIMIT <= old(p).x <= COORD_LIMIT,
    ensures
        final(p).x == old(p).x + input_shift(input),
        final(p).y == old(p).y,
        final(p).velocity_y == old(p).velocity_y,
{
    if input.left {
        p.x = p.x - MOVE_SPEED;
    }
    if input.right {
        p.x = p.x + MOVE_SPEED;
    }
}

/// Wraps the player's horizontal position around the field.
pub fn wrap_horizontal(p: &mut Player)
    ensures
        final(p).x == wrapped(old(p).x as int),
        0 <= final(p).x <= SUBUNITS * WINDOW_WIDTH,
        final(p).y == old(p).y,
        final(p).velocity_y == old(p).velocity_y,
{
    if p.x < 0 {
        p.x = SUBUNITS * WINDOW_WIDTH;
    } else if p.x > SUBUNITS * WINDOW_WIDTH {
        p.x = 0;
    }
}

/// Whether the player, as it stands, lands on `q`.
pub fn lands(p: &Player, q: &Platform) -> (r: bool)
    requires
        p.in_frame_range(),
    ensures
        r == lands_on(p.x as int, p.y as int, p.velocity_y as int, *q),
{
    let qx = q.x as i64;
    let qy = q.y as i64;
    p.velocity_y > 0 && p.x + SUBUNITS * PLAYER_WIDTH > SUBUNITS * qx && p.x < SUBUNITS * (qx
        + PLATFORM_WIDTH) && p.y + SUBUNITS * PLAYER_HEIGHT > SUBUNITS * qy
}

/// Tests each platform in order and bounces the player on every landing.
pub fn bounce(p: &mut Player, platforms: &Vec<Platform>)
    requires
        old(p).in_frame_range(),
    ensures
        final(p).velocity_y == velocity_after(
            old(p).x as int,
            old(p).y as int,
            old(p).velocity_y as int,
            platforms@,
        ),
        final(p).x == old(p).x,
        final(p).y == old(p).y,
{
    let ghost start = *p;
    let mut i: usize = 0;
    while i < platforms.len()
        invariant
            i <= platforms.len(),
            p.x == start.x,
            p.y == start.y,
            start.in_frame_range(),
            p.in_frame_range(),
            p.velocity_y == velocity_after(
                start.x as int,
                start.y as int,
                start.velocity_y as int,
                platforms@.subrange(0, i as int),
            ),
        decreases platforms.len() - i,
    {
        proof {
            let s = platforms@.subrange(0, i as int + 1);
            assert(s.drop_last() =~= platforms@.subrange(0, i as int));
        }
        if lands(p, &platforms[i]) {
            p.velocity_y = JUMP_FORCE;
        }
        i = i + 1;
    }
    assert(platforms@.subrange(0, i as int) =~= platforms@);
}

/// One frame of player motion: gravity, input, wraparound, then landings on
/// `platforms`.
pub fn physics_step(p: &mut Player, input: Input, platforms: &Vec<Platform>)
    requires
        old(p).in_range(),
    ensures
        *final(p) == player_step(*old(p), input, platforms@),
        0 <= final(p).x <= SUBUNITS * WINDOW_WIDTH,
{
    fall(p);
    apply_input(p, input);
    wrap_horizontal(p);
    bounce(p, platforms);
}

} // verus!
