//! Properties of whole frames, stated over `next_state`.
use vstd::prelude::*;
use crate::world::{
    GameView, Input, Platform, GRAVITY, INITIAL_PLATFORMS, JUMP_FORCE, PLATFORM_GAP, START_Y, SUBUNITS,
    WINDOW_HEIGHT, WINDOW_WIDTH,
};
use crate::physics::{input_shift, lands_on, player_step, velocity_after, wrapped};
use crate::generator::{initial_platforms, lemma_pruned_from, on_screen, spawned};
use crate::lifecycle::{fell, next_state};

verus! {

/// After every frame the player's horizontal position lies within the field,
/// both edges included.
pub proof fn lemma_frame_keeps_player_in_field(
    g: GameView,
    input: Input,
    spawn_x: i32,
    fresh: Seq<i32>,
)
    ensures
        0 <= next_state(g, input, spawn_x, fresh).player.x <= SUBUNITS * WINDOW_WIDTH,
{
}

/// After every frame no platform lies at or below the bottom edge of the field.
pub proof fn lemma_frame_prunes_platforms(g: GameView, input: Input, spawn_x: i32, fresh: Seq<i32>)
    requires
        fresh.len() == INITIAL_PLATFORMS,
    ensures
        forall|i: int|
            0 <= i < next_state(g, input, spawn_x, fresh).platforms.len() ==> (#[trigger] next_state(
                g,
                input,
                spawn_x,
                fresh,
            ).platforms[i]).y < WINDOW_HEIGHT,
{
    let s = spawned(g.platforms, spawn_x);
    lemma_pruned_from(s);
    let n = next_state(g, input, spawn_x, fresh);
    if !fell(player_step(g.player, input, g.platforms)) {
        assert forall|i: int| 0 <= i < n.platforms.len() implies (#[trigger] n.platforms[i]).y
            < WINDOW_HEIGHT by {
            assert(on_screen(n.platforms[i]));
        }
    }
}

/// A frame appends at most one platform, and only when the topmost platform
/// lies below the top of the field; the new one is a gap above it. Every other
/// platform after the frame was there before it (unless the world restarted).
pub proof fn lemma_frame_spawns_at_most_one(
    g: GameView,
    input: Input,
    spawn_x: i32,
    fresh: Seq<i32>,
)
    requires
        !fell(player_step(g.player, input, g.platforms)),
    ensures
        ({
            let n = next_state(g, input, spawn_x, fresh).platforms;
            &&& n.len() <= g.platforms.len() + 1
            &&& forall|k: int|
                0 <= k < n.len() ==> g.platforms.contains(#[trigger] n[k]) || (g.platforms.len()
                    > 0 && g.platforms.last().y > 0 && n[k] == Platform {
                    x: spawn_x,
                    y: (g.platforms.last().y - PLATFORM_GAP) as i32,
                })
        }),
{
    let t = g.platforms;
    let s = spawned(t, spawn_x);
    lemma_pruned_from(s);
    let n = next_state(g, input, spawn_x, fresh).platforms;
    assert forall|k: int| 0 <= k < n.len() implies t.contains(#[trigger] n[k]) || (t.len() > 0
        && t.last().y > 0 && n[k] == Platform {
        x: spawn_x,
        y: (t.last().y - PLATFORM_GAP) as i32,
    }) by {
        assert(s.contains(n[k]));
        let j = choose|j: int| 0 <= j < s.len() && s[j] == n[k];
        if j < t.len() {
            assert(t[j] == s[j]);
        }
    }
}

/// The score never decreases over a frame, unless the player fell below the
/// field, in which case it is exactly zero.
pub proof fn lemma_frame_score_monotonic(
    g: GameView,
    input: Input,
    spawn_x: i32,
    fresh: Seq<i32>,
)
    ensures
        fell(player_step(g.player, input, g.platforms)) ==> next_state(
            g,
            input,
            spawn_x,
            fresh,
        ).score == 0,
        !fell(player_step(g.player, input, g.platforms)) ==> next_state(
            g,
            input,
            spawn_x,
            fresh,
        ).score >= g.score,
{
}

/// The velocity after landings is either the one before them or `JUMP_FORCE`.
proof fn lemma_velocity_cases(x: int, y: int, vy: int, s: Seq<Platform>)
    ensures
        velocity_after(x, y, vy, s) == vy || velocity_after(x, y, vy, s) == JUMP_FORCE,
    decreases s.len(),
{
    if s.len() > 0 {
        lemma_velocity_cases(x, y, vy, s.drop_last());
    }
}

/// A falling player that lands on any platform leaves the landings with
/// velocity exactly `JUMP_FORCE`, whatever its speed was.
pub proof fn lemma_landing_bounces(x: int, y: int, vy: int, s: Seq<Platform>, i: int)
    requires
        vy > 0,
        0 <= i < s.len(),
        lands_on(x, y, vy, s[i]),
    ensures
        velocity_after(x, y, vy, s) == JUMP_FORCE,
    decreases s.len(),
{
    let d = s.drop_last();
    lemma_velocity_cases(x, y, vy, d);
    if i < s.len() - 1 {
        assert(d[i] == s[i]);
        lemma_landing_bounces(x, y, vy, d, i);
    }
}

/// Over a whole frame: when the player, after gravity and input, is falling and
/// lands on a platform, it leaves the frame with velocity exactly `JUMP_FORCE`,
/// unless it fell below the field.
pub proof fn lemma_frame_bounces(
    g: GameView,
    input: Input,
    spawn_x: i32,
    fresh: Seq<i32>,
    i: int,
)
    requires
        g.player.velocity_y + GRAVITY > 0,
        0 <= i < g.platforms.len(),
        lands_on(
            wrapped(g.player.x + input_shift(input)),
            g.player.y + g.player.velocity_y + GRAVITY,
            g.player.velocity_y + GRAVITY,
            g.platforms[i],
        ),
        !fell(player_step(g.player, input, g.platforms)),
    ensures
        next_state(g, input, spawn_x, fresh).player.velocity_y == JUMP_FORCE,
{
    lemma_landing_bounces(
        wrapped(g.player.x + input_shift(input)),
        g.player.y + g.player.velocity_y + GRAVITY,
        g.player.velocity_y + GRAVITY,
        g.platforms,
        i,
    );
}

/// When the player falls below the field, the frame restarts the world: the
/// player is back at its starting height at rest, the score is zero, and there
/// are exactly the initial platforms, a gap apart from the bottom of the field up.
pub proof fn lemma_frame_reset(g: GameView, input: Input, spawn_x: i32, fresh: Seq<i32>)
    requires
        fell(player_step(g.player, input, g.platforms)),
        fresh.len() == INITIAL_PLATFORMS,
    ensures
        ({
            let n = next_state(g, input, spawn_x, fresh);
            &&& n.player.velocity_y == 0
            &&& n.player.y == START_Y
            &&& n.score == 0
            &&& n.platforms.len() == INITIAL_PLATFORMS
            &&& forall|i: int|
                0 <= i < INITIAL_PLATFORMS ==> (#[trigger] n.platforms[i]).y == WINDOW_HEIGHT
                    - PLATFORM_GAP * (i + 1)
        }),
{
}

} // verus!
