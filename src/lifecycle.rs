use vstd::prelude::*;
use crate::world::{
    platforms_wf, valid_platform_x, Game, GameView, Input, Player, Platform, COORD_LIMIT,
    INITIAL_PLATFORMS, SCORE_DIVISOR, START_X, START_Y, SUBUNITS, WINDOW_HEIGHT,
};
use crate::physics::{physics_step, player_step};
use crate::generator::{
    generate_initial_platforms, initial_platforms, lemma_pruned_from, on_screen, prune,
    pruned, push_initial_platforms, random_platform_x, spawn_platform, spawned, valid_xs,
};

verus! {

/// Score for a player whose vertical position is `y` sub-units: the whole
/// number of score steps between it and the bottom of the field, rounded down.
pub open spec fn height_score(y: int) -> int {
    (SUBUNITS * WINDOW_HEIGHT - y) / (SUBUNITS * SCORE_DIVISOR)
}

/// The score kept after reaching vertical position `y`: the best so far.
pub open spec fn score_after(score: int, y: int) -> int {
    if height_score(y) > score {
        height_score(y)
    } else {
        score
    }
}

/// The player has fallen below the bottom edge of the field.
pub open spec fn fell(p: Player) -> bool {
    p.y > SUBUNITS * WINDOW_HEIGHT
}

/// The world after one frame with input `input`, where `spawn_x` is the left
/// edge for a platform the spawn rule may add, and `fresh` the left edges of
/// the new platforms if the player falls and the world restarts.
pub open spec fn next_state(g: GameView, input: Input, spawn_x: i32, fresh: Seq<i32>) -> GameView {
    let p = player_step(g.player, input, g.platforms);
    if fell(p) {
        GameView {
            player: Player { x: p.x, y: START_Y, velocity_y: 0 },
            platforms: initial_platforms(fresh),
            score: 0,
        }
    } else {
        GameView {
            player: p,
            platforms: pruned(spawned(g.platforms, spawn_x)),
            score: score_after(g.score, p.y as int),
        }
    }
}

/// The fresh platforms of a restart are well formed.
pub proof fn lemma_initial_wf(xs: Seq<i32>)
    requires
        xs.len() == INITIAL_PLATFORMS,
        valid_xs(xs),
    ensures
        platforms_wf(initial_platforms(xs)),
{
    let s = initial_platforms(xs);
    assert forall|i: int| 0 <= i < s.len() implies valid_platform_x(#[trigger] s[i].x as int) by {
        assert(s[i].x == xs[i]);
    }
}

/// Height score for a vertical position, rounded down.
pub fn compute_height_score(y: i64) -> (r: i64)
    requires
        -3 * COORD_LIMIT <= y <= 3 * COORD_LIMIT,
    ensures
        r == height_score(y as int),
{
    let d: i64 = SUBUNITS * WINDOW_HEIGHT - y;
    let m: i64 = SUBUNITS * SCORE_DIVISOR;
    if d >= 0 {
        d / m
    } else {
        let q: i64 = (-d + m - 1) / m;
        assert(-q == d / 20) by (nonlinear_arith)
            requires
                d < 0,
                q == (-d + 19) / 20,
        ;
        -q
    }
}

/// One frame of the world: the player's motion and landings, the spawn rule
/// with `spawn_x`, pruning, the score, and a restart with the left edges `fresh`
/// if the player has fallen below the field.
pub fn advance(game: &mut Game, input: Input, spawn_x: i32, fresh: &Vec<i32>)
    requires
        old(game).wf(),
        old(game).player.in_range(),
        valid_platform_x(spawn_x as int),
        fresh.len() == INITIAL_PLATFORMS,
        valid_xs(fresh@),
    ensures
        final(game)@ == next_state(old(game)@, input, spawn_x, fresh@),
        final(game).wf(),
{
    let ghost g = game@;
    physics_step(&mut game.player, input, &game.platforms);
    spawn_platform(&mut game.platforms, spawn_x);
    proof {
        let s = game.platforms@;
        let t = g.platforms;
        if t.last().y > 0 {
            assert(s.last().y < t.last().y);
            assert forall|i: int| 0 <= i < t.len() implies #[trigger] t[i].y > s.last().y by {
                if i < t.len() - 1 {
                    assert(t[i].y > t[t.len() - 1].y);
                }
            }
            assert(s.drop_last() == t);
        } else {
            assert(s == t);
        }
        assert(platforms_wf(s)) by {
            assert forall|i: int| 0 <= i < s.len() implies #[trigger] s[i].y < WINDOW_HEIGHT by {
                if i < t.len() {
                    assert(s[i] == t[i]);
                }
            }
            assert forall|i: int| 0 <= i < s.len() implies valid_platform_x(
                #[trigger] s[i].x as int,
            ) by {
                if i < t.len() {
                    assert(s[i] == t[i]);
                }
            }
            assert forall|i: int, j: int| 0 <= i < j < s.len() implies #[trigger] s[i].y
                > #[trigger] s[j].y by {
                if j < t.len() {
                    assert(s[i] == t[i] && s[j] == t[j]);
                } else {
                    assert(s[i] == t[i]);
                }
            }
        }
        lemma_pruned_from(s);
        assert forall|k: int| 0 <= k < s.len() implies on_screen(#[trigger] s[k]) by {}
    }
    prune(&mut game.platforms);
    let h = compute_height_score(game.player.y);
    if h > game.score {
        game.score = h;
    }
    if game.player.y > SUBUNITS * WINDOW_HEIGHT {
        game.player.y = START_Y;
        game.player.velocity_y = 0;
        game.score = 0;
        game.platforms.clear();
        push_initial_platforms(&mut game.platforms, fresh);
        proof {
            lemma_initial_wf(fresh@);
            assert(game.platforms@ =~= initial_platforms(fresh@));
        }
    }
}

/// Draws the random positions a frame may need, then advances the world by one
/// frame; the result is the frame for some legal choice of those positions.
pub fn update(game: &mut Game, input: Input)
    requires
        old(game).wf(),
        old(game).player.in_range(),
    ensures
        final(game).wf(),
        exists|spawn_x: i32, fresh: Seq<i32>|
            #![trigger next_state(old(game)@, input, spawn_x, fresh)]
            valid_platform_x(spawn_x as int) && fresh.len() == INITIAL_PLATFORMS && valid_xs(fresh)
                && final(game)@ == next_state(old(game)@, input, spawn_x, fresh),
{
    let spawn_x = random_platform_x();
    let mut fresh: Vec<i32> = Vec::new();
    let mut i: usize = 0;
    while i < INITIAL_PLATFORMS
        invariant
            i <= INITIAL_PLATFORMS,
            fresh.len() == i,
            valid_xs(fresh@),
        decreases INITIAL_PLATFORMS - i,
    {
        let x = random_platform_x();
        fresh.push(x);
        i = i + 1;
    }
    advance(game, input, spawn_x, &fresh);
}

impl Game {
    /// A world at the start of play: the player at its starting position, at
    /// rest, with a score of zero and the initial platforms at random positions.
    pub fn new() -> (r: Game)
        ensures
            r.wf(),
            r.player.x == START_X,
            r.player.y == START_Y,
            r.player.velocity_y == 0,
            r.score == 0,
            exists|xs: Seq<i32>|
                #![trigger initial_platforms(xs)]
                xs.len() == INITIAL_PLATFORMS && valid_xs(xs) && r.platforms@ == initial_platforms(
                    xs,
                ),
    {
        let mut platforms: Vec<Platform> = Vec::new();
        generate_initial_platforms(&mut platforms);
        proof {
            let xs = choose|xs: Seq<i32>|
                #![trigger initial_platforms(xs)]
                xs.len() == INITIAL_PLATFORMS && valid_xs(xs) && platforms@ == Seq::<Platform>::empty()
                    + initial_platforms(xs);
            assert(platforms@ =~= initial_platforms(xs));
            lemma_initial_wf(xs);
        }
        Game { player: Player::new(), platforms, score: 0 }
    }
}

} // verus!
