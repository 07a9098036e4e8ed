use block_jump::generator::{
    generate_initial_platforms, prune, push_initial_platforms, random_platform_x, spawn_platform,
};
use block_jump::lifecycle::{advance, compute_height_score, update};
use block_jump::physics::{apply_input, bounce, fall, lands, physics_step, wrap_horizontal};
use block_jump::world::{Game, Input, Platform, Player, JUMP_FORCE, START_X, START_Y};

const IDLE: Input = Input { left: false, right: false };

fn player(x: i64, y: i64, velocity_y: i64) -> Player {
    Player { x, y, velocity_y }
}

fn initial_ys(game: &Game) -> Vec<i32> {
    game.platforms.iter().map(|p| p.y).collect()
}

#[test]
fn falling_player_bounces_on_platform_below() {
    // world units: x = 110, y = 540, velocity 5; platform at (100, 580)
    let mut game = Game {
        player: player(220, 1080, 10),
        platforms: vec![Platform { x: 100, y: 580 }],
        score: 0,
    };
    advance(&mut game, IDLE, 7, &vec![0, 0, 0, 0, 0]);
    assert_eq!(game.player.velocity_y, JUMP_FORCE);
    assert_eq!(game.player.velocity_y, -24);
    assert_eq!(game.player.y, 1091);
    assert_eq!(game.player.x, 220);
    assert_eq!(game.score, 5);
    assert_eq!(game.platforms, vec![Platform { x: 100, y: 580 }, Platform { x: 7, y: 480 }]);
}

#[test]
fn falling_player_bounces_with_random_spawn() {
    let mut game = Game {
        player: player(220, 1080, 10),
        platforms: vec![Platform { x: 100, y: 580 }],
        score: 0,
    };
    update(&mut game, IDLE);
    assert_eq!(game.player.velocity_y, -24);
    assert_eq!(game.platforms.len(), 2);
    assert_eq!(game.platforms[1].y, 480);
}

#[test]
fn bounce_ignores_prior_speed() {
    let platforms = vec![Platform { x: 100, y: 580 }];
    for v in [1, 5, 40, 400] {
        let mut p = player(220, 1100, v);
        bounce(&mut p, &platforms);
        assert_eq!(p.velocity_y, JUMP_FORCE);
    }
}

#[test]
fn rising_player_does_not_bounce() {
    let platforms = vec![Platform { x: 100, y: 580 }];
    let mut p = player(220, 1100, -3);
    bounce(&mut p, &platforms);
    assert_eq!(p.velocity_y, -3);
    let mut q = player(220, 1100, 0);
    bounce(&mut q, &platforms);
    assert_eq!(q.velocity_y, 0);
}

#[test]
fn landing_needs_horizontal_overlap() {
    let q = Platform { x: 100, y: 580 };
    // right edge exactly at the platform's left edge: 60 + 40 = 100
    assert!(!lands(&player(120, 1100, 4), &q));
    assert!(lands(&player(122, 1100, 4), &q));
    // left edge exactly at the platform's right edge: 170
    assert!(!lands(&player(340, 1100, 4), &q));
    assert!(lands(&player(338, 1100, 4), &q));
    // bottom edge exactly at the top edge: 520 + 60 = 580
    assert!(!lands(&player(220, 1040, 4), &q));
    assert!(lands(&player(220, 1041, 4), &q));
    // far below the platform's top still counts
    assert!(lands(&player(220, 1190, 4), &q));
}

#[test]
fn wrap_left_of_field_goes_to_right_edge() {
    let mut p = player(-6, 0, 0);
    wrap_horizontal(&mut p);
    assert_eq!(p.x, 800);
}

#[test]
fn wrap_right_of_field_goes_to_left_edge() {
    let mut p = player(802, 0, 0);
    wrap_horizontal(&mut p);
    assert_eq!(p.x, 0);
}

#[test]
fn wrap_keeps_exact_edges() {
    let mut p = player(800, 0, 0);
    wrap_horizontal(&mut p);
    assert_eq!(p.x, 800);
    let mut q = player(0, 0, 0);
    wrap_horizontal(&mut q);
    assert_eq!(q.x, 0);
}

#[test]
fn input_moves_five_units_and_cancels() {
    let mut p = player(100, 0, 0);
    apply_input(&mut p, Input { left: true, right: false });
    assert_eq!(p.x, 90);
    apply_input(&mut p, Input { left: false, right: true });
    assert_eq!(p.x, 100);
    apply_input(&mut p, Input { left: true, right: true });
    assert_eq!(p.x, 100);
}

#[test]
fn gravity_then_position() {
    let mut p = player(0, 100, 3);
    fall(&mut p);
    assert_eq!(p.velocity_y, 4);
    assert_eq!(p.y, 104);
}

#[test]
fn step_wraps_after_moving_left() {
    let mut p = player(4, 0, 0);
    physics_step(&mut p, Input { left: true, right: false }, &vec![]);
    assert_eq!(p.x, 800);
    assert_eq!(p.y, 1);
    assert_eq!(p.velocity_y, 1);
}

#[test]
fn player_stays_in_field_over_many_frames() {
    let mut game = Game::new();
    for frame in 0..2000 {
        let input = Input { left: frame % 7 < 3, right: frame % 11 < 4 };
        assert!(game.player.is_in_range());
        update(&mut game, input);
        assert!(game.player.x >= 0 && game.player.x <= 800);
        assert!(game.platforms.iter().all(|p| p.y < 600));
        assert!(!game.platforms.is_empty());
    }
}

#[test]
fn prune_removes_platforms_off_the_bottom() {
    let mut platforms = vec![
        Platform { x: 1, y: 700 },
        Platform { x: 2, y: 599 },
        Platform { x: 3, y: 600 },
        Platform { x: 4, y: -50 },
    ];
    prune(&mut platforms);
    assert_eq!(platforms, vec![Platform { x: 2, y: 599 }, Platform { x: 4, y: -50 }]);
}

#[test]
fn spawn_only_when_top_is_below_field_top() {
    let mut at_top = vec![Platform { x: 5, y: 100 }, Platform { x: 5, y: 0 }];
    spawn_platform(&mut at_top, 9);
    assert_eq!(at_top.len(), 2);
    let mut below = vec![Platform { x: 5, y: 1 }];
    spawn_platform(&mut below, 9);
    assert_eq!(below, vec![Platform { x: 5, y: 1 }, Platform { x: 9, y: -99 }]);
}

#[test]
fn frames_spawn_at_most_one_platform() {
    let mut game = Game::new();
    let mut before = game.platforms.len();
    for _ in 0..30 {
        update(&mut game, IDLE);
        let after = game.platforms.len();
        assert!(after <= before + 1);
        before = after;
    }
}

#[test]
fn initial_platforms_are_a_gap_apart() {
    let mut platforms = Vec::new();
    push_initial_platforms(&mut platforms, &vec![0, 10, 20, 30, 330]);
    assert_eq!(
        platforms,
        vec![
            Platform { x: 0, y: 500 },
            Platform { x: 10, y: 400 },
            Platform { x: 20, y: 300 },
            Platform { x: 30, y: 200 },
            Platform { x: 330, y: 100 },
        ]
    );
}

#[test]
fn generated_platforms_have_legal_positions() {
    let mut platforms = vec![Platform { x: 1, y: 2 }];
    generate_initial_platforms(&mut platforms);
    assert_eq!(platforms.len(), 6);
    let ys: Vec<i32> = platforms[1..].iter().map(|p| p.y).collect();
    assert_eq!(ys, vec![500, 400, 300, 200, 100]);
    for _ in 0..2000 {
        let x = random_platform_x();
        assert!((0..=330).contains(&x));
    }
}

#[test]
fn new_game_starts_at_rest() {
    let game = Game::new();
    assert_eq!(game.player, player(START_X, START_Y, 0));
    assert_eq!(game.player.x, 400);
    assert_eq!(game.score, 0);
    assert_eq!(initial_ys(&game), vec![500, 400, 300, 200, 100]);
    assert!(game.platforms.iter().all(|p| p.x >= 0 && p.x <= 330));
}

#[test]
fn height_score_rounds_down() {
    assert_eq!(compute_height_score(1200), 0);
    assert_eq!(compute_height_score(1199), 0);
    assert_eq!(compute_height_score(1180), 1);
    assert_eq!(compute_height_score(1091), 5);
    assert_eq!(compute_height_score(1201), -1);
    assert_eq!(compute_height_score(-20), 61);
}

#[test]
fn score_keeps_best_height() {
    let mut game = Game {
        player: player(0, 200, -10),
        platforms: vec![Platform { x: 300, y: 500 }],
        score: 100,
    };
    advance(&mut game, IDLE, 0, &vec![0, 0, 0, 0, 0]);
    // y = 200 - 9 = 191 sub-units: (1200 - 191) / 20 = 50, below the best
    assert_eq!(game.score, 100);
    let mut low = Game {
        player: player(0, 200, -10),
        platforms: vec![Platform { x: 300, y: 500 }],
        score: 3,
    };
    advance(&mut low, IDLE, 0, &vec![0, 0, 0, 0, 0]);
    assert_eq!(low.score, 50);
}

#[test]
fn score_never_drops_while_alive() {
    let mut game = Game::new();
    for frame in 0..500 {
        let before = game.score;
        update(&mut game, Input { left: frame % 5 == 0, right: false });
        let restarted = game.score == 0 && game.player.y == START_Y && game.player.velocity_y == 0;
        assert!(game.score >= before || restarted);
    }
}

#[test]
fn falling_below_field_resets_world() {
    let mut game = Game {
        player: player(37, 1200, 0),
        platforms: vec![Platform { x: 300, y: 100 }, Platform { x: 3, y: -10 }],
        score: 42,
    };
    advance(&mut game, IDLE, 0, &vec![1, 2, 3, 4, 5]);
    assert_eq!(game.player, player(37, 1100, 0));
    assert_eq!(game.score, 0);
    assert_eq!(
        game.platforms,
        vec![
            Platform { x: 1, y: 500 },
            Platform { x: 2, y: 400 },
            Platform { x: 3, y: 300 },
            Platform { x: 4, y: 200 },
            Platform { x: 5, y: 100 },
        ]
    );
}

#[test]
fn falling_below_field_resets_with_random_platforms() {
    let mut game = Game {
        player: player(37, 1300, 50),
        platforms: vec![Platform { x: 300, y: 100 }],
        score: 42,
    };
    update(&mut game, IDLE);
    assert_eq!(game.player.velocity_y, 0);
    assert_eq!(game.player.y, 1100);
    assert_eq!(game.score, 0);
    assert_eq!(initial_ys(&game), vec![500, 400, 300, 200, 100]);
}

#[test]
fn player_exactly_at_bottom_is_not_reset() {
    // y reaches exactly 1200 sub-units (600 world units) after the frame
    let mut game = Game {
        player: player(0, 1190, 9),
        platforms: vec![Platform { x: 300, y: 0 }],
        score: 0,
    };
    advance(&mut game, IDLE, 0, &vec![0, 0, 0, 0, 0]);
    assert_eq!(game.player.y, 1200);
    assert_eq!(game.player.velocity_y, 10);
    assert_eq!(game.platforms, vec![Platform { x: 300, y: 0 }]);
}
