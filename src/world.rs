use vstd::prelude::*;

verus! {

/// Width of the playing field, in world units.
pub const WINDOW_WIDTH: i64 = 400;
/// Height of the playing field, in world units; vertical positions grow downward.
pub const WINDOW_HEIGHT: i64 = 600;
pub const PLAYER_WIDTH: i64 = 40;
pub const PLAYER_HEIGHT: i64 = 60;
pub const PLATFORM_WIDTH: i64 = 70;
pub const PLATFORM_HEIGHT: i64 = 20;
/// Vertical distance between a platform and the one generated above it.
pub const PLATFORM_GAP: i64 = 100;
/// Number of platforms that a fresh world starts with.
pub const INITIAL_PLATFORMS: usize = 5;
/// World units climbed per point of score.
pub const SCORE_DIVISOR: i64 = 10;
/// Largest left edge that a platform may have.
pub const PLATFORM_X_MAX: i64 = WINDOW_WIDTH - PLATFORM_WIDTH;

/// The player's coordinates are fixed-point numbers with this many steps per
/// world unit; every quantity of the player's motion is a multiple of half a unit.
pub const SUBUNITS: i64 = 2;
/// Downward acceleration per frame, in sub-units (half a world unit).
pub const GRAVITY: i64 = 1;
/// Vertical velocity given by a bounce, in sub-units (twelve world units upward).
pub const JUMP_FORCE: i64 = -24;
/// Horizontal distance moved per frame while a direction is held, in sub-units.
pub const MOVE_SPEED: i64 = 10;
/// Vertical position in sub-units at which the player starts and restarts.
pub const START_Y: i64 = 1100;
/// Horizontal position in sub-units at which the player starts.
pub const START_X: i64 = 400;
/// Bound on the magnitude of the player's coordinates, far beyond any reachable
/// value, under which a frame's arithmetic cannot overflow.
pub const COORD_LIMIT: i64 = 0x1000_0000_0000_0000;

/// The player; all three fields are in sub-units (see `SUBUNITS`).
#[derive(Clone, Copy, Debug, PartialEq, Eq, Structural)]
pub struct Player {
    pub x: i64,
    pub y: i64,
    pub velocity_y: i64,
}

/// A platform, by its left edge and top edge in world units.
#[derive(Clone, Copy, Debug, PartialEq, Eq, Structural)]
pub struct Platform {
    pub x: i32,
    pub y: i32,
}

/// The directions held during one frame.
#[derive(Clone, Copy, Debug, PartialEq, Eq, Structural)]
pub struct Input {
    pub left: bool,
    pub right: bool,
}

/// The whole state of the world.
#[derive(Debug)]
pub struct Game {
    pub player: Player,
    pub platforms: Vec<Platform>,
    pub score: i64,
}

/// The world as a mathematical value.
pub struct GameView {
    pub player: Player,
    pub platforms: Seq<Platform>,
    pub score: int,
}

impl View for Game {
    type V = GameView;

    open spec fn view(&self) -> GameView {
        GameView { player: self.player, platforms: self.platforms@, score: self.score as int }
    }
}

impl Player {
    /// The player at the start of play.
    pub fn new() -> (r: Player)
        ensures
            r.x == START_X,
            r.y == START_Y,
            r.velocity_y == 0,
    {
        Player { x: START_X, y: START_Y, velocity_y: 0 }
    }

    /// The coordinates are small enough that a frame cannot overflow them.
    pub open spec fn in_range(self) -> bool {
        &&& -COORD_LIMIT <= self.x <= COORD_LIMIT
        &&& -COORD_LIMIT <= self.y <= COORD_LIMIT
        &&& -COORD_LIMIT <= self.velocity_y <= COORD_LIMIT
    }

    /// The looser bound that holds in the middle of a frame.
    pub open spec fn in_frame_range(self) -> bool {
        &&& -3 * COORD_LIMIT <= self.x <= 3 * COORD_LIMIT
        &&& -3 * COORD_LIMIT <= self.y <= 3 * COORD_LIMIT
        &&& -3 * COORD_LIMIT <= self.velocity_y <= 3 * COORD_LIMIT
    }

    /// Whether the coordinates are small enough for another frame.
    pub fn is_in_range(&self) -> (r: bool)
        ensures
            r == self.in_range(),
    {
        -COORD_LIMIT <= self.x && self.x <= COORD_LIMIT && -COORD_LIMIT <= self.y && self.y
            <= COORD_LIMIT && -COORD_LIMIT <= self.velocity_y && self.velocity_y <= COORD_LIMIT
    }
}

/// A legal left edge for a platform.
pub open spec fn valid_platform_x(x: int) -> bool {
    0 <= x <= PLATFORM_X_MAX
}

/// The platforms of a world in play: at least one, each horizontally inside the
/// field and above its bottom edge, and each higher than those created before it,
/// so that the last one is the topmost.
pub open spec fn platforms_wf(s: Seq<Platform>) -> bool {
    &&& s.len() > 0
    &&& forall|i: int| 0 <= i < s.len() ==> valid_platform_x(#[trigger] s[i].x as int)
    &&& forall|i: int| 0 <= i < s.len() ==> #[trigger] s[i].y < WINDOW_HEIGHT
    &&& descending(s)
}

/// Each platform of `s` is higher than those before it.
pub open spec fn descending(s: Seq<Platform>) -> bool {
    forall|i: int, j: int| #![trigger s[i], s[j]] 0 <= i < j < s.len() ==> s[i].y > s[j].y
}

impl GameView {
    pub open spec fn wf(self) -> bool {
        platforms_wf(self.platforms)
    }
}

impl Game {
    pub open spec fn wf(&self) -> bool {
        self@.wf()
    }
}

} // verus!
