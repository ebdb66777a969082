//! What the game remembers from one frame to the next.

use vstd::prelude::*;
use crate::geometry::{Direction, WorldPoint};

verus! {

/// The score: one point for every click that landed.
#[derive(Clone, Copy, Debug, PartialEq, Eq, Structural)]
pub struct GameState {
    pub score: usize,
}

/// The player: where it stands and which way it faces.
#[derive(Clone, Copy, Debug, PartialEq, Eq, Structural)]
pub struct Player {
    pub position: WorldPoint,
    /// Never the zero vector in a game that began with [`Game::new`].
    pub facing: Direction,
}

/// Where in the scene the cursor was when it was last seen inside the window.
#[derive(Clone, Copy, Debug, PartialEq, Eq, Structural)]
pub struct MouseWorldPosition(pub WorldPoint);

/// Everything the per-frame updates read and change. The caller owns it and
/// hands it to each update in turn.
#[derive(Clone, Copy, Debug, PartialEq, Eq, Structural)]
pub struct Game {
    pub state: GameState,
    pub player: Player,
    pub mouse: MouseWorldPosition,
}

impl Game {
    /// The game before the first frame: no points, the player at the origin
    /// and facing up, the cursor not yet seen and taken to be at the origin.
    pub open spec fn initial() -> Game {
        Game {
            state: GameState { score: 0 },
            player: Player { position: WorldPoint::origin(), facing: Direction::up() },
            mouse: MouseWorldPosition(WorldPoint::origin()),
        }
    }

    /// Whether the player faces somewhere.
    pub open spec fn wf(self) -> bool {
        !self.player.facing.is_zero()
    }

    /// A game before its first frame.
    pub fn new() -> (game: Game)
        ensures
            game == Game::initial(),
            game.wf(),
    {
        Game {
            state: GameState { score: 0 },
            player: Player { position: WorldPoint::at_origin(), facing: Direction::pointing_up() },
            mouse: MouseWorldPosition(WorldPoint::at_origin()),
        }
    }
}

} // verus!
