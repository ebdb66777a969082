//! The per-frame updates, in the order in which a frame runs them:
//! [`cursor_moved`], [`player_rotation`], [`mouse_click`], [`update_scoreboard`].
//!
//! Each takes what the engine found out for it (a mapped point, a direction)
//! as a plain value, so that it decides the same way whatever engine is behind.

use vstd::prelude::*;
use crate::game::{Game, GameState, MouseWorldPosition, Player};
use crate::geometry::{Direction, WorldPoint};
use crate::input::FrameInput;
use crate::label::ScoreLabel;
use crate::decimal::{decimal_digits, decimal_string};

verus! {

impl Game {
    /// The game after the cursor's place in the scene has been brought up to
    /// date with `mapped`, the camera's answers for the frame's cursor
    /// movements.
    pub open spec fn after_cursor_moved(self, mapped: Seq<Option<WorldPoint>>) -> Game {
        Game {
            state: self.state,
            player: self.player,
            mouse: MouseWorldPosition(last_mapped(self.mouse.0, mapped)),
        }
    }

    /// The game after the orientation updater has been given `direction`, the
    /// unit vector from the player towards the cursor's place in the scene.
    ///
    /// Where the two are the same point there is no such vector, and a
    /// `direction` of zero length says the same: the player then keeps facing
    /// the way it did. Otherwise it faces along `direction`.
    pub open spec fn after_rotation(self, direction: Direction) -> Game {
        if self.mouse.0 == self.player.position || direction.is_zero() {
            self
        } else {
            Game {
                state: self.state,
                player: Player { position: self.player.position, facing: direction },
                mouse: self.mouse,
            }
        }
    }

    /// The game after the click handler has seen `input`, where `mapped` is
    /// what the camera made of the cursor's point.
    ///
    /// A click that lands puts the player on the mapped point and scores one.
    /// Anything else leaves the game as it was.
    pub open spec fn after_click(self, input: FrameInput, mapped: Option<WorldPoint>) -> Game
        recommends
            input.lands(mapped) ==> self.state.score < usize::MAX,
    {
        if input.lands(mapped) {
            Game {
                state: GameState { score: (self.state.score + 1) as usize },
                player: Player { position: mapped->0, facing: self.player.facing },
                mouse: self.mouse,
            }
        } else {
            self
        }
    }
}

/// The cursor's last mapped point: the last `Some` of `mapped`, or `previous`
/// where there is none.
pub open spec fn last_mapped(previous: WorldPoint, mapped: Seq<Option<WorldPoint>>) -> WorldPoint
    decreases mapped.len(),
{
    if mapped.len() == 0 {
        previous
    } else {
        match mapped.last() {
            Some(point) => point,
            None => last_mapped(previous, mapped.drop_last()),
        }
    }
}

/// The input sampler's update of the cursor's place in the scene.
///
/// `mapped` holds, for each cursor movement of this frame and in the order in
/// which they came, the camera's answer for the point the cursor moved to.
/// Every answer that is a point overwrites the one before, so the last one
/// stays; a frame without any leaves the place as it was.
pub fn cursor_moved(game: &mut Game, mapped: &Vec<Option<WorldPoint>>)
    ensures
        *final(game) == old(game).after_cursor_moved(mapped@),
        final(game).mouse.0 == last_mapped(old(game).mouse.0, mapped@),
        final(game).state == old(game).state,
        final(game).player == old(game).player,
        old(game).wf() ==> final(game).wf(),
{
    let mut i: usize = 0;
    while i < mapped.len()
        invariant
            i <= mapped.len(),
            game.mouse.0 == last_mapped(old(game).mouse.0, mapped@.take(i as int)),
            game.state == old(game).state,
            game.player == old(game).player,
        decreases mapped.len() - i,
    {
        proof {
            let seen = mapped@.take(i + 1);
            assert(seen.last() == mapped@[i as int]);
            assert(seen.drop_last() == mapped@.take(i as int));
        }
        if let Some(world_position) = mapped[i] {
            game.mouse.0 = world_position;
        }
        i += 1;
    }
    proof {
        assert(mapped@.take(i as int) == mapped@);
    }
}

/// The orientation updater.
///
/// `direction` is the difference between the cursor's place in the scene and
/// the player's position, scaled to length one, or the zero vector where that
/// difference has no length to scale. Run it once the cursor's place has been
/// brought up to date for the frame.
pub fn player_rotation(game: &mut Game, direction: Direction)
    ensures
        *final(game) == old(game).after_rotation(direction),
        old(game).mouse.0 == old(game).player.position ==> *final(game) == *old(game),
        direction.is_zero() ==> *final(game) == *old(game),
        final(game).player.facing == direction || final(game).player.facing == old(
            game,
        ).player.facing,
        final(game).state == old(game).state,
        final(game).player.position == old(game).player.position,
        final(game).mouse == old(game).mouse,
        old(game).wf() ==> final(game).wf(),
{
    if game.mouse.0 == game.player.position {
        return ;
    }
    if !direction.is_zero_length() {
        game.player.facing = direction;
    }
}

/// The click handler.
///
/// `mapped` is the camera's answer for the cursor's point: `None` where the
/// camera has no valid inverse for it. It is looked at only when the button
/// went down with the cursor inside the window.
///
/// Returns whether the click landed.
pub fn mouse_click(game: &mut Game, input: &FrameInput, mapped: Option<WorldPoint>) -> (landed:
    bool)
    requires
        input.lands(mapped) ==> old(game).state.score < usize::MAX,
    ensures
        landed == input.lands(mapped),
        *final(game) == old(game).after_click(*input, mapped),
        !input.left_just_pressed ==> *final(game) == *old(game),
        input.cursor is None ==> *final(game) == *old(game),
        mapped is None ==> *final(game) == *old(game),
        landed ==> final(game).player.position == mapped->0,
        landed ==> final(game).state.score == old(game).state.score + 1,
        final(game).player.facing == old(game).player.facing,
        final(game).mouse == old(game).mouse,
        old(game).wf() ==> final(game).wf(),
{
    if input.left_button_just_pressed() {
        if let Some(_cursor) = input.cursor_position() {
            if let Some(world_position) = mapped {
                game.player.position = world_position;
                game.state.score += 1;
                return true;
            }
        }
    }
    false
}

/// The scoreboard presenter: writes the score, in decimal, into the value of
/// `label`, and leaves the caption alone.
pub fn update_scoreboard(game: &Game, label: &mut ScoreLabel)
    ensures
        final(label).value@ == decimal_digits(game.state.score as nat),
        final(label).prefix == old(label).prefix,
{
    label.value = decimal_string(game.state.score);
}

} // verus!
