//! A frame as a whole, and what holds of one frame and of many.
//!
//! The updates of [`crate::systems`] run once per frame in a fixed order. This
//! module writes that order down as a function of the game and of what the
//! engine found out during the frame, and proves what follows from it.

use vstd::prelude::*;
use crate::game::Game;
use crate::geometry::{Direction, WorldPoint};
use crate::input::FrameInput;
use crate::systems::last_mapped;

verus! {

/// Everything the engine finds out in the course of one frame.
pub struct FrameFacts {
    /// The camera's answers for the frame's cursor movements, in order.
    pub moves: Seq<Option<WorldPoint>>,
    /// The unit vector from the player towards the cursor's place in the
    /// scene, taken once that place is up to date; zero where there is none.
    pub direction: Direction,
    /// The pointer as sampled for the click handler.
    pub input: FrameInput,
    /// The camera's answer for the cursor's point at the time of the click.
    pub mapped: Option<WorldPoint>,
}

impl FrameFacts {
    /// Whether the cursor stayed outside the window for the whole frame: it
    /// did not move inside it and was not there when the pointer was sampled.
    pub open spec fn cursor_outside(self) -> bool {
        self.moves.len() == 0 && self.input.cursor is None
    }
}

impl Game {
    /// The game after one frame: the cursor's place is brought up to date, the
    /// player turns towards it, the click is handled.
    pub open spec fn after_frame(self, facts: FrameFacts) -> Game {
        self.after_cursor_moved(facts.moves).after_rotation(facts.direction).after_click(
            facts.input,
            facts.mapped,
        )
    }

    /// The game after the frames of `frames`, one after the other.
    pub open spec fn after_frames(self, frames: Seq<FrameFacts>) -> Game
        decreases frames.len(),
    {
        if frames.len() == 0 {
            self
        } else {
            self.after_frames(frames.drop_last()).after_frame(frames.last())
        }
    }
}

/// Cursor movements none of which the camera could map leave the cursor's
/// place where it was.
pub proof fn lemma_unmapped_movements_keep_place(
    previous: WorldPoint,
    mapped: Seq<Option<WorldPoint>>,
)
    requires
        forall|i: int| 0 <= i < mapped.len() ==> #[trigger] mapped[i] is None,
    ensures
        last_mapped(previous, mapped) == previous,
    decreases mapped.len(),
{
    if mapped.len() > 0 {
        lemma_unmapped_movements_keep_place(previous, mapped.drop_last());
    }
}

/// Of several cursor movements in one frame the latest that the camera could
/// map decides the cursor's place: the one at `latest`, after which none was
/// mapped.
pub proof fn lemma_latest_mapped_movement_stays(
    previous: WorldPoint,
    mapped: Seq<Option<WorldPoint>>,
    latest: int,
)
    requires
        0 <= latest < mapped.len(),
        mapped[latest] is Some,
        forall|j: int| latest < j < mapped.len() ==> #[trigger] mapped[j] is None,
    ensures
        Some(last_mapped(previous, mapped)) == mapped[latest],
    decreases mapped.len(),
{
    if latest < mapped.len() - 1 {
        lemma_latest_mapped_movement_stays(previous, mapped.drop_last(), latest);
    }
}

/// A frame in which the button did not go down leaves the score and the
/// player's position as they were.
pub proof fn lemma_no_press_no_change(game: Game, facts: FrameFacts)
    requires
        !facts.input.left_just_pressed,
    ensures
        game.after_frame(facts).state == game.state,
        game.after_frame(facts).player.position == game.player.position,
{
}

/// A press while the cursor is outside the window does not score, whatever
/// the camera would have answered.
pub proof fn lemma_press_without_cursor(game: Game, facts: FrameFacts)
    requires
        facts.input.left_just_pressed,
        facts.input.cursor is None,
    ensures
        game.after_frame(facts).state.score == game.state.score,
        game.after_frame(facts).player.position == game.player.position,
{
}

/// A click that lands on the scene point `point` puts the player exactly
/// there and adds exactly one to the score.
pub proof fn lemma_click_moves_and_scores(game: Game, facts: FrameFacts, point: WorldPoint)
    requires
        facts.input.left_just_pressed,
        facts.input.cursor is Some,
        facts.mapped == Some(point),
        game.state.score < usize::MAX,
    ensures
        game.after_frame(facts).player.position == point,
        game.after_frame(facts).state.score == game.state.score + 1,
{
}

/// Where the cursor's place in the scene is the player's own position, the
/// orientation updater leaves the player facing the way it did, whatever
/// direction it is handed; and a direction of zero length does the same
/// wherever the cursor is.
pub proof fn lemma_no_direction_keeps_facing(game: Game, direction: Direction)
    requires
        game.mouse.0 == game.player.position || direction.is_zero(),
    ensures
        game.after_rotation(direction) == game,
{
}

/// No frame leaves the player facing nowhere.
pub proof fn lemma_frame_keeps_facing_somewhere(game: Game, facts: FrameFacts)
    requires
        game.wf(),
    ensures
        game.after_frame(facts).wf(),
{
}

/// While the cursor stays outside the window, however many frames go by and
/// whatever the button does, the score, the player's position and the cursor's
/// last known place stay what they were.
pub proof fn lemma_cursor_outside_changes_nothing(game: Game, frames: Seq<FrameFacts>)
    requires
        forall|i: int| 0 <= i < frames.len() ==> (#[trigger] frames[i]).cursor_outside(),
    ensures
        game.after_frames(frames).state == game.state,
        game.after_frames(frames).player.position == game.player.position,
        game.after_frames(frames).mouse == game.mouse,
    decreases frames.len(),
{
    if frames.len() > 0 {
        lemma_cursor_outside_changes_nothing(game, frames.drop_last());
        assert(frames.last().cursor_outside());
    }
}

/// Frames in each of which a click lands add one to the score apiece and
/// leave the player on the point of the last click.
pub proof fn lemma_every_click_counts(game: Game, frames: Seq<FrameFacts>)
    requires
        forall|i: int|
            0 <= i < frames.len() ==> (#[trigger] frames[i]).input.lands(frames[i].mapped),
        game.state.score + frames.len() <= usize::MAX,
    ensures
        game.after_frames(frames).state.score == game.state.score + frames.len(),
        frames.len() > 0 ==> Some(game.after_frames(frames).player.position)
            == frames.last().mapped,
    decreases frames.len(),
{
    if frames.len() > 0 {
        lemma_every_click_counts(game, frames.drop_last());
        assert(frames.last().input.lands(frames.last().mapped));
    }
}

} // verus!
