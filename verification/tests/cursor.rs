use click_teleport::game::{Game, MouseWorldPosition};
use click_teleport::geometry::WorldPoint;
use click_teleport::systems::cursor_moved;

fn scene(x: f32, y: f32) -> WorldPoint {
    WorldPoint { x: x.to_bits(), y: y.to_bits() }
}

#[test]
fn cursor_place_defaults_to_origin() {
    assert_eq!(Game::new().mouse, MouseWorldPosition(scene(0.0, 0.0)));
}

#[test]
fn single_movement_sets_cursor_place() {
    let mut game = Game::new();
    cursor_moved(&mut game, &vec![Some(scene(3.0, -4.0))]);
    assert_eq!(game.mouse.0, scene(3.0, -4.0));
}

#[test]
fn last_of_several_movements_stays() {
    let mut game = Game::new();
    cursor_moved(&mut game, &vec![Some(scene(1.0, 1.0)), Some(scene(2.0, 2.0)), Some(scene(3.0, 3.0))]);
    assert_eq!(game.mouse.0, scene(3.0, 3.0));
}

#[test]
fn unmappable_movements_are_passed_over() {
    let mut game = Game::new();
    cursor_moved(&mut game, &vec![Some(scene(1.0, 1.0)), None, Some(scene(2.0, 2.0)), None, None]);
    assert_eq!(game.mouse.0, scene(2.0, 2.0));
}

#[test]
fn frame_without_movement_keeps_cursor_place() {
    let mut game = Game::new();
    game.mouse.0 = scene(7.0, 8.0);
    cursor_moved(&mut game, &Vec::new());
    assert_eq!(game.mouse.0, scene(7.0, 8.0));
    cursor_moved(&mut game, &vec![None, None]);
    assert_eq!(game.mouse.0, scene(7.0, 8.0));
}

#[test]
fn cursor_movement_touches_nothing_else() {
    let mut game = Game::new();
    game.state.score = 9;
    game.player.position = scene(5.0, 5.0);
    let before = game;
    cursor_moved(&mut game, &vec![Some(scene(1.0, 2.0))]);
    assert_eq!(game.state, before.state);
    assert_eq!(game.player, before.player);
}
