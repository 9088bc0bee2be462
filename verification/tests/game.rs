use kli::actor::Actor;
use kli::app::{App, FLASH_FRAMES};
use kli::collision::{exchange_colors, overlap, pickup_to_spawn};
use kli::color::{
    new_color_by_border, next_special_color, palette_position, special_color, Color, PALETTE_LEN,
};
use kli::direction::Direction;
use kli::input::{command_for, Command, Flow, Input, Key, Player};
use kli::scene::Tile;
use kli::special::{color_after_pickup, remove_covered, SpecialObject};

const PURPLE: Color = Color::Rgb(128, 0, 128);
const ORANGE: Color = Color::Rgb(255, 165, 0);

fn actor(x: u16, y: u16, direction: Direction, color: Option<Color>) -> Actor {
    Actor { x, y, direction, color }
}

fn game(first: Actor, second: Actor, specials: Vec<SpecialObject>) -> App {
    App { first, second, flash: false, flash_timer: 0, specials }
}

#[test]
fn new_game_is_blank() {
    let app = App::new();
    assert_eq!(app.first, actor(0, 0, Direction::Still, None));
    assert_eq!(app.second, actor(0, 0, Direction::Still, None));
    assert!(!app.flash);
    assert_eq!(app.flash_timer, 0);
    assert!(app.specials.is_empty());
}

#[test]
fn second_actor_starts_in_opposite_corner() {
    let mut app = App::new();
    app.set_initial_positions(80, 24);
    assert_eq!((app.first.x, app.first.y), (0, 0));
    assert_eq!((app.second.x, app.second.y), (78, 22));
}

#[test]
fn second_actor_start_saturates_on_tiny_surface() {
    let mut app = App::new();
    app.set_initial_positions(1, 0);
    assert_eq!((app.second.x, app.second.y), (0, 0));
    app.set_initial_positions(2, 3);
    assert_eq!((app.second.x, app.second.y), (0, 1));
}

#[test]
fn step_right_without_collision_is_committed() {
    let mut app = game(
        actor(0, 0, Direction::Right, None),
        actor(4, 0, Direction::Still, None),
        vec![],
    );
    app.tick(10, 10);
    assert_eq!(app.first, actor(1, 0, Direction::Right, None));
    assert_eq!(app.second, actor(4, 0, Direction::Still, None));
    assert!(!app.flash);
    assert_eq!(app.flash_timer, 0);
    assert!(app.specials.is_empty());
}

#[test]
fn collision_of_uncoloured_actors_only_stops_and_flashes() {
    let mut app = game(
        actor(2, 0, Direction::Right, None),
        actor(3, 0, Direction::Still, None),
        vec![],
    );
    assert!(!app.spawn_due(10, 10));
    app.tick(10, 10);
    assert_eq!(app.first, actor(2, 0, Direction::Still, None));
    assert_eq!(app.second, actor(3, 0, Direction::Still, None));
    assert!(app.flash);
    assert_eq!(app.flash_timer, 5);
    assert!(app.specials.is_empty());
}

#[test]
fn collision_of_like_coloured_actors_spawns_next_palette_colour() {
    let cases = [(PURPLE, Color::Cyan), (Color::Cyan, ORANGE), (ORANGE, PURPLE)];
    for (carried, spawned) in cases {
        let mut app = game(
            actor(2, 0, Direction::Right, Some(carried)),
            actor(3, 0, Direction::Still, Some(carried)),
            vec![],
        );
        assert!(app.spawn_due(10, 10));
        app.tick_with(10, 10, 5, 6);
        assert_eq!(app.specials, vec![SpecialObject { x: 5, y: 6, color: spawned }]);
        assert_eq!(app.first, actor(2, 0, Direction::Still, None));
        assert_eq!(app.second, actor(3, 0, Direction::Still, None));
        assert!(app.flash);
        assert_eq!(app.flash_timer, FLASH_FRAMES);
    }
}

#[test]
fn collision_with_colour_outside_palette_counts_from_first_entry() {
    let mut app = game(
        actor(2, 0, Direction::Right, Some(Color::Red)),
        actor(3, 0, Direction::Still, Some(Color::Red)),
        vec![],
    );
    app.tick_with(10, 10, 0, 7);
    assert_eq!(app.specials, vec![SpecialObject { x: 0, y: 7, color: Color::Cyan }]);
}

#[test]
fn spawned_pickup_is_appended_after_surviving_pickups() {
    let far = SpecialObject { x: 9, y: 9, color: ORANGE };
    let mut app = game(
        actor(2, 0, Direction::Right, Some(Color::Cyan)),
        actor(3, 0, Direction::Still, Some(Color::Cyan)),
        vec![far],
    );
    app.tick_with(20, 20, 1, 2);
    assert_eq!(app.specials, vec![far, SpecialObject { x: 1, y: 2, color: ORANGE }]);
}

#[test]
fn random_spawn_lands_inside_the_spawn_area() {
    for _ in 0..200 {
        let mut app = game(
            actor(2, 0, Direction::Right, Some(Color::Cyan)),
            actor(3, 0, Direction::Still, Some(Color::Cyan)),
            vec![],
        );
        app.tick(10, 7);
        assert_eq!(app.specials.len(), 1);
        assert!(app.specials[0].x < 8);
        assert!(app.specials[0].y < 5);
        assert_eq!(app.specials[0].color, ORANGE);
    }
}

#[test]
fn random_spawn_on_smallest_spawn_area_is_the_origin() {
    let mut app = game(
        actor(0, 0, Direction::Still, Some(PURPLE)),
        actor(0, 1, Direction::Still, Some(PURPLE)),
        vec![],
    );
    app.tick(3, 3);
    assert_eq!(app.specials, vec![SpecialObject { x: 0, y: 0, color: Color::Cyan }]);
}

#[test]
fn random_spawn_through_frame_driver_lands_inside_the_spawn_area() {
    for _ in 0..50 {
        let mut app = game(
            actor(4, 4, Direction::Still, Some(ORANGE)),
            actor(5, 5, Direction::Still, Some(ORANGE)),
            vec![],
        );
        assert_eq!(app.step(12, 9, Input::Idle), Flow::Continue);
        assert_eq!(app.specials.len(), 1);
        assert!(app.specials[0].x < 10);
        assert!(app.specials[0].y < 7);
        assert_eq!(app.specials[0].color, PURPLE);
    }
}

#[test]
fn collision_swaps_unlike_colours() {
    let mut app = game(
        actor(2, 0, Direction::Right, Some(Color::Red)),
        actor(3, 0, Direction::Left, Some(Color::Blue)),
        vec![],
    );
    app.tick(10, 10);
    assert_eq!(app.first, actor(2, 0, Direction::Still, Some(Color::Blue)));
    assert_eq!(app.second, actor(3, 0, Direction::Still, Some(Color::Red)));
    assert!(app.specials.is_empty());
}

#[test]
fn collision_hands_a_colour_to_the_uncoloured_actor() {
    let mut app = game(
        actor(2, 0, Direction::Right, Some(Color::Green)),
        actor(3, 1, Direction::Still, None),
        vec![],
    );
    app.tick(10, 10);
    assert_eq!(app.first.color, None);
    assert_eq!(app.second.color, Some(Color::Green));
    assert!(app.specials.is_empty());
}

#[test]
fn exchange_colors_swaps_or_clears() {
    let red = Some(Color::Red);
    let blue = Some(Color::Blue);
    assert_eq!(exchange_colors(red, blue), (blue, red));
    assert_eq!(exchange_colors(red, None), (None, red));
    assert_eq!(exchange_colors(None, blue), (blue, None));
    assert_eq!(exchange_colors(None, None), (None, None));
    assert_eq!(exchange_colors(red, red), (None, None));
}

#[test]
fn pickup_to_spawn_needs_equal_present_colours() {
    assert_eq!(pickup_to_spawn(Some(Color::Cyan), Some(Color::Cyan)), Some(ORANGE));
    assert_eq!(pickup_to_spawn(Some(Color::Cyan), Some(ORANGE)), None);
    assert_eq!(pickup_to_spawn(Some(Color::Cyan), None), None);
    assert_eq!(pickup_to_spawn(None, None), None);
}

#[test]
fn overlap_is_strict_on_both_axes() {
    let at = |x, y| actor(x, y, Direction::Still, None);
    assert!(overlap(&at(3, 0), &at(3, 0)));
    assert!(overlap(&at(3, 0), &at(4, 1)));
    assert!(overlap(&at(4, 1), &at(3, 0)));
    assert!(!overlap(&at(1, 0), &at(4, 0)));
    assert!(!overlap(&at(2, 0), &at(4, 0)));
    assert!(!overlap(&at(4, 0), &at(2, 0)));
    assert!(!overlap(&at(3, 0), &at(3, 2)));
    assert!(!overlap(&at(65535, 65535), &at(0, 0)));
    assert!(overlap(&at(65535, 65535), &at(65534, 65534)));
}

#[test]
fn pickup_under_both_actors_is_removed_once() {
    let shared = SpecialObject { x: 3, y: 3, color: Color::Cyan };
    let before = SpecialObject { x: 9, y: 0, color: PURPLE };
    let after = SpecialObject { x: 0, y: 9, color: ORANGE };
    let mut app = game(
        actor(2, 2, Direction::Still, None),
        actor(3, 3, Direction::Still, Some(Color::Red)),
        vec![before, shared, after],
    );
    app.tick_with(12, 12, 0, 0);
    // Both took the pickup's colour, collided as equals and left the next colour behind.
    assert_eq!(
        app.specials,
        vec![before, after, SpecialObject { x: 0, y: 0, color: ORANGE }]
    );
    assert_eq!(app.first.color, None);
    assert_eq!(app.second.color, None);
}

#[test]
fn remove_covered_keeps_order_and_removes_each_covered_pickup_once() {
    let a = SpecialObject { x: 0, y: 0, color: PURPLE };
    let b = SpecialObject { x: 5, y: 5, color: Color::Cyan };
    let c = SpecialObject { x: 6, y: 6, color: ORANGE };
    let d = SpecialObject { x: 7, y: 6, color: ORANGE };
    let e = SpecialObject { x: 1, y: 1, color: Color::Cyan };
    let mut specials = vec![a, b, c, d, e, b];
    remove_covered(&mut specials, (5, 5), (5, 5));
    assert_eq!(specials, vec![a, d, e]);
    let mut specials = vec![a, b, c, d, e];
    remove_covered(&mut specials, (0, 0), (6, 5));
    assert_eq!(specials, vec![b]);
    let mut specials: Vec<SpecialObject> = vec![];
    remove_covered(&mut specials, (0, 0), (0, 0));
    assert!(specials.is_empty());
}

#[test]
fn footprint_covers_two_by_two_cells() {
    let object = SpecialObject { x: 5, y: 5, color: Color::Cyan };
    assert!(object.is_covered_by(5, 5));
    assert!(object.is_covered_by(4, 4));
    assert!(object.is_covered_by(4, 5));
    assert!(!object.is_covered_by(3, 5));
    assert!(!object.is_covered_by(6, 5));
    assert!(!object.is_covered_by(5, 6));
    assert!(!object.is_covered_by(5, 3));
    let corner = SpecialObject { x: 65535, y: 65535, color: Color::Cyan };
    assert!(corner.is_covered_by(65535, 65534));
    assert!(!corner.is_covered_by(65533, 65535));
}

#[test]
fn last_pickup_under_the_footprint_gives_the_colour() {
    let specials = vec![
        SpecialObject { x: 4, y: 4, color: PURPLE },
        SpecialObject { x: 5, y: 5, color: Color::Cyan },
        SpecialObject { x: 9, y: 9, color: ORANGE },
    ];
    let on_both = actor(4, 4, Direction::Still, Some(Color::Red));
    assert_eq!(color_after_pickup(&specials, &on_both), Some(Color::Cyan));
    let on_none = actor(0, 0, Direction::Still, Some(Color::Red));
    assert_eq!(color_after_pickup(&specials, &on_none), Some(Color::Red));
    let uncoloured = actor(0, 0, Direction::Still, None);
    assert_eq!(color_after_pickup(&specials, &uncoloured), None);
}

#[test]
fn pickup_colours_the_actor_that_moves_onto_it() {
    let mut app = game(
        actor(2, 2, Direction::Right, None),
        actor(10, 10, Direction::Still, Some(Color::Red)),
        vec![SpecialObject { x: 4, y: 3, color: ORANGE }],
    );
    app.tick(20, 20);
    assert_eq!(app.first, actor(3, 2, Direction::Right, Some(ORANGE)));
    assert_eq!(app.second, actor(10, 10, Direction::Still, Some(Color::Red)));
    assert!(app.specials.is_empty());
}

#[test]
fn pickup_on_a_discarded_step_is_still_consumed() {
    let mut app = game(
        actor(2, 0, Direction::Right, Some(Color::Red)),
        actor(4, 0, Direction::Still, None),
        vec![SpecialObject { x: 4, y: 1, color: Color::Cyan }],
    );
    app.tick_with(10, 10, 8, 8);
    // Both footprints held the pickup, so both turned cyan, collided and lost it again.
    assert_eq!(app.first, actor(2, 0, Direction::Still, None));
    assert_eq!(app.second, actor(4, 0, Direction::Still, None));
    assert_eq!(app.specials, vec![SpecialObject { x: 8, y: 8, color: ORANGE }]);
}

#[test]
fn left_edge_stops_and_paints_red() {
    let mut app = game(
        actor(1, 4, Direction::Left, Some(Color::Cyan)),
        actor(8, 8, Direction::Still, None),
        vec![],
    );
    app.tick(10, 10);
    assert_eq!(app.first, actor(0, 4, Direction::Still, Some(Color::Red)));
}

#[test]
fn each_border_paints_its_colour() {
    let from = actor(5, 5, Direction::Still, None);
    let mut right = Actor { x: 7, direction: Direction::Right, ..from };
    right = right.advance(10, 10);
    assert_eq!(right, actor(8, 5, Direction::Still, Some(Color::Blue)));
    let mut up = Actor { y: 1, direction: Direction::Up, ..from };
    up = up.advance(10, 10);
    assert_eq!(up, actor(5, 0, Direction::Still, Some(Color::Green)));
    let mut down = Actor { y: 7, direction: Direction::Down, ..from };
    down = down.advance(10, 10);
    assert_eq!(down, actor(5, 8, Direction::Still, Some(Color::Yellow)));
    let mut left = Actor { x: 1, direction: Direction::Left, ..from };
    left = left.advance(10, 10);
    assert_eq!(left, actor(0, 5, Direction::Still, Some(Color::Red)));
}

#[test]
fn advance_away_from_the_border_keeps_direction_and_colour() {
    let a = actor(5, 5, Direction::Left, Some(Color::Cyan)).advance(10, 10);
    assert_eq!(a, actor(4, 5, Direction::Left, Some(Color::Cyan)));
    let a = actor(5, 5, Direction::Down, None).advance(10, 10);
    assert_eq!(a, actor(5, 6, Direction::Down, None));
    let a = actor(5, 5, Direction::Still, Some(Color::Red)).advance(10, 10);
    assert_eq!(a, actor(5, 5, Direction::Still, Some(Color::Red)));
}

#[test]
fn advance_at_the_border_changes_nothing() {
    let a = actor(0, 3, Direction::Left, Some(Color::Cyan));
    assert_eq!(a.advance(10, 10), a);
    let a = actor(8, 3, Direction::Right, None);
    assert_eq!(a.advance(10, 10), a);
    let a = actor(3, 0, Direction::Up, None);
    assert_eq!(a.advance(10, 10), a);
    let a = actor(3, 8, Direction::Down, None);
    assert_eq!(a.advance(10, 10), a);
}

#[test]
fn advance_off_a_shrunken_surface_does_not_move_outwards() {
    let a = actor(50, 20, Direction::Right, None);
    assert_eq!(a.advance(40, 10), a);
    let a = actor(50, 20, Direction::Down, None);
    assert_eq!(a.advance(40, 10), a);
    let a = actor(50, 20, Direction::Left, None);
    assert_eq!(a.advance(40, 10), actor(49, 20, Direction::Left, None));
    let a = actor(65535, 65535, Direction::Right, None);
    assert_eq!(a.advance(65535, 65535), a);
    let a = actor(3, 3, Direction::Right, None);
    assert_eq!(a.advance(0, 0), a);
}

#[test]
fn pickup_at_the_border_overrides_the_border_colour() {
    let mut app = game(
        actor(1, 0, Direction::Left, None),
        actor(8, 8, Direction::Still, None),
        vec![SpecialObject { x: 0, y: 0, color: Color::Cyan }],
    );
    app.tick(10, 10);
    assert_eq!(app.first, actor(0, 0, Direction::Still, Some(Color::Cyan)));
    assert!(app.specials.is_empty());
}

#[test]
fn border_colour_is_exchanged_when_the_step_collides() {
    let mut app = game(
        actor(1, 1, Direction::Left, None),
        actor(0, 0, Direction::Still, Some(Color::Cyan)),
        vec![],
    );
    app.tick(10, 10);
    assert_eq!(app.first, actor(1, 1, Direction::Still, Some(Color::Cyan)));
    assert_eq!(app.second, actor(0, 0, Direction::Still, Some(Color::Red)));
}

#[test]
fn actors_stay_on_the_surface_over_many_frames() {
    let (width, height) = (9u16, 6u16);
    let mut app = App::new();
    app.set_initial_positions(width, height);
    let keys = [
        Key::Right,
        Key::Char('a'),
        Key::Down,
        Key::Char('w'),
        Key::Left,
        Key::Char('d'),
        Key::Up,
        Key::Char('s'),
        Key::Char('4'),
        Key::Char('8'),
    ];
    for round in 0..400usize {
        let input = if round % 7 == 0 {
            Input::Key(keys[(round / 7) % keys.len()])
        } else {
            Input::Idle
        };
        assert_eq!(app.step(width, height, input), Flow::Continue);
        assert!(app.first.x + 2 <= width && app.first.y + 2 <= height);
        assert!(app.second.x + 2 <= width && app.second.y + 2 <= height);
        assert_eq!(app.flash, app.flash_timer > 0);
        for object in &app.specials {
            assert!(object.x < width - 2 && object.y < height - 2);
        }
    }
}

#[test]
fn flash_lasts_five_frames() {
    let mut app = game(
        actor(2, 0, Direction::Right, None),
        actor(3, 0, Direction::Still, None),
        vec![],
    );
    assert_eq!(app.step(10, 10, Input::Idle), Flow::Continue);
    assert!(app.flash);
    assert_eq!(app.flash_timer, 5);
    app.first.x = 0;
    app.second.x = 7;
    for left in [4u32, 3, 2, 1] {
        app.step(10, 10, Input::Other);
        assert!(app.flash);
        assert_eq!(app.flash_timer, left);
    }
    app.step(10, 10, Input::Idle);
    assert!(!app.flash);
    assert_eq!(app.flash_timer, 0);
    app.step(10, 10, Input::Idle);
    assert!(!app.flash);
    assert_eq!(app.flash_timer, 0);
}

#[test]
fn decay_flash_counts_down_and_clears_at_zero() {
    let mut app = App::new();
    app.flash = true;
    app.flash_timer = 2;
    app.decay_flash();
    assert_eq!((app.flash, app.flash_timer), (true, 1));
    app.decay_flash();
    assert_eq!((app.flash, app.flash_timer), (false, 0));
    app.decay_flash();
    assert_eq!((app.flash, app.flash_timer), (false, 0));
}

#[test]
fn key_for_opposite_direction_stops_the_actor() {
    let mut app = game(
        actor(4, 4, Direction::Right, None),
        actor(8, 8, Direction::Up, None),
        vec![],
    );
    app.press(Player::First, Direction::Left, 12, 12);
    assert_eq!(app.first.direction, Direction::Still);
    app.press(Player::Second, Direction::Down, 12, 12);
    assert_eq!(app.second.direction, Direction::Still);
    assert_eq!((app.first.x, app.first.y, app.second.x, app.second.y), (4, 4, 8, 8));
}

#[test]
fn key_sets_direction_when_there_is_room() {
    let mut app = game(
        actor(4, 4, Direction::Still, None),
        actor(8, 8, Direction::Still, None),
        vec![],
    );
    app.press(Player::First, Direction::Down, 12, 12);
    assert_eq!(app.first.direction, Direction::Down);
    app.press(Player::First, Direction::Left, 12, 12);
    assert_eq!(app.first.direction, Direction::Left);
    app.press(Player::Second, Direction::Right, 12, 12);
    assert_eq!(app.second.direction, Direction::Right);
}

#[test]
fn key_towards_the_border_the_actor_stands_at_is_ignored() {
    let mut app = game(
        actor(0, 0, Direction::Still, None),
        actor(10, 10, Direction::Up, None),
        vec![],
    );
    app.press(Player::First, Direction::Left, 12, 12);
    assert_eq!(app.first.direction, Direction::Still);
    app.press(Player::First, Direction::Up, 12, 12);
    assert_eq!(app.first.direction, Direction::Still);
    app.press(Player::Second, Direction::Right, 12, 12);
    assert_eq!(app.second.direction, Direction::Up);
    app.press(Player::Second, Direction::Down, 12, 12);
    assert_eq!(app.second.direction, Direction::Still);
}

#[test]
fn key_towards_an_adjacent_actor_is_ignored() {
    let mut app = game(
        actor(4, 4, Direction::Still, None),
        actor(6, 4, Direction::Still, None),
        vec![],
    );
    app.press(Player::First, Direction::Right, 20, 20);
    assert_eq!(app.first.direction, Direction::Still);
    app.press(Player::Second, Direction::Left, 20, 20);
    assert_eq!(app.second.direction, Direction::Still);
    app.second.x = 7;
    app.press(Player::First, Direction::Right, 20, 20);
    assert_eq!(app.first.direction, Direction::Right);
    app.press(Player::Second, Direction::Left, 20, 20);
    assert_eq!(app.second.direction, Direction::Left);
}

#[test]
fn key_away_from_an_actor_in_the_same_row_is_ignored_too() {
    let mut app = game(
        actor(4, 4, Direction::Still, None),
        actor(15, 4, Direction::Still, None),
        vec![],
    );
    app.press(Player::First, Direction::Left, 20, 20);
    assert_eq!(app.first.direction, Direction::Still);
    app.press(Player::Second, Direction::Right, 20, 20);
    assert_eq!(app.second.direction, Direction::Still);
    app.second.y = 5;
    app.press(Player::First, Direction::Left, 20, 20);
    assert_eq!(app.first.direction, Direction::Left);
}

#[test]
fn diagonal_neighbours_do_not_hold_a_start_back() {
    let mut app = game(
        actor(4, 4, Direction::Still, None),
        actor(6, 5, Direction::Still, None),
        vec![],
    );
    app.press(Player::First, Direction::Right, 20, 20);
    assert_eq!(app.first.direction, Direction::Right);
}

#[test]
fn can_start_matches_the_guard_in_each_direction() {
    let me = actor(5, 5, Direction::Still, None);
    let above = actor(5, 2, Direction::Still, None);
    assert!(me.can_start(&above, Direction::Up, 20, 20));
    let close_above = actor(5, 3, Direction::Still, None);
    assert!(!me.can_start(&close_above, Direction::Up, 20, 20));
    assert!(!me.can_start(&close_above, Direction::Down, 20, 20));
    assert!(me.can_start(&close_above, Direction::Left, 20, 20));
    assert!(!me.can_start(&above, Direction::Still, 20, 20));
    assert!(!me.can_start(&above, Direction::Right, 7, 20));
    assert!(me.can_start(&above, Direction::Right, 8, 20));
    assert!(!me.can_start(&actor(0, 0, Direction::Still, None), Direction::Down, 20, 7));
}

#[test]
fn keys_are_bound_to_commands() {
    assert_eq!(command_for(Key::Char('q')), Some(Command::Quit));
    assert_eq!(command_for(Key::Esc), Some(Command::Quit));
    assert_eq!(command_for(Key::Left), Some(Command::Steer(Player::First, Direction::Left)));
    assert_eq!(command_for(Key::Right), Some(Command::Steer(Player::First, Direction::Right)));
    assert_eq!(command_for(Key::Up), Some(Command::Steer(Player::First, Direction::Up)));
    assert_eq!(command_for(Key::Down), Some(Command::Steer(Player::First, Direction::Down)));
    for (keys, dir) in [
        (['a', '4'], Direction::Left),
        (['d', '6'], Direction::Right),
        (['w', '8'], Direction::Up),
        (['s', '2'], Direction::Down),
    ] {
        for key in keys {
            assert_eq!(command_for(Key::Char(key)), Some(Command::Steer(Player::Second, dir)));
        }
    }
    assert_eq!(command_for(Key::Char('x')), None);
    assert_eq!(command_for(Key::Char('Q')), None);
    assert_eq!(command_for(Key::Other), None);
}

#[test]
fn quit_key_ends_the_loop_after_the_flash_faded() {
    let mut app = game(
        actor(0, 0, Direction::Right, None),
        actor(8, 8, Direction::Still, None),
        vec![],
    );
    app.flash = true;
    app.flash_timer = 3;
    assert_eq!(app.step(10, 10, Input::Key(Key::Esc)), Flow::Quit);
    assert_eq!(app.flash_timer, 2);
    assert_eq!(app.first, actor(0, 0, Direction::Right, None));
    assert_eq!(app.step(10, 10, Input::Key(Key::Char('q'))), Flow::Quit);
}

#[test]
fn key_frame_steers_without_moving() {
    let mut app = game(
        actor(3, 3, Direction::Still, None),
        actor(8, 8, Direction::Still, None),
        vec![],
    );
    assert_eq!(app.step(12, 12, Input::Key(Key::Right)), Flow::Continue);
    assert_eq!(app.first, actor(3, 3, Direction::Right, None));
    assert_eq!(app.step(12, 12, Input::Key(Key::Char('w'))), Flow::Continue);
    assert_eq!(app.second, actor(8, 8, Direction::Up, None));
    assert_eq!(app.step_with(12, 12, Input::Key(Key::Char('z')), 1, 1), Flow::Continue);
    assert_eq!(app.step_with(12, 12, Input::Other, 1, 1), Flow::Continue);
    assert_eq!(app.first, actor(3, 3, Direction::Right, None));
    assert_eq!(app.second, actor(8, 8, Direction::Up, None));
    assert_eq!(app.step_with(12, 12, Input::Idle, 1, 1), Flow::Continue);
    assert_eq!(app.first, actor(4, 3, Direction::Right, None));
    assert_eq!(app.second, actor(8, 7, Direction::Up, None));
}

#[test]
fn palette_cycles_through_three_colours() {
    assert_eq!(PALETTE_LEN, 3);
    assert_eq!(special_color(0), PURPLE);
    assert_eq!(special_color(1), Color::Cyan);
    assert_eq!(special_color(2), ORANGE);
    assert_eq!(palette_position(PURPLE), Some(0));
    assert_eq!(palette_position(Color::Cyan), Some(1));
    assert_eq!(palette_position(ORANGE), Some(2));
    assert_eq!(palette_position(Color::Black), None);
    assert_eq!(palette_position(Color::Rgb(128, 0, 127)), None);
    assert_eq!(next_special_color(PURPLE), Color::Cyan);
    assert_eq!(next_special_color(Color::Cyan), ORANGE);
    assert_eq!(next_special_color(ORANGE), PURPLE);
    assert_eq!(next_special_color(Color::Black), Color::Cyan);
}

#[test]
fn border_colours_by_direction() {
    assert_eq!(new_color_by_border(Direction::Left), Some(Color::Red));
    assert_eq!(new_color_by_border(Direction::Right), Some(Color::Blue));
    assert_eq!(new_color_by_border(Direction::Up), Some(Color::Green));
    assert_eq!(new_color_by_border(Direction::Down), Some(Color::Yellow));
    assert_eq!(new_color_by_border(Direction::Still), None);
}

#[test]
fn opposite_directions() {
    assert_eq!(Direction::Left.opposite(), Direction::Right);
    assert_eq!(Direction::Right.opposite(), Direction::Left);
    assert_eq!(Direction::Up.opposite(), Direction::Down);
    assert_eq!(Direction::Down.opposite(), Direction::Up);
    assert_eq!(Direction::Still.opposite(), Direction::Still);
}

#[test]
fn scene_lists_actors_then_pickups() {
    let mut app = game(
        actor(1, 2, Direction::Still, Some(Color::Red)),
        actor(7, 8, Direction::Left, None),
        vec![
            SpecialObject { x: 4, y: 5, color: Color::Cyan },
            SpecialObject { x: 6, y: 0, color: ORANGE },
        ],
    );
    let scene = app.scene();
    assert_eq!(scene.background, None);
    assert_eq!(
        scene.tiles,
        vec![
            Tile { x: 1, y: 2, color: Some(Color::Red) },
            Tile { x: 7, y: 8, color: None },
            Tile { x: 4, y: 5, color: Some(Color::Cyan) },
            Tile { x: 6, y: 0, color: Some(ORANGE) },
        ]
    );
    app.flash = true;
    app.flash_timer = 5;
    assert_eq!(app.scene().background, Some(Color::White));
}
