use aoe::collision::Footing;
use aoe::creature::{Creature, CreatureState, Sprite};
use aoe::game::{Action, Event, Game, GameState, MAP_HEIGHT, MAP_WIDTH};
use aoe::input::{Button, ButtonState, Key};
use aoe::misc::{moveable, Direction};
use aoe::motion::velocity_from;
use aoe::ship::Ship;

fn press(game: &mut Game, key: Key) {
    game.handle_input(ButtonState::Press, Button::Keyboard(key));
}

fn release(game: &mut Game, key: Key) {
    game.handle_input(ButtonState::Release, Button::Keyboard(key));
}

fn tap(game: &mut Game, key: Key) {
    press(game, key);
    release(game, key);
}

// A game that is on, with vessel and actor at their first places.
fn game_on() -> Game {
    let mut game = Game::new();
    game.start();
    tap(&mut game, Key::Return);
    game
}

fn place(game: &Game) -> (i64, i64) {
    (game.player().x(), game.player().y())
}

#[test]
fn a_new_game_shows_its_title() {
    let game = Game::new();
    assert_eq!(game.game_state(), GameState::Title);
    assert_eq!(game.player().creature_state(), CreatureState::Normal);
    assert_eq!(game.player().health(), 3);
    assert_eq!(game.ship().width(), 7);
    assert_eq!(game.ship().height(), 8);
}

#[test]
fn the_world_is_a_thousand_tiles_each_way() {
    assert_eq!(MAP_WIDTH, 1000);
    assert_eq!(MAP_HEIGHT, 1000);
}

#[test]
fn the_start_puts_the_actor_in_the_middle_of_the_vessel() {
    let mut game = Game::new();
    game.start();
    assert_eq!((game.ship().x(), game.ship().y()), (32000, 32000));
    assert_eq!(place(&game), (32224, 32256));
    assert_eq!(game.game_state(), GameState::Title);
}

#[test]
fn return_starts_the_game_from_the_title() {
    let mut game = Game::new();
    release(&mut game, Key::Return);
    assert_eq!(game.game_state(), GameState::Title);
    press(&mut game, Key::Return);
    assert_eq!(game.game_state(), GameState::InGame);
    press(&mut game, Key::Return);
    assert_eq!(game.game_state(), GameState::InGame);
}

#[test]
fn tab_opens_and_closes_the_menu() {
    let mut game = Game::new();
    press(&mut game, Key::Tab);
    assert_eq!(game.game_state(), GameState::Title);
    press(&mut game, Key::Return);
    press(&mut game, Key::Tab);
    assert_eq!(game.game_state(), GameState::InMenu);
    release(&mut game, Key::Tab);
    assert_eq!(game.game_state(), GameState::InMenu);
    press(&mut game, Key::Return);
    assert_eq!(game.game_state(), GameState::InMenu);
    press(&mut game, Key::Tab);
    assert_eq!(game.game_state(), GameState::InGame);
}

#[test]
fn steering_keys_do_nothing_before_the_game_is_on() {
    let mut game = Game::new();
    press(&mut game, Key::D);
    assert_eq!(game.player().directions(), &vec![]);
    assert_eq!(game.ship().directions(), &vec![]);
    press(&mut game, Key::V);
    release(&mut game, Key::V);
    assert_eq!(game.player().creature_state(), CreatureState::Normal);
}

#[test]
fn steering_keys_move_the_actor_while_it_steers_itself() {
    let mut game = game_on();
    press(&mut game, Key::D);
    press(&mut game, Key::W);
    assert_eq!(game.player().directions(), &vec![Direction::East, Direction::North]);
    assert_eq!((game.player().self_vel_x(), game.player().self_vel_y()), (2, -2));
    assert_eq!(game.ship().directions(), &vec![]);
    assert_eq!((game.ship().self_vel_x(), game.ship().self_vel_y()), (0, 0));
}

#[test]
fn steering_keys_move_the_vessel_while_the_actor_is_at_the_helm() {
    let mut game = game_on();
    tap(&mut game, Key::V);
    press(&mut game, Key::A);
    press(&mut game, Key::S);
    assert_eq!(game.ship().directions(), &vec![Direction::West, Direction::South]);
    assert_eq!((game.ship().self_vel_x(), game.ship().self_vel_y()), (-20, 20));
    assert_eq!(game.player().directions(), &vec![]);
    assert_eq!((game.player().self_vel_x(), game.player().self_vel_y()), (0, 0));
}

#[test]
fn taking_the_helm_clears_the_actor() {
    let mut game = game_on();
    press(&mut game, Key::D);
    press(&mut game, Key::S);
    press(&mut game, Key::V);
    assert_eq!(game.player().creature_state(), CreatureState::ControllingShip);
    assert_eq!(game.player().directions(), &vec![]);
    assert_eq!((game.player().self_vel_x(), game.player().self_vel_y()), (0, 0));
}

#[test]
fn leaving_the_helm_clears_the_vessel() {
    let mut game = game_on();
    tap(&mut game, Key::V);
    press(&mut game, Key::D);
    press(&mut game, Key::S);
    assert_eq!((game.ship().self_vel_x(), game.ship().self_vel_y()), (20, 20));
    tap(&mut game, Key::V);
    assert_eq!(game.player().creature_state(), CreatureState::Normal);
    assert_eq!(game.ship().directions(), &vec![]);
    assert_eq!((game.ship().self_vel_x(), game.ship().self_vel_y()), (0, 0));
}

#[test]
fn the_helm_changes_hands_on_the_press_only() {
    let mut game = game_on();
    release(&mut game, Key::V);
    assert_eq!(game.player().creature_state(), CreatureState::Normal);
    press(&mut game, Key::V);
    assert_eq!(game.player().creature_state(), CreatureState::ControllingShip);
    release(&mut game, Key::V);
    assert_eq!(game.player().creature_state(), CreatureState::ControllingShip);
}

#[test]
fn the_helm_does_not_change_hands_again_while_the_key_is_down() {
    let mut game = game_on();
    press(&mut game, Key::V);
    press(&mut game, Key::V);
    press(&mut game, Key::V);
    assert_eq!(game.player().creature_state(), CreatureState::ControllingShip);
    release(&mut game, Key::V);
    press(&mut game, Key::V);
    assert_eq!(game.player().creature_state(), CreatureState::Normal);
}

#[test]
fn taking_and_leaving_the_helm_at_once_leaves_both_at_rest() {
    let mut game = game_on();
    tap(&mut game, Key::V);
    tap(&mut game, Key::V);
    assert_eq!(game.player().creature_state(), CreatureState::Normal);
    assert_eq!(game.player().directions(), &vec![]);
    assert_eq!((game.player().self_vel_x(), game.player().self_vel_y()), (0, 0));
    assert_eq!(game.ship().directions(), &vec![]);
    assert_eq!((game.ship().self_vel_x(), game.ship().self_vel_y()), (0, 0));
}

#[test]
fn the_round_trip_clears_what_the_actor_held_before() {
    let mut game = game_on();
    press(&mut game, Key::D);
    tap(&mut game, Key::V);
    tap(&mut game, Key::V);
    assert_eq!(game.player().directions(), &vec![]);
    assert_eq!((game.player().self_vel_x(), game.player().self_vel_y()), (0, 0));
    assert_eq!(game.ship().directions(), &vec![]);
    assert_eq!((game.ship().self_vel_x(), game.ship().self_vel_y()), (0, 0));
}

#[test]
fn three_hits_end_the_game_on_the_third() {
    let mut game = game_on();
    assert_eq!(game.player().health(), 3);
    press(&mut game, Key::L);
    game.update();
    assert_eq!(game.player().health(), 2);
    assert_eq!(game.game_state(), GameState::InGame);
    press(&mut game, Key::L);
    game.update();
    assert_eq!(game.player().health(), 1);
    assert_eq!(game.game_state(), GameState::InGame);
    press(&mut game, Key::L);
    assert_eq!(game.game_state(), GameState::InGame);
    game.update();
    assert_eq!(game.player().health(), 0);
    assert_eq!(game.game_state(), GameState::GameOver);
}

#[test]
fn a_hit_counts_on_press_and_on_release() {
    let mut game = game_on();
    press(&mut game, Key::L);
    assert_eq!(game.player().health(), 2);
    release(&mut game, Key::L);
    assert_eq!(game.player().health(), 1);
}

#[test]
fn nothing_moves_once_the_game_is_over() {
    let mut game = game_on();
    press(&mut game, Key::D);
    game.update();
    assert_eq!(place(&game), (32226, 32256));
    press(&mut game, Key::L);
    press(&mut game, Key::L);
    press(&mut game, Key::L);
    game.update();
    assert_eq!(game.game_state(), GameState::GameOver);
    assert_eq!(place(&game), (32226, 32256));
    game.update();
    assert_eq!(place(&game), (32226, 32256));
    assert_eq!(game.game_state(), GameState::GameOver);
    press(&mut game, Key::Return);
    press(&mut game, Key::Tab);
    assert_eq!(game.game_state(), GameState::GameOver);
}

#[test]
fn a_dead_actor_ends_the_game_from_any_screen() {
    let mut game = Game::new();
    press(&mut game, Key::L);
    press(&mut game, Key::L);
    press(&mut game, Key::L);
    assert_eq!(game.game_state(), GameState::Title);
    game.update();
    assert_eq!(game.game_state(), GameState::GameOver);
}

#[test]
fn nothing_moves_while_the_menu_is_open() {
    let mut game = game_on();
    press(&mut game, Key::D);
    press(&mut game, Key::Tab);
    game.update();
    game.update();
    assert_eq!(place(&game), (32224, 32256));
    press(&mut game, Key::Tab);
    game.update();
    assert_eq!(place(&game), (32226, 32256));
}

#[test]
fn the_actor_walks_east_by_its_speed_each_tick() {
    let mut game = game_on();
    press(&mut game, Key::D);
    for tick in 1..=80 {
        game.update();
        assert_eq!(place(&game), (32224 + 2 * tick, 32256));
        assert_eq!(game.player().dir(), Direction::East);
    }
    // the footprint now ends where the deck ends
    assert_eq!(place(&game), (32384, 32256));
    assert_eq!(game.is_on_ship(32384, 32256), Footing::Legal);
    assert_eq!(game.is_on_ship(32386, 32256), Footing::OffVessel);
}

#[test]
fn the_actor_walks_off_the_deck_where_no_tile_stops_it() {
    let mut game = game_on();
    press(&mut game, Key::D);
    for _ in 0..80 {
        game.update();
    }
    assert_eq!(place(&game), (32384, 32256));
    for tick in 1..=40 {
        game.update();
        assert_eq!(place(&game), (32384 + 2 * tick, 32256));
    }
    // and back onto it
    release(&mut game, Key::D);
    press(&mut game, Key::A);
    for tick in 1..=60 {
        game.update();
        assert_eq!(place(&game), (32464 - 2 * tick, 32256));
        assert_eq!(game.player().dir(), Direction::West);
    }
    assert_eq!(game.is_on_ship(32344, 32256), Footing::Legal);
}

#[test]
fn the_actor_cannot_step_onto_air_from_outside() {
    // north of the deck, above its top left tile, which is air
    let mut player = Creature::new();
    player.set_position(0, -10);
    player.handle_input(&ButtonState::Press, &Some(Key::S));
    player.update_self_velocity();
    let mut game = Game::from_parts(player, Ship::new()).unwrap();
    tap(&mut game, Key::Return);
    for tick in 1..=4 {
        game.update();
        assert_eq!(place(&game), (0, -10 + 2 * tick));
    }
    assert_eq!(place(&game), (0, -2));
    for _ in 0..5 {
        game.update();
        assert_eq!(place(&game), (0, -2));
    }
    // two tiles further east the top row is wood
    release(&mut game, Key::S);
    press(&mut game, Key::D);
    for _ in 0..64 {
        game.update();
    }
    assert_eq!(place(&game), (128, -2));
    release(&mut game, Key::D);
    press(&mut game, Key::S);
    game.update();
    assert_eq!(place(&game), (128, 0));
    game.update();
    assert_eq!(place(&game), (128, 2));
}

#[test]
fn the_actor_stops_at_a_tile_it_cannot_pass() {
    let mut game = game_on();
    // north to the row of the wheel
    press(&mut game, Key::W);
    for tick in 1..=64 {
        game.update();
        assert_eq!(place(&game), (32224, 32256 - 2 * tick));
    }
    release(&mut game, Key::W);
    assert_eq!(place(&game), (32224, 32128));
    // east along that row, whose last tile is air
    press(&mut game, Key::D);
    for tick in 1..=48 {
        game.update();
        assert_eq!(place(&game), (32224 + 2 * tick, 32128));
    }
    assert_eq!(place(&game), (32320, 32128));
    for _ in 0..10 {
        game.update();
        assert_eq!(place(&game), (32320, 32128));
    }
    // a blocked move is dropped whole: north-east does not slide north
    press(&mut game, Key::W);
    game.update();
    assert_eq!(place(&game), (32320, 32128));
    // away from the air the actor is free again
    release(&mut game, Key::D);
    game.update();
    assert_eq!(place(&game), (32320, 32126));
}

#[test]
fn a_blocked_actor_keeps_facing_as_it_did() {
    let mut game = game_on();
    press(&mut game, Key::W);
    for _ in 0..128 {
        game.update();
    }
    assert_eq!(place(&game), (32224, 32000));
    assert_eq!(game.player().dir(), Direction::North);
    release(&mut game, Key::W);
    press(&mut game, Key::A);
    for _ in 0..200 {
        game.update();
    }
    // column 1 of the top row is air: the actor stops at column 2
    assert_eq!(place(&game), (32128, 32000));
    assert_eq!(game.player().dir(), Direction::West);
    // south-west is blocked as well, and the actor does not turn south
    press(&mut game, Key::S);
    game.update();
    assert_eq!(place(&game), (32128, 32000));
    assert_eq!(game.player().dir(), Direction::West);
    release(&mut game, Key::A);
    game.update();
    assert_eq!(place(&game), (32128, 32002));
    assert_eq!(game.player().dir(), Direction::South);
}

#[test]
fn the_vessel_carries_the_actor() {
    let mut game = game_on();
    tap(&mut game, Key::V);
    press(&mut game, Key::S);
    press(&mut game, Key::D);
    for tick in 1..=5 {
        game.update();
        assert_eq!((game.ship().x(), game.ship().y()), (32000 + 20 * tick, 32000 + 20 * tick));
        assert_eq!(place(&game), (32224 + 20 * tick, 32256 + 20 * tick));
        assert_eq!(
            (game.player().other_vel_x(), game.player().other_vel_y()),
            (20, 20)
        );
    }
    release(&mut game, Key::S);
    game.update();
    assert_eq!((game.ship().x(), game.ship().y()), (32120, 32100));
    assert_eq!(place(&game), (32344, 32356));
    // carried, the actor does not turn
    assert_eq!(game.player().dir(), Direction::South);
}

#[test]
fn the_other_velocity_is_a_snapshot_not_a_sum() {
    let mut game = game_on();
    tap(&mut game, Key::V);
    press(&mut game, Key::D);
    game.update();
    game.update();
    assert_eq!((game.player().other_vel_x(), game.player().other_vel_y()), (20, 0));
    tap(&mut game, Key::V);
    game.update();
    assert_eq!((game.player().other_vel_x(), game.player().other_vel_y()), (0, 0));
    assert_eq!(place(&game), (32264, 32256));
}

// An actor that holds east on a vessel that drifts south.
fn drifting(actor_x: i64, actor_y: i64) -> Game {
    let mut ship = Ship::new();
    ship.change_self_velocity(0, 5);
    let mut player = Creature::new();
    player.set_position(actor_x, actor_y);
    player.handle_input(&ButtonState::Press, &Some(Key::D));
    player.update_self_velocity();
    let mut game = Game::from_parts(player, ship).unwrap();
    tap(&mut game, Key::Return);
    game
}

#[test]
fn a_walking_actor_is_carried_as_well() {
    let mut game = drifting(300, 128);
    for tick in 1..=10 {
        game.update();
        assert_eq!(place(&game), (300 + 2 * tick, 128 + 5 * tick));
        assert_eq!((game.ship().x(), game.ship().y()), (0, 5 * tick));
    }
}

#[test]
fn a_blocked_actor_is_still_carried() {
    let mut game = drifting(300, 128);
    for _ in 0..10 {
        game.update();
    }
    assert_eq!(place(&game), (320, 178));
    // the tile to the east is air: x stops, y follows the vessel
    for tick in 1..=10 {
        game.update();
        assert_eq!(place(&game), (320, 178 + 5 * tick));
        assert_eq!((game.ship().x(), game.ship().y()), (0, 50 + 5 * tick));
    }
}

#[test]
fn an_actor_off_the_vessel_walks_freely() {
    let mut player = Creature::new();
    player.set_position(-500, -500);
    player.handle_input(&ButtonState::Press, &Some(Key::D));
    player.handle_input(&ButtonState::Press, &Some(Key::W));
    player.update_self_velocity();
    let mut game = Game::from_parts(player, Ship::new()).unwrap();
    tap(&mut game, Key::Return);
    assert_eq!(game.is_on_ship(-498, -502), Footing::OffVessel);
    game.update();
    assert_eq!(place(&game), (-498, -502));
    assert_eq!(game.player().dir(), Direction::North);
    game.update();
    assert_eq!(place(&game), (-496, -504));
}

#[test]
fn the_game_tells_the_three_footings_apart() {
    let mut game = Game::new();
    game.start();
    assert_eq!(game.is_on_ship(32224, 32256), Footing::Legal);
    // the top left tile is air
    assert_eq!(game.is_on_ship(32000, 32000), Footing::Blocked);
    assert_eq!(game.is_on_ship(32322, 32128), Footing::Blocked);
    assert_eq!(game.is_on_ship(31999, 32256), Footing::OffVessel);
    assert_eq!(game.is_on_ship(32386, 32256), Footing::OffVessel);
}

#[test]
fn one_tile_west_of_the_deck_is_off_the_vessel() {
    let game = Game::new();
    assert_eq!(game.is_on_ship(-64, 192), Footing::OffVessel);
    assert_eq!(game.is_on_ship(0, 192), Footing::Legal);
    // the first tile of the top row is air
    assert_eq!(game.is_on_ship(0, 0), Footing::Blocked);
}

#[test]
fn the_footing_is_taken_from_where_the_vessel_lies() {
    let mut ship = Ship::new();
    ship.change_self_velocity(20, 0);
    let game = Game::from_parts(Creature::new(), ship).unwrap();
    // column 0 of row 3 is wood, whatever the vessel's velocity
    assert_eq!(game.is_on_ship(0, 192), Footing::Legal);
    assert_eq!(game.is_on_ship(-1, 192), Footing::OffVessel);
    assert_eq!(game.is_on_ship(384, 192), Footing::Legal);
    assert_eq!(game.is_on_ship(385, 192), Footing::OffVessel);

    let mut ship = Ship::new();
    ship.set_position(1000, 1000);
    ship.change_self_velocity(-20, 20);
    let game = Game::from_parts(Creature::new(), ship).unwrap();
    // the deck lies at x = 1000: its row 3 spans 1000..1448
    assert_eq!(game.is_on_ship(1000, 1192), Footing::Legal);
    assert_eq!(game.is_on_ship(980, 1192), Footing::OffVessel);
    assert_eq!(game.is_on_ship(1384, 1192), Footing::Legal);
    assert_eq!(game.is_on_ship(1385, 1192), Footing::OffVessel);
    assert_eq!(game.is_on_ship(1000, 1000), Footing::Blocked);
}

#[test]
fn the_footing_does_not_need_the_next_place_of_the_vessel_to_fit() {
    let mut ship = Ship::new();
    ship.set_position(i64::MAX - 10, i64::MIN);
    ship.change_self_velocity(20, -20);
    let game = Game::from_parts(Creature::new(), ship).unwrap();
    assert_eq!(game.is_on_ship(i64::MAX - 10, i64::MIN + 192), Footing::Legal);
    assert_eq!(game.is_on_ship(i64::MAX - 10, i64::MIN), Footing::Blocked);
    assert_eq!(game.is_on_ship(0, 0), Footing::OffVessel);
}

#[test]
fn a_tick_takes_the_footing_on_the_vessel_before_it_moves() {
    // the vessel drifts east; the actor holds east just west of the air in row 2
    let mut ship = Ship::new();
    ship.change_self_velocity(20, 0);
    let mut player = Creature::new();
    player.set_position(300, 128);
    player.handle_input(&ButtonState::Press, &Some(Key::D));
    player.update_self_velocity();
    let mut game = Game::from_parts(player, ship).unwrap();
    tap(&mut game, Key::Return);
    // carried to 320, its own step would reach 322, onto the air of the deck at x = 0
    game.update();
    assert_eq!(place(&game), (320, 128));
    assert_eq!((game.ship().x(), game.ship().y()), (20, 0));
    game.update();
    assert_eq!(place(&game), (340, 128));
    assert_eq!((game.ship().x(), game.ship().y()), (40, 0));
    // one pixel further west the step stays on wood
    let mut ship = Ship::new();
    ship.change_self_velocity(20, 0);
    let mut player = Creature::new();
    player.set_position(298, 128);
    player.handle_input(&ButtonState::Press, &Some(Key::D));
    player.update_self_velocity();
    let mut game = Game::from_parts(player, ship).unwrap();
    tap(&mut game, Key::Return);
    game.update();
    assert_eq!(place(&game), (320, 128));
    assert_eq!(game.player().dir(), Direction::East);
}

#[test]
fn the_loop_gets_nothing_to_do_but_to_draw() {
    let mut game = Game::new();
    game.start();
    assert_eq!(game.run(Event::Other), Action::Nothing);
    assert_eq!(game.run(Event::Update), Action::Nothing);
    assert_eq!(game.run(Event::Render), Action::Display(None));
    assert_eq!(
        game.run(Event::Button(ButtonState::Press, Button::Keyboard(Key::Return))),
        Action::Nothing
    );
    assert_eq!(game.game_state(), GameState::InGame);
    assert_eq!(
        game.run(Event::Render),
        Action::Display(Some(Sprite {
            hearts: 3,
            moving: false,
            facing: Direction::South,
            frame: 1,
            carried: None,
        }))
    );
}

#[test]
fn events_of_the_loop_do_what_the_calls_do() {
    let mut game = Game::new();
    game.start();
    game.run(Event::Button(ButtonState::Press, Button::Keyboard(Key::Return)));
    game.run(Event::Button(ButtonState::Press, Button::Keyboard(Key::A)));
    game.run(Event::Button(ButtonState::Press, Button::Other));
    game.run(Event::Update);
    game.run(Event::Other);
    game.run(Event::Update);
    assert_eq!(place(&game), (32220, 32256));
    assert_eq!(
        game.run(Event::Render),
        Action::Display(Some(Sprite {
            hearts: 3,
            moving: true,
            facing: Direction::West,
            frame: 1,
            carried: None,
        }))
    );
}

#[test]
fn the_animation_runs_only_while_the_game_is_on() {
    let mut game = Game::new();
    for _ in 0..20 {
        assert_eq!(game.run(Event::Render), Action::Display(None));
    }
    tap(&mut game, Key::Return);
    let mut frames = vec![];
    for _ in 0..8 {
        match game.run(Event::Render) {
            Action::Display(Some(sprite)) => frames.push(sprite.frame),
            _ => panic!("the actor is drawn while the game is on"),
        }
    }
    assert_eq!(frames, vec![1, 1, 1, 1, 1, 1, 1, 2]);
}

#[test]
fn other_buttons_and_keys_change_nothing() {
    let mut game = game_on();
    press(&mut game, Key::Other);
    game.handle_input(ButtonState::Press, Button::Other);
    game.handle_input(ButtonState::Release, Button::Other);
    assert_eq!(game.game_state(), GameState::InGame);
    assert_eq!(game.player().directions(), &vec![]);
    assert_eq!(game.player().health(), 3);
    assert_eq!(game.player().creature_state(), CreatureState::Normal);
}

#[test]
fn the_router_functions_can_be_called_one_by_one() {
    let mut game = Game::new();
    game.execute_main_menu(&ButtonState::Press);
    assert_eq!(game.game_state(), GameState::InGame);
    game.execute_move(&ButtonState::Press, &Some(Key::S));
    assert_eq!((game.player().self_vel_x(), game.player().self_vel_y()), (0, 2));
    game.execute_action(&ButtonState::Press);
    assert_eq!(game.player().creature_state(), CreatureState::ControllingShip);
    assert_eq!((game.player().self_vel_x(), game.player().self_vel_y()), (0, 0));
    game.execute_move(&ButtonState::Press, &Some(Key::S));
    assert_eq!((game.ship().self_vel_x(), game.ship().self_vel_y()), (0, 20));
    game.execute_move(&ButtonState::Press, &None);
    game.execute_move(&ButtonState::Press, &Some(Key::V));
    assert_eq!((game.ship().self_vel_x(), game.ship().self_vel_y()), (0, 20));
    game.execute_open_menu(&ButtonState::Press);
    assert_eq!(game.game_state(), GameState::InMenu);
    game.execute_move(&ButtonState::Release, &Some(Key::S));
    assert_eq!((game.ship().self_vel_x(), game.ship().self_vel_y()), (0, 20));
    game.execute_action(&ButtonState::Release);
    game.execute_action(&ButtonState::Press);
    assert_eq!(game.player().creature_state(), CreatureState::ControllingShip);
}

#[test]
fn only_one_of_the_two_ever_holds_a_direction() {
    let keys = [Key::W, Key::A, Key::S, Key::D, Key::V, Key::Tab, Key::Other];
    let mut game = game_on();
    let mut seed: u32 = 2024;
    for _ in 0..5000 {
        seed = seed.wrapping_mul(1103515245).wrapping_add(12345);
        let key = keys[((seed >> 16) % 7) as usize];
        seed = seed.wrapping_mul(1103515245).wrapping_add(12345);
        match (seed >> 16) % 3 {
            0 => press(&mut game, key),
            1 => release(&mut game, key),
            _ => {
                assert!(game.can_update());
                game.update();
            }
        }
        let player = game.player();
        let ship = game.ship();
        match player.creature_state() {
            CreatureState::Normal => {
                assert_eq!(ship.directions(), &vec![]);
                assert_eq!((ship.self_vel_x(), ship.self_vel_y()), (0, 0));
            }
            CreatureState::ControllingShip => {
                assert_eq!(player.directions(), &vec![]);
                assert_eq!((player.self_vel_x(), player.self_vel_y()), (0, 0));
            }
        }
        assert_eq!(
            (player.self_vel_x(), player.self_vel_y()),
            velocity_from(player.directions(), player.speed())
        );
        assert_eq!(
            (ship.self_vel_x(), ship.self_vel_y()),
            velocity_from(ship.directions(), ship.speed())
        );
        assert!(-20 <= ship.self_vel_x() && ship.self_vel_x() <= 20);
        assert!(-20 <= ship.self_vel_y() && ship.self_vel_y() <= 20);
    }
}

#[test]
fn a_tick_at_the_end_of_the_coordinates_is_told_beforehand() {
    let mut player = Creature::new();
    player.set_position(i64::MAX - 1, 0);
    player.handle_input(&ButtonState::Press, &Some(Key::D));
    player.update_self_velocity();
    let mut game = Game::from_parts(player, Ship::new()).unwrap();
    // nothing is simulated before the game is on
    assert!(game.can_update());
    tap(&mut game, Key::Return);
    assert!(!game.can_update());
    release(&mut game, Key::D);
    assert!(game.can_update());
    game.update();
    assert_eq!(place(&game), (i64::MAX - 1, 0));
    press(&mut game, Key::A);
    assert!(game.can_update());
    game.update();
    assert_eq!(place(&game), (i64::MAX - 3, 0));
}

#[test]
fn a_vessel_larger_than_the_world_makes_no_game() {
    let wide = Ship::from_template(&vec![vec![1; 1001]]).unwrap();
    assert!(Game::from_parts(Creature::new(), wide).is_none());
    let high = Ship::from_template(&vec![vec![1]; 1001]).unwrap();
    assert!(Game::from_parts(Creature::new(), high).is_none());
    let largest = Ship::from_template(&vec![vec![1; 1000]; 1000]).unwrap();
    let mut game = Game::from_parts(Creature::new(), largest).unwrap();
    game.start();
    assert_eq!((game.ship().x(), game.ship().y()), (32000, 32000));
    assert_eq!((game.player().x(), game.player().y()), (64000, 64000));
}
