use aoe::input::{ButtonState, Key};
use aoe::misc::Direction;
use aoe::motion::{clamp_add, position_of, steer, velocity_from};

fn press(held: &mut Vec<Direction>, key: Key) {
    steer(held, &ButtonState::Press, &Some(key));
}

fn release(held: &mut Vec<Direction>, key: Key) {
    steer(held, &ButtonState::Release, &Some(key));
}

fn distinct(held: &Vec<Direction>) -> bool {
    for i in 0..held.len() {
        for j in 0..held.len() {
            if i != j && held[i] == held[j] {
                return false;
            }
        }
    }
    true
}

#[test]
fn keys_steer_in_their_directions() {
    assert_eq!(Key::W.direction(), Some(Direction::North));
    assert_eq!(Key::A.direction(), Some(Direction::West));
    assert_eq!(Key::S.direction(), Some(Direction::South));
    assert_eq!(Key::D.direction(), Some(Direction::East));
    assert_eq!(Key::V.direction(), None);
    assert_eq!(Key::L.direction(), None);
    assert_eq!(Key::Return.direction(), None);
    assert_eq!(Key::Tab.direction(), None);
    assert_eq!(Key::Other.direction(), None);
}

#[test]
fn a_press_appends_in_order() {
    let mut held = vec![];
    press(&mut held, Key::D);
    press(&mut held, Key::W);
    press(&mut held, Key::A);
    assert_eq!(held, vec![Direction::East, Direction::North, Direction::West]);
}

#[test]
fn a_press_of_a_held_direction_changes_nothing() {
    let mut held = vec![];
    press(&mut held, Key::W);
    press(&mut held, Key::D);
    press(&mut held, Key::W);
    assert_eq!(held, vec![Direction::North, Direction::East]);
}

#[test]
fn a_release_takes_the_direction_out() {
    let mut held = vec![Direction::North, Direction::East, Direction::South];
    release(&mut held, Key::D);
    assert_eq!(held, vec![Direction::North, Direction::South]);
    release(&mut held, Key::W);
    assert_eq!(held, vec![Direction::South]);
    release(&mut held, Key::S);
    assert_eq!(held, vec![]);
}

#[test]
fn a_release_of_a_direction_not_held_changes_nothing() {
    let mut held = vec![];
    release(&mut held, Key::W);
    assert_eq!(held, vec![]);
    let mut held = vec![Direction::East];
    release(&mut held, Key::A);
    assert_eq!(held, vec![Direction::East]);
}

#[test]
fn keys_that_do_not_steer_change_nothing() {
    let mut held = vec![Direction::East];
    press(&mut held, Key::V);
    press(&mut held, Key::Other);
    release(&mut held, Key::Tab);
    steer(&mut held, &ButtonState::Press, &None);
    steer(&mut held, &ButtonState::Release, &None);
    assert_eq!(held, vec![Direction::East]);
}

#[test]
fn held_directions_never_repeat_whatever_the_history() {
    let keys = [Key::W, Key::A, Key::S, Key::D, Key::V, Key::Other];
    let mut held = vec![];
    let mut seed: u32 = 12345;
    for _ in 0..2000 {
        seed = seed.wrapping_mul(1103515245).wrapping_add(12345);
        let key = keys[((seed >> 16) % 6) as usize];
        seed = seed.wrapping_mul(1103515245).wrapping_add(12345);
        if (seed >> 16) % 3 == 0 {
            release(&mut held, key);
        } else {
            press(&mut held, key);
        }
        assert!(distinct(&held));
        assert!(held.len() <= 4);
    }
}

#[test]
fn position_of_finds_the_place() {
    let held = vec![Direction::South, Direction::West];
    assert_eq!(position_of(&held, Direction::South), Some(0));
    assert_eq!(position_of(&held, Direction::West), Some(1));
    assert_eq!(position_of(&held, Direction::North), None);
    assert_eq!(position_of(&vec![], Direction::North), None);
}

#[test]
fn each_direction_adds_the_speed_along_its_axis() {
    assert_eq!(velocity_from(&vec![], 2), (0, 0));
    assert_eq!(velocity_from(&vec![Direction::North], 2), (0, -2));
    assert_eq!(velocity_from(&vec![Direction::South], 2), (0, 2));
    assert_eq!(velocity_from(&vec![Direction::West], 2), (-2, 0));
    assert_eq!(velocity_from(&vec![Direction::East], 2), (2, 0));
}

#[test]
fn held_directions_add_up() {
    assert_eq!(velocity_from(&vec![Direction::North, Direction::East], 20), (20, -20));
    assert_eq!(velocity_from(&vec![Direction::South, Direction::West], 7), (-7, 7));
}

#[test]
fn opposite_directions_cancel() {
    assert_eq!(velocity_from(&vec![Direction::North, Direction::South], 2), (0, 0));
    assert_eq!(velocity_from(&vec![Direction::West, Direction::East], 2), (0, 0));
    assert_eq!(
        velocity_from(&vec![Direction::West, Direction::North, Direction::East], 3),
        (0, -3)
    );
    assert_eq!(
        velocity_from(
            &vec![Direction::West, Direction::North, Direction::East, Direction::South],
            3
        ),
        (0, 0)
    );
}

#[test]
fn the_velocity_does_not_depend_on_the_order_of_pressing() {
    let mut first = vec![];
    press(&mut first, Key::W);
    press(&mut first, Key::D);
    let mut second = vec![];
    press(&mut second, Key::D);
    press(&mut second, Key::S);
    press(&mut second, Key::W);
    release(&mut second, Key::S);
    assert_eq!(first, vec![Direction::North, Direction::East]);
    assert_eq!(second, vec![Direction::East, Direction::North]);
    assert_eq!(velocity_from(&first, 2), velocity_from(&second, 2));
    assert_eq!(velocity_from(&first, 2), (2, -2));
}

#[test]
fn the_velocity_at_the_largest_speed_does_not_overflow() {
    assert_eq!(
        velocity_from(&vec![Direction::West, Direction::East, Direction::North], i64::MAX),
        (0, -i64::MAX)
    );
    assert_eq!(
        velocity_from(&vec![Direction::East, Direction::South], i64::MAX),
        (i64::MAX, i64::MAX)
    );
}

#[test]
fn clamp_add_adds_within_the_speed() {
    assert_eq!(clamp_add(0, 5, 20), 5);
    assert_eq!(clamp_add(5, -8, 20), -3);
    assert_eq!(clamp_add(15, 5, 20), 20);
    assert_eq!(clamp_add(-15, -5, 20), -20);
}

#[test]
fn clamp_add_stops_at_the_speed() {
    assert_eq!(clamp_add(15, 6, 20), 20);
    assert_eq!(clamp_add(-15, -6, 20), -20);
    assert_eq!(clamp_add(0, 1, 0), 0);
    assert_eq!(clamp_add(0, -1, 0), 0);
    assert_eq!(clamp_add(i64::MAX, i64::MAX, 20), 20);
    assert_eq!(clamp_add(i64::MIN, i64::MIN, 20), -20);
    assert_eq!(clamp_add(i64::MAX, i64::MAX, i64::MAX), i64::MAX);
    assert_eq!(clamp_add(i64::MIN, i64::MIN, i64::MAX), -i64::MAX);
}
