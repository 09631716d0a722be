//! The motion model: which directions are held, the velocity they add up to,
//! and how a velocity moves a position.

use vstd::prelude::*;

use crate::input::{key_direction, ButtonState, Key};
use crate::misc::Direction;

verus! {

/// The held directions after `dir` goes down: it joins the end unless it is held already.
pub open spec fn pressed(held: Seq<Direction>, dir: Direction) -> Seq<Direction> {
    if held.contains(dir) {
        held
    } else {
        held.push(dir)
    }
}

/// The held directions after `dir` comes up: it leaves; if it was not held nothing changes.
pub open spec fn released(held: Seq<Direction>, dir: Direction) -> Seq<Direction> {
    held.remove_value(dir)
}

/// The held directions after one button event. Keys that do not steer change nothing.
pub open spec fn held_after(held: Seq<Direction>, state: ButtonState, key: Option<Key>) -> Seq<
    Direction,
> {
    match key_direction(key) {
        Some(dir) => match state {
            ButtonState::Press => pressed(held, dir),
            ButtonState::Release => released(held, dir),
        },
        None => held,
    }
}

/// The held directions after a whole history of button events, oldest first.
pub open spec fn held_after_all(
    held: Seq<Direction>,
    events: Seq<(ButtonState, Option<Key>)>,
) -> Seq<Direction>
    decreases events.len(),
{
    if events.len() == 0 {
        held
    } else {
        held_after(held_after_all(held, events.drop_last()), events.last().0, events.last().1)
    }
}

/// What one held direction adds to the velocity, as `(x, y)`.
pub open spec fn push_of(dir: Direction, speed: int) -> (int, int) {
    match dir {
        Direction::North => (0, -speed),
        Direction::South => (0, speed),
        Direction::West => (-speed, 0),
        Direction::East => (speed, 0),
    }
}

/// The vector sum of what each held direction adds.
pub open spec fn velocity_sum(held: Seq<Direction>, speed: int) -> (int, int)
    decreases held.len(),
{
    if held.len() == 0 {
        (0, 0)
    } else {
        let rest = velocity_sum(held.drop_last(), speed);
        let last = push_of(held.last(), speed);
        (rest.0 + last.0, rest.1 + last.1)
    }
}

/// What a set of held directions adds along `dir`: the speed if `dir` is among them.
pub open spec fn toward(held: Set<Direction>, dir: Direction, speed: int) -> int {
    if held.contains(dir) {
        speed
    } else {
        0
    }
}

/// The velocity that a set of held directions stands for: opposite directions cancel.
pub open spec fn velocity_of(held: Set<Direction>, speed: int) -> (int, int) {
    (
        toward(held, Direction::East, speed) - toward(held, Direction::West, speed),
        toward(held, Direction::South, speed) - toward(held, Direction::North, speed),
    )
}

/// `v` brought back into `[-speed, speed]`.
pub open spec fn clamped(v: int, speed: int) -> int {
    if v > speed {
        speed
    } else if v < -speed {
        -speed
    } else {
        v
    }
}

/// Whether `v` can be held in a machine coordinate.
pub open spec fn fits(v: int) -> bool {
    i64::MIN <= v <= i64::MAX
}

/// The mathematical state of a thing that moves: where it is, how fast it goes by its
/// own effort, how fast it is carried by what it stands on, which directions are held,
/// and how much speed one held direction gives.
pub struct Motion {
    pub x: int,
    pub y: int,
    pub vx: int,
    pub vy: int,
    pub other_vx: int,
    pub other_vy: int,
    pub held: Seq<Direction>,
    pub speed: int,
}

impl Motion {
    /// No direction is held twice, and the own velocity stays within the speed on
    /// both axes.
    pub open spec fn wf(self) -> bool {
        &&& self.held.no_duplicates()
        &&& 0 <= self.speed
        &&& -self.speed <= self.vx <= self.speed
        &&& -self.speed <= self.vy <= self.speed
    }

    /// The own velocity is exactly what the held directions add up to.
    pub open spec fn settled(self) -> bool {
        (self.vx, self.vy) == velocity_sum(self.held, self.speed)
    }

    /// Nothing is held and the own velocity is zero.
    pub open spec fn idle(self) -> bool {
        self.held.len() == 0 && self.vx == 0 && self.vy == 0
    }

    /// After a button event: only the held directions change.
    pub open spec fn steered(self, state: ButtonState, key: Option<Key>) -> Motion {
        Motion { held: held_after(self.held, state, key), ..self }
    }

    /// After the own velocity is derived anew from the held directions.
    pub open spec fn recomputed(self) -> Motion {
        Motion {
            vx: velocity_sum(self.held, self.speed).0,
            vy: velocity_sum(self.held, self.speed).1,
            ..self
        }
    }

    /// After an additive change of the own velocity, clamped to the speed.
    pub open spec fn nudged(self, dx: int, dy: int) -> Motion {
        Motion {
            vx: clamped(self.vx + dx, self.speed),
            vy: clamped(self.vy + dy, self.speed),
            ..self
        }
    }

    /// After a run of additive changes of the own velocity, oldest first, each clamped
    /// to the speed.
    pub open spec fn nudged_all(self, changes: Seq<(int, int)>) -> Motion
        decreases changes.len(),
    {
        if changes.len() == 0 {
            self
        } else {
            self.nudged_all(changes.drop_last()).nudged(changes.last().0, changes.last().1)
        }
    }

    /// After letting go of everything: nothing held, own velocity zero.
    pub open spec fn halted(self) -> Motion {
        Motion { held: Seq::empty(), vx: 0, vy: 0, ..self }
    }

    /// After taking over the velocity of what carries it.
    pub open spec fn boarded(self, vx: int, vy: int) -> Motion {
        Motion { other_vx: vx, other_vy: vy, ..self }
    }

    /// After being put down at a position.
    pub open spec fn placed(self, x: int, y: int) -> Motion {
        Motion { x: x, y: y, ..self }
    }

    /// After one tick of being carried.
    pub open spec fn carried(self) -> Motion {
        Motion { x: self.x + self.other_vx, y: self.y + self.other_vy, ..self }
    }

    /// After one tick of its own movement.
    pub open spec fn advanced(self) -> Motion {
        Motion { x: self.x + self.vx, y: self.y + self.vy, ..self }
    }

    /// Where its own movement would take it next.
    pub open spec fn tentative(self) -> (int, int) {
        (self.x + self.vx, self.y + self.vy)
    }

    /// Being carried for one tick stays within machine coordinates.
    pub open spec fn can_be_carried(self) -> bool {
        fits(self.x + self.other_vx) && fits(self.y + self.other_vy)
    }

    /// Its own movement for one tick stays within machine coordinates.
    pub open spec fn can_advance(self) -> bool {
        fits(self.x + self.vx) && fits(self.y + self.vy)
    }
}

/// The first place at which `dir` is held, if it is held at all.
pub fn position_of(directions: &Vec<Direction>, dir: Direction) -> (found: Option<usize>)
    ensures
        match found {
            Some(i) => {
                &&& i < directions@.len()
                &&& directions@[i as int] == dir
                &&& directions@.index_of_first(dir) == Some(i as int)
            },
            None => !directions@.contains(dir),
        },
        found is Some <==> directions@.contains(dir),
{
    let mut i: usize = 0;
    while i < directions.len()
        invariant
            i <= directions.len(),
            forall|j: int| 0 <= j < i ==> directions@[j] != dir,
        decreases directions.len() - i,
    {
        if directions[i] == dir {
            proof {
                directions@.index_of_first_ensures(dir);
            }
            return Some(i);
        }
        i += 1;
    }
    None
}

/// Applies one button event to the held directions: a press appends the key's direction
/// unless it is held already, a release takes it out, and a key that does not steer
/// changes nothing.
pub fn steer(directions: &mut Vec<Direction>, state: &ButtonState, key: &Option<Key>)
    ensures
        final(directions)@ == held_after(old(directions)@, *state, *key),
{
    let dir = match key {
        Some(k) => k.direction(),
        None => None,
    };
    if let Some(dir) = dir {
        match position_of(directions, dir) {
            Some(index) => {
                if *state == ButtonState::Release {
                    directions.remove(index);
                }
            },
            None => {
                if *state == ButtonState::Press {
                    directions.push(dir);
                } else {
                    proof {
                        directions@.index_of_first_ensures(dir);
                    }
                }
            },
        }
    }
}

/// The velocity that the held directions add up to.
pub fn velocity_from(directions: &Vec<Direction>, speed: i64) -> (v: (i64, i64))
    requires
        directions@.no_duplicates(),
        0 <= speed,
    ensures
        (v.0 as int, v.1 as int) == velocity_sum(directions@, speed as int),
{
    let mut dx: i64 = 0;
    let mut dy: i64 = 0;
    let mut i: usize = 0;
    while i < directions.len()
        invariant
            i <= directions.len(),
            directions@.no_duplicates(),
            0 <= speed,
            (dx as int, dy as int) == velocity_sum(directions@.take(i as int), speed as int),
        decreases directions.len() - i,
    {
        proof {
            let next = directions@.take(i + 1);
            assert(next.drop_last() == directions@.take(i as int));
            lemma_velocity_sum_bounded(next, speed as int);
        }
        match directions[i] {
            Direction::North => dy = dy - speed,
            Direction::South => dy = dy + speed,
            Direction::West => dx = dx - speed,
            Direction::East => dx = dx + speed,
        }
        i += 1;
    }
    proof {
        assert(directions@.take(directions.len() as int) == directions@);
    }
    (dx, dy)
}

/// `v + d`, brought back into `[-speed, speed]`.
pub fn clamp_add(v: i64, d: i64, speed: i64) -> (r: i64)
    requires
        0 <= speed,
    ensures
        r == clamped(v + d, speed as int),
{
    let sum: i128 = v as i128 + d as i128;
    if sum > speed as i128 {
        speed
    } else if sum < -(speed as i128) {
        -speed
    } else {
        sum as i64
    }
}

/// Pressing keeps the held directions distinct, and leaves the pressed one held.
pub proof fn lemma_pressed_distinct(held: Seq<Direction>, dir: Direction)
    requires
        held.no_duplicates(),
    ensures
        pressed(held, dir).no_duplicates(),
        pressed(held, dir).contains(dir),
        pressed(held, dir).to_set() == held.to_set().insert(dir),
{
    let after = pressed(held, dir);
    if held.contains(dir) {
        assert(after.to_set() =~= held.to_set().insert(dir));
    } else {
        assert(after[held.len() as int] == dir);
        assert forall|d: Direction|
            after.to_set().contains(d) == held.to_set().insert(dir).contains(d) by {
            if after.contains(d) {
                let i = choose|i: int| 0 <= i < after.len() && after[i] == d;
                if i < held.len() {
                    assert(held[i] == d);
                }
            }
            if held.contains(d) {
                let i = choose|i: int| 0 <= i < held.len() && held[i] == d;
                assert(after[i] == d);
            }
        }
        assert(after.to_set() =~= held.to_set().insert(dir));
    }
}

/// Releasing keeps the held directions distinct, and leaves the released one not held.
pub proof fn lemma_released_distinct(held: Seq<Direction>, dir: Direction)
    requires
        held.no_duplicates(),
    ensures
        released(held, dir).no_duplicates(),
        !released(held, dir).contains(dir),
        released(held, dir).to_set() == held.to_set().remove(dir),
{
    held.index_of_first_ensures(dir);
    let after = released(held, dir);
    match held.index_of_first(dir) {
        Some(i) => {
            held.remove_ensures(i);
            assert forall|d: Direction|
                after.to_set().contains(d) == held.to_set().remove(dir).contains(d) by {
                if after.contains(d) {
                    let k = choose|k: int| 0 <= k < after.len() && after[k] == d;
                    if k < i {
                        assert(held[k] == d);
                    } else {
                        assert(held[k + 1] == d);
                    }
                }
                if held.contains(d) && d != dir {
                    let k = choose|k: int| 0 <= k < held.len() && held[k] == d;
                    if k < i {
                        assert(after[k] == d);
                    } else {
                        assert(after[k - 1] == d);
                    }
                }
            }
            assert(after.to_set() =~= held.to_set().remove(dir));
        },
        None => {
            assert(after.to_set() =~= held.to_set().remove(dir));
        },
    }
}

/// One button event keeps the held directions distinct.
pub proof fn lemma_held_after_distinct(held: Seq<Direction>, state: ButtonState, key: Option<Key>)
    requires
        held.no_duplicates(),
    ensures
        held_after(held, state, key).no_duplicates(),
{
    match key_direction(key) {
        Some(dir) => {
            lemma_pressed_distinct(held, dir);
            lemma_released_distinct(held, dir);
        },
        None => {},
    }
}

/// Distinct directions are at most four.
pub proof fn lemma_distinct_at_most_four(held: Seq<Direction>)
    requires
        held.no_duplicates(),
    ensures
        held.len() <= 4,
{
    if held.len() >= 5 {
        // the first five would be five different directions
        assert(held[0] != held[1] && held[0] != held[2] && held[0] != held[3]);
        assert(held[0] != held[4]);
        assert(held[1] != held[2] && held[1] != held[3] && held[1] != held[4]);
        assert(held[2] != held[3] && held[2] != held[4]);
        assert(held[3] != held[4]);
    }
}

/// Whatever is pressed and released, and in whatever order, no direction is ever held
/// twice, so never more than four are held.
pub proof fn lemma_held_never_duplicates(
    held: Seq<Direction>,
    events: Seq<(ButtonState, Option<Key>)>,
)
    requires
        held.no_duplicates(),
    ensures
        held_after_all(held, events).no_duplicates(),
        held_after_all(held, events).len() <= 4,
    decreases events.len(),
{
    if events.len() > 0 {
        lemma_held_never_duplicates(held, events.drop_last());
        lemma_held_after_distinct(
            held_after_all(held, events.drop_last()),
            events.last().0,
            events.last().1,
        );
    }
    lemma_distinct_at_most_four(held_after_all(held, events));
}

/// A release of a direction that is not held changes nothing, and so does a press of
/// one that is held.
pub proof fn lemma_unpaired_events_change_nothing(held: Seq<Direction>, dir: Direction)
    ensures
        !held.contains(dir) ==> released(held, dir) == held,
        held.contains(dir) ==> pressed(held, dir) == held,
{
    held.index_of_first_ensures(dir);
}

/// For distinct held directions the vector sum is the velocity of the set of them:
/// each axis is the speed, its negation or nothing.
pub proof fn lemma_velocity_sum_of_distinct(held: Seq<Direction>, speed: int)
    requires
        held.no_duplicates(),
    ensures
        velocity_sum(held, speed) == velocity_of(held.to_set(), speed),
    decreases held.len(),
{
    if held.len() > 0 {
        let init = held.drop_last();
        let last = held.last();
        lemma_velocity_sum_of_distinct(init, speed);
        assert(!init.contains(last)) by {
            if init.contains(last) {
                let i = choose|i: int| 0 <= i < init.len() && init[i] == last;
                assert(held[i] == last);
            }
        }
        assert forall|d: Direction| held.contains(d) == (init.contains(d) || d == last) by {
            if held.contains(d) {
                let i = choose|i: int| 0 <= i < held.len() && held[i] == d;
                if i < init.len() {
                    assert(init[i] == d);
                }
            }
            if init.contains(d) {
                let i = choose|i: int| 0 <= i < init.len() && init[i] == d;
                assert(held[i] == d);
            }
        }
    }
}

/// One held direction alone gives the speed along it and nothing across it.
pub proof fn lemma_velocity_of_one_direction(dir: Direction, speed: int)
    ensures
        velocity_sum(seq![dir], speed) == push_of(dir, speed),
{
    assert(seq![dir].drop_last() == Seq::<Direction>::empty());
    assert(seq![dir].last() == dir);
    reveal_with_fuel(velocity_sum, 2);
}

/// The velocity depends on which directions are held now and on nothing else: two
/// histories that end with the same directions held, in whatever order, give the same
/// velocity.
pub proof fn lemma_velocity_ignores_history(a: Seq<Direction>, b: Seq<Direction>, speed: int)
    requires
        a.no_duplicates(),
        b.no_duplicates(),
        a.to_set() == b.to_set(),
    ensures
        velocity_sum(a, speed) == velocity_sum(b, speed),
{
    lemma_velocity_sum_of_distinct(a, speed);
    lemma_velocity_sum_of_distinct(b, speed);
}

/// The velocity of distinct held directions never exceeds the speed on either axis.
pub proof fn lemma_velocity_sum_bounded(held: Seq<Direction>, speed: int)
    requires
        held.no_duplicates(),
        0 <= speed,
    ensures
        -speed <= velocity_sum(held, speed).0 <= speed,
        -speed <= velocity_sum(held, speed).1 <= speed,
{
    lemma_velocity_sum_of_distinct(held, speed);
}

/// A button event keeps a well-formed motion well formed.
pub proof fn lemma_steered_keeps_wf(motion: Motion, state: ButtonState, key: Option<Key>)
    requires
        motion.wf(),
    ensures
        motion.steered(state, key).wf(),
{
    lemma_held_after_distinct(motion.held, state, key);
}

/// Deriving the velocity anew keeps a well-formed motion well formed, and makes the
/// own velocity the vector sum of what is held.
pub proof fn lemma_recomputed_is_settled(motion: Motion)
    requires
        motion.wf(),
    ensures
        motion.recomputed().wf(),
        motion.recomputed().settled(),
{
    lemma_velocity_sum_bounded(motion.held, motion.speed);
}

/// Whatever is added to the own velocity, and however often, each component stays
/// within the speed: a well-formed motion stays well formed.
pub proof fn lemma_nudged_stays_bounded(motion: Motion, changes: Seq<(int, int)>)
    requires
        motion.wf(),
    ensures
        motion.nudged_all(changes).wf(),
        -motion.speed <= motion.nudged_all(changes).vx <= motion.speed,
        -motion.speed <= motion.nudged_all(changes).vy <= motion.speed,
        motion.nudged_all(changes).speed == motion.speed,
    decreases changes.len(),
{
    if changes.len() > 0 {
        lemma_nudged_stays_bounded(motion, changes.drop_last());
    }
}

} // verus!
