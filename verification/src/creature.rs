//! The actor: a creature that walks by its own effort, is carried by what it stands
//! on, can take and leave the helm, and can carry one item.

use vstd::prelude::*;

use crate::input::{ButtonState, Key};
use crate::item::{Item, ItemType, ItemView};
use crate::misc::{moveable, Direction};
use crate::motion::{
    lemma_recomputed_is_settled, lemma_steered_keeps_wf, steer, velocity_from, Motion,
};

verus! {

/// Who the steering keys move: the creature itself, or the vessel it stands on.
#[derive(Clone, Copy, Debug, PartialEq, Eq, Structural)]
pub enum CreatureState {
    Normal,
    ControllingShip,
}

pub struct Creature {
    creature_state: CreatureState,
    x: i64,
    y: i64,
    self_vel_x: i64,
    self_vel_y: i64,
    directions: Vec<Direction>,
    other_vel_x: i64,
    other_vel_y: i64,
    speed: i64,
    health: i32,
    inventory: Option<Item>,
    dir: Direction,
    sprite_index: i32,
    frames_since_last_draw: i32,
    animation_rate: i32,
}

/// What a renderer needs to draw a creature once.
#[derive(Clone, Copy, Debug, PartialEq, Eq, Structural)]
pub struct Sprite {
    /// How many hearts to show.
    pub hearts: i32,
    /// Whether the creature moves by its own effort.
    pub moving: bool,
    /// Which way it faces.
    pub facing: Direction,
    /// Which of the three animation frames to show, counted from 1.
    pub frame: i32,
    /// The kind of the item it carries, if it carries one.
    pub carried: Option<ItemType>,
}

/// The mathematical view of a creature.
pub struct CreatureView {
    pub motion: Motion,
    pub state: CreatureState,
    pub health: int,
    pub inventory: Option<ItemView>,
    pub facing: Direction,
    /// The animation frame last shown, counted from 0.
    pub sprite_index: int,
    /// How many times the creature was drawn since the frame last changed.
    pub frames: int,
    /// How many draws one animation frame lasts.
    pub animation_rate: int,
}

/// The way a creature faces once it moves with velocity `(vx, vy)`: along the vertical
/// axis if it moves along it at all, else along the horizontal one; a creature at rest
/// keeps facing as it did.
pub open spec fn facing_after(facing: Direction, vx: int, vy: int) -> Direction {
    if vy > 0 {
        Direction::South
    } else if vy < 0 {
        Direction::North
    } else if vx > 0 {
        Direction::East
    } else if vx < 0 {
        Direction::West
    } else {
        facing
    }
}

impl CreatureView {
    /// The motion is well formed, the health is not negative and no more than a
    /// machine integer holds, and the animation counters are within their cycle.
    pub open spec fn wf(self) -> bool {
        &&& self.motion.wf()
        &&& 0 <= self.health <= i32::MAX
        &&& 0 <= self.sprite_index < 3
        &&& 0 <= self.animation_rate < i32::MAX
        &&& 0 <= self.frames <= self.animation_rate + 1
    }

    /// A creature as it is made: at the origin, at rest, facing south, with three
    /// lives and speed 2, steering itself, with empty hands.
    pub open spec fn fresh() -> CreatureView {
        CreatureView {
            motion: Motion {
                x: 0,
                y: 0,
                vx: 0,
                vy: 0,
                other_vx: 0,
                other_vy: 0,
                held: Seq::empty(),
                speed: 2,
            },
            state: CreatureState::Normal,
            health: 3,
            inventory: None,
            facing: Direction::South,
            sprite_index: 0,
            frames: 0,
            animation_rate: 5,
        }
    }

    /// A creature without health is dead.
    pub open spec fn dead(self) -> bool {
        self.health <= 0
    }

    /// After taking damage: the health drops by it, but not below zero.
    pub open spec fn hurt(self, damage: int) -> CreatureView {
        CreatureView {
            health: if self.health - damage < 0 {
                0
            } else {
                self.health - damage
            },
            ..self
        }
    }

    /// After a button event: only the held directions change.
    pub open spec fn steered(self, state: ButtonState, key: Option<Key>) -> CreatureView {
        CreatureView { motion: self.motion.steered(state, key), ..self }
    }

    /// After the own velocity is derived anew from the held directions.
    pub open spec fn recomputed(self) -> CreatureView {
        CreatureView { motion: self.motion.recomputed(), ..self }
    }

    /// After the other velocity is set.
    pub open spec fn boarded(self, vx: int, vy: int) -> CreatureView {
        CreatureView { motion: self.motion.boarded(vx, vy), ..self }
    }

    /// After being put down at a position.
    pub open spec fn placed(self, x: int, y: int) -> CreatureView {
        CreatureView { motion: self.motion.placed(x, y), ..self }
    }

    /// After one tick of being carried. A carried item is not moved by this.
    pub open spec fn carried(self) -> CreatureView {
        CreatureView { motion: self.motion.carried(), ..self }
    }

    /// After one tick of its own movement: the position advances by the own velocity,
    /// and a carried item is brought to the new position.
    pub open spec fn walked(self) -> CreatureView {
        CreatureView {
            motion: self.motion.advanced(),
            inventory: match self.inventory {
                Some(item) => Some(
                    item.moved_to(self.motion.x + self.motion.vx, self.motion.y + self.motion.vy),
                ),
                None => None,
            },
            ..self
        }
    }

    /// After one tick of being carried and of its own movement, with no regard to what
    /// is in the way. A carried item is not moved by this.
    pub open spec fn moved(self) -> CreatureView {
        CreatureView { motion: self.motion.carried().advanced(), ..self }
    }

    /// After facing the way it moves.
    pub open spec fn turned(self) -> CreatureView {
        CreatureView { facing: facing_after(self.facing, self.motion.vx, self.motion.vy), ..self }
    }

    /// After the helm is taken or left. Taking it lets go of every held direction and
    /// stops the creature's own movement; leaving it only gives the keys back.
    pub open spec fn acted(self) -> CreatureView {
        match self.state {
            CreatureState::Normal => CreatureView {
                motion: self.motion.halted(),
                state: CreatureState::ControllingShip,
                ..self
            },
            CreatureState::ControllingShip => CreatureView { state: CreatureState::Normal, ..self },
        }
    }

    /// Whether the carried item is food.
    pub open spec fn carries_food(self) -> bool {
        self.inventory matches Some(item) && item.item_type is Food
    }

    /// After using the carried item: food is eaten and gives one health; anything else
    /// stays in hand.
    pub open spec fn fed(self) -> CreatureView {
        if self.carries_food() {
            CreatureView { health: self.health + 1, inventory: None, ..self }
        } else {
            self
        }
    }

    /// What to draw now.
    pub open spec fn sprite(self) -> Sprite {
        Sprite {
            hearts: self.health as i32,
            moving: self.motion.vx != 0 || self.motion.vy != 0,
            facing: self.facing,
            frame: (self.sprite_index + 1) as i32,
            carried: match self.inventory {
                Some(item) => Some(item.item_type),
                None => None,
            },
        }
    }

    /// After one draw: a frame that has been shown longer than the animation rate
    /// gives way to the next of the three.
    pub open spec fn animated(self) -> CreatureView {
        if self.frames > self.animation_rate {
            CreatureView { sprite_index: (self.sprite_index + 1) % 3, frames: 1, ..self }
        } else {
            CreatureView { frames: self.frames + 1, ..self }
        }
    }
}

/// Damage adds up: two blows hurt as much as one blow of their sum, and a creature is
/// dead exactly when the blows it took add up to its health or more.
pub proof fn lemma_damage_adds_up(creature: CreatureView, first: int, second: int)
    requires
        0 <= creature.health,
        0 <= first,
        0 <= second,
    ensures
        creature.hurt(first).hurt(second) == creature.hurt(first + second),
        creature.hurt(first).dead() <==> creature.health <= first,
{
}

impl View for Creature {
    type V = CreatureView;

    closed spec fn view(&self) -> CreatureView {
        CreatureView {
            motion: Motion {
                x: self.x as int,
                y: self.y as int,
                vx: self.self_vel_x as int,
                vy: self.self_vel_y as int,
                other_vx: self.other_vel_x as int,
                other_vy: self.other_vel_y as int,
                held: self.directions@,
                speed: self.speed as int,
            },
            state: self.creature_state,
            health: self.health as int,
            inventory: match self.inventory {
                Some(item) => Some(item@),
                None => None,
            },
            facing: self.dir,
            sprite_index: self.sprite_index as int,
            frames: self.frames_since_last_draw as int,
            animation_rate: self.animation_rate as int,
        }
    }
}

impl Creature {
    /// A creature at the origin, at rest, facing south, with three lives, steering itself.
    pub fn new() -> (creature: Creature)
        ensures
            creature@ == CreatureView::fresh(),
            creature@.wf(),
    {
        Creature {
            creature_state: CreatureState::Normal,
            x: 0,
            y: 0,
            self_vel_x: 0,
            self_vel_y: 0,
            directions: Vec::new(),
            other_vel_x: 0,
            other_vel_y: 0,
            speed: 2,
            health: 3,
            inventory: None,
            dir: Direction::South,
            sprite_index: 0,
            frames_since_last_draw: 0,
            animation_rate: 5,
        }
    }

    /// Sets the velocity of what carries the creature.
    pub fn set_other_velocity(&mut self, vx: i64, vy: i64)
        ensures
            final(self)@ == old(self)@.boarded(vx as int, vy as int),
            old(self)@.wf() ==> final(self)@.wf(),
    {
        self.other_vel_x = vx;
        self.other_vel_y = vy;
    }

    /// Puts the creature down at a position. A carried item is not moved by this.
    pub fn set_position(&mut self, x: i64, y: i64)
        ensures
            final(self)@ == old(self)@.placed(x as int, y as int),
            old(self)@.wf() ==> final(self)@.wf(),
    {
        self.x = x;
        self.y = y;
    }

    /// Moves the creature as it is carried, for one tick.
    pub fn update_position_other(&mut self)
        requires
            old(self)@.motion.can_be_carried(),
        ensures
            final(self)@ == old(self)@.carried(),
            old(self)@.wf() ==> final(self)@.wf(),
    {
        self.x = self.x + self.other_vel_x;
        self.y = self.y + self.other_vel_y;
    }

    /// Moves the creature by its own velocity, for one tick, and brings a carried item
    /// along.
    pub fn update_position_self(&mut self)
        requires
            old(self)@.motion.can_advance(),
        ensures
            final(self)@ == old(self)@.walked(),
            old(self)@.wf() ==> final(self)@.wf(),
    {
        self.x = self.x + self.self_vel_x;
        self.y = self.y + self.self_vel_y;
        if let Some(item) = self.inventory {
            self.inventory = Some(Item { item_type: item.item_type, x: self.x, y: self.y });
        }
    }

    /// Turns the creature the way it moves.
    pub fn update_direction(&mut self)
        ensures
            final(self)@ == old(self)@.turned(),
            old(self)@.wf() ==> final(self)@.wf(),
    {
        if !(self.self_vel_y == 0 && self.self_vel_x == 0) {
            if self.self_vel_x > 0 {
                self.dir = Direction::East;
            } else if self.self_vel_x < 0 {
                self.dir = Direction::West;
            }
            if self.self_vel_y > 0 {
                self.dir = Direction::South;
            } else if self.self_vel_y < 0 {
                self.dir = Direction::North;
            }
        }
    }

    /// Where the creature's own movement would take it next, along `x`.
    pub fn x_to_be_location(&self) -> (x: i64)
        requires
            self@.motion.can_advance(),
        ensures
            x == self@.motion.tentative().0,
    {
        self.x + self.self_vel_x
    }

    /// Where the creature's own movement would take it next, along `y`.
    pub fn y_to_be_location(&self) -> (y: i64)
        requires
            self@.motion.can_advance(),
        ensures
            y == self@.motion.tentative().1,
    {
        self.y + self.self_vel_y
    }

    /// Says what to draw, and lets the animation run on by one draw.
    pub fn draw(&mut self) -> (sprite: Sprite)
        requires
            old(self)@.wf(),
        ensures
            sprite == old(self)@.sprite(),
            final(self)@ == old(self)@.animated(),
            final(self)@.wf(),
    {
        let sprite = Sprite {
            hearts: self.health,
            moving: self.self_vel_y != 0 || self.self_vel_x != 0,
            facing: self.dir,
            frame: self.sprite_index + 1,
            carried: match self.inventory {
                Some(item) => Some(item.item_type),
                None => None,
            },
        };
        if self.frames_since_last_draw > self.animation_rate {
            self.frames_since_last_draw = 0;
            self.sprite_index = (self.sprite_index + 1) % 3;
        }
        self.frames_since_last_draw = self.frames_since_last_draw + 1;
        sprite
    }

    /// Whether no health is left.
    pub fn is_dead(&self) -> (dead: bool)
        ensures
            dead == self@.dead(),
    {
        self.health <= 0
    }

    /// Takes damage. The health does not drop below zero; negative damage heals.
    pub fn take_damage(&mut self, damage: i32)
        requires
            old(self)@.wf(),
            old(self)@.health - damage <= i32::MAX,
        ensures
            final(self)@ == old(self)@.hurt(damage as int),
            final(self)@.wf(),
    {
        let left: i64 = self.health as i64 - damage as i64;
        if left < 0 {
            self.health = 0;
        } else {
            self.health = left as i32;
        }
    }

    /// Lets go of the carried item and hands it out.
    pub fn drop_item(&mut self) -> (dropped: Option<Item>)
        ensures
            final(self)@ == (CreatureView { inventory: None, ..old(self)@ }),
            old(self)@.wf() ==> final(self)@.wf(),
            match dropped {
                Some(item) => old(self)@.inventory == Some(item@),
                None => old(self)@.inventory is None,
            },
    {
        let temp = self.inventory;
        self.inventory = None;
        temp
    }

    /// Takes an item in hand if the hand is free, and says whether it did.
    pub fn pickup_item(&mut self, item: Item) -> (taken: bool)
        ensures
            taken == (old(self)@.inventory is None),
            taken ==> final(self)@ == (CreatureView { inventory: Some(item@), ..old(self)@ }),
            !taken ==> final(self)@ == old(self)@,
            old(self)@.wf() ==> final(self)@.wf(),
    {
        if self.inventory.is_none() {
            self.inventory = Some(item);
            return true;
        }
        false
    }

    /// Takes the helm, or leaves it.
    pub fn action(&mut self)
        requires
            old(self)@.wf(),
        ensures
            final(self)@ == old(self)@.acted(),
            final(self)@.wf(),
    {
        match self.creature_state {
            CreatureState::Normal => self.state_normal(),
            CreatureState::ControllingShip => self.state_controlling_ship(),
        }
    }

    /// Uses the carried item: food is eaten and gives one health.
    pub fn use_item(&mut self)
        requires
            old(self)@.wf(),
            old(self)@.carries_food() ==> old(self)@.health < i32::MAX,
        ensures
            final(self)@ == old(self)@.fed(),
            final(self)@.wf(),
    {
        let mut item_used = false;
        if let Some(item) = self.inventory {
            match item.item_type {
                ItemType::Food(_) => {
                    self.health = self.health + 1;
                    item_used = true;
                },
                _ => {},
            }
        }
        if item_used {
            self.inventory = None;
        }
    }

    /// Who the steering keys move.
    pub fn creature_state(&self) -> (state: CreatureState)
        ensures
            state == self@.state,
    {
        self.creature_state
    }

    /// Where the creature is, along `x`.
    pub fn x(&self) -> (x: i64)
        ensures
            x == self@.motion.x,
    {
        self.x
    }

    /// Where the creature is, along `y`.
    pub fn y(&self) -> (y: i64)
        ensures
            y == self@.motion.y,
    {
        self.y
    }

    /// The creature's own velocity along `x`.
    pub fn self_vel_x(&self) -> (vx: i64)
        ensures
            vx == self@.motion.vx,
    {
        self.self_vel_x
    }

    /// The creature's own velocity along `y`.
    pub fn self_vel_y(&self) -> (vy: i64)
        ensures
            vy == self@.motion.vy,
    {
        self.self_vel_y
    }

    /// The velocity of what carries the creature, along `x`.
    pub fn other_vel_x(&self) -> (vx: i64)
        ensures
            vx == self@.motion.other_vx,
    {
        self.other_vel_x
    }

    /// The velocity of what carries the creature, along `y`.
    pub fn other_vel_y(&self) -> (vy: i64)
        ensures
            vy == self@.motion.other_vy,
    {
        self.other_vel_y
    }

    /// The directions that are held, oldest first.
    pub fn directions(&self) -> (held: &Vec<Direction>)
        ensures
            held@ == self@.motion.held,
    {
        &self.directions
    }

    /// The speed that one held direction gives.
    pub fn speed(&self) -> (speed: i64)
        ensures
            speed == self@.motion.speed,
    {
        self.speed
    }

    /// How much health is left.
    pub fn health(&self) -> (health: i32)
        ensures
            health == self@.health,
    {
        self.health
    }

    /// The item in hand, if there is one.
    pub fn inventory(&self) -> (item: Option<Item>)
        ensures
            match item {
                Some(it) => self@.inventory == Some(it@),
                None => self@.inventory is None,
            },
    {
        self.inventory
    }

    /// The way the creature faces.
    pub fn dir(&self) -> (facing: Direction)
        ensures
            facing == self@.facing,
    {
        self.dir
    }

    fn state_controlling_ship(&mut self)
        requires
            old(self)@.state is ControllingShip,
        ensures
            final(self)@ == old(self)@.acted(),
    {
        self.creature_state = CreatureState::Normal;
    }

    fn state_normal(&mut self)
        requires
            old(self)@.state is Normal,
        ensures
            final(self)@ == old(self)@.acted(),
    {
        self.directions = Vec::new();
        self.self_vel_x = 0;
        self.self_vel_y = 0;
        self.creature_state = CreatureState::ControllingShip;
    }
}

impl moveable for Creature {
    open spec fn wf(&self) -> bool {
        self@.wf()
    }

    open spec fn motion(&self) -> Motion {
        self@.motion
    }

    proof fn lemma_wf_motion(&self) {
    }

    fn handle_input(&mut self, state: &ButtonState, key: &Option<Key>)
        ensures
            final(self)@ == old(self)@.steered(*state, *key),
    {
        proof {
            lemma_steered_keeps_wf(self@.motion, *state, *key);
        }
        steer(&mut self.directions, state, key);
    }

    fn update_position(&mut self)
        ensures
            final(self)@ == old(self)@.moved(),
    {
        self.x = (self.x as i128 + self.other_vel_x as i128 + self.self_vel_x as i128) as i64;
        self.y = (self.y as i128 + self.other_vel_y as i128 + self.self_vel_y as i128) as i64;
    }

    fn update_self_velocity(&mut self)
        ensures
            final(self)@ == old(self)@.recomputed(),
    {
        proof {
            lemma_recomputed_is_settled(self@.motion);
        }
        let v: (i64, i64) = velocity_from(&self.directions, self.speed);
        self.self_vel_x = v.0;
        self.self_vel_y = v.1;
    }
}

} // verus!
