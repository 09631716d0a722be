//! The vessel: a platform with a deck of tiles that can be steered from its helm. Its
//! own velocity never exceeds its speed on either axis.

use vstd::prelude::*;

use crate::grid::{
    grid_height, grid_of, grid_wf, grid_width, template_empty, template_ragged, Grid,
    TemplateError,
};
use crate::input::{ButtonState, Key};
use crate::misc::{moveable, Direction};
use crate::motion::{
    clamp_add, lemma_recomputed_is_settled, lemma_steered_keeps_wf, steer, velocity_from,
    Motion,
};
use crate::tile::Tile;

verus! {

pub struct Ship {
    tiles: Grid,
    x: i64,
    y: i64,
    self_vel_x: i64,
    self_vel_y: i64,
    directions: Vec<Direction>,
    speed: i64,
    acc: i64,
    health: i32,
}

/// The mathematical view of a vessel.
pub struct ShipView {
    pub motion: Motion,
    pub tiles: Seq<Seq<Tile>>,
    pub acc: int,
    pub health: int,
}

/// The deck that a vessel has unless it is given another: seven tiles wide and eight
/// high, a wooden floor with the wheel on the third row and air at the corners of the
/// bow.
pub open spec fn deck_template() -> Seq<Seq<i32>> {
    seq![
        seq![0i32, 0i32, 1i32, 1i32, 1i32, 0i32, 0i32],
        seq![0i32, 1i32, 1i32, 1i32, 1i32, 1i32, 0i32],
        seq![0i32, 1i32, 1i32, 2i32, 1i32, 1i32, 0i32],
        seq![1i32, 1i32, 1i32, 1i32, 1i32, 1i32, 1i32],
        seq![1i32, 1i32, 1i32, 1i32, 1i32, 1i32, 1i32],
        seq![1i32, 1i32, 1i32, 1i32, 1i32, 1i32, 1i32],
        seq![1i32, 1i32, 1i32, 1i32, 1i32, 1i32, 1i32],
        seq![1i32, 1i32, 1i32, 1i32, 1i32, 1i32, 1i32],
    ]
}

impl ShipView {
    /// The motion is well formed, nothing carries the vessel, and the grid is well
    /// formed.
    pub open spec fn wf(self) -> bool {
        &&& self.motion.wf()
        &&& self.motion.other_vx == 0
        &&& self.motion.other_vy == 0
        &&& grid_wf(self.tiles)
    }

    /// A vessel fresh from the yard with the given deck: at the origin, at rest, with
    /// speed 20.
    pub open spec fn launched(tiles: Seq<Seq<Tile>>) -> ShipView {
        ShipView {
            motion: Motion {
                x: 0,
                y: 0,
                vx: 0,
                vy: 0,
                other_vx: 0,
                other_vy: 0,
                held: Seq::empty(),
                speed: 20,
            },
            tiles: tiles,
            acc: 2,
            health: 1,
        }
    }

    /// After a button event: only the held directions change.
    pub open spec fn steered(self, state: ButtonState, key: Option<Key>) -> ShipView {
        ShipView { motion: self.motion.steered(state, key), ..self }
    }

    /// After the own velocity is derived anew from the held directions.
    pub open spec fn recomputed(self) -> ShipView {
        ShipView { motion: self.motion.recomputed(), ..self }
    }

    /// After being put down at a position.
    pub open spec fn placed(self, x: int, y: int) -> ShipView {
        ShipView { motion: self.motion.placed(x, y), ..self }
    }

    /// After the helm is let go: nothing held, own velocity zero.
    pub open spec fn halted(self) -> ShipView {
        ShipView { motion: self.motion.halted(), ..self }
    }

    /// After an additive change of the own velocity, clamped to the speed.
    pub open spec fn nudged(self, dx: int, dy: int) -> ShipView {
        ShipView { motion: self.motion.nudged(dx, dy), ..self }
    }

    /// After one tick of its own movement.
    pub open spec fn advanced(self) -> ShipView {
        ShipView { motion: self.motion.advanced(), ..self }
    }
}

impl View for Ship {
    type V = ShipView;

    closed spec fn view(&self) -> ShipView {
        ShipView {
            motion: Motion {
                x: self.x as int,
                y: self.y as int,
                vx: self.self_vel_x as int,
                vy: self.self_vel_y as int,
                other_vx: 0,
                other_vy: 0,
                held: self.directions@,
                speed: self.speed as int,
            },
            tiles: self.tiles@,
            acc: self.acc as int,
            health: self.health as int,
        }
    }
}

impl Ship {
    /// A vessel with the usual deck.
    pub fn new() -> (ship: Ship)
        ensures
            ship@ == ShipView::launched(grid_of(deck_template())),
            ship@.wf(),
    {
        let template: Vec<Vec<i32>> = vec![
            vec![0, 0, 1, 1, 1, 0, 0],
            vec![0, 1, 1, 1, 1, 1, 0],
            vec![0, 1, 1, 2, 1, 1, 0],
            vec![1, 1, 1, 1, 1, 1, 1],
            vec![1, 1, 1, 1, 1, 1, 1],
            vec![1, 1, 1, 1, 1, 1, 1],
            vec![1, 1, 1, 1, 1, 1, 1],
            vec![1, 1, 1, 1, 1, 1, 1],
        ];
        proof {
            assert(template.deep_view() =~~= deck_template());
        }
        Ship::with_tiles(Grid::build(&template))
    }

    /// A vessel with the deck that a template describes. A template with nothing in
    /// it, or with rows of different lengths, is turned down.
    pub fn from_template(template: &Vec<Vec<i32>>) -> (result: Result<Ship, TemplateError>)
        ensures
            match result {
                Ok(ship) => {
                    &&& !template_empty(template.deep_view())
                    &&& !template_ragged(template.deep_view())
                    &&& ship@ == ShipView::launched(grid_of(template.deep_view()))
                    &&& ship@.wf()
                },
                Err(TemplateError::Empty) => template_empty(template.deep_view()),
                Err(TemplateError::Ragged) => {
                    &&& !template_empty(template.deep_view())
                    &&& template_ragged(template.deep_view())
                },
            },
    {
        match Grid::from_template(template) {
            Ok(tiles) => Ok(Ship::with_tiles(tiles)),
            Err(e) => Err(e),
        }
    }

    fn with_tiles(tiles: Grid) -> (ship: Ship)
        requires
            tiles.wf(),
        ensures
            ship@ == ShipView::launched(tiles@),
            ship@.wf(),
    {
        Ship {
            tiles: tiles,
            x: 0,
            y: 0,
            self_vel_x: 0,
            self_vel_y: 0,
            directions: Vec::new(),
            speed: 20,
            acc: 2,
            health: 1,
        }
    }

    /// Adds to the health.
    pub fn change_health(&mut self, change: i32)
        requires
            i32::MIN <= old(self)@.health + change <= i32::MAX,
        ensures
            final(self)@ == (ShipView { health: old(self)@.health + change, ..old(self)@ }),
            old(self)@.wf() ==> final(self)@.wf(),
    {
        self.health = self.health + change;
    }

    /// Puts the vessel down at a position.
    pub fn set_position(&mut self, x: i64, y: i64)
        ensures
            final(self)@ == old(self)@.placed(x as int, y as int),
            old(self)@.wf() ==> final(self)@.wf(),
    {
        self.x = x;
        self.y = y;
    }

    /// Adds to the vessel's own velocity and clamps each component to the speed.
    pub fn change_self_velocity(&mut self, dx: i64, dy: i64)
        requires
            old(self)@.wf(),
        ensures
            final(self)@ == old(self)@.nudged(dx as int, dy as int),
            final(self)@.wf(),
    {
        self.self_vel_x = clamp_add(self.self_vel_x, dx, self.speed);
        self.self_vel_y = clamp_add(self.self_vel_y, dy, self.speed);
    }

    /// Moves the vessel by its own velocity, for one tick. Nothing blocks a vessel.
    pub fn update_position(&mut self)
        requires
            old(self)@.motion.can_advance(),
        ensures
            final(self)@ == old(self)@.advanced(),
            old(self)@.wf() ==> final(self)@.wf(),
    {
        self.x = self.x + self.self_vel_x;
        self.y = self.y + self.self_vel_y;
    }

    /// Lets go of the helm: no direction is held any more and the vessel stops.
    pub fn reset_dir(&mut self)
        requires
            old(self)@.wf(),
        ensures
            final(self)@ == old(self)@.halted(),
            final(self)@.wf(),
    {
        self.directions = Vec::new();
        self.self_vel_x = 0;
        self.self_vel_y = 0;
    }

    /// The deck.
    pub fn tiles(&self) -> (tiles: &Grid)
        ensures
            tiles@ == self@.tiles,
    {
        &self.tiles
    }

    /// How many tiles the deck is wide.
    pub fn width(&self) -> (width: usize)
        ensures
            width == grid_width(self@.tiles),
    {
        self.tiles.width()
    }

    /// How many tiles the deck is high.
    pub fn height(&self) -> (height: usize)
        ensures
            height == grid_height(self@.tiles),
    {
        self.tiles.height()
    }

    /// Where the vessel is, along `x`.
    pub fn x(&self) -> (x: i64)
        ensures
            x == self@.motion.x,
    {
        self.x
    }

    /// Where the vessel is, along `y`.
    pub fn y(&self) -> (y: i64)
        ensures
            y == self@.motion.y,
    {
        self.y
    }

    /// The vessel's own velocity along `x`.
    pub fn self_vel_x(&self) -> (vx: i64)
        ensures
            vx == self@.motion.vx,
    {
        self.self_vel_x
    }

    /// The vessel's own velocity along `y`.
    pub fn self_vel_y(&self) -> (vy: i64)
        ensures
            vy == self@.motion.vy,
    {
        self.self_vel_y
    }

    /// The directions that are held, oldest first.
    pub fn directions(&self) -> (held: &Vec<Direction>)
        ensures
            held@ == self@.motion.held,
    {
        &self.directions
    }

    /// The speed that one held direction gives, and the most that the velocity reaches on
    /// either axis.
    pub fn speed(&self) -> (speed: i64)
        ensures
            speed == self@.motion.speed,
    {
        self.speed
    }

    /// How fast the vessel gathers speed.
    pub fn acc(&self) -> (acc: i64)
        ensures
            acc == self@.acc,
    {
        self.acc
    }

    /// How much health is left.
    pub fn health(&self) -> (health: i32)
        ensures
            health == self@.health,
    {
        self.health
    }

    /// Where the vessel will be after this tick, along `x`.
    pub fn x_to_be_location(&self) -> (x: i64)
        requires
            self@.motion.can_advance(),
        ensures
            x == self@.motion.tentative().0,
    {
        self.x + self.self_vel_x
    }

    /// Where the vessel will be after this tick, along `y`.
    pub fn y_to_be_location(&self) -> (y: i64)
        requires
            self@.motion.can_advance(),
        ensures
            y == self@.motion.tentative().1,
    {
        self.y + self.self_vel_y
    }
}

impl moveable for Ship {
    open spec fn wf(&self) -> bool {
        self@.wf()
    }

    open spec fn motion(&self) -> Motion {
        self@.motion
    }

    proof fn lemma_wf_motion(&self) {
    }

    fn handle_input(&mut self, state: &ButtonState, key: &Option<Key>)
        ensures
            final(self)@ == old(self)@.steered(*state, *key),
    {
        proof {
            lemma_steered_keeps_wf(self@.motion, *state, *key);
        }
        steer(&mut self.directions, state, key);
    }

    fn update_position(&mut self)
        ensures
            final(self)@ == old(self)@.advanced(),
    {
        Ship::update_position(self);
    }

    fn update_self_velocity(&mut self)
        ensures
            final(self)@ == old(self)@.recomputed(),
    {
        proof {
            lemma_recomputed_is_settled(self@.motion);
        }
        let v: (i64, i64) = velocity_from(&self.directions, self.speed);
        self.self_vel_x = 0;
        self.self_vel_y = 0;
        self.change_self_velocity(v.0, v.1);
    }
}

} // verus!
