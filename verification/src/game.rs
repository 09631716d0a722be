//! The game: which screen is up, who the steering keys move, and what one tick does
//! to the actor and the vessel.

use vstd::prelude::*;

use crate::collision::{corners_passable, footing, footing_of, on_vessel, Footing, TILE_SIZE};
use crate::creature::{Creature, CreatureState, CreatureView, Sprite};
use crate::grid::{grid_height, grid_of, grid_width};
use crate::input::{Button, ButtonState, Key};
use crate::misc::{moveable, Direction};
use crate::motion::{
    lemma_recomputed_is_settled, lemma_steered_keeps_wf, lemma_velocity_of_one_direction, push_of,
};
use crate::ship::{deck_template, Ship, ShipView};

verus! {

/// How many tiles the world is wide.
pub const MAP_WIDTH: usize = 1000;

/// How many tiles the world is high.
pub const MAP_HEIGHT: usize = 1000;

/// Which screen is up.
#[derive(Clone, Copy, Debug, PartialEq, Eq, Structural)]
pub enum GameState {
    Title,
    InGame,
    InMenu,
    GameOver,
}

/// What the game loop hands to the game.
#[derive(Clone, Copy, Debug, PartialEq, Eq, Structural)]
pub enum Event {
    /// A button went down or came up.
    Button(ButtonState, Button),
    /// A tick of the simulation is due.
    Update,
    /// A frame is due.
    Render,
    /// Anything else.
    Other,
}

/// What the game asks the game loop to do after an event.
#[derive(Clone, Copy, Debug, PartialEq, Eq, Structural)]
pub enum Action {
    Nothing,
    /// Draw the screen that is up; while the game is on, with the actor as given.
    Display(Option<Sprite>),
}

pub struct Game {
    player: Creature,
    ship: Ship,
    game_state: GameState,
    action_held: bool,
}

/// The mathematical view of a game.
pub struct GameView {
    pub player: CreatureView,
    pub ship: ShipView,
    pub state: GameState,
    /// Whether the key that takes and leaves the helm is down.
    pub helm_key_down: bool,
}

impl GameView {
    /// Actor and vessel are well formed, and the vessel is no larger than the world.
    pub open spec fn wf(self) -> bool {
        &&& self.player.wf()
        &&& self.ship.wf()
        &&& grid_width(self.ship.tiles) <= MAP_WIDTH
        &&& grid_height(self.ship.tiles) <= MAP_HEIGHT
    }

    /// What holds of a game that only button events and ticks have touched: the own
    /// velocity of the actor and of the vessel is exactly what its held directions add
    /// up to, and only the one that the steering keys move holds any direction; the
    /// vessel is idle while the actor steers itself, and the actor is idle while it is
    /// at the helm.
    pub open spec fn steady(self) -> bool {
        &&& self.player.motion.settled()
        &&& self.ship.motion.settled()
        &&& self.player.state is Normal ==> self.ship.motion.idle()
        &&& self.player.state is ControllingShip ==> self.player.motion.idle()
    }

    /// After the key that leaves the title screen: a press on the title screen starts
    /// the game.
    pub open spec fn after_main_menu(self, state: ButtonState) -> GameView {
        if state is Press && self.state is Title {
            GameView { state: GameState::InGame, ..self }
        } else {
            self
        }
    }

    /// After the menu key: a press opens the menu from the game and closes it again.
    pub open spec fn after_open_menu(self, state: ButtonState) -> GameView {
        if state is Press && self.state is InGame {
            GameView { state: GameState::InMenu, ..self }
        } else if state is Press && self.state is InMenu {
            GameView { state: GameState::InGame, ..self }
        } else {
            self
        }
    }

    /// After a steering key, while the game is on: the event goes to the actor if it
    /// steers itself and to the vessel if the actor is at the helm, never to both, and
    /// the one that got it has its velocity derived anew.
    pub open spec fn after_move(self, state: ButtonState, key: Option<Key>) -> GameView {
        if self.state is InGame {
            match self.player.state {
                CreatureState::Normal => GameView {
                    player: self.player.steered(state, key).recomputed(),
                    ..self
                },
                CreatureState::ControllingShip => GameView {
                    ship: self.ship.steered(state, key).recomputed(),
                    ..self
                },
            }
        } else {
            self
        }
    }

    /// After the helm changes hands: the actor takes the helm or leaves it, and the
    /// vessel lets go of everything held.
    pub open spec fn toggled(self) -> GameView {
        GameView { player: self.player.acted(), ship: self.ship.halted(), ..self }
    }

    /// After the helm key: the helm changes hands when the key goes down while the
    /// game is on, and not again until the key has come up.
    pub open spec fn after_action(self, state: ButtonState) -> GameView {
        match state {
            ButtonState::Press => if !self.helm_key_down && self.state is InGame {
                GameView { helm_key_down: true, ..self.toggled() }
            } else {
                GameView { helm_key_down: true, ..self }
            },
            ButtonState::Release => GameView { helm_key_down: false, ..self },
        }
    }

    /// After the key that hurts the actor: one damage, on press and on release alike.
    pub open spec fn after_hit(self) -> GameView {
        GameView { player: self.player.hurt(1), ..self }
    }

    /// After one button event.
    pub open spec fn after_input(self, state: ButtonState, button: Button) -> GameView {
        match button {
            Button::Keyboard(key) => match key {
                Key::Return => self.after_main_menu(state),
                Key::Tab => self.after_open_menu(state),
                Key::W | Key::A | Key::S | Key::D => self.after_move(state, Some(key)),
                Key::V => self.after_action(state),
                Key::L => self.after_hit(),
                Key::Other => self,
            },
            Button::Other => self,
        }
    }

    /// Whether the tick that is due does anything but check the actor's health.
    pub open spec fn simulates(self) -> bool {
        !self.player.dead() && self.state is InGame
    }

    /// The actor as the vessel carries it through the tick that is due.
    pub open spec fn carried_player(self) -> CreatureView {
        self.player.boarded(self.ship.motion.vx, self.ship.motion.vy).carried()
    }

    /// The footing of the actor at the place to which its own movement would take
    /// it, on the vessel where it lies when the tick begins.
    pub open spec fn next_footing(self) -> Footing {
        footing_of(
            self.ship.tiles,
            self.ship.motion.x,
            self.ship.motion.y,
            self.carried_player().motion.tentative().0,
            self.carried_player().motion.tentative().1,
        )
    }

    /// The tick that is due stays within machine coordinates.
    pub open spec fn can_update(self) -> bool {
        self.simulates() ==> {
            &&& self.player.boarded(
                self.ship.motion.vx,
                self.ship.motion.vy,
            ).motion.can_be_carried()
            &&& self.carried_player().motion.can_advance()
            &&& self.ship.motion.can_advance()
        }
    }

    /// After one tick. A dead actor ends the game and nothing moves. Else, while the
    /// game is on, the actor is carried by the vessel; then, unless a tile of the
    /// vessel blocks it, it moves by its own velocity and turns that way, on the deck
    /// and off the vessel alike; a blocked actor does neither, on neither axis; and the
    /// vessel moves by its own velocity.
    pub open spec fn after_update(self) -> GameView {
        if self.player.dead() {
            GameView { state: GameState::GameOver, ..self }
        } else if self.state is InGame {
            GameView {
                player: if self.next_footing() is Blocked {
                    self.carried_player()
                } else {
                    self.carried_player().walked().turned()
                },
                ship: self.ship.advanced(),
                ..self
            }
        } else {
            self
        }
    }

    /// After being set up: the vessel in the middle of the world, the actor in the
    /// middle of the vessel.
    pub open spec fn started(self) -> GameView {
        let ship_x = MAP_WIDTH * TILE_SIZE / 2;
        let ship_y = MAP_HEIGHT * TILE_SIZE / 2;
        GameView {
            ship: self.ship.placed(ship_x, ship_y),
            player: self.player.placed(
                ship_x + grid_width(self.ship.tiles) * TILE_SIZE / 2,
                ship_y + grid_height(self.ship.tiles) * TILE_SIZE / 2,
            ),
            ..self
        }
    }

    /// After one event of the game loop. A frame that is due while the game is on
    /// lets the actor's animation run on.
    pub open spec fn after_event(self, event: Event) -> GameView {
        match event {
            Event::Button(state, button) => self.after_input(state, button),
            Event::Update => self.after_update(),
            Event::Render => if self.state is InGame {
                GameView { player: self.player.animated(), ..self }
            } else {
                self
            },
            Event::Other => self,
        }
    }

    /// What the game loop is to do after an event: draw when a frame is due.
    pub open spec fn action_for(self, event: Event) -> Action {
        match event {
            Event::Render => Action::Display(
                if self.state is InGame {
                    Some(self.player.sprite())
                } else {
                    None
                },
            ),
            _ => Action::Nothing,
        }
    }
}

/// A steering key leaves a well-formed game well formed and a steady game steady.
pub proof fn lemma_move_keeps_wf(game: GameView, state: ButtonState, key: Option<Key>)
    requires
        game.wf(),
    ensures
        game.after_move(state, key).wf(),
        game.steady() ==> game.after_move(state, key).steady(),
{
    lemma_steered_keeps_wf(game.player.motion, state, key);
    lemma_recomputed_is_settled(game.player.motion.steered(state, key));
    lemma_steered_keeps_wf(game.ship.motion, state, key);
    lemma_recomputed_is_settled(game.ship.motion.steered(state, key));
}

/// A button event leaves a well-formed game well formed and a steady game steady. In
/// particular no run of events makes both the actor and the vessel hold a direction,
/// and after every event the velocity of each is the vector sum of what it holds.
pub proof fn lemma_input_keeps_wf(game: GameView, state: ButtonState, button: Button)
    requires
        game.wf(),
    ensures
        game.after_input(state, button).wf(),
        game.steady() ==> game.after_input(state, button).steady(),
{
    match button {
        Button::Keyboard(key) => {
            lemma_move_keeps_wf(game, state, Some(key));
        },
        Button::Other => {},
    }
}

/// A tick leaves a well-formed game well formed and a steady game steady.
pub proof fn lemma_update_keeps_wf(game: GameView)
    requires
        game.wf(),
    ensures
        game.after_update().wf(),
        game.steady() ==> game.after_update().steady(),
{
}

/// What a tick does to the places of the actor and the vessel while the game is on.
/// The vessel moves by its own velocity, and the actor is carried by that much. Its own
/// velocity is added on both axes if its footing allows, and on neither if it is
/// blocked; only then does it turn.
pub proof fn lemma_tick_moves_by_velocity(game: GameView)
    requires
        game.simulates(),
    ensures
        ({
            let after = game.after_update();
            let own = if game.next_footing() is Blocked {
                (0int, 0int)
            } else {
                (game.player.motion.vx, game.player.motion.vy)
            };
            &&& after.state is InGame
            &&& after.ship.motion.x == game.ship.motion.x + game.ship.motion.vx
            &&& after.ship.motion.y == game.ship.motion.y + game.ship.motion.vy
            &&& after.player.motion.x == game.player.motion.x + game.ship.motion.vx + own.0
            &&& after.player.motion.y == game.player.motion.y + game.ship.motion.vy + own.1
            &&& after.player.motion.other_vx == game.ship.motion.vx
            &&& after.player.motion.other_vy == game.ship.motion.vy
            &&& game.next_footing() is Blocked ==> after.player.facing == game.player.facing
        }),
{
}

/// An actor that holds one direction and nothing else, on footing that does not block
/// it, advances by exactly its speed in that direction on top of what the vessel
/// carries it; on a still vessel, by exactly its speed. Where it is blocked it advances
/// on neither axis, and is carried all the same.
pub proof fn lemma_holding_one_direction(game: GameView, dir: Direction)
    requires
        game.simulates(),
        game.player.motion.settled(),
        game.player.motion.held == seq![dir],
    ensures
        ({
            let after = game.after_update();
            let step = push_of(dir, game.player.motion.speed);
            let carried_x = game.player.motion.x + game.ship.motion.vx;
            let carried_y = game.player.motion.y + game.ship.motion.vy;
            &&& !(game.next_footing() is Blocked) ==> {
                &&& after.player.motion.x == carried_x + step.0
                &&& after.player.motion.y == carried_y + step.1
            }
            &&& game.next_footing() is Blocked ==> {
                &&& after.player.motion.x == carried_x
                &&& after.player.motion.y == carried_y
            }
        }),
{
    lemma_velocity_of_one_direction(dir, game.player.motion.speed);
}

/// An event of the game loop leaves a well-formed game well formed and a steady game
/// steady.
pub proof fn lemma_event_keeps_wf(game: GameView, event: Event)
    requires
        game.wf(),
    ensures
        game.after_event(event).wf(),
        game.steady() ==> game.after_event(event).steady(),
{
    match event {
        Event::Button(state, button) => lemma_input_keeps_wf(game, state, button),
        Event::Update => lemma_update_keeps_wf(game),
        _ => {},
    }
}

/// A steering key moves the actor or the vessel, never both: while the actor steers
/// itself the vessel is left as it was, and while the actor is at the helm the actor
/// is left as it was.
pub proof fn lemma_move_steers_one(game: GameView, state: ButtonState, key: Option<Key>)
    ensures
        game.player.state is Normal ==> game.after_move(state, key).ship == game.ship,
        game.player.state is ControllingShip ==> game.after_move(state, key).player == game.player,
        game.after_move(state, key).player.state == game.player.state,
{
}

/// When the helm changes hands, the one that gives up the steering keys is left with
/// no direction held and no velocity of its own: the actor when it takes the helm, the
/// vessel when the actor leaves it.
pub proof fn lemma_toggle_clears_the_one_left(game: GameView)
    ensures
        game.player.state is Normal ==> {
            &&& game.toggled().player.state is ControllingShip
            &&& game.toggled().player.motion.idle()
        },
        game.player.state is ControllingShip ==> {
            &&& game.toggled().player.state is Normal
            &&& game.toggled().ship.motion.idle()
        },
{
}

/// Taking the helm and leaving it at once, with no steering key in between, leaves
/// the actor and the vessel with no direction held and no velocity of their own.
pub proof fn lemma_helm_round_trip(game: GameView)
    requires
        game.state is InGame,
        game.player.state is Normal,
        !game.helm_key_down,
    ensures
        ({
            let entered = game.after_action(ButtonState::Press);
            let left = entered.after_action(ButtonState::Release).after_action(ButtonState::Press);
            &&& entered.player.state is ControllingShip
            &&& left.player.state is Normal
            &&& left.player.motion.idle()
            &&& left.ship.motion.idle()
        }),
{
}

impl View for Game {
    type V = GameView;

    closed spec fn view(&self) -> GameView {
        GameView {
            player: self.player@,
            ship: self.ship@,
            state: self.game_state,
            helm_key_down: self.action_held,
        }
    }
}

impl Game {
    /// A game on its title screen, with a fresh actor that steers itself and a fresh
    /// vessel with the usual deck.
    pub fn new() -> (game: Game)
        ensures
            game@.wf(),
            game@.steady(),
            game@.state is Title,
            game@.player == CreatureView::fresh(),
            game@.ship == ShipView::launched(grid_of(deck_template())),
            !game@.helm_key_down,
    {
        Game {
            player: Creature::new(),
            ship: Ship::new(),
            game_state: GameState::Title,
            action_held: false,
        }
    }

    /// A game on its title screen with the given actor and vessel, unless the vessel is
    /// larger than the world.
    pub fn from_parts(player: Creature, ship: Ship) -> (result: Option<Game>)
        requires
            player@.wf(),
            ship@.wf(),
        ensures
            match result {
                Some(game) => {
                    &&& game@ == (GameView {
                        player: player@,
                        ship: ship@,
                        state: GameState::Title,
                        helm_key_down: false,
                    })
                    &&& game@.wf()
                },
                None => {
                    ||| grid_width(ship@.tiles) > MAP_WIDTH
                    ||| grid_height(ship@.tiles) > MAP_HEIGHT
                },
            },
    {
        if ship.width() > MAP_WIDTH || ship.height() > MAP_HEIGHT {
            return None;
        }
        Some(Game { player: player, ship: ship, game_state: GameState::Title, action_held: false })
    }

    /// The actor.
    pub fn player(&self) -> (player: &Creature)
        ensures
            player@ == self@.player,
    {
        &self.player
    }

    /// The vessel.
    pub fn ship(&self) -> (ship: &Ship)
        ensures
            ship@ == self@.ship,
    {
        &self.ship
    }

    /// Which screen is up.
    pub fn game_state(&self) -> (state: GameState)
        ensures
            state == self@.state,
    {
        self.game_state
    }

    /// Puts the vessel in the middle of the world and the actor in the middle of the
    /// vessel.
    pub fn start(&mut self)
        requires
            old(self)@.wf(),
        ensures
            final(self)@ == old(self)@.started(),
            final(self)@.wf(),
            old(self)@.steady() ==> final(self)@.steady(),
    {
        let ship_x: i64 = (MAP_WIDTH as i64) * TILE_SIZE / 2;
        let ship_y: i64 = (MAP_HEIGHT as i64) * TILE_SIZE / 2;
        self.ship.set_position(ship_x, ship_y);
        let half_width: i64 = (self.ship.width() as i64) * TILE_SIZE / 2;
        let half_height: i64 = (self.ship.height() as i64) * TILE_SIZE / 2;
        self.player.set_position(ship_x + half_width, ship_y + half_height);
    }

    /// Whether the tick that is due stays within machine coordinates.
    pub fn can_update(&self) -> (fits: bool)
        ensures
            fits == self@.can_update(),
    {
        if self.player.is_dead() || self.game_state != GameState::InGame {
            return true;
        }
        let low: i128 = i64::MIN as i128;
        let high: i128 = i64::MAX as i128;
        let carried_x: i128 = self.player.x() as i128 + self.ship.self_vel_x() as i128;
        let carried_y: i128 = self.player.y() as i128 + self.ship.self_vel_y() as i128;
        let walked_x: i128 = carried_x + self.player.self_vel_x() as i128;
        let walked_y: i128 = carried_y + self.player.self_vel_y() as i128;
        let ship_x: i128 = self.ship.x() as i128 + self.ship.self_vel_x() as i128;
        let ship_y: i128 = self.ship.y() as i128 + self.ship.self_vel_y() as i128;
        low <= carried_x && carried_x <= high && low <= carried_y && carried_y <= high
            && low <= walked_x && walked_x <= high && low <= walked_y && walked_y <= high
            && low <= ship_x && ship_x <= high && low <= ship_y && ship_y <= high
    }

    /// One tick of the simulation.
    pub fn update(&mut self)
        requires
            old(self)@.wf(),
            old(self)@.can_update(),
        ensures
            final(self)@ == old(self)@.after_update(),
            final(self)@.wf(),
            old(self)@.steady() ==> final(self)@.steady(),
    {
        if self.player.is_dead() {
            self.game_state = GameState::GameOver;
        }
        if self.game_state == GameState::InGame {
            self.player.set_other_velocity(self.ship.self_vel_x(), self.ship.self_vel_y());
            self.player.update_position_other();
            let x: i64 = self.player.x_to_be_location();
            let y: i64 = self.player.y_to_be_location();
            match self.is_on_ship(x, y) {
                Footing::Blocked => {},
                _ => {
                    self.player.update_position_self();
                    self.player.update_direction();
                },
            }
            self.ship.update_position();
        }
    }

    /// The footing of a footprint at `(x, y)` on the vessel where it lies now: legal on
    /// passable tiles, blocked where a tile under it is not passable, and off the
    /// vessel where it is not wholly on the deck.
    pub fn is_on_ship(&self, x: i64, y: i64) -> (f: Footing)
        ensures
            f == footing_of(
                self@.ship.tiles,
                self@.ship.motion.x,
                self@.ship.motion.y,
                x as int,
                y as int,
            ),
            f is OffVessel <==> !on_vessel(
                self@.ship.tiles,
                self@.ship.motion.x,
                self@.ship.motion.y,
                x as int,
                y as int,
            ),
            f is Legal <==> on_vessel(
                self@.ship.tiles,
                self@.ship.motion.x,
                self@.ship.motion.y,
                x as int,
                y as int,
            ) && corners_passable(
                self@.ship.tiles,
                self@.ship.motion.x,
                self@.ship.motion.y,
                x as int,
                y as int,
            ),
            f is Blocked <==> on_vessel(
                self@.ship.tiles,
                self@.ship.motion.x,
                self@.ship.motion.y,
                x as int,
                y as int,
            ) && !corners_passable(
                self@.ship.tiles,
                self@.ship.motion.x,
                self@.ship.motion.y,
                x as int,
                y as int,
            ),
    {
        footing(self.ship.tiles(), self.ship.x(), self.ship.y(), x, y)
    }

    /// Takes one button event.
    pub fn handle_input(&mut self, state: ButtonState, button: Button)
        requires
            old(self)@.wf(),
        ensures
            final(self)@ == old(self)@.after_input(state, button),
            final(self)@.wf(),
            old(self)@.steady() ==> final(self)@.steady(),
    {
        match button {
            Button::Keyboard(key) => match key {
                Key::Return => self.execute_main_menu(&state),
                Key::Tab => self.execute_open_menu(&state),
                Key::W | Key::A | Key::S | Key::D => self.execute_move(&state, &Some(key)),
                Key::V => self.execute_action(&state),
                Key::L => {
                    self.player.take_damage(1);
                },
                _ => {},
            },
            _ => {},
        }
    }

    /// Opens the menu from the game, or closes it again.
    pub fn execute_open_menu(&mut self, state: &ButtonState)
        requires
            old(self)@.wf(),
        ensures
            final(self)@ == old(self)@.after_open_menu(*state),
            final(self)@.wf(),
            old(self)@.steady() ==> final(self)@.steady(),
    {
        if *state == ButtonState::Press {
            match self.game_state {
                GameState::InGame => {
                    self.game_state = GameState::InMenu;
                },
                GameState::InMenu => {
                    self.game_state = GameState::InGame;
                },
                _ => {},
            }
        }
    }

    /// Starts the game from the title screen.
    pub fn execute_main_menu(&mut self, state: &ButtonState)
        requires
            old(self)@.wf(),
        ensures
            final(self)@ == old(self)@.after_main_menu(*state),
            final(self)@.wf(),
            old(self)@.steady() ==> final(self)@.steady(),
    {
        if *state == ButtonState::Press {
            match self.game_state {
                GameState::Title => {
                    self.game_state = GameState::InGame;
                },
                _ => {},
            }
        }
    }

    /// Hands a steering key to the actor or to the vessel, whichever the keys move now.
    pub fn execute_move(&mut self, state: &ButtonState, key: &Option<Key>)
        requires
            old(self)@.wf(),
        ensures
            final(self)@ == old(self)@.after_move(*state, *key),
            final(self)@.wf(),
            old(self)@.steady() ==> final(self)@.steady(),
    {
        if self.game_state == GameState::InGame {
            match self.player.creature_state() {
                CreatureState::Normal => {
                    self.player.handle_input(state, key);
                    self.player.update_self_velocity();
                },
                CreatureState::ControllingShip => {
                    self.ship.handle_input(state, key);
                    self.ship.update_self_velocity();
                },
            }
        }
    }

    /// Lets the helm change hands when its key goes down.
    pub fn execute_action(&mut self, state: &ButtonState)
        requires
            old(self)@.wf(),
        ensures
            final(self)@ == old(self)@.after_action(*state),
            final(self)@.wf(),
            old(self)@.steady() ==> final(self)@.steady(),
    {
        match state {
            ButtonState::Press => {
                if !self.action_held && self.game_state == GameState::InGame {
                    self.player.action();
                    self.ship.reset_dir();
                }
                self.action_held = true;
            },
            ButtonState::Release => {
                self.action_held = false;
            },
        }
    }

    /// Takes one event of the game loop and says what the loop is to do.
    pub fn run(&mut self, event: Event) -> (action: Action)
        requires
            old(self)@.wf(),
            event is Update ==> old(self)@.can_update(),
        ensures
            final(self)@ == old(self)@.after_event(event),
            action == old(self)@.action_for(event),
            final(self)@.wf(),
            old(self)@.steady() ==> final(self)@.steady(),
    {
        match event {
            Event::Button(state, button) => {
                self.handle_input(state, button);
                Action::Nothing
            },
            Event::Update => {
                self.update();
                Action::Nothing
            },
            Event::Render => {
                if self.game_state == GameState::InGame {
                    Action::Display(Some(self.player.draw()))
                } else {
                    Action::Display(None)
                }
            },
            Event::Other => Action::Nothing,
        }
    }
}

} // verus!
