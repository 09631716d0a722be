//! The four directions, and the capability shared by everything that moves.

use vstd::prelude::*;

use crate::input::{ButtonState, Key};
use crate::motion::Motion;

verus! {

/// A compass direction. North is towards smaller `y`, west towards smaller `x`.
#[derive(Clone, Copy, Debug, PartialEq, Eq, Structural)]
pub enum Direction {
    North,
    South,
    East,
    West,
}

/// What the actor and the vessel have in common: directions can be held, the held
/// directions give a velocity, and the velocity moves the position.
#[allow(non_camel_case_types)]
pub trait moveable {
    /// The invariant of the thing that moves.
    spec fn wf(&self) -> bool;

    /// Its motion, as mathematics.
    spec fn motion(&self) -> Motion;

    /// A well-formed mover has a well-formed motion.
    proof fn lemma_wf_motion(&self)
        requires
            self.wf(),
        ensures
            self.motion().wf(),
    ;

    /// Takes one button event: a steering key that goes down is held from now on, one
    /// that comes up is held no longer. Velocity and position are untouched.
    fn handle_input(&mut self, state: &ButtonState, key: &Option<Key>)
        requires
            old(self).wf(),
        ensures
            final(self).wf(),
            final(self).motion() == old(self).motion().steered(*state, *key),
    ;

    /// Moves the position by one tick: first as it is carried, then by its own velocity.
    fn update_position(&mut self)
        requires
            old(self).wf(),
            old(self).motion().carried().can_advance(),
        ensures
            final(self).wf(),
            final(self).motion() == old(self).motion().carried().advanced(),
    ;

    /// Derives the own velocity anew from the held directions.
    fn update_self_velocity(&mut self)
        requires
            old(self).wf(),
        ensures
            final(self).wf(),
            final(self).motion() == old(self).motion().recomputed(),
            final(self).motion().settled(),
    ;
}

} // verus!
