//! The state machine of an actor: locomotion and attacking.
//!
//! Locomotion is the initial state. An attack begins on the tick in which the
//! attack button goes down, and it ends only with the finish event of its own
//! clip: never by new input, by elapsed time or on request.

use vstd::prelude::*;
use crate::characters::{Animations, Toward};
use crate::characters::clips::ClipId;
use crate::characters::state::{ActorState, Attack, Direction};
use crate::state_machine::trigger::{attack, attack_finished, attacked, AnimationEvent};

pub mod trigger;

verus! {

/// The transition function.
///
/// - In locomotion, a press of the attack button begins an attack that
///   remembers the facing of that moment. Without a press the state stays
///   locomotion and its direction becomes the raw input axis, whatever it
///   was.
/// - During an attack the button and the axis are not looked at. The attack
///   ends when its finish event is in the batch; the actor then stands still.
pub open spec fn next_state(
    state: ActorState,
    toward: Toward,
    animation_id: ClipId,
    ids: Animations,
    axis: Direction,
    attack_just_pressed: bool,
    events: Seq<AnimationEvent>,
) -> ActorState {
    match state {
        ActorState::Locomotion(_) => if attack_just_pressed {
            ActorState::Attacking(Attack { toward })
        } else {
            ActorState::Locomotion(axis)
        },
        ActorState::Attacking(_) => if attack_finished(ids, toward, animation_id, events) {
            ActorState::Locomotion(Direction::spec_zero())
        } else {
            state
        },
    }
}

/// One tick of the state machine: the state that follows `state`, given the
/// actor's facing and current clip, the registry, this tick's input and the
/// batch of events from the animation player.
pub fn transition(
    state: &ActorState,
    toward: Toward,
    animation_id: ClipId,
    ids: &Animations,
    axis: Direction,
    attack_just_pressed: bool,
    events: &Vec<AnimationEvent>,
) -> (next: ActorState)
    ensures
        next == next_state(
            *state,
            toward,
            animation_id,
            *ids,
            axis,
            attack_just_pressed,
            events@,
        ),
{
    match state {
        ActorState::Locomotion(_) => match attack(attack_just_pressed, &toward) {
            Ok(captured) => ActorState::Attacking(Attack { toward: captured }),
            Err(_) => ActorState::Locomotion(axis),
        },
        ActorState::Attacking(_) => if attacked(ids, toward, animation_id, events) {
            ActorState::Locomotion(Direction::zero())
        } else {
            *state
        },
    }
}

} // verus!
