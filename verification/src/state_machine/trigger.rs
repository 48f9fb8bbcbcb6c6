//! The two triggers of the state machine.

use vstd::prelude::*;
use crate::characters::{Animations, Toward};
use crate::characters::clips::ClipId;

verus! {

/// A notification from the animation player.
#[derive(Clone, Copy, Debug, PartialEq, Eq, Structural, Hash)]
pub enum AnimationEvent {
    /// An animation that does not loop has played its last cycle.
    AnimationEnd { animation_id: ClipId },
    /// Anything else the animation player reports, such as the end of one
    /// cycle. It never ends an attack.
    Other,
}

/// Whether one event ends the attack of an actor that faces `toward` and
/// plays `animation_id`: the event reports the end of the attack clip for
/// that facing, and the actor is indeed playing one of its four attack clips.
pub open spec fn ends_attack(
    ids: Animations,
    toward: Toward,
    animation_id: ClipId,
    event: AnimationEvent,
) -> bool {
    &&& event matches AnimationEvent::AnimationEnd { animation_id: finished }
    &&& finished == ids.attack.clip(toward)
    &&& ids.attack.has(animation_id)
}

/// Whether a batch of events holds one that ends the attack.
pub open spec fn attack_finished(
    ids: Animations,
    toward: Toward,
    animation_id: ClipId,
    events: Seq<AnimationEvent>,
) -> bool {
    exists|i: int| 0 <= i < events.len() && ends_attack(ids, toward, animation_id, #[trigger] events[i])
}

/// The trigger that ends an attack. It scans the whole batch; an event with
/// another clip id, or of another kind, is passed over.
pub fn attacked(
    ids: &Animations,
    toward: Toward,
    animation_id: ClipId,
    events: &Vec<AnimationEvent>,
) -> (fired: bool)
    ensures
        fired == attack_finished(*ids, toward, animation_id, events@),
{
    let expected = ids.attack.get(toward);
    let playing_attack = ids.attack.contains(animation_id);
    let mut index: usize = 0;
    while index < events.len()
        invariant
            index <= events.len(),
            expected == ids.attack.clip(toward),
            playing_attack == ids.attack.has(animation_id),
            forall|i: int| 0 <= i < index ==> !ends_attack(*ids, toward, animation_id, #[trigger] events@[i]),
        decreases events.len() - index,
    {
        if let AnimationEvent::AnimationEnd { animation_id: finished } = events[index] {
            if playing_attack && finished == expected {
                return true;
            }
        }
        index += 1;
    }
    false
}

/// The trigger that begins an attack. It fires on the edge only: `Ok` with
/// the actor's facing when the attack button went down this tick, `Err`
/// otherwise.
pub fn attack(just_pressed: bool, toward: &Toward) -> (out: Result<Toward, ()>)
    ensures
        just_pressed ==> out == Ok::<Toward, ()>(*toward),
        !just_pressed ==> out is Err,
{
    if just_pressed {
        Ok(*toward)
    } else {
        Err(())
    }
}

} // verus!
