//! What holds of the rules for every input, proved from their definitions.

use vstd::prelude::*;
use crate::characters::{Animations, Toward};
use crate::characters::clips::{AnimationDuration, AnimationRepeat, ClipId};
use crate::characters::player::{
    attack_playback, idle_playback, run_playback, selected_clip, Actor, ATTACK_COLUMNS,
    CYCLE_MILLIS, SHEET_COLUMNS,
};
use crate::characters::state::{facing_after, mirrored, ActorState, Direction};
use crate::state_machine::next_state;
use crate::state_machine::trigger::{attack_finished, ends_attack, AnimationEvent};

verus! {

/// Every clip of the player is drawn from its sheet. Standing and running
/// show a whole row of the sheet and loop at a fixed pace per cycle; an
/// attack shows the first columns of its row and is played through once.
pub proof fn player_clips_lie_in_the_sheet(toward: Toward)
    ensures
        idle_playback(toward).clip.in_grid(),
        run_playback(toward).clip.in_grid(),
        attack_playback(toward).clip.in_grid(),
        idle_playback(toward).clip.frame_count() == SHEET_COLUMNS,
        run_playback(toward).clip.frame_count() == SHEET_COLUMNS,
        attack_playback(toward).clip.frame_count() == ATTACK_COLUMNS,
        ATTACK_COLUMNS < SHEET_COLUMNS,
        idle_playback(toward).repeat == AnimationRepeat::Loop,
        run_playback(toward).repeat == AnimationRepeat::Loop,
        attack_playback(toward).repeat == AnimationRepeat::Cycles(1),
        idle_playback(toward).clip.default_duration == Some(AnimationDuration::PerCycle(CYCLE_MILLIS)),
        run_playback(toward).clip.default_duration == Some(AnimationDuration::PerCycle(CYCLE_MILLIS)),
{
}

/// A direction along one axis sets the facing to that axis' cardinal,
/// whatever the facing was: up for `y > 0`, down for `y < 0`, right for
/// `x > 0`, left for `x < 0`, the other component being zero.
pub proof fn cardinal_direction_sets_facing(direction: Direction, toward: Toward)
    ensures
        direction.y > 0 && direction.x == 0 ==> facing_after(direction, toward) == Toward::Up,
        direction.y < 0 && direction.x == 0 ==> facing_after(direction, toward) == Toward::Down,
        direction.y == 0 && direction.x > 0 ==> facing_after(direction, toward) == Toward::Right,
        direction.y == 0 && direction.x < 0 ==> facing_after(direction, toward) == Toward::Left,
{
}

/// In locomotion, a tick whose axis lies along one axis, and in which the
/// attack button does not go down, leaves the actor facing along that axis.
pub proof fn cardinal_axis_sets_facing(
    actor: Actor,
    ids: Animations,
    axis: Direction,
    events: Seq<AnimationEvent>,
)
    requires
        actor.state is Locomotion,
    ensures
        axis.y > 0 && axis.x == 0 ==> actor.after_tick(ids, axis, false, events).toward
            == Toward::Up,
        axis.y < 0 && axis.x == 0 ==> actor.after_tick(ids, axis, false, events).toward
            == Toward::Down,
        axis.y == 0 && axis.x > 0 ==> actor.after_tick(ids, axis, false, events).toward
            == Toward::Right,
        axis.y == 0 && axis.x < 0 ==> actor.after_tick(ids, axis, false, events).toward
            == Toward::Left,
{
}

/// A diagonal direction leaves the facing as it was.
pub proof fn diagonal_direction_keeps_facing(direction: Direction, toward: Toward)
    requires
        direction.x != 0,
        direction.y != 0,
    ensures
        facing_after(direction, toward) == toward,
{
}

/// The zero direction leaves the facing as it was.
pub proof fn zero_direction_keeps_facing(direction: Direction, toward: Toward)
    requires
        direction.x == 0,
        direction.y == 0,
    ensures
        facing_after(direction, toward) == toward,
{
}

/// Across a whole tick with a diagonal axis the facing stays as it was, in
/// either state and whatever the button and the events do.
pub proof fn diagonal_axis_keeps_facing(
    actor: Actor,
    ids: Animations,
    axis: Direction,
    attack_just_pressed: bool,
    events: Seq<AnimationEvent>,
)
    requires
        axis.x != 0,
        axis.y != 0,
    ensures
        actor.after_tick(ids, axis, attack_just_pressed, events).toward == actor.toward,
{
}

/// Only a direction that points left mirrors the sprite.
pub proof fn mirrored_only_leftwards(direction: Direction)
    ensures
        mirrored(direction) <==> direction.y == 0 && direction.x < 0,
{
}

/// Selecting twice selects nothing new: on the clip that the selector has
/// picked it picks that clip again.
pub proof fn selection_is_idempotent(
    attacking: bool,
    direction: Direction,
    toward: Toward,
    ids: Animations,
    current: ClipId,
)
    ensures
        selected_clip(
            attacking,
            direction,
            toward,
            ids,
            selected_clip(attacking, direction, toward, ids, current),
        ) == selected_clip(attacking, direction, toward, ids, current),
{
}

/// Holding the direction reassigns nothing. Take an actor after any tick. If
/// the next tick leaves its state as it is (in locomotion: the axis is the
/// direction it already has and the attack button does not go down; during an
/// attack: the batch holds no finish event of the attack), then that tick
/// changes nothing at all: not the clip, not the facing, not the mirroring.
pub proof fn held_direction_keeps_clip(
    before: Actor,
    ids: Animations,
    first_axis: Direction,
    first_press: bool,
    first_events: Seq<AnimationEvent>,
    axis: Direction,
    attack_just_pressed: bool,
    events: Seq<AnimationEvent>,
)
    ensures
        ({
            let actor = before.after_tick(ids, first_axis, first_press, first_events);
            let next = actor.after_tick(ids, axis, attack_just_pressed, events);
            &&& next.state == actor.state ==> next == actor
            &&& actor.state == ActorState::Locomotion(axis) && !attack_just_pressed ==> next
                == actor
            &&& actor.state is Attacking && !attack_finished(
                ids,
                actor.toward,
                actor.animation_id,
                events,
            ) ==> next == actor
        }),
{
}

/// While the actor attacks, the selector picks the attack clip of its
/// facing for every direction and every current clip. In a registry of
/// twelve different clips that is no run clip and no idle clip.
pub proof fn attacking_selects_attack_clip(
    direction: Direction,
    toward: Toward,
    ids: Animations,
    current: ClipId,
)
    ensures
        selected_clip(true, direction, toward, ids, current) == ids.attack.clip(toward),
        ids.attack.has(selected_clip(true, direction, toward, ids, current)),
        ids.wf() ==> !ids.run.has(selected_clip(true, direction, toward, ids, current)),
        ids.wf() ==> !ids.idle.has(selected_clip(true, direction, toward, ids, current)),
{
}

/// After every tick an attacking actor plays the attack clip of its facing,
/// which in a registry of twelve different clips is no run clip and no idle
/// clip. It stands still, and it faces as it did before the tick. If it was
/// well formed before, the facing that the attack remembers is still its
/// facing.
pub proof fn attacking_actor_plays_attack_clip(
    actor: Actor,
    ids: Animations,
    axis: Direction,
    attack_just_pressed: bool,
    events: Seq<AnimationEvent>,
)
    ensures
        ({
            let next = actor.after_tick(ids, axis, attack_just_pressed, events);
            next.state is Attacking ==> {
                &&& next.animation_id == ids.attack.clip(next.toward)
                &&& ids.wf() ==> !ids.run.has(next.animation_id) && !ids.idle.has(
                    next.animation_id,
                )
                &&& next.state.spec_direction() == Direction::spec_zero()
                &&& next.toward == actor.toward
                &&& !next.flip_x
                &&& actor.wf() ==> next.wf()
            }
        }),
{
}

/// A tick keeps a well-formed actor well formed.
pub proof fn tick_keeps_actor_well_formed(
    actor: Actor,
    ids: Animations,
    axis: Direction,
    attack_just_pressed: bool,
    events: Seq<AnimationEvent>,
)
    requires
        actor.wf(),
    ensures
        actor.after_tick(ids, axis, attack_just_pressed, events).wf(),
{
}

/// An attack ends on the finish event of its own clip and on nothing else.
/// For an actor that attacks and plays the attack clip of its facing, the
/// state machine goes back to locomotion, standing still, exactly when the
/// batch holds an `AnimationEnd` for that clip. The axis and the attack
/// button have no part in it.
pub proof fn attack_ends_on_its_finish_event(
    attack: ActorState,
    toward: Toward,
    ids: Animations,
    axis: Direction,
    attack_just_pressed: bool,
    events: Seq<AnimationEvent>,
)
    requires
        attack is Attacking,
    ensures
        ({
            let playing = ids.attack.clip(toward);
            let next = next_state(attack, toward, playing, ids, axis, attack_just_pressed, events);
            let finished = exists|i: int|
                0 <= i < events.len() && #[trigger] events[i] == (AnimationEvent::AnimationEnd {
                    animation_id: playing,
                });
            &&& finished ==> next == ActorState::Locomotion(Direction::spec_zero())
            &&& !finished ==> next == attack
        }),
{
    let playing = ids.attack.clip(toward);
    let finished = exists|i: int|
        0 <= i < events.len() && #[trigger] events[i] == (AnimationEvent::AnimationEnd {
            animation_id: playing,
        });
    if finished {
        let i = choose|i: int|
            0 <= i < events.len() && #[trigger] events[i] == (AnimationEvent::AnimationEnd {
                animation_id: playing,
            });
        assert(ends_attack(ids, toward, playing, events[i]));
    }
}

/// An attack never ends on a finish event that carries another clip id. If
/// no `AnimationEnd` in the batch carries one of the actor's own four attack
/// clips (each carries a clip of another actor's registry, or a run or idle
/// clip), the actor goes on attacking, whatever clip it is playing.
pub proof fn foreign_finish_event_is_ignored(
    attack: ActorState,
    toward: Toward,
    animation_id: ClipId,
    ids: Animations,
    axis: Direction,
    attack_just_pressed: bool,
    events: Seq<AnimationEvent>,
)
    requires
        attack is Attacking,
        forall|i: int|
            0 <= i < events.len() ==> (#[trigger] events[i] matches AnimationEvent::AnimationEnd {
                animation_id: finished,
            } ==> !ids.attack.has(finished)),
    ensures
        next_state(attack, toward, animation_id, ids, axis, attack_just_pressed, events)
            == attack,
{
}

/// An attack ends once. The state that follows the end of an attack is
/// locomotion, and in locomotion no finish event moves the state machine:
/// the same batch, handed over again, leaves the actor in locomotion with
/// the axis as its direction.
pub proof fn attack_ends_once(
    attack: ActorState,
    toward: Toward,
    animation_id: ClipId,
    ids: Animations,
    axis: Direction,
    events: Seq<AnimationEvent>,
)
    requires
        attack is Attacking,
        attack_finished(ids, toward, animation_id, events),
    ensures
        ({
            let ended = next_state(attack, toward, animation_id, ids, axis, false, events);
            &&& ended == ActorState::Locomotion(Direction::spec_zero())
            &&& next_state(ended, toward, animation_id, ids, axis, false, events)
                == ActorState::Locomotion(axis)
        }),
{
}

/// A press of the attack button during an attack is ignored: with or without
/// it the state machine does the same.
pub proof fn attack_press_is_ignored_while_attacking(
    attack: ActorState,
    toward: Toward,
    animation_id: ClipId,
    ids: Animations,
    axis: Direction,
    events: Seq<AnimationEvent>,
)
    requires
        attack is Attacking,
    ensures
        next_state(attack, toward, animation_id, ids, axis, true, events) == next_state(
            attack,
            toward,
            animation_id,
            ids,
            axis,
            false,
            events,
        ),
        !attack_finished(ids, toward, animation_id, events) ==> next_state(
            attack,
            toward,
            animation_id,
            ids,
            axis,
            true,
            events,
        ) == attack,
{
}

} // verus!
