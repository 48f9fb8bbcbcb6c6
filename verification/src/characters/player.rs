//! The player archetype: its clips, the animation selector, and the actor
//! that a host drives tick by tick.

use vstd::prelude::*;
use crate::characters::{Animation, Animations, Toward};
use crate::characters::clips::{AnimationDuration, AnimationRepeat, Clip, ClipId, ClipLibrary, Playback};
use crate::characters::state::{facing_after, flip_hint, mirrored, track_facing, ActorState, Direction};
use crate::state_machine::{next_state, transition};
use crate::state_machine::trigger::AnimationEvent;

verus! {

/// The archetypes of a player.
#[derive(Clone, Copy, Debug, PartialEq, Eq, Structural, Hash)]
pub enum PlayerType {
    Adventurer,
}

impl Default for PlayerType {
    fn default() -> (player_type: PlayerType)
        ensures
            player_type == PlayerType::Adventurer,
    {
        PlayerType::Adventurer
    }
}

/// The animation registry of a player.
pub type PlayerAnimationIds = Animations;

/// The clips of one behaviour of a player, one for each facing.
pub type Animation2dIds = Animation;

/// The columns of the player's spritesheet.
pub const SHEET_COLUMNS: usize = 6;

/// The rows of the player's spritesheet.
pub const SHEET_ROWS: usize = 10;

/// The columns of a row that an attack plays.
pub const ATTACK_COLUMNS: usize = 4;

/// The milliseconds that one cycle of a looping clip lasts.
pub const CYCLE_MILLIS: u32 = 1500;

/// The clip that `clips_builder` describes. A whole row is paced at
/// `CYCLE_MILLIS` per cycle; a partial row leaves the pace to the animation
/// player.
pub open spec fn built_clip(
    columns: usize,
    rows: usize,
    play_row: usize,
    play_column_range: Option<usize>,
) -> Clip {
    Clip {
        columns,
        rows,
        row: play_row,
        column_range: play_column_range,
        default_duration: match play_column_range {
            Some(_) => None,
            None => Some(AnimationDuration::PerCycle(CYCLE_MILLIS)),
        },
    }
}

/// Describes the clip that plays row `play_row` of a grid of `columns` by
/// `rows`: the first `n` columns for `Some(n)`, the whole row for `None`.
pub fn clips_builder(
    columns: usize,
    rows: usize,
    play_row: usize,
    play_column_range: Option<usize>,
) -> (clip: Clip)
    ensures
        clip == built_clip(columns, rows, play_row, play_column_range),
{
    match play_column_range {
        Some(range) => Clip {
            columns,
            rows,
            row: play_row,
            column_range: Some(range),
            default_duration: None,
        },
        None => Clip {
            columns,
            rows,
            row: play_row,
            column_range: None,
            default_duration: Some(AnimationDuration::PerCycle(CYCLE_MILLIS)),
        },
    }
}

/// The row of the player's sheet that shows it standing.
pub open spec fn idle_row(toward: Toward) -> usize {
    match toward {
        Toward::Up => 2,
        Toward::Down => 0,
        Toward::Left => 1,
        Toward::Right => 1,
    }
}

/// The row of the player's sheet that shows it running.
pub open spec fn run_row(toward: Toward) -> usize {
    match toward {
        Toward::Up => 5,
        Toward::Down => 3,
        Toward::Left => 4,
        Toward::Right => 4,
    }
}

/// The row of the player's sheet that shows it attacking.
pub open spec fn attack_row(toward: Toward) -> usize {
    match toward {
        Toward::Up => 8,
        Toward::Down => 6,
        Toward::Left => 7,
        Toward::Right => 7,
    }
}

/// The animation in which the player stands: a whole row, looping.
pub open spec fn idle_playback(toward: Toward) -> Playback {
    Playback {
        clip: built_clip(SHEET_COLUMNS, SHEET_ROWS, idle_row(toward), None),
        repeat: AnimationRepeat::Loop,
    }
}

/// The animation in which the player runs: a whole row, looping.
pub open spec fn run_playback(toward: Toward) -> Playback {
    Playback {
        clip: built_clip(SHEET_COLUMNS, SHEET_ROWS, run_row(toward), None),
        repeat: AnimationRepeat::Loop,
    }
}

/// The animation in which the player attacks: the first columns of a row,
/// played through once, so that the animation player reports its end.
pub open spec fn attack_playback(toward: Toward) -> Playback {
    Playback {
        clip: built_clip(SHEET_COLUMNS, SHEET_ROWS, attack_row(toward), Some(ATTACK_COLUMNS)),
        repeat: AnimationRepeat::Cycles(1),
    }
}

/// The twelve animations of the player in the order in which they are
/// recorded: idle, run, attack, and in each up, down, left, right.
pub open spec fn player_playbacks() -> Seq<Playback> {
    seq![
        idle_playback(Toward::Up),
        idle_playback(Toward::Down),
        idle_playback(Toward::Left),
        idle_playback(Toward::Right),
        run_playback(Toward::Up),
        run_playback(Toward::Down),
        run_playback(Toward::Left),
        run_playback(Toward::Right),
        attack_playback(Toward::Up),
        attack_playback(Toward::Down),
        attack_playback(Toward::Left),
        attack_playback(Toward::Right),
    ]
}

/// Every clip of the registry has its place in the library, and at that
/// place stands the player's animation of that behaviour and facing.
pub open spec fn holds_player_clips(library: Seq<Playback>, ids: Animations) -> bool {
    forall|toward: Toward|
        #![trigger ids.idle.clip(toward)]
        #![trigger ids.run.clip(toward)]
        #![trigger ids.attack.clip(toward)]
        {
            &&& ids.idle.clip(toward).value < library.len()
            &&& ids.run.clip(toward).value < library.len()
            &&& ids.attack.clip(toward).value < library.len()
            &&& library[ids.idle.clip(toward).value as int] == idle_playback(toward)
            &&& library[ids.run.clip(toward).value as int] == run_playback(toward)
            &&& library[ids.attack.clip(toward).value as int] == attack_playback(toward)
        }
}

/// Builds the animation registry of the player. The library grows by the
/// player's twelve animations and by nothing else; the registry holds their
/// ids, which differ from each other, and behind each id stands the animation
/// of that behaviour and facing.
pub fn init_player_animation(library: &mut ClipLibrary) -> (ids: Animations)
    ensures
        final(library)@ == old(library)@ + player_playbacks(),
        ids.idle == Animation::block(old(library)@.len()),
        ids.run == Animation::block(old(library)@.len() + 4),
        ids.attack == Animation::block(old(library)@.len() + 8),
        ids.wf(),
        holds_player_clips(final(library)@, ids),
{
    let idle = Animation::new_clips(
        library,
        clips_builder(SHEET_COLUMNS, SHEET_ROWS, 2, None),
        clips_builder(SHEET_COLUMNS, SHEET_ROWS, 0, None),
        clips_builder(SHEET_COLUMNS, SHEET_ROWS, 1, None),
        clips_builder(SHEET_COLUMNS, SHEET_ROWS, 1, None),
    );
    let run = Animation::new_clips(
        library,
        clips_builder(SHEET_COLUMNS, SHEET_ROWS, 5, None),
        clips_builder(SHEET_COLUMNS, SHEET_ROWS, 3, None),
        clips_builder(SHEET_COLUMNS, SHEET_ROWS, 4, None),
        clips_builder(SHEET_COLUMNS, SHEET_ROWS, 4, None),
    );
    let attack = Animation::new_clips_with_repeat(
        library,
        clips_builder(SHEET_COLUMNS, SHEET_ROWS, 8, Some(ATTACK_COLUMNS)),
        clips_builder(SHEET_COLUMNS, SHEET_ROWS, 6, Some(ATTACK_COLUMNS)),
        clips_builder(SHEET_COLUMNS, SHEET_ROWS, 7, Some(ATTACK_COLUMNS)),
        clips_builder(SHEET_COLUMNS, SHEET_ROWS, 7, Some(ATTACK_COLUMNS)),
        AnimationRepeat::Cycles(1),
    );
    let ids = Animations { idle, run, attack };
    proof {
        library.lemma_len_fits();
    }
    ids
}

impl PlayerType {
    /// Builds the animation registry of this archetype.
    pub fn init_animation(self, library: &mut ClipLibrary) -> (ids: Animations)
        ensures
            final(library)@ == old(library)@ + player_playbacks(),
            ids.idle == Animation::block(old(library)@.len()),
            ids.run == Animation::block(old(library)@.len() + 4),
            ids.attack == Animation::block(old(library)@.len() + 8),
            ids.wf(),
            holds_player_clips(final(library)@, ids),
    {
        match self {
            PlayerType::Adventurer => init_player_animation(library),
        }
    }
}

/// The clip that the selector picks. The first rule that applies wins:
///
/// 1. an attacking actor plays the attack clip of its facing, whatever the
///    direction;
/// 2. a strictly cardinal direction plays the run clip of that direction;
/// 3. otherwise (zero or diagonal), unless the current clip is already one of
///    the four idle clips, the actor plays the idle clip of its facing;
/// 4. otherwise the current clip stays.
pub open spec fn selected_clip(
    attacking: bool,
    direction: Direction,
    toward: Toward,
    ids: Animations,
    current: ClipId,
) -> ClipId {
    if attacking {
        ids.attack.clip(toward)
    } else {
        match direction.spec_cardinal() {
            Some(heading) => ids.run.clip(heading),
            None => if !ids.idle.has(current) {
                ids.idle.clip(toward)
            } else {
                current
            },
        }
    }
}

/// The animation selector.
pub fn select_animation(
    attacking: bool,
    direction: &Direction,
    toward: Toward,
    ids: &Animations,
    current: ClipId,
) -> (selected: ClipId)
    ensures
        selected == selected_clip(attacking, *direction, toward, *ids, current),
{
    if attacking {
        ids.attack.get(toward)
    } else {
        match direction.cardinal() {
            Some(heading) => ids.run.get(heading),
            None => if !ids.idle.contains(current) {
                ids.idle.get(toward)
            } else {
                current
            },
        }
    }
}

/// One controllable character.
#[derive(Clone, Copy, Debug, PartialEq, Eq, Structural, Hash)]
pub struct Actor {
    /// Locomotion with its direction, or attacking.
    pub state: ActorState,
    /// The facing.
    pub toward: Toward,
    /// The clip that the animation player is playing for this actor.
    pub animation_id: ClipId,
    /// Whether the sprite is mirrored horizontally.
    pub flip_x: bool,
}

impl Actor {
    /// An attacking actor still faces the way it did when the attack began.
    pub open spec fn wf(self) -> bool {
        self.state matches ActorState::Attacking(attack) ==> attack.toward == self.toward
    }

    /// The actor after the state machine's stage of a tick.
    pub open spec fn after_transition(
        self,
        ids: Animations,
        axis: Direction,
        attack_just_pressed: bool,
        events: Seq<AnimationEvent>,
    ) -> Actor {
        Actor {
            state: next_state(
                self.state,
                self.toward,
                self.animation_id,
                ids,
                axis,
                attack_just_pressed,
                events,
            ),
            ..self
        }
    }

    /// The actor after the facing tracker and the animation selector, which
    /// reads the facing that the tracker left.
    pub open spec fn after_animation(self, ids: Animations) -> Actor {
        let direction = self.state.spec_direction();
        let toward = facing_after(direction, self.toward);
        Actor {
            state: self.state,
            toward,
            animation_id: selected_clip(
                self.state is Attacking,
                direction,
                toward,
                ids,
                self.animation_id,
            ),
            flip_x: mirrored(direction),
        }
    }

    /// The actor after a whole tick: state machine, facing tracker, animation
    /// selector, in this order.
    pub open spec fn after_tick(
        self,
        ids: Animations,
        axis: Direction,
        attack_just_pressed: bool,
        events: Seq<AnimationEvent>,
    ) -> Actor {
        self.after_transition(ids, axis, attack_just_pressed, events).after_animation(ids)
    }

    /// A new actor: in locomotion, heading and facing `default_toward`, with
    /// the idle clip for facing up, not mirrored.
    pub fn new(ids: &Animations, default_toward: Toward) -> (actor: Actor)
        ensures
            actor == (Actor {
                state: ActorState::Locomotion(Direction::spec_from_toward(default_toward)),
                toward: default_toward,
                animation_id: ids.idle.up,
                flip_x: false,
            }),
            actor.wf(),
    {
        Actor {
            state: ActorState::Locomotion(Direction::from_toward(&default_toward)),
            toward: default_toward,
            animation_id: ids.idle.up,
            flip_x: false,
        }
    }

    /// One tick: the state machine, then the facing tracker, then the
    /// animation selector. Returns whether the current clip was reassigned,
    /// which is the case exactly when the selected clip differs from it.
    pub fn tick(
        &mut self,
        ids: &Animations,
        axis: Direction,
        attack_just_pressed: bool,
        events: &Vec<AnimationEvent>,
    ) -> (reassigned: bool)
        ensures
            *final(self) == old(self).after_tick(*ids, axis, attack_just_pressed, events@),
            reassigned == (final(self).animation_id != old(self).animation_id),
            old(self).wf() ==> final(self).wf(),
    {
        self.state = transition(
            &self.state,
            self.toward,
            self.animation_id,
            ids,
            axis,
            attack_just_pressed,
            events,
        );
        player_animation(self, ids)
    }
}

/// The facing tracker and the animation selector for one actor. The facing
/// and the mirroring follow the direction of the actor's state; the current
/// clip is written only when the selected clip differs from it. Returns
/// whether it was written.
pub fn player_animation(actor: &mut Actor, ids: &Animations) -> (reassigned: bool)
    ensures
        *final(actor) == old(actor).after_animation(*ids),
        reassigned == (final(actor).animation_id != old(actor).animation_id),
        old(actor).wf() ==> final(actor).wf(),
{
    let direction = actor.state.direction();
    actor.flip_x = flip_hint(&direction);
    actor.toward = track_facing(&direction, actor.toward);
    let selected = select_animation(
        actor.state.is_attacking(),
        &direction,
        actor.toward,
        ids,
        actor.animation_id,
    );
    if selected != actor.animation_id {
        actor.animation_id = selected;
        true
    } else {
        false
    }
}

} // verus!
