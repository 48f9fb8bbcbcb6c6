//! Orientation and the per-archetype table of clip ids.

use vstd::prelude::*;
use crate::characters::clips::{AnimationRepeat, Clip, ClipId, ClipLibrary, Playback};

pub mod clips;
pub mod player;
pub mod state;

verus! {

/// The last cardinal orientation of an actor. It always has a value and it
/// persists while the actor stands still.
#[derive(Clone, Copy, Debug, PartialEq, Eq, Structural, Hash)]
pub enum Toward {
    Up,
    Down,
    Left,
    Right,
}

impl Default for Toward {
    fn default() -> (toward: Toward)
        ensures
            toward == Toward::Up,
    {
        Toward::Up
    }
}

/// The clips of one behaviour, one for each facing.
#[derive(Clone, Copy, Debug, PartialEq, Eq, Structural, Hash)]
pub struct Animation {
    pub up: ClipId,
    pub down: ClipId,
    pub left: ClipId,
    pub right: ClipId,
}

impl Animation {
    /// The clip for a facing.
    pub open spec fn clip(self, toward: Toward) -> ClipId {
        match toward {
            Toward::Up => self.up,
            Toward::Down => self.down,
            Toward::Left => self.left,
            Toward::Right => self.right,
        }
    }

    /// `id` is one of the four clips.
    pub open spec fn has(self, id: ClipId) -> bool {
        id == self.up || id == self.down || id == self.left || id == self.right
    }

    /// The four clips differ from each other.
    pub open spec fn distinct(self) -> bool {
        &&& self.up != self.down
        &&& self.up != self.left
        &&& self.up != self.right
        &&& self.down != self.left
        &&& self.down != self.right
        &&& self.left != self.right
    }

    /// No clip of `self` is a clip of `other`.
    pub open spec fn apart_from(self, other: Animation) -> bool {
        &&& !other.has(self.up)
        &&& !other.has(self.down)
        &&& !other.has(self.left)
        &&& !other.has(self.right)
    }

    /// The four ids that a library gives out, in the order up, down, left,
    /// right, when it held `first` animations before.
    pub open spec fn block(first: nat) -> Animation {
        Animation {
            up: ClipLibrary::id_at(first),
            down: ClipLibrary::id_at(first + 1),
            left: ClipLibrary::id_at(first + 2),
            right: ClipLibrary::id_at(first + 3),
        }
    }

    /// The four requests that `new_clips_with_repeat` records, in order.
    pub open spec fn requests(
        up: Clip,
        down: Clip,
        left: Clip,
        right: Clip,
        repeat: AnimationRepeat,
    ) -> Seq<Playback> {
        seq![
            Playback { clip: up, repeat },
            Playback { clip: down, repeat },
            Playback { clip: left, repeat },
            Playback { clip: right, repeat },
        ]
    }

    /// The clip for a facing.
    pub fn get(&self, toward: Toward) -> (id: ClipId)
        ensures
            id == self.clip(toward),
    {
        match toward {
            Toward::Up => self.up,
            Toward::Down => self.down,
            Toward::Left => self.left,
            Toward::Right => self.right,
        }
    }

    /// Whether `id` is one of the four clips.
    pub fn contains(&self, id: ClipId) -> (found: bool)
        ensures
            found == self.has(id),
    {
        id == self.up || id == self.down || id == self.left || id == self.right
    }

    /// Records four looping animations, one per facing, and returns their
    /// ids. The library grows by exactly these four, in the order up, down,
    /// left, right.
    pub fn new_clips(
        library: &mut ClipLibrary,
        up: Clip,
        down: Clip,
        left: Clip,
        right: Clip,
    ) -> (animation: Animation)
        ensures
            final(library)@ == old(library)@ + Animation::requests(
                up,
                down,
                left,
                right,
                AnimationRepeat::Loop,
            ),
            animation == Animation::block(old(library)@.len()),
            animation.distinct(),
    {
        Animation::new_clips_with_repeat(
            library,
            up,
            down,
            left,
            right,
            AnimationRepeat::Loop,
        )
    }

    /// Records four animations that repeat as given, one per facing, and
    /// returns their ids. The library grows by exactly these four, in the
    /// order up, down, left, right.
    pub fn new_clips_with_repeat(
        library: &mut ClipLibrary,
        up: Clip,
        down: Clip,
        left: Clip,
        right: Clip,
        repeat: AnimationRepeat,
    ) -> (animation: Animation)
        ensures
            final(library)@ == old(library)@ + Animation::requests(
                up,
                down,
                left,
                right,
                repeat,
            ),
            animation == Animation::block(old(library)@.len()),
            animation.distinct(),
    {
        let up_id = library.new_animation(up, repeat);
        let down_id = library.new_animation(down, repeat);
        let left_id = library.new_animation(left, repeat);
        let right_id = library.new_animation(right, repeat);
        Animation { up: up_id, down: down_id, left: left_id, right: right_id }
    }
}

/// The animation registry of an archetype: for each behaviour and each facing
/// the clip to play. It is built once and only read afterwards.
#[derive(Clone, Copy, Debug, PartialEq, Eq, Structural, Hash)]
pub struct Animations {
    pub idle: Animation,
    pub run: Animation,
    pub attack: Animation,
}

impl Animations {
    /// The twelve clips differ from each other.
    pub open spec fn wf(self) -> bool {
        &&& self.idle.distinct()
        &&& self.run.distinct()
        &&& self.attack.distinct()
        &&& self.idle.apart_from(self.run)
        &&& self.idle.apart_from(self.attack)
        &&& self.run.apart_from(self.attack)
    }

    /// Whether the twelve clips differ from each other.
    pub fn is_wf(&self) -> (ok: bool)
        ensures
            ok == self.wf(),
    {
        distinct_clips(&self.idle) && distinct_clips(&self.run) && distinct_clips(&self.attack)
            && clips_apart(&self.idle, &self.run) && clips_apart(&self.idle, &self.attack)
            && clips_apart(&self.run, &self.attack)
    }
}

fn distinct_clips(animation: &Animation) -> (ok: bool)
    ensures
        ok == animation.distinct(),
{
    animation.up != animation.down && animation.up != animation.left
        && animation.up != animation.right && animation.down != animation.left
        && animation.down != animation.right && animation.left != animation.right
}

fn clips_apart(animation: &Animation, other: &Animation) -> (ok: bool)
    ensures
        ok == animation.apart_from(*other),
{
    !other.contains(animation.up) && !other.contains(animation.down)
        && !other.contains(animation.left) && !other.contains(animation.right)
}

} // verus!
