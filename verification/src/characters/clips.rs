//! What an archetype asks the animation player to hold.
//!
//! The animation player itself belongs to the host. This module records the
//! requests: which frames each animation shows, how long a cycle lasts and
//! how often it repeats. A host registers the recorded animations with its
//! animation player in the order in which they were asked for, and so an
//! animation's id is its place in that order.

use vstd::prelude::*;

verus! {

/// The handle of a playable animation. Two handles name the same animation
/// exactly when they are equal; nothing else is read from one.
#[derive(Clone, Copy, Debug, PartialEq, Eq, Structural, Hash)]
pub struct ClipId {
    pub value: usize,
}

/// How often an animation is played.
#[derive(Clone, Copy, Debug, PartialEq, Eq, Structural, Hash)]
pub enum AnimationRepeat {
    /// Over and over; such an animation never finishes.
    Loop,
    /// The given number of cycles; after the last one the animation player
    /// reports that the animation has finished.
    Cycles(u32),
}

/// How long a clip takes, in milliseconds.
#[derive(Clone, Copy, Debug, PartialEq, Eq, Structural, Hash)]
pub enum AnimationDuration {
    PerFrame(u32),
    PerCycle(u32),
}

/// The frames of a clip: one row of a spritesheet grid, or the first columns
/// of one.
#[derive(Clone, Copy, Debug, PartialEq, Eq, Structural, Hash)]
pub struct Clip {
    /// The number of columns of the grid.
    pub columns: usize,
    /// The number of rows of the grid.
    pub rows: usize,
    /// The row that is played.
    pub row: usize,
    /// `Some(n)`: only the first `n` columns of the row. `None`: all of it.
    pub column_range: Option<usize>,
    /// `None` leaves the pace to the animation player.
    pub default_duration: Option<AnimationDuration>,
}

impl Clip {
    /// The row lies in the grid, and a partial range does not leave it.
    pub open spec fn in_grid(self) -> bool {
        &&& self.row < self.rows
        &&& self.column_range matches Some(end) ==> end <= self.columns
    }

    /// The number of frames of the clip.
    pub open spec fn frame_count(self) -> nat {
        match self.column_range {
            Some(end) => end as nat,
            None => self.columns as nat,
        }
    }
}

/// One recorded request: a clip, wrapped into an animation that repeats as
/// given.
#[derive(Clone, Copy, Debug, PartialEq, Eq, Structural, Hash)]
pub struct Playback {
    pub clip: Clip,
    pub repeat: AnimationRepeat,
}

/// The animations asked for so far, in order.
pub struct ClipLibrary {
    animations: Vec<Playback>,
}

impl View for ClipLibrary {
    type V = Seq<Playback>;

    closed spec fn view(&self) -> Seq<Playback> {
        self.animations@
    }
}

impl ClipLibrary {
    /// The id that the animation recorded at `index` has.
    pub open spec fn id_at(index: nat) -> ClipId {
        ClipId { value: index as usize }
    }

    /// The number of animations fits the machine, so that every place in
    /// the library has an id of its own.
    pub proof fn lemma_len_fits(&self)
        ensures
            self@.len() <= usize::MAX,
    {
        assert(self.animations@.len() == self.animations.len());
    }

    /// A library without any animation.
    pub fn new() -> (library: ClipLibrary)
        ensures
            library@ == Seq::<Playback>::empty(),
    {
        ClipLibrary { animations: Vec::new() }
    }

    /// The number of animations recorded.
    pub fn len(&self) -> (count: usize)
        ensures
            count == self@.len(),
    {
        self.animations.len()
    }

    /// The request behind an id, or `None` for an id that this library never
    /// gave out.
    pub fn get(&self, id: ClipId) -> (playback: Option<Playback>)
        ensures
            id.value < self@.len() ==> playback == Some(self@[id.value as int]),
            id.value >= self@.len() ==> playback is None,
    {
        if id.value < self.animations.len() {
            Some(self.animations[id.value])
        } else {
            None
        }
    }

    /// Records one animation that plays `clip` and repeats as given. The new
    /// id is the number of animations recorded before, hence different from
    /// every id given out earlier.
    pub fn new_animation(&mut self, clip: Clip, repeat: AnimationRepeat) -> (id: ClipId)
        ensures
            final(self)@ == old(self)@.push(Playback { clip, repeat }),
            id == ClipLibrary::id_at(old(self)@.len()),
            id.value == old(self)@.len(),
    {
        let id = ClipId { value: self.animations.len() };
        self.animations.push(Playback { clip, repeat });
        id
    }
}

} // verus!
