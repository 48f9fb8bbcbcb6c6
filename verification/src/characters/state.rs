//! The two states of an actor, the movement intent, and the rule that derives
//! the facing from the intent.

use vstd::prelude::*;
use crate::characters::Toward;

verus! {

/// The movement an actor intends: a vector of signed integer components.
///
/// A host that reads a digital pad hands over `-1`, `0` or `1` per axis; one
/// that reads an analogue stick picks its own unit. The rules of this crate
/// read only whether `x` and `y` are negative, zero or positive, so the
/// length of the vector is not constrained and a diagonal is allowed. The
/// zero vector means that the actor stands still.
#[derive(Clone, Copy, Debug, PartialEq, Eq, Structural, Hash)]
pub struct Direction {
    pub x: i32,
    pub y: i32,
    pub z: i32,
}

impl Direction {
    /// All zeroes.
    pub open spec fn spec_zero() -> Direction {
        Direction { x: 0, y: 0, z: 0 }
    }

    /// One unit along the axis that `toward` names.
    pub open spec fn spec_from_toward(toward: Toward) -> Direction {
        match toward {
            Toward::Up => Direction { x: 0, y: 1, z: 0 },
            Toward::Down => Direction { x: 0, y: (-1) as i32, z: 0 },
            Toward::Left => Direction { x: (-1) as i32, y: 0, z: 0 },
            Toward::Right => Direction { x: 1, y: 0, z: 0 },
        }
    }

    /// The ordered rule table of the facing tracker; the first rule that
    /// matches wins.
    ///
    /// 1. `y > 0` and `x == 0`: up
    /// 2. `y < 0` and `x == 0`: down
    /// 3. `y == 0` and `x > 0`: right
    /// 4. `y == 0` and `x < 0`: left
    /// 5. otherwise (zero or diagonal): no heading
    pub open spec fn spec_cardinal(&self) -> Option<Toward> {
        if self.y > 0 && self.x == 0 {
            Some(Toward::Up)
        } else if self.y < 0 && self.x == 0 {
            Some(Toward::Down)
        } else if self.y == 0 && self.x > 0 {
            Some(Toward::Right)
        } else if self.y == 0 && self.x < 0 {
            Some(Toward::Left)
        } else {
            None
        }
    }

    /// All zeroes.
    #[verifier::when_used_as_spec(spec_zero)]
    pub fn zero() -> (direction: Direction)
        ensures
            direction == Direction::spec_zero(),
    {
        Direction::splat(0)
    }

    /// One unit along the positive X axis.
    pub fn right() -> (direction: Direction)
        ensures
            direction == (Direction { x: 1, y: 0, z: 0 }),
    {
        Direction::new(1, 0, 0)
    }

    /// One unit along the positive Y axis.
    pub fn up() -> (direction: Direction)
        ensures
            direction == (Direction { x: 0, y: 1, z: 0 }),
    {
        Direction::new(0, 1, 0)
    }

    /// One unit along the negative X axis.
    pub fn left() -> (direction: Direction)
        ensures
            direction.x == -1 && direction.y == 0 && direction.z == 0,
    {
        Direction::new(-1, 0, 0)
    }

    /// One unit along the negative Y axis.
    pub fn down() -> (direction: Direction)
        ensures
            direction.x == 0 && direction.y == -1 && direction.z == 0,
    {
        Direction::new(0, -1, 0)
    }

    /// The vector whose three components are all `v`.
    #[inline]
    #[must_use]
    pub fn splat(v: i32) -> (direction: Direction)
        ensures
            direction == (Direction { x: v, y: v, z: v }),
    {
        Direction { x: v, y: v, z: v }
    }

    /// Creates a new direction.
    #[inline(always)]
    #[must_use]
    pub fn new(x: i32, y: i32, z: i32) -> (direction: Direction)
        ensures
            direction == (Direction { x, y, z }),
    {
        Direction { x, y, z }
    }

    /// One unit along the axis that `toward` names.
    #[inline(always)]
    #[must_use]
    pub fn from_toward(toward: &Toward) -> (direction: Direction)
        ensures
            direction == Direction::spec_from_toward(*toward),
    {
        match toward {
            Toward::Up => Direction::up(),
            Toward::Down => Direction::down(),
            Toward::Left => Direction::left(),
            Toward::Right => Direction::right(),
        }
    }

    /// The cardinal a strictly axial direction points along; `None` for the
    /// zero vector and for a diagonal.
    #[verifier::when_used_as_spec(spec_cardinal)]
    pub fn cardinal(&self) -> (heading: Option<Toward>)
        ensures
            heading == self.spec_cardinal(),
            heading is None <==> (self.x == 0 && self.y == 0) || (self.x != 0 && self.y != 0),
    {
        if self.y > 0 && self.x == 0 {
            Some(Toward::Up)
        } else if self.y < 0 && self.x == 0 {
            Some(Toward::Down)
        } else if self.y == 0 && self.x > 0 {
            Some(Toward::Right)
        } else if self.y == 0 && self.x < 0 {
            Some(Toward::Left)
        } else {
            None
        }
    }
}

impl Default for Direction {
    fn default() -> (direction: Direction)
        ensures
            direction == Direction::spec_zero(),
    {
        Direction::zero()
    }
}

/// The facing after one tick of the tracker: the heading of a strictly
/// cardinal direction, and the facing as it was for any other.
pub open spec fn facing_after(direction: Direction, toward: Toward) -> Toward {
    match direction.spec_cardinal() {
        Some(heading) => heading,
        None => toward,
    }
}

/// Whether the sprite is mirrored: exactly while the direction points left.
/// Nothing of an earlier tick enters.
pub open spec fn mirrored(direction: Direction) -> bool {
    direction.spec_cardinal() == Some(Toward::Left)
}

/// One tick of the facing tracker.
pub fn track_facing(direction: &Direction, toward: Toward) -> (next: Toward)
    ensures
        next == facing_after(*direction, toward),
{
    match direction.cardinal() {
        Some(heading) => heading,
        None => toward,
    }
}

/// The horizontal-flip hint for the sprite, recomputed from the direction
/// alone.
pub fn flip_hint(direction: &Direction) -> (flip_x: bool)
    ensures
        flip_x == mirrored(*direction),
        flip_x == (direction.y == 0 && direction.x < 0),
{
    direction.y == 0 && direction.x < 0
}

/// What the attacking state remembers: the facing at the moment the attack
/// began.
#[derive(Clone, Copy, Debug, PartialEq, Eq, Structural, Hash)]
pub struct Attack {
    pub toward: Toward,
}

/// The state of an actor. Each state carries its own data, so an attacking
/// actor has no direction that could drive it.
#[derive(Clone, Copy, Debug, PartialEq, Eq, Structural, Hash)]
pub enum ActorState {
    /// Moving or standing, with the intent of this tick.
    Locomotion(Direction),
    /// Locked in an attack until its clip has finished.
    Attacking(Attack),
}

impl ActorState {
    pub open spec fn spec_is_attacking(&self) -> bool {
        self is Attacking
    }

    /// The direction that drives the actor: the intent in locomotion, zero
    /// during an attack.
    pub open spec fn spec_direction(&self) -> Direction {
        match *self {
            ActorState::Locomotion(direction) => direction,
            ActorState::Attacking(_) => Direction::spec_zero(),
        }
    }

    /// Whether the actor is locked in an attack.
    #[verifier::when_used_as_spec(spec_is_attacking)]
    pub fn is_attacking(&self) -> (attacking: bool)
        ensures
            attacking == self.spec_is_attacking(),
    {
        match self {
            ActorState::Locomotion(_) => false,
            ActorState::Attacking(_) => true,
        }
    }

    /// The direction that drives the actor: the intent in locomotion, zero
    /// during an attack, so that a host which moves the actor by it keeps an
    /// attacking actor in place.
    #[verifier::when_used_as_spec(spec_direction)]
    pub fn direction(&self) -> (direction: Direction)
        ensures
            direction == self.spec_direction(),
            self is Attacking ==> direction == Direction::spec_zero(),
    {
        match self {
            ActorState::Locomotion(direction) => *direction,
            ActorState::Attacking(_) => Direction::zero(),
        }
    }
}

impl Default for ActorState {
    /// An actor starts in locomotion, standing still.
    fn default() -> (state: ActorState)
        ensures
            state == ActorState::Locomotion(Direction::spec_zero()),
    {
        ActorState::Locomotion(Direction::zero())
    }
}

} // verus!
