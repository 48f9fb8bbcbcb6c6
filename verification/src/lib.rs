//! The behaviour core of a controllable character.
//!
//! Each tick an actor goes through three stages, in this order:
//!
//! 1. the state machine ([`state_machine`]) moves between locomotion and
//!    attacking, from the attack button's edge and from the animation player's
//!    finish events;
//! 2. the facing tracker ([`characters::state`]) updates the last cardinal
//!    orientation from the movement intent;
//! 3. the animation selector ([`characters::player`]) picks the clip to play.
//!
//! The clips themselves are registered once per archetype
//! ([`characters::clips`]) and shared read-only afterwards.
//!
//! Everything here works on plain values. Rendering, physics, input devices
//! and the animation player belong to the host.

pub mod characters;
pub mod guarantees;
pub mod state_machine;
