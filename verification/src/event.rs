//! The kinds of events that entities raise during a frame. The payloads
//! (positions, rectangles, angles) are geometry and travel beside the kind,
//! with the caller.

use vstd::prelude::*;

verus! {

/// What an event is about; see the per-frame dispatch in `frame`.
#[derive(Clone, Copy, PartialEq, Eq, Structural, Debug)]
pub enum EventType {
    /// The player touched a bottle of soap (carries the player's center).
    Pickup,
    /// A damage rectangle was placed (a fart hit, a laser hit).
    Damage,
    /// The player asked for a fart projectile.
    SpawnFart,
    /// Something touched the player.
    KillPlayer,
    /// A boss part started a laser.
    Laser,
    /// A goblin saw the player (carries the player's position).
    PlayerSpotted,
    /// The boss spits a goblin out of its mouth.
    SpawnGoblin,
    /// The level's goal was reached.
    Win,
    /// The player picked up health.
    HpGrab,
}

} // verus!
