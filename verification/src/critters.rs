//! The goblin's and the soap bottle's own state: whether they are gone and,
//! for the goblin, whether it chases the player. Positions and the chase
//! target's coordinates stay with the caller.

use crate::chance::random_in;
use crate::event::EventType;
use vstd::prelude::*;

verus! {

/// A chasing goblin jumps when a draw from `0..=JUMP_ROLL_MAX` is below
/// `JUMP_ROLL_BELOW` (and it stands on ground).
pub const JUMP_ROLL_MAX: i32 = 50;
/// See `JUMP_ROLL_MAX`.
pub const JUMP_ROLL_BELOW: i32 = 3;

/// Whether a goblin jumps: it chases, the roll from `0..=50` is below 3,
/// and it stands on ground.
pub open spec fn jumps(chasing: bool, roll: int, grounded: bool) -> bool {
    chasing && roll < JUMP_ROLL_BELOW && grounded
}

/// A goblin.
#[derive(Clone, Copy, Debug, PartialEq, Eq)]
pub struct Enemy {
    pub dead: bool,
    /// Whether it chases a spotted player position.
    pub has_target: bool,
}

impl Enemy {
    /// A fresh goblin, alive and idle.
    pub fn new() -> (e: Enemy)
        ensures
            e == (Enemy { dead: false, has_target: false }),
    {
        Enemy { dead: false, has_target: false }
    }

    /// The goblin's decisions in a frame, with `roll` from `0..=50`: a
    /// chasing goblin standing on ground jumps when the roll is below 3, and
    /// gives up the chase once the target is beyond its detection radius.
    /// Returns whether it jumps.
    pub fn update_with_roll(&mut self, target_far: bool, grounded: bool, roll: i32) -> (jump: bool)
        ensures
            jump == (old(self).has_target && roll < JUMP_ROLL_BELOW && grounded),
            *final(self) == (Enemy {
                has_target: old(self).has_target && !target_far,
                ..*old(self)
            }),
    {
        let mut jump = false;
        if self.has_target {
            if roll < JUMP_ROLL_BELOW && grounded {
                jump = true;
            }
            if target_far {
                self.has_target = false;
            }
        }
        jump
    }

    /// The goblin's decisions in a frame (see `update_with_roll`), drawing
    /// the jump roll at random while it chases. `target_far` says whether the
    /// target lies beyond the detection radius after this frame's step.
    pub fn update(&mut self, target_far: bool, grounded: bool) -> (jump: bool)
        ensures
            jump ==> old(self).has_target && grounded,
            exists|roll: int|
                0 <= roll <= JUMP_ROLL_MAX && jump == #[trigger] jumps(old(self).has_target, roll, grounded),
            *final(self) == (Enemy {
                has_target: old(self).has_target && !target_far,
                ..*old(self)
            }),
    {
        let roll = if self.has_target {
            random_in(0, JUMP_ROLL_MAX)
        } else {
            JUMP_ROLL_MAX
        };
        let jump = self.update_with_roll(target_far, grounded, roll);
        assert(jump == jumps(old(self).has_target, roll as int, grounded));
        jump
    }

    /// The goblin's reaction to an event: damage overlapping its hitbox
    /// (`overlaps`) kills it; a player sighting within its detection radius
    /// (`near`) makes it chase that position. Returns whether the caller
    /// should take the event's position as the new target.
    pub fn give_event(&mut self, event: EventType, overlaps: bool, near: bool) -> (retarget: bool)
        ensures
            retarget == (event == EventType::PlayerSpotted && near),
            *final(self) == (Enemy {
                dead: old(self).dead || (event == EventType::Damage && overlaps),
                has_target: old(self).has_target || (event == EventType::PlayerSpotted && near),
            }),
    {
        match event {
            EventType::Damage => {
                if overlaps {
                    self.dead = true;
                }
                false
            },
            EventType::PlayerSpotted => {
                if near {
                    self.has_target = true;
                    true
                } else {
                    false
                }
            },
            _ => false,
        }
    }

    /// A goblin has one hit point.
    pub fn get_hp(&self) -> (hp: i32)
        ensures
            hp == 1,
    {
        1
    }
}

/// A bottle of soap.
#[derive(Clone, Copy, Debug, PartialEq, Eq)]
pub struct Dawn {
    pub dead: bool,
}

impl Dawn {
    /// A bottle lying around.
    pub fn new() -> (d: Dawn)
        ensures
            !d.dead,
    {
        Dawn { dead: false }
    }

    /// A pickup whose point lies in the bottle's hitbox (`contains`) takes
    /// the bottle away; nothing else touches it.
    pub fn give_event(&mut self, event: EventType, contains: bool)
        ensures
            final(self).dead == (old(self).dead || (event == EventType::Pickup && contains)),
    {
        match event {
            EventType::Pickup => {
                if contains {
                    self.dead = true;
                }
            },
            _ => {},
        }
    }
}

} // verus!
