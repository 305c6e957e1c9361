//! The Gobloron boss: an eye that sweeps a laser and two nipples that fire
//! horizontal lasers, each with hit points, a damage cooldown and a
//! cool-down / warm-up / firing cycle. Positions, hitboxes and the eye's
//! angle are geometry and stay with the caller; the tick reports when the
//! angle moves.

use crate::chance::random_in;
use crate::event::EventType;
use vstd::prelude::*;

verus! {

/// Frames a part ignores further hits after one landed.
pub const DAMAGE_COOLDOWN: i32 = 10;
/// Frames between the end of the eye's warm-up and the next warm-up.
pub const EYE_MAX_FIRE_COOL: i32 = 500;
/// Frames the eye warms up before firing.
pub const EYE_MAX_WARMUP_DURATION: i32 = 300;
/// Unit of the eye's firing duration (one, two or three units).
pub const EYE_MAX_FIRE_DURATION: i32 = 150;
/// Hit points the eye starts with.
pub const EYE_START_HP: i32 = 50;
/// Cool-down a nipple starts from after firing.
pub const NIP_MAX_FIRE_COOL: i32 = 10000;
/// Frames a nipple warms up before firing.
pub const NIP_MAX_WARMUP_DURATION: i32 = 200;
/// Frames a nipple fires.
pub const NIP_MAX_FIRE_DURATION: i32 = 100;
/// Hit points a nipple starts with.
pub const NIP_START_HP: i32 = 20;
/// Largest random step by which a nipple's cool-down falls in one frame.
pub const NIP_MAX_COOL_STEP: i32 = 10;
/// A goblin is spat out when a draw from `0..=GOBLIN_ROLL_MAX` is below
/// `GOBLIN_ROLL_BELOW`.
pub const GOBLIN_ROLL_MAX: i32 = 1000;
/// See `GOBLIN_ROLL_MAX`.
pub const GOBLIN_ROLL_BELOW: i32 = 3;

/// The firing durations the eye can draw.
pub open spec fn is_eye_fire_duration(d: int) -> bool {
    d == EYE_MAX_FIRE_DURATION || d == 2 * EYE_MAX_FIRE_DURATION || d == 3
        * EYE_MAX_FIRE_DURATION
}

/// The eye's firing duration for a draw from `1..=3`.
pub open spec fn eye_fire_duration(roll: int) -> int {
    EYE_MAX_FIRE_DURATION * roll
}

/// Firing duration of the eye for the draw `roll` from `1..=3`.
pub fn fire_duration_for(roll: i32) -> (d: i32)
    requires
        1 <= roll <= 3,
    ensures
        d == eye_fire_duration(roll as int),
        is_eye_fire_duration(d as int),
{
    EYE_MAX_FIRE_DURATION * roll
}

/// A fresh firing duration for the eye: 150, 300 or 450 frames.
pub fn get_fire_duration() -> (d: i32)
    ensures
        is_eye_fire_duration(d as int),
{
    let roll = random_in(1, 3);
    fire_duration_for(roll)
}

/// A fresh target fire time for the eye, drawn from `0..300`.
pub fn get_target_firetime() -> (t: i32)
    ensures
        0 <= t < EYE_MAX_WARMUP_DURATION,
{
    random_in(0, EYE_MAX_WARMUP_DURATION - 1)
}

/// The eye of the boss.
#[derive(Clone, Copy, Debug, PartialEq, Eq)]
pub struct Eye {
    pub hp: i32,
    pub dead: bool,
    pub damage_cool: i32,
    pub fire_cool: i32,
    pub warmup_cool: i32,
    pub warming_up: bool,
    pub firing_duration: i32,
    pub firing: bool,
    pub target_firetime: i32,
}

/// What one frame of the eye produced.
#[derive(Clone, Copy, Debug, PartialEq, Eq)]
pub struct EyeReport {
    /// A laser started this frame, lasting the given number of frames; it
    /// sweeps from the angle the eye had before this frame.
    pub laser: Option<i32>,
    /// The sweep angle advanced by one step (wrapping past a half turn).
    pub angle_advanced: bool,
    /// The sweep angle went back to its start (a firing ended).
    pub angle_reset: bool,
}

impl Eye {
    /// The eye's invariant. Besides the ranges of its counters: it is dead
    /// exactly when its hit points are gone, it never warms up while it
    /// fires, and between firings its next firing lasts 150, 300 or 450 frames.
    pub open spec fn wf(&self) -> bool {
        &&& 0 <= self.damage_cool <= DAMAGE_COOLDOWN
        &&& 0 <= self.fire_cool <= EYE_MAX_FIRE_COOL
        &&& 0 <= self.warmup_cool <= EYE_MAX_WARMUP_DURATION
        &&& 0 <= self.firing_duration <= 3 * EYE_MAX_FIRE_DURATION
        &&& !self.firing ==> is_eye_fire_duration(self.firing_duration as int)
        &&& self.firing ==> !self.warming_up && self.fire_cool > self.firing_duration
        &&& 0 <= self.target_firetime < EYE_MAX_WARMUP_DURATION
        &&& self.dead <==> self.hp <= 0
    }

    /// The eye after a hit of `damage`.
    pub open spec fn hurt_spec(self, damage: int) -> Eye {
        if self.dead || self.damage_cool > 0 {
            self
        } else {
            Eye {
                hp: (self.hp - damage) as i32,
                damage_cool: DAMAGE_COOLDOWN,
                dead: self.hp - damage <= 0,
                ..self
            }
        }
    }

    /// Whether a frame ends a firing (and so draws a new firing duration).
    pub open spec fn ends_firing(self) -> bool {
        let firing = if self.warming_up && self.warmup_cool <= 0 {
            true
        } else {
            self.firing
        };
        !self.dead && firing && self.firing_duration <= 0
    }

    /// One frame of the eye; `roll` (from `1..=3`) sets the next firing
    /// duration when a firing ends.
    pub open spec fn tick(self, roll: int) -> (Eye, EyeReport) {
        if self.dead {
            (self, EyeReport { laser: None, angle_advanced: false, angle_reset: false })
        } else {
            let damage_cool = if self.damage_cool > 0 {
                self.damage_cool - 1
            } else {
                self.damage_cool as int
            };
            let warm_done = self.warming_up && self.warmup_cool <= 0;
            let warming_up = if self.warming_up {
                self.warmup_cool > 0
            } else {
                self.fire_cool <= 0
            };
            let warmup_cool = if self.warming_up {
                if self.warmup_cool > 0 {
                    self.warmup_cool - 1
                } else {
                    EYE_MAX_WARMUP_DURATION as int
                }
            } else {
                self.warmup_cool as int
            };
            let fire_cool = if self.warming_up {
                if self.warmup_cool > 0 {
                    self.fire_cool as int
                } else {
                    EYE_MAX_FIRE_COOL as int
                }
            } else if self.fire_cool > 0 {
                self.fire_cool - 1
            } else {
                self.fire_cool as int
            };
            let firing = warm_done || self.firing;
            let laser = if warm_done {
                Some(self.firing_duration)
            } else {
                None
            };
            let ends = firing && self.firing_duration <= 0;
            let firing_duration = if !firing {
                self.firing_duration as int
            } else if self.firing_duration > 0 {
                self.firing_duration - 1
            } else {
                eye_fire_duration(roll)
            };
            (
                Eye {
                    damage_cool: damage_cool as i32,
                    warming_up,
                    warmup_cool: warmup_cool as i32,
                    fire_cool: fire_cool as i32,
                    firing: firing && !ends,
                    firing_duration: firing_duration as i32,
                    ..self
                },
                EyeReport { laser, angle_advanced: firing, angle_reset: ends },
            )
        }
    }

    /// A fresh eye: full hit points, cooling down, with a random firing
    /// duration (150, 300 or 450) and a random target fire time below 300.
    pub fn new() -> (e: Eye)
        ensures
            e.wf(),
            e.hp == EYE_START_HP,
            !e.dead,
            e.damage_cool == DAMAGE_COOLDOWN,
            e.fire_cool == EYE_MAX_FIRE_COOL,
            e.warmup_cool == EYE_MAX_WARMUP_DURATION,
            !e.warming_up,
            !e.firing,
            is_eye_fire_duration(e.firing_duration as int),
            0 <= e.target_firetime < EYE_MAX_WARMUP_DURATION,
    {
        let firing_duration = get_fire_duration();
        let target_firetime = get_target_firetime();
        Eye {
            hp: EYE_START_HP,
            dead: false,
            damage_cool: DAMAGE_COOLDOWN,
            fire_cool: EYE_MAX_FIRE_COOL,
            warmup_cool: EYE_MAX_WARMUP_DURATION,
            warming_up: false,
            firing_duration,
            firing: false,
            target_firetime,
        }
    }

    /// Takes a hit of `damage` unless the eye is dead or still recovering
    /// from the last hit.
    pub fn hurt(&mut self, damage: i32)
        requires
            !old(self).dead && old(self).damage_cool <= 0 ==> i32::MIN <= old(self).hp - damage
                <= i32::MAX,
        ensures
            *final(self) == old(self).hurt_spec(damage as int),
            old(self).wf() && damage >= 0 ==> final(self).wf(),
    {
        if self.dead || self.damage_cool > 0 {
            return ;
        }
        self.hp = self.hp - damage;
        self.damage_cool = DAMAGE_COOLDOWN;
        if self.hp <= 0 {
            self.dead = true;
        }
    }

    /// Whether this frame will end a firing.
    pub fn ends_firing_now(&self) -> (b: bool)
        ensures
            b == self.ends_firing(),
    {
        let firing = if self.warming_up && self.warmup_cool <= 0 {
            true
        } else {
            self.firing
        };
        !self.dead && firing && self.firing_duration <= 0
    }

    /// One frame of the eye, with `roll` (from `1..=3`) choosing the next
    /// firing duration should a firing end.
    pub fn update_with_roll(&mut self, roll: i32) -> (r: EyeReport)
        requires
            old(self).wf(),
            1 <= roll <= 3,
        ensures
            (*final(self), r) == old(self).tick(roll as int),
            final(self).wf(),
    {
        let mut r_event: Option<i32> = None;
        let mut angle_advanced = false;
        let mut angle_reset = false;
        if self.dead {
            return EyeReport { laser: r_event, angle_advanced, angle_reset };
        }
        if self.damage_cool > 0 {
            self.damage_cool -= 1;
        }
        if self.warming_up {
            if self.warmup_cool > 0 {
                self.warmup_cool -= 1;
            } else {
                self.firing = true;
                self.warming_up = false;
                self.warmup_cool = EYE_MAX_WARMUP_DURATION;
                self.fire_cool = EYE_MAX_FIRE_COOL;
                r_event = Some(self.firing_duration);
            }
        } else {
            if self.fire_cool > 0 {
                self.fire_cool -= 1;
            } else {
                self.warming_up = true;
            }
        }
        if self.firing {
            angle_advanced = true;
            if self.firing_duration > 0 {
                self.firing_duration -= 1;
            } else {
                self.firing = false;
                self.firing_duration = fire_duration_for(roll);
                angle_reset = true;
            }
        }
        EyeReport { laser: r_event, angle_advanced, angle_reset }
    }

    /// One frame of the eye: cools down, warms up, starts a laser when the
    /// warm-up is over and sweeps it until the firing duration runs out,
    /// then draws the next firing duration at random.
    pub fn update(&mut self) -> (r: EyeReport)
        requires
            old(self).wf(),
        ensures
            exists|roll: int| 1 <= roll <= 3 && (*final(self), r) == #[trigger] old(self).tick(roll),
            final(self).wf(),
    {
        let roll = if self.ends_firing_now() {
            random_in(1, 3)
        } else {
            1
        };
        let r = self.update_with_roll(roll);
        assert(1 <= roll as int <= 3 && (*self, r) == old(self).tick(roll as int));
        r
    }
}


/// Which picture a boss part shows.
#[derive(Clone, Copy, Debug, PartialEq, Eq)]
pub enum PartLook {
    Dead,
    Damaged,
    Normal,
}

/// What to draw for a boss part in a frame.
#[derive(Clone, Copy, Debug, PartialEq, Eq)]
pub struct DrawPlan {
    /// The part's picture.
    pub look: PartLook,
    /// The warm-up marker (a dot on the eye, a thin line from a nipple).
    pub warmup_marker: bool,
    /// The laser beam.
    pub laser_beam: bool,
}

/// The drawing plan of a part in the given state.
pub open spec fn draw_plan(dead: bool, damage_cool: i32, warming_up: bool, firing: bool) -> DrawPlan {
    DrawPlan {
        look: if dead {
            PartLook::Dead
        } else if damage_cool > 0 {
            PartLook::Damaged
        } else {
            PartLook::Normal
        },
        warmup_marker: !dead && warming_up,
        laser_beam: !dead && firing,
    }
}

fn make_draw_plan(dead: bool, damage_cool: i32, warming_up: bool, firing: bool) -> (p: DrawPlan)
    ensures
        p == draw_plan(dead, damage_cool, warming_up, firing),
{
    let look = if dead {
        PartLook::Dead
    } else if damage_cool > 0 {
        PartLook::Damaged
    } else {
        PartLook::Normal
    };
    DrawPlan { look, warmup_marker: !dead && warming_up, laser_beam: !dead && firing }
}

impl Eye {
    /// What to draw for the eye: its picture, the warm-up dot while it warms
    /// up and the beam while it fires; nothing but the dead picture once dead.
    pub fn draw(&self) -> (p: DrawPlan)
        ensures
            p == draw_plan(self.dead, self.damage_cool, self.warming_up, self.firing),
    {
        make_draw_plan(self.dead, self.damage_cool, self.warming_up, self.firing)
    }
}

/// One of the boss's two nipples.
#[derive(Clone, Copy, Debug, PartialEq, Eq)]
pub struct Nip {
    pub hp: i32,
    pub dead: bool,
    pub damage_cool: i32,
    pub fire_cool: i32,
    pub warmup_cool: i32,
    pub warming_up: bool,
    pub firing_duration: i32,
    pub firing: bool,
    pub spawned_laser: bool,
}

impl Nip {
    /// The nipple's invariant: the ranges of its counters (the cool-down may
    /// overshoot below zero by less than one random step), and it is dead
    /// exactly when its hit points are gone.
    pub open spec fn wf(&self) -> bool {
        &&& 0 <= self.damage_cool <= DAMAGE_COOLDOWN
        &&& -NIP_MAX_COOL_STEP <= self.fire_cool <= NIP_MAX_FIRE_COOL
        &&& 0 <= self.warmup_cool <= NIP_MAX_WARMUP_DURATION
        &&& 0 <= self.firing_duration <= NIP_MAX_FIRE_DURATION
        &&& self.dead <==> self.hp <= 0
    }

    /// The nipple after a hit of `damage`.
    pub open spec fn hurt_spec(self, damage: int) -> Nip {
        if self.dead || self.damage_cool > 0 {
            self
        } else {
            Nip {
                hp: (self.hp - damage) as i32,
                damage_cool: DAMAGE_COOLDOWN,
                dead: self.hp - damage <= 0,
                ..self
            }
        }
    }

    /// Whether a frame draws a random cool-down step.
    pub open spec fn cools_down(self) -> bool {
        !self.dead && !self.warming_up && self.fire_cool > 0
    }

    /// One frame of the nipple; `roll` (from `0..=10`) is the cool-down step.
    pub open spec fn tick(self, roll: int) -> Nip {
        if self.dead {
            self
        } else {
            let damage_cool = if self.damage_cool > 0 {
                self.damage_cool - 1
            } else {
                self.damage_cool as int
            };
            let warm_done = self.warming_up && self.warmup_cool <= 0;
            let warming_up = if self.warming_up {
                self.warmup_cool > 0
            } else {
                self.fire_cool <= 0
            };
            let warmup_cool = if self.warming_up {
                if self.warmup_cool > 0 {
                    self.warmup_cool - 1
                } else {
                    NIP_MAX_WARMUP_DURATION as int
                }
            } else {
                self.warmup_cool as int
            };
            let fire_cool = if self.warming_up {
                if self.warmup_cool > 0 {
                    self.fire_cool as int
                } else {
                    NIP_MAX_FIRE_COOL as int
                }
            } else if self.fire_cool > 0 {
                self.fire_cool - roll
            } else {
                self.fire_cool as int
            };
            let firing = warm_done || self.firing;
            let ends = firing && self.firing_duration <= 0;
            let firing_duration = if !firing {
                self.firing_duration as int
            } else if self.firing_duration > 0 {
                self.firing_duration - 1
            } else {
                NIP_MAX_FIRE_DURATION as int
            };
            Nip {
                damage_cool: damage_cool as i32,
                warming_up,
                warmup_cool: warmup_cool as i32,
                fire_cool: fire_cool as i32,
                firing: firing && !ends,
                firing_duration: firing_duration as i32,
                spawned_laser: self.spawned_laser && !ends,
                ..self
            }
        }
    }

    /// A fresh nipple.
    pub open spec fn new_spec() -> Nip {
        Nip {
            hp: NIP_START_HP,
            dead: false,
            damage_cool: DAMAGE_COOLDOWN,
            fire_cool: NIP_MAX_FIRE_COOL,
            warmup_cool: NIP_MAX_WARMUP_DURATION,
            warming_up: false,
            firing_duration: NIP_MAX_FIRE_DURATION,
            firing: false,
            spawned_laser: false,
        }
    }

    /// A fresh nipple: full hit points, cooling down from the top.
    pub fn new() -> (n: Nip)
        ensures
            n.wf(),
            n == Nip::new_spec(),
    {
        Nip {
            hp: NIP_START_HP,
            dead: false,
            damage_cool: DAMAGE_COOLDOWN,
            fire_cool: NIP_MAX_FIRE_COOL,
            warmup_cool: NIP_MAX_WARMUP_DURATION,
            warming_up: false,
            firing_duration: NIP_MAX_FIRE_DURATION,
            firing: false,
            spawned_laser: false,
        }
    }

    /// Takes a hit of `damage` unless the nipple is dead or still recovering
    /// from the last hit.
    pub fn hurt(&mut self, damage: i32)
        requires
            !old(self).dead && old(self).damage_cool <= 0 ==> i32::MIN <= old(self).hp - damage
                <= i32::MAX,
        ensures
            *final(self) == old(self).hurt_spec(damage as int),
            old(self).wf() && damage >= 0 ==> final(self).wf(),
    {
        if self.dead || self.damage_cool > 0 {
            return ;
        }
        self.hp = self.hp - damage;
        self.damage_cool = DAMAGE_COOLDOWN;
        if self.hp <= 0 {
            self.dead = true;
        }
    }

    /// Whether this frame draws a random cool-down step.
    pub fn cools_down_now(&self) -> (b: bool)
        ensures
            b == self.cools_down(),
    {
        !self.dead && !self.warming_up && self.fire_cool > 0
    }

    /// One frame of the nipple, with `roll` (from `0..=10`) as the cool-down
    /// step.
    pub fn update_with_roll(&mut self, roll: i32)
        requires
            old(self).wf(),
            0 <= roll <= NIP_MAX_COOL_STEP,
        ensures
            *final(self) == old(self).tick(roll as int),
            final(self).wf(),
    {
        if self.dead {
            return ;
        }
        if self.damage_cool > 0 {
            self.damage_cool -= 1;
        }
        if self.warming_up {
            if self.warmup_cool > 0 {
                self.warmup_cool -= 1;
            } else {
                self.firing = true;
                self.warming_up = false;
                self.warmup_cool = NIP_MAX_WARMUP_DURATION;
                self.fire_cool = NIP_MAX_FIRE_COOL;
            }
        } else {
            if self.fire_cool > 0 {
                self.fire_cool -= roll;
            } else {
                self.warming_up = true;
            }
        }
        if self.firing {
            if self.firing_duration > 0 {
                self.firing_duration -= 1;
            } else {
                self.firing = false;
                self.spawned_laser = false;
                self.firing_duration = NIP_MAX_FIRE_DURATION;
            }
        }
    }

    /// One frame of the nipple: its cool-down falls by a random step from
    /// `0..=10`, then it warms up, fires for 100 frames and starts over.
    pub fn update(&mut self)
        requires
            old(self).wf(),
        ensures
            exists|roll: int|
                0 <= roll <= NIP_MAX_COOL_STEP && *final(self) == #[trigger] old(self).tick(roll),
            final(self).wf(),
    {
        let roll = if self.cools_down_now() {
            random_in(0, NIP_MAX_COOL_STEP)
        } else {
            0
        };
        self.update_with_roll(roll);
        assert(0 <= roll as int <= NIP_MAX_COOL_STEP && *self == old(self).tick(roll as int));
    }

    /// What to draw for the nipple.
    pub fn draw(&self) -> (p: DrawPlan)
        ensures
            p == draw_plan(self.dead, self.damage_cool, self.warming_up, self.firing),
    {
        make_draw_plan(self.dead, self.damage_cool, self.warming_up, self.firing)
    }
}


/// An event the boss raises in a frame. Positions are the caller's: the
/// eye's laser starts at the eye's firing point with the eye's current angle,
/// a nipple's laser starts at its firing point and runs left.
#[derive(Clone, Copy, Debug, PartialEq, Eq)]
pub enum BossEvent {
    EyeLaser { duration: i32 },
    LeftNipLaser { duration: i32 },
    RightNipLaser { duration: i32 },
    SpawnGoblin,
}

impl BossEvent {
    /// The kind of event this is.
    pub open spec fn kind_spec(self) -> EventType {
        match self {
            BossEvent::SpawnGoblin => EventType::SpawnGoblin,
            _ => EventType::Laser,
        }
    }

    /// The kind of event this is.
    pub fn kind(&self) -> (k: EventType)
        ensures
            k == self.kind_spec(),
    {
        match self {
            BossEvent::SpawnGoblin => EventType::SpawnGoblin,
            _ => EventType::Laser,
        }
    }
}

/// What one frame of the boss produced.
#[derive(Clone, Copy, Debug, PartialEq, Eq)]
pub struct BossReport {
    pub event: Option<BossEvent>,
    /// The eye's sweep angle advanced by one step.
    pub eye_angle_advanced: bool,
    /// The eye's sweep angle went back to its start.
    pub eye_angle_reset: bool,
}

/// The boss: its eye, its two nipples and whether it is defeated.
#[derive(Clone, Copy, Debug, PartialEq, Eq)]
pub struct GobloronBoss {
    pub eye: Eye,
    pub left_nip: Nip,
    pub right_nip: Nip,
    pub dead: bool,
}

/// A nipple's laser (the left one's when `left`), if it fires in a frame
/// in which `prev` was raised so far, and the nipple after that.
pub open spec fn nip_laser(n: Nip, prev: Option<BossEvent>, left: bool) -> (Nip, Option<BossEvent>) {
    if !n.spawned_laser && n.firing && prev is None {
        (
            Nip { spawned_laser: true, ..n },
            Some(
                if left {
                    BossEvent::LeftNipLaser { duration: n.firing_duration }
                } else {
                    BossEvent::RightNipLaser { duration: n.firing_duration }
                },
            ),
        )
    } else {
        (n, prev)
    }
}

impl GobloronBoss {
    /// The boss's invariant: its parts' invariants, hit points between zero
    /// and the start value, and a defeated boss has no living part.
    pub open spec fn wf(&self) -> bool {
        &&& self.eye.wf()
        &&& self.left_nip.wf()
        &&& self.right_nip.wf()
        &&& 0 <= self.eye.hp <= EYE_START_HP
        &&& 0 <= self.left_nip.hp <= NIP_START_HP
        &&& 0 <= self.right_nip.hp <= NIP_START_HP
        &&& self.dead ==> self.eye.dead && self.left_nip.dead && self.right_nip.dead
    }

    /// One frame of the parts, before the goblin draw: the eye, then the left
    /// nipple (whose cool-down falls by one more), then the right nipple; a
    /// nipple's laser is raised only when nothing was raised before it.
    pub open spec fn parts_tick(self, er: int, lr: int, rr: int) -> (GobloronBoss, BossReport) {
        let (eye, erep) = self.eye.tick(er);
        let e0 = match erep.laser {
            Some(d) => Some(BossEvent::EyeLaser { duration: d }),
            None => None,
        };
        let l1 = self.left_nip.tick(lr);
        let l2 = if l1.fire_cool > 0 {
            Nip { fire_cool: (l1.fire_cool - 1) as i32, ..l1 }
        } else {
            l1
        };
        let (l3, e1) = nip_laser(l2, e0, true);
        let r1 = self.right_nip.tick(rr);
        let (r2, e2) = nip_laser(r1, e1, false);
        (
            GobloronBoss { eye, left_nip: l3, right_nip: r2, dead: self.dead },
            BossReport {
                event: e2,
                eye_angle_advanced: erep.angle_advanced,
                eye_angle_reset: erep.angle_reset,
            },
        )
    }

    /// One frame of the boss with its random draws given: `er` from `1..=3`
    /// for the eye, `lr` and `rr` from `0..=10` for the nipples and `gr` from
    /// `0..=1000` for spitting a goblin.
    pub open spec fn tick(self, er: int, lr: int, rr: int, gr: int) -> (GobloronBoss, BossReport) {
        if self.dead {
            (self, BossReport { event: None, eye_angle_advanced: false, eye_angle_reset: false })
        } else {
            let (b, rep) = self.parts_tick(er, lr, rr);
            let event = if rep.event is None && gr < GOBLIN_ROLL_BELOW {
                Some(BossEvent::SpawnGoblin)
            } else {
                rep.event
            };
            (
                GobloronBoss { dead: b.eye.dead && b.left_nip.dead && b.right_nip.dead, ..b },
                BossReport { event, ..rep },
            )
        }
    }

    /// The boss after an event: a damage rectangle hurts the first of the
    /// eye, the right nipple and the left nipple that it overlaps (`eye_hit`,
    /// `right_hit`, `left_hit`) by one hit point; nothing else touches it.
    pub open spec fn react(self, event: EventType, eye_hit: bool, right_hit: bool, left_hit: bool) -> GobloronBoss {
        if event == EventType::Damage {
            if eye_hit {
                GobloronBoss { eye: self.eye.hurt_spec(1), ..self }
            } else if right_hit {
                GobloronBoss { right_nip: self.right_nip.hurt_spec(1), ..self }
            } else if left_hit {
                GobloronBoss { left_nip: self.left_nip.hurt_spec(1), ..self }
            } else {
                self
            }
        } else {
            self
        }
    }

    /// A fresh boss with fresh parts.
    pub fn new() -> (b: GobloronBoss)
        ensures
            b.wf(),
            !b.dead,
            b.eye.hp == EYE_START_HP,
            !b.eye.firing && !b.eye.warming_up,
            b.left_nip == Nip::new_spec(),
            b.right_nip == Nip::new_spec(),
    {
        GobloronBoss { eye: Eye::new(), left_nip: Nip::new(), right_nip: Nip::new(), dead: false }
    }

    fn step_parts(&mut self, er: i32, lr: i32, rr: i32) -> (r: BossReport)
        requires
            old(self).wf(),
            !old(self).dead,
            1 <= er <= 3,
            0 <= lr <= NIP_MAX_COOL_STEP,
            0 <= rr <= NIP_MAX_COOL_STEP,
        ensures
            (*final(self), r) == old(self).parts_tick(er as int, lr as int, rr as int),
    {
        let erep = self.eye.update_with_roll(er);
        let mut e_result: Option<BossEvent> = match erep.laser {
            Some(d) => Some(BossEvent::EyeLaser { duration: d }),
            None => None,
        };
        self.left_nip.update_with_roll(lr);
        if self.left_nip.fire_cool > 0 {
            self.left_nip.fire_cool -= 1;
        }
        if !self.left_nip.spawned_laser && self.left_nip.firing && e_result.is_none() {
            e_result = Some(BossEvent::LeftNipLaser { duration: self.left_nip.firing_duration });
            self.left_nip.spawned_laser = true;
        }
        self.right_nip.update_with_roll(rr);
        if !self.right_nip.spawned_laser && self.right_nip.firing && e_result.is_none() {
            e_result = Some(BossEvent::RightNipLaser { duration: self.right_nip.firing_duration });
            self.right_nip.spawned_laser = true;
        }
        BossReport {
            event: e_result,
            eye_angle_advanced: erep.angle_advanced,
            eye_angle_reset: erep.angle_reset,
        }
    }

    /// One frame of the boss with its random draws given (see `tick`).
    pub fn update_with_rolls(&mut self, er: i32, lr: i32, rr: i32, gr: i32) -> (r: BossReport)
        requires
            old(self).wf(),
            1 <= er <= 3,
            0 <= lr <= NIP_MAX_COOL_STEP,
            0 <= rr <= NIP_MAX_COOL_STEP,
            0 <= gr <= GOBLIN_ROLL_MAX,
        ensures
            (*final(self), r) == old(self).tick(er as int, lr as int, rr as int, gr as int),
            final(self).wf(),
            final(self).dead <==> final(self).eye.dead && final(self).left_nip.dead
                && final(self).right_nip.dead,
    {
        if self.dead {
            return BossReport { event: None, eye_angle_advanced: false, eye_angle_reset: false };
        }
        let mut rep = self.step_parts(er, lr, rr);
        if rep.event.is_none() {
            if gr < GOBLIN_ROLL_BELOW {
                rep.event = Some(BossEvent::SpawnGoblin);
            }
        }
        if self.eye.dead && self.left_nip.dead && self.right_nip.dead {
            self.dead = true;
        }
        rep
    }

    /// One frame of the boss: the eye and the nipples run their cycles, the
    /// first laser to start is raised, and when no laser started the boss
    /// spits out a goblin with chance 3 in 1001. Once all three parts are
    /// dead, the boss is defeated and stays still.
    pub fn update(&mut self) -> (r: BossReport)
        requires
            old(self).wf(),
        ensures
            exists|er: int, lr: int, rr: int, gr: int|
                1 <= er <= 3 && 0 <= lr <= NIP_MAX_COOL_STEP && 0 <= rr <= NIP_MAX_COOL_STEP && 0
                    <= gr <= GOBLIN_ROLL_MAX && (*final(self), r) == #[trigger] old(self).tick(
                    er,
                    lr,
                    rr,
                    gr,
                ),
            final(self).wf(),
            final(self).dead <==> final(self).eye.dead && final(self).left_nip.dead
                && final(self).right_nip.dead,
    {
        if self.dead {
            let r = BossReport { event: None, eye_angle_advanced: false, eye_angle_reset: false };
            assert((*self, r) == old(self).tick(1, 0, 0, 0));
            return r;
        }
        let er = if self.eye.ends_firing_now() {
            random_in(1, 3)
        } else {
            1
        };
        let lr = if self.left_nip.cools_down_now() {
            random_in(0, NIP_MAX_COOL_STEP)
        } else {
            0
        };
        let rr = if self.right_nip.cools_down_now() {
            random_in(0, NIP_MAX_COOL_STEP)
        } else {
            0
        };
        let mut rep = self.step_parts(er, lr, rr);
        let mut gr: i32 = GOBLIN_ROLL_MAX;
        if rep.event.is_none() {
            gr = random_in(0, GOBLIN_ROLL_MAX);
            if gr < GOBLIN_ROLL_BELOW {
                rep.event = Some(BossEvent::SpawnGoblin);
            }
        }
        if self.eye.dead && self.left_nip.dead && self.right_nip.dead {
            self.dead = true;
        }
        assert((*self, rep) == old(self).tick(er as int, lr as int, rr as int, gr as int));
        rep
    }

    /// Lets the boss react to an event: a damage rectangle hurts the first of
    /// the eye, the right nipple and the left nipple that it overlaps, by one
    /// hit point. `eye_hit`, `right_hit` and `left_hit` say whether the
    /// event's rectangle overlaps each part's hitbox.
    pub fn give_event(&mut self, event: EventType, eye_hit: bool, right_hit: bool, left_hit: bool)
        requires
            old(self).wf(),
        ensures
            final(self).wf(),
            *final(self) == old(self).react(event, eye_hit, right_hit, left_hit),
    {
        match event {
            EventType::Damage => {
                if eye_hit {
                    self.eye.hurt(1);
                } else if right_hit {
                    self.right_nip.hurt(1);
                } else if left_hit {
                    self.left_nip.hurt(1);
                }
            },
            _ => {},
        }
    }

    /// The boss's remaining hit points: the sum over its three parts.
    pub fn get_hp(&self) -> (hp: i32)
        requires
            i32::MIN <= self.eye.hp + self.left_nip.hp <= i32::MAX,
            i32::MIN <= self.eye.hp + self.left_nip.hp + self.right_nip.hp <= i32::MAX,
        ensures
            hp == self.eye.hp + self.left_nip.hp + self.right_nip.hp,
    {
        self.eye.hp + self.left_nip.hp + self.right_nip.hp
    }

    /// Whether the boss is defeated.
    pub fn get_dead(&self) -> (d: bool)
        ensures
            d == self.dead,
    {
        self.dead
    }

    /// What to draw for the eye, the left nipple and the right nipple.
    pub fn draw(&self) -> (p: (DrawPlan, DrawPlan, DrawPlan))
        ensures
            p.0 == draw_plan(self.eye.dead, self.eye.damage_cool, self.eye.warming_up, self.eye.firing),
            p.1 == draw_plan(self.left_nip.dead, self.left_nip.damage_cool, self.left_nip.warming_up, self.left_nip.firing),
            p.2 == draw_plan(self.right_nip.dead, self.right_nip.damage_cool, self.right_nip.warming_up, self.right_nip.firing),
    {
        (self.eye.draw(), self.left_nip.draw(), self.right_nip.draw())
    }
}

/// A nipple that has raised its laser does not raise another until its
/// firing has ended: in any frame that starts with the left nipple's laser
/// raised, the boss raises no left-nipple laser.
pub proof fn lemma_nip_laser_once_per_firing(b: GobloronBoss, er: int, lr: int, rr: int, gr: int)
    requires
        b.wf(),
        b.left_nip.spawned_laser,
    ensures
        !(b.tick(er, lr, rr, gr).1.event matches Some(BossEvent::LeftNipLaser { .. })),
{
}

/// A hit lands only when the part is alive and its damage cooldown has run
/// out: while the cooldown runs, a hit changes nothing.
pub proof fn lemma_hit_needs_cooldown(e: Eye, n: Nip, damage: int)
    requires
        e.damage_cool > 0,
        n.damage_cool > 0,
    ensures
        e.hurt_spec(damage) == e,
        n.hurt_spec(damage) == n,
{
}

/// The boss never heals and a fallen part stays down: a frame leaves every
/// part's hit points as they were and keeps dead parts dead (a defeated boss
/// does nothing at all), and an event takes at most one hit point from one
/// part, never raising any, again keeping dead parts dead.
pub proof fn lemma_boss_never_heals(
    b: GobloronBoss,
    er: int,
    lr: int,
    rr: int,
    gr: int,
    event: EventType,
    eye_hit: bool,
    right_hit: bool,
    left_hit: bool,
)
    requires
        b.wf(),
    ensures
        b.tick(er, lr, rr, gr).0.eye.hp == b.eye.hp,
        b.tick(er, lr, rr, gr).0.left_nip.hp == b.left_nip.hp,
        b.tick(er, lr, rr, gr).0.right_nip.hp == b.right_nip.hp,
        b.eye.dead ==> b.tick(er, lr, rr, gr).0.eye.dead,
        b.left_nip.dead ==> b.tick(er, lr, rr, gr).0.left_nip.dead,
        b.right_nip.dead ==> b.tick(er, lr, rr, gr).0.right_nip.dead,
        b.dead ==> b.tick(er, lr, rr, gr) == (
            b,
            BossReport { event: None, eye_angle_advanced: false, eye_angle_reset: false },
        ),
        b.react(event, eye_hit, right_hit, left_hit).eye.hp <= b.eye.hp,
        b.react(event, eye_hit, right_hit, left_hit).left_nip.hp <= b.left_nip.hp,
        b.react(event, eye_hit, right_hit, left_hit).right_nip.hp <= b.right_nip.hp,
        b.eye.hp + b.left_nip.hp + b.right_nip.hp - 1 <= b.react(event, eye_hit, right_hit, left_hit).eye.hp
            + b.react(event, eye_hit, right_hit, left_hit).left_nip.hp + b.react(
            event,
            eye_hit,
            right_hit,
            left_hit,
        ).right_nip.hp,
        b.eye.dead ==> b.react(event, eye_hit, right_hit, left_hit).eye.dead,
        b.left_nip.dead ==> b.react(event, eye_hit, right_hit, left_hit).left_nip.dead,
        b.right_nip.dead ==> b.react(event, eye_hit, right_hit, left_hit).right_nip.dead,
{
}

/// Every laser of the eye lasts one of the drawn firing durations: 150, 300
/// or 450 frames.
pub proof fn lemma_eye_laser_durations(b: GobloronBoss, er: int, lr: int, rr: int, gr: int)
    requires
        b.wf(),
    ensures
        b.eye.tick(er).1.laser matches Some(d) ==> is_eye_fire_duration(d as int),
        b.tick(er, lr, rr, gr).1.event matches Some(BossEvent::EyeLaser { duration }) ==> is_eye_fire_duration(
            duration as int,
        ),
{
}

/// A nipple after one frame per roll in `rolls`.
pub open spec fn nip_run(n: Nip, rolls: Seq<int>) -> Nip
    decreases rolls.len(),
{
    if rolls.len() == 0 {
        n
    } else {
        nip_run(n.tick(rolls[0]), rolls.drop_first())
    }
}

/// A living nipple's warm-up counts down by one each frame, whatever the
/// roll; the frame after it reaches zero the nipple stops warming up and
/// fires. So a nipple warming up with `k` frames left (and a firing
/// duration to spend) fires after `k + 1` frames.
pub proof fn lemma_nip_warms_up_then_fires(n: Nip, roll: int, rolls: Seq<int>)
    requires
        n.wf(),
        !n.dead,
        n.warming_up,
    ensures
        n.warmup_cool > 0 ==> n.tick(roll).warming_up && n.tick(roll).warmup_cool == n.warmup_cool - 1
            && n.tick(roll).fire_cool == n.fire_cool && (!n.firing ==> !n.tick(roll).firing && n.tick(
            roll,
        ).firing_duration == n.firing_duration),
        n.warmup_cool == 0 && n.firing_duration > 0 ==> n.tick(roll).firing && !n.tick(roll).warming_up
            && n.tick(roll).firing_duration == n.firing_duration - 1,
        !n.firing && n.firing_duration > 0 && rolls.len() == n.warmup_cool + 1 ==> nip_run(n, rolls).firing
            && !nip_run(n, rolls).warming_up,
    decreases rolls.len(),
{
    if !n.firing && n.firing_duration > 0 && rolls.len() == n.warmup_cool + 1 && n.warmup_cool > 0 {
        let n2 = n.tick(rolls[0]);
        lemma_nip_warms_up_then_fires(n2, roll, rolls.drop_first());
    } else if !n.firing && n.firing_duration > 0 && rolls.len() == n.warmup_cool + 1 {
        assert(nip_run(n.tick(rolls[0]), rolls.drop_first()) == n.tick(rolls[0]));
        assert(nip_run(n, rolls) == n.tick(rolls[0]));
    }
}

/// When the left nipple ends its warm-up in a frame in which the eye starts
/// no laser, the boss raises the left nipple's laser, lasting what is left
/// of the nipple's firing duration, and the nipple fires.
pub proof fn lemma_left_nip_laser_when_firing_starts(b: GobloronBoss, er: int, lr: int, rr: int, gr: int)
    requires
        b.wf(),
        !b.dead,
        !b.left_nip.dead,
        b.left_nip.warming_up,
        b.left_nip.warmup_cool == 0,
        b.left_nip.firing_duration > 0,
        !b.left_nip.spawned_laser,
        b.eye.tick(er).1.laser is None,
    ensures
        b.tick(er, lr, rr, gr).1.event == Some(
            (BossEvent::LeftNipLaser { duration: (b.left_nip.firing_duration - 1) as i32 }),
        ),
        b.tick(er, lr, rr, gr).0.left_nip.firing,
        !b.tick(er, lr, rr, gr).0.left_nip.warming_up,
{
    lemma_nip_warms_up_then_fires(b.left_nip, lr, seq![]);
}

} // verus!
