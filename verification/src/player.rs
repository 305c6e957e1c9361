//! The player's meters (health, fart power and their cooldowns) and the
//! lifetimes of the two projectiles, the fart cloud and the laser. Movement,
//! facing and hitboxes are geometry and stay with the caller.

use crate::event::EventType;
use vstd::prelude::*;

verus! {

/// The player's full health.
pub const PLAYER_MAX_HP: i32 = 100;
/// The player's full fart power.
pub const MAX_FART_POWER: i32 = 100;
/// Fart power one fart costs.
pub const FART_COST: i32 = 10;
/// Frames after a fart before fart power regenerates.
pub const FART_RESET: i32 = 90;
/// Health one hit takes.
pub const HIT_DAMAGE: i32 = 10;
/// Frames the player ignores further hits after one landed.
pub const DAMMIT_COOLDOWN: i32 = 20;
/// Health one health pickup gives.
pub const HP_GRAB_AMOUNT: i32 = 20;
/// Frames before another health pickup counts.
pub const HP_GRAB_COOLDOWN: i32 = 10;
/// Frames a fart cloud lives.
pub const FART_LIFETIME: i32 = 50;

/// A sound the player makes in reaction to an event.
#[derive(Clone, Copy, Debug, PartialEq, Eq)]
pub enum PlayerSound {
    /// A hit landed (played at full volume).
    Ow,
    /// Health was picked up (played at 0.3 volume).
    Hp,
}

/// The player's meters.
#[derive(Clone, Copy, Debug, PartialEq, Eq)]
pub struct Player {
    pub dead: bool,
    /// Health.
    pub lovecraft: i32,
    pub dammit_cooldown: i32,
    pub lovecraft_cooldown: i32,
    pub fart_power: i32,
    pub fart_cooldown: i32,
}

impl Player {
    /// The meters' ranges.
    pub open spec fn wf(&self) -> bool {
        &&& self.lovecraft <= PLAYER_MAX_HP
        &&& 0 <= self.dammit_cooldown <= DAMMIT_COOLDOWN
        &&& 0 <= self.lovecraft_cooldown <= HP_GRAB_COOLDOWN
        &&& 0 <= self.fart_power <= MAX_FART_POWER
        &&& 0 <= self.fart_cooldown <= FART_RESET
    }

    /// One frame of the player's meters: `on_kill_trigger` says whether the
    /// hitbox overlaps a kill trigger, `fire_pressed` whether the fire button
    /// was pressed. The second component says whether a fart is spawned.
    pub open spec fn tick(self, on_kill_trigger: bool, fire_pressed: bool) -> (Player, bool) {
        let fart = fire_pressed && self.fart_power > 0;
        let power1 = if fart {
            if self.fart_power - FART_COST < 0 {
                0
            } else {
                self.fart_power - FART_COST
            }
        } else {
            self.fart_power as int
        };
        let cool1 = if fart {
            FART_RESET as int
        } else {
            self.fart_cooldown as int
        };
        let cool2 = if cool1 > 0 {
            cool1 - 1
        } else {
            cool1
        };
        let power2 = if cool2 == 0 && power1 < MAX_FART_POWER {
            power1 + 1
        } else {
            power1
        };
        (
            Player {
                dead: self.dead || on_kill_trigger,
                fart_power: power2 as i32,
                fart_cooldown: cool2 as i32,
                lovecraft_cooldown: (if self.lovecraft_cooldown > 0 {
                    self.lovecraft_cooldown - 1
                } else {
                    self.lovecraft_cooldown as int
                }) as i32,
                dammit_cooldown: (if self.dammit_cooldown > 0 {
                    self.dammit_cooldown - 1
                } else {
                    self.dammit_cooldown as int
                }) as i32,
                ..self
            },
            fart,
        )
    }

    /// The player's reaction to an event: a hit takes 10 health unless one
    /// landed in the last 20 frames, and kills at below 1 health; a health
    /// pickup gives 20 (up to 100) unless one counted in the last 10 frames.
    pub open spec fn react(self, event: EventType) -> (Player, Option<PlayerSound>) {
        match event {
            EventType::KillPlayer => {
                let lands = self.dammit_cooldown == 0;
                let lovecraft = if lands {
                    self.lovecraft - HIT_DAMAGE
                } else {
                    self.lovecraft as int
                };
                (
                    Player {
                        lovecraft: lovecraft as i32,
                        dammit_cooldown: if lands {
                            DAMMIT_COOLDOWN
                        } else {
                            self.dammit_cooldown
                        },
                        dead: self.dead || lovecraft < 1,
                        ..self
                    },
                    if lands {
                        Some(PlayerSound::Ow)
                    } else {
                        None
                    },
                )
            },
            EventType::HpGrab => {
                if self.lovecraft_cooldown == 0 {
                    (
                        Player {
                            lovecraft: (if self.lovecraft + HP_GRAB_AMOUNT > PLAYER_MAX_HP {
                                PLAYER_MAX_HP as int
                            } else {
                                self.lovecraft + HP_GRAB_AMOUNT
                            }) as i32,
                            lovecraft_cooldown: HP_GRAB_COOLDOWN,
                            ..self
                        },
                        Some(PlayerSound::Hp),
                    )
                } else {
                    (self, None)
                }
            },
            _ => (self, None),
        }
    }

    /// A fresh player: alive, full health and full fart power, no cooldowns.
    pub fn new() -> (p: Player)
        ensures
            p.wf(),
            p == (Player {
                dead: false,
                lovecraft: PLAYER_MAX_HP,
                dammit_cooldown: 0,
                lovecraft_cooldown: 0,
                fart_power: MAX_FART_POWER,
                fart_cooldown: 0,
            }),
    {
        Player {
            dead: false,
            lovecraft: PLAYER_MAX_HP,
            dammit_cooldown: 0,
            lovecraft_cooldown: 0,
            fart_power: MAX_FART_POWER,
            fart_cooldown: 0,
        }
    }

    /// One frame of the player's meters (see `tick`); returns whether a fart
    /// is spawned.
    pub fn update(&mut self, on_kill_trigger: bool, fire_pressed: bool) -> (fart: bool)
        requires
            old(self).wf(),
        ensures
            (*final(self), fart) == old(self).tick(on_kill_trigger, fire_pressed),
            final(self).wf(),
    {
        let mut fart = false;
        if on_kill_trigger {
            self.dead = true;
        }
        if fire_pressed {
            if self.fart_power > 0 {
                fart = true;
                self.fart_power -= FART_COST;
                self.fart_cooldown = FART_RESET;
                if self.fart_power < 0 {
                    self.fart_power = 0;
                }
            }
        }
        if self.fart_cooldown > 0 {
            self.fart_cooldown -= 1;
        }
        if self.fart_cooldown == 0 && self.fart_power < MAX_FART_POWER {
            self.fart_power += 1;
        }
        if self.lovecraft_cooldown > 0 {
            self.lovecraft_cooldown -= 1;
        }
        if self.dammit_cooldown > 0 {
            self.dammit_cooldown -= 1;
        }
        fart
    }

    /// The player's reaction to an event (see `react`); returns the sound to
    /// play, if any.
    pub fn give_event(&mut self, event: EventType) -> (s: Option<PlayerSound>)
        requires
            old(self).wf(),
            event == EventType::KillPlayer && old(self).dammit_cooldown == 0 ==> old(self).lovecraft
                - HIT_DAMAGE >= i32::MIN,
        ensures
            (*final(self), s) == old(self).react(event),
            final(self).wf(),
    {
        match event {
            EventType::KillPlayer => {
                let mut sound = None;
                if self.dammit_cooldown == 0 {
                    sound = Some(PlayerSound::Ow);
                    self.lovecraft -= HIT_DAMAGE;
                    self.dammit_cooldown = DAMMIT_COOLDOWN;
                }
                if self.lovecraft < 1 {
                    self.dead = true;
                }
                sound
            },
            EventType::HpGrab => {
                if self.lovecraft_cooldown == 0 {
                    self.lovecraft += HP_GRAB_AMOUNT;
                    if self.lovecraft > PLAYER_MAX_HP {
                        self.lovecraft = PLAYER_MAX_HP;
                    }
                    self.lovecraft_cooldown = HP_GRAB_COOLDOWN;
                    Some(PlayerSound::Hp)
                } else {
                    None
                }
            },
            _ => None,
        }
    }

    /// The player's health.
    pub fn get_hp(&self) -> (hp: i32)
        ensures
            hp == self.lovecraft,
    {
        self.lovecraft
    }

    /// Whether the player is dead.
    pub fn get_dead(&self) -> (d: bool)
        ensures
            d == self.dead,
    {
        self.dead
    }
}

/// A fart cloud's lifetime.
#[derive(Clone, Copy, Debug, PartialEq, Eq)]
pub struct Fart {
    pub lifetime: i32,
    pub dead: bool,
}

impl Fart {
    /// One frame of the cloud: a dead cloud stays as it is; a live one loses
    /// a frame of lifetime and dies on a wall or when its lifetime runs out.
    pub open spec fn step(self, hit_wall: bool) -> Fart {
        if self.dead {
            self
        } else {
            Fart { lifetime: (self.lifetime - 1) as i32, dead: hit_wall || self.lifetime - 1 <= 0 }
        }
    }

    /// The cloud after one frame per entry of `walls` (whether it overlaps a
    /// wall in that frame).
    pub open spec fn after(self, walls: Seq<bool>) -> Fart
        decreases walls.len(),
    {
        if walls.len() == 0 {
            self
        } else {
            self.step(walls[0]).after(walls.drop_first())
        }
    }

    /// A fresh cloud that lives 50 frames.
    pub fn new() -> (f: Fart)
        ensures
            f == (Fart { lifetime: FART_LIFETIME, dead: false }),
    {
        Fart { lifetime: FART_LIFETIME, dead: false }
    }

    /// One frame of the cloud after `hit_wall` (whether it overlaps a wall
    /// hitbox): a dead cloud does nothing; a live one dies on a wall, still
    /// moves this frame, and dies when its lifetime runs out. Returns whether
    /// the cloud moves.
    pub fn update(&mut self, hit_wall: bool) -> (moves: bool)
        requires
            !old(self).dead ==> old(self).lifetime > i32::MIN,
        ensures
            moves == !old(self).dead,
            *final(self) == old(self).step(hit_wall),
    {
        if self.dead {
            return false;
        }
        if hit_wall {
            self.dead = true;
        }
        self.lifetime -= 1;
        if self.lifetime <= 0 {
            self.dead = true;
        }
        true
    }
}

/// A laser's lifetime.
#[derive(Clone, Copy, Debug, PartialEq, Eq)]
pub struct Laser {
    pub duration: i32,
    pub dead: bool,
}

impl Laser {
    /// One frame of the laser: a dead laser stays as it is; a live one loses
    /// a frame and dies when its duration runs out.
    pub open spec fn step(self) -> Laser {
        if self.dead {
            self
        } else {
            Laser { duration: (self.duration - 1) as i32, dead: self.duration - 1 <= 0 }
        }
    }

    /// The laser after `n` frames.
    pub open spec fn after(self, n: nat) -> Laser
        decreases n,
    {
        if n == 0 {
            self
        } else {
            self.step().after((n - 1) as nat)
        }
    }

    /// A laser that lasts `duration` frames.
    pub fn new(duration: i32) -> (l: Laser)
        ensures
            l == (Laser { duration, dead: false }),
    {
        Laser { duration, dead: false }
    }

    /// One frame of the laser: a dead laser does nothing; a live one sweeps
    /// one step (the caller advances the angle when this returns true) and
    /// dies when its duration runs out.
    pub fn update(&mut self) -> (sweeps: bool)
        requires
            !old(self).dead ==> old(self).duration > i32::MIN,
        ensures
            sweeps == !old(self).dead,
            *final(self) == old(self).step(),
    {
        if self.dead {
            return false;
        }
        self.duration -= 1;
        if self.duration <= 0 {
            self.dead = true;
        }
        true
    }
}

/// Health never exceeds the full value and fart power stays within
/// `0..=100` whatever frames and events the player goes through: every
/// frame and every reaction keeps the meters in range.
pub proof fn lemma_meters_stay_in_range(p: Player, on_kill_trigger: bool, fire_pressed: bool, event: EventType)
    requires
        p.wf(),
        event == EventType::KillPlayer && p.dammit_cooldown == 0 ==> p.lovecraft - HIT_DAMAGE
            >= i32::MIN,
    ensures
        p.tick(on_kill_trigger, fire_pressed).0.wf(),
        p.react(event).0.wf(),
        p.tick(on_kill_trigger, fire_pressed).0.lovecraft <= PLAYER_MAX_HP,
        0 <= p.tick(on_kill_trigger, fire_pressed).0.fart_power <= MAX_FART_POWER,
{
}

/// A fart is spawned only when fire is pressed with fart power left, and it
/// costs 10 power (never going below zero) before the frame's regeneration;
/// regeneration is blocked for the next 89 frames.
pub proof fn lemma_fart_costs_power(p: Player, on_kill_trigger: bool, fire_pressed: bool)
    requires
        p.wf(),
    ensures
        p.tick(on_kill_trigger, fire_pressed).1 <==> fire_pressed && p.fart_power > 0,
        p.tick(on_kill_trigger, fire_pressed).1 ==> p.tick(on_kill_trigger, fire_pressed).0.fart_cooldown
            == FART_RESET - 1 && p.tick(on_kill_trigger, fire_pressed).0.fart_power == (if p.fart_power
            < FART_COST {
            0
        } else {
            p.fart_power - FART_COST
        }),
{
}

/// Two hits within the hit cooldown cost health only once: right after a
/// landed hit, a second hit takes no health and plays no sound.
pub proof fn lemma_hit_cooldown(p: Player)
    requires
        p.wf(),
        p.dammit_cooldown == 0,
        p.lovecraft - HIT_DAMAGE >= i32::MIN,
    ensures
        ({
            let (q, s1) = p.react(EventType::KillPlayer);
            let (r, s2) = q.react(EventType::KillPlayer);
            &&& s1 == Some(PlayerSound::Ow)
            &&& s2 is None
            &&& r.lovecraft == p.lovecraft - HIT_DAMAGE
        }),
{
}

/// Death is final for the player: no frame or event brings a dead player
/// back, touching a kill trigger always kills, and a landing hit that leaves
/// less than 1 health kills.
pub proof fn lemma_death_is_final(p: Player, on_kill_trigger: bool, fire_pressed: bool, event: EventType)
    ensures
        p.dead ==> p.tick(on_kill_trigger, fire_pressed).0.dead,
        p.dead ==> p.react(event).0.dead,
        on_kill_trigger ==> p.tick(on_kill_trigger, fire_pressed).0.dead,
        event == EventType::KillPlayer && p.dammit_cooldown == 0 && p.lovecraft - HIT_DAMAGE < 1
            ==> p.react(event).0.dead,
{
}

proof fn lemma_fart_expires(f: Fart, walls: Seq<bool>)
    ensures
        f.dead ==> f.after(walls) == f,
        walls.len() >= 1 && f.lifetime <= walls.len() ==> f.after(walls).dead,
    decreases walls.len(),
{
    if walls.len() > 0 {
        lemma_fart_expires(f.step(walls[0]), walls.drop_first());
        if f.dead {
            assert(f.step(walls[0]) == f);
        }
    }
}

proof fn lemma_laser_expires(l: Laser, n: nat)
    ensures
        l.dead ==> l.after(n) == l,
        n >= 1 && l.duration <= n ==> l.after(n).dead,
    decreases n,
{
    if n > 0 {
        lemma_laser_expires(l.step(), (n - 1) as nat);
        if l.dead {
            assert(l.step() == l);
        }
    }
}

/// A fart cloud is gone within its lifetime and a laser within its
/// duration (at least one frame), whatever walls the cloud meets; a dead
/// cloud or laser stays exactly as it is. A fresh cloud is dead after 50
/// frames.
pub proof fn lemma_projectiles_expire(f: Fart, walls: Seq<bool>, l: Laser, n: nat)
    ensures
        f.dead ==> f.after(walls) == f,
        walls.len() >= 1 && f.lifetime <= walls.len() ==> f.after(walls).dead,
        walls.len() >= FART_LIFETIME ==> (Fart { lifetime: FART_LIFETIME, dead: false }).after(walls).dead,
        l.dead ==> l.after(n) == l,
        n >= 1 && l.duration <= n ==> l.after(n).dead,
{
    lemma_fart_expires(f, walls);
    lemma_fart_expires(Fart { lifetime: FART_LIFETIME, dead: false }, walls);
    lemma_laser_expires(l, n);
}

} // verus!
