//! The state of one player, and the parts of its life that are counted in
//! whole numbers: timers, loadout, health and armor.
//!
//! Positions, velocities and the aim are bit patterns of single-precision
//! numbers. This module stores and copies them; it never computes with them.

use vstd::prelude::*;
use crate::constants::{MAX_ARMOR, MEGA_HEALTH, WEAPON_COUNT};

verus! {

/// The four movement keys of one tick.
#[derive(Clone, Copy, Debug, Default, PartialEq, Eq, Structural)]
pub struct PlayerInput {
    pub key_up: bool,
    pub key_down: bool,
    pub key_left: bool,
    pub key_right: bool,
}

/// Everything the simulation knows of one player.
#[derive(Clone, Copy, Debug, PartialEq)]
pub struct PlayerState {
    pub id: u64,
    pub x: u32,
    pub y: u32,
    pub prev_x: u32,
    pub prev_y: u32,
    pub velocity_x: u32,
    pub velocity_y: u32,
    pub key_up: bool,
    pub key_down: bool,
    pub key_left: bool,
    pub key_right: bool,
    pub crouch: bool,
    pub doublejump_countdown: i32,
    pub speed_jump: i32,
    pub cache_on_ground: bool,
    pub cache_brick_on_head: bool,
    pub cache_brick_crouch_on_head: bool,
    pub last_cache_x: i32,
    pub last_cache_y: i32,
    pub health: i32,
    pub armor: i32,
    pub dead: bool,
    pub respawn_timer: i32,
    pub spawn_protection: i32,
    pub aim_angle: u32,
    pub facing_left: bool,
    pub current_weapon: i32,
    pub fire_cooldown: i32,
    pub weapons: [bool; WEAPON_COUNT],
    pub ammo: [i32; WEAPON_COUNT],
    pub quad_damage: bool,
    pub quad_timer: i32,
    pub last_key_up: bool,
    pub last_was_jump: bool,
    pub speed_jump_dir: i32,
}

/// The ammunition that a player starts with, weapon by weapon; -1 never runs out.
pub open spec fn default_ammo() -> Seq<i32> {
    seq![-1i32, 100, 10, 5, 20, 10, 30, 50, 10]
}

/// A loadout that owns every weapon.
pub open spec fn all_weapons() -> Seq<bool> {
    seq![true, true, true, true, true, true, true, true, true]
}

/// The ammunition that a player starts with.
pub fn default_ammo_table() -> (ammo: [i32; WEAPON_COUNT])
    ensures
        ammo@ == default_ammo(),
{
    let ammo: [i32; WEAPON_COUNT] = [-1, 100, 10, 5, 20, 10, 30, 50, 10];
    assert(ammo@ =~= default_ammo());
    ammo
}

/// A loadout that owns every weapon.
pub fn all_weapons_table() -> (weapons: [bool; WEAPON_COUNT])
    ensures
        weapons@ == all_weapons(),
{
    let weapons: [bool; WEAPON_COUNT] = [true, true, true, true, true, true, true, true, true];
    assert(weapons@ =~= all_weapons());
    weapons
}

/// One tick less on a counter that stops at zero.
pub open spec fn tick_down(t: i32) -> i32 {
    if t > 0 {
        (t - 1) as i32
    } else {
        t
    }
}

impl PlayerState {
    /// What holds of a player between ticks: the weapon in hand exists, the
    /// jump counters are in range, health and armor are within their caps, a
    /// living player has health left, no timer is negative, and no weapon
    /// holds less than the -1 that stands for endless ammunition.
    pub open spec fn wf(&self) -> bool {
        &&& 0 <= self.current_weapon < WEAPON_COUNT
        &&& 0 <= self.speed_jump <= 6
        &&& -1 <= self.speed_jump_dir <= 1
        &&& self.health <= MEGA_HEALTH
        &&& !self.dead ==> 0 < self.health
        &&& 0 <= self.armor <= MAX_ARMOR
        &&& 0 <= self.fire_cooldown
        &&& 0 <= self.spawn_protection
        &&& 0 <= self.respawn_timer
        &&& 0 <= self.quad_timer
        &&& self.quad_damage ==> 0 < self.quad_timer
        &&& 0 <= self.doublejump_countdown
        &&& forall|i: int| 0 <= i < WEAPON_COUNT ==> -1 <= #[trigger] self.ammo@[i]
    }

    /// Whether this is the player `id` as it joins: at the origin and at
    /// rest, in full health, with every weapon, the rocket launcher in hand,
    /// and the starting ammunition.
    pub open spec fn is_fresh(self, id: u64) -> bool {
        &&& self.id == id
        &&& self.x == 0 && self.y == 0 && self.prev_x == 0 && self.prev_y == 0
        &&& self.velocity_x == 0 && self.velocity_y == 0 && self.aim_angle == 0
        &&& !self.key_up && !self.key_down && !self.key_left && !self.key_right && !self.crouch
        &&& self.doublejump_countdown == 0 && self.speed_jump == 0 && self.speed_jump_dir == 0
        &&& !self.cache_on_ground && !self.cache_brick_on_head
            && !self.cache_brick_crouch_on_head
        &&& self.last_cache_x == i32::MIN && self.last_cache_y == i32::MIN
        &&& self.health == 100 && self.armor == 0 && !self.dead
        &&& self.respawn_timer == 0 && self.spawn_protection == 0 && self.fire_cooldown == 0
        &&& !self.facing_left && self.current_weapon == 4
        &&& self.weapons@ == all_weapons() && self.ammo@ == default_ammo()
        &&& !self.quad_damage && self.quad_timer == 0 && !self.last_key_up && !self.last_was_jump
    }

    /// A player as it joins.
    pub fn new(id: u64) -> (p: Self)
        ensures
            p.wf(),
            p.is_fresh(id),
    {
        Self {
            id,
            x: 0,
            y: 0,
            prev_x: 0,
            prev_y: 0,
            velocity_x: 0,
            velocity_y: 0,
            key_up: false,
            key_down: false,
            key_left: false,
            key_right: false,
            crouch: false,
            doublejump_countdown: 0,
            speed_jump: 0,
            cache_on_ground: false,
            cache_brick_on_head: false,
            cache_brick_crouch_on_head: false,
            last_cache_x: i32::MIN,
            last_cache_y: i32::MIN,
            health: 100,
            armor: 0,
            dead: false,
            respawn_timer: 0,
            spawn_protection: 0,
            aim_angle: 0,
            facing_left: false,
            current_weapon: 4,
            fire_cooldown: 0,
            weapons: all_weapons_table(),
            ammo: default_ammo_table(),
            quad_damage: false,
            quad_timer: 0,
            last_key_up: false,
            last_was_jump: false,
            speed_jump_dir: 0,
        }
    }

    /// The player after the counters of one tick have run: one tick less of
    /// fire cooldown and of spawn protection, one less of the respawn timer
    /// of a dead player, and one less of quad damage, which ends at zero.
    pub open spec fn after_update(self) -> PlayerState {
        PlayerState {
            fire_cooldown: tick_down(self.fire_cooldown),
            spawn_protection: tick_down(self.spawn_protection),
            respawn_timer: if self.dead {
                tick_down(self.respawn_timer)
            } else {
                self.respawn_timer
            },
            quad_timer: if self.quad_damage {
                (self.quad_timer - 1) as i32
            } else {
                self.quad_timer
            },
            quad_damage: self.quad_damage && self.quad_timer > 1,
            ..self
        }
    }

    /// Runs the counters of one tick.
    pub fn update(&mut self)
        requires
            old(self).quad_damage ==> old(self).quad_timer > i32::MIN,
        ensures
            *final(self) == old(self).after_update(),
    {
        let fire_cooldown: i32 = if self.fire_cooldown > 0 {
            self.fire_cooldown - 1
        } else {
            self.fire_cooldown
        };
        let spawn_protection: i32 = if self.spawn_protection > 0 {
            self.spawn_protection - 1
        } else {
            self.spawn_protection
        };
        let respawn_timer: i32 = if self.dead && self.respawn_timer > 0 {
            self.respawn_timer - 1
        } else {
            self.respawn_timer
        };
        let quad_timer: i32 = if self.quad_damage {
            self.quad_timer - 1
        } else {
            self.quad_timer
        };
        let quad_damage: bool = self.quad_damage && quad_timer > 0;
        *self = PlayerState {
            fire_cooldown,
            spawn_protection,
            respawn_timer,
            quad_timer,
            quad_damage,
            ..*self
        };
    }

    /// Whether the player stood on ground when its position last changed.
    pub fn is_on_ground(&self) -> (b: bool)
        ensures
            b == self.cache_on_ground,
    {
        self.cache_on_ground
    }

    /// Whether a brick was above the player's head when its position last changed.
    pub fn is_brick_on_head(&self) -> (b: bool)
        ensures
            b == self.cache_brick_on_head,
    {
        self.cache_brick_on_head
    }

    /// Whether a brick was above the crouching player's head when its position last changed.
    pub fn is_brick_crouch_on_head(&self) -> (b: bool)
        ensures
            b == self.cache_brick_crouch_on_head,
    {
        self.cache_brick_crouch_on_head
    }

    /// Whether the player crouches after this tick: with only the down key
    /// held, wherever it stands on ground or under a low brick; otherwise
    /// only where it stands on ground under a low brick.
    pub open spec fn crouches(self) -> bool {
        if !self.key_up && self.key_down {
            self.cache_on_ground || self.cache_brick_crouch_on_head
        } else {
            self.cache_on_ground && self.cache_brick_crouch_on_head
        }
    }

    /// Sets the crouch flag for this tick.
    pub fn handle_crouch(&mut self)
        ensures
            *final(self) == (PlayerState { crouch: old(self).crouches(), ..*old(self) }),
    {
        if !self.key_up && self.key_down {
            self.crouch = self.cache_on_ground || self.cache_brick_crouch_on_head;
        } else {
            self.crouch = self.cache_on_ground && self.cache_brick_crouch_on_head;
        }
    }
}

/// The push that a jump gives, for the code that sets the velocity. The
/// speed-jump level is the one that the push is to be computed from.
#[derive(Clone, Copy, Debug, PartialEq, Eq, Structural)]
pub enum JumpImpulse {
    /// The player does not jump.
    NoJump,
    /// A double jump, shortly after a landing.
    Double { speed_jump: i32 },
    /// A jump from the ground.
    First { speed_jump: i32 },
}

impl PlayerState {
    /// Whether the keys have changed in a way that ends a run of speed
    /// jumps: the up key is not as it was, or a side key is held against the
    /// direction of the run.
    pub open spec fn keys_changed(self) -> bool {
        ||| self.key_up != self.last_key_up
        ||| (self.key_left && self.speed_jump_dir != -1)
        ||| (self.key_right && self.speed_jump_dir != 1)
    }

    /// The speed-jump level once a change of keys has been taken into account.
    pub open spec fn speed_jump_kept(self) -> i32 {
        if self.speed_jump > 0 && self.keys_changed() {
            0
        } else {
            self.speed_jump
        }
    }

    /// Whether the player jumps in this tick: it holds the up key, stands on
    /// ground with no brick over its head, and did not jump in the tick before.
    pub open spec fn jumps(self) -> bool {
        self.key_up && self.cache_on_ground && !self.cache_brick_on_head && !self.last_was_jump
    }

    /// Whether a jump in this tick is a double jump: the countdown since
    /// the last ceiling contact or jump stands between 4 and 11.
    pub open spec fn in_double_jump_window(self) -> bool {
        4 < self.doublejump_countdown < 11
    }

    /// The player after the jump step of a tick, and the push that the step
    /// gives. A change of keys ends a run of speed jumps. A jump within the
    /// double jump window is a double jump: the countdown starts over at 14
    /// and the player stands up. Any other jump starts the countdown at 14
    /// if it has run out, and, where exactly one side key is held and the
    /// level is below 6, raises the speed-jump level in that direction. A
    /// player on the ground who neither jumps nor holds the down key loses
    /// its speed-jump level.
    pub open spec fn after_jump(self) -> (PlayerState, JumpImpulse) {
        let level = self.speed_jump_kept();
        if self.jumps() {
            if self.in_double_jump_window() {
                (
                    PlayerState {
                        speed_jump: level,
                        last_key_up: self.key_up,
                        doublejump_countdown: 14,
                        crouch: false,
                        last_was_jump: true,
                        ..self
                    },
                    JumpImpulse::Double { speed_jump: level },
                )
            } else {
                let raise = level < 6 && self.key_left != self.key_right;
                (
                    PlayerState {
                        speed_jump: if raise {
                            (level + 1) as i32
                        } else {
                            level
                        },
                        speed_jump_dir: if raise {
                            if self.key_left {
                                -1i32
                            } else {
                                1i32
                            }
                        } else {
                            self.speed_jump_dir
                        },
                        last_key_up: self.key_up,
                        doublejump_countdown: if self.doublejump_countdown == 0 {
                            14
                        } else {
                            self.doublejump_countdown
                        },
                        last_was_jump: true,
                        ..self
                    },
                    JumpImpulse::First { speed_jump: level },
                )
            }
        } else {
            (
                PlayerState {
                    speed_jump: if self.cache_on_ground && level > 0 && !self.key_down {
                        0
                    } else {
                        level
                    },
                    last_key_up: self.key_up,
                    last_was_jump: false,
                    ..self
                },
                JumpImpulse::NoJump,
            )
        }
    }

    /// Runs the jump step of a tick and hands back the push that it gives.
    pub fn handle_jump(&mut self) -> (impulse: JumpImpulse)
        ensures
            (*final(self), impulse) == old(self).after_jump(),
    {
        let keys_changed: bool = self.key_up != self.last_key_up || (self.key_left
            && self.speed_jump_dir != -1) || (self.key_right && self.speed_jump_dir != 1);
        let level: i32 = if self.speed_jump > 0 && keys_changed {
            0
        } else {
            self.speed_jump
        };
        if self.key_up && self.cache_on_ground && !self.cache_brick_on_head && !self.last_was_jump {
            if self.doublejump_countdown > 4 && self.doublejump_countdown < 11 {
                *self = PlayerState {
                    speed_jump: level,
                    last_key_up: self.key_up,
                    doublejump_countdown: 14,
                    crouch: false,
                    last_was_jump: true,
                    ..*self
                };
                JumpImpulse::Double { speed_jump: level }
            } else {
                let raise: bool = level < 6 && self.key_left != self.key_right;
                *self = PlayerState {
                    speed_jump: if raise {
                        level + 1
                    } else {
                        level
                    },
                    speed_jump_dir: if raise {
                        if self.key_left {
                            -1
                        } else {
                            1
                        }
                    } else {
                        self.speed_jump_dir
                    },
                    last_key_up: self.key_up,
                    doublejump_countdown: if self.doublejump_countdown == 0 {
                        14
                    } else {
                        self.doublejump_countdown
                    },
                    last_was_jump: true,
                    ..*self
                };
                JumpImpulse::First { speed_jump: level }
            }
        } else {
            *self = PlayerState {
                speed_jump: if self.cache_on_ground && level > 0 && !self.key_down {
                    0
                } else {
                    level
                },
                last_key_up: self.key_up,
                last_was_jump: false,
                ..*self
            };
            JumpImpulse::NoJump
        }
    }

    /// Lets the double jump countdown run: one tick less, down to zero.
    pub fn tick_doublejump(&mut self)
        ensures
            *final(self) == (PlayerState {
                doublejump_countdown: tick_down(old(self).doublejump_countdown),
                ..*old(self)
            }),
    {
        let countdown: i32 = if self.doublejump_countdown > 0 {
            self.doublejump_countdown - 1
        } else {
            self.doublejump_countdown
        };
        *self = PlayerState { doublejump_countdown: countdown, ..*self };
    }
}

/// The jump step keeps a player as it should be.
pub proof fn lemma_jump_keeps_wf(p: PlayerState)
    requires
        p.wf(),
    ensures
        p.after_jump().0.wf(),
{
}

/// The counters of a tick keep a player as it should be.
pub proof fn lemma_update_keeps_wf(p: PlayerState)
    requires
        p.wf(),
    ensures
        p.after_update().wf(),
{
}

} // verus!
