//! Raiders: the spear (melee poke and guard) and the torch (keeps its
//! distance and lobs fire).

use vstd::prelude::*;
use crate::cue::Sfx;
use crate::enemies::{spec_inc, EnemyTick, Motion};

verus! {

#[derive(Clone, Copy, Debug, PartialEq, Eq, Structural)]
pub enum RaiderSpearState {
    Idle,
    Approach,
    PokeTelegraph,
    Thrust,
    Guard,
}

/// Spear raider state machine (its patrol angle is kept by the front end).
#[derive(Clone, Copy, Debug, PartialEq, Eq, Structural)]
pub struct RaiderSpearData {
    pub spawn_telegraph: u16,
    pub state: RaiderSpearState,
    pub timer: u16,
}

#[derive(Clone, Copy, Debug)]
pub struct SpearTuning {
    pub poke_tele: u16,
    pub thrust: u16,
    pub guard: u16,
}

/// What a spear raider senses: it notices the player (close and in sight),
/// is within thrust approach distance, or has lost the player.
#[derive(Clone, Copy, Debug)]
pub struct SpearSense {
    pub notice: bool,
    pub in_reach: bool,
    pub lost: bool,
}

pub open spec fn spec_spear(d: RaiderSpearData, tun: SpearTuning, s: SpearSense) -> (RaiderSpearData, EnemyTick) {
    let t = spec_inc(d.timer);
    let base = EnemyTick { frame: 0, motion: Motion::Stop, sound: None, contact: false, strike: false };
    match d.state {
        RaiderSpearState::Idle => {
            let tk = EnemyTick { frame: (t / 12) % 2, motion: Motion::Wander, ..base };
            if s.notice {
                (RaiderSpearData { state: RaiderSpearState::Approach, timer: 0, ..d }, tk)
            } else {
                (RaiderSpearData { timer: t, ..d }, tk)
            }
        },
        RaiderSpearState::Approach => {
            let tk = EnemyTick { frame: (1 + (t / 10) % 2) as u16, motion: Motion::Approach, contact: true, ..base };
            if s.in_reach {
                (RaiderSpearData { state: RaiderSpearState::PokeTelegraph, timer: 0, ..d },
                    EnemyTick { sound: Some(Sfx::RaiderPoke), ..tk })
            } else if s.lost {
                (RaiderSpearData { state: RaiderSpearState::Idle, timer: 0, ..d }, tk)
            } else {
                (RaiderSpearData { timer: t, ..d }, tk)
            }
        },
        RaiderSpearState::PokeTelegraph => {
            let tk = EnemyTick { frame: 3, ..base };
            if t >= tun.poke_tele {
                (RaiderSpearData { state: RaiderSpearState::Thrust, timer: 0, ..d }, EnemyTick { strike: true, ..tk })
            } else {
                (RaiderSpearData { timer: t, ..d }, tk)
            }
        },
        RaiderSpearState::Thrust => {
            let tk = EnemyTick { frame: 4, ..base };
            if t >= tun.thrust {
                (RaiderSpearData { state: RaiderSpearState::Guard, timer: 0, ..d }, tk)
            } else {
                (RaiderSpearData { timer: t, ..d }, tk)
            }
        },
        RaiderSpearState::Guard => {
            let tk = EnemyTick { frame: 5, ..base };
            if t >= tun.guard {
                (RaiderSpearData { state: RaiderSpearState::Approach, timer: 0, ..d }, tk)
            } else {
                (RaiderSpearData { timer: t, ..d }, tk)
            }
        },
    }
}

/// A spear raider thrusts only at the end of its full poke telegraph.
pub proof fn lemma_spear_thrust_telegraphed(d: RaiderSpearData, tun: SpearTuning, s: SpearSense)
    ensures
        spec_spear(d, tun, s).1.strike ==> d.state == RaiderSpearState::PokeTelegraph
            && spec_inc(d.timer) >= tun.poke_tele,
        spec_spear(d, tun, s).0.state == RaiderSpearState::Thrust && d.state != RaiderSpearState::Thrust
            ==> d.state == RaiderSpearState::PokeTelegraph,
{
}

/// A torch raider lobs only at the end of its full throw telegraph.
pub proof fn lemma_torch_throw_telegraphed(d: RaiderTorchData, tun: TorchTuning, s: TorchSense)
    ensures
        spec_torch(d, tun, s).1.strike ==> d.state == RaiderTorchState::ThrowTelegraph
            && spec_inc(d.timer) >= tun.tele,
{
}

/// Spear raider tick after its telegraph: patrol, approach, telegraphed
/// thrust, guard.
pub fn update_spear(d: &mut RaiderSpearData, tun: SpearTuning, s: SpearSense) -> (tk: EnemyTick)
    ensures
        (*final(d), tk) == spec_spear(*old(d), tun, s),
{
    let t = d.timer.saturating_add(1);
    let mut tk = EnemyTick { frame: 0, motion: Motion::Stop, sound: None, contact: false, strike: false };
    d.timer = t;
    match d.state {
        RaiderSpearState::Idle => {
            tk.frame = (t / 12) % 2;
            tk.motion = Motion::Wander;
            if s.notice {
                d.state = RaiderSpearState::Approach;
                d.timer = 0;
            }
        },
        RaiderSpearState::Approach => {
            tk.frame = 1 + (t / 10) % 2;
            tk.motion = Motion::Approach;
            tk.contact = true;
            if s.in_reach {
                d.state = RaiderSpearState::PokeTelegraph;
                d.timer = 0;
                tk.sound = Some(Sfx::RaiderPoke);
            } else if s.lost {
                d.state = RaiderSpearState::Idle;
                d.timer = 0;
            }
        },
        RaiderSpearState::PokeTelegraph => {
            tk.frame = 3;
            if t >= tun.poke_tele {
                d.state = RaiderSpearState::Thrust;
                d.timer = 0;
                tk.strike = true;
            }
        },
        RaiderSpearState::Thrust => {
            tk.frame = 4;
            if t >= tun.thrust {
                d.state = RaiderSpearState::Guard;
                d.timer = 0;
            }
        },
        RaiderSpearState::Guard => {
            tk.frame = 5;
            if t >= tun.guard {
                d.state = RaiderSpearState::Approach;
                d.timer = 0;
            }
        },
    }
    tk
}

#[derive(Clone, Copy, Debug, PartialEq, Eq, Structural)]
pub enum RaiderTorchState {
    Idle,
    ThrowTelegraph,
    Cooldown,
}

#[derive(Clone, Copy, Debug, PartialEq, Eq, Structural)]
pub struct RaiderTorchData {
    pub spawn_telegraph: u16,
    pub state: RaiderTorchState,
    pub timer: u16,
}

#[derive(Clone, Copy, Debug)]
pub struct TorchTuning {
    pub tele: u16,
    pub cooldown: u16,
}

/// What a torch raider senses: closer than its keep distance, farther than
/// it, touching, and the player inside the throw band and in sight.
#[derive(Clone, Copy, Debug)]
pub struct TorchSense {
    pub too_close: bool,
    pub too_far: bool,
    pub touching: bool,
    pub can_throw: bool,
}

pub open spec fn spec_torch(d: RaiderTorchData, tun: TorchTuning, s: TorchSense) -> (RaiderTorchData, EnemyTick) {
    let t = spec_inc(d.timer);
    let base = EnemyTick { frame: 0, motion: Motion::Stop, sound: None, contact: false, strike: false };
    match d.state {
        RaiderTorchState::Idle => {
            let tk = EnemyTick {
                frame: (t / 14) % 2,
                motion: if s.too_close {
                    Motion::Retreat
                } else if s.too_far {
                    Motion::Approach
                } else {
                    Motion::Strafe
                },
                contact: s.touching,
                ..base
            };
            if s.can_throw && t >= 40 {
                (RaiderTorchData { state: RaiderTorchState::ThrowTelegraph, timer: 0, ..d }, tk)
            } else {
                (RaiderTorchData { timer: t, ..d }, tk)
            }
        },
        RaiderTorchState::ThrowTelegraph => {
            let tk = EnemyTick { frame: 2, ..base };
            if t >= tun.tele {
                (RaiderTorchData { state: RaiderTorchState::Cooldown, timer: 0, ..d },
                    EnemyTick { strike: true, sound: Some(Sfx::TorchThrow), ..tk })
            } else {
                (RaiderTorchData { timer: t, ..d }, tk)
            }
        },
        RaiderTorchState::Cooldown => {
            let tk = EnemyTick { motion: if s.too_close { Motion::Retreat } else { Motion::Stop }, ..base };
            if t >= tun.cooldown {
                (RaiderTorchData { state: RaiderTorchState::Idle, timer: 0, ..d }, tk)
            } else {
                (RaiderTorchData { timer: t, ..d }, tk)
            }
        },
    }
}

/// Torch raider tick after its telegraph: hold the band, telegraph, lob.
pub fn update_torch(d: &mut RaiderTorchData, tun: TorchTuning, s: TorchSense) -> (tk: EnemyTick)
    ensures
        (*final(d), tk) == spec_torch(*old(d), tun, s),
{
    let t = d.timer.saturating_add(1);
    let mut tk = EnemyTick { frame: 0, motion: Motion::Stop, sound: None, contact: false, strike: false };
    d.timer = t;
    match d.state {
        RaiderTorchState::Idle => {
            tk.frame = (t / 14) % 2;
            tk.motion = if s.too_close {
                Motion::Retreat
            } else if s.too_far {
                Motion::Approach
            } else {
                Motion::Strafe
            };
            tk.contact = s.touching;
            if s.can_throw && t >= 40 {
                d.state = RaiderTorchState::ThrowTelegraph;
                d.timer = 0;
            }
        },
        RaiderTorchState::ThrowTelegraph => {
            tk.frame = 2;
            if t >= tun.tele {
                d.state = RaiderTorchState::Cooldown;
                d.timer = 0;
                tk.strike = true;
                tk.sound = Some(Sfx::TorchThrow);
            }
        },
        RaiderTorchState::Cooldown => {
            if s.too_close {
                tk.motion = Motion::Retreat;
            }
            if t >= tun.cooldown {
                d.state = RaiderTorchState::Idle;
                d.timer = 0;
            }
        },
    }
    tk
}

/// A lobbed torch in flight (its arc is the front end's): ticks flown,
/// ticks left, and whether it struck something.
#[derive(Clone, Copy, Debug, PartialEq, Eq, Structural)]
pub struct TorchProjData {
    pub life: u16,
    pub age: u16,
    pub hit: bool,
}

/// One flight tick of a lobbed torch: it ages by a
/// tick, its life runs down, its two-frame flicker follows its age, and it
/// lands (bursting into a flame) when its life is spent or it struck.
/// Returns the frame and whether it landed.
pub fn tick_torch_proj(d: &mut TorchProjData) -> (r: (u16, bool))
    ensures
        final(d).age == spec_inc(old(d).age),
        final(d).life == if old(d).life == 0 { 0 } else { (old(d).life - 1) as u16 },
        final(d).hit == old(d).hit,
        r.0 == (final(d).age / 4) % 2,
        r.1 == (final(d).life == 0 || old(d).hit),
{
    d.age = d.age.saturating_add(1);
    d.life = d.life.saturating_sub(1);
    ((d.age / 4) % 2, d.life == 0 || d.hit)
}

/// A patch of fire left where a torch landed.
#[derive(Clone, Copy, Debug, PartialEq, Eq, Structural)]
pub struct TorchFlameData {
    pub life: u16,
    pub tick: u16,
}

/// What one tick of a fire patch comes to.
#[derive(Clone, Copy, Debug, PartialEq, Eq, Structural)]
pub struct FlameTick {
    pub frame: u16,
    /// It burned out and leaves the world.
    pub dead: bool,
    /// This tick it scorches a player standing in it.
    pub hurt: bool,
}

/// One tick of a fire patch: it burns down, its
/// clock runs, it flickers every six ticks, and every `burn_every` ticks
/// (counted from its first) it scorches a player close by, unless it
/// just burned out.
pub fn tick_torch_flame(d: &mut TorchFlameData, burn_every: u16) -> (r: FlameTick)
    requires
        burn_every > 0,
    ensures
        final(d).life == if old(d).life == 0 { 0 } else { (old(d).life - 1) as u16 },
        final(d).tick == spec_inc(old(d).tick),
        r.frame == (final(d).tick / 6) % 2,
        r.dead == (final(d).life == 0),
        r.hurt == (!r.dead && final(d).tick > 0 && final(d).tick % burn_every == 0),
{
    d.life = d.life.saturating_sub(1);
    d.tick = d.tick.saturating_add(1);
    let dead = d.life == 0;
    FlameTick {
        frame: (d.tick / 6) % 2,
        dead,
        hurt: !dead && d.tick > 0 && d.tick % burn_every == 0,
    }
}

} // verus!
