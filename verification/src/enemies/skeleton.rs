//! Skeleton: shielded walk, telegraphed poke lunge, stagger (also on a
//! perfect block).

use vstd::prelude::*;
use crate::cue::Sfx;
use crate::enemies::{spec_inc, EnemyTick, Motion};

verus! {

#[derive(Clone, Copy, Debug, PartialEq, Eq, Structural)]
pub enum SkeletonState {
    Walk,
    PokeTelegraph,
    Lunge,
    Stagger,
}

#[derive(Clone, Copy, Debug, PartialEq, Eq, Structural)]
pub struct SkeletonData {
    pub spawn_telegraph: u16,
    pub state: SkeletonState,
    pub timer: u16,
    pub shield_up: bool,
    pub stagger_len: u16,
}

/// Skeleton timings.
#[derive(Clone, Copy, Debug)]
pub struct SkeletonTuning {
    pub poke_tele: u16,
    pub lunge: u16,
    pub poke_stagger: u16,
    pub perfect_stagger: u16,
}

pub open spec fn spec_staggered(d: SkeletonData, ticks: u16) -> SkeletonData {
    SkeletonData { state: SkeletonState::Stagger, timer: 0, shield_up: false, stagger_len: ticks, ..d }
}

fn stagger_for(d: &mut SkeletonData, ticks: u16)
    ensures
        *final(d) == spec_staggered(*old(d), ticks),
{
    d.state = SkeletonState::Stagger;
    d.timer = 0;
    d.shield_up = false;
    d.stagger_len = ticks;
}

/// Shared stagger entry point (boomerang stun): a perfect-block-length stagger.
pub fn stagger(d: &mut SkeletonData, tun: SkeletonTuning)
    ensures
        *final(d) == spec_staggered(*old(d), tun.perfect_stagger),
{
    stagger_for(d, tun.perfect_stagger);
}

/// A perfect block staggers a skeleton that is winding up or lunging.
/// Returns whether it did (the rattle sound plays then).
pub fn try_perfect_block_stagger(d: &mut SkeletonData, tun: SkeletonTuning) -> (hit: bool)
    ensures
        hit == (old(d).spawn_telegraph == 0 && (old(d).state == SkeletonState::Lunge
            || old(d).state == SkeletonState::PokeTelegraph)),
        hit ==> *final(d) == spec_staggered(*old(d), tun.perfect_stagger),
        !hit ==> *final(d) == *old(d),
{
    let ok = d.spawn_telegraph == 0 && (d.state == SkeletonState::Lunge || d.state
        == SkeletonState::PokeTelegraph);
    if ok {
        stagger_for(d, tun.perfect_stagger);
    }
    ok
}

/// Skeleton tick; `can_poke`: player within poke range and in sight.
pub open spec fn spec_skeleton(d: SkeletonData, tun: SkeletonTuning, can_poke: bool) -> (SkeletonData, EnemyTick) {
    let t = spec_inc(d.timer);
    let base = EnemyTick { frame: 0, motion: Motion::Stop, sound: None, contact: false, strike: false };
    match d.state {
        SkeletonState::Walk => {
            let tk = EnemyTick { frame: (t / 12) % 2, motion: Motion::Approach, contact: true, ..base };
            if can_poke {
                (SkeletonData { state: SkeletonState::PokeTelegraph, timer: 0, shield_up: true, ..d },
                    EnemyTick { sound: Some(Sfx::SkeletonRattle), ..tk })
            } else {
                (SkeletonData { timer: t, shield_up: true, ..d }, tk)
            }
        },
        SkeletonState::PokeTelegraph => {
            let tk = EnemyTick { frame: 2, ..base };
            if t >= tun.poke_tele {
                (SkeletonData { state: SkeletonState::Lunge, timer: 0, shield_up: true, ..d },
                    EnemyTick { strike: true, ..tk })
            } else {
                (SkeletonData { timer: t, shield_up: true, ..d }, tk)
            }
        },
        SkeletonState::Lunge => {
            let tk = EnemyTick { frame: 3, motion: Motion::Rush, ..base };
            if t >= tun.lunge {
                (SkeletonData {
                    state: SkeletonState::Stagger,
                    timer: 0,
                    shield_up: false,
                    stagger_len: tun.poke_stagger,
                    ..d
                }, tk)
            } else {
                (SkeletonData { timer: t, shield_up: false, ..d }, tk)
            }
        },
        SkeletonState::Stagger => {
            let tk = EnemyTick { frame: 4, ..base };
            let dur = if d.stagger_len == 0 { tun.poke_stagger } else { d.stagger_len };
            if t >= dur {
                (SkeletonData { state: SkeletonState::Walk, timer: 0, stagger_len: 0, shield_up: true, ..d }, tk)
            } else {
                (SkeletonData { timer: t, shield_up: false, ..d }, tk)
            }
        },
    }
}

/// Skeleton tick after its spawn telegraph.
/// A skeleton pokes only at the end of its full poke telegraph.
pub proof fn lemma_skeleton_poke_telegraphed(d: SkeletonData, tun: SkeletonTuning, can_poke: bool)
    ensures
        spec_skeleton(d, tun, can_poke).1.strike ==> d.state == SkeletonState::PokeTelegraph
            && spec_inc(d.timer) >= tun.poke_tele,
        spec_skeleton(d, tun, can_poke).0.state == SkeletonState::Lunge && d.state != SkeletonState::Lunge
            ==> d.state == SkeletonState::PokeTelegraph,
{
}

pub fn skeleton_update(d: &mut SkeletonData, tun: SkeletonTuning, can_poke: bool) -> (tk: EnemyTick)
    ensures
        (*final(d), tk) == spec_skeleton(*old(d), tun, can_poke),
{
    let t = d.timer.saturating_add(1);
    let mut tk = EnemyTick { frame: 0, motion: Motion::Stop, sound: None, contact: false, strike: false };
    d.timer = t;
    match d.state {
        SkeletonState::Walk => {
            tk.frame = (t / 12) % 2;
            tk.motion = Motion::Approach;
            tk.contact = true;
            d.shield_up = true;
            if can_poke {
                d.state = SkeletonState::PokeTelegraph;
                d.timer = 0;
                tk.sound = Some(Sfx::SkeletonRattle);
            }
        },
        SkeletonState::PokeTelegraph => {
            tk.frame = 2;
            d.shield_up = true;
            if t >= tun.poke_tele {
                d.state = SkeletonState::Lunge;
                d.timer = 0;
                tk.strike = true;
            }
        },
        SkeletonState::Lunge => {
            tk.frame = 3;
            tk.motion = Motion::Rush;
            d.shield_up = false;
            if t >= tun.lunge {
                d.state = SkeletonState::Stagger;
                d.timer = 0;
                d.stagger_len = tun.poke_stagger;
            }
        },
        SkeletonState::Stagger => {
            tk.frame = 4;
            d.shield_up = false;
            let dur = if d.stagger_len == 0 { tun.poke_stagger } else { d.stagger_len };
            if t >= dur {
                d.state = SkeletonState::Walk;
                d.timer = 0;
                d.stagger_len = 0;
                d.shield_up = true;
            }
        },
    }
    tk
}

} // verus!
