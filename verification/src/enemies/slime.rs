//! Slime: hop-chase and lunge.

use vstd::prelude::*;
use crate::cue::Sfx;
use crate::enemies::{spec_inc, EnemyTick, Motion};
use crate::tuning::{SLIME_HOP_MOVE, SLIME_HOP_REST, SLIME_LUNGE_TICKS, SLIME_RECOVER, SLIME_WINDUP};

verus! {

#[derive(Clone, Copy, Debug, PartialEq, Eq, Structural)]
pub enum SlimeState {
    Idle,
    Chase,
    LungeWindup,
    Lunge,
    Recover,
}

#[derive(Clone, Copy, Debug, PartialEq, Eq, Structural)]
pub struct SlimeData {
    pub spawn_telegraph: u16,
    pub state: SlimeState,
    pub timer: u16,
    pub hop_phase: u16,
}

/// What a slime senses: player within chase range, within lunge range,
/// beyond the give-up range (1.25 x chase), and line of sight.
#[derive(Clone, Copy, Debug)]
pub struct SlimeSense {
    pub in_chase: bool,
    pub in_lunge: bool,
    pub lost: bool,
    pub los: bool,
}

/// Slime transition: `(next data, tick decisions)`.
pub open spec fn spec_slime(d: SlimeData, s: SlimeSense) -> (SlimeData, EnemyTick) {
    let t = spec_inc(d.timer);
    let h = spec_inc(d.hop_phase);
    let quiet = EnemyTick { frame: 0, motion: Motion::Stop, sound: None, contact: false, strike: false };
    match d.state {
        SlimeState::Idle => {
            let tk = EnemyTick {
                frame: (t / 16) % 2,
                motion: if t % 40 < 20 { Motion::Wander } else { Motion::Stop },
                ..quiet
            };
            if s.in_chase && s.los {
                (SlimeData { state: SlimeState::Chase, timer: 0, hop_phase: 0, ..d }, tk)
            } else {
                (SlimeData { timer: t, hop_phase: h, ..d }, tk)
            }
        },
        SlimeState::Chase => {
            let phase = h % ((SLIME_HOP_MOVE + SLIME_HOP_REST) as u16);
            let moving = phase < SLIME_HOP_MOVE;
            let base = EnemyTick {
                frame: if moving { (2 + (phase / 6) % 2) as u16 } else { 0 },
                motion: if moving { Motion::Approach } else { Motion::Stop },
                contact: true,
                ..quiet
            };
            if s.in_lunge && s.los {
                (SlimeData { state: SlimeState::LungeWindup, timer: 0, hop_phase: h, ..d },
                    EnemyTick { sound: Some(Sfx::SlimeSquish), ..base })
            } else if s.lost || !s.los {
                (SlimeData { state: SlimeState::Idle, timer: 0, hop_phase: h, ..d }, base)
            } else {
                (SlimeData { timer: t, hop_phase: h, ..d }, base)
            }
        },
        SlimeState::LungeWindup => {
            let tk = EnemyTick { frame: 4, ..quiet };
            if t >= SLIME_WINDUP {
                (SlimeData { state: SlimeState::Lunge, timer: 0, hop_phase: h, ..d },
                    EnemyTick { sound: Some(Sfx::SlimeLunge), ..tk })
            } else {
                (SlimeData { timer: t, hop_phase: h, ..d }, tk)
            }
        },
        SlimeState::Lunge => {
            let tk = EnemyTick { frame: 3, motion: Motion::Rush, contact: true, ..quiet };
            if t >= SLIME_LUNGE_TICKS {
                (SlimeData { state: SlimeState::Recover, timer: 0, hop_phase: h, ..d }, tk)
            } else {
                (SlimeData { timer: t, hop_phase: h, ..d }, tk)
            }
        },
        SlimeState::Recover => {
            let tk = EnemyTick { frame: 1, ..quiet };
            if t >= SLIME_RECOVER {
                (SlimeData { state: SlimeState::Chase, timer: 0, hop_phase: 0, ..d }, tk)
            } else {
                (SlimeData { timer: t, hop_phase: h, ..d }, tk)
            }
        },
    }
}

/// Slime tick after its spawn telegraph: wander, hop-chase, wind up, lunge,
/// recover.
/// A slime's lunge is always telegraphed: it lunges only out of a windup
/// that has run its full `SLIME_WINDUP` ticks.
pub proof fn lemma_slime_lunge_telegraphed(d: SlimeData, s: SlimeSense)
    ensures
        spec_slime(d, s).0.state == SlimeState::Lunge && d.state != SlimeState::Lunge
            ==> d.state == SlimeState::LungeWindup && spec_inc(d.timer) >= SLIME_WINDUP,
{
}

pub fn slime_update(d: &mut SlimeData, s: SlimeSense) -> (tk: EnemyTick)
    ensures
        (*final(d), tk) == spec_slime(*old(d), s),
{
    let t = d.timer.saturating_add(1);
    let h = d.hop_phase.saturating_add(1);
    let mut tk = EnemyTick { frame: 0, motion: Motion::Stop, sound: None, contact: false, strike: false };
    d.timer = t;
    d.hop_phase = h;
    match d.state {
        SlimeState::Idle => {
            tk.frame = (t / 16) % 2;
            if t % 40 < 20 {
                tk.motion = Motion::Wander;
            }
            if s.in_chase && s.los {
                d.state = SlimeState::Chase;
                d.timer = 0;
                d.hop_phase = 0;
            }
        },
        SlimeState::Chase => {
            let phase = h % (SLIME_HOP_MOVE + SLIME_HOP_REST);
            if phase < SLIME_HOP_MOVE {
                tk.motion = Motion::Approach;
                tk.frame = 2 + (phase / 6) % 2;
            }
            tk.contact = true;
            if s.in_lunge && s.los {
                d.state = SlimeState::LungeWindup;
                d.timer = 0;
                tk.sound = Some(Sfx::SlimeSquish);
            } else if s.lost || !s.los {
                d.state = SlimeState::Idle;
                d.timer = 0;
            }
        },
        SlimeState::LungeWindup => {
            tk.frame = 4;
            if t >= SLIME_WINDUP {
                d.state = SlimeState::Lunge;
                d.timer = 0;
                tk.sound = Some(Sfx::SlimeLunge);
            }
        },
        SlimeState::Lunge => {
            tk.frame = 3;
            tk.motion = Motion::Rush;
            tk.contact = true;
            if t >= SLIME_LUNGE_TICKS {
                d.state = SlimeState::Recover;
                d.timer = 0;
            }
        },
        SlimeState::Recover => {
            tk.frame = 1;
            if t >= SLIME_RECOVER {
                d.state = SlimeState::Chase;
                d.timer = 0;
                d.hop_phase = 0;
            }
        },
    }
    tk
}


} // verus!
