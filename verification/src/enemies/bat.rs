//! Bat: hovering harasser with a telegraphed swoop.

use vstd::prelude::*;
use crate::cue::Sfx;
use crate::enemies::{spec_inc, EnemyTick, Motion};
use crate::tuning::{BAT_CLIMB_TICKS, BAT_SWOOP_PERIOD, BAT_SWOOP_TICKS, BAT_TELEGRAPH};

verus! {

#[derive(Clone, Copy, Debug, PartialEq, Eq, Structural)]
pub enum BatState {
    Hover,
    SwoopTelegraph,
    Swoop,
    Climb,
}

/// Bat state machine part (its hover phase and swoop endpoints are kept by
/// the front end).
#[derive(Clone, Copy, Debug, PartialEq, Eq, Structural)]
pub struct BatData {
    pub spawn_telegraph: u16,
    pub state: BatState,
    pub timer: u16,
}

/// Bat tick: `(next data, decisions, swoop target locked this tick)`.
pub open spec fn spec_bat(d: BatData) -> (BatData, EnemyTick, bool) {
    let t = spec_inc(d.timer);
    let base = EnemyTick { frame: (t / 6) % 3, motion: Motion::Pattern, sound: None, contact: false, strike: false };
    match d.state {
        BatState::Hover => if t >= BAT_SWOOP_PERIOD {
            (BatData { state: BatState::SwoopTelegraph, timer: 0, ..d },
                EnemyTick { sound: Some(Sfx::BatSqueak), ..base }, true)
        } else {
            (BatData { timer: t, ..d }, base, false)
        },
        BatState::SwoopTelegraph => {
            let tk = EnemyTick { frame: 0, ..base };
            if t >= BAT_TELEGRAPH {
                (BatData { state: BatState::Swoop, timer: 0, ..d }, EnemyTick { sound: Some(Sfx::BatSwoop), ..tk }, false)
            } else {
                (BatData { timer: t, ..d }, tk, false)
            }
        },
        BatState::Swoop => {
            let tk = EnemyTick { frame: 3, contact: true, ..base };
            if t >= BAT_SWOOP_TICKS {
                (BatData { state: BatState::Climb, timer: 0, ..d }, tk, false)
            } else {
                (BatData { timer: t, ..d }, tk, false)
            }
        },
        BatState::Climb => {
            let tk = EnemyTick { frame: (t / 5) % 3, ..base };
            if t >= BAT_CLIMB_TICKS {
                (BatData { state: BatState::Hover, timer: 0, ..d }, tk, false)
            } else {
                (BatData { timer: t, ..d }, tk, false)
            }
        },
    }
}

/// Bat tick after its spawn telegraph: hover, squeak and telegraph, swoop
/// through the player, climb back.
/// A bat swoops only out of its full swoop telegraph.
pub proof fn lemma_bat_swoop_telegraphed(d: BatData)
    ensures
        spec_bat(d).0.state == BatState::Swoop && d.state != BatState::Swoop
            ==> d.state == BatState::SwoopTelegraph && spec_inc(d.timer) >= BAT_TELEGRAPH,
{
}

pub fn bat_update(d: &mut BatData) -> (r: (EnemyTick, bool))
    ensures
        (*final(d), r.0, r.1) == spec_bat(*old(d)),
{
    let t = d.timer.saturating_add(1);
    let mut tk = EnemyTick { frame: (t / 6) % 3, motion: Motion::Pattern, sound: None, contact: false, strike: false };
    let mut lock = false;
    d.timer = t;
    match d.state {
        BatState::Hover => {
            if t >= BAT_SWOOP_PERIOD {
                d.state = BatState::SwoopTelegraph;
                d.timer = 0;
                lock = true;
                tk.sound = Some(Sfx::BatSqueak);
            }
        },
        BatState::SwoopTelegraph => {
            tk.frame = 0;
            if t >= BAT_TELEGRAPH {
                d.state = BatState::Swoop;
                d.timer = 0;
                tk.sound = Some(Sfx::BatSwoop);
            }
        },
        BatState::Swoop => {
            tk.frame = 3;
            tk.contact = true;
            if t >= BAT_SWOOP_TICKS {
                d.state = BatState::Climb;
                d.timer = 0;
            }
        },
        BatState::Climb => {
            tk.frame = (t / 5) % 3;
            if t >= BAT_CLIMB_TICKS {
                d.state = BatState::Hover;
                d.timer = 0;
            }
        },
    }
    (tk, lock)
}


} // verus!
