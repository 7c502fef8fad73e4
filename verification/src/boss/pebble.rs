//! Pebble crawlers: the Warden's phase-two minions (slime-like chase and
//! lunge, no hop).

use vstd::prelude::*;
use crate::cue::Sfx;
use crate::enemies::slime::SlimeState;
use crate::enemies::{spec_inc, EnemyTick, Motion};

verus! {

#[derive(Clone, Copy, Debug, PartialEq, Eq, Structural)]
pub struct PebbleData {
    pub spawn_telegraph: u16,
    pub state: SlimeState,
    pub timer: u16,
}

/// Telegraph of a freshly spawned pebble.
pub const PEBBLE_TELEGRAPH: u16 = 20;

/// A pebble as it spawns.
pub fn spawn() -> (d: PebbleData)
    ensures
        d == (PebbleData { spawn_telegraph: PEBBLE_TELEGRAPH, state: SlimeState::Chase, timer: 0 }),
{
    PebbleData { spawn_telegraph: PEBBLE_TELEGRAPH, state: SlimeState::Chase, timer: 0 }
}

/// `(next data, decisions)` after the telegraph; the frame follows the
/// timer as stored.
pub open spec fn spec_pebble(d: PebbleData, in_lunge: bool) -> (PebbleData, EnemyTick) {
    let t = spec_inc(d.timer);
    let base = EnemyTick { frame: 0, motion: Motion::Stop, sound: None, contact: false, strike: false };
    let (nd, tk) = match d.state {
        SlimeState::Chase | SlimeState::Idle => {
            let tk = EnemyTick { motion: Motion::Approach, contact: true, ..base };
            if in_lunge {
                (PebbleData { state: SlimeState::LungeWindup, timer: 0, ..d }, EnemyTick { sound: Some(Sfx::PebbleSkitter), ..tk })
            } else {
                (PebbleData { timer: t, ..d }, tk)
            }
        },
        SlimeState::LungeWindup => if t >= 18 {
            (PebbleData { state: SlimeState::Lunge, timer: 0, ..d }, base)
        } else {
            (PebbleData { timer: t, ..d }, base)
        },
        SlimeState::Lunge => {
            let tk = EnemyTick { motion: Motion::Rush, contact: true, ..base };
            if t >= 8 {
                (PebbleData { state: SlimeState::Recover, timer: 0, ..d }, tk)
            } else {
                (PebbleData { timer: t, ..d }, tk)
            }
        },
        SlimeState::Recover => if t >= 20 {
            (PebbleData { state: SlimeState::Chase, timer: 0, ..d }, base)
        } else {
            (PebbleData { timer: t, ..d }, base)
        },
    };
    (nd, EnemyTick { frame: (nd.timer / 8) % 2, ..tk })
}

/// Pebble tick: the telegraph counts down first (`None` while it does),
/// then chase, wind up, lunge, recover.
pub fn update_one(d: &mut PebbleData, in_lunge: bool) -> (r: Option<EnemyTick>)
    ensures
        old(d).spawn_telegraph > 0 ==> r is None && *final(d) == (PebbleData {
            spawn_telegraph: (old(d).spawn_telegraph - 1) as u16,
            ..*old(d)
        }),
        old(d).spawn_telegraph == 0 ==> (r matches Some(tk) && (*final(d), tk) == spec_pebble(*old(d), in_lunge)),
{
    if d.spawn_telegraph > 0 {
        d.spawn_telegraph = d.spawn_telegraph - 1;
        return None;
    }
    let t = d.timer.saturating_add(1);
    let mut tk = EnemyTick { frame: 0, motion: Motion::Stop, sound: None, contact: false, strike: false };
    d.timer = t;
    match d.state {
        SlimeState::Chase | SlimeState::Idle => {
            tk.motion = Motion::Approach;
            tk.contact = true;
            if in_lunge {
                d.state = SlimeState::LungeWindup;
                d.timer = 0;
                tk.sound = Some(Sfx::PebbleSkitter);
            }
        },
        SlimeState::LungeWindup => {
            if t >= 18 {
                d.state = SlimeState::Lunge;
                d.timer = 0;
            }
        },
        SlimeState::Lunge => {
            tk.motion = Motion::Rush;
            tk.contact = true;
            if t >= 8 {
                d.state = SlimeState::Recover;
                d.timer = 0;
            }
        },
        SlimeState::Recover => {
            if t >= 20 {
                d.state = SlimeState::Chase;
                d.timer = 0;
            }
        },
    }
    tk.frame = (d.timer / 8) % 2;
    Some(tk)
}

} // verus!
