//! Octorok: ranged spit, then hide.

use vstd::prelude::*;
use crate::cue::Sfx;
use crate::enemies::{spec_inc, EnemyTick, Motion};
use crate::tuning::{OCTOROK_CYCLE, OCTOROK_HIDE, OCTOROK_SPIT_TELEGRAPH};

verus! {

#[derive(Clone, Copy, Debug, PartialEq, Eq, Structural)]
pub enum OctorokState {
    Idle,
    SpitTelegraph,
    Spit,
    Hide,
}

#[derive(Clone, Copy, Debug, PartialEq, Eq, Structural)]
pub struct OctorokData {
    pub spawn_telegraph: u16,
    pub state: OctorokState,
    pub timer: u16,
    pub cycle: u16,
    pub stun_ticks: u16,
}

/// Octorok tick (not stunned): `(next data, decisions)`; `strike` fires the
/// rock.
pub open spec fn spec_octorok(d: OctorokData) -> (OctorokData, EnemyTick) {
    let t = spec_inc(d.timer);
    let c = spec_inc(d.cycle);
    let base = EnemyTick { frame: 0, motion: Motion::Stop, sound: None, contact: false, strike: false };
    match d.state {
        OctorokState::Idle => {
            let tk = EnemyTick { frame: (t / 20) % 2, ..base };
            if c >= OCTOROK_CYCLE {
                (OctorokData { state: OctorokState::SpitTelegraph, timer: 0, cycle: 0, ..d }, tk)
            } else {
                (OctorokData { timer: t, cycle: c, ..d }, tk)
            }
        },
        OctorokState::SpitTelegraph => {
            let tk = EnemyTick { frame: 4, ..base };
            if t >= OCTOROK_SPIT_TELEGRAPH {
                (OctorokData { state: OctorokState::Spit, timer: 0, cycle: c, ..d },
                    EnemyTick { strike: true, sound: Some(Sfx::OctorokSpit), ..tk })
            } else {
                (OctorokData { timer: t, cycle: c, ..d }, tk)
            }
        },
        OctorokState::Spit => {
            let tk = EnemyTick { frame: 5, ..base };
            if t >= 8 {
                (OctorokData { state: OctorokState::Hide, timer: 0, cycle: c, ..d },
                    EnemyTick { sound: Some(Sfx::OctorokDuck), ..tk })
            } else {
                (OctorokData { timer: t, cycle: c, ..d }, tk)
            }
        },
        OctorokState::Hide => {
            let tk = EnemyTick { frame: (2 + (t / 30) % 2) as u16, ..base };
            if t >= OCTOROK_HIDE {
                (OctorokData { state: OctorokState::Idle, timer: 0, cycle: 0, ..d }, tk)
            } else {
                (OctorokData { timer: t, cycle: c, ..d }, tk)
            }
        },
    }
}

/// Octorok tick after its telegraph. A stunned octorok only counts its stun
/// down (returns `None`); otherwise it idles, telegraphs, spits a rock and
/// hides.
/// An octorok spits only at the end of its full spit telegraph, and it
/// spits once: the rock leaves on the tick it moves into its spit.
pub proof fn lemma_octorok_spit_telegraphed(d: OctorokData)
    ensures
        spec_octorok(d).1.strike ==> d.state == OctorokState::SpitTelegraph
            && spec_inc(d.timer) >= OCTOROK_SPIT_TELEGRAPH && spec_octorok(d).0.state == OctorokState::Spit,
        spec_octorok(d).0.state == OctorokState::Spit && d.state != OctorokState::Spit
            ==> d.state == OctorokState::SpitTelegraph,
{
}

pub fn octorok_update(d: &mut OctorokData) -> (r: Option<EnemyTick>)
    ensures
        old(d).stun_ticks > 0 ==> r is None && *final(d) == (OctorokData {
            stun_ticks: (old(d).stun_ticks - 1) as u16,
            ..*old(d)
        }),
        old(d).stun_ticks == 0 ==> (r matches Some(tk) && (*final(d), tk) == spec_octorok(*old(d))),
{
    if d.stun_ticks > 0 {
        d.stun_ticks = d.stun_ticks - 1;
        return None;
    }
    let t = d.timer.saturating_add(1);
    let c = d.cycle.saturating_add(1);
    let mut tk = EnemyTick { frame: 0, motion: Motion::Stop, sound: None, contact: false, strike: false };
    d.timer = t;
    d.cycle = c;
    match d.state {
        OctorokState::Idle => {
            tk.frame = (t / 20) % 2;
            if c >= OCTOROK_CYCLE {
                d.state = OctorokState::SpitTelegraph;
                d.timer = 0;
                d.cycle = 0;
            }
        },
        OctorokState::SpitTelegraph => {
            tk.frame = 4;
            if t >= OCTOROK_SPIT_TELEGRAPH {
                d.state = OctorokState::Spit;
                d.timer = 0;
                tk.strike = true;
                tk.sound = Some(Sfx::OctorokSpit);
            }
        },
        OctorokState::Spit => {
            tk.frame = 5;
            if t >= 8 {
                d.state = OctorokState::Hide;
                d.timer = 0;
                tk.sound = Some(Sfx::OctorokDuck);
            }
        },
        OctorokState::Hide => {
            tk.frame = 2 + (t / 30) % 2;
            if t >= OCTOROK_HIDE {
                d.state = OctorokState::Idle;
                d.timer = 0;
                d.cycle = 0;
            }
        },
    }
    Some(tk)
}


} // verus!
