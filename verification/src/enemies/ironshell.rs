//! Ironshell: front-armored shell-bash miniboss.

use vstd::prelude::*;
use crate::cue::Sfx;
use crate::enemies::{spec_inc, EnemyTick, Motion};

verus! {

#[derive(Clone, Copy, Debug, PartialEq, Eq, Structural)]
pub enum IronshellState {
    Advance,
    BashTelegraph,
    Bash,
    Recover,
    Stagger,
}

#[derive(Clone, Copy, Debug, PartialEq, Eq, Structural)]
pub struct IronshellData {
    pub spawn_telegraph: u16,
    pub state: IronshellState,
    pub timer: u16,
    pub stun_ticks: u16,
    pub stagger_len: u16,
}

/// Ironshell timings.
#[derive(Clone, Copy, Debug)]
pub struct IronshellTuning {
    pub bash_tele: u16,
    pub bash_ticks: u16,
    pub recover: u16,
    pub stagger: u16,
}

pub open spec fn spec_staggered(d: IronshellData, ticks: u16) -> IronshellData {
    IronshellData { state: IronshellState::Stagger, timer: 0, stagger_len: ticks, stun_ticks: 0, ..d }
}

fn stagger_for(d: &mut IronshellData, ticks: u16)
    ensures
        *final(d) == spec_staggered(*old(d), ticks),
{
    d.state = IronshellState::Stagger;
    d.timer = 0;
    d.stagger_len = ticks;
    d.stun_ticks = 0;
}

/// Stagger entry point (boomerang, shared).
pub fn stagger(d: &mut IronshellData, tun: IronshellTuning)
    ensures
        *final(d) == spec_staggered(*old(d), tun.stagger),
{
    stagger_for(d, tun.stagger);
}

/// A perfect block cracks a bashing (or telegraphing) ironshell.
pub fn try_perfect_block_stagger(d: &mut IronshellData, tun: IronshellTuning) -> (hit: bool)
    ensures
        hit == (old(d).spawn_telegraph == 0 && (old(d).state == IronshellState::Bash
            || old(d).state == IronshellState::BashTelegraph)),
        hit ==> *final(d) == spec_staggered(*old(d), tun.stagger),
        !hit ==> *final(d) == *old(d),
{
    let ok = d.spawn_telegraph == 0 && (d.state == IronshellState::Bash || d.state
        == IronshellState::BashTelegraph);
    if ok {
        stagger_for(d, tun.stagger);
    }
    ok
}

/// Ironshell tick (not stunned); `can_bash`: player in bash range and sight.
pub open spec fn spec_ironshell(d: IronshellData, tun: IronshellTuning, can_bash: bool) -> (IronshellData, EnemyTick) {
    let t = spec_inc(d.timer);
    let base = EnemyTick { frame: 0, motion: Motion::Stop, sound: None, contact: false, strike: false };
    match d.state {
        IronshellState::Advance => {
            let tk = EnemyTick { frame: (t / 14) % 2, motion: Motion::Approach, contact: true, ..base };
            if can_bash {
                (IronshellData { state: IronshellState::BashTelegraph, timer: 0, ..d },
                    EnemyTick { sound: Some(Sfx::GuardClank), ..tk })
            } else {
                (IronshellData { timer: t, ..d }, tk)
            }
        },
        IronshellState::BashTelegraph => {
            let tk = EnemyTick { frame: 2, ..base };
            if t >= tun.bash_tele {
                (IronshellData { state: IronshellState::Bash, timer: 0, ..d },
                    EnemyTick { sound: Some(Sfx::IronshellBash), ..tk })
            } else {
                (IronshellData { timer: t, ..d }, tk)
            }
        },
        IronshellState::Bash => {
            let tk = EnemyTick { frame: 2, motion: Motion::Rush, ..base };
            if t >= tun.bash_ticks {
                (IronshellData { state: IronshellState::Recover, timer: 0, ..d }, tk)
            } else {
                (IronshellData { timer: t, ..d }, EnemyTick { strike: t == 1, ..tk })
            }
        },
        IronshellState::Recover => {
            let tk = EnemyTick { frame: 0, ..base };
            if t >= tun.recover {
                (IronshellData { state: IronshellState::Advance, timer: 0, ..d }, tk)
            } else {
                (IronshellData { timer: t, ..d }, tk)
            }
        },
        IronshellState::Stagger => {
            let tk = EnemyTick { frame: 3, ..base };
            let dur = if d.stagger_len == 0 { tun.stagger } else { d.stagger_len };
            if t >= dur {
                (IronshellData { state: IronshellState::Advance, timer: 0, stagger_len: 0, ..d }, tk)
            } else {
                (IronshellData { timer: t, ..d }, tk)
            }
        },
    }
}

/// An ironshell bashes only out of its full bash telegraph, and its bash
/// strikes once, on the bash's first tick.
pub proof fn lemma_ironshell_bash_telegraphed(d: IronshellData, tun: IronshellTuning, can_bash: bool)
    ensures
        spec_ironshell(d, tun, can_bash).0.state == IronshellState::Bash && d.state != IronshellState::Bash
            ==> d.state == IronshellState::BashTelegraph && spec_inc(d.timer) >= tun.bash_tele,
        spec_ironshell(d, tun, can_bash).1.strike ==> d.state == IronshellState::Bash && spec_inc(d.timer) == 1,
{
}

/// What a stunned ironshell does: it stands still on frame 3, with no
/// sound, no contact damage and no strike (nor does it turn).
pub open spec fn spec_stunned_tick() -> EnemyTick {
    EnemyTick { frame: 3, motion: Motion::Stop, sound: None, contact: false, strike: false }
}

/// Ironshell tick after its telegraph. A stunned ironshell freezes (frame 3,
/// stopped) while its stun counts down; otherwise its state machine runs.
pub fn ironshell_update(d: &mut IronshellData, tun: IronshellTuning, can_bash: bool) -> (r: EnemyTick)
    ensures
        old(d).stun_ticks > 0 ==> r == spec_stunned_tick() && *final(d) == (IronshellData {
            stun_ticks: (old(d).stun_ticks - 1) as u16,
            ..*old(d)
        }),
        old(d).stun_ticks == 0 ==> (*final(d), r) == spec_ironshell(*old(d), tun, can_bash),
{
    if d.stun_ticks > 0 {
        d.stun_ticks = d.stun_ticks - 1;
        return EnemyTick { frame: 3, motion: Motion::Stop, sound: None, contact: false, strike: false };
    }
    let t = d.timer.saturating_add(1);
    let mut tk = EnemyTick { frame: 0, motion: Motion::Stop, sound: None, contact: false, strike: false };
    d.timer = t;
    match d.state {
        IronshellState::Advance => {
            tk.frame = (t / 14) % 2;
            tk.motion = Motion::Approach;
            tk.contact = true;
            if can_bash {
                d.state = IronshellState::BashTelegraph;
                d.timer = 0;
                tk.sound = Some(Sfx::GuardClank);
            }
        },
        IronshellState::BashTelegraph => {
            tk.frame = 2;
            if t >= tun.bash_tele {
                d.state = IronshellState::Bash;
                d.timer = 0;
                tk.sound = Some(Sfx::IronshellBash);
            }
        },
        IronshellState::Bash => {
            tk.frame = 2;
            tk.motion = Motion::Rush;
            if t >= tun.bash_ticks {
                d.state = IronshellState::Recover;
                d.timer = 0;
            } else if t == 1 {
                tk.strike = true;
            }
        },
        IronshellState::Recover => {
            if t >= tun.recover {
                d.state = IronshellState::Advance;
                d.timer = 0;
            }
        },
        IronshellState::Stagger => {
            tk.frame = 3;
            let dur = if d.stagger_len == 0 { tun.stagger } else { d.stagger_len };
            if t >= dur {
                d.state = IronshellState::Advance;
                d.timer = 0;
                d.stagger_len = 0;
            }
        },
    }
    tk
}

} // verus!
