//! Wisp: visible drift, fade out, phased (untargetable), reappear near the
//! player.

use vstd::prelude::*;
use crate::cue::Sfx;
use crate::enemies::{spec_inc, Motion};

verus! {

#[derive(Clone, Copy, Debug, PartialEq, Eq, Structural)]
pub enum WispState {
    Visible,
    FadeOut,
    Phased,
    FadeIn,
}

#[derive(Clone, Copy, Debug, PartialEq, Eq, Structural)]
pub struct WispData {
    pub spawn_telegraph: u16,
    pub state: WispState,
    pub timer: u16,
}

#[derive(Clone, Copy, Debug)]
pub struct WispTuning {
    pub visible: u16,
    pub fade_tele: u16,
    pub phased: u16,
}

/// Invulnerability a phased wisp holds.
pub const PHASED_IFRAMES: u16 = 999;

/// Decisions of one wisp tick.
#[derive(Clone, Copy, Debug, PartialEq, Eq, Structural)]
pub struct WispTick {
    pub frame: u16,
    /// Sprite sheet: 1 (faded) while fading out or phased.
    pub sheet: u16,
    pub motion: Motion,
    pub sound: Option<Sfx>,
    pub contact: bool,
    /// Reappear at a point near the player.
    pub teleport: bool,
    pub set_iframes: Option<u16>,
    /// `Some(false)`: drop the body (phased); `Some(true)`: restore it.
    pub body: Option<bool>,
}

pub open spec fn spec_wisp_core(d: WispData, tun: WispTuning) -> (WispData, WispTick) {
    let t = spec_inc(d.timer);
    let base = WispTick {
        frame: 0,
        sheet: 0,
        motion: Motion::Stop,
        sound: None,
        contact: false,
        teleport: false,
        set_iframes: None,
        body: None,
    };
    match d.state {
        WispState::Visible => {
            let tk = WispTick {
                frame: (t / 8) % 2,
                motion: Motion::Approach,
                contact: true,
                set_iframes: Some(0),
                ..base
            };
            if t >= tun.visible {
                (WispData { state: WispState::FadeOut, timer: 0, ..d }, WispTick { sound: Some(Sfx::WispPhase), ..tk })
            } else {
                (WispData { timer: t, ..d }, tk)
            }
        },
        WispState::FadeOut => {
            let tk = WispTick { frame: 2, ..base };
            if t >= tun.fade_tele {
                (WispData { state: WispState::Phased, timer: 0, ..d }, WispTick { set_iframes: Some(PHASED_IFRAMES), ..tk })
            } else {
                (WispData { timer: t, ..d }, tk)
            }
        },
        WispState::Phased => {
            let tk = WispTick { frame: 2, set_iframes: Some(PHASED_IFRAMES), ..base };
            if t >= tun.phased {
                (WispData { state: WispState::FadeIn, timer: 0, ..d },
                    WispTick { sound: Some(Sfx::WispPhase), teleport: true, ..tk })
            } else {
                (WispData { timer: t, ..d }, tk)
            }
        },
        WispState::FadeIn => {
            let tk = WispTick { frame: 1, ..base };
            if t >= tun.fade_tele {
                (WispData { state: WispState::Visible, timer: 0, ..d }, WispTick { set_iframes: Some(0), ..tk })
            } else {
                (WispData { timer: t, ..d }, tk)
            }
        },
    }
}

/// Full wisp tick: the core transition plus sheet and body by next state.
pub open spec fn spec_wisp(d: WispData, tun: WispTuning, has_body: bool) -> (WispData, WispTick) {
    let (nd, tk) = spec_wisp_core(d, tun);
    (nd, WispTick {
        sheet: if nd.state == WispState::Phased || nd.state == WispState::FadeOut { 1 } else { 0 },
        body: if nd.state == WispState::Phased {
            Some(false)
        } else if (nd.state == WispState::Visible || nd.state == WispState::FadeIn) && !has_body {
            Some(true)
        } else {
            None
        },
        ..tk
    })
}

/// Wisp tick after its telegraph (`has_body`: whether it has a hit body now).
pub fn wisp_update(d: &mut WispData, tun: WispTuning, has_body: bool) -> (tk: WispTick)
    ensures
        (*final(d), tk) == spec_wisp(*old(d), tun, has_body),
        // A phased wisp cannot be hit: no body and long i-frames.
        final(d).state == WispState::Phased ==> tk.body == Some(false) && tk.set_iframes == Some(PHASED_IFRAMES),
{
    let t = d.timer.saturating_add(1);
    let mut tk = WispTick {
        frame: 0,
        sheet: 0,
        motion: Motion::Stop,
        sound: None,
        contact: false,
        teleport: false,
        set_iframes: None,
        body: None,
    };
    d.timer = t;
    match d.state {
        WispState::Visible => {
            tk.frame = (t / 8) % 2;
            tk.motion = Motion::Approach;
            tk.contact = true;
            tk.set_iframes = Some(0);
            if t >= tun.visible {
                d.state = WispState::FadeOut;
                d.timer = 0;
                tk.sound = Some(Sfx::WispPhase);
            }
        },
        WispState::FadeOut => {
            tk.frame = 2;
            if t >= tun.fade_tele {
                d.state = WispState::Phased;
                d.timer = 0;
                tk.set_iframes = Some(PHASED_IFRAMES);
            }
        },
        WispState::Phased => {
            tk.frame = 2;
            tk.set_iframes = Some(PHASED_IFRAMES);
            if t >= tun.phased {
                d.state = WispState::FadeIn;
                d.timer = 0;
                tk.sound = Some(Sfx::WispPhase);
                tk.teleport = true;
            }
        },
        WispState::FadeIn => {
            tk.frame = 1;
            if t >= tun.fade_tele {
                d.state = WispState::Visible;
                d.timer = 0;
                tk.set_iframes = Some(0);
            }
        },
    }
    tk.sheet = match d.state {
        WispState::Phased | WispState::FadeOut => 1,
        _ => 0,
    };
    tk.body = match d.state {
        WispState::Phased => Some(false),
        WispState::Visible | WispState::FadeIn => if has_body { None } else { Some(true) },
        _ => None,
    };
    tk
}

} // verus!
