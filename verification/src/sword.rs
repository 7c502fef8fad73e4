//! Sword state machine: three-hit slash combo, charge spin, beam at full hearts.

use vstd::prelude::*;
use crate::cue::Sfx;
use crate::combat::ActiveAttack;
use crate::entity::{spec_next_id, next_id, AnimState, AttackKind, EntityId};
use crate::frame::Aabb;
use crate::math::{dir_step, spec_dir_step, Dir4};
use crate::player::{PlayerData, PlayerState};
use crate::tuning::{
    CHARGE_TICKS, COMBO_DROP_WINDOW, DASH_CANCEL_SLASH_FROM, DASH_RECOVERY, ENERGY_DENY_FLASH,
    FINISHER_HOP_TICKS, SLASH_ACTIVE_END, SLASH_ACTIVE_START, SLASH_BUFFER_TICKS, SLASH_TICKS,
    SPIN_ENERGY, SPIN_TICKS,
};

verus! {

/// What one sword tick asks of the world.
pub struct SwordOutput {
    /// A new swing id was issued: its per-swing hit record is cleared.
    pub clear_swing: Option<u32>,
    /// Hitbox registered this tick (slash boxes in front, spin ring around).
    pub attack: Option<AttackKind>,
    pub spawn_beam: bool,
    pub toast_finisher: bool,
    pub energy_denied: bool,
    pub charge_shimmer: bool,
    /// Slash arc effect to draw; `Some(true)` for the spin ring.
    pub arc: Option<bool>,
    /// Apply one step of the finisher hop this tick.
    pub lunge: bool,
    /// Dash was cancelled into a slash: velocity stops.
    pub stop_velocity: bool,
    pub sounds: Vec<Sfx>,
}

/// Every tick counter of the state can still be incremented.
pub open spec fn ticks_ok(s: PlayerState) -> bool {
    match s {
        PlayerState::Swing { tick, .. } => tick < u16::MAX,
        PlayerState::Charging { tick } => tick < u16::MAX,
        PlayerState::Spin { tick } => tick < u16::MAX,
        PlayerState::Dash { tick } => tick < u16::MAX,
        PlayerState::DashRecovery { tick } => tick < u16::MAX,
        PlayerState::LedgeHop { tick } => tick < u16::MAX,
        PlayerState::Idle => true,
    }
}

/// Combo stages are 0, 1 and 2.
pub open spec fn stage_ok(s: PlayerState) -> bool {
    s matches PlayerState::Swing { stage, .. } ==> stage <= 2
}

/// Starting a swing of `stage`: fresh swing id and hit mask.
pub open spec fn spec_begin_swing(pd: PlayerData, stage: u8) -> PlayerData {
    PlayerData {
        swing_id: spec_next_id(pd.swing_id),
        hit_mask: 0,
        state: PlayerState::Swing { stage, tick: 0 },
        ..pd
    }
}

pub open spec fn spec_swing_anim(stage: u8) -> AnimState {
    AnimState { sheet: stage as u16, frame: 0, timer: 0 }
}

/// Attack kind of a combo stage.
pub open spec fn spec_stage_attack(stage: u8) -> AttackKind {
    if stage == 0 {
        AttackKind::Slash
    } else if stage == 1 {
        AttackKind::Backslash
    } else {
        AttackKind::Finisher
    }
}

/// Player state after the bookkeeping that runs before the state dispatch:
/// combo window countdown, input buffering, dash-recovery advance.
pub open spec fn spec_sword_pre(pd: PlayerData, pressed: bool) -> PlayerData {
    let state = match pd.state {
        PlayerState::DashRecovery { tick } => if tick + 1 >= DASH_RECOVERY {
            PlayerState::Idle
        } else {
            PlayerState::DashRecovery { tick: (tick + 1) as u16 }
        },
        s => s,
    };
    PlayerData {
        combo_drop: if pd.combo_drop > 0 { (pd.combo_drop - 1) as u16 } else { 0 },
        buffer_attack: pd.buffer_attack || pressed,
        state,
        ..pd
    }
}

/// No output at all.
pub open spec fn quiet(o: SwordOutput) -> bool {
    &&& o.clear_swing is None
    &&& o.attack is None
    &&& !o.spawn_beam
    &&& !o.toast_finisher
    &&& !o.energy_denied
    &&& !o.charge_shimmer
    &&& o.arc is None
    &&& !o.lunge
    &&& !o.stop_velocity
    &&& o.sounds@.len() == 0
}

/// Only a new swing was started (and its id handed out).
pub open spec fn starts_swing(pd: PlayerData, anim: AnimState, stage: u8, pd2: PlayerData,
    anim2: AnimState, o: SwordOutput) -> bool {
    &&& pd2 == spec_begin_swing(pd, stage)
    &&& anim2 == spec_swing_anim(stage)
    &&& o.clear_swing == Some(pd2.swing_id)
    &&& o.attack is None
    &&& !o.spawn_beam && !o.toast_finisher && !o.energy_denied && !o.charge_shimmer
    &&& o.arc is None && !o.lunge && !o.stop_velocity
    &&& o.sounds@.len() == 0
}

/// The sword tick from ready states (idle, dash recovery).
pub open spec fn sword_ready(p: PlayerData, anim: AnimState, pressed: bool, pd2: PlayerData,
    anim2: AnimState, o: SwordOutput) -> bool {
    let recovering = p.state is DashRecovery;
    if p.buffer_attack && !p.shield_held && p.combo_drop > 0 {
        let stage = if anim.sheet < 2 { anim.sheet as u8 } else { 2u8 };
        starts_swing(PlayerData { buffer_attack: false, ..p }, anim, stage, pd2, anim2, o)
    } else if p.buffer_attack && !p.shield_held && recovering {
        starts_swing(PlayerData { buffer_attack: false, ..p }, anim, 0, pd2, anim2, o)
    } else if pressed && !p.shield_held && p.state is Idle {
        &&& pd2 == (PlayerData {
            buffer_attack: false,
            state: PlayerState::Charging { tick: 0 },
            charge_ready_sfx: false,
            ..p
        })
        &&& anim2 == anim
        &&& quiet(o)
    } else {
        pd2 == p && anim2 == anim && quiet(o)
    }
}

/// The sword tick while charging (tick `t` after increment).
pub open spec fn sword_charging(p: PlayerData, anim: AnimState, t: u16, held: bool,
    pd2: PlayerData, anim2: AnimState, o: SwordOutput) -> bool {
    let ready_now = t >= CHARGE_TICKS && !p.charge_ready_sfx;
    let p1 = PlayerData { charge_ready_sfx: p.charge_ready_sfx || t >= CHARGE_TICKS, ..p };
    let ready_sound: Seq<Sfx> = if ready_now { seq![Sfx::ChargeReady] } else { seq![] };
    &&& o.charge_shimmer
    &&& o.attack is None && !o.spawn_beam && !o.toast_finisher && !o.lunge && !o.stop_velocity
    &&& if held {
        &&& pd2 == (PlayerData { state: PlayerState::Charging { tick: t }, ..p1 })
        &&& anim2 == anim
        &&& o.clear_swing is None && !o.energy_denied && o.arc is None
        &&& o.sounds@ == ready_sound
    } else if t >= CHARGE_TICKS && p.energy >= SPIN_ENERGY {
        &&& pd2 == (PlayerData {
            energy: (p.energy - SPIN_ENERGY) as u32,
            ticks_since_spend: 0,
            swing_id: spec_next_id(p.swing_id),
            state: PlayerState::Spin { tick: 0 },
            ..p1
        })
        &&& anim2 == anim
        &&& o.clear_swing == Some(pd2.swing_id)
        &&& !o.energy_denied
        &&& o.arc == Some(true)
        &&& o.sounds@ == ready_sound.push(Sfx::SpinRelease)
    } else if t >= CHARGE_TICKS {
        &&& pd2 == spec_begin_swing(PlayerData { energy_deny_flash: ENERGY_DENY_FLASH, ..p1 }, 0)
        &&& anim2 == spec_swing_anim(0)
        &&& o.clear_swing == Some(pd2.swing_id)
        &&& o.energy_denied
        &&& o.arc is None
        &&& o.sounds@ == ready_sound
    } else {
        &&& pd2 == spec_begin_swing(p1, 0)
        &&& anim2 == spec_swing_anim(0)
        &&& o.clear_swing == Some(pd2.swing_id)
        &&& !o.energy_denied
        &&& o.arc is None
        &&& o.sounds@ == ready_sound
    }
}

/// The sword tick mid-swing (tick `t` after increment).
pub open spec fn sword_swinging(p: PlayerData, anim: AnimState, stage: u8, t: u16,
    pressed: bool, pd2: PlayerData, anim2: AnimState, o: SwordOutput) -> bool {
    let lunge = p.lunge_ticks > 0;
    let p1 = PlayerData {
        lunge_ticks: if lunge { (p.lunge_ticks - 1) as u8 } else { p.lunge_ticks },
        ..p
    };
    &&& o.lunge == lunge
    &&& !o.charge_shimmer && !o.energy_denied && !o.stop_velocity
    &&& if t >= SLASH_TICKS {
        &&& o.attack is None && !o.spawn_beam && !o.toast_finisher && o.arc is None
        &&& o.sounds@.len() == 0
        &&& if stage < 2 && p.buffer_attack {
            &&& pd2 == spec_begin_swing(PlayerData { buffer_attack: false, ..p1 }, (stage + 1) as u8)
            &&& anim2 == spec_swing_anim((stage + 1) as u8)
            &&& o.clear_swing == Some(pd2.swing_id)
        } else {
            &&& pd2 == (PlayerData {
                state: PlayerState::Idle,
                combo_drop: COMBO_DROP_WINDOW,
                buffer_attack: false,
                ..p1
            })
            &&& anim2 == (AnimState { sheet: (stage + 1) as u16, ..anim })
            &&& o.clear_swing is None
        }
    } else {
        let buffered = p.buffer_attack || (t + SLASH_BUFFER_TICKS >= SLASH_TICKS && pressed);
        let active = SLASH_ACTIVE_START <= t <= SLASH_ACTIVE_END;
        let finisher_start = active && stage == 2 && t == SLASH_ACTIVE_START;
        let first = active && t == SLASH_ACTIVE_START;
        &&& pd2 == (PlayerData {
            buffer_attack: buffered,
            state: PlayerState::Swing { stage, tick: t },
            lunge_ticks: if finisher_start { FINISHER_HOP_TICKS } else { p1.lunge_ticks },
            ..p1
        })
        &&& anim2 == anim
        &&& o.clear_swing is None
        &&& o.attack == if active { Some(spec_stage_attack(stage)) } else { None }
        &&& o.toast_finisher == finisher_start
        &&& o.arc == if first { Some(false) } else { None }
        &&& o.spawn_beam == (first && stage == 0 && p.spec_at_full_hearts())
        &&& o.sounds@ == if finisher_start {
            seq![Sfx::Finisher]
        } else if first && stage == 0 {
            seq![Sfx::Slash1]
        } else if first && stage == 1 {
            seq![Sfx::Slash2]
        } else {
            seq![]
        }
    }
}

/// One sword tick: the transition relation of `update_sword`.
pub open spec fn sword_step(pd: PlayerData, anim: AnimState, pressed: bool, held: bool,
    pd2: PlayerData, anim2: AnimState, o: SwordOutput) -> bool {
    let p = spec_sword_pre(pd, pressed);
    match p.state {
        PlayerState::Idle => sword_ready(p, anim, pressed, pd2, anim2, o),
        PlayerState::DashRecovery { .. } => sword_ready(p, anim, pressed, pd2, anim2, o),
        PlayerState::Charging { tick } => sword_charging(p, anim, (tick + 1) as u16, held, pd2, anim2, o),
        PlayerState::Swing { stage, tick } => sword_swinging(p, anim, stage, (tick + 1) as u16, pressed, pd2, anim2, o),
        PlayerState::Spin { tick } => {
            &&& pd2 == if tick + 1 >= SPIN_TICKS {
                PlayerData { state: PlayerState::Idle, combo_drop: 0, ..p }
            } else {
                PlayerData { state: PlayerState::Spin { tick: (tick + 1) as u16 }, ..p }
            }
            &&& anim2 == anim
            &&& o.attack == if tick + 1 >= SPIN_TICKS { None } else { Some(AttackKind::Spin) }
            &&& o.clear_swing is None && !o.spawn_beam && !o.toast_finisher && !o.energy_denied
            &&& !o.charge_shimmer && o.arc is None && !o.lunge && !o.stop_velocity
            &&& o.sounds@.len() == 0
        },
        PlayerState::Dash { tick } => if tick >= DASH_CANCEL_SLASH_FROM && p.buffer_attack {
            &&& pd2 == spec_begin_swing(PlayerData { buffer_attack: false, ..p }, 0)
            &&& anim2 == spec_swing_anim(0)
            &&& o.clear_swing == Some(pd2.swing_id)
            &&& o.stop_velocity
            &&& o.attack is None && !o.spawn_beam && !o.toast_finisher && !o.energy_denied
            &&& !o.charge_shimmer && o.arc is None && !o.lunge
            &&& o.sounds@.len() == 0
        } else {
            pd2 == p && anim2 == anim && quiet(o)
        },
        PlayerState::LedgeHop { .. } => pd2 == p && anim2 == anim && quiet(o),
    }
}

/// The combo chains: when a slash or backslash ends (its last tick) with
/// the attack pressed or buffered, the next stage starts at once, with a
/// fresh swing id and its hit record cleared; the finisher ends the combo,
/// and so does a swing that ends with no press, leaving the combo window
/// open.
pub proof fn lemma_combo_chains(pd: PlayerData, anim: AnimState, pressed: bool, held: bool,
    pd2: PlayerData, anim2: AnimState, o: SwordOutput)
    requires
        sword_step(pd, anim, pressed, held, pd2, anim2, o),
        ticks_ok(pd.state),
        pd.state matches PlayerState::Swing { tick, .. } && tick + 1 >= SLASH_TICKS,
    ensures
        ({
            let stage = pd.state->Swing_stage;
            let chained = stage < 2 && (pd.buffer_attack || pressed);
            &&& chained ==> pd2.state == (PlayerState::Swing { stage: (stage + 1) as u8, tick: 0 })
                && pd2.swing_id == spec_next_id(pd.swing_id)
                && o.clear_swing == Some(pd2.swing_id)
                && !pd2.buffer_attack
            &&& !chained ==> pd2.state == PlayerState::Idle && pd2.combo_drop == COMBO_DROP_WINDOW
                && o.clear_swing is None && pd2.swing_id == pd.swing_id
        }),
{
}

fn begin_swing(pd: &mut PlayerData, anim: &mut AnimState, stage: u8)
    ensures
        *final(pd) == spec_begin_swing(*old(pd), stage),
        *final(anim) == spec_swing_anim(stage),
{
    pd.swing_id = next_id(pd.swing_id);
    pd.hit_mask = 0;
    pd.state = PlayerState::Swing { stage, tick: 0 };
    anim.sheet = stage as u16;
    anim.frame = 0;
    anim.timer = 0;
}

fn no_output() -> (o: SwordOutput)
    ensures
        quiet(o),
{
    SwordOutput {
        clear_swing: None,
        attack: None,
        spawn_beam: false,
        toast_finisher: false,
        energy_denied: false,
        charge_shimmer: false,
        arc: None,
        lunge: false,
        stop_velocity: false,
        sounds: Vec::new(),
    }
}

fn ready_tick(pd: &mut PlayerData, anim: &mut AnimState, attack_pressed: bool) -> (o: SwordOutput)
    requires
        old(pd).state is Idle || old(pd).state is DashRecovery,
    ensures
        sword_ready(*old(pd), *old(anim), attack_pressed, *final(pd), *final(anim), o),
{
    let mut o = no_output();
    let recovering = matches!(pd.state, PlayerState::DashRecovery { .. });
    if pd.buffer_attack && !pd.shield_held && pd.combo_drop > 0 {
        pd.buffer_attack = false;
        let stage: u8 = if anim.sheet < 2 { anim.sheet as u8 } else { 2 };
        begin_swing(pd, anim, stage);
        o.clear_swing = Some(pd.swing_id);
    } else if pd.buffer_attack && !pd.shield_held && recovering {
        pd.buffer_attack = false;
        begin_swing(pd, anim, 0);
        o.clear_swing = Some(pd.swing_id);
    } else if attack_pressed && !pd.shield_held && !recovering {
        pd.buffer_attack = false;
        pd.state = PlayerState::Charging { tick: 0 };
        pd.charge_ready_sfx = false;
    }
    o
}

fn charging_tick(pd: &mut PlayerData, anim: &mut AnimState, tick: u16, attack_held: bool) -> (o: SwordOutput)
    requires
        old(pd).state == (PlayerState::Charging { tick }),
        tick < u16::MAX,
    ensures
        sword_charging(*old(pd), *old(anim), (tick + 1) as u16, attack_held, *final(pd), *final(anim), o),
{
    let mut o = no_output();
    let t = tick + 1;
    o.charge_shimmer = true;
    let ghost rs: Seq<Sfx> = if t >= CHARGE_TICKS && !pd.charge_ready_sfx {
        seq![Sfx::ChargeReady]
    } else {
        seq![]
    };
    if t >= CHARGE_TICKS && !pd.charge_ready_sfx {
        pd.charge_ready_sfx = true;
        o.sounds.push(Sfx::ChargeReady);
    }
    assert(o.sounds@ =~= rs);
    if !attack_held {
        if t >= CHARGE_TICKS {
            if pd.energy >= SPIN_ENERGY {
                pd.energy = pd.energy - SPIN_ENERGY;
                pd.ticks_since_spend = 0;
                pd.swing_id = next_id(pd.swing_id);
                o.clear_swing = Some(pd.swing_id);
                pd.state = PlayerState::Spin { tick: 0 };
                o.sounds.push(Sfx::SpinRelease);
                assert(o.sounds@ =~= rs.push(Sfx::SpinRelease));
                o.arc = Some(true);
            } else {
                o.energy_denied = true;
                pd.energy_deny_flash = ENERGY_DENY_FLASH;
                begin_swing(pd, anim, 0);
                o.clear_swing = Some(pd.swing_id);
            }
        } else {
            begin_swing(pd, anim, 0);
            o.clear_swing = Some(pd.swing_id);
        }
    } else {
        pd.state = PlayerState::Charging { tick: t };
    }
    o
}

fn swing_tick(pd: &mut PlayerData, anim: &mut AnimState, stage: u8, tick: u16,
    attack_pressed: bool) -> (o: SwordOutput)
    requires
        old(pd).state == (PlayerState::Swing { stage, tick }),
        tick < u16::MAX,
    ensures
        sword_swinging(*old(pd), *old(anim), stage, (tick + 1) as u16, attack_pressed, *final(pd), *final(anim), o),
{
    let mut o = no_output();
    let t = tick + 1;
    if pd.lunge_ticks > 0 {
        o.lunge = true;
        pd.lunge_ticks = pd.lunge_ticks - 1;
    }
    if t >= SLASH_TICKS {
        if stage < 2 && pd.buffer_attack {
            pd.buffer_attack = false;
            begin_swing(pd, anim, stage + 1);
            o.clear_swing = Some(pd.swing_id);
        } else {
            pd.state = PlayerState::Idle;
            pd.combo_drop = COMBO_DROP_WINDOW;
            anim.sheet = stage as u16 + 1;
            pd.buffer_attack = false;
        }
        return o;
    }
    if t + SLASH_BUFFER_TICKS >= SLASH_TICKS && attack_pressed {
        pd.buffer_attack = true;
    }
    pd.state = PlayerState::Swing { stage, tick: t };
    if SLASH_ACTIVE_START <= t && t <= SLASH_ACTIVE_END {
        let kind = if stage == 0 {
            AttackKind::Slash
        } else if stage == 1 {
            AttackKind::Backslash
        } else {
            AttackKind::Finisher
        };
        if stage == 2 && t == SLASH_ACTIVE_START {
            o.toast_finisher = true;
            pd.lunge_ticks = FINISHER_HOP_TICKS;
            o.sounds.push(Sfx::Finisher);
        }
        o.attack = Some(kind);
        if t == SLASH_ACTIVE_START {
            o.arc = Some(false);
            if stage == 0 {
                o.sounds.push(Sfx::Slash1);
                if pd.at_full_hearts() {
                    o.spawn_beam = true;
                }
            } else if stage == 1 {
                o.sounds.push(Sfx::Slash2);
            }
        }
    }
    assert(o.sounds@ =~= if stage == 2 && t == SLASH_ACTIVE_START {
        seq![Sfx::Finisher]
    } else if t == SLASH_ACTIVE_START && stage == 0 {
        seq![Sfx::Slash1]
    } else if t == SLASH_ACTIVE_START && stage == 1 {
        seq![Sfx::Slash2]
    } else {
        seq![]
    });
    o
}

/// One tick of the sword: combo, charge/spin and dash-cancel transitions.
#[verifier::rlimit(40)]
pub fn update_sword(pd: &mut PlayerData, anim: &mut AnimState, attack_pressed: bool,
    attack_held: bool) -> (o: SwordOutput)
    requires
        ticks_ok(old(pd).state),
    ensures
        sword_step(*old(pd), *old(anim), attack_pressed, attack_held, *final(pd), *final(anim), o),
        // The sword never earns energy; a spin costs exactly its price.
        final(pd).energy <= old(pd).energy,
        (final(pd).state is Spin && !(old(pd).state is Spin)) ==> final(pd).energy + SPIN_ENERGY
            == old(pd).energy,
        // Its hitbox (`sword_hitbox`) is one of the sword's kinds.
        o.attack matches Some(k) ==> is_sword_kind(k),
        // A hitbox exists only on active swing frames or during a spin.
        o.attack is Some ==> (final(pd).state is Spin || (final(pd).state matches
            PlayerState::Swing { tick, .. } && SLASH_ACTIVE_START <= tick <= SLASH_ACTIVE_END)),
        // A fresh swing id is handed out exactly when the hit record is cleared.
        o.clear_swing is Some ==> final(pd).swing_id == spec_next_id(old(pd).swing_id)
            && o.clear_swing == Some(final(pd).swing_id),
        o.clear_swing is None ==> final(pd).swing_id == old(pd).swing_id,
        // The combo has three stages.
        stage_ok(old(pd).state) ==> stage_ok(final(pd).state),
{
    if pd.combo_drop > 0 {
        pd.combo_drop = pd.combo_drop - 1;
    }
    if attack_pressed {
        pd.buffer_attack = true;
    }
    if let PlayerState::DashRecovery { tick } = pd.state {
        let t = tick + 1;
        if t >= DASH_RECOVERY {
            pd.state = PlayerState::Idle;
        } else {
            pd.state = PlayerState::DashRecovery { tick: t };
        }
    }
    assert(*pd == spec_sword_pre(*old(pd), attack_pressed));
    match pd.state {
        PlayerState::Idle | PlayerState::DashRecovery { .. } => ready_tick(pd, anim, attack_pressed),
        PlayerState::Charging { tick } => charging_tick(pd, anim, tick, attack_held),
        PlayerState::Swing { stage, tick } => swing_tick(pd, anim, stage, tick, attack_pressed),
        PlayerState::Spin { tick } => {
            let mut o = no_output();
            let t = tick + 1;
            if t >= SPIN_TICKS {
                pd.state = PlayerState::Idle;
                pd.combo_drop = 0;
            } else {
                pd.state = PlayerState::Spin { tick: t };
                o.attack = Some(AttackKind::Spin);
            }
            o
        },
        PlayerState::Dash { tick } => {
            let mut o = no_output();
            if tick >= DASH_CANCEL_SLASH_FROM && pd.buffer_attack {
                pd.buffer_attack = false;
                begin_swing(pd, anim, 0);
                o.clear_swing = Some(pd.swing_id);
                o.stop_velocity = true;
            }
            o
        },
        PlayerState::LedgeHop { .. } => no_output(),
    }
}

/// How far in front of the player a slash box sits: 14 px, in sub-pixels
/// (256 to the pixel).
pub const SLASH_REACH: i32 = 3584;
/// Half the side of a slash box: 10 px, in sub-pixels.
pub const SLASH_HALF: i32 = 2560;
/// Radius of the spin ring: 28 px, in sub-pixels.
pub const SPIN_RADIUS: i32 = 7168;

/// What a sword hit carries to the front end: the facing it pushes along,
/// its damage in tenths (1.0, 1.5 for the finisher, 2.0 for the spin) and
/// its knockback in hundredths.
#[derive(Clone, Copy, Debug, PartialEq, Eq, Structural)]
pub struct SwingPush {
    pub facing: Dir4,
    pub damage_tenths: u16,
    pub knockback_hundredths: u16,
}

/// The sword's attack kinds.
pub open spec fn is_sword_kind(k: AttackKind) -> bool {
    k == AttackKind::Slash || k == AttackKind::Backslash || k == AttackKind::Finisher || k == AttackKind::Spin
}

/// The hitbox of a sword attack of kind `kind` by `owner` (the player, at
/// `center`, facing `facing`, with swing id `swing_id`): a slash is a
/// 20 px box 14 px ahead; the spin is a 28 px ring around the player.
/// Slashes deal 1 (the finisher 1.5, which takes one whole hit point) and
/// the spin 2; the finisher and spin push harder.
pub open spec fn spec_sword_hitbox(owner: EntityId, swing_id: u32, kind: AttackKind, facing: Dir4, center: (i32, i32))
    -> ActiveAttack<SwingPush> {
    let step = spec_dir_step(facing);
    if kind == AttackKind::Spin {
        ActiveAttack {
            owner,
            kind,
            swing_id,
            area: Aabb { cx: center.0, cy: center.1, hx: 0, hy: 0 },
            use_radius: true,
            radius: SPIN_RADIUS,
            damage_floor: 2,
            payload: SwingPush { facing, damage_tenths: 20, knockback_hundredths: 400 },
        }
    } else {
        ActiveAttack {
            owner,
            kind,
            swing_id,
            area: Aabb {
                cx: (center.0 + step.0 * SLASH_REACH) as i32,
                cy: (center.1 + step.1 * SLASH_REACH) as i32,
                hx: SLASH_HALF,
                hy: SLASH_HALF,
            },
            use_radius: false,
            radius: 0,
            damage_floor: 1,
            payload: if kind == AttackKind::Finisher {
                SwingPush { facing, damage_tenths: 15, knockback_hundredths: 512 }
            } else {
                SwingPush { facing, damage_tenths: 10, knockback_hundredths: 200 }
            },
        }
    }
}

/// The hitbox registered for a sword attack that `update_sword` reports
/// (`o.attack`), with the player's current swing id.
pub fn sword_hitbox(owner: EntityId, swing_id: u32, kind: AttackKind, facing: Dir4, center: (i32, i32))
    -> (a: ActiveAttack<SwingPush>)
    requires
        is_sword_kind(kind),
        i32::MIN + SLASH_REACH <= center.0 <= i32::MAX - SLASH_REACH,
        i32::MIN + SLASH_REACH <= center.1 <= i32::MAX - SLASH_REACH,
    ensures
        a == spec_sword_hitbox(owner, swing_id, kind, facing, center),
{
    if kind == AttackKind::Spin {
        return ActiveAttack {
            owner,
            kind,
            swing_id,
            area: Aabb { cx: center.0, cy: center.1, hx: 0, hy: 0 },
            use_radius: true,
            radius: SPIN_RADIUS,
            damage_floor: 2,
            payload: SwingPush { facing, damage_tenths: 20, knockback_hundredths: 400 },
        };
    }
    let step = dir_step(facing);
    let payload = if kind == AttackKind::Finisher {
        SwingPush { facing, damage_tenths: 15, knockback_hundredths: 512 }
    } else {
        SwingPush { facing, damage_tenths: 10, knockback_hundredths: 200 }
    };
    ActiveAttack {
        owner,
        kind,
        swing_id,
        area: Aabb {
            cx: center.0 + step.0 * SLASH_REACH,
            cy: center.1 + step.1 * SLASH_REACH,
            hx: SLASH_HALF,
            hy: SLASH_HALF,
        },
        use_radius: false,
        radius: 0,
        damage_floor: 1,
        payload,
    }
}

} // verus!
