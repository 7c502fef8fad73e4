//! The player's simulation state (the parts the rules read and write).

use vstd::prelude::*;
use crate::cue::{Cue, Sfx};
use crate::energy::{fill, tick as energy_tick};
use crate::entity::{AnimState, Health};
use crate::style::{dash_energy_cost, spec_min, style_consistent, tick as style_tick};
use crate::tuning::{
    DASH_DURATION, DASH_ENERGY, DASH_ENERGY_A_PLUS, DASH_IFRAME_END, DASH_IFRAME_START, ENERGY_DENY_FLASH, ENERGY_MAX,
    FOUNTAIN_ENERGY_PER_TICK, FOUNTAIN_HEART_INTERVAL,
};

verus! {

/// What the player's body is doing this tick.
#[derive(Clone, Copy, Debug, PartialEq, Eq, Structural)]
pub enum PlayerState {
    Idle,
    Swing { stage: u8, tick: u16 },
    Charging { tick: u16 },
    Spin { tick: u16 },
    Dash { tick: u16 },
    DashRecovery { tick: u16 },
    LedgeHop { tick: u16 },
}

/// Player meters and combat state. Energy is in tenths, style points in
/// 1/180ths (see `tuning`).
#[derive(Clone, Copy, Debug)]
pub struct PlayerData {
    pub hearts: i32,
    pub max_hearts: i32,
    pub rupees: u32,
    pub bombs: u8,
    pub bomb_cap: u8,
    pub selected_item: u8,
    pub item_cycle_flash: u8,
    pub energy: u32,
    pub energy_deny_flash: u8,
    pub ticks_since_spend: u16,
    pub style_points: u32,
    pub style_rank: u8,
    pub style_pulse: u8,
    pub verb_cooldowns: [u16; 6],
    pub combat_timer: u16,
    pub out_of_combat: u16,
    pub no_dmg_streak: u16,
    pub state: PlayerState,
    pub shield_held: bool,
    pub shield_ticks: u16,
    pub buffer_attack: bool,
    pub combo_drop: u16,
    pub swing_id: u32,
    pub hit_mask: u32,
    pub lunge_ticks: u8,
    pub charge_ready_sfx: bool,
    pub dash_through_awarded: bool,
    pub walk_timer: u16,
}

impl PlayerData {
    /// Full hearts: the sword beam condition.
    pub open spec fn spec_at_full_hearts(self) -> bool {
        self.hearts >= self.max_hearts
    }

    pub fn at_full_hearts(&self) -> (r: bool)
        ensures
            r == self.spec_at_full_hearts(),
    {
        self.hearts >= self.max_hearts
    }
}


/// Longest press of the item button that still counts as a tap (use the
/// B-item instead of raising the shield).
pub const ITEM_TAP_MAX_TICKS: u16 = 8;

/// What the shield / dash / item input asked for this tick.
#[derive(Clone, Copy, Debug, PartialEq, Eq, Structural)]
pub struct IntentTick {
    pub place_bomb: bool,
    pub throw_boomerang: bool,
    /// Not enough energy to dash: refused sound, deny flash.
    pub denied: bool,
    /// A dash started (dust and dash sound); its direction is the move input
    /// or the facing.
    pub dashed: bool,
}

/// Shield, B-item tap and dash intent of one tick.
/// Holding the item button raises the shield from idle or dash recovery;
/// releasing it within `ITEM_TAP_MAX_TICKS` uses the selected B-item
/// (bombs need one in the bag); a dash from idle costs `dash_energy_cost`.
pub fn shield_and_dash_intent(pd: &mut PlayerData, item_held: bool, dash_pressed: bool) -> (r: IntentTick)
    ensures
        ({
            let can_shield = old(pd).state is Idle || old(pd).state is DashRecovery;
            let tap = !item_held && old(pd).shield_ticks >= 1 && old(pd).shield_ticks <= ITEM_TAP_MAX_TICKS
                && can_shield;
            let shield_held = if item_held && can_shield { true } else if !item_held { false } else { old(pd).shield_held };
            let shield_ticks = if item_held && can_shield {
                if old(pd).shield_ticks < u16::MAX { (old(pd).shield_ticks + 1) as u16 } else { old(pd).shield_ticks }
            } else if !item_held {
                0
            } else {
                old(pd).shield_ticks
            };
            let cost = if old(pd).style_rank >= 3 { DASH_ENERGY_A_PLUS } else { DASH_ENERGY };
            let wants_dash = dash_pressed && old(pd).state is Idle && !shield_held;
            let p1 = PlayerData {
                shield_held,
                shield_ticks,
                item_cycle_flash: if old(pd).item_cycle_flash > 0 { (old(pd).item_cycle_flash - 1) as u8 } else { 0 },
                ..*old(pd)
            };
            &&& r.place_bomb == (tap && old(pd).selected_item == 1 && old(pd).bombs > 0)
            &&& r.throw_boomerang == (tap && !(old(pd).selected_item == 1 && old(pd).bombs > 0) && old(pd).selected_item == 2)
            &&& r.dashed == (wants_dash && old(pd).energy >= cost)
            &&& r.denied == (wants_dash && old(pd).energy < cost)
            &&& *final(pd) == if r.dashed {
                PlayerData {
                    energy: (old(pd).energy - cost) as u32,
                    ticks_since_spend: 0,
                    state: PlayerState::Dash { tick: 0 },
                    dash_through_awarded: false,
                    ..p1
                }
            } else if r.denied {
                PlayerData { energy_deny_flash: ENERGY_DENY_FLASH, ..p1 }
            } else {
                p1
            }
        }),
{
    let mut r = IntentTick { place_bomb: false, throw_boomerang: false, denied: false, dashed: false };
    let can_shield = matches!(pd.state, PlayerState::Idle | PlayerState::DashRecovery { .. });
    if !item_held && pd.shield_ticks >= 1 && pd.shield_ticks <= ITEM_TAP_MAX_TICKS && can_shield {
        if pd.selected_item == 1 && pd.bombs > 0 {
            r.place_bomb = true;
        } else if pd.selected_item == 2 {
            r.throw_boomerang = true;
        }
    }
    if item_held && can_shield {
        pd.shield_held = true;
        pd.shield_ticks = pd.shield_ticks.saturating_add(1);
    } else if !item_held {
        pd.shield_held = false;
        pd.shield_ticks = 0;
    }
    if pd.item_cycle_flash > 0 {
        pd.item_cycle_flash = pd.item_cycle_flash - 1;
    }
    if dash_pressed && matches!(pd.state, PlayerState::Idle) && !pd.shield_held {
        let cost = dash_energy_cost(pd);
        if pd.energy >= cost {
            pd.energy = pd.energy - cost;
            pd.ticks_since_spend = 0;
            pd.state = PlayerState::Dash { tick: 0 };
            pd.dash_through_awarded = false;
            r.dashed = true;
        } else {
            r.denied = true;
            pd.energy_deny_flash = ENERGY_DENY_FLASH;
        }
    }
    r
}

/// Cycle the B-item through the unlocked ones (bombs once the bag is owned,
/// the boomerang once found). Returns false (refused) when none is unlocked.
pub fn cycle_items(pd: &mut PlayerData, has_boomerang: bool) -> (ok: bool)
    ensures
        ({
            let bombs = old(pd).bomb_cap > 0;
            let next: u8 = if bombs && has_boomerang {
                if old(pd).selected_item == 1 { 2 } else if old(pd).selected_item == 2 { 1 } else { 1 }
            } else if bombs {
                1
            } else {
                2
            };
            &&& ok == (bombs || has_boomerang)
            &&& ok ==> *final(pd) == (PlayerData { selected_item: next, item_cycle_flash: 12, ..*old(pd) })
            &&& !ok ==> *final(pd) == *old(pd)
        }),
{
    let mut unlocked: Vec<u8> = Vec::new();
    if pd.bomb_cap > 0 {
        unlocked.push(1);
    }
    if has_boomerang {
        unlocked.push(2);
    }
    if unlocked.len() == 0 {
        return false;
    }
    let mut cur: Option<usize> = None;
    let mut i: usize = 0;
    while i < unlocked.len()
        invariant
            i <= unlocked.len() <= 2,
            cur is None ==> forall|j: int| 0 <= j < i ==> unlocked@[j] != pd.selected_item,
            cur matches Some(c) ==> c < unlocked.len() && unlocked@[c as int] == pd.selected_item
                && forall|j: int| 0 <= j < c ==> unlocked@[j] != pd.selected_item,
        decreases unlocked.len() - i,
    {
        if cur.is_none() && unlocked[i] == pd.selected_item {
            cur = Some(i);
        }
        i = i + 1;
    }
    let next = match cur {
        Some(c) => unlocked[(c + 1) % unlocked.len()],
        None => unlocked[0],
    };
    pd.selected_item = next;
    pd.item_cycle_flash = 12;
    true
}

/// Dash progress of one movement tick: i-frames on ticks 2 to 8,
/// recovery after `DASH_DURATION`. Returns whether the dash ended (stop).
pub fn dash_step(pd: &mut PlayerData, health: &mut Option<Health>) -> (ended: bool)
    requires
        old(pd).state matches PlayerState::Dash { tick } && tick < u16::MAX,
    ensures
        ({
            let t = (old(pd).state->Dash_tick + 1) as u16;
            &&& ended == (t >= DASH_DURATION)
            &&& *final(pd) == (PlayerData {
                state: if ended { PlayerState::DashRecovery { tick: 0 } } else { PlayerState::Dash { tick: t } },
                ..*old(pd)
            })
            &&& (*old(health) is Some && DASH_IFRAME_START <= t <= DASH_IFRAME_END) ==> *final(health) == Some(Health {
                iframes: if (*old(health)).unwrap().iframes >= 1 { (*old(health)).unwrap().iframes } else { 1 },
                ..(*old(health)).unwrap()
            })
            &&& !(*old(health) is Some && DASH_IFRAME_START <= t <= DASH_IFRAME_END) ==> *final(health) == *old(health)
        }),
{
    let tick = match pd.state {
        PlayerState::Dash { tick } => tick,
        _ => 0,
    };
    let t = tick + 1;
    if let Some(h) = health {
        if DASH_IFRAME_START <= t && t <= DASH_IFRAME_END {
            if h.iframes < 1 {
                h.iframes = 1;
            }
        }
    }
    if t >= DASH_DURATION {
        pd.state = PlayerState::DashRecovery { tick: 0 };
        true
    } else {
        pd.state = PlayerState::Dash { tick: t };
        false
    }
}

/// Player meters per tick (`tick_player_meters`): hurt timers, energy, style
/// (returns the style cues), hearts mirror the health.
pub fn tick_player_meters(pd: &mut PlayerData, health: &mut Option<Health>) -> (cues: Vec<Cue>)
    ensures
        *old(health) is None ==> *final(health) is None,
        *old(health) is Some ==> *final(health) == Some(Health {
            iframes: if (*old(health)).unwrap().iframes > 0 { ((*old(health)).unwrap().iframes - 1) as u16 } else { 0 },
            flash: if (*old(health)).unwrap().flash > 0 { ((*old(health)).unwrap().flash - 1) as u8 } else { 0 },
            ..(*old(health)).unwrap()
        }),
        *old(health) is Some ==> final(pd).hearts == (*old(health)).unwrap().hp,
        *old(health) is None ==> final(pd).hearts == old(pd).hearts,
        old(pd).energy <= ENERGY_MAX ==> final(pd).energy <= ENERGY_MAX,
        style_consistent(*old(pd)) ==> style_consistent(*final(pd)),
{
    if let Some(h) = health {
        if h.iframes > 0 {
            h.iframes = h.iframes - 1;
        }
        if h.flash > 0 {
            h.flash = h.flash - 1;
        }
    }
    energy_tick(pd);
    let cues = style_tick(pd);
    if let Some(h) = health {
        pd.hearts = h.hp;
    }
    cues
}

/// Dash-through: crossing an enemy during the dash i-frames earns the style
/// verb once per dash (`enemy_overlap`: the front end's body query).
pub fn check_dash_through(pd: &mut PlayerData, iframes: u16, enemy_overlap: bool) -> (award: bool)
    ensures
        award == (old(pd).state matches PlayerState::Dash { tick } && DASH_IFRAME_START <= tick <= DASH_IFRAME_END
            && !old(pd).dash_through_awarded && iframes > 0 && enemy_overlap),
        award ==> *final(pd) == (PlayerData { dash_through_awarded: true, ..*old(pd) }),
        !award ==> *final(pd) == *old(pd),
{
    let dashing = match pd.state {
        PlayerState::Dash { tick } => DASH_IFRAME_START <= tick && tick <= DASH_IFRAME_END,
        _ => false,
    };
    if !dashing || pd.dash_through_awarded || iframes == 0 || !enemy_overlap {
        return false;
    }
    pd.dash_through_awarded = true;
    true
}

/// Standing in a fairy fountain: energy refills every tick and a heart
/// every `FOUNTAIN_HEART_INTERVAL` ticks. Returns whether the chime plays
/// (something was restored and the tick is a multiple of 20).
pub fn fountain_tick(pd: &mut PlayerData, health: &mut Option<Health>, world_tick: u64) -> (chime: bool)
    ensures
        final(pd).energy == spec_min(old(pd).energy + FOUNTAIN_ENERGY_PER_TICK, ENERGY_MAX as int),
        ({
            let heal = *old(health) is Some && world_tick % (FOUNTAIN_HEART_INTERVAL as u64) == 0
                && (*old(health)).unwrap().hp < (*old(health)).unwrap().max;
            &&& heal ==> *final(health) == Some(Health { hp: ((*old(health)).unwrap().hp + 1) as i32, ..(*old(health)).unwrap() })
                && final(pd).hearts == (*old(health)).unwrap().hp + 1
            &&& !heal ==> *final(health) == *old(health) && final(pd).hearts == old(pd).hearts
            &&& chime == ((final(pd).energy > old(pd).energy || heal) && world_tick % 20 == 0)
            &&& *final(pd) == (PlayerData { energy: final(pd).energy, hearts: final(pd).hearts, ..*old(pd) })
        }),
{
    let before = pd.energy;
    fill(pd, FOUNTAIN_ENERGY_PER_TICK);
    let mut restored = pd.energy > before;
    if world_tick % (FOUNTAIN_HEART_INTERVAL as u64) == 0 {
        if let Some(h) = health {
            if h.hp < h.max {
                h.hp = h.hp + 1;
                pd.hearts = h.hp;
                restored = true;
            }
        }
    }
    restored && world_tick % 20 == 0
}


/// Walk animation of an idle-state player: while it
/// moves, the walk clock runs and every eighth tick steps the four-frame
/// cycle; standing still shows frame 0.
pub fn walk_anim(pd: &mut PlayerData, anim: &mut AnimState, moving: bool)
    requires
        old(anim).frame < u16::MAX,
    ensures
        moving ==> {
            let w = if old(pd).walk_timer == u16::MAX { 0 } else { (old(pd).walk_timer + 1) as u16 };
            &&& *final(pd) == (PlayerData { walk_timer: w, ..*old(pd) })
            &&& final(anim).frame == if w % 8 == 0 { ((old(anim).frame + 1) % 4) as u16 } else { old(anim).frame }
        },
        !moving ==> *final(pd) == *old(pd) && final(anim).frame == 0,
        final(anim).timer == old(anim).timer && final(anim).sheet == old(anim).sheet,
{
    if moving {
        pd.walk_timer = if pd.walk_timer == u16::MAX { 0 } else { pd.walk_timer + 1 };
        if pd.walk_timer % 8 == 0 {
            anim.frame = (anim.frame + 1) % 4;
        }
    } else {
        anim.frame = 0;
    }
}

} // verus!
