//! How things look: the player's sprite and frame for its state, the
//! blink of invulnerability, and each enemy's sprite or spawn telegraph.

use vstd::prelude::*;
use crate::entity::EntityKind;
use crate::math::{dir_slot, spec_dir_slot, Dir4};
use crate::player::PlayerState;
use crate::tiles::Ground;
use crate::tuning::{PERFECT_BLOCK_WINDOW, PICKUP_BLINK, SLASH_TICKS};

verus! {

/// Idle breathing frame: two frames per facing row, 24 ticks each.
pub open spec fn spec_idle_frame(slot: u32, timer: u16) -> u32 {
    let breath = ((timer / 24) % 2) as u32;
    if slot == 0 { breath } else if slot == 1 { (2 + breath) as u32 } else { (4 + breath) as u32 }
}

pub fn idle_frame(slot: u32, timer: u16) -> (f: u32)
    ensures
        f == spec_idle_frame(slot, timer),
{
    let breath = ((timer / 24) % 2) as u32;
    if slot == 0 { breath } else if slot == 1 { 2 + breath } else { 4 + breath }
}

pub open spec fn by_slot(slot: u32, down: &'static str, up: &'static str, side: &'static str) -> &'static str {
    if slot == 0 { down } else if slot == 1 { up } else { side }
}

/// The player's sprite key, frame and mirroring. `hurt_flash`: its hit
/// flash is on; `moving`: it walks. A hurt idle player shows the hurt
/// pose; swings show the slash, backslash or lunge of their stage over
/// the swing; spins turn through eight frames; dashes alternate two.
pub open spec fn spec_player_sprite(facing: Dir4, state: PlayerState, shield_held: bool, walk_timer: u16, anim_timer: u16, hurt_flash: bool, moving: bool) -> (&'static str, u32, bool) {
    let flip = facing == Dir4::Left;
    let slot = spec_dir_slot(facing);
    if hurt_flash && state == PlayerState::Idle {
        ("player_hurt", 0, flip)
    } else {
        match state {
            PlayerState::Swing { stage, tick } => {
                let f0 = (tick as int * 3) / (SLASH_TICKS as int);
                let f = if f0 > 2 { 2 } else { f0 };
                let key = if stage == 0 {
                    by_slot(slot, "player_slash_d", "player_slash_u", "player_slash_r")
                } else if stage == 1 {
                    by_slot(slot, "player_bslash_d", "player_bslash_u", "player_bslash_r")
                } else {
                    by_slot(slot, "player_lunge_d", "player_lunge_u", "player_lunge_r")
                };
                (key, (if stage >= 2 && f > 1 { 1 } else { f }) as u32, flip)
            },
            PlayerState::Spin { tick } => ("player_spin", ((tick / 2) % 8) as u32, false),
            PlayerState::Dash { tick } => (by_slot(slot, "player_dash_d", "player_dash_u", "player_dash_r"), ((tick / 4) % 2) as u32, flip),
            PlayerState::DashRecovery { tick } => (by_slot(slot, "player_dash_d", "player_dash_u", "player_dash_r"), ((tick / 4) % 2) as u32, flip),
            PlayerState::Charging { .. } => ("player_idle", spec_idle_frame(slot, walk_timer), flip),
            PlayerState::LedgeHop { .. } => (by_slot(slot, "player_dash_d", "player_dash_u", "player_dash_r"), 0, flip),
            PlayerState::Idle => if shield_held {
                ("player_shield", slot, flip)
            } else if moving {
                (by_slot(slot, "player_walk_d", "player_walk_u", "player_walk_r"), ((walk_timer / 8) % 4) as u32, flip)
            } else {
                ("player_idle", spec_idle_frame(slot, anim_timer), flip)
            },
        }
    }
}

fn pick(slot: u32, down: &'static str, up: &'static str, side: &'static str) -> (k: &'static str)
    ensures
        k == by_slot(slot, down, up, side),
{
    if slot == 0 { down } else if slot == 1 { up } else { side }
}

pub fn player_sprite(facing: Dir4, state: PlayerState, shield_held: bool, walk_timer: u16, anim_timer: u16, hurt_flash: bool, moving: bool) -> (r: (&'static str, u32, bool))
    ensures
        r == spec_player_sprite(facing, state, shield_held, walk_timer, anim_timer, hurt_flash, moving),
{
    let flip = facing == Dir4::Left;
    let slot = dir_slot(facing);
    if hurt_flash && state == PlayerState::Idle {
        return ("player_hurt", 0, flip);
    }
    match state {
        PlayerState::Swing { stage, tick } => {
            let f0: u32 = (tick as u32 * 3) / (SLASH_TICKS as u32);
            let f: u32 = if f0 > 2 { 2 } else { f0 };
            let key = if stage == 0 {
                pick(slot, "player_slash_d", "player_slash_u", "player_slash_r")
            } else if stage == 1 {
                pick(slot, "player_bslash_d", "player_bslash_u", "player_bslash_r")
            } else {
                pick(slot, "player_lunge_d", "player_lunge_u", "player_lunge_r")
            };
            (key, if stage >= 2 && f > 1 { 1 } else { f }, flip)
        },
        PlayerState::Spin { tick } => ("player_spin", ((tick / 2) % 8) as u32, false),
        PlayerState::Dash { tick } => (pick(slot, "player_dash_d", "player_dash_u", "player_dash_r"), ((tick / 4) % 2) as u32, flip),
        PlayerState::DashRecovery { tick } => (pick(slot, "player_dash_d", "player_dash_u", "player_dash_r"), ((tick / 4) % 2) as u32, flip),
        PlayerState::Charging { .. } => ("player_idle", idle_frame(slot, walk_timer), flip),
        PlayerState::LedgeHop { .. } => (pick(slot, "player_dash_d", "player_dash_u", "player_dash_r"), 0, flip),
        PlayerState::Idle => {
            if shield_held {
                ("player_shield", slot, flip)
            } else if moving {
                (pick(slot, "player_walk_d", "player_walk_u", "player_walk_r"), ((walk_timer / 8) % 4) as u32, flip)
            } else {
                ("player_idle", idle_frame(slot, anim_timer), flip)
            }
        },
    }
}

/// Invulnerable, the player blinks: hidden while `(iframes / 2)` is even.
pub fn player_visible(iframes: u16) -> (v: bool)
    ensures
        v == !(iframes > 0 && (iframes / 2) % 2 == 0),
{
    !(iframes > 0 && (iframes / 2) % 2 == 0)
}

/// The glow behind the player: a nearly full charge, or the perfect-block
/// window of a freshly raised shield.
pub fn player_glows(state: PlayerState, shield_held: bool, shield_ticks: u16) -> (g: bool)
    ensures
        g == ((state matches PlayerState::Charging { tick } && tick >= 20)
            || (shield_held && shield_ticks > 0 && shield_ticks <= PERFECT_BLOCK_WINDOW)),
{
    let charged = match state {
        PlayerState::Charging { tick } => tick >= 20,
        _ => false,
    };
    charged || (shield_held && shield_ticks > 0 && shield_ticks <= PERFECT_BLOCK_WINDOW)
}

/// What an enemy-side entity shows this frame.
#[derive(Clone, Copy, Debug)]
pub enum Look {
    /// Not an enemy or projectile: drawn elsewhere.
    NotEnemy,
    /// Drawn as nothing (a down dummy, or the hit-flash blink).
    Hidden,
    /// Still spawning: a translucent telegraph circle of the kind's colour.
    Telegraph,
    /// A sprite frame, mirrored or not; `tall` sprites sit 8 px higher.
    Sprite { key: &'static str, frame: u32, flip: bool, tall: bool },
}

/// What the look of an enemy depends on.
#[derive(Clone, Copy, Debug)]
pub struct LookFacts {
    pub kind: EntityKind,
    /// A training dummy that is down.
    pub dummy_down: bool,
    /// Spawned (has a body; without one it is still telegraphing).
    pub has_body: bool,
    /// The hit flash, if it has health.
    pub flash: Option<u8>,
    /// Its hit points, if it has health.
    pub hp: Option<i32>,
    pub facing: Dir4,
    pub frame: u16,
    pub timer: u16,
    /// A rock the player reflected.
    pub rock_reflected: bool,
    /// A wisp still telegraphing its spawn.
    pub wisp_telegraph: bool,
    /// A wisp fading out or phased.
    pub wisp_phased: bool,
}

/// The hit flash blinks the sprite out on even flash ticks.
pub open spec fn spec_flashing(flash: Option<u8>) -> bool {
    flash matches Some(f) && f > 0 && f % 2 == 0
}

pub fn flashing(flash: Option<u8>) -> (b: bool)
    ensures
        b == spec_flashing(flash),
{
    match flash {
        Some(f) => f > 0 && f % 2 == 0,
        None => false,
    }
}

pub open spec fn min16(a: u16, b: u16) -> u32 {
    (if a <= b { a } else { b }) as u32
}

/// A tall walker (raiders, skeletons): telegraph until spawned, blink on
/// hits, else its sprite up to `max_frame`, mirrored facing left.
pub open spec fn tall_look(x: LookFacts, key: &'static str, max_frame: u16) -> Look {
    if !x.has_body {
        Look::Telegraph
    } else if spec_flashing(x.flash) {
        Look::Hidden
    } else {
        Look::Sprite { key, frame: min16(x.frame, max_frame), flip: x.facing == Dir4::Left, tall: true }
    }
}

/// A flat walker: telegraph until spawned, blink on hits, else `key` at
/// the given frame.
pub open spec fn flat_look(x: LookFacts, key: &'static str, frame: u32, flip: bool) -> Look {
    if !x.has_body {
        Look::Telegraph
    } else if spec_flashing(x.flash) {
        Look::Hidden
    } else {
        Look::Sprite { key, frame, flip, tall: false }
    }
}

pub open spec fn spec_enemy_look(x: LookFacts) -> Look {
    let left = x.facing == Dir4::Left;
    match x.kind {
        EntityKind::Dummy => if x.dummy_down || spec_flashing(x.flash) {
            Look::Hidden
        } else {
            Look::Sprite { key: "slime_dummy", frame: ((x.timer / 16) % 2) as u32, flip: false, tall: false }
        },
        EntityKind::Slime => flat_look(x, if x.hp matches Some(hp) && hp <= 1 { "slime_angry" } else { "slime" }, x.frame as u32, false),
        EntityKind::Bat => flat_look(x, "bat", x.frame as u32, left),
        EntityKind::Octorok => flat_look(x, "octorok", x.frame as u32, left),
        EntityKind::OctorokRock => Look::Sprite {
            key: if x.rock_reflected { "octorok_rock_warm" } else { "octorok_rock" },
            frame: x.frame as u32,
            flip: false,
            tall: false,
        },
        EntityKind::RaiderSpear => tall_look(x, "raider_spear", 5),
        EntityKind::RaiderTorch => tall_look(x, "raider_torch", 2),
        EntityKind::Skeleton => tall_look(x, "skeleton", 4),
        EntityKind::Ironshell => flat_look(x, "ironshell", min16(x.frame, 3), left),
        EntityKind::GraniteWarden => if spec_flashing(x.flash) {
            Look::Hidden
        } else {
            Look::Sprite { key: "granite_warden", frame: min16(x.frame, 3), flip: false, tall: false }
        },
        EntityKind::WindCrystal => Look::Sprite { key: "wind_crystal", frame: min16(x.frame, 1), flip: false, tall: false },
        EntityKind::PebbleCrawler => if spec_flashing(x.flash) {
            Look::Hidden
        } else {
            Look::Sprite { key: "pebble", frame: min16(x.frame, 1), flip: false, tall: false }
        },
        EntityKind::Wisp => if x.wisp_telegraph {
            Look::Telegraph
        } else if spec_flashing(x.flash) {
            Look::Hidden
        } else {
            Look::Sprite { key: "wisp", frame: if x.wisp_phased { 2 } else { min16(x.frame, 1) }, flip: false, tall: false }
        },
        EntityKind::TorchProj => Look::Sprite { key: "torch_proj", frame: min16(x.frame, 1), flip: false, tall: false },
        EntityKind::TorchFlame => Look::Sprite { key: "torch_flame", frame: min16(x.frame, 1), flip: false, tall: false },
        _ => Look::NotEnemy,
    }
}

fn min_frame(a: u16, b: u16) -> (m: u32)
    ensures
        m == min16(a, b),
{
    (if a <= b { a } else { b }) as u32
}

fn tall(x: &LookFacts, key: &'static str, max_frame: u16) -> (l: Look)
    ensures
        l == tall_look(*x, key, max_frame),
{
    if !x.has_body {
        Look::Telegraph
    } else if flashing(x.flash) {
        Look::Hidden
    } else {
        Look::Sprite { key, frame: min_frame(x.frame, max_frame), flip: x.facing == Dir4::Left, tall: true }
    }
}

fn flat(x: &LookFacts, key: &'static str, frame: u32, flip: bool) -> (l: Look)
    ensures
        l == flat_look(*x, key, frame, flip),
{
    if !x.has_body {
        Look::Telegraph
    } else if flashing(x.flash) {
        Look::Hidden
    } else {
        Look::Sprite { key, frame, flip, tall: false }
    }
}

/// The look of an enemy, projectile or arena piece (see
/// `spec_enemy_look`); `NotEnemy` for everything else.
pub fn enemy_look(x: &LookFacts) -> (l: Look)
    ensures
        l == spec_enemy_look(*x),
{
    let left = x.facing == Dir4::Left;
    match x.kind {
        EntityKind::Dummy => {
            if x.dummy_down || flashing(x.flash) {
                Look::Hidden
            } else {
                Look::Sprite { key: "slime_dummy", frame: ((x.timer / 16) % 2) as u32, flip: false, tall: false }
            }
        },
        EntityKind::Slime => {
            let angry = match x.hp {
                Some(hp) => hp <= 1,
                None => false,
            };
            flat(x, if angry { "slime_angry" } else { "slime" }, x.frame as u32, false)
        },
        EntityKind::Bat => flat(x, "bat", x.frame as u32, left),
        EntityKind::Octorok => flat(x, "octorok", x.frame as u32, left),
        EntityKind::OctorokRock => Look::Sprite {
            key: if x.rock_reflected { "octorok_rock_warm" } else { "octorok_rock" },
            frame: x.frame as u32,
            flip: false,
            tall: false,
        },
        EntityKind::RaiderSpear => tall(x, "raider_spear", 5),
        EntityKind::RaiderTorch => tall(x, "raider_torch", 2),
        EntityKind::Skeleton => tall(x, "skeleton", 4),
        EntityKind::Ironshell => flat(x, "ironshell", min_frame(x.frame, 3), left),
        EntityKind::GraniteWarden => {
            if flashing(x.flash) {
                Look::Hidden
            } else {
                Look::Sprite { key: "granite_warden", frame: min_frame(x.frame, 3), flip: false, tall: false }
            }
        },
        EntityKind::WindCrystal => Look::Sprite { key: "wind_crystal", frame: min_frame(x.frame, 1), flip: false, tall: false },
        EntityKind::PebbleCrawler => {
            if flashing(x.flash) {
                Look::Hidden
            } else {
                Look::Sprite { key: "pebble", frame: min_frame(x.frame, 1), flip: false, tall: false }
            }
        },
        EntityKind::Wisp => {
            if x.wisp_telegraph {
                Look::Telegraph
            } else if flashing(x.flash) {
                Look::Hidden
            } else {
                Look::Sprite { key: "wisp", frame: if x.wisp_phased { 2 } else { min_frame(x.frame, 1) }, flip: false, tall: false }
            }
        },
        EntityKind::TorchProj => Look::Sprite { key: "torch_proj", frame: min_frame(x.frame, 1), flip: false, tall: false },
        EntityKind::TorchFlame => Look::Sprite { key: "torch_flame", frame: min_frame(x.frame, 1), flip: false, tall: false },
        _ => Look::NotEnemy,
    }
}


/// A pickup about to vanish blinks: in its last `PICKUP_BLINK` ticks it
/// hides every other four ticks.
pub fn pickup_visible(life: u16) -> (v: bool)
    ensures
        v == !(life < PICKUP_BLINK && (life / 4) % 2 == 0),
{
    !(life < PICKUP_BLINK && (life / 4) % 2 == 0)
}

/// An arena pillar tile (drawn as a pillar): a colliding wall tile at
/// least three tiles in from every edge. `collides` is the tile's
/// collision flag.
pub fn is_interior_pillar(ground: &Ground, tx: u32, ty: u32, wall: u16, collides: bool) -> (p: bool)
    requires
        ground.wf(),
    ensures
        p == (tx != 0 && ty != 0 && tx + 1 < ground.width && ty + 1 < ground.height
            && ground.at(tx, ty) == wall && collides
            && tx > 2 && ty > 2 && tx + 3 < ground.width && ty + 3 < ground.height),
{
    if tx == 0 || ty == 0 || tx as u64 + 1 >= ground.width as u64 || ty as u64 + 1 >= ground.height as u64 {
        return false;
    }
    ground.get(tx, ty) == wall && collides && tx > 2 && ty > 2 && tx < ground.width - 3 && ty < ground.height - 3
}

} // verus!
