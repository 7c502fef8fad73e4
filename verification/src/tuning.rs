//! Combat and feel constants (integer-valued ones).
//!
//! Energy is counted in tenths of a point and style in 1/180ths of a point
//! (the style verb window), so that every meter step is an exact integer.

use vstd::prelude::*;

verus! {

// --- Dash ---
pub const DASH_DURATION: u16 = 10;
pub const DASH_RECOVERY: u16 = 6;
pub const DASH_IFRAME_START: u16 = 2;
pub const DASH_IFRAME_END: u16 = 8;
pub const DASH_CANCEL_SLASH_FROM: u16 = 6;
/// Dash cost, tenths of energy (25.0).
pub const DASH_ENERGY: u32 = 250;
/// Dash cost at rank A and above, tenths of energy (20.0).
pub const DASH_ENERGY_A_PLUS: u32 = 200;

// --- Sword ---
pub const SLASH_TICKS: u16 = 12;
pub const SLASH_ACTIVE_START: u16 = 3;
pub const SLASH_ACTIVE_END: u16 = 9;
pub const SLASH_BUFFER_TICKS: u16 = 6;
pub const COMBO_DROP_WINDOW: u16 = 20;
pub const FINISHER_HOP_TICKS: u8 = 4;
pub const CHARGE_TICKS: u16 = 30;
/// Spin cost, tenths of energy (20.0).
pub const SPIN_ENERGY: u32 = 200;
pub const SPIN_TICKS: u16 = 14;

// --- Shield ---
pub const PERFECT_BLOCK_WINDOW: u16 = 6;
/// Block cost, tenths of energy (5.0).
pub const BLOCK_ENERGY: u32 = 50;
/// Perfect-block refund, tenths of energy (10.0).
pub const PERFECT_BLOCK_REFUND: u32 = 100;

// --- Hitstop / flashes ---
pub const HITSTOP_NORMAL: u8 = 3;
pub const HITSTOP_HEAVY: u8 = 5;
pub const HITSTOP_BOSS_BREAK: u8 = 12;
pub const FLASH_TICKS: u8 = 4;
pub const PLAYER_IFRAMES: u16 = 60;

// --- Energy ---
/// Energy cap, tenths (100.0).
pub const ENERGY_MAX: u32 = 1000;
/// Regeneration per tick, tenths (0.2).
pub const ENERGY_REGEN_PER_TICK: u32 = 2;
pub const ENERGY_REGEN_DELAY: u16 = 30;
pub const ENERGY_DENY_FLASH: u8 = 10;
/// Fountain refill per tick, tenths (2.0).
pub const FOUNTAIN_ENERGY_PER_TICK: u32 = 20;
pub const FOUNTAIN_HEART_INTERVAL: u16 = 30;
/// Energy orb pickup, tenths (15.0).
pub const ENERGY_ORB: u32 = 150;

// --- Style (points in 1/180ths) ---
pub const STYLE_VERB_WINDOW: u16 = 180;
/// One style point in meter units.
pub const STYLE_UNIT: u32 = 180;
/// Rank thresholds: C 20, B 50, A 90, S 140 points.
pub const STYLE_C: u32 = 3600;
pub const STYLE_B: u32 = 9000;
pub const STYLE_A: u32 = 16200;
pub const STYLE_S: u32 = 25200;
/// Style meter cap (200 points).
pub const STYLE_MAX: u32 = 36000;
pub const STYLE_OUT_OF_COMBAT: u16 = 300;
pub const STYLE_DECAY_INTERVAL: u16 = 90;
pub const STYLE_STREAK_INTERVAL: u16 = 120;

// --- Dummy / pickups ---
pub const DUMMY_HP: i32 = 20;
pub const DUMMY_RESPAWN: u16 = 120;
pub const PICKUP_LIFE: u16 = 600;
pub const PICKUP_BLINK: u16 = 120;

// --- Enemies ---
pub const SLIME_HP: i32 = 3;
pub const SLIME_HOP_MOVE: u16 = 12;
pub const SLIME_HOP_REST: u16 = 8;
pub const SLIME_WINDUP: u16 = 20;
pub const SLIME_LUNGE_TICKS: u16 = 8;
pub const SLIME_RECOVER: u16 = 20;
pub const SLIME_CONTACT: i32 = 1;

pub const BAT_HP: i32 = 2;
pub const BAT_SWOOP_PERIOD: u16 = 180;
pub const BAT_TELEGRAPH: u16 = 20;
pub const BAT_SWOOP_TICKS: u16 = 40;
pub const BAT_CLIMB_TICKS: u16 = 30;
pub const BAT_CONTACT: i32 = 1;

pub const OCTOROK_HP: i32 = 3;
pub const OCTOROK_CYCLE: u16 = 150;
pub const OCTOROK_SPIT_TELEGRAPH: u16 = 20;
pub const OCTOROK_HIDE: u16 = 60;

pub const SPAWN_TELEGRAPH: u16 = 45;
pub const WAVE_LULL: u16 = 120;
pub const WAVE_ALIVE_CAP: usize = 10;
pub const ENEMY_IFRAMES: u16 = 10;

} // verus!
