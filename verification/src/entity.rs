//! Entity vocabulary shared by the rules: kinds, attack kinds, health and
//! animation counters.

use vstd::prelude::*;

verus! {

/// What an entity is.
#[derive(Clone, Copy, Debug, PartialEq, Eq, Structural)]
pub enum EntityKind {
    Player,
    Dummy,
    Pickup,
    SwordBeam,
    DebugShot,
    FairyFountain,
    Slime,
    Bat,
    Octorok,
    OctorokRock,
    RaiderSpear,
    RaiderTorch,
    Wisp,
    Skeleton,
    Ironshell,
    GraniteWarden,
    WindCrystal,
    PebbleCrawler,
    TorchProj,
    TorchFlame,
    Sign,
    Npc,
    Chest,
    Gem,
    Bomb,
    Boomerang,
}

/// The kind of a player-side hitbox.
#[derive(Clone, Copy, Debug, PartialEq, Eq, Structural)]
pub enum AttackKind {
    Slash,
    Backslash,
    Finisher,
    Spin,
    Beam,
    DebugShot,
    Bomb,
    Boomerang,
}

/// Hit points and hurt timers.
#[derive(Clone, Copy, Debug, PartialEq, Eq, Structural)]
pub struct Health {
    pub hp: i32,
    pub max: i32,
    pub iframes: u16,
    pub flash: u8,
}

/// Sprite animation counters.
#[derive(Clone, Copy, Debug, PartialEq, Eq, Structural)]
pub struct AnimState {
    pub frame: u16,
    pub sheet: u16,
    pub timer: u16,
}

/// The successor of an id counter (wraps at `u32::MAX`).
pub open spec fn spec_next_id(x: u32) -> u32 {
    if x == u32::MAX { 0 } else { (x + 1) as u32 }
}

pub fn next_id(x: u32) -> (r: u32)
    ensures
        r == spec_next_id(x),
{
    if x == u32::MAX { 0 } else { x + 1 }
}

} // verus!

verus! {

/// Generational handle of an arena slot.
#[derive(Clone, Copy, Debug, PartialEq, Eq, Structural)]
pub struct EntityId {
    pub index: u32,
    pub gen: u32,
}

} // verus!
