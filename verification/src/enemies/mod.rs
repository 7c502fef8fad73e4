//! Enemy AI decisions: each enemy is a timer-driven state machine. The front
//! end measures distances and line of sight and turns the `Motion` into a
//! velocity; these functions decide states, frames, sounds and contact.

pub mod bat;
pub mod ironshell;
pub mod octorok;
pub mod raider;
pub mod skeleton;
pub mod slime;
pub mod waves;
pub mod wisp;

use vstd::prelude::*;
use crate::cue::Sfx;
use crate::entity::EntityKind;
use crate::tuning::SPAWN_TELEGRAPH;

verus! {

/// How an enemy moves this tick.
#[derive(Clone, Copy, Debug, PartialEq, Eq, Structural)]
pub enum Motion {
    Stop,
    /// Idle drift.
    Wander,
    /// Walk / chase toward the player at the walking speed.
    Approach,
    /// Fast attack movement toward the player.
    Rush,
    /// Back away from the player.
    Retreat,
    /// Circle the player.
    Strafe,
    /// Pattern motion the enemy computes itself (hover, swoop, climb).
    Pattern,
}

/// Decisions of one enemy tick.
#[derive(Clone, Copy, Debug, PartialEq, Eq, Structural)]
pub struct EnemyTick {
    pub frame: u16,
    pub motion: Motion,
    pub sound: Option<Sfx>,
    /// Touching the player this tick hurts.
    pub contact: bool,
    /// One-off attack payload (rock, poke, bash, lob) this tick.
    pub strike: bool,
}

pub open spec fn spec_inc(t: u16) -> u16 {
    if t < u16::MAX { (t + 1) as u16 } else { t }
}

/// Result of one spawn-telegraph tick.
#[derive(Clone, Copy, Debug, PartialEq, Eq, Structural)]
pub struct SpawnTick {
    /// First telegraph tick: shimmer and sound.
    pub shimmer: bool,
    /// Telegraph over: the body appears.
    pub body: bool,
}

/// Spawn telegraph countdown shared by every wave enemy.
pub fn tick_spawn(telegraph: &mut u16) -> (r: SpawnTick)
    ensures
        *final(telegraph) == if *old(telegraph) > 0 { (*old(telegraph) - 1) as u16 } else { 0 },
        r.shimmer == (*final(telegraph) == SPAWN_TELEGRAPH - 1),
        r.body == (*final(telegraph) == 0),
{
    *telegraph = telegraph.saturating_sub(1);
    let left = *telegraph;
    SpawnTick { shimmer: left == SPAWN_TELEGRAPH - 1, body: left == 0 }
}

/// Whether a kind counts toward the arena's alive cap (telegraphing spawns
/// included).
pub open spec fn spec_is_wave_enemy(k: EntityKind) -> bool {
    k == EntityKind::Slime || k == EntityKind::Bat || k == EntityKind::Octorok
        || k == EntityKind::RaiderSpear || k == EntityKind::RaiderTorch || k == EntityKind::Wisp
        || k == EntityKind::Skeleton
}

pub open spec fn spec_count_enemies(kinds: Seq<EntityKind>) -> nat
    decreases kinds.len(),
{
    if kinds.len() == 0 {
        0
    } else {
        spec_count_enemies(kinds.drop_last()) + if spec_is_wave_enemy(kinds.last()) { 1nat } else { 0nat }
    }
}

/// The enemies counted never outnumber the entities listed.
pub proof fn lemma_count_le(kinds: Seq<EntityKind>)
    ensures
        spec_count_enemies(kinds) <= kinds.len(),
    decreases kinds.len(),
{
    if kinds.len() > 0 {
        lemma_count_le(kinds.drop_last());
    }
}

/// Number of alive wave enemies among the kinds of the alive entities.
pub fn count_alive_enemies(alive_kinds: &Vec<EntityKind>) -> (n: usize)
    ensures
        n == spec_count_enemies(alive_kinds@),
{
    let mut n: usize = 0;
    let mut i: usize = 0;
    while i < alive_kinds.len()
        invariant
            i <= alive_kinds.len(),
            n == spec_count_enemies(alive_kinds@.subrange(0, i as int)),
        decreases alive_kinds.len() - i,
    {
        proof {
            assert(alive_kinds@.subrange(0, i + 1).drop_last() =~= alive_kinds@.subrange(0, i as int));
            lemma_count_le(alive_kinds@.subrange(0, i as int));
        }
        let k = alive_kinds[i];
        if matches!(k, EntityKind::Slime | EntityKind::Bat | EntityKind::Octorok
            | EntityKind::RaiderSpear | EntityKind::RaiderTorch | EntityKind::Wisp
            | EntityKind::Skeleton) {
            n = n + 1;
        }
        i = i + 1;
    }
    proof {
        assert(alive_kinds@.subrange(0, alive_kinds@.len() as int) =~= alive_kinds@);
    }
    n
}

} // verus!
