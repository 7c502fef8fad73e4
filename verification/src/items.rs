//! Items: pickups and kill drops, bombs, the boomerang.

use vstd::prelude::*;
use crate::cue::Sfx;
use crate::dice::roll_percent;
use crate::energy::fill;
use crate::entity::{AnimState, Health};
use crate::player::PlayerData;
use crate::style::spec_min;
use crate::tuning::{ENERGY_MAX, ENERGY_ORB};

verus! {

/// What a pickup gives.
#[derive(Clone, Copy, Debug, PartialEq, Eq, Structural)]
pub enum PickupKind {
    Rupee,
    Heart,
    Energy,
}

/// A pickup on the ground: what it is and how many ticks it has left.
#[derive(Clone, Copy, Debug, PartialEq, Eq, Structural)]
pub struct Pickup {
    pub kind: PickupKind,
    pub life: u16,
}

/// The player after collecting one pickup: a rupee (saturating), a heart
/// (up to the maximum, mirrored into the hearts shown) or an energy orb.
pub open spec fn pickup_effect(s: (PlayerData, Option<Health>), k: PickupKind) -> (PlayerData, Option<Health>) {
    let (pd, h) = s;
    match k {
        PickupKind::Rupee => (PlayerData { rupees: if pd.rupees == u32::MAX { u32::MAX } else { (pd.rupees + 1) as u32 }, ..pd }, h),
        PickupKind::Heart => match h {
            Some(x) => {
                let hp = spec_min(x.hp + 1, x.max as int) as i32;
                (PlayerData { hearts: hp, ..pd }, Some(Health { hp, ..x }))
            },
            None => s,
        },
        PickupKind::Energy => (PlayerData { energy: spec_min(pd.energy + ENERGY_ORB, ENERGY_MAX as int) as u32, ..pd }, h),
    }
}

/// The player after collecting `kinds` in order.
pub open spec fn collect_all(s: (PlayerData, Option<Health>), kinds: Seq<PickupKind>) -> (PlayerData, Option<Health>)
    decreases kinds.len(),
{
    if kinds.len() == 0 {
        s
    } else {
        pickup_effect(collect_all(s, kinds.drop_last()), kinds.last())
    }
}

/// The sound of collecting a pickup.
pub open spec fn pickup_sound(k: PickupKind) -> Sfx {
    match k {
        PickupKind::Rupee => Sfx::PickupRupee,
        PickupKind::Heart => Sfx::PickupHeart,
        PickupKind::Energy => Sfx::PickupEnergy,
    }
}

proof fn lemma_collect_keeps_health_bounds(s: (PlayerData, Option<Health>), kinds: Seq<PickupKind>)
    requires
        s.1 matches Some(h) ==> h.hp < i32::MAX && h.max < i32::MAX,
    ensures
        collect_all(s, kinds).1 matches Some(h) ==> h.hp < i32::MAX && h.max < i32::MAX,
        collect_all(s, kinds).1 is Some == s.1 is Some,
    decreases kinds.len(),
{
    if kinds.len() > 0 {
        lemma_collect_keeps_health_bounds(s, kinds.drop_last());
    }
}

/// Pickups never overfill: hit points stay at most the maximum and energy
/// at most `ENERGY_MAX`, whatever is collected, when they started so.
pub proof fn lemma_pickups_never_overfill(s: (PlayerData, Option<Health>), kinds: Seq<PickupKind>)
    requires
        s.0.energy <= ENERGY_MAX,
        s.1 matches Some(h) ==> h.hp <= h.max,
    ensures
        collect_all(s, kinds).0.energy <= ENERGY_MAX,
        collect_all(s, kinds).1 matches Some(h) ==> h.hp <= h.max,
        collect_all(s, kinds).1 matches Some(h) ==> h.max == s.1.unwrap().max,
        collect_all(s, kinds).0.rupees >= s.0.rupees,
    decreases kinds.len(),
{
    if kinds.len() > 0 {
        lemma_pickups_never_overfill(s, kinds.drop_last());
    }
}

/// What one pickup adds: a rupee one rupee (none once the purse is
/// full), a heart one hit point shown in the hearts (none at full health),
/// an energy orb `ENERGY_ORB` tenths (up to `ENERGY_MAX`); nothing else
/// of the player changes.
pub proof fn lemma_pickup_adds(pd: PlayerData, h: Option<Health>, k: PickupKind)
    ensures
        ({
            let (pd2, h2) = pickup_effect((pd, h), k);
            &&& k == PickupKind::Rupee ==> pd2 == (PlayerData { rupees: pd2.rupees, ..pd }) && h2 == h
                && (pd.rupees < u32::MAX ==> pd2.rupees == pd.rupees + 1)
                && (pd.rupees == u32::MAX ==> pd2.rupees == pd.rupees)
            &&& k == PickupKind::Energy ==> pd2 == (PlayerData { energy: pd2.energy, ..pd }) && h2 == h
                && (pd.energy + ENERGY_ORB <= ENERGY_MAX ==> pd2.energy == pd.energy + ENERGY_ORB)
                && (pd.energy + ENERGY_ORB > ENERGY_MAX ==> pd2.energy == ENERGY_MAX)
            &&& k == PickupKind::Heart ==> match h {
                None => pd2 == pd && h2 == h,
                Some(x) => {
                    let hp = if x.hp < x.max { x.hp + 1 } else { x.max as int };
                    &&& h2 == Some(Health { hp: hp as i32, ..x })
                    &&& pd2 == (PlayerData { hearts: hp as i32, ..pd })
                },
            }
        }),
{
}

/// Rupees among `kinds`.
pub open spec fn rupee_count(kinds: Seq<PickupKind>) -> nat
    decreases kinds.len(),
{
    if kinds.len() == 0 {
        0
    } else {
        rupee_count(kinds.drop_last()) + if kinds.last() == PickupKind::Rupee { 1nat } else { 0nat }
    }
}

/// Collecting pickups in any order counts every rupee: the purse grows by
/// the number of rupees collected, stopping at `u32::MAX`.
pub proof fn lemma_rupees_counted(s: (PlayerData, Option<Health>), kinds: Seq<PickupKind>)
    ensures
        collect_all(s, kinds).0.rupees == if s.0.rupees + rupee_count(kinds) <= u32::MAX {
            s.0.rupees + rupee_count(kinds)
        } else {
            u32::MAX as int
        },
    decreases kinds.len(),
{
    if kinds.len() > 0 {
        lemma_rupees_counted(s, kinds.drop_last());
    }
}

/// Collects one pickup; returns its sound.
pub fn apply_pickup(pd: &mut PlayerData, health: &mut Option<Health>, kind: PickupKind) -> (sfx: Sfx)
    requires
        *old(health) matches Some(h) ==> h.hp < i32::MAX,
    ensures
        (*final(pd), *final(health)) == pickup_effect((*old(pd), *old(health)), kind),
        sfx == pickup_sound(kind),
{
    match kind {
        PickupKind::Rupee => {
            pd.rupees = if pd.rupees == u32::MAX { u32::MAX } else { pd.rupees + 1 };
            Sfx::PickupRupee
        },
        PickupKind::Heart => {
            if let Some(h) = health {
                let up = h.hp + 1;
                h.hp = if up <= h.max { up } else { h.max };
                pd.hearts = h.hp;
            }
            Sfx::PickupHeart
        },
        PickupKind::Energy => {
            fill(pd, ENERGY_ORB);
            Sfx::PickupEnergy
        },
    }
}

/// One tick of the pickups on the ground.
pub struct PickupTick {
    /// Pickups whose life ran out (they vanish).
    pub expired: Vec<usize>,
    /// Pickups the player collected (they vanish), in order.
    pub collected: Vec<usize>,
    /// One sound per collected pickup.
    pub sounds: Vec<Sfx>,
}

/// The kinds of the listed pickups, in order.
pub open spec fn kinds_of(ps: Seq<Pickup>, idx: Seq<usize>) -> Seq<PickupKind> {
    idx.map_values(|i: usize| ps[i as int].kind)
}

/// Indices `i < n` whose pickup satisfies `keep`, ascending.
pub open spec fn indices_where(n: int, keep: spec_fn(int) -> bool) -> Seq<usize>
    decreases n,
{
    if n <= 0 {
        seq![]
    } else {
        let prev = indices_where(n - 1, keep);
        if keep(n - 1) { prev.push((n - 1) as usize) } else { prev }
    }
}

/// Each pickup ages a tick; one out of life vanishes; one still alive
/// within reach of the player (`near[i]`, judged before it moves) is
/// collected. Collected pickups then apply in order.
pub fn update_pickups(pickups: &mut Vec<Pickup>, near: &Vec<bool>, pd: &mut PlayerData, health: &mut Option<Health>) -> (r: PickupTick)
    requires
        near@.len() == old(pickups)@.len(),
        *old(health) matches Some(h) ==> h.hp < i32::MAX && h.max < i32::MAX,
    ensures
        final(pickups)@.len() == old(pickups)@.len(),
        forall|i: int| 0 <= i < old(pickups)@.len() ==> #[trigger] final(pickups)@[i] == (Pickup {
            life: if old(pickups)@[i].life > 0 { (old(pickups)@[i].life - 1) as u16 } else { 0 },
            ..old(pickups)@[i]
        }),
        r.expired@ == indices_where(old(pickups)@.len() as int, |i: int| final(pickups)@[i].life == 0),
        r.collected@ == indices_where(old(pickups)@.len() as int, |i: int| final(pickups)@[i].life > 0 && near@[i]),
        (*final(pd), *final(health)) == collect_all((*old(pd), *old(health)), kinds_of(final(pickups)@, r.collected@)),
        r.sounds@ == kinds_of(final(pickups)@, r.collected@).map_values(|k: PickupKind| pickup_sound(k)),
{
    let mut expired: Vec<usize> = Vec::new();
    let mut collected: Vec<usize> = Vec::new();
    let mut i: usize = 0;
    while i < pickups.len()
        invariant
            i <= pickups.len(),
            pickups@.len() == old(pickups)@.len(),
            near@.len() == old(pickups)@.len(),
            forall|j: int| i <= j < pickups@.len() ==> #[trigger] pickups@[j] == old(pickups)@[j],
            forall|j: int| 0 <= j < i ==> #[trigger] pickups@[j] == (Pickup {
                life: if old(pickups)@[j].life > 0 { (old(pickups)@[j].life - 1) as u16 } else { 0 },
                ..old(pickups)@[j]
            }),
            expired@ == indices_where(i as int, |j: int| pickups@[j].life == 0),
            collected@ == indices_where(i as int, |j: int| pickups@[j].life > 0 && near@[j]),
            forall|k: int| 0 <= k < collected@.len() ==> collected@[k] < i,
        decreases pickups.len() - i,
    {
        let p = pickups[i];
        let life: u16 = if p.life > 0 { p.life - 1 } else { 0 };
        let ghost before = pickups@;
        pickups.set(i, Pickup { life, ..p });
        proof {
            assert forall|j: int| 0 <= j < i implies pickups@[j] == before[j] by {}
            lemma_indices_where_ext(i as int, |j: int| before[j].life == 0, |j: int| pickups@[j].life == 0);
            lemma_indices_where_ext(i as int, |j: int| before[j].life > 0 && near@[j], |j: int| pickups@[j].life > 0 && near@[j]);
        }
        if life == 0 {
            expired.push(i);
        } else if near[i] {
            collected.push(i);
        }
        i = i + 1;
    }
    let mut sounds: Vec<Sfx> = Vec::new();
    let mut k: usize = 0;
    proof {
        lemma_collect_keeps_health_bounds((*old(pd), *old(health)), seq![]);
    }
    while k < collected.len()
        invariant
            k <= collected.len(),
            forall|m: int| 0 <= m < collected@.len() ==> collected@[m] < pickups@.len(),
            (*pd, *health) == collect_all((*old(pd), *old(health)), kinds_of(pickups@, collected@.subrange(0, k as int))),
            *old(health) matches Some(h) ==> h.hp < i32::MAX && h.max < i32::MAX,
            sounds@ == kinds_of(pickups@, collected@.subrange(0, k as int)).map_values(|q: PickupKind| pickup_sound(q)),
        decreases collected.len() - k,
    {
        let idx = collected[k];
        let kind = pickups[idx].kind;
        proof {
            let ks = kinds_of(pickups@, collected@.subrange(0, k + 1));
            assert(ks.drop_last() =~= kinds_of(pickups@, collected@.subrange(0, k as int)));
            assert(ks.last() == kind);
            lemma_collect_keeps_health_bounds((*old(pd), *old(health)), kinds_of(pickups@, collected@.subrange(0, k as int)));
        }
        let sfx = apply_pickup(pd, health, kind);
        sounds.push(sfx);
        proof {
            let ks = kinds_of(pickups@, collected@.subrange(0, k + 1));
            assert(sounds@ =~= ks.map_values(|q: PickupKind| pickup_sound(q)));
        }
        k = k + 1;
    }
    proof {
        assert(collected@.subrange(0, collected@.len() as int) =~= collected@);
    }
    PickupTick { expired, collected, sounds }
}

proof fn lemma_indices_where_ext(n: int, a: spec_fn(int) -> bool, b: spec_fn(int) -> bool)
    requires
        forall|j: int| 0 <= j < n ==> #[trigger] a(j) == b(j),
    ensures
        indices_where(n, a) == indices_where(n, b),
    decreases n,
{
    if n > 0 {
        lemma_indices_where_ext(n - 1, a, b);
    }
}

/// Drop bands of a percent roll: nothing below 55, a rupee below 72, a
/// heart (when the player is at half health or less, else a rupee) below
/// 84, an energy orb otherwise. At style rank S a rupee and an energy orb
/// come on top.
pub open spec fn spec_drop_table(roll: u32, low_hp: bool, s_bonus: bool) -> Seq<PickupKind> {
    let base: Seq<PickupKind> = if roll < 55 {
        seq![]
    } else if roll < 72 {
        seq![PickupKind::Rupee]
    } else if roll < 84 {
        seq![if low_hp { PickupKind::Heart } else { PickupKind::Rupee }]
    } else {
        seq![PickupKind::Energy]
    };
    if s_bonus { base.push(PickupKind::Rupee).push(PickupKind::Energy) } else { base }
}

/// Kill drops by a percent roll: below 55 nothing, then a rupee, then
/// (72 to 83) a heart when the player is low on health or else a rupee,
/// and from 84 an energy orb; an S rank adds a rupee and an orb on top.
/// A heart never drops to a player who is not low on health.
pub proof fn lemma_drop_odds(roll: u32, low_hp: bool, s_bonus: bool)
    ensures
        ({
            let d = spec_drop_table(roll, low_hp, s_bonus);
            let base = if s_bonus { d.len() - 2 } else { d.len() as int };
            &&& base == (if roll < 55 { 0int } else { 1int })
            &&& roll >= 55 ==> d[0] == (if roll < 72 { PickupKind::Rupee } else if roll < 84 {
                if low_hp { PickupKind::Heart } else { PickupKind::Rupee }
            } else {
                PickupKind::Energy
            })
            &&& s_bonus ==> d[base] == PickupKind::Rupee && d[base + 1] == PickupKind::Energy
            &&& !low_hp ==> forall|i: int| 0 <= i < d.len() ==> d[i] != PickupKind::Heart
        }),
{
}

pub fn drop_table(roll: u32, low_hp: bool, s_bonus: bool) -> (drops: Vec<PickupKind>)
    ensures
        drops@ == spec_drop_table(roll, low_hp, s_bonus),
{
    let mut drops: Vec<PickupKind> = Vec::new();
    if roll < 55 {
    } else if roll < 72 {
        drops.push(PickupKind::Rupee);
    } else if roll < 84 {
        drops.push(if low_hp { PickupKind::Heart } else { PickupKind::Rupee });
    } else {
        drops.push(PickupKind::Energy);
    }
    if s_bonus {
        drops.push(PickupKind::Rupee);
        drops.push(PickupKind::Energy);
    }
    assert(drops@ =~= spec_drop_table(roll, low_hp, s_bonus));
    drops
}

/// At half health or less (hit points at most half the maximum, halves
/// rounded toward zero).
pub open spec fn spec_low_hp(h: Option<Health>) -> bool {
    match h {
        Some(x) => if x.max >= 0 { x.hp <= x.max / 2 } else { x.hp <= -((-x.max) / 2) },
        None => false,
    }
}

pub fn low_hp(h: Option<Health>) -> (r: bool)
    ensures
        r == spec_low_hp(h),
{
    match h {
        Some(x) => {
            let max: i64 = x.max as i64;
            let half: i64 = if max >= 0 { max / 2 } else { -((-max) / 2) };
            (x.hp as i64) <= half
        },
        None => false,
    }
}

/// What a kill drops: one percent draw from the world's generator, judged
/// by `drop_table` (which band it lands in is chance).
pub fn spawn_drops(rng: &mut fastrand::Rng, low: bool, s_bonus: bool) -> (drops: Vec<PickupKind>)
    ensures
        exists|roll: u32| roll < 100 && drops@ == spec_drop_table(roll, low, s_bonus),
{
    let roll = roll_percent(rng);
    drop_table(roll, low, s_bonus)
}

/// Places a bomb when bombs are the selected item and the bag holds one;
/// the bag loses it (fuse sound). Returns whether one was placed.
pub fn try_place_bomb(pd: &mut PlayerData) -> (placed: bool)
    ensures
        placed == (old(pd).selected_item == 1 && old(pd).bombs > 0 && old(pd).bomb_cap > 0),
        *final(pd) == if placed { PlayerData { bombs: (old(pd).bombs - 1) as u8, ..*old(pd) } } else { *old(pd) },
{
    if pd.selected_item != 1 || pd.bombs == 0 || pd.bomb_cap == 0 {
        return false;
    }
    pd.bombs = pd.bombs - 1;
    true
}

/// Fuse ticks at or below which a bomb blinks fast.
pub const BOMB_BLINK_FAST: u16 = 30;

/// One tick of a bomb's fuse: it burns down (not below zero) and its
/// sprite blinks, fast near the end. Returns whether it explodes now.
pub fn tick_bomb(fuse: &mut u16, anim: &mut AnimState) -> (explode: bool)
    ensures
        *final(fuse) == if *old(fuse) > 0 { (*old(fuse) - 1) as u16 } else { 0 },
        final(anim).timer == if old(anim).timer == u16::MAX { 0 } else { (old(anim).timer + 1) as u16 },
        final(anim).frame == if *final(fuse) <= BOMB_BLINK_FAST { (final(anim).timer / 2) % 2 } else { (final(anim).timer / 8) % 2 },
        final(anim).sheet == old(anim).sheet,
        explode == (*final(fuse) == 0),
{
    if *fuse > 0 {
        *fuse = *fuse - 1;
    }
    anim.timer = if anim.timer == u16::MAX { 0 } else { anim.timer + 1 };
    anim.frame = if *fuse <= BOMB_BLINK_FAST { (anim.timer / 2) % 2 } else { (anim.timer / 8) % 2 };
    *fuse == 0
}

/// Swing id of a blast with no player in the world.
pub const ORPHAN_BLAST_ID: u32 = 0xB0BB;

/// Swing id of a blast: the player's next swing id, so every blast hits
/// afresh.
pub fn blast_swing_id(pd: &mut PlayerData) -> (id: u32)
    ensures
        id == if old(pd).swing_id == u32::MAX { 0 } else { (old(pd).swing_id + 1) as u32 },
        *final(pd) == (PlayerData { swing_id: id, ..*old(pd) }),
{
    pd.swing_id = if pd.swing_id == u32::MAX { 0 } else { pd.swing_id + 1 };
    pd.swing_id
}

/// The boomerang's flight phase.
#[derive(Clone, Copy, Debug, PartialEq, Eq, Structural)]
pub enum BoomerangPhase {
    Out,
    Return,
}

/// A boomerang in flight (its motion is the front end's).
#[derive(Clone, Copy, Debug, PartialEq, Eq, Structural)]
pub struct Boomerang {
    pub phase: BoomerangPhase,
    pub throw_id: u32,
    pub flame: bool,
    /// A re-throw is queued for the catch.
    pub catch_buffer: bool,
    /// Distance flown outward, in tenths of a pixel.
    pub traveled: u32,
}

/// Outward speed of the boomerang, in tenths of a pixel per tick.
pub const BOOMERANG_SPEED_OUT: u32 = 34;
/// How far the boomerang flies before it turns, in tenths of a pixel.
pub const BOOMERANG_RANGE: u32 = 1120;

/// What one flight tick of a boomerang comes to.
#[derive(Clone, Copy, Debug, PartialEq, Eq, Structural)]
pub enum Flight {
    /// Flying on outward (the front end moves it and spins it).
    Onward,
    /// It struck a wall or reached its range and turns for home.
    TurnBack,
    /// Coming home, steered toward the player.
    Homing,
    /// Caught by the player: it leaves the world (catch sound), and a
    /// queued re-throw is made when `rethrow` holds.
    Caught { rethrow: bool },
}

/// Throws the boomerang when none is in flight and it is the selected
/// item: the throw takes the next swing id (throw sound). Returns the
/// throw id.
pub fn try_throw(in_flight: bool, pd: &mut PlayerData) -> (throw_id: Option<u32>)
    ensures
        in_flight || old(pd).selected_item != 2 ==> throw_id is None && *final(pd) == *old(pd),
        !in_flight && old(pd).selected_item == 2 ==> ({
            let id = if old(pd).swing_id == u32::MAX { 0 } else { (old(pd).swing_id + 1) as u32 };
            &&& throw_id == Some(id)
            &&& *final(pd) == (PlayerData { swing_id: id, ..*old(pd) })
        }),
{
    if in_flight || pd.selected_item != 2 {
        return None;
    }
    pd.swing_id = if pd.swing_id == u32::MAX { 0 } else { pd.swing_id + 1 };
    Some(pd.swing_id)
}

/// A tap of the item button while a boomerang is coming back queues a
/// re-throw for the catch.
pub fn note_catch_buffer(booms: &mut Vec<Boomerang>)
    ensures
        final(booms)@.len() == old(booms)@.len(),
        forall|i: int| 0 <= i < old(booms)@.len() ==> #[trigger] final(booms)@[i] == if old(booms)@[i].phase == BoomerangPhase::Return {
            Boomerang { catch_buffer: true, ..old(booms)@[i] }
        } else {
            old(booms)@[i]
        },
{
    let mut i: usize = 0;
    while i < booms.len()
        invariant
            i <= booms.len(),
            booms@.len() == old(booms)@.len(),
            forall|j: int| i <= j < booms@.len() ==> #[trigger] booms@[j] == old(booms)@[j],
            forall|j: int| 0 <= j < i ==> #[trigger] booms@[j] == if old(booms)@[j].phase == BoomerangPhase::Return {
                Boomerang { catch_buffer: true, ..old(booms)@[j] }
            } else {
                old(booms)@[j]
            },
        decreases booms.len() - i,
    {
        let b = booms[i];
        if b.phase == BoomerangPhase::Return {
            booms.set(i, Boomerang { catch_buffer: true, ..b });
        }
        i = i + 1;
    }
}

/// One flight tick of a boomerang. Outward, the next step
/// turns it back when the tile ahead is solid or the step would reach
/// its range; else it counts the step. Homeward, it is caught once it is
/// within reach of the player.
pub fn fly_boomerang(b: &mut Boomerang, solid_ahead: bool, at_player: bool) -> (f: Flight)
    ensures
        old(b).phase == BoomerangPhase::Out ==> {
            let next = old(b).traveled + BOOMERANG_SPEED_OUT;
            if solid_ahead || next >= BOOMERANG_RANGE {
                f == Flight::TurnBack && *final(b) == (Boomerang { phase: BoomerangPhase::Return, ..*old(b) })
            } else {
                f == Flight::Onward && *final(b) == (Boomerang { traveled: next as u32, ..*old(b) })
            }
        },
        old(b).phase == BoomerangPhase::Return ==> *final(b) == *old(b) && f == if at_player {
            Flight::Caught { rethrow: old(b).catch_buffer }
        } else {
            Flight::Homing
        },
{
    match b.phase {
        BoomerangPhase::Out => {
            if solid_ahead || b.traveled >= BOOMERANG_RANGE - BOOMERANG_SPEED_OUT {
                b.phase = BoomerangPhase::Return;
                Flight::TurnBack
            } else {
                b.traveled = b.traveled + BOOMERANG_SPEED_OUT;
                Flight::Onward
            }
        },
        BoomerangPhase::Return => {
            if at_player {
                Flight::Caught { rethrow: b.catch_buffer }
            } else {
                Flight::Homing
            }
        },
    }
}

/// The boomerang's spin: each flight tick advances the clock and shows
/// frame `(timer / 3) % 4`.
pub fn spin_boomerang(anim: &mut AnimState)
    ensures
        final(anim).timer == if old(anim).timer == u16::MAX { 0 } else { (old(anim).timer + 1) as u16 },
        final(anim).frame == (final(anim).timer / 3) % 4,
        final(anim).sheet == old(anim).sheet,
{
    anim.timer = if anim.timer == u16::MAX { 0 } else { anim.timer + 1 };
    anim.frame = (anim.timer / 3) % 4;
}

} // verus!
