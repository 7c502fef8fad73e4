//! The fixed-step frame: what runs this tick (viewer, transition, pause,
//! hitstop or the full simulation), entity slots, the non-player motion
//! step, sword beams' range, and body contact with the player.

use vstd::prelude::*;
use crate::entity::{EntityId, EntityKind};

verus! {

/// What the frame runs this tick.
#[derive(Clone, Copy, Debug, PartialEq, Eq, Structural)]
pub enum FramePlan {
    /// The sprite viewer is open: nothing else runs, nothing is sent.
    Viewer,
    /// A map transition ticks (and the banner); events drain.
    Transition,
    /// A dialog, the pause map or the shop holds the world; events drain.
    Paused,
    /// Hitstop: the world's clock and timers moved, the rest waits a tick
    /// (effects still animate); events drain.
    Hitstop,
    /// The full simulation runs.
    Run,
}

/// The frame's counters: world clock, door cooldown, hitstop.
#[derive(Clone, Copy, Debug, PartialEq, Eq, Structural)]
pub struct FrameClock {
    pub world_tick: u64,
    pub door_cooldown: u8,
    pub hitstop: u8,
}

/// Which step runs; the world clock advances (wrapping) and the door
/// cooldown and hitstop count down only when the world is not held.
pub fn plan_frame(clock: &mut FrameClock, viewer: bool, transitioning: bool, paused: bool) -> (p: FramePlan)
    ensures
        viewer ==> p == FramePlan::Viewer && *final(clock) == *old(clock),
        !viewer && transitioning ==> p == FramePlan::Transition && *final(clock) == *old(clock),
        !viewer && !transitioning && paused ==> p == FramePlan::Paused && *final(clock) == *old(clock),
        !viewer && !transitioning && !paused ==> {
            &&& final(clock).world_tick == if old(clock).world_tick == u64::MAX { 0 } else { (old(clock).world_tick + 1) as u64 }
            &&& final(clock).door_cooldown == if old(clock).door_cooldown > 0 { (old(clock).door_cooldown - 1) as u8 } else { 0 }
            &&& final(clock).hitstop == if old(clock).hitstop > 0 { (old(clock).hitstop - 1) as u8 } else { 0 }
            &&& p == if old(clock).hitstop > 0 { FramePlan::Hitstop } else { FramePlan::Run }
        },
{
    if viewer {
        return FramePlan::Viewer;
    }
    if transitioning {
        return FramePlan::Transition;
    }
    if paused {
        return FramePlan::Paused;
    }
    clock.world_tick = if clock.world_tick == u64::MAX { 0 } else { clock.world_tick + 1 };
    if clock.door_cooldown > 0 {
        clock.door_cooldown = clock.door_cooldown - 1;
    }
    if clock.hitstop > 0 {
        clock.hitstop = clock.hitstop - 1;
        return FramePlan::Hitstop;
    }
    FramePlan::Run
}

/// A slot of the entity arena: its generation and whether it holds one.
#[derive(Clone, Copy, Debug, PartialEq, Eq, Structural)]
pub struct Slot {
    pub gen: u32,
    pub occupied: bool,
}

/// An id names a live entity when its slot exists, has its generation and
/// is occupied.
pub open spec fn spec_live(arena: Seq<Slot>, id: EntityId) -> bool {
    &&& (id.index as int) < arena.len()
    &&& arena[id.index as int].gen == id.gen
    &&& arena[id.index as int].occupied
}

/// The slot to run the motion step on for an enemy (`None`: a stale or
/// empty id, nothing moves).
pub fn move_enemy(arena: &Vec<Slot>, id: EntityId) -> (slot: Option<usize>)
    ensures
        slot is Some <==> spec_live(arena@, id),
        slot is Some ==> slot.unwrap() == id.index,
{
    let i = id.index as usize;
    if i >= arena.len() {
        return None;
    }
    let s = arena[i];
    if s.gen != id.gen || !s.occupied {
        return None;
    }
    Some(i)
}

/// The motion step of a non-player entity.
#[derive(Clone, Copy, Debug, PartialEq, Eq, Structural)]
pub enum Integrate {
    /// Move with tile collision (training dummies).
    Move,
    /// Only knockback decays (pickups, beams, fountains).
    DecayKnockback,
    /// Its own rules move it, or it stays.
    Nothing,
}

pub open spec fn spec_integrate(kind: EntityKind) -> Integrate {
    match kind {
        EntityKind::Dummy => Integrate::Move,
        EntityKind::Pickup | EntityKind::SwordBeam | EntityKind::DebugShot | EntityKind::FairyFountain
        | EntityKind::Player => Integrate::DecayKnockback,
        _ => Integrate::Nothing,
    }
}

pub fn integrate_step(kind: EntityKind) -> (s: Integrate)
    ensures
        s == spec_integrate(kind),
{
    match kind {
        EntityKind::Dummy => Integrate::Move,
        EntityKind::Pickup | EntityKind::SwordBeam | EntityKind::DebugShot | EntityKind::FairyFountain
        | EntityKind::Player => Integrate::DecayKnockback,
        _ => Integrate::Nothing,
    }
}

/// Sword beam speed and range, in tenths of a pixel (3.0 px a tick, 128 px).
pub const BEAM_SPEED: u32 = 30;
pub const BEAM_RANGE: u32 = 1280;
/// Debug shot speed and range, in tenths of a pixel (1.2 px a tick, 220 px).
pub const DEBUG_SHOT_SPEED: u32 = 12;
pub const DEBUG_SHOT_RANGE: u32 = 2200;

/// A flying shot: its kind and the distance it has covered, in tenths of
/// a pixel (shots fly at a constant speed along their axis).
#[derive(Clone, Copy, Debug, PartialEq, Eq, Structural)]
pub struct Beam {
    pub kind: EntityKind,
    pub traveled: u32,
}

pub open spec fn beam_speed(kind: EntityKind) -> u32 {
    if kind == EntityKind::DebugShot { DEBUG_SHOT_SPEED } else { BEAM_SPEED }
}

pub open spec fn beam_range(kind: EntityKind) -> u32 {
    if kind == EntityKind::DebugShot { DEBUG_SHOT_RANGE } else { BEAM_RANGE }
}

pub open spec fn is_shot(kind: EntityKind) -> bool {
    kind == EntityKind::SwordBeam || kind == EntityKind::DebugShot
}

/// Each shot flies a tick (the front end moves it) and counts the
/// distance; a shot past its range is spent. Returns the spent shots'
/// indices, in order. Other entries are left alone.
pub fn update_beams(beams: &mut Vec<Beam>) -> (spent: Vec<usize>)
    requires
        forall|i: int| 0 <= i < old(beams)@.len() ==> #[trigger] old(beams)@[i].traveled <= u32::MAX - 30,
    ensures
        final(beams)@.len() == old(beams)@.len(),
        forall|i: int| 0 <= i < old(beams)@.len() ==> #[trigger] final(beams)@[i] == if is_shot(old(beams)@[i].kind) {
            Beam { traveled: (old(beams)@[i].traveled + beam_speed(old(beams)@[i].kind)) as u32, ..old(beams)@[i] }
        } else {
            old(beams)@[i]
        },
        forall|k: int| 0 <= k < spent@.len() ==> {
            let i = #[trigger] spent@[k] as int;
            &&& 0 <= i < old(beams)@.len()
            &&& is_shot(old(beams)@[i].kind)
            &&& final(beams)@[i].traveled >= beam_range(old(beams)@[i].kind)
        },
        forall|i: int| 0 <= i < old(beams)@.len() && is_shot(old(beams)@[i].kind)
            && final(beams)@[i].traveled >= beam_range(old(beams)@[i].kind) ==> spent@.contains(i as usize),
        forall|a: int, b: int| 0 <= a < b < spent@.len() ==> spent@[a] < spent@[b],
{
    let mut spent: Vec<usize> = Vec::new();
    let mut i: usize = 0;
    while i < beams.len()
        invariant
            i <= beams.len(),
            beams@.len() == old(beams)@.len(),
            forall|j: int| 0 <= j < old(beams)@.len() ==> #[trigger] old(beams)@[j].traveled <= u32::MAX - 30,
            forall|j: int| i <= j < beams@.len() ==> #[trigger] beams@[j] == old(beams)@[j],
            forall|j: int| 0 <= j < i ==> #[trigger] beams@[j] == if is_shot(old(beams)@[j].kind) {
                Beam { traveled: (old(beams)@[j].traveled + beam_speed(old(beams)@[j].kind)) as u32, ..old(beams)@[j] }
            } else {
                old(beams)@[j]
            },
            forall|k: int| 0 <= k < spent@.len() ==> {
                let j = #[trigger] spent@[k] as int;
                &&& 0 <= j < i
                &&& is_shot(old(beams)@[j].kind)
                &&& beams@[j].traveled >= beam_range(old(beams)@[j].kind)
            },
            forall|j: int| 0 <= j < i && is_shot(old(beams)@[j].kind)
                && beams@[j].traveled >= beam_range(old(beams)@[j].kind) ==> spent@.contains(j as usize),
            forall|a: int, b: int| 0 <= a < b < spent@.len() ==> spent@[a] < spent@[b],
        decreases beams.len() - i,
    {
        let b = beams[i];
        let shot = b.kind == EntityKind::SwordBeam || b.kind == EntityKind::DebugShot;
        if shot {
            let speed = if b.kind == EntityKind::DebugShot { DEBUG_SHOT_SPEED } else { BEAM_SPEED };
            let range = if b.kind == EntityKind::DebugShot { DEBUG_SHOT_RANGE } else { BEAM_RANGE };
            let traveled = b.traveled + speed;
            beams.set(i, Beam { traveled, ..b });
            if traveled >= range {
                let ghost before = spent@;
                spent.push(i);
                proof {
                    assert(spent@[spent@.len() - 1] == i);
                    assert forall|j: int| 0 <= j < i && is_shot(old(beams)@[j].kind)
                        && beams@[j].traveled >= beam_range(old(beams)@[j].kind) implies spent@.contains(j as usize) by {
                        assert(before.contains(j as usize));
                        let m = choose|m: int| 0 <= m < before.len() && before[m] == j as usize;
                        assert(spent@[m] == j as usize);
                    }
                }
            }
        }
        i = i + 1;
    }
    spent
}

/// A box by centre and half extents, in the front end's sub-pixel units.
#[derive(Clone, Copy, Debug, PartialEq, Eq, Structural)]
pub struct Aabb {
    pub cx: i32,
    pub cy: i32,
    pub hx: i32,
    pub hy: i32,
}

/// Open overlap of two boxes (touching edges do not count).
pub open spec fn spec_overlap(a: Aabb, b: Aabb) -> bool {
    &&& a.cx - a.hx < b.cx + b.hx
    &&& a.cx + a.hx > b.cx - b.hx
    &&& a.cy - a.hy < b.cy + b.hy
    &&& a.cy + a.hy > b.cy - b.hy
}

pub fn overlap(a: Aabb, b: Aabb) -> (r: bool)
    ensures
        r == spec_overlap(a, b),
{
    let (ax, ay, ahx, ahy) = (a.cx as i64, a.cy as i64, a.hx as i64, a.hy as i64);
    let (bx, by, bhx, bhy) = (b.cx as i64, b.cy as i64, b.hx as i64, b.hy as i64);
    ax - ahx < bx + bhx && ax + ahx > bx - bhx && ay - ahy < by + bhy && ay + ahy > by - bhy
}

/// Body contact with the player: the player exists and has a body
/// (`player`), and the boxes overlap.
pub fn overlaps_player(player: Option<Aabb>, e: Aabb) -> (r: bool)
    ensures
        r == (player matches Some(p) && spec_overlap(p, e)),
{
    match player {
        Some(p) => overlap(p, e),
        None => false,
    }
}

} // verus!
