//! Dungeon puzzles: colour crystals and their gates, the ordered seal
//! runes, the flame torches.

use vstd::prelude::*;
use crate::flags::has_flag;
use crate::tiles::{paint, paint_seq, read, Ground};
use super::paint_cells;
use crate::rooms::{
    open_ante_shutters, open_flagged_doors, open_kind_doors, paint_seal_door, spec_open_ante, spec_paint_seal_door,
    DoorKind, DoorTiles, DungeonFlags, DungeonRooms, RoomDef,
};

verus! {

/// Runes a seal needs, struck in order by one throw.
pub const SEAL_RUNES: usize = 3;

/// Dungeon puzzle state: crystal colours, lit torches, and the progress of
/// the current rune sequence (`(throw_id, runes struck in order)`).
pub struct DungeonPuzzleState {
    pub crystal_amber: Vec<bool>,
    pub flame_lit: [bool; 2],
    pub seal_hits: Option<(u32, Vec<u8>)>,
}

/// Tile ids of the dungeon puzzle pieces (from the dungeon's tile catalog).
#[derive(Clone, Copy, Debug)]
pub struct DungeonTiles {
    pub crystal_amber: u16,
    pub crystal_blue: u16,
    pub gate_blue_up: u16,
    pub gate_blue_down: u16,
    pub gate_amber_up: u16,
    pub gate_amber_down: u16,
    pub torch_lit: u16,
    pub torch_unlit: u16,
}

/// A colour crystal in a room; `amber` is its starting colour and the
/// family of gates it toggles.
#[derive(Clone, Copy, Debug)]
pub struct CrystalDef {
    pub room: u8,
    pub tx: u32,
    pub ty: u32,
    pub amber: bool,
}

/// A crystal gate of a room.
pub struct CrystalGateDef {
    pub room: u8,
    pub amber: bool,
    pub tiles: Vec<(u32, u32)>,
}

/// The torches lit by a flaming boomerang; both lit open their gate.
pub struct FlameDef {
    pub brazier: (u32, u32),
    pub torches: [(u32, u32); 2],
    pub gate: Vec<(u32, u32)>,
}

/// The dungeon's puzzle layout.
pub struct DungeonPuzzles {
    pub crystals: Vec<CrystalDef>,
    pub gates: Vec<CrystalGateDef>,
    pub flame: FlameDef,
    pub multi_gate: Vec<(u32, u32)>,
}

/// A raised gate tile drops and a dropped one rises; other tiles stay.
pub open spec fn flip_gate(id: u16, ids: DungeonTiles) -> u16 {
    if id == ids.gate_blue_up {
        ids.gate_blue_down
    } else if id == ids.gate_blue_down {
        ids.gate_blue_up
    } else if id == ids.gate_amber_up {
        ids.gate_amber_down
    } else if id == ids.gate_amber_down {
        ids.gate_amber_up
    } else {
        id
    }
}

/// Every listed tile flipped (`flip_gate`), in order.
pub open spec fn flip_seq(t: Seq<u16>, w: u32, h: u32, cells: Seq<(u32, u32)>, ids: DungeonTiles) -> Seq<u16>
    decreases cells.len(),
{
    if cells.len() == 0 {
        t
    } else {
        let prev = flip_seq(t, w, h, cells.drop_last(), ids);
        let c = cells.last();
        let cur = read(prev, w, h, c.0, c.1);
        if flip_gate(cur, ids) != cur { paint(prev, w, h, c.0, c.1, flip_gate(cur, ids)) } else { prev }
    }
}

/// The gates of `room` in the family `amber`, each tile flipped.
pub open spec fn flip_family(t: Seq<u16>, w: u32, h: u32, gates: Seq<CrystalGateDef>, room: u8, amber: bool, ids: DungeonTiles) -> Seq<u16>
    decreases gates.len(),
{
    if gates.len() == 0 {
        t
    } else {
        let prev = flip_family(t, w, h, gates.drop_last(), room, amber, ids);
        let g = gates.last();
        if g.room == room && g.amber == amber { flip_seq(prev, w, h, g.tiles@, ids) } else { prev }
    }
}

fn flip_tiles(ground: &mut Ground, cells: &Vec<(u32, u32)>, ids: DungeonTiles)
    requires
        old(ground).wf(),
    ensures
        final(ground).wf(),
        final(ground).width == old(ground).width && final(ground).height == old(ground).height,
        final(ground).tiles@ == flip_seq(old(ground).tiles@, old(ground).width, old(ground).height, cells@, ids),
{
    let mut i: usize = 0;
    while i < cells.len()
        invariant
            i <= cells.len(),
            ground.wf(),
            ground.width == old(ground).width && ground.height == old(ground).height,
            ground.tiles@ == flip_seq(old(ground).tiles@, old(ground).width, old(ground).height, cells@.subrange(0, i as int), ids),
        decreases cells.len() - i,
    {
        let (tx, ty) = cells[i];
        proof {
            assert(cells@.subrange(0, i + 1).drop_last() =~= cells@.subrange(0, i as int));
            assert(cells@.subrange(0, i + 1).last() == cells@[i as int]);
        }
        let cur = ground.get(tx, ty);
        let next = if cur == ids.gate_blue_up {
            ids.gate_blue_down
        } else if cur == ids.gate_blue_down {
            ids.gate_blue_up
        } else if cur == ids.gate_amber_up {
            ids.gate_amber_down
        } else if cur == ids.gate_amber_down {
            ids.gate_amber_up
        } else {
            cur
        };
        if next != cur {
            ground.set(tx, ty, next);
        }
        i = i + 1;
    }
    assert(cells@.subrange(0, cells@.len() as int) =~= cells@);
}

fn flip_gate_family(ground: &mut Ground, gates: &Vec<CrystalGateDef>, room: u8, amber: bool, ids: DungeonTiles)
    requires
        old(ground).wf(),
    ensures
        final(ground).wf(),
        final(ground).width == old(ground).width && final(ground).height == old(ground).height,
        final(ground).tiles@ == flip_family(old(ground).tiles@, old(ground).width, old(ground).height, gates@, room, amber, ids),
{
    let mut i: usize = 0;
    while i < gates.len()
        invariant
            i <= gates.len(),
            ground.wf(),
            ground.width == old(ground).width && ground.height == old(ground).height,
            ground.tiles@ == flip_family(old(ground).tiles@, old(ground).width, old(ground).height, gates@.subrange(0, i as int), room, amber, ids),
        decreases gates.len() - i,
    {
        proof {
            assert(gates@.subrange(0, i + 1).drop_last() =~= gates@.subrange(0, i as int));
            assert(gates@.subrange(0, i + 1).last() == gates@[i as int]);
        }
        let g = &gates[i];
        if g.room == room && g.amber == amber {
            flip_tiles(ground, &g.tiles, ids);
        }
        i = i + 1;
    }
    assert(gates@.subrange(0, gates@.len() as int) =~= gates@);
}

/// What a rune strike did to the current sequence.
#[derive(Clone, Copy, Debug, PartialEq, Eq, Structural)]
pub enum RuneHit {
    /// The seal is already broken, or this throw already struck the rune.
    Ignored,
    /// Out of order: the sequence is forgotten (bad-rune sound).
    Wrong,
    /// In order (good-rune sound).
    Right,
    /// In order and the third: the seal breaks (its flag is set by the
    /// caller, door repainted, break sound, shake, toast).
    Broken,
}

/// The rune sequence in progress belongs to `throw_id` and holds `runes`.
pub open spec fn sequence_is(hits: Option<(u32, Vec<u8>)>, throw_id: u32, runes: Seq<u8>) -> bool {
    match hits {
        Some((t, v)) => t == throw_id && v@ == runes,
        None => false,
    }
}

/// A rune sequence in progress holds runes 0, 1, ... in order, at most
/// `SEAL_RUNES` of them.
pub open spec fn seal_progress_ok(hits: Option<(u32, Vec<u8>)>) -> bool {
    match hits {
        Some((_, v)) => v@.len() <= SEAL_RUNES && forall|j: int| 0 <= j < v@.len() ==> v@[j] == j,
        None => true,
    }
}

/// What a flame touched.
#[derive(Clone, Copy, Debug, PartialEq, Eq, Structural)]
pub enum TorchChange {
    Unchanged,
    /// A flaming boomerang lit an unlit torch (torch sound).
    Lit,
    /// A cold boomerang snuffed a lit torch (snuff sound).
    Snuffed,
}

impl DungeonPuzzleState {
    /// Crystals start in their layout colours; no torch lit; no sequence.
    pub fn new(def: &DungeonPuzzles) -> (s: Self)
        ensures
            s.crystal_amber@.len() == def.crystals@.len(),
            forall|i: int| 0 <= i < def.crystals@.len() ==> s.crystal_amber@[i] == def.crystals@[i].amber,
            !s.flame_lit[0] && !s.flame_lit[1],
            s.seal_hits is None,
    {
        let mut amber: Vec<bool> = Vec::new();
        let mut i: usize = 0;
        while i < def.crystals.len()
            invariant
                i <= def.crystals.len(),
                amber@.len() == i,
                forall|j: int| 0 <= j < i ==> amber@[j] == def.crystals@[j].amber,
            decreases def.crystals.len() - i,
        {
            amber.push(def.crystals[i].amber);
            i = i + 1;
        }
        DungeonPuzzleState { crystal_amber: amber, flame_lit: [false, false], seal_hits: None }
    }

    /// Toggles crystal `idx`: its colour flips and shows, and the gates of
    /// its room and family flip up or down. Returns its new colour (amber
    /// or blue sound), or `None` for an unknown index.
    pub fn toggle_crystal(&mut self, ground: &mut Ground, def: &DungeonPuzzles, ids: DungeonTiles, idx: usize) -> (amber: Option<bool>)
        requires
            old(ground).wf(),
            old(self).crystal_amber@.len() <= def.crystals@.len(),
        ensures
            final(ground).wf(),
            final(ground).width == old(ground).width && final(ground).height == old(ground).height,
            final(self).flame_lit == old(self).flame_lit,
            final(self).seal_hits == old(self).seal_hits,
            idx >= old(self).crystal_amber@.len() ==> amber is None && final(self).crystal_amber@ == old(self).crystal_amber@
                && *final(ground) == *old(ground),
            idx < old(self).crystal_amber@.len() ==> ({
                let c = def.crystals@[idx as int];
                let now = !old(self).crystal_amber@[idx as int];
                let w = old(ground).width;
                let h = old(ground).height;
                let shown = paint(old(ground).tiles@, w, h, c.tx, c.ty, if now { ids.crystal_amber } else { ids.crystal_blue });
                &&& amber == Some(now)
                &&& final(self).crystal_amber@ == old(self).crystal_amber@.update(idx as int, now)
                &&& final(ground).tiles@ == flip_family(shown, w, h, def.gates@, c.room, c.amber, ids)
            }),
    {
        if idx >= self.crystal_amber.len() {
            return None;
        }
        let now = !self.crystal_amber[idx];
        self.crystal_amber.set(idx, now);
        let c = def.crystals[idx];
        let sprite = if now { ids.crystal_amber } else { ids.crystal_blue };
        ground.set(c.tx, c.ty, sprite);
        flip_gate_family(ground, &def.gates, c.room, c.amber, ids);
        Some(now)
    }

    /// Rune `rune` (0, 1, 2) of a seal struck by throw `throw_id`. Runes
    /// must be struck in order by one throw; a new throw starts over, an
    /// out-of-order rune forgets the sequence.
    pub fn strike_rune(&mut self, flags: &Vec<u16>, seal_flag: u16, rune: u8, throw_id: u32) -> (r: RuneHit)
        requires
            seal_progress_ok(old(self).seal_hits),
            rune < SEAL_RUNES,
        ensures
            seal_progress_ok(final(self).seal_hits),
            r == RuneHit::Broken ==> sequence_is(final(self).seal_hits, throw_id, seq![0u8, 1u8, 2u8]),
            final(self).crystal_amber@ == old(self).crystal_amber@,
            final(self).flame_lit == old(self).flame_lit,
            flags@.contains(seal_flag) ==> r == RuneHit::Ignored && final(self).seal_hits == old(self).seal_hits,
            !flags@.contains(seal_flag) ==> ({
                let prior: Seq<u8> = match old(self).seal_hits {
                    Some((t, v)) => if t == throw_id { v@ } else { seq![] },
                    None => seq![],
                };
                &&& prior.contains(rune) ==> r == RuneHit::Ignored && sequence_is(final(self).seal_hits, throw_id, prior)
                &&& !prior.contains(rune) && rune != prior.len() ==> r == RuneHit::Wrong && final(self).seal_hits is None
                &&& !prior.contains(rune) && rune == prior.len() ==> sequence_is(final(self).seal_hits, throw_id, prior.push(rune))
                    && r == if prior.len() + 1 == SEAL_RUNES { RuneHit::Broken } else { RuneHit::Right }
            }),
    {
        if has_flag(flags, seal_flag) {
            return RuneHit::Ignored;
        }
        let mut seq: Vec<u8> = match self.seal_hits.take() {
            Some((t, v)) => if t == throw_id { v } else { Vec::new() },
            None => Vec::new(),
        };
        let mut k: usize = 0;
        let mut seen = false;
        while k < seq.len()
            invariant
                k <= seq.len(),
                seen == seq@.subrange(0, k as int).contains(rune),
            decreases seq.len() - k,
        {
            let ghost before = seq@.subrange(0, k as int);
            let ghost after = seq@.subrange(0, k + 1);
            proof {
                assert(after =~= before.push(seq@[k as int]));
                if before.contains(rune) {
                    let m = choose|m: int| 0 <= m < before.len() && before[m] == rune;
                    assert(after[m] == rune);
                }
                if after.contains(rune) && seq@[k as int] != rune {
                    let m = choose|m: int| 0 <= m < after.len() && after[m] == rune;
                    assert(before[m] == rune);
                }
                if seq@[k as int] == rune {
                    assert(after[k as int] == rune);
                }
            }
            if seq[k] == rune {
                seen = true;
            }
            k = k + 1;
        }
        assert(seq@.subrange(0, seq@.len() as int) =~= seq@);
        if seen {
            self.seal_hits = Some((throw_id, seq));
            return RuneHit::Ignored;
        }
        if rune as usize != seq.len() {
            self.seal_hits = None;
            return RuneHit::Wrong;
        }
        let ghost prior = seq@;
        seq.push(rune);
        proof {
            if seq@.len() == SEAL_RUNES {
                assert(prior.len() == 2);
                assert(prior[0] == 0 && prior[1] == 1);
                assert(seq@ =~= seq![0u8, 1u8, 2u8]);
            }
        }
        let done = seq.len() == SEAL_RUNES;
        self.seal_hits = Some((throw_id, seq));
        if done { RuneHit::Broken } else { RuneHit::Right }
    }

    /// Boomerang near torch `i`: a flaming one lights it, a cold one snuffs
    /// it; the torch tile shows the change.
    pub fn touch_torch(&mut self, ground: &mut Ground, def: &DungeonPuzzles, ids: DungeonTiles, i: usize, flaming: bool) -> (r: TorchChange)
        requires
            old(ground).wf(),
            i < 2,
        ensures
            final(ground).wf(),
            final(ground).width == old(ground).width && final(ground).height == old(ground).height,
            final(self).crystal_amber@ == old(self).crystal_amber@,
            final(self).seal_hits == old(self).seal_hits,
            final(self).flame_lit[1 - i as int] == old(self).flame_lit[1 - i as int],
            final(self).flame_lit[i as int] == flaming,
            r == if flaming && !old(self).flame_lit[i as int] {
                TorchChange::Lit
            } else if !flaming && old(self).flame_lit[i as int] {
                TorchChange::Snuffed
            } else {
                TorchChange::Unchanged
            },
            final(ground).tiles@ == match r {
                TorchChange::Lit => paint(old(ground).tiles@, old(ground).width, old(ground).height,
                    def.flame.torches[i as int].0, def.flame.torches[i as int].1, ids.torch_lit),
                TorchChange::Snuffed => paint(old(ground).tiles@, old(ground).width, old(ground).height,
                    def.flame.torches[i as int].0, def.flame.torches[i as int].1, ids.torch_unlit),
                TorchChange::Unchanged => old(ground).tiles@,
            },
    {
        let t = def.flame.torches[i];
        if flaming {
            if !self.flame_lit[i] {
                self.flame_lit[i] = true;
                ground.set(t.0, t.1, ids.torch_lit);
                return TorchChange::Lit;
            }
        } else if self.flame_lit[i] {
            self.flame_lit[i] = false;
            ground.set(t.0, t.1, ids.torch_unlit);
            return TorchChange::Snuffed;
        }
        TorchChange::Unchanged
    }

    /// Until the flame room's key is earned (`key_flag`), both torches lit
    /// drop the flame gate.
    pub fn update_flame(&self, flags: &Vec<u16>, key_flag: u16, ground: &mut Ground, def: &DungeonPuzzles, ids: DungeonTiles)
        requires
            old(ground).wf(),
        ensures
            final(ground).wf(),
            final(ground).width == old(ground).width && final(ground).height == old(ground).height,
            final(ground).tiles@ == if !flags@.contains(key_flag) && self.flame_lit[0] && self.flame_lit[1] {
                paint_seq(old(ground).tiles@, old(ground).width, old(ground).height, def.flame.gate@, ids.gate_blue_down)
            } else {
                old(ground).tiles@
            },
    {
        if has_flag(flags, key_flag) {
            return;
        }
        if self.flame_lit[0] && self.flame_lit[1] {
            paint_cells(ground, &def.flame.gate, ids.gate_blue_down);
        }
    }

    /// The multi-room gate is down exactly while crystals 4 and 5 share a
    /// colour (no change with fewer than six crystals).
    pub fn update_multi(&self, ground: &mut Ground, def: &DungeonPuzzles, ids: DungeonTiles)
        requires
            old(ground).wf(),
        ensures
            final(ground).wf(),
            final(ground).width == old(ground).width && final(ground).height == old(ground).height,
            final(ground).tiles@ == if self.crystal_amber@.len() < 6 {
                old(ground).tiles@
            } else {
                paint_seq(old(ground).tiles@, old(ground).width, old(ground).height, def.multi_gate@,
                    if self.crystal_amber@[4] == self.crystal_amber@[5] { ids.gate_blue_down } else { ids.gate_blue_up })
            },
    {
        if self.crystal_amber.len() < 6 {
            return;
        }
        let same = self.crystal_amber[4] == self.crystal_amber[5];
        let tile = if same { ids.gate_blue_down } else { ids.gate_blue_up };
        paint_cells(ground, &def.multi_gate, tile);
    }

    /// Entering the flame room before its key is earned resets it: torches
    /// out, gate up.
    pub fn reset_flame_room(&mut self, flags: &Vec<u16>, key_flag: u16, ground: &mut Ground, def: &DungeonPuzzles, ids: DungeonTiles)
        requires
            old(ground).wf(),
        ensures
            final(ground).wf(),
            final(ground).width == old(ground).width && final(ground).height == old(ground).height,
            final(self).crystal_amber@ == old(self).crystal_amber@,
            final(self).seal_hits == old(self).seal_hits,
            flags@.contains(key_flag) ==> final(self).flame_lit == old(self).flame_lit && *final(ground) == *old(ground),
            !flags@.contains(key_flag) ==> {
                let w = old(ground).width;
                let h = old(ground).height;
                let t0 = def.flame.torches[0];
                let t1 = def.flame.torches[1];
                let lit = paint(paint(old(ground).tiles@, w, h, t0.0, t0.1, ids.torch_unlit), w, h, t1.0, t1.1, ids.torch_unlit);
                &&& !final(self).flame_lit[0] && !final(self).flame_lit[1]
                &&& final(ground).tiles@ == paint_seq(lit, w, h, def.flame.gate@, ids.gate_blue_up)
            },
    {
        if has_flag(flags, key_flag) {
            return;
        }
        self.flame_lit = [false, false];
        let t0 = def.flame.torches[0];
        let t1 = def.flame.torches[1];
        ground.set(t0.0, t0.1, ids.torch_unlit);
        ground.set(t1.0, t1.1, ids.torch_unlit);
        paint_cells(ground, &def.flame.gate, ids.gate_blue_up);
    }
}


/// A puzzle room is solved once its reward flag is set: the flame room by
/// its small key, each seal room by its seal.
pub open spec fn room_solved(flags: Seq<u16>, room: u8, r: DungeonRooms, f: DungeonFlags) -> bool {
    if room == r.flame {
        flags.contains(f.small_key_2)
    } else if room == r.seal_west {
        flags.contains(f.seal_west)
    } else if room == r.seal_east {
        flags.contains(f.seal_east)
    } else {
        false
    }
}

fn room_solved_exec(flags: &Vec<u16>, room: u8, r: &DungeonRooms, f: &DungeonFlags) -> (b: bool)
    ensures
        b == room_solved(flags@, room, *r, *f),
{
    if room == r.flame {
        has_flag(flags, f.small_key_2)
    } else if room == r.seal_west {
        has_flag(flags, f.seal_west)
    } else if room == r.seal_east {
        has_flag(flags, f.seal_east)
    } else {
        false
    }
}

/// Crystal gates of unsolved rooms raised (amber or blue by family).
pub open spec fn raise_gates(t: Seq<u16>, w: u32, h: u32, gates: Seq<CrystalGateDef>, flags: Seq<u16>, r: DungeonRooms, f: DungeonFlags, ids: DungeonTiles) -> Seq<u16>
    decreases gates.len(),
{
    if gates.len() == 0 {
        t
    } else {
        let prev = raise_gates(t, w, h, gates.drop_last(), flags, r, f, ids);
        let g = gates.last();
        if room_solved(flags, g.room, r, f) {
            prev
        } else {
            paint_seq(prev, w, h, g.tiles@, if g.amber { ids.gate_amber_up } else { ids.gate_blue_up })
        }
    }
}

/// The dungeon's ground on arrival with every unsolved puzzle closed:
/// raised crystal gates of unsolved rooms; before the flame key, the flame
/// gate up and both torches out; each unbroken seal's doors sealed.
pub open spec fn spec_dungeon_closed(t0: Seq<u16>, w: u32, h: u32, def: DungeonPuzzles, rooms: Seq<RoomDef>, flags: Seq<u16>, r: DungeonRooms, f: DungeonFlags, ids: DungeonTiles, dt: DoorTiles) -> Seq<u16> {
    let t1 = raise_gates(t0, w, h, def.gates@, flags, r, f, ids);
    let tr = def.flame.torches;
    let t2 = if !flags.contains(f.small_key_2) {
        let a = paint_seq(t1, w, h, def.flame.gate@, ids.gate_blue_up);
        paint(paint(a, w, h, tr[0].0, tr[0].1, ids.torch_unlit), w, h, tr[1].0, tr[1].1, ids.torch_unlit)
    } else {
        t1
    };
    let t3 = if !flags.contains(f.seal_west) { spec_paint_seal_door(t2, w, h, rooms, r.seal_west, r.antechamber, true, dt) } else { t2 };
    if !flags.contains(f.seal_east) { spec_paint_seal_door(t3, w, h, rooms, r.seal_east, r.antechamber, true, dt) } else { t3 }
}

pub fn dungeon_paint_closed(ground: &mut Ground, def: &DungeonPuzzles, rooms: &Vec<RoomDef>, flags: &Vec<u16>, r: &DungeonRooms, f: &DungeonFlags, ids: DungeonTiles, dt: &DoorTiles)
    requires
        old(ground).wf(),
    ensures
        final(ground).wf(),
        final(ground).width == old(ground).width && final(ground).height == old(ground).height,
        final(ground).tiles@ == spec_dungeon_closed(old(ground).tiles@, old(ground).width, old(ground).height, *def, rooms@, flags@, *r, *f, ids, *dt),
{
    let mut i: usize = 0;
    while i < def.gates.len()
        invariant
            i <= def.gates.len(),
            ground.wf(),
            ground.width == old(ground).width && ground.height == old(ground).height,
            ground.tiles@ == raise_gates(old(ground).tiles@, old(ground).width, old(ground).height, def.gates@.subrange(0, i as int), flags@, *r, *f, ids),
        decreases def.gates.len() - i,
    {
        proof {
            assert(def.gates@.subrange(0, i + 1).drop_last() =~= def.gates@.subrange(0, i as int));
            assert(def.gates@.subrange(0, i + 1).last() == def.gates@[i as int]);
        }
        let g = &def.gates[i];
        if !room_solved_exec(flags, g.room, r, f) {
            let tile = if g.amber { ids.gate_amber_up } else { ids.gate_blue_up };
            paint_cells(ground, &g.tiles, tile);
        }
        i = i + 1;
    }
    assert(def.gates@.subrange(0, def.gates@.len() as int) =~= def.gates@);
    if !has_flag(flags, f.small_key_2) {
        paint_cells(ground, &def.flame.gate, ids.gate_blue_up);
        let tr = def.flame.torches;
        ground.set(tr[0].0, tr[0].1, ids.torch_unlit);
        ground.set(tr[1].0, tr[1].1, ids.torch_unlit);
    }
    if !has_flag(flags, f.seal_west) {
        paint_seal_door(ground, rooms, r.seal_west, r.antechamber, true, dt);
    }
    if !has_flag(flags, f.seal_east) {
        paint_seal_door(ground, rooms, r.seal_east, r.antechamber, true, dt);
    }
}

/// The dungeon's ground restored from saved flags: broken seals' doors,
/// the way on once both are broken, every door unlocked earlier, and a
/// solved flame room (gate down, torches lit).
pub open spec fn spec_dungeon_restore(t0: Seq<u16>, w: u32, h: u32, def: DungeonPuzzles, rooms: Seq<RoomDef>, flags: Seq<u16>, r: DungeonRooms, f: DungeonFlags, ids: DungeonTiles, dt: DoorTiles) -> Seq<u16> {
    let t1 = if flags.contains(f.seal_west) { spec_paint_seal_door(t0, w, h, rooms, r.seal_west, r.antechamber, false, dt) } else { t0 };
    let t2 = if flags.contains(f.seal_east) { spec_paint_seal_door(t1, w, h, rooms, r.seal_east, r.antechamber, false, dt) } else { t1 };
    let t3 = if flags.contains(f.seal_west) && flags.contains(f.seal_east) { spec_open_ante(t2, w, h, rooms, r, dt.door_open) } else { t2 };
    let t4 = if flags.contains(f.door_wing) { open_kind_doors(t3, w, h, rooms, DoorKind::SmallKey, dt.door_open) } else { t3 };
    let t5 = if flags.contains(f.door_inner) { open_kind_doors(t4, w, h, rooms, DoorKind::InnerKey, dt.door_open) } else { t4 };
    let t6 = if flags.contains(f.door_boss_used) { open_kind_doors(t5, w, h, rooms, DoorKind::BossKey, dt.door_open) } else { t5 };
    let tr = def.flame.torches;
    if flags.contains(f.small_key_2) {
        let a = paint_seq(t6, w, h, def.flame.gate@, ids.gate_blue_down);
        paint(paint(a, w, h, tr[0].0, tr[0].1, ids.torch_lit), w, h, tr[1].0, tr[1].1, ids.torch_lit)
    } else {
        t6
    }
}

pub fn dungeon_restore(ground: &mut Ground, def: &DungeonPuzzles, rooms: &Vec<RoomDef>, flags: &Vec<u16>, r: &DungeonRooms, f: &DungeonFlags, ids: DungeonTiles, dt: &DoorTiles)
    requires
        old(ground).wf(),
    ensures
        final(ground).wf(),
        final(ground).width == old(ground).width && final(ground).height == old(ground).height,
        final(ground).tiles@ == spec_dungeon_restore(old(ground).tiles@, old(ground).width, old(ground).height, *def, rooms@, flags@, *r, *f, ids, *dt),
{
    let west = has_flag(flags, f.seal_west);
    let east = has_flag(flags, f.seal_east);
    if west {
        paint_seal_door(ground, rooms, r.seal_west, r.antechamber, false, dt);
    }
    if east {
        paint_seal_door(ground, rooms, r.seal_east, r.antechamber, false, dt);
    }
    if west && east {
        open_ante_shutters(ground, rooms, r, dt);
    }
    if has_flag(flags, f.door_wing) {
        open_flagged_doors(ground, rooms, DoorKind::SmallKey, dt);
    }
    if has_flag(flags, f.door_inner) {
        open_flagged_doors(ground, rooms, DoorKind::InnerKey, dt);
    }
    if has_flag(flags, f.door_boss_used) {
        open_flagged_doors(ground, rooms, DoorKind::BossKey, dt);
    }
    if has_flag(flags, f.small_key_2) {
        paint_cells(ground, &def.flame.gate, ids.gate_blue_down);
        let tr = def.flame.torches;
        ground.set(tr[0].0, tr[0].1, ids.torch_lit);
        ground.set(tr[1].0, tr[1].1, ids.torch_lit);
    }
}

} // verus!
