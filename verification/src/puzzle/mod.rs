//! Tile puzzles of the overworld: per-swing tile hits, barricades, the chime
//! gates and the three-chime finale, the pressure-plate court and its
//! push block, cranks and the cracked bomb wall.

pub mod dungeon;

use vstd::prelude::*;
use crate::entity::AttackKind;
use crate::flags::{has_flag, set_flag};
use crate::dice::roll_percent;
use crate::map::{add_door_once, MapId, Trigger, TriggerKind};
use crate::tiles::{paint, paint_seq, read, Ground};

verus! {

/// Pushing against the block this many ticks slides it one tile.
pub const BLOCK_PUSH_TICKS: u16 = 6;
/// The hit-tile ledger is trimmed once it holds more than this many entries.
pub const HIT_TILES_CAP: usize = 64;
/// How many entries a trimmed ledger keeps (the newest).
pub const HIT_TILES_KEEP: usize = 32;

/// Overworld puzzle state of the current map.
pub struct PuzzleState {
    /// Tick at which each finale chime last rang; 0 = not recently rung.
    pub chime_rings: [u64; 3],
    pub push_ticks: u16,
    pub push_dir: (i32, i32),
    pub push_block: Option<(u32, u32)>,
    /// `(swing_id, tx, ty)`: tiles each swing has already struck.
    pub hit_tiles: Vec<(u32, u32, u32)>,
    /// Remaining hit points of each standing barricade tile.
    pub barricade_hp: Vec<((u32, u32), i32)>,
    pub plate_down: [bool; 2],
}

/// Every barricade tile still listed has hit points left.
pub open spec fn barricades_standing(s: Seq<((u32, u32), i32)>) -> bool {
    forall|i: int| 0 <= i < s.len() ==> #[trigger] s[i].1 > 0
}

/// Tile ids of the overworld puzzle pieces (from the map's tile catalog).
#[derive(Clone, Copy, Debug)]
pub struct PuzzleTiles {
    pub gate: u16,
    pub plate_up: u16,
    pub plate_down: u16,
    pub block: u16,
    pub crank: u16,
    pub barricade: u16,
    pub cracked_wall: u16,
}

impl PuzzleState {
    /// Fresh state for a map whose barricades cover `barricade_tiles`, each
    /// tile starting at `hp` hit points.
    pub fn for_map(barricade_tiles: &Vec<(u32, u32)>, hp: i32) -> (s: Self)
        requires
            hp > 0,
        ensures
            s.chime_rings[0] == 0 && s.chime_rings[1] == 0 && s.chime_rings[2] == 0,
            s.push_ticks == 0,
            s.push_dir == (0i32, 0i32),
            s.push_block is None,
            s.hit_tiles@.len() == 0,
            s.barricade_hp@ == barricade_tiles@.map_values(|t: (u32, u32)| (t, hp)),
            barricades_standing(s.barricade_hp@),
            !s.plate_down[0] && !s.plate_down[1],
    {
        let mut hps: Vec<((u32, u32), i32)> = Vec::new();
        let mut i: usize = 0;
        while i < barricade_tiles.len()
            invariant
                i <= barricade_tiles.len(),
                hps@ == barricade_tiles@.subrange(0, i as int).map_values(|t: (u32, u32)| (t, hp)),
            decreases barricade_tiles.len() - i,
        {
            hps.push((barricade_tiles[i], hp));
            proof {
                assert(barricade_tiles@.subrange(0, i + 1).map_values(|t: (u32, u32)| (t, hp))
                    =~= barricade_tiles@.subrange(0, i as int).map_values(|t: (u32, u32)| (t, hp)).push((barricade_tiles@[i as int], hp)));
            }
            i = i + 1;
        }
        assert(barricade_tiles@.subrange(0, barricade_tiles@.len() as int) =~= barricade_tiles@);
        PuzzleState {
            chime_rings: [0, 0, 0],
            push_ticks: 0,
            push_dir: (0, 0),
            push_block: None,
            hit_tiles: hps_empty(),
            barricade_hp: hps,
            plate_down: [false, false],
        }
    }

    /// Records that `swing_id` struck tile `(tx, ty)`; true the first time
    /// only, so one swing triggers a tile once.
    pub fn mark_tile_hit(&mut self, swing_id: u32, tx: u32, ty: u32) -> (first: bool)
        ensures
            first == !old(self).hit_tiles@.contains((swing_id, tx, ty)),
            final(self).hit_tiles@ == if first {
                old(self).hit_tiles@.push((swing_id, tx, ty))
            } else {
                old(self).hit_tiles@
            },
            final(self).hit_tiles@.contains((swing_id, tx, ty)),
            final(self).barricade_hp@ == old(self).barricade_hp@,
            final(self).chime_rings == old(self).chime_rings,
            final(self).plate_down == old(self).plate_down,
            final(self).push_ticks == old(self).push_ticks,
            final(self).push_dir == old(self).push_dir,
            final(self).push_block == old(self).push_block,
    {
        let key = (swing_id, tx, ty);
        if contains_hit(&self.hit_tiles, key) {
            return false;
        }
        self.hit_tiles.push(key);
        assert(self.hit_tiles@[self.hit_tiles@.len() - 1] == key);
        true
    }

    /// Caps the hit-tile ledger: beyond `HIT_TILES_CAP` entries only the
    /// newest `HIT_TILES_KEEP` stay.
    pub fn prune_hit_tiles(&mut self)
        ensures
            final(self).hit_tiles@ == if old(self).hit_tiles@.len() > HIT_TILES_CAP {
                old(self).hit_tiles@.subrange(old(self).hit_tiles@.len() - HIT_TILES_KEEP, old(self).hit_tiles@.len() as int)
            } else {
                old(self).hit_tiles@
            },
            final(self).barricade_hp@ == old(self).barricade_hp@,
            final(self).chime_rings == old(self).chime_rings,
            final(self).plate_down == old(self).plate_down,
            final(self).push_ticks == old(self).push_ticks,
            final(self).push_dir == old(self).push_dir,
            final(self).push_block == old(self).push_block,
    {
        let n = self.hit_tiles.len();
        if n > HIT_TILES_CAP {
            let start = n - HIT_TILES_KEEP;
            let mut kept: Vec<(u32, u32, u32)> = Vec::new();
            let mut i: usize = start;
            while i < n
                invariant
                    start <= i <= n,
                    n == self.hit_tiles@.len(),
                    self.hit_tiles@ == old(self).hit_tiles@,
                    kept@ == self.hit_tiles@.subrange(start as int, i as int),
                decreases n - i,
            {
                kept.push(self.hit_tiles[i]);
                proof {
                    assert(self.hit_tiles@.subrange(start as int, i + 1)
                        =~= self.hit_tiles@.subrange(start as int, i as int).push(self.hit_tiles@[i as int]));
                }
                i = i + 1;
            }
            self.hit_tiles = kept;
        }
    }
}

/// A swing strikes a tile once: once `mark_tile_hit` recorded
/// `(swing_id, tx, ty)` (first strike), a second strike of the same swing
/// on the same tile is not a first strike, as long as the ledger is not
/// trimmed in between.
pub proof fn lemma_tile_struck_once(hits: Seq<(u32, u32, u32)>, key: (u32, u32, u32))
    requires
        !hits.contains(key),
    ensures
        hits.push(key).contains(key),
{
    assert(hits.push(key)[hits.len() as int] == key);
}

fn contains_hit(v: &Vec<(u32, u32, u32)>, key: (u32, u32, u32)) -> (r: bool)
    ensures
        r == v@.contains(key),
{
    let mut i: usize = 0;
    while i < v.len()
        invariant
            i <= v.len(),
            forall|j: int| 0 <= j < i ==> v@[j] != key,
        decreases v.len() - i,
    {
        let h = v[i];
        if h.0 == key.0 && h.1 == key.1 && h.2 == key.2 {
            assert(v@[i as int] == key);
            return true;
        }
        i = i + 1;
    }
    false
}

fn hps_empty() -> (v: Vec<(u32, u32, u32)>)
    ensures
        v@.len() == 0,
{
    Vec::new()
}

/// Damage a struck barricade tile takes from each attack kind.
pub open spec fn spec_barricade_damage(kind: AttackKind) -> i32 {
    match kind {
        AttackKind::Finisher | AttackKind::Spin => 2,
        AttackKind::Bomb => 99,
        _ => 1,
    }
}

pub fn barricade_damage(kind: AttackKind) -> (d: i32)
    ensures
        d == spec_barricade_damage(kind),
        1 <= d <= 99,
{
    match kind {
        AttackKind::Finisher | AttackKind::Spin => 2,
        AttackKind::Bomb => 99,
        AttackKind::Slash
        | AttackKind::Backslash
        | AttackKind::Beam
        | AttackKind::DebugShot
        | AttackKind::Boomerang => 1,
    }
}

/// `k` is the first slot of `s` on tile `t`.
pub open spec fn first_slot(s: Seq<((u32, u32), i32)>, t: (u32, u32), k: int) -> bool {
    &&& 0 <= k < s.len()
    &&& s[k].0 == t
    &&& forall|j: int| 0 <= j < k ==> s[j].0 != t
}

/// What a strike did to a barricade tile.
#[derive(Clone, Copy, Debug, PartialEq, Eq, Structural)]
pub enum BarricadeHit {
    /// No standing barricade on that tile.
    Missed,
    /// Damaged; still standing.
    Cracked,
    /// Out of hit points: the tile becomes floor (a poof, the break sound,
    /// a chance of a rupee).
    Broken,
}

/// A barricade of the map: its tiles and the floor they leave behind.
pub struct BarricadeDef {
    pub tiles: Vec<(u32, u32)>,
    pub floor_tile: u16,
}

/// Floor left by a broken barricade tile: that of the first barricade
/// listing the tile, else `fallback`.
pub open spec fn spec_barricade_floor(defs: Seq<BarricadeDef>, t: (u32, u32), fallback: u16) -> u16
    decreases defs.len(),
{
    if defs.len() == 0 {
        fallback
    } else if defs[0].tiles@.contains(t) {
        defs[0].floor_tile
    } else {
        spec_barricade_floor(defs.drop_first(), t, fallback)
    }
}

fn contains_tile(tiles: &Vec<(u32, u32)>, t: (u32, u32)) -> (r: bool)
    ensures
        r == tiles@.contains(t),
{
    let mut i: usize = 0;
    while i < tiles.len()
        invariant
            i <= tiles.len(),
            forall|j: int| 0 <= j < i ==> tiles@[j] != t,
        decreases tiles.len() - i,
    {
        let c = tiles[i];
        if c.0 == t.0 && c.1 == t.1 {
            assert(tiles@[i as int] == t);
            return true;
        }
        i = i + 1;
    }
    false
}

pub fn barricade_floor(defs: &Vec<BarricadeDef>, t: (u32, u32), fallback: u16) -> (f: u16)
    ensures
        f == spec_barricade_floor(defs@, t, fallback),
{
    let mut i: usize = 0;
    assert(defs@.subrange(0, defs@.len() as int) =~= defs@);
    while i < defs.len()
        invariant
            i <= defs.len(),
            spec_barricade_floor(defs@, t, fallback) == spec_barricade_floor(defs@.subrange(i as int, defs@.len() as int), t, fallback),
        decreases defs.len() - i,
    {
        proof {
            let rest = defs@.subrange(i as int, defs@.len() as int);
            assert(rest.drop_first() =~= defs@.subrange(i + 1, defs@.len() as int));
        }
        if contains_tile(&defs[i].tiles, t) {
            return defs[i].floor_tile;
        }
        i = i + 1;
    }
    proof {
        assert(defs@.subrange(i as int, defs@.len() as int).len() == 0);
    }
    fallback
}

impl PuzzleState {
    /// `dmg` damage to the barricade on tile `t` (the first slot listing
    /// it). At zero hit points the tile's slots go and the ground under it
    /// becomes the barricade's floor.
    pub fn damage_barricade(&mut self, ground: &mut Ground, defs: &Vec<BarricadeDef>, fallback_floor: u16, t: (u32, u32), dmg: i32) -> (r: BarricadeHit)
        requires
            barricades_standing(old(self).barricade_hp@),
            old(ground).wf(),
            dmg >= 0,
        ensures
            barricades_standing(final(self).barricade_hp@),
            final(ground).wf(),
            final(ground).width == old(ground).width && final(ground).height == old(ground).height,
            r == BarricadeHit::Missed <==> (forall|j: int| 0 <= j < old(self).barricade_hp@.len() ==> old(self).barricade_hp@[j].0 != t),
            r == BarricadeHit::Missed ==> final(self).barricade_hp@ == old(self).barricade_hp@ && final(ground).tiles@ == old(ground).tiles@,
            r == BarricadeHit::Cracked ==> exists|k: int| first_slot(old(self).barricade_hp@, t, k)
                && old(self).barricade_hp@[k].1 - dmg > 0
                && final(self).barricade_hp@ == old(self).barricade_hp@.update(k, (t, (old(self).barricade_hp@[k].1 - dmg) as i32))
                && final(ground).tiles@ == old(ground).tiles@,
            r == BarricadeHit::Broken ==> exists|k: int| first_slot(old(self).barricade_hp@, t, k)
                && old(self).barricade_hp@[k].1 - dmg <= 0
                && final(self).barricade_hp@ == old(self).barricade_hp@.filter(|e: ((u32, u32), i32)| e.0 != t)
                && final(ground).tiles@ == paint(old(ground).tiles@, old(ground).width, old(ground).height, t.0, t.1,
                    spec_barricade_floor(defs@, t, fallback_floor)),
            final(self).hit_tiles@ == old(self).hit_tiles@,
            final(self).chime_rings == old(self).chime_rings,
            final(self).plate_down == old(self).plate_down,
            final(self).push_ticks == old(self).push_ticks,
            final(self).push_dir == old(self).push_dir,
            final(self).push_block == old(self).push_block,
    {
        let mut i: usize = 0;
        while i < self.barricade_hp.len()
            invariant
                i <= self.barricade_hp.len(),
                self.barricade_hp@ == old(self).barricade_hp@,
                self.hit_tiles@ == old(self).hit_tiles@,
                self.chime_rings == old(self).chime_rings,
                self.plate_down == old(self).plate_down,
                self.push_ticks == old(self).push_ticks,
                self.push_dir == old(self).push_dir,
                self.push_block == old(self).push_block,
                barricades_standing(old(self).barricade_hp@),
                dmg >= 0,
                *ground == *old(ground),
                old(ground).wf(),
                forall|j: int| 0 <= j < i ==> self.barricade_hp@[j].0 != t,
            decreases self.barricade_hp.len() - i,
        {
            let (tile, hp) = self.barricade_hp[i];
            if tile.0 == t.0 && tile.1 == t.1 {
                assert(first_slot(old(self).barricade_hp@, t, i as int));
                assert(old(self).barricade_hp@[i as int].1 > 0);
                let left: i32 = hp - dmg;
                if left > 0 {
                    self.barricade_hp.set(i, (t, left));
                    proof {
                        assert forall|j: int| 0 <= j < self.barricade_hp@.len() implies #[trigger] self.barricade_hp@[j].1 > 0 by {
                            if j != i {
                                assert(old(self).barricade_hp@[j].1 > 0);
                            }
                        }
                    }
                    return BarricadeHit::Cracked;
                }
                self.remove_barricade(t);
                let floor = barricade_floor(defs, t, fallback_floor);
                ground.set(t.0, t.1, floor);
                return BarricadeHit::Broken;
            }
            i = i + 1;
        }
        BarricadeHit::Missed
    }

    fn remove_barricade(&mut self, t: (u32, u32))
        requires
            barricades_standing(old(self).barricade_hp@),
        ensures
            final(self).barricade_hp@ == old(self).barricade_hp@.filter(|e: ((u32, u32), i32)| e.0 != t),
            barricades_standing(final(self).barricade_hp@),
            final(self).hit_tiles@ == old(self).hit_tiles@,
            final(self).chime_rings == old(self).chime_rings,
            final(self).plate_down == old(self).plate_down,
            final(self).push_ticks == old(self).push_ticks,
            final(self).push_dir == old(self).push_dir,
            final(self).push_block == old(self).push_block,
    {
        let mut kept: Vec<((u32, u32), i32)> = Vec::new();
        let mut i: usize = 0;
        while i < self.barricade_hp.len()
            invariant
                i <= self.barricade_hp.len(),
                self.barricade_hp@ == old(self).barricade_hp@,
                kept@ == self.barricade_hp@.subrange(0, i as int).filter(|e: ((u32, u32), i32)| e.0 != t),
            decreases self.barricade_hp.len() - i,
        {
            let e = self.barricade_hp[i];
            proof {
                assert(self.barricade_hp@.subrange(0, i + 1).drop_last() =~= self.barricade_hp@.subrange(0, i as int));
                reveal_with_fuel(Seq::filter, 1);
            }
            if !(e.0.0 == t.0 && e.0.1 == t.1) {
                kept.push(e);
            }
            i = i + 1;
        }
        assert(self.barricade_hp@.subrange(0, self.barricade_hp@.len() as int) =~= self.barricade_hp@);
        proof {
            let f = self.barricade_hp@.filter(|e: ((u32, u32), i32)| e.0 != t);
            assert forall|j: int| 0 <= j < f.len() implies #[trigger] f[j].1 > 0 by {
                assert(f.contains(f[j]));
                self.barricade_hp@.lemma_filter_contains_rev(|e: ((u32, u32), i32)| e.0 != t, f[j]);
                let m = choose|m: int| 0 <= m < self.barricade_hp@.len() && self.barricade_hp@[m] == f[j];
                assert(self.barricade_hp@[m].1 > 0);
            }
        }
        self.barricade_hp = kept;
    }
}


/// A chime that opens a gate the first time it rings.
pub struct ChimeGateDef {
    pub chime: (u32, u32),
    pub gate: Vec<(u32, u32)>,
    pub open_tile: u16,
    pub flag: u16,
}

/// The grid after painting every listed cell with `id`, read pointwise.
pub open spec fn painted_all(before: Seq<u16>, width: u32, height: u32, cells: Seq<(u32, u32)>, id: u16, x: u32, y: u32) -> u16 {
    if cells.contains((x, y)) && x < width && y < height {
        id
    } else {
        read(before, width, height, x, y)
    }
}

/// The ground after `paint_all(cells, id)`, read at every cell.
pub open spec fn ground_painted_all(after: Ground, before: Ground, cells: Seq<(u32, u32)>, id: u16) -> bool {
    &&& after.wf()
    &&& after.width == before.width && after.height == before.height
    &&& forall|x: u32, y: u32| #[trigger] after.at(x, y) == painted_all(before.tiles@, before.width, before.height, cells, id, x, y)
}

/// Painting every listed in-bounds cell with `id`, and nothing else,
/// is exactly `ground_painted_all`.
pub proof fn lemma_paint_all(after: Ground, before: Ground, cells: Seq<(u32, u32)>, id: u16)
    requires
        after.wf(),
        after.width == before.width && after.height == before.height,
        forall|k: int| 0 <= k < cells.len() && before.in_bounds(cells[k].0, cells[k].1)
            ==> #[trigger] after.at(cells[k].0, cells[k].1) == id,
        forall|tx: u32, ty: u32| !cells.contains((tx, ty)) ==> #[trigger] after.at(tx, ty) == before.at(tx, ty),
    ensures
        ground_painted_all(after, before, cells, id),
{
    assert forall|x: u32, y: u32| #[trigger] after.at(x, y) == painted_all(before.tiles@, before.width, before.height, cells, id, x, y) by {
        if cells.contains((x, y)) {
            let k = choose|k: int| 0 <= k < cells.len() && cells[k] == (x, y);
            if before.in_bounds(x, y) {
                assert(after.at(cells[k].0, cells[k].1) == id);
            }
        }
    }
}

/// Paints the listed cells with `id` (all other cells keep theirs).
pub fn paint_cells(ground: &mut Ground, cells: &Vec<(u32, u32)>, id: u16)
    requires
        old(ground).wf(),
    ensures
        ground_painted_all(*final(ground), *old(ground), cells@, id),
        final(ground).tiles@ == paint_seq(old(ground).tiles@, old(ground).width, old(ground).height, cells@, id),
{
    ground.paint_all(cells, id);
    proof {
        lemma_paint_all(*ground, *old(ground), cells@, id);
    }
}

/// Rings a gate chime (chime sound and sparkle). The first ring sets the
/// gate's flag and opens its gate (gate sound, shake, save). Returns
/// whether its gate opened.
pub fn ring_gate_chime(flags: &mut Vec<u16>, ground: &mut Ground, gate: &ChimeGateDef) -> (opened: bool)
    requires
        old(ground).wf(),
    ensures
        opened == !old(flags)@.contains(gate.flag),
        final(flags)@ == if opened { old(flags)@.push(gate.flag) } else { old(flags)@ },
        opened ==> ground_painted_all(*final(ground), *old(ground), gate.gate@, gate.open_tile),
        !opened ==> *final(ground) == *old(ground),
{
    if has_flag(flags, gate.flag) {
        return false;
    }
    set_flag(flags, gate.flag);
    paint_cells(ground, &gate.gate, gate.open_tile);
    true
}

/// `a - b`, floored at zero.
pub open spec fn sat_sub(a: u64, b: u64) -> int {
    if a >= b { a - b } else { 0 }
}

pub open spec fn max3(a: u64, b: u64, c: u64) -> u64 {
    if a >= b && a >= c { a } else if b >= c { b } else { c }
}

pub open spec fn min3(a: u64, b: u64, c: u64) -> u64 {
    if a <= b && a <= c { a } else if b <= c { b } else { c }
}

/// All three finale chimes rang within `window` ticks of `now`, and of
/// each other.
pub open spec fn finale_complete(r: [u64; 3], now: u64, window: u64) -> bool {
    &&& r[0] > 0 && r[1] > 0 && r[2] > 0
    &&& sat_sub(now, r[0]) <= window && sat_sub(now, r[1]) <= window && sat_sub(now, r[2]) <= window
    &&& sat_sub(max3(r[0], r[1], r[2]), min3(r[0], r[1], r[2])) <= window
}

/// The finale is complete exactly when each of the three chimes has rung,
/// none longer ago than `window` ticks (chimes ring at or before `now`).
pub proof fn lemma_finale_in_window(r: [u64; 3], now: u64, window: u64)
    requires
        r[0] <= now && r[1] <= now && r[2] <= now,
    ensures
        finale_complete(r, now, window) <==> forall|j: int| 0 <= j < 3 ==> 0 < #[trigger] r[j] && now - r[j] <= window,
{
    if forall|j: int| 0 <= j < 3 ==> 0 < #[trigger] r[j] && now - r[j] <= window {
        assert(0 < r[0] && now - r[0] <= window);
        assert(0 < r[1] && now - r[1] <= window);
        assert(0 < r[2] && now - r[2] <= window);
    }
}

/// What ringing a finale chime did.
#[derive(Clone, Copy, Debug, PartialEq, Eq, Structural)]
pub enum FinaleChime {
    /// The seal is already broken: nothing happens.
    Ignored,
    /// The chime rang (sound, sparkle) and its time was noted.
    Rang,
    /// The chime rang and completed the trio: the finale flag is set and the
    /// seal fades (seal sound, toast, shake, save).
    Solved,
}

fn sat_sub_u64(a: u64, b: u64) -> (r: u64)
    ensures
        r == sat_sub(a, b),
{
    if a >= b { a - b } else { 0 }
}

impl PuzzleState {
    /// Rings finale chime `idx` at tick `now`.
    pub fn ring_finale_chime(&mut self, flags: &mut Vec<u16>, finale_flag: u16, idx: usize, now: u64, window: u64) -> (r: FinaleChime)
        requires
            idx < 3,
        ensures
            old(flags)@.contains(finale_flag) ==> r == FinaleChime::Ignored && final(self).chime_rings == old(self).chime_rings
                && final(flags)@ == old(flags)@,
            !old(flags)@.contains(finale_flag) ==> {
                let rings = final(self).chime_rings;
                &&& rings[idx as int] == now
                &&& forall|j: int| 0 <= j < 3 && j != idx ==> rings[j] == old(self).chime_rings[j]
                &&& r == if finale_complete(rings, now, window) { FinaleChime::Solved } else { FinaleChime::Rang }
                &&& final(flags)@ == if finale_complete(rings, now, window) { old(flags)@.push(finale_flag) } else { old(flags)@ }
            },
            final(self).hit_tiles@ == old(self).hit_tiles@,
            final(self).barricade_hp@ == old(self).barricade_hp@,
            final(self).plate_down == old(self).plate_down,
            final(self).push_ticks == old(self).push_ticks,
            final(self).push_dir == old(self).push_dir,
            final(self).push_block == old(self).push_block,
    {
        if has_flag(flags, finale_flag) {
            return FinaleChime::Ignored;
        }
        self.chime_rings[idx] = now;
        let r0 = self.chime_rings[0];
        let r1 = self.chime_rings[1];
        let r2 = self.chime_rings[2];
        let all = r0 > 0 && sat_sub_u64(now, r0) <= window && r1 > 0 && sat_sub_u64(now, r1) <= window
            && r2 > 0 && sat_sub_u64(now, r2) <= window;
        if !all {
            return FinaleChime::Rang;
        }
        let hi = if r0 >= r1 && r0 >= r2 { r0 } else if r1 >= r2 { r1 } else { r2 };
        let lo = if r0 <= r1 && r0 <= r2 { r0 } else if r1 <= r2 { r1 } else { r2 };
        if sat_sub_u64(hi, lo) > window {
            return FinaleChime::Rang;
        }
        set_flag(flags, finale_flag);
        FinaleChime::Solved
    }

    /// While the finale is unsolved, a chime rung more than `window` ticks
    /// ago is forgotten; returns how many were (each plays the miss sound).
    pub fn tick_finale_expiry(&mut self, flags: &Vec<u16>, finale_flag: u16, now: u64, window: u64) -> (misses: u8)
        ensures
            flags@.contains(finale_flag) ==> misses == 0 && final(self).chime_rings == old(self).chime_rings,
            !flags@.contains(finale_flag) ==> {
                &&& forall|j: int| 0 <= j < 3 ==> #[trigger] final(self).chime_rings[j]
                    == if old(self).chime_rings[j] > 0 && sat_sub(now, old(self).chime_rings[j]) > window { 0 } else { old(self).chime_rings[j] }
                &&& misses == (if old(self).chime_rings[0] > 0 && sat_sub(now, old(self).chime_rings[0]) > window { 1int } else { 0int })
                    + (if old(self).chime_rings[1] > 0 && sat_sub(now, old(self).chime_rings[1]) > window { 1int } else { 0int })
                    + (if old(self).chime_rings[2] > 0 && sat_sub(now, old(self).chime_rings[2]) > window { 1int } else { 0int })
            },
            final(self).hit_tiles@ == old(self).hit_tiles@,
            final(self).barricade_hp@ == old(self).barricade_hp@,
            final(self).plate_down == old(self).plate_down,
            final(self).push_ticks == old(self).push_ticks,
            final(self).push_dir == old(self).push_dir,
            final(self).push_block == old(self).push_block,
    {
        if has_flag(flags, finale_flag) {
            return 0;
        }
        let mut misses: u8 = 0;
        let t0 = self.chime_rings[0];
        if t0 > 0 && sat_sub_u64(now, t0) > window {
            self.chime_rings[0] = 0;
            misses = misses + 1;
        }
        let t1 = self.chime_rings[1];
        if t1 > 0 && sat_sub_u64(now, t1) > window {
            self.chime_rings[1] = 0;
            misses = misses + 1;
        }
        let t2 = self.chime_rings[2];
        if t2 > 0 && sat_sub_u64(now, t2) > window {
            self.chime_rings[2] = 0;
            misses = misses + 1;
        }
        misses
    }
}


/// The pressure-plate court: two plates that together open a gate, and
/// the push blocks that can hold a plate down.
pub struct PlateCourtDef {
    pub plates: [(u32, u32); 2],
    pub gate: Vec<(u32, u32)>,
    pub open_tile: u16,
    pub blocks: Vec<(u32, u32)>,
    pub floor_tile: u16,
    pub flag: u16,
}

/// One plate this tick: a block on it or the player's feet press it. With
/// no block on it, its tile shows down under the player and up otherwise
/// (only plate tiles are repainted).
pub open spec fn plate_tiles(t: Seq<u16>, w: u32, h: u32, p: (u32, u32), player_on: bool, ids: PuzzleTiles) -> Seq<u16> {
    let cur = read(t, w, h, p.0, p.1);
    let want = if player_on { ids.plate_down } else { ids.plate_up };
    if cur != ids.block && cur != want && (cur == ids.plate_up || cur == ids.plate_down) {
        paint(t, w, h, p.0, p.1, want)
    } else {
        t
    }
}

/// The plate clicks when its tile changes away from how it last showed.
pub open spec fn plate_clicks(t: Seq<u16>, w: u32, h: u32, p: (u32, u32), player_on: bool, was_down: bool, ids: PuzzleTiles) -> bool {
    let cur = read(t, w, h, p.0, p.1);
    let want = if player_on { ids.plate_down } else { ids.plate_up };
    &&& cur != ids.block
    &&& cur != want && (cur == ids.plate_up || cur == ids.plate_down)
    &&& want != if was_down { ids.plate_down } else { ids.plate_up }
}

pub open spec fn plate_pressed(t: Seq<u16>, w: u32, h: u32, p: (u32, u32), player_on: bool, ids: PuzzleTiles) -> bool {
    read(t, w, h, p.0, p.1) == ids.block || player_on
}

/// The plate court this tick.
#[derive(Clone, Copy, Debug, PartialEq, Eq, Structural)]
pub struct PlateTick {
    /// Plate clicks to play.
    pub clicks: u8,
    /// Both plates were held: the court's flag is set and its gate opens
    /// (gate sound, shake, toast, save).
    pub solved: bool,
}

fn plate_step(ground: &mut Ground, p: (u32, u32), player_on: bool, was_down: bool, ids: PuzzleTiles) -> (r: (bool, bool))
    requires
        old(ground).wf(),
    ensures
        final(ground).wf(),
        final(ground).width == old(ground).width && final(ground).height == old(ground).height,
        final(ground).tiles@ == plate_tiles(old(ground).tiles@, old(ground).width, old(ground).height, p, player_on, ids),
        r.0 == plate_pressed(old(ground).tiles@, old(ground).width, old(ground).height, p, player_on, ids),
        r.1 == plate_clicks(old(ground).tiles@, old(ground).width, old(ground).height, p, player_on, was_down, ids),
{
    let cur = ground.get(p.0, p.1);
    let block_on = cur == ids.block;
    let mut click = false;
    if !block_on {
        let want = if player_on { ids.plate_down } else { ids.plate_up };
        if cur != want && (cur == ids.plate_up || cur == ids.plate_down) {
            ground.set(p.0, p.1, want);
            let shown = if was_down { ids.plate_down } else { ids.plate_up };
            if want != shown {
                click = true;
            }
        }
    }
    (block_on || player_on, click)
}

impl PuzzleState {
    /// Plates of the court this tick. `feet` is the player's feet tile
    /// (`None`: no player, nothing happens). Once solved, the plates are
    /// kept showing down. Unsolved, its gate closes again whenever the
    /// plates are not both held.
    pub fn update_plates(&mut self, flags: &mut Vec<u16>, ground: &mut Ground, court: &PlateCourtDef, ids: PuzzleTiles, feet: Option<(u32, u32)>) -> (r: PlateTick)
        requires
            old(ground).wf(),
        ensures
            final(ground).wf(),
            final(ground).width == old(ground).width && final(ground).height == old(ground).height,
            final(self).hit_tiles@ == old(self).hit_tiles@,
            final(self).barricade_hp@ == old(self).barricade_hp@,
            final(self).chime_rings == old(self).chime_rings,
            final(self).push_ticks == old(self).push_ticks,
            final(self).push_dir == old(self).push_dir,
            final(self).push_block == old(self).push_block,
            ({
                let w = old(ground).width;
                let h = old(ground).height;
                let t0 = old(ground).tiles@;
                let p0 = court.plates[0];
                let p1 = court.plates[1];
                if old(flags)@.contains(court.flag) {
                    let t1 = if read(t0, w, h, p0.0, p0.1) != ids.plate_down { paint(t0, w, h, p0.0, p0.1, ids.plate_down) } else { t0 };
                    let t2 = if read(t1, w, h, p1.0, p1.1) != ids.plate_down { paint(t1, w, h, p1.0, p1.1, ids.plate_down) } else { t1 };
                    &&& final(ground).tiles@ == t2
                    &&& r == (PlateTick { clicks: 0, solved: false })
                    &&& final(flags)@ == old(flags)@
                    &&& final(self).plate_down == old(self).plate_down
                } else if feet is None {
                    &&& *final(ground) == *old(ground)
                    &&& r == (PlateTick { clicks: 0, solved: false })
                    &&& final(flags)@ == old(flags)@
                    &&& final(self).plate_down == old(self).plate_down
                } else {
                    let f = feet.unwrap();
                    let on0 = f == p0;
                    let on1 = f == p1;
                    let t1 = plate_tiles(t0, w, h, p0, on0, ids);
                    let t2 = plate_tiles(t1, w, h, p1, on1, ids);
                    let pr0 = plate_pressed(t0, w, h, p0, on0, ids);
                    let pr1 = plate_pressed(t1, w, h, p1, on1, ids);
                    let c0 = plate_clicks(t0, w, h, p0, on0, old(self).plate_down[0], ids);
                    let c1 = plate_clicks(t1, w, h, p1, on1, old(self).plate_down[1], ids);
                    &&& final(self).plate_down[0] == pr0 && final(self).plate_down[1] == pr1
                    &&& r.clicks == (if c0 { 1int } else { 0int }) + (if c1 { 1int } else { 0int })
                    &&& r.solved == (pr0 && pr1)
                    &&& final(flags)@ == if pr0 && pr1 { old(flags)@.push(court.flag) } else { old(flags)@ }
                    &&& forall|x: u32, y: u32| #[trigger] final(ground).at(x, y) == painted_all(t2, w, h, court.gate@,
                        if pr0 && pr1 { court.open_tile } else { ids.gate }, x, y)
                }
            }),
    {
        if has_flag(flags, court.flag) {
            let p0 = court.plates[0];
            if ground.get(p0.0, p0.1) != ids.plate_down {
                ground.set(p0.0, p0.1, ids.plate_down);
            }
            let p1 = court.plates[1];
            if ground.get(p1.0, p1.1) != ids.plate_down {
                ground.set(p1.0, p1.1, ids.plate_down);
            }
            return PlateTick { clicks: 0, solved: false };
        }
        let f = match feet {
            None => return PlateTick { clicks: 0, solved: false },
            Some(f) => f,
        };
        let p0 = court.plates[0];
        let p1 = court.plates[1];
        let on0 = f.0 == p0.0 && f.1 == p0.1;
        let on1 = f.0 == p1.0 && f.1 == p1.1;
        let was0 = self.plate_down[0];
        let was1 = self.plate_down[1];
        let (pr0, c0) = plate_step(ground, p0, on0, was0, ids);
        self.plate_down[0] = pr0;
        let (pr1, c1) = plate_step(ground, p1, on1, was1, ids);
        self.plate_down[1] = pr1;
        let clicks: u8 = (if c0 { 1u8 } else { 0u8 }) + (if c1 { 1u8 } else { 0u8 });
        if pr0 && pr1 {
            set_flag(flags, court.flag);
            paint_cells(ground, &court.gate, court.open_tile);
            PlateTick { clicks, solved: true }
        } else {
            paint_cells(ground, &court.gate, ids.gate);
            PlateTick { clicks, solved: false }
        }
    }
}


/// The player's push input this tick.
#[derive(Clone, Copy, Debug)]
pub enum PushInput {
    /// No player.
    Absent,
    /// Standing (too slow to push).
    Still,
    /// Moving along `dir` (each component -1, 0 or 1: the sign of the
    /// dominant velocity axis) with feet on tile `feet`.
    Moving { feet: (i32, i32), dir: (i32, i32) },
}

/// A block may land on an in-bounds tile that is not a block and not in
/// `blocking` (solid or water tiles).
pub open spec fn can_land(g: Ground, blocking: Seq<u16>, ids: PuzzleTiles, x: u32, y: u32) -> bool {
    &&& g.in_bounds(x, y)
    &&& g.at(x, y) != ids.block
    &&& !blocking.contains(g.at(x, y))
}

fn contains_id(ids: &Vec<u16>, id: u16) -> (r: bool)
    ensures
        r == ids@.contains(id),
{
    let mut i: usize = 0;
    while i < ids.len()
        invariant
            i <= ids.len(),
            forall|j: int| 0 <= j < i ==> ids@[j] != id,
        decreases ids.len() - i,
    {
        if ids[i] == id {
            return true;
        }
        i = i + 1;
    }
    false
}

fn block_can_land(g: &Ground, blocking: &Vec<u16>, ids: PuzzleTiles, x: u32, y: u32) -> (r: bool)
    requires
        g.wf(),
    ensures
        r == can_land(*g, blocking@, ids, x, y),
{
    if x >= g.width || y >= g.height {
        return false;
    }
    let id = g.get(x, y);
    if id == ids.block {
        return false;
    }
    !contains_id(blocking, id)
}

/// The block in front of the player along `dir`, when that tile is on the
/// non-negative quadrant.
pub open spec fn push_target(feet: (i32, i32), dir: (i32, i32)) -> Option<(u32, u32)> {
    let bx = feet.0 + dir.0;
    let by = feet.1 + dir.1;
    if bx < 0 || by < 0 { None } else { Some((bx as u32, by as u32)) }
}

impl PuzzleState {
    /// The court's push block. Pressing into a block along one axis for
    /// `BLOCK_PUSH_TICKS` ticks slides it one tile onward, if it can land
    /// there (slide sound, dust); the tile it leaves becomes the court's
    /// floor. Returns the tile the block slid to. Nothing happens once the
    /// court is solved or without a player.
    pub fn update_block_push(&mut self, flags: &Vec<u16>, ground: &mut Ground, court: &PlateCourtDef, ids: PuzzleTiles, blocking: &Vec<u16>, input: PushInput) -> (slid: Option<(u32, u32)>)
        requires
            old(ground).wf(),
            input matches PushInput::Moving { dir, .. } ==> -1 <= dir.0 <= 1 && -1 <= dir.1 <= 1,
        ensures
            final(ground).wf(),
            final(ground).width == old(ground).width && final(ground).height == old(ground).height,
            final(self).hit_tiles@ == old(self).hit_tiles@,
            final(self).barricade_hp@ == old(self).barricade_hp@,
            final(self).chime_rings == old(self).chime_rings,
            final(self).plate_down == old(self).plate_down,
            flags@.contains(court.flag) || input is Absent ==> slid is None && *final(ground) == *old(ground)
                && final(self).push_ticks == old(self).push_ticks && final(self).push_dir == old(self).push_dir
                && final(self).push_block == old(self).push_block,
            !flags@.contains(court.flag) && input is Still ==> slid is None && *final(ground) == *old(ground)
                && final(self).push_ticks == 0 && final(self).push_block is None && final(self).push_dir == old(self).push_dir,
            !flags@.contains(court.flag) && input is Moving ==> ({
                let feet = input->feet;
                let dir = input->dir;
                let target = push_target(feet, dir);
                if dir == (0i32, 0i32) || target is None {
                    &&& slid is None && *final(ground) == *old(ground)
                    &&& final(self).push_ticks == 0
                    &&& final(self).push_block == old(self).push_block && final(self).push_dir == old(self).push_dir
                } else if old(ground).at(target.unwrap().0, target.unwrap().1) != ids.block {
                    &&& slid is None && *final(ground) == *old(ground)
                    &&& final(self).push_ticks == 0 && final(self).push_block is None
                    &&& final(self).push_dir == old(self).push_dir
                } else {
                    let b = target.unwrap();
                    let same = old(self).push_block == Some(b) && old(self).push_dir == dir;
                    let ticks: int = if same {
                        if old(self).push_ticks == u16::MAX { u16::MAX as int } else { old(self).push_ticks + 1 }
                    } else {
                        1
                    };
                    let nx = b.0 + dir.0;
                    let ny = b.1 + dir.1;
                    let lands = ticks >= BLOCK_PUSH_TICKS && nx >= 0 && ny >= 0
                        && can_land(*old(ground), blocking@, ids, nx as u32, ny as u32);
                    if lands {
                        &&& slid == Some((nx as u32, ny as u32))
                        &&& final(ground).tiles@ == paint(paint(old(ground).tiles@, old(ground).width, old(ground).height,
                            b.0, b.1, court.floor_tile), old(ground).width, old(ground).height, nx as u32, ny as u32, ids.block)
                        &&& final(self).push_ticks == 0
                        &&& final(self).push_block == Some((nx as u32, ny as u32))
                        &&& final(self).push_dir == dir
                    } else {
                        &&& slid is None && *final(ground) == *old(ground)
                        &&& final(self).push_ticks == ticks
                        &&& final(self).push_block == Some(b)
                        &&& final(self).push_dir == dir
                    }
                }
            }),
    {
        if has_flag(flags, court.flag) {
            return None;
        }
        let (feet, dir) = match input {
            PushInput::Absent => return None,
            PushInput::Still => {
                self.push_ticks = 0;
                self.push_block = None;
                return None;
            },
            PushInput::Moving { feet, dir } => (feet, dir),
        };
        if dir.0 == 0 && dir.1 == 0 {
            self.push_ticks = 0;
            return None;
        }
        let bx: i64 = feet.0 as i64 + dir.0 as i64;
        let by: i64 = feet.1 as i64 + dir.1 as i64;
        if bx < 0 || by < 0 {
            self.push_ticks = 0;
            return None;
        }
        let b: (u32, u32) = (bx as u32, by as u32);
        let tile = ground.get(b.0, b.1);
        if tile != ids.block {
            self.push_ticks = 0;
            self.push_block = None;
            return None;
        }
        let same = match self.push_block {
            Some(pb) => pb.0 == b.0 && pb.1 == b.1 && self.push_dir.0 == dir.0 && self.push_dir.1 == dir.1,
            None => false,
        };
        if same {
            self.push_ticks = if self.push_ticks == u16::MAX { u16::MAX } else { self.push_ticks + 1 };
        } else {
            self.push_block = Some(b);
            self.push_dir = dir;
            self.push_ticks = 1;
        }
        if self.push_ticks < BLOCK_PUSH_TICKS {
            return None;
        }
        let nx: i64 = b.0 as i64 + dir.0 as i64;
        let ny: i64 = b.1 as i64 + dir.1 as i64;
        if nx < 0 || ny < 0 {
            return None;
        }
        let n: (u32, u32) = (nx as u32, ny as u32);
        if !block_can_land(ground, blocking, ids, n.0, n.1) {
            return None;
        }
        ground.set(b.0, b.1, court.floor_tile);
        ground.set(n.0, n.1, ids.block);
        self.push_ticks = 0;
        self.push_block = Some(n);
        Some(n)
    }
}


/// Chance that a broken barricade leaves a rupee, in percent.
pub const BARRICADE_RUPEE_PERCENT: u32 = 30;

/// A percent roll below `BARRICADE_RUPEE_PERCENT` drops a rupee.
pub open spec fn spec_barricade_rupee(roll: u32) -> bool {
    roll < BARRICADE_RUPEE_PERCENT
}

/// A percent roll below `BARRICADE_RUPEE_PERCENT` drops a rupee.
pub fn barricade_rupee(roll: u32) -> (drop: bool)
    ensures
        drop == spec_barricade_rupee(roll),
{
    roll < BARRICADE_RUPEE_PERCENT
}

/// Whether a broken barricade drops a rupee: a percent draw from `rng`
/// judged by `barricade_rupee` (which way it goes is chance).
pub fn rupee_chance(rng: &mut fastrand::Rng) -> (drop: bool)
    ensures
        exists|roll: u32| roll < 100 && drop == #[trigger] spec_barricade_rupee(roll),
{
    let roll = roll_percent(rng);
    barricade_rupee(roll)
}

/// The crank that lowers the bridge: turning it swaps tiles.
pub struct BridgeCrankDef {
    pub crank: (u32, u32),
    pub flag: u16,
    pub swaps: Vec<(u32, u32, u16)>,
}

/// The far switch in the ruins: turning it opens a gate.
pub struct FarSwitchDef {
    pub crank: (u32, u32),
    pub flag: u16,
    pub gate: Vec<(u32, u32)>,
    pub open_tile: u16,
}

/// A cracked wall that a bomb opens into a door.
pub struct BombWallDef {
    pub wall: (u32, u32),
    pub open_tile: u16,
    pub door_target: MapId,
    pub door_entry: u8,
    pub flag: u16,
}

/// The three chimes that, rung within a window, break the courage seal.
pub struct ChimeFinaleDef {
    pub chimes: [(u32, u32); 3],
    pub flag: u16,
    pub window_ticks: u32,
}

/// The puzzles of an overworld map.
pub struct OverworldPuzzles {
    pub chime_gates: Vec<ChimeGateDef>,
    pub chime_finale: ChimeFinaleDef,
    pub plate_court: PlateCourtDef,
    pub ruins_far_switch: FarSwitchDef,
    pub bridge_crank: BridgeCrankDef,
    pub barricades: Vec<BarricadeDef>,
    pub bomb_wall: BombWallDef,
}

/// The grid after each listed swap `(tx, ty, id)` paints its tile, in order.
pub open spec fn swap_seq(t: Seq<u16>, w: u32, h: u32, swaps: Seq<(u32, u32, u16)>) -> Seq<u16>
    decreases swaps.len(),
{
    if swaps.len() == 0 {
        t
    } else {
        let s = swaps.last();
        paint(swap_seq(t, w, h, swaps.drop_last()), w, h, s.0, s.1, s.2)
    }
}

/// Applies tile swaps in order.
pub fn apply_swaps(ground: &mut Ground, swaps: &Vec<(u32, u32, u16)>)
    requires
        old(ground).wf(),
    ensures
        final(ground).wf(),
        final(ground).width == old(ground).width && final(ground).height == old(ground).height,
        final(ground).tiles@ == swap_seq(old(ground).tiles@, old(ground).width, old(ground).height, swaps@),
{
    let mut i: usize = 0;
    while i < swaps.len()
        invariant
            i <= swaps.len(),
            ground.wf(),
            ground.width == old(ground).width && ground.height == old(ground).height,
            ground.tiles@ == swap_seq(old(ground).tiles@, old(ground).width, old(ground).height, swaps@.subrange(0, i as int)),
        decreases swaps.len() - i,
    {
        let (tx, ty, id) = swaps[i];
        ground.set(tx, ty, id);
        proof {
            assert(swaps@.subrange(0, i + 1).drop_last() =~= swaps@.subrange(0, i as int));
        }
        i = i + 1;
    }
    assert(swaps@.subrange(0, swaps@.len() as int) =~= swaps@);
}

impl PuzzleState {
    /// A swing struck a crank tile: it counts (true) when the crank's flag
    /// is unset and the swing had not struck that tile yet (the strike is
    /// then recorded).
    pub fn strike_crank(&mut self, flags: &Vec<u16>, flag: u16, swing_id: u32, crank: (u32, u32)) -> (turns: bool)
        ensures
            turns == (!flags@.contains(flag) && !old(self).hit_tiles@.contains((swing_id, crank.0, crank.1))),
            final(self).hit_tiles@ == if !flags@.contains(flag) && !old(self).hit_tiles@.contains((swing_id, crank.0, crank.1)) {
                old(self).hit_tiles@.push((swing_id, crank.0, crank.1))
            } else {
                old(self).hit_tiles@
            },
            final(self).barricade_hp@ == old(self).barricade_hp@,
            final(self).chime_rings == old(self).chime_rings,
            final(self).plate_down == old(self).plate_down,
            final(self).push_ticks == old(self).push_ticks,
            final(self).push_dir == old(self).push_dir,
            final(self).push_block == old(self).push_block,
    {
        if has_flag(flags, flag) {
            return false;
        }
        self.mark_tile_hit(swing_id, crank.0, crank.1)
    }
}

/// Turns the bridge crank: sets its flag and swaps its tiles (crank and
/// seal sounds, shake, toast, save).
pub fn turn_bridge_crank(flags: &mut Vec<u16>, ground: &mut Ground, def: &BridgeCrankDef)
    requires
        old(ground).wf(),
    ensures
        final(flags)@.contains(def.flag),
        final(flags)@ == if old(flags)@.contains(def.flag) { old(flags)@ } else { old(flags)@.push(def.flag) },
        final(ground).wf(),
        final(ground).width == old(ground).width && final(ground).height == old(ground).height,
        final(ground).tiles@ == swap_seq(old(ground).tiles@, old(ground).width, old(ground).height, def.swaps@),
{
    set_flag(flags, def.flag);
    apply_swaps(ground, &def.swaps);
}

/// Turns the far switch: sets its flag and opens its gate (crank sound,
/// toast, save).
pub fn turn_far_switch(flags: &mut Vec<u16>, ground: &mut Ground, def: &FarSwitchDef)
    requires
        old(ground).wf(),
    ensures
        final(flags)@.contains(def.flag),
        final(flags)@ == if old(flags)@.contains(def.flag) { old(flags)@ } else { old(flags)@.push(def.flag) },
        ground_painted_all(*final(ground), *old(ground), def.gate@, def.open_tile),
        final(ground).tiles@ == paint_seq(old(ground).tiles@, old(ground).width, old(ground).height, def.gate@, def.open_tile),
{
    set_flag(flags, def.flag);
    paint_cells(ground, &def.gate, def.open_tile);
}

/// Opens the bomb wall: its tile shows open and a door to its target
/// stands there (added once).
pub fn open_bomb_wall(ground: &mut Ground, triggers: &mut Vec<Trigger>, wall: &BombWallDef)
    requires
        old(ground).wf(),
    ensures
        final(ground).wf(),
        final(ground).width == old(ground).width && final(ground).height == old(ground).height,
        final(ground).tiles@ == paint(old(ground).tiles@, old(ground).width, old(ground).height, wall.wall.0, wall.wall.1, wall.open_tile),
        ({
            let door = Trigger { tx: wall.wall.0, ty: wall.wall.1, w: 1, h: 1,
                kind: TriggerKind::Door { target: wall.door_target, entry: wall.door_entry } };
            let present = exists|i: int| 0 <= i < old(triggers)@.len()
                && (#[trigger] old(triggers)@[i]).tx == wall.wall.0 && old(triggers)@[i].ty == wall.wall.1
                && old(triggers)@[i].kind == (TriggerKind::Door { target: wall.door_target, entry: wall.door_entry });
            &&& present ==> final(triggers)@ == old(triggers)@
            &&& !present ==> final(triggers)@ == old(triggers)@.push(door)
        }),
{
    ground.set(wall.wall.0, wall.wall.1, wall.open_tile);
    add_door_once(triggers, wall.wall.0, wall.wall.1, wall.door_target, wall.door_entry);
}

/// A bomb blast reached the cracked wall (`in_blast`): unless already
/// opened, and while the tile is still the cracked wall, the wall opens,
/// its flag and the grove secret's flag are set (secret sound, toast,
/// minimap mark, save). Returns whether it opened.
pub fn try_open_bomb_wall(flags: &mut Vec<u16>, ground: &mut Ground, triggers: &mut Vec<Trigger>, wall: &BombWallDef, secret_flag: u16, ids: PuzzleTiles, in_blast: bool) -> (opened: bool)
    requires
        old(ground).wf(),
    ensures
        opened == (!old(flags)@.contains(wall.flag) && in_blast
            && old(ground).at(wall.wall.0, wall.wall.1) == ids.cracked_wall),
        !opened ==> final(flags)@ == old(flags)@ && *final(ground) == *old(ground) && final(triggers)@ == old(triggers)@,
        opened ==> final(flags)@.contains(wall.flag) && final(flags)@.contains(secret_flag)
            && final(ground).tiles@ == paint(old(ground).tiles@, old(ground).width, old(ground).height, wall.wall.0, wall.wall.1, wall.open_tile),
        opened ==> forall|f: u16| old(flags)@.contains(f) ==> final(flags)@.contains(f),
        final(ground).wf(),
        final(ground).width == old(ground).width && final(ground).height == old(ground).height,
{
    if has_flag(flags, wall.flag) || !in_blast {
        return false;
    }
    if ground.get(wall.wall.0, wall.wall.1) != ids.cracked_wall {
        return false;
    }
    set_flag(flags, wall.flag);
    set_flag(flags, secret_flag);
    open_bomb_wall(ground, triggers, wall);
    true
}


/// Gates of the chime gates whose flag is unset, painted with `tile`.
pub open spec fn close_chime_gates(t: Seq<u16>, w: u32, h: u32, gates: Seq<ChimeGateDef>, flags: Seq<u16>, tile: u16) -> Seq<u16>
    decreases gates.len(),
{
    if gates.len() == 0 {
        t
    } else {
        let prev = close_chime_gates(t, w, h, gates.drop_last(), flags, tile);
        let g = gates.last();
        if !flags.contains(g.flag) { paint_seq(prev, w, h, g.gate@, tile) } else { prev }
    }
}

/// Gates of the chime gates whose flag is set, painted with their open tile.
pub open spec fn open_chime_gates(t: Seq<u16>, w: u32, h: u32, gates: Seq<ChimeGateDef>, flags: Seq<u16>) -> Seq<u16>
    decreases gates.len(),
{
    if gates.len() == 0 {
        t
    } else {
        let prev = open_chime_gates(t, w, h, gates.drop_last(), flags);
        let g = gates.last();
        if flags.contains(g.flag) { paint_seq(prev, w, h, g.gate@, g.open_tile) } else { prev }
    }
}

/// Every barricade tile painted with `tile`.
pub open spec fn paint_barricades(t: Seq<u16>, w: u32, h: u32, defs: Seq<BarricadeDef>, tile: u16) -> Seq<u16>
    decreases defs.len(),
{
    if defs.len() == 0 {
        t
    } else {
        paint_seq(paint_barricades(t, w, h, defs.drop_last(), tile), w, h, defs.last().tiles@, tile)
    }
}

fn paint_chime_gates(ground: &mut Ground, gates: &Vec<ChimeGateDef>, flags: &Vec<u16>, close_tile: u16, closing: bool)
    requires
        old(ground).wf(),
    ensures
        final(ground).wf(),
        final(ground).width == old(ground).width && final(ground).height == old(ground).height,
        final(ground).tiles@ == if closing {
            close_chime_gates(old(ground).tiles@, old(ground).width, old(ground).height, gates@, flags@, close_tile)
        } else {
            open_chime_gates(old(ground).tiles@, old(ground).width, old(ground).height, gates@, flags@)
        },
{
    let mut i: usize = 0;
    while i < gates.len()
        invariant
            i <= gates.len(),
            ground.wf(),
            ground.width == old(ground).width && ground.height == old(ground).height,
            ground.tiles@ == if closing {
                close_chime_gates(old(ground).tiles@, old(ground).width, old(ground).height, gates@.subrange(0, i as int), flags@, close_tile)
            } else {
                open_chime_gates(old(ground).tiles@, old(ground).width, old(ground).height, gates@.subrange(0, i as int), flags@)
            },
        decreases gates.len() - i,
    {
        let g = &gates[i];
        proof {
            assert(gates@.subrange(0, i + 1).drop_last() =~= gates@.subrange(0, i as int));
            assert(gates@.subrange(0, i + 1).last() == gates@[i as int]);
        }
        let set = has_flag(flags, g.flag);
        if closing && !set {
            paint_cells(ground, &g.gate, close_tile);
        } else if !closing && set {
            paint_cells(ground, &g.gate, g.open_tile);
        }
        i = i + 1;
    }
    assert(gates@.subrange(0, gates@.len() as int) =~= gates@);
}

fn paint_barricade_tiles(ground: &mut Ground, defs: &Vec<BarricadeDef>, tile: u16)
    requires
        old(ground).wf(),
    ensures
        final(ground).wf(),
        final(ground).width == old(ground).width && final(ground).height == old(ground).height,
        final(ground).tiles@ == paint_barricades(old(ground).tiles@, old(ground).width, old(ground).height, defs@, tile),
{
    let mut i: usize = 0;
    while i < defs.len()
        invariant
            i <= defs.len(),
            ground.wf(),
            ground.width == old(ground).width && ground.height == old(ground).height,
            ground.tiles@ == paint_barricades(old(ground).tiles@, old(ground).width, old(ground).height, defs@.subrange(0, i as int), tile),
        decreases defs.len() - i,
    {
        proof {
            assert(defs@.subrange(0, i + 1).drop_last() =~= defs@.subrange(0, i as int));
            assert(defs@.subrange(0, i + 1).last() == defs@[i as int]);
        }
        paint_cells(ground, &defs[i].tiles, tile);
        i = i + 1;
    }
    assert(defs@.subrange(0, defs@.len() as int) =~= defs@);
}

/// The ground of a freshly built map with every unsolved puzzle shown
/// closed: unflagged chime gates, the unsolved plate court (gate, raised
/// plates, blocks), the unturned far switch (gate, crank) and bridge crank,
/// and every barricade.
pub open spec fn spec_paint_closed(t0: Seq<u16>, w: u32, h: u32, def: OverworldPuzzles, flags: Seq<u16>, ids: PuzzleTiles) -> Seq<u16> {
    let t1 = close_chime_gates(t0, w, h, def.chime_gates@, flags, ids.gate);
    let pc = def.plate_court;
    let t2 = if !flags.contains(pc.flag) {
        let a = paint_seq(t1, w, h, pc.gate@, ids.gate);
        let b = paint(paint(a, w, h, pc.plates[0].0, pc.plates[0].1, ids.plate_up), w, h, pc.plates[1].0, pc.plates[1].1, ids.plate_up);
        paint_seq(b, w, h, pc.blocks@, ids.block)
    } else {
        t1
    };
    let fs = def.ruins_far_switch;
    let t3 = if !flags.contains(fs.flag) {
        paint(paint_seq(t2, w, h, fs.gate@, ids.gate), w, h, fs.crank.0, fs.crank.1, ids.crank)
    } else {
        t2
    };
    let bc = def.bridge_crank;
    let t4 = if !flags.contains(bc.flag) { paint(t3, w, h, bc.crank.0, bc.crank.1, ids.crank) } else { t3 };
    paint_barricades(t4, w, h, def.barricades@, ids.barricade)
}

/// Shows every unsolved puzzle of the map closed (see `spec_paint_closed`).
pub fn paint_closed(ground: &mut Ground, def: &OverworldPuzzles, flags: &Vec<u16>, ids: PuzzleTiles)
    requires
        old(ground).wf(),
    ensures
        final(ground).wf(),
        final(ground).width == old(ground).width && final(ground).height == old(ground).height,
        final(ground).tiles@ == spec_paint_closed(old(ground).tiles@, old(ground).width, old(ground).height, *def, flags@, ids),
{
    paint_chime_gates(ground, &def.chime_gates, flags, ids.gate, true);
    let pc = &def.plate_court;
    if !has_flag(flags, pc.flag) {
        paint_cells(ground, &pc.gate, ids.gate);
        ground.set(pc.plates[0].0, pc.plates[0].1, ids.plate_up);
        ground.set(pc.plates[1].0, pc.plates[1].1, ids.plate_up);
        paint_cells(ground, &pc.blocks, ids.block);
    }
    let fs = &def.ruins_far_switch;
    if !has_flag(flags, fs.flag) {
        paint_cells(ground, &fs.gate, ids.gate);
        ground.set(fs.crank.0, fs.crank.1, ids.crank);
    }
    let bc = &def.bridge_crank;
    if !has_flag(flags, bc.flag) {
        ground.set(bc.crank.0, bc.crank.1, ids.crank);
    }
    paint_barricade_tiles(ground, &def.barricades, ids.barricade);
}

/// The ground of a map re-entered with saved flags: flagged chime gates
/// open, a solved plate court's gate open with its plates down, a turned
/// bridge crank's swaps, an opened bomb wall, an opened far-switch gate.
pub open spec fn spec_restore(t0: Seq<u16>, w: u32, h: u32, def: OverworldPuzzles, flags: Seq<u16>, ids: PuzzleTiles) -> Seq<u16> {
    let t1 = open_chime_gates(t0, w, h, def.chime_gates@, flags);
    let pc = def.plate_court;
    let t2 = if flags.contains(pc.flag) {
        let a = paint_seq(t1, w, h, pc.gate@, pc.open_tile);
        paint(paint(a, w, h, pc.plates[0].0, pc.plates[0].1, ids.plate_down), w, h, pc.plates[1].0, pc.plates[1].1, ids.plate_down)
    } else {
        t1
    };
    let bc = def.bridge_crank;
    let t3 = if flags.contains(bc.flag) { swap_seq(t2, w, h, bc.swaps@) } else { t2 };
    let bw = def.bomb_wall;
    let t4 = if flags.contains(bw.flag) { paint(t3, w, h, bw.wall.0, bw.wall.1, bw.open_tile) } else { t3 };
    let fs = def.ruins_far_switch;
    if flags.contains(fs.flag) { paint_seq(t4, w, h, fs.gate@, fs.open_tile) } else { t4 }
}

/// Reapplies solved puzzles from the saved flags (see `spec_restore`); an
/// opened bomb wall also gets its door back.
pub fn restore(ground: &mut Ground, triggers: &mut Vec<Trigger>, def: &OverworldPuzzles, flags: &Vec<u16>, ids: PuzzleTiles)
    requires
        old(ground).wf(),
    ensures
        final(ground).wf(),
        final(ground).width == old(ground).width && final(ground).height == old(ground).height,
        final(ground).tiles@ == spec_restore(old(ground).tiles@, old(ground).width, old(ground).height, *def, flags@, ids),
        !flags@.contains(def.bomb_wall.flag) ==> final(triggers)@ == old(triggers)@,
{
    paint_chime_gates(ground, &def.chime_gates, flags, ids.gate, false);
    let pc = &def.plate_court;
    if has_flag(flags, pc.flag) {
        paint_cells(ground, &pc.gate, pc.open_tile);
        ground.set(pc.plates[0].0, pc.plates[0].1, ids.plate_down);
        ground.set(pc.plates[1].0, pc.plates[1].1, ids.plate_down);
    }
    let bc = &def.bridge_crank;
    if has_flag(flags, bc.flag) {
        apply_swaps(ground, &bc.swaps);
    }
    if has_flag(flags, def.bomb_wall.flag) {
        open_bomb_wall(ground, triggers, &def.bomb_wall);
    }
    let fs = &def.ruins_far_switch;
    if has_flag(flags, fs.flag) {
        paint_cells(ground, &fs.gate, fs.open_tile);
    }
}

} // verus!
