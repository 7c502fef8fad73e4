//! Damage pipeline. Player hitboxes strike the bodies on the enemy-body
//! layer that they overlap (box or ring), once per swing and target, and
//! each strike becomes a hit event; hostile shots touching the player
//! become one player-damage event each, and a player's shot strikes once
//! and vanishes. Then the hits on enemies, the hits on the player (shield,
//! perfect block), training dummies and hurt timers.

use vstd::prelude::*;
use crate::cue::{Cue, Sfx};
use crate::energy::refund;
use crate::entity::{AnimState, AttackKind, EntityId, EntityKind, Health};
use crate::events::WorldEvent;
use crate::frame::{overlap, spec_overlap, Aabb};
use crate::math::{spec_dir_step, Dir4};
use crate::player::PlayerData;
use crate::style::{on_player_damaged, spec_min, spec_rank_change_cues, spec_rank_floor, StyleVerb};
use crate::tuning::{
    BLOCK_ENERGY, DUMMY_HP, DUMMY_RESPAWN, ENEMY_IFRAMES, ENERGY_MAX, FLASH_TICKS, HITSTOP_HEAVY,
    HITSTOP_NORMAL, PERFECT_BLOCK_REFUND, PERFECT_BLOCK_WINDOW, PLAYER_IFRAMES,
};

verus! {

/// Which targets each swing has already hit: `(swing_id, target_index)`.
pub struct HitLedger {
    pub hits: Vec<(u32, u32)>,
}

impl HitLedger {
    pub fn new() -> (r: Self)
        ensures
            r.hits@.len() == 0,
    {
        HitLedger { hits: Vec::new() }
    }

    pub fn already_hit(&self, swing_id: u32, target: u32) -> (r: bool)
        ensures
            r == self.hits@.contains((swing_id, target)),
    {
        let mut i: usize = 0;
        while i < self.hits.len()
            invariant
                i <= self.hits.len(),
                forall|j: int| 0 <= j < i ==> self.hits@[j] != (swing_id, target),
            decreases self.hits.len() - i,
        {
            let (s, t) = self.hits[i];
            if s == swing_id && t == target {
                return true;
            }
            i = i + 1;
        }
        false
    }

    pub fn mark_hit(&mut self, swing_id: u32, target: u32)
        ensures
            final(self).hits@ == old(self).hits@.push((swing_id, target)),
    {
        self.hits.push((swing_id, target));
    }

    /// Forget a swing's hits (its id is about to be reused for a new swing).
    pub fn clear_swing_hits(&mut self, swing_id: u32)
        ensures
            final(self).hits@ == old(self).hits@.filter(|h: (u32, u32)| h.0 != swing_id),
    {
        let mut out: Vec<(u32, u32)> = Vec::new();
        let mut i: usize = 0;
        while i < self.hits.len()
            invariant
                i <= self.hits.len(),
                self.hits@ == old(self).hits@,
                out@ == self.hits@.subrange(0, i as int).filter(|h: (u32, u32)| h.0 != swing_id),
            decreases self.hits.len() - i,
        {
            let h = self.hits[i];
            proof {
                let s = self.hits@.subrange(0, i + 1);
                assert(s.drop_last() =~= self.hits@.subrange(0, i as int));
                reveal_with_fuel(Seq::filter, 1);
            }
            if h.0 != swing_id {
                out.push(h);
            }
            i = i + 1;
        }
        assert(self.hits@.subrange(0, self.hits@.len() as int) =~= self.hits@);
        self.hits = out;
    }
}

/// Targets of `candidates` that the swing has not hit yet, in order and each
/// once.
pub open spec fn spec_new_hits(hits: Seq<(u32, u32)>, swing_id: u32, candidates: Seq<u32>) -> Seq<u32>
    decreases candidates.len(),
{
    if candidates.len() == 0 {
        seq![]
    } else {
        let prev = spec_new_hits(hits, swing_id, candidates.drop_last());
        let t = candidates.last();
        if hits.contains((swing_id, t)) || prev.contains(t) { prev } else { prev.push(t) }
    }
}

/// A swing hits each target once: after a pass has recorded its hits, a
/// second pass of the same swing over any candidates already struck (or
/// the same candidates) hits nothing.
pub proof fn lemma_swing_hits_once(hits: Seq<(u32, u32)>, swing_id: u32, candidates: Seq<u32>)
    ensures
        spec_new_hits(hits + spec_new_hits(hits, swing_id, candidates).map_values(|t: u32| (swing_id, t)),
            swing_id, candidates).len() == 0,
{
    let first = spec_new_hits(hits, swing_id, candidates);
    let after = hits + first.map_values(|t: u32| (swing_id, t));
    lemma_new_hits_covered(hits, swing_id, candidates);
    assert forall|t: u32| candidates.contains(t) implies after.contains((swing_id, t)) by {
        if hits.contains((swing_id, t)) {
            let i = choose|i: int| 0 <= i < hits.len() && hits[i] == (swing_id, t);
            assert(after[i] == (swing_id, t));
        } else {
            assert(first.contains(t));
            let m = choose|m: int| 0 <= m < first.len() && first[m] == t;
            assert(after[hits.len() + m] == (swing_id, t));
        }
    }
    lemma_no_new_hits(after, swing_id, candidates);
}

/// Every candidate is either already recorded for the swing or among the
/// new hits.
proof fn lemma_new_hits_covered(hits: Seq<(u32, u32)>, swing_id: u32, candidates: Seq<u32>)
    ensures
        forall|t: u32| candidates.contains(t) ==> hits.contains((swing_id, t))
            || spec_new_hits(hits, swing_id, candidates).contains(t),
    decreases candidates.len(),
{
    if candidates.len() > 0 {
        let prefix = candidates.drop_last();
        lemma_new_hits_covered(hits, swing_id, prefix);
        let prev = spec_new_hits(hits, swing_id, prefix);
        let last = candidates.last();
        let cur = spec_new_hits(hits, swing_id, candidates);
        let added = !(hits.contains((swing_id, last)) || prev.contains(last));
        assert(cur == if added { prev.push(last) } else { prev });
        assert forall|t: u32| prev.contains(t) implies cur.contains(t) by {
            let m = choose|m: int| 0 <= m < prev.len() && prev[m] == t;
            assert(cur[m] == t);
        }
        if added {
            assert(cur[prev.len() as int] == last);
        }
        assert forall|t: u32| candidates.contains(t) implies hits.contains((swing_id, t)) || cur.contains(t) by {
            let i = choose|i: int| 0 <= i < candidates.len() && candidates[i] == t;
            if i < candidates.len() - 1 {
                assert(prefix[i] == t);
                assert(prefix.contains(t));
            } else {
                assert(t == last);
            }
        }
    }
}

/// Candidates all recorded for the swing yield no new hits.
proof fn lemma_no_new_hits(hits: Seq<(u32, u32)>, swing_id: u32, candidates: Seq<u32>)
    requires
        forall|t: u32| candidates.contains(t) ==> hits.contains((swing_id, t)),
    ensures
        spec_new_hits(hits, swing_id, candidates).len() == 0,
    decreases candidates.len(),
{
    if candidates.len() > 0 {
        let prefix = candidates.drop_last();
        assert forall|t: u32| prefix.contains(t) implies hits.contains((swing_id, t)) by {
            let i = choose|i: int| 0 <= i < prefix.len() && prefix[i] == t;
            assert(candidates[i] == t);
            assert(candidates.contains(t));
        }
        lemma_no_new_hits(hits, swing_id, prefix);
        assert(candidates[candidates.len() - 1] == candidates.last());
        assert(candidates.contains(candidates.last()));
        assert(hits.contains((swing_id, candidates.last())));
    }
}

/// One swing over a list of overlapped targets (`candidates`, target
/// indices): each is hit once per swing. Returns the targets hit now and
/// records them.
pub fn strike_candidates(ledger: &mut HitLedger, swing_id: u32, candidates: &Vec<u32>) -> (hit: Vec<u32>)
    ensures
        hit@ == spec_new_hits(old(ledger).hits@, swing_id, candidates@),
        final(ledger).hits@ == old(ledger).hits@ + hit@.map_values(|t: u32| (swing_id, t)),
        forall|t: u32| hit@.contains(t) ==> !old(ledger).hits@.contains((swing_id, t)),
        forall|t: u32| #[trigger] hit@.contains(t) ==> final(ledger).hits@.contains((swing_id, t)),
{
    let mut hit: Vec<u32> = Vec::new();
    let mut i: usize = 0;
    while i < candidates.len()
        invariant
            i <= candidates.len(),
            hit@ == spec_new_hits(old(ledger).hits@, swing_id, candidates@.subrange(0, i as int)),
            ledger.hits@ == old(ledger).hits@ + hit@.map_values(|t: u32| (swing_id, t)),
            forall|t: u32| hit@.contains(t) ==> !old(ledger).hits@.contains((swing_id, t)),
        decreases candidates.len() - i,
    {
        let t = candidates[i];
        proof {
            assert(candidates@.subrange(0, i + 1).drop_last() =~= candidates@.subrange(0, i as int));
        }
        let seen = ledger.already_hit(swing_id, t);
        proof {
            // Hits of this swing in the ledger are the old ones plus `hit`.
            if !old(ledger).hits@.contains((swing_id, t)) && !hit@.contains(t) {
                if ledger.hits@.contains((swing_id, t)) {
                    let k = choose|k: int| 0 <= k < ledger.hits@.len() && ledger.hits@[k] == (swing_id, t);
                    if k < old(ledger).hits@.len() {
                        assert(old(ledger).hits@[k] == (swing_id, t));
                    } else {
                        let m = k - old(ledger).hits@.len();
                        assert(hit@[m] == t);
                    }
                }
            }
            if hit@.contains(t) {
                let m = choose|m: int| 0 <= m < hit@.len() && hit@[m] == t;
                assert(ledger.hits@[old(ledger).hits@.len() + m] == (swing_id, t));
            }
            if old(ledger).hits@.contains((swing_id, t)) {
                let k = choose|k: int| 0 <= k < old(ledger).hits@.len() && old(ledger).hits@[k] == (swing_id, t);
                assert(ledger.hits@[k] == (swing_id, t));
            }
        }
        if !seen {
            let ghost prev = hit@;
            assert(!old(ledger).hits@.contains((swing_id, t)));
            ledger.mark_hit(swing_id, t);
            hit.push(t);
            proof {
                assert forall|x: u32| hit@.contains(x) implies !old(ledger).hits@.contains((swing_id, x)) by {
                    let m = choose|m: int| 0 <= m < hit@.len() && hit@[m] == x;
                    if m < prev.len() {
                        assert(prev[m] == x);
                        assert(prev.contains(x));
                    } else {
                        assert(x == t);
                    }
                }
                assert(ledger.hits@ =~= old(ledger).hits@ + hit@.map_values(|x: u32| (swing_id, x)));
            }
        }
        i = i + 1;
    }
    proof {
        assert(candidates@.subrange(0, candidates@.len() as int) =~= candidates@);
        assert forall|t: u32| #[trigger] hit@.contains(t) implies ledger.hits@.contains((swing_id, t)) by {
            let m = choose|m: int| 0 <= m < hit@.len() && hit@[m] == t;
            assert(ledger.hits@[old(ledger).hits@.len() + m] == (swing_id, t));
        }
    }
    hit
}


/// A player hitbox registered for this tick. `P` is the front end's
/// payload of the hit (direction, position, knockback).
#[derive(Clone, Copy, Debug)]
pub struct ActiveAttack<P> {
    pub owner: EntityId,
    pub kind: AttackKind,
    pub swing_id: u32,
    /// The box; its centre is the attack's centre.
    pub area: Aabb,
    /// A ring of `radius` around the centre rather than the box.
    pub use_radius: bool,
    pub radius: i32,
    pub damage_floor: i32,
    pub payload: P,
}

/// The body of a live entity, as hit resolution sees it: whether it is on
/// the enemy-body layer, and its box.
#[derive(Clone, Copy, Debug)]
pub struct HitBody {
    pub id: EntityId,
    pub enemy_body: bool,
    pub area: Aabb,
}

/// Distance from `c` to the span `[lo, hi]` (0 inside it).
pub open spec fn gap(c: int, lo: int, hi: int) -> int {
    if c < lo { lo - c } else if c > hi { c - hi } else { 0 }
}

/// The circle of radius `r` around `(cx, cy)` reaches the box: its
/// nearest point of the box lies within `r`.
pub open spec fn spec_circle_hits(cx: int, cy: int, r: int, b: Aabb) -> bool {
    let dx = gap(cx, b.cx - b.hx, b.cx + b.hx);
    let dy = gap(cy, b.cy - b.hy, b.cy + b.hy);
    dx * dx + dy * dy <= r * r
}

/// An attack reaches a body: the body is on the enemy-body layer and the
/// attack's ring (or box) overlaps it.
pub open spec fn touches<P>(atk: ActiveAttack<P>, b: HitBody) -> bool {
    &&& b.enemy_body
    &&& if atk.use_radius {
        spec_circle_hits(atk.area.cx as int, atk.area.cy as int, atk.radius as int, b.area)
    } else {
        spec_overlap(atk.area, b.area)
    }
}

/// The hit event an attack makes on a target: its kind, damage, owner and
/// payload go with it.
pub open spec fn hit_event<P>(atk: ActiveAttack<P>, target: EntityId) -> WorldEvent<P> {
    WorldEvent::AttackHit {
        target,
        attack: atk.kind,
        damage_floor: atk.damage_floor,
        source: atk.owner,
        payload: atk.payload,
    }
}

/// One attack over the bodies, in order: each body it reaches that its
/// swing has not hit yet (by target index) is hit and recorded. Returns the
/// ledger after and the targets hit.
pub open spec fn spec_strike<P>(hits: Seq<(u32, u32)>, atk: ActiveAttack<P>, bodies: Seq<HitBody>) -> (Seq<(u32, u32)>, Seq<EntityId>)
    decreases bodies.len(),
{
    if bodies.len() == 0 {
        (hits, seq![])
    } else {
        let (h, ids) = spec_strike(hits, atk, bodies.drop_last());
        let b = bodies.last();
        if touches(atk, b) && !h.contains((atk.swing_id, b.id.index)) {
            (h.push((atk.swing_id, b.id.index)), ids.push(b.id))
        } else {
            (h, ids)
        }
    }
}

/// All of the tick's attacks in order: the ledger after and the hit events.
pub open spec fn spec_resolve<P>(hits: Seq<(u32, u32)>, atks: Seq<ActiveAttack<P>>, bodies: Seq<HitBody>) -> (Seq<(u32, u32)>, Seq<WorldEvent<P>>)
    decreases atks.len(),
{
    if atks.len() == 0 {
        (hits, seq![])
    } else {
        let (h, evs) = spec_resolve(hits, atks.drop_last(), bodies);
        let atk = atks.last();
        let (h2, ids) = spec_strike(h, atk, bodies);
        (h2, evs + ids.map_values(|id: EntityId| hit_event(atk, id)))
    }
}

/// Striking only adds to the ledger, and afterwards every body the attack
/// reaches is recorded for its swing.
proof fn lemma_strike_records<P>(hits: Seq<(u32, u32)>, atk: ActiveAttack<P>, bodies: Seq<HitBody>)
    ensures
        forall|k: (u32, u32)| hits.contains(k) ==> spec_strike(hits, atk, bodies).0.contains(k),
        forall|i: int| 0 <= i < bodies.len() && touches(atk, #[trigger] bodies[i])
            ==> spec_strike(hits, atk, bodies).0.contains((atk.swing_id, bodies[i].id.index)),
    decreases bodies.len(),
{
    if bodies.len() > 0 {
        let prefix = bodies.drop_last();
        lemma_strike_records(hits, atk, prefix);
        let h = spec_strike(hits, atk, prefix).0;
        let b = bodies.last();
        let key = (atk.swing_id, b.id.index);
        let h2 = spec_strike(hits, atk, bodies).0;
        assert forall|k: (u32, u32)| h.contains(k) implies h2.contains(k) by {
            if touches(atk, b) && !h.contains(key) {
                let m = choose|m: int| 0 <= m < h.len() && h[m] == k;
                assert(h2[m] == k);
            }
        }
        if touches(atk, b) && !h.contains(key) {
            assert(h2[h.len() as int] == key);
        }
        assert forall|i: int| 0 <= i < bodies.len() && touches(atk, #[trigger] bodies[i])
            implies h2.contains((atk.swing_id, bodies[i].id.index)) by {
            if i < bodies.len() - 1 {
                assert(prefix[i] == bodies[i]);
            }
        }
    }
}

/// Bodies already all recorded for the swing yield no strike.
proof fn lemma_strike_nothing_new<P>(hits: Seq<(u32, u32)>, atk: ActiveAttack<P>, bodies: Seq<HitBody>)
    requires
        forall|i: int| 0 <= i < bodies.len() && touches(atk, #[trigger] bodies[i])
            ==> hits.contains((atk.swing_id, bodies[i].id.index)),
    ensures
        spec_strike(hits, atk, bodies) == (hits, Seq::<EntityId>::empty()),
    decreases bodies.len(),
{
    if bodies.len() > 0 {
        let prefix = bodies.drop_last();
        assert forall|i: int| 0 <= i < prefix.len() && touches(atk, #[trigger] prefix[i])
            implies hits.contains((atk.swing_id, prefix[i].id.index)) by {
            assert(prefix[i] == bodies[i]);
        }
        lemma_strike_nothing_new(hits, atk, prefix);
        assert(bodies[bodies.len() - 1] == bodies.last());
    }
}

/// An attack hits each body once: striking the same bodies again with the
/// same swing, after the first strike was recorded, hits nothing and
/// leaves the ledger as it was.
pub proof fn lemma_attack_hits_once<P>(hits: Seq<(u32, u32)>, atk: ActiveAttack<P>, bodies: Seq<HitBody>)
    ensures
        ({
            let after = spec_strike(hits, atk, bodies).0;
            spec_strike(after, atk, bodies) == (after, Seq::<EntityId>::empty())
        }),
{
    lemma_strike_records(hits, atk, bodies);
    lemma_strike_nothing_new(spec_strike(hits, atk, bodies).0, atk, bodies);
}

/// A strike appends one fresh ledger entry per target hit: none of them
/// was recorded before, and no target is hit twice.
proof fn lemma_strike_shape<P>(hits: Seq<(u32, u32)>, atk: ActiveAttack<P>, bodies: Seq<HitBody>)
    ensures
        ({
            let (h2, ids) = spec_strike(hits, atk, bodies);
            &&& h2 == hits + ids.map_values(|id: EntityId| (atk.swing_id, id.index))
            &&& forall|i: int| 0 <= i < ids.len() ==> !hits.contains((atk.swing_id, #[trigger] ids[i].index))
            &&& forall|i: int, j: int| 0 <= i < j < ids.len() ==> ids[i].index != ids[j].index
        }),
    decreases bodies.len(),
{
    if bodies.len() > 0 {
        let prefix = bodies.drop_last();
        lemma_strike_shape(hits, atk, prefix);
        let (hp, idsp) = spec_strike(hits, atk, prefix);
        let b = bodies.last();
        let key = (atk.swing_id, b.id.index);
        if touches(atk, b) && !hp.contains(key) {
            let ids = idsp.push(b.id);
            assert(ids.map_values(|id: EntityId| (atk.swing_id, id.index))
                =~= idsp.map_values(|id: EntityId| (atk.swing_id, id.index)).push(key));
            assert(hits + ids.map_values(|id: EntityId| (atk.swing_id, id.index)) =~= hp.push(key));
            assert forall|i: int| 0 <= i < ids.len() implies !hits.contains((atk.swing_id, #[trigger] ids[i].index)) by {
                if i == idsp.len() {
                    if hits.contains(key) {
                        let m = choose|m: int| 0 <= m < hits.len() && hits[m] == key;
                        assert(hp[m] == key);
                    }
                }
            }
            assert forall|i: int, j: int| 0 <= i < j < ids.len() implies ids[i].index != ids[j].index by {
                if j == idsp.len() {
                    let k2 = hits.len() + i;
                    assert(hp[k2] == (atk.swing_id, idsp[i].index));
                    if idsp[i].index == b.id.index {
                        assert(hp.contains(key));
                    }
                }
            }
        }
    }
}

/// The shape of a whole resolution: the ledger keeps its old entries and
/// gains one per hit event, in order (the event's target index with the
/// attack's swing), each new and none twice; and every body any attack
/// reaches ends up recorded for that attack's swing.
proof fn lemma_resolve_shape<P>(hits: Seq<(u32, u32)>, atks: Seq<ActiveAttack<P>>, bodies: Seq<HitBody>)
    ensures
        ({
            let (h2, evs) = spec_resolve(hits, atks, bodies);
            &&& h2.len() == hits.len() + evs.len()
            &&& h2.subrange(0, hits.len() as int) == hits
            &&& forall|i: int| 0 <= i < evs.len() ==> (#[trigger] evs[i] matches WorldEvent::AttackHit { target, .. }
                && h2[hits.len() + i].1 == target.index)
            &&& forall|i: int, j: int| hits.len() <= i < j < h2.len() ==> h2[i] != h2[j]
            &&& forall|i: int| hits.len() <= i < h2.len() ==> !hits.contains(#[trigger] h2[i])
            &&& forall|a: int, b: int| 0 <= a < atks.len() && 0 <= b < bodies.len() && touches(#[trigger] atks[a], #[trigger] bodies[b])
                ==> h2.contains((atks[a].swing_id, bodies[b].id.index))
        }),
    decreases atks.len(),
{
    if atks.len() == 0 {
        assert(hits.subrange(0, hits.len() as int) =~= hits);
    } else {
        let pre = atks.drop_last();
        lemma_resolve_shape(hits, pre, bodies);
        let (hp, evp) = spec_resolve(hits, pre, bodies);
        let atk = atks.last();
        lemma_strike_shape(hp, atk, bodies);
        lemma_strike_records(hp, atk, bodies);
        let (h2, ids) = spec_strike(hp, atk, bodies);
        let evs = evp + ids.map_values(|id: EntityId| hit_event(atk, id));
        let add = ids.map_values(|id: EntityId| (atk.swing_id, id.index));
        assert(h2 == hp + add);
        assert(h2.subrange(0, hits.len() as int) =~= hits) by {
            assert(hp.subrange(0, hits.len() as int) =~= hits);
        }
        assert forall|i: int| 0 <= i < evs.len() implies (#[trigger] evs[i] matches WorldEvent::AttackHit { target, .. }
            && h2[hits.len() + i].1 == target.index) by {
            if i < evp.len() {
                assert(evs[i] == evp[i]);
                assert(h2[hits.len() + i] == hp[hits.len() + i]);
            } else {
                let k = i - evp.len();
                assert(evs[i] == hit_event(atk, ids[k]));
                assert(h2[hits.len() + i] == add[k]);
            }
        }
        assert forall|i: int| hits.len() <= i < h2.len() implies !hits.contains(#[trigger] h2[i]) by {
            if i >= hp.len() {
                let k = i - hp.len();
                assert(h2[i] == (atk.swing_id, ids[k].index));
                if hits.contains(h2[i]) {
                    let m = choose|m: int| 0 <= m < hits.len() && hits[m] == h2[i];
                    assert(hp[m] == hits[m]);
                    assert(hp.contains(h2[i]));
                }
            } else {
                assert(h2[i] == hp[i]);
            }
        }
        assert forall|i: int, j: int| hits.len() <= i < j < h2.len() implies h2[i] != h2[j] by {
            if j >= hp.len() {
                let kj = j - hp.len();
                assert(h2[j] == (atk.swing_id, ids[kj].index));
                if i >= hp.len() {
                    let ki = i - hp.len();
                    assert(h2[i] == (atk.swing_id, ids[ki].index));
                } else {
                    assert(h2[i] == hp[i]);
                    if h2[i] == h2[j] {
                        assert(hp.contains(h2[j]));
                    }
                }
            } else {
                assert(h2[i] == hp[i] && h2[j] == hp[j]);
            }
        }
        assert forall|a: int, b: int| 0 <= a < atks.len() && 0 <= b < bodies.len() && touches(#[trigger] atks[a], #[trigger] bodies[b])
            implies h2.contains((atks[a].swing_id, bodies[b].id.index)) by {
            if a < pre.len() {
                assert(pre[a] == atks[a]);
                let key = (atks[a].swing_id, bodies[b].id.index);
                assert(hp.contains(key));
                let m = choose|m: int| 0 <= m < hp.len() && hp[m] == key;
                assert(h2[m] == key);
            } else {
                assert(atks[a] == atk);
            }
        }
    }
}

/// Attacks whose reached bodies are all recorded for their swings change
/// nothing and hit nothing.
proof fn lemma_resolve_nothing_new<P>(hits: Seq<(u32, u32)>, atks: Seq<ActiveAttack<P>>, bodies: Seq<HitBody>)
    requires
        forall|a: int, b: int| 0 <= a < atks.len() && 0 <= b < bodies.len() && touches(#[trigger] atks[a], #[trigger] bodies[b])
            ==> hits.contains((atks[a].swing_id, bodies[b].id.index)),
    ensures
        spec_resolve(hits, atks, bodies) == (hits, Seq::<WorldEvent<P>>::empty()),
    decreases atks.len(),
{
    if atks.len() > 0 {
        let pre = atks.drop_last();
        assert forall|a: int, b: int| 0 <= a < pre.len() && 0 <= b < bodies.len() && touches(#[trigger] pre[a], #[trigger] bodies[b])
            implies hits.contains((pre[a].swing_id, bodies[b].id.index)) by {
            assert(pre[a] == atks[a]);
        }
        lemma_resolve_nothing_new(hits, pre, bodies);
        let atk = atks.last();
        assert forall|i: int| 0 <= i < bodies.len() && touches(atk, #[trigger] bodies[i])
            implies hits.contains((atk.swing_id, bodies[i].id.index)) by {
            assert(atks[atks.len() - 1] == atk);
        }
        lemma_strike_nothing_new(hits, atk, bodies);
        assert(Seq::<WorldEvent<P>>::empty() + Seq::<EntityId>::empty().map_values(|id: EntityId| hit_event(atk, id))
            =~= Seq::<WorldEvent<P>>::empty());
    }
}

/// A swing hits each target once, over a whole resolution and across
/// resolutions: the ledger keeps what it held and gains one new entry
/// `(swing, target index)` per hit event, in event order, none recorded
/// before and none twice; and resolving the same attacks over the same
/// bodies again (until a swing's hits are cleared) hits nothing more.
pub proof fn lemma_resolve_hits_once<P>(hits: Seq<(u32, u32)>, atks: Seq<ActiveAttack<P>>, bodies: Seq<HitBody>)
    ensures
        ({
            let (h2, evs) = spec_resolve(hits, atks, bodies);
            &&& h2.len() == hits.len() + evs.len()
            &&& h2.subrange(0, hits.len() as int) == hits
            &&& forall|i: int| 0 <= i < evs.len() ==> (#[trigger] evs[i] matches WorldEvent::AttackHit { target, .. }
                && h2[hits.len() + i].1 == target.index)
            &&& forall|i: int, j: int| hits.len() <= i < j < h2.len() ==> h2[i] != h2[j]
            &&& forall|i: int| hits.len() <= i < h2.len() ==> !hits.contains(#[trigger] h2[i])
            &&& spec_resolve(h2, atks, bodies) == (h2, Seq::<WorldEvent<P>>::empty())
        }),
{
    lemma_resolve_shape(hits, atks, bodies);
    lemma_resolve_nothing_new(spec_resolve(hits, atks, bodies).0, atks, bodies);
}

/// The point `(x, y)` lies in the box (edges included).
pub open spec fn point_in_box(b: Aabb, x: int, y: int) -> bool {
    b.cx - b.hx <= x <= b.cx + b.hx && b.cy - b.hy <= y <= b.cy + b.hy
}

/// Squared distance between two points.
pub open spec fn dist2(x0: int, y0: int, x1: int, y1: int) -> int {
    (x1 - x0) * (x1 - x0) + (y1 - y0) * (y1 - y0)
}

proof fn lemma_square_le(a: int, b: int)
    requires
        0 <= a,
        a <= b || a <= -b,
    ensures
        a * a <= b * b,
{
    if a <= b {
        assert(a * a <= b * b) by (nonlinear_arith)
            requires 0 <= a, a <= b;
    } else {
        assert(a * a <= b * b) by (nonlinear_arith)
            requires 0 <= a, a <= -b;
    }
}

/// A ring reaches a body exactly when some point of the body's box lies
/// within the radius of the ring's centre (Euclidean distance): a body
/// whose nearest point is `(17, 17)` away is out of reach of radius 20.
pub proof fn lemma_ring_reach<P>(atk: ActiveAttack<P>, b: HitBody)
    requires
        atk.use_radius,
        b.area.hx >= 0,
        b.area.hy >= 0,
    ensures
        touches(atk, b) <==> b.enemy_body && exists|x: int, y: int| #[trigger] point_in_box(b.area, x, y)
            && dist2(atk.area.cx as int, atk.area.cy as int, x, y) <= atk.radius * atk.radius,
{
    let cx = atk.area.cx as int;
    let cy = atk.area.cy as int;
    let r = atk.radius as int;
    let lox = b.area.cx - b.area.hx;
    let hix = b.area.cx + b.area.hx;
    let loy = b.area.cy - b.area.hy;
    let hiy = b.area.cy + b.area.hy;
    let gx = gap(cx, lox, hix);
    let gy = gap(cy, loy, hiy);
    // The nearest point of the box realises the gap.
    let nx = if cx < lox { lox } else if cx > hix { hix } else { cx };
    let ny = if cy < loy { loy } else if cy > hiy { hiy } else { cy };
    assert(point_in_box(b.area, nx, ny));
    lemma_square_le(gx, nx - cx);
    lemma_square_le(gy, ny - cy);
    lemma_square_le(if nx - cx >= 0 { nx - cx } else { cx - nx }, gx);
    lemma_square_le(if ny - cy >= 0 { ny - cy } else { cy - ny }, gy);
    assert((nx - cx) * (nx - cx) == (cx - nx) * (cx - nx)) by (nonlinear_arith);
    assert((ny - cy) * (ny - cy) == (cy - ny) * (cy - ny)) by (nonlinear_arith);
    assert(dist2(cx, cy, nx, ny) == gx * gx + gy * gy);
    // Every point of the box is at least the gap away on each axis.
    assert forall|x: int, y: int| #[trigger] point_in_box(b.area, x, y) implies dist2(cx, cy, x, y) >= gx * gx + gy * gy by {
        lemma_square_le(gx, x - cx);
        lemma_square_le(gy, y - cy);
    }
}

/// Whether an attack reaches a body (`touches`).
pub fn attack_touches<P: Copy>(atk: &ActiveAttack<P>, b: &HitBody) -> (r: bool)
    ensures
        r == touches(*atk, *b),
{
    if !b.enemy_body {
        return false;
    }
    if atk.use_radius {
        let cx = atk.area.cx as i128;
        let cy = atk.area.cy as i128;
        let lox = b.area.cx as i128 - b.area.hx as i128;
        let hix = b.area.cx as i128 + b.area.hx as i128;
        let loy = b.area.cy as i128 - b.area.hy as i128;
        let hiy = b.area.cy as i128 + b.area.hy as i128;
        let dx: i128 = if cx < lox { lox - cx } else if cx > hix { cx - hix } else { 0 };
        let dy: i128 = if cy < loy { loy - cy } else if cy > hiy { cy - hiy } else { 0 };
        let r = atk.radius as i128;
        assert(0 <= dx <= 0x3_0000_0000);
        assert(0 <= dy <= 0x3_0000_0000);
        assert(0 <= dx * dx <= 0x9_0000_0000_0000_0000) by (nonlinear_arith)
            requires 0 <= dx <= 0x3_0000_0000;
        assert(0 <= dy * dy <= 0x9_0000_0000_0000_0000) by (nonlinear_arith)
            requires 0 <= dy <= 0x3_0000_0000;
        assert(0 <= r * r <= 0x1_0000_0000_0000_0000) by (nonlinear_arith)
            requires -0x8000_0000 <= r <= 0x7fff_ffff;
        dx * dx + dy * dy <= r * r
    } else {
        overlap(atk.area, b.area)
    }
}

/// Hit resolution of the tick's player attacks: each attack, in order,
/// strikes every body it reaches on the enemy-body layer that its swing
/// has not hit yet, and each strike becomes a hit event carrying the
/// attack's kind, damage, owner and payload. The tick's attacks are then
/// cleared.
pub fn resolve_hits<P: Copy>(ledger: &mut HitLedger, attacks: &mut Vec<ActiveAttack<P>>, bodies: &Vec<HitBody>) -> (events: Vec<WorldEvent<P>>)
    ensures
        (final(ledger).hits@, events@) == spec_resolve(old(ledger).hits@, old(attacks)@, bodies@),
        final(attacks)@.len() == 0,
{
    let mut events: Vec<WorldEvent<P>> = Vec::new();
    let mut i: usize = 0;
    while i < attacks.len()
        invariant
            i <= attacks.len(),
            attacks@ == old(attacks)@,
            (ledger.hits@, events@) == spec_resolve(old(ledger).hits@, attacks@.subrange(0, i as int), bodies@),
        decreases attacks.len() - i,
    {
        let atk = attacks[i];
        let ghost h0 = ledger.hits@;
        let ghost ev0 = events@;
        let ghost ids: Seq<EntityId> = seq![];
        let mut j: usize = 0;
        while j < bodies.len()
            invariant
                i < attacks.len(),
                atk == attacks@[i as int],
                j <= bodies.len(),
                (ledger.hits@, ids) == spec_strike(h0, atk, bodies@.subrange(0, j as int)),
                events@ == ev0 + ids.map_values(|id: EntityId| hit_event(atk, id)),
            decreases bodies.len() - j,
        {
            let b = bodies[j];
            proof {
                assert(bodies@.subrange(0, j + 1).drop_last() =~= bodies@.subrange(0, j as int));
            }
            if attack_touches(&atk, &b) && !ledger.already_hit(atk.swing_id, b.id.index) {
                ledger.mark_hit(atk.swing_id, b.id.index);
                events.push(WorldEvent::AttackHit {
                    target: b.id,
                    attack: atk.kind,
                    damage_floor: atk.damage_floor,
                    source: atk.owner,
                    payload: atk.payload,
                });
                proof {
                    let ids2 = ids.push(b.id);
                    assert(ids2.map_values(|id: EntityId| hit_event(atk, id))
                        =~= ids.map_values(|id: EntityId| hit_event(atk, id)).push(hit_event(atk, b.id)));
                    ids = ids2;
                }
            }
            j = j + 1;
        }
        proof {
            assert(bodies@.subrange(0, bodies@.len() as int) =~= bodies@);
            assert(attacks@.subrange(0, i + 1).drop_last() =~= attacks@.subrange(0, i as int));
        }
        i = i + 1;
    }
    proof {
        assert(attacks@.subrange(0, attacks@.len() as int) =~= attacks@);
    }
    attacks.clear();
    events
}

/// What an enemy-side hitbox does to the player this tick.
#[derive(Clone, Copy, Debug, PartialEq, Eq, Structural)]
pub enum ShotVerdict {
    /// Nothing.
    Pass,
    /// The player is hurt by `amount` (a player-damage event away from the
    /// hitbox) and the hitbox is marked hit; a sword beam or debug shot
    /// also leaves the world (`despawn`).
    HurtPlayer { amount: i32, despawn: bool },
}

/// Any entity other than the player whose body is on the enemy-hit layer,
/// not turned to the player's side and not yet spent, that touches the
/// player's body hurts the player by its damage rounded up
/// (`damage_ceil`), once; shots (sword beams, debug shots) then vanish.
pub open spec fn spec_shot_verdict(kind: EntityKind, enemy_hit: bool, from_player: bool, hit: bool,
    touches_player: bool, damage_ceil: i32) -> ShotVerdict {
    if kind != EntityKind::Player && enemy_hit && !from_player && !hit && touches_player {
        ShotVerdict::HurtPlayer {
            amount: damage_ceil,
            despawn: kind == EntityKind::SwordBeam || kind == EntityKind::DebugShot,
        }
    } else {
        ShotVerdict::Pass
    }
}

/// The enemy-hit rule: an enemy-side hitbox (`enemy_hit`: its body is on
/// the enemy-hit layer) against the player.
pub fn shot_vs_player(kind: EntityKind, enemy_hit: bool, from_player: bool, hit: bool, touches_player: bool,
    damage_ceil: i32) -> (v: ShotVerdict)
    ensures
        v == spec_shot_verdict(kind, enemy_hit, from_player, hit, touches_player, damage_ceil),
{
    if kind != EntityKind::Player && enemy_hit && !from_player && !hit && touches_player {
        let despawn = match kind {
            EntityKind::SwordBeam | EntityKind::DebugShot => true,
            _ => false,
        };
        ShotVerdict::HurtPlayer { amount: damage_ceil, despawn }
    } else {
        ShotVerdict::Pass
    }
}

/// A shot in flight, as hit resolution sees it.
#[derive(Clone, Copy, Debug)]
pub struct Shot<P> {
    pub id: EntityId,
    pub kind: EntityKind,
    pub from_player: bool,
    pub hit: bool,
    pub swing_id: u32,
    /// Its hitbox (half a beam's width about its centre).
    pub area: Aabb,
    pub damage_floor: i32,
    pub payload: P,
}

/// The first body, in order, that a player shot's box reaches on the
/// enemy-body layer and that its swing has not hit yet.
pub open spec fn spec_first_fresh(hits: Seq<(u32, u32)>, swing_id: u32, area: Aabb, bodies: Seq<HitBody>) -> Option<HitBody>
    decreases bodies.len(),
{
    if bodies.len() == 0 {
        None
    } else {
        let b = bodies[0];
        if b.enemy_body && spec_overlap(area, b.area) && !hits.contains((swing_id, b.id.index)) {
            Some(b)
        } else {
            spec_first_fresh(hits, swing_id, area, bodies.drop_first())
        }
    }
}

/// A player's shot (`from_player`, not yet spent) strikes the first fresh
/// enemy body it touches, once: the hit is recorded, a beam hit event
/// (the shot as its source) is returned, and the caller marks the shot hit
/// and removes it. Otherwise nothing happens.
pub fn beam_strike<P: Copy>(ledger: &mut HitLedger, shot: &Shot<P>, bodies: &Vec<HitBody>) -> (ev: Option<WorldEvent<P>>)
    ensures
        !(shot.from_player && !shot.hit) ==> ev is None && final(ledger).hits@ == old(ledger).hits@,
        shot.from_player && !shot.hit ==> match spec_first_fresh(old(ledger).hits@, shot.swing_id, shot.area, bodies@) {
            None => ev is None && final(ledger).hits@ == old(ledger).hits@,
            Some(b) => ev == Some(WorldEvent::AttackHit {
                    target: b.id,
                    attack: AttackKind::Beam,
                    damage_floor: shot.damage_floor,
                    source: shot.id,
                    payload: shot.payload,
                })
                && final(ledger).hits@ == old(ledger).hits@.push((shot.swing_id, b.id.index)),
        },
{
    if !(shot.from_player && !shot.hit) {
        return None;
    }
    let mut j: usize = 0;
    proof {
        assert(bodies@.subrange(0, bodies@.len() as int) =~= bodies@);
    }
    while j < bodies.len()
        invariant
            shot.from_player && !shot.hit,
            j <= bodies.len(),
            ledger.hits@ == old(ledger).hits@,
            spec_first_fresh(old(ledger).hits@, shot.swing_id, shot.area, bodies@)
                == spec_first_fresh(old(ledger).hits@, shot.swing_id, shot.area, bodies@.subrange(j as int, bodies@.len() as int)),
        decreases bodies.len() - j,
    {
        let b = bodies[j];
        proof {
            let rest = bodies@.subrange(j as int, bodies@.len() as int);
            assert(rest[0] == b);
            assert(rest.drop_first() =~= bodies@.subrange(j + 1, bodies@.len() as int));
        }
        if b.enemy_body && overlap(shot.area, b.area) && !ledger.already_hit(shot.swing_id, b.id.index) {
            proof {
                let rest = bodies@.subrange(j as int, bodies@.len() as int);
                assert(spec_first_fresh(old(ledger).hits@, shot.swing_id, shot.area, rest) == Some(b));
            }
            ledger.mark_hit(shot.swing_id, b.id.index);
            return Some(WorldEvent::AttackHit {
                target: b.id,
                attack: AttackKind::Beam,
                damage_floor: shot.damage_floor,
                source: shot.id,
                payload: shot.payload,
            });
        }
        j = j + 1;
    }
    proof {
        assert(bodies@.subrange(j as int, bodies@.len() as int).len() == 0);
    }
    None
}

/// What a hit target looks like to the damage rules.
#[derive(Clone, Copy, Debug)]
pub struct Target {
    pub kind: EntityKind,
    pub is_enemy: bool,
    /// A training dummy that is down (respawning).
    pub dummy_down: bool,
    /// An octorok hiding in its shell (hits are refused).
    pub hiding: bool,
    pub health: Option<Health>,
}

/// How a hit on an enemy resolved.
#[derive(Clone, Copy, Debug, PartialEq, Eq, Structural)]
pub enum HitOutcome {
    /// No effect (not an enemy, down dummy, no health, or invulnerable).
    Ignored,
    /// A hiding octorok: it flashes, a spark and the refused sound play.
    Refused,
    /// Damage dealt.
    Damaged {
        /// The target's new health (for a knocked-down dummy, that of
        /// `spec_knocked_down`).
        health: Health,
        /// Hit points reached 0: an enemy leaves the world; a dummy is
        /// knocked down instead (`knock_down`). Either way a kill is
        /// announced at the target's centre.
        killed: bool,
        /// Finisher or spin.
        heavy: bool,
        hitstop: u8,
        shake: bool,
        verb: StyleVerb,
        sound: Sfx,
        /// A dummy was knocked down (it respawns; it is not despawned).
        dummy_knocked_down: bool,
    },
}

/// Style verb an attack kind earns.
pub open spec fn spec_attack_verb(a: AttackKind) -> StyleVerb {
    match a {
        AttackKind::Finisher => StyleVerb::Finisher,
        AttackKind::Spin => StyleVerb::ChargeSpin,
        _ => StyleVerb::Slash,
    }
}

pub open spec fn spec_heavy(a: AttackKind) -> bool {
    a == AttackKind::Finisher || a == AttackKind::Spin
}

/// A knocked-down dummy's health: none left of `DUMMY_HP`, no hurt timers.
pub open spec fn spec_down_health() -> Health {
    Health { hp: 0, max: DUMMY_HP, iframes: 0, flash: 0 }
}

/// A dummy just knocked down: its down counter starts, its body is gone.
pub open spec fn spec_knocked_down() -> Dummy {
    Dummy { dead_ticks: Some(0), health: Some(spec_down_health()), has_body: false }
}

/// Knocks a dummy down (a hit with `dummy_knocked_down`): the down counter
/// starts at 0, its health is 0 of `DUMMY_HP` with no hurt timers, and it
/// loses its body until it respawns.
pub fn knock_down(d: &mut Dummy)
    ensures
        *final(d) == spec_knocked_down(),
{
    *d = Dummy { dead_ticks: Some(0), health: Some(Health { hp: 0, max: DUMMY_HP, iframes: 0, flash: 0 }), has_body: false };
}

/// Hit-point loss of a hit of `damage`: `hp` becomes `ceil(hp - damage)`,
/// at least zero (and, as the whole number it is stored in, at most
/// `i32::MAX`), which for whole `hp` is `hp - floor(damage)`; the front
/// end passes `damage_floor`.
pub open spec fn spec_attack_hit(tg: Target, attack: AttackKind, damage_floor: i32) -> HitOutcome {
    if !tg.is_enemy || tg.dummy_down {
        HitOutcome::Ignored
    } else if tg.hiding {
        HitOutcome::Refused
    } else if tg.health is None || tg.health.unwrap().iframes > 0 {
        HitOutcome::Ignored
    } else {
        let h = tg.health.unwrap();
        let hp = if h.hp - damage_floor <= 0 {
            0
        } else if h.hp - damage_floor > i32::MAX {
            i32::MAX as int
        } else {
            h.hp - damage_floor
        };
        let killed = hp <= 0;
        let heavy = spec_heavy(attack);
        HitOutcome::Damaged {
            health: if killed && tg.kind == EntityKind::Dummy {
                spec_down_health()
            } else {
                Health { hp: hp as i32, flash: FLASH_TICKS, iframes: ENEMY_IFRAMES, ..h }
            },
            killed,
            heavy,
            hitstop: if heavy { HITSTOP_HEAVY } else { HITSTOP_NORMAL },
            shake: heavy || killed,
            verb: spec_attack_verb(attack),
            sound: if tg.kind == EntityKind::Dummy { Sfx::HitEnemy } else { Sfx::EnemyHurt },
            dummy_knocked_down: killed && tg.kind == EntityKind::Dummy,
        }
    }
}

/// A hit on an enemy that can take it (an enemy, standing, not hiding,
/// with health and no invulnerability) takes `damage` whole points off its
/// hit points, never below zero, and kills it exactly when the damage
/// reaches its hit points; more damage never leaves more hit points. A hit
/// on anything else deals no damage.
pub proof fn lemma_hit_takes_damage(tg: Target, attack: AttackKind, d1: i32, d2: i32)
    requires
        0 <= d1 <= d2,
    ensures
        ({
            let vulnerable = tg.is_enemy && !tg.dummy_down && !tg.hiding && tg.health is Some
                && tg.health.unwrap().iframes == 0;
            let hp = tg.health.unwrap().hp;
            &&& !vulnerable ==> !(spec_attack_hit(tg, attack, d1) is Damaged)
            &&& vulnerable && hp >= 0 ==> (spec_attack_hit(tg, attack, d1) matches HitOutcome::Damaged { health, killed, .. }
                && health.hp == (if hp - d1 > 0 { hp - d1 } else { 0 })
                && killed == (d1 >= hp))
            &&& vulnerable && hp >= 0 ==> (spec_attack_hit(tg, attack, d1) matches HitOutcome::Damaged { health: h1, .. }
                && spec_attack_hit(tg, attack, d2) matches HitOutcome::Damaged { health: h2, .. }
                && h2.hp <= h1.hp)
        }),
{
}

/// A player attack connects with an enemy.
pub fn apply_attack_hit(tg: Target, attack: AttackKind, damage_floor: i32) -> (r: HitOutcome)
    ensures
        r == spec_attack_hit(tg, attack, damage_floor),
        // Damage never drives hit points below zero, and a hit that deals
        // damage never heals.
        r matches HitOutcome::Damaged { health, .. } ==> 0 <= health.hp && (damage_floor >= 0
            && tg.health.unwrap().hp >= 0 ==> health.hp <= tg.health.unwrap().hp),
{
    if !tg.is_enemy || tg.dummy_down {
        return HitOutcome::Ignored;
    }
    if tg.hiding {
        return HitOutcome::Refused;
    }
    let h = match tg.health {
        None => return HitOutcome::Ignored,
        Some(h) => h,
    };
    if h.iframes > 0 {
        return HitOutcome::Ignored;
    }
    let diff = h.hp as i64 - damage_floor as i64;
    let hp: i32 = if diff <= 0 { 0 } else if diff > i32::MAX as i64 { i32::MAX } else { diff as i32 };
    let killed = hp <= 0;
    let heavy = matches!(attack, AttackKind::Finisher | AttackKind::Spin);
    let verb = match attack {
        AttackKind::Finisher => StyleVerb::Finisher,
        AttackKind::Spin => StyleVerb::ChargeSpin,
        _ => StyleVerb::Slash,
    };
    let down = killed && tg.kind == EntityKind::Dummy;
    HitOutcome::Damaged {
        health: if down {
            Health { hp: 0, max: DUMMY_HP, iframes: 0, flash: 0 }
        } else {
            Health { hp, flash: FLASH_TICKS, iframes: ENEMY_IFRAMES, max: h.max }
        },
        killed,
        heavy,
        hitstop: if heavy { HITSTOP_HEAVY } else { HITSTOP_NORMAL },
        shake: heavy || killed,
        verb,
        sound: if tg.kind == EntityKind::Dummy { Sfx::HitEnemy } else { Sfx::EnemyHurt },
        dummy_knocked_down: down,
    }
}

/// A target after a hit: a refused hit only flashes it; damage sets its
/// health; a kill removes an enemy, while a dummy goes down instead.
pub open spec fn spec_after_hit(tg: Target, o: HitOutcome) -> Option<Target> {
    match o {
        HitOutcome::Ignored => Some(tg),
        HitOutcome::Refused => Some(Target {
            health: match tg.health {
                Some(h) => Some(Health { flash: FLASH_TICKS, ..h }),
                None => None,
            },
            ..tg
        }),
        HitOutcome::Damaged { health, killed, dummy_knocked_down, .. } => if dummy_knocked_down {
            Some(Target { dummy_down: true, health: Some(health), ..tg })
        } else if killed {
            None
        } else {
            Some(Target { health: Some(health), ..tg })
        },
    }
}

pub fn after_hit(tg: Target, o: HitOutcome) -> (r: Option<Target>)
    ensures
        r == spec_after_hit(tg, o),
{
    match o {
        HitOutcome::Ignored => Some(tg),
        HitOutcome::Refused => Some(Target {
            health: match tg.health {
                Some(h) => Some(Health { flash: FLASH_TICKS, ..h }),
                None => None,
            },
            ..tg
        }),
        HitOutcome::Damaged { health, killed, dummy_knocked_down, .. } => if dummy_knocked_down {
            Some(Target { dummy_down: true, health: Some(health), ..tg })
        } else if killed {
            None
        } else {
            Some(Target { health: Some(health), ..tg })
        },
    }
}

/// How a hit on the player resolved.
#[derive(Clone, Copy, Debug, PartialEq, Eq, Structural)]
pub enum PlayerHit {
    /// Invulnerable: nearby hostile shots break, nothing else.
    Ignored,
    /// Shield took it from the front. A perfect block (within the first
    /// `PERFECT_BLOCK_WINDOW` ticks of raising it) refunds energy, earns
    /// the perfect-block style action and reflects nearby shots; a plain
    /// block costs energy when there is some.
    Blocked { perfect: bool },
    /// Damage taken.
    Hurt,
}

/// The player side of a hit of `amount` (`front`: it came from the
/// direction the player faces): the resolution, the player and health
/// after, and the cues.
pub open spec fn spec_player_damage(pd: PlayerData, h: Health, amount: i32, front: bool) -> (PlayerHit, PlayerData, Health, Seq<Cue>) {
    if h.iframes > 0 {
        (PlayerHit::Ignored, pd, h, seq![])
    } else if pd.shield_held && front {
        let perfect = pd.shield_ticks > 0 && pd.shield_ticks <= PERFECT_BLOCK_WINDOW;
        if perfect {
            (PlayerHit::Blocked { perfect },
                PlayerData { energy: spec_min(pd.energy + PERFECT_BLOCK_REFUND, ENERGY_MAX as int) as u32, ..pd },
                h, seq![Cue::Toast("PERFECT BLOCK"), Cue::Style(StyleVerb::PerfectBlock), Cue::Sound(Sfx::PerfectBlock)])
        } else {
            (PlayerHit::Blocked { perfect },
                if pd.energy >= BLOCK_ENERGY {
                    PlayerData { energy: (pd.energy - BLOCK_ENERGY) as u32, ticks_since_spend: 0, ..pd }
                } else {
                    pd
                },
                h, seq![Cue::Sound(Sfx::ShieldBlock)])
        }
    } else {
        let hp = if h.hp - amount > 0 { h.hp - amount } else { 0 };
        let h2 = Health { hp: hp as i32, iframes: PLAYER_IFRAMES, flash: FLASH_TICKS, ..h };
        if pd.style_rank > 0 {
            (PlayerHit::Hurt, PlayerData {
                hearts: hp as i32,
                no_dmg_streak: 0,
                style_rank: (pd.style_rank - 1) as u8,
                style_points: spec_rank_floor(pd.style_rank - 1) as u32,
                style_pulse: 12,
                ..pd
            }, h2, spec_rank_change_cues(false).push(Cue::Sound(Sfx::HurtPlayer)))
        } else {
            (PlayerHit::Hurt, PlayerData { hearts: hp as i32, no_dmg_streak: 0, ..pd }, h2, seq![Cue::Sound(Sfx::HurtPlayer)])
        }
    }
}

/// A hit on the player: while invulnerable nothing changes; a shield
/// raised toward it keeps every hit point; otherwise it takes `amount` off
/// the hit points (never below zero), shows them in the hearts, makes the
/// player invulnerable for `PLAYER_IFRAMES` ticks and costs a style rank.
pub proof fn lemma_player_hit(pd: PlayerData, h: Health, amount: i32, front: bool)
    ensures
        ({
            let (r, pd2, h2, cues) = spec_player_damage(pd, h, amount, front);
            &&& h.iframes > 0 ==> pd2 == pd && h2 == h && r == PlayerHit::Ignored
            &&& h.iframes == 0 && pd.shield_held && front ==> h2.hp == h.hp && pd2.hearts == pd.hearts
                && r is Blocked
            &&& h.iframes == 0 && !(pd.shield_held && front) && h.hp - amount <= i32::MAX ==> {
                &&& r == PlayerHit::Hurt
                &&& h2.hp == (if h.hp - amount > 0 { h.hp - amount } else { 0 })
                &&& pd2.hearts == h2.hp
                &&& h2.iframes == PLAYER_IFRAMES
                &&& pd2.style_rank == (if pd.style_rank > 0 { pd.style_rank - 1 } else { 0 })
            }
        }),
{
}

/// Player side of damage: `front` tells whether the hit came from the
/// direction the player faces. Updates meters and health and returns the
/// resolution and its cues.
pub fn apply_player_damage(pd: &mut PlayerData, health: &mut Health, amount: i32, front: bool) -> (r: (PlayerHit, Vec<Cue>))
    requires
        old(health).iframes == 0 && !(old(pd).shield_held && front) ==> old(health).hp - amount <= i32::MAX,
    ensures
        (r.0, *final(pd), *final(health), r.1@) == spec_player_damage(*old(pd), *old(health), amount, front),
        old(health).iframes > 0 ==> r.0 == PlayerHit::Ignored && *final(pd) == *old(pd) && *final(health)
            == *old(health) && r.1@.len() == 0,
        old(health).iframes == 0 && old(pd).shield_held && front ==> {
            let perfect = old(pd).shield_ticks > 0 && old(pd).shield_ticks <= PERFECT_BLOCK_WINDOW;
            &&& r.0 == PlayerHit::Blocked { perfect }
            &&& *final(health) == *old(health)
            &&& perfect ==> *final(pd) == (PlayerData {
                energy: spec_min(old(pd).energy + PERFECT_BLOCK_REFUND, ENERGY_MAX as int) as u32,
                ..*old(pd)
            }) && r.1@ == seq![Cue::Toast("PERFECT BLOCK"), Cue::Style(StyleVerb::PerfectBlock), Cue::Sound(Sfx::PerfectBlock)]
            &&& !perfect ==> *final(pd) == if old(pd).energy >= BLOCK_ENERGY {
                PlayerData { energy: (old(pd).energy - BLOCK_ENERGY) as u32, ticks_since_spend: 0, ..*old(pd) }
            } else {
                *old(pd)
            } && r.1@ == seq![Cue::Sound(Sfx::ShieldBlock)]
        },
        old(health).iframes == 0 && !(old(pd).shield_held && front) ==> {
            let hp = if old(health).hp - amount > 0 { old(health).hp - amount } else { 0 };
            &&& r.0 == PlayerHit::Hurt
            &&& *final(health) == (Health { hp: hp as i32, iframes: PLAYER_IFRAMES, flash: FLASH_TICKS, ..*old(health) })
            &&& old(pd).style_rank > 0 ==> *final(pd) == (PlayerData {
                    hearts: hp as i32,
                    no_dmg_streak: 0,
                    style_rank: (old(pd).style_rank - 1) as u8,
                    style_points: spec_rank_floor(old(pd).style_rank - 1) as u32,
                    style_pulse: 12,
                    ..*old(pd)
                })
                && r.1@ == spec_rank_change_cues(false).push(Cue::Sound(Sfx::HurtPlayer))
            &&& old(pd).style_rank == 0 ==> *final(pd) == (PlayerData { hearts: hp as i32, no_dmg_streak: 0, ..*old(pd) })
                && r.1@ == seq![Cue::Sound(Sfx::HurtPlayer)]
        },
{
    if health.iframes > 0 {
        return (PlayerHit::Ignored, Vec::new());
    }
    if pd.shield_held && front {
        let perfect = pd.shield_ticks > 0 && pd.shield_ticks <= PERFECT_BLOCK_WINDOW;
        let mut cues = Vec::new();
        if perfect {
            refund(pd, PERFECT_BLOCK_REFUND);
            cues.push(Cue::Toast("PERFECT BLOCK"));
            cues.push(Cue::Style(StyleVerb::PerfectBlock));
            cues.push(Cue::Sound(Sfx::PerfectBlock));
        } else {
            if pd.energy >= BLOCK_ENERGY {
                pd.energy = pd.energy - BLOCK_ENERGY;
                pd.ticks_since_spend = 0;
            }
            cues.push(Cue::Sound(Sfx::ShieldBlock));
        }
        return (PlayerHit::Blocked { perfect }, cues);
    }
    let diff = health.hp as i64 - amount as i64;
    health.hp = if diff > 0 { diff as i32 } else { 0 };
    health.iframes = PLAYER_IFRAMES;
    health.flash = FLASH_TICKS;
    pd.hearts = health.hp;
    let mut cues = on_player_damaged(pd);
    cues.push(Cue::Sound(Sfx::HurtPlayer));
    (PlayerHit::Hurt, cues)
}

/// A training dummy: down for `DUMMY_RESPAWN` ticks after a kill.
#[derive(Clone, Copy, Debug)]
pub struct Dummy {
    pub dead_ticks: Option<u16>,
    pub health: Option<Health>,
    /// It has its body: a 16 by 16 pixel box on the enemy-body layer that
    /// player attacks strike.
    pub has_body: bool,
}

/// The dummy's down counter can still count.
pub open spec fn dummy_ok(d: Dummy) -> bool {
    d.dead_ticks matches Some(t) ==> t < u16::MAX
}

/// A down dummy's health on getting back up.
pub open spec fn spec_full_dummy_health() -> Health {
    Health { hp: DUMMY_HP, max: DUMMY_HP, iframes: 0, flash: 0 }
}

/// This tick gets the dummy back up.
pub open spec fn respawns(d: Dummy) -> bool {
    d.dead_ticks matches Some(t) && t + 1 >= DUMMY_RESPAWN
}

/// One tick of a dummy: a standing dummy is untouched; a down one counts
/// up, and on reaching `DUMMY_RESPAWN` stands again at full health with its
/// body.
pub open spec fn spec_dummy_step(d: Dummy) -> Dummy {
    match d.dead_ticks {
        None => d,
        Some(t) => if t + 1 >= DUMMY_RESPAWN {
            Dummy { dead_ticks: None, health: Some(spec_full_dummy_health()), has_body: true }
        } else {
            Dummy { dead_ticks: Some((t + 1) as u16), ..d }
        },
    }
}

/// `k` ticks of a dummy.
pub open spec fn spec_dummy_steps(d: Dummy, k: nat) -> Dummy
    decreases k,
{
    if k == 0 { d } else { spec_dummy_step(spec_dummy_steps(d, (k - 1) as nat)) }
}

/// A dummy knocked down stays down for `DUMMY_RESPAWN` ticks: after `k`
/// ticks short of that its counter reads `k`, and on the `DUMMY_RESPAWN`-th
/// it stands again at full health with its body. A standing dummy never
/// changes.
pub proof fn lemma_dummy_respawn_after(d: Dummy, k: nat)
    requires
        d.dead_ticks == Some(0u16),
        k <= DUMMY_RESPAWN,
    ensures
        k < DUMMY_RESPAWN ==> spec_dummy_steps(d, k) == (Dummy { dead_ticks: Some(k as u16), ..d }),
        k == DUMMY_RESPAWN ==> spec_dummy_steps(d, k)
            == (Dummy { dead_ticks: None, health: Some(spec_full_dummy_health()), has_body: true }),
        forall|e: Dummy| e.dead_ticks is None ==> #[trigger] spec_dummy_step(e) == e,
    decreases k,
{
    if k > 0 {
        lemma_dummy_respawn_after(d, (k - 1) as nat);
    }
}

/// Down dummies count up and respawn at full health with their body.
/// Returns exactly the indices that respawned, in order (the front end
/// puts each back at its home with no knockback).
pub fn tick_dummies(dummies: &mut Vec<Dummy>) -> (respawned: Vec<usize>)
    requires
        forall|i: int| 0 <= i < old(dummies)@.len() ==> dummy_ok(#[trigger] old(dummies)@[i]),
    ensures
        final(dummies)@.len() == old(dummies)@.len(),
        forall|i: int| 0 <= i < old(dummies)@.len() ==> #[trigger] final(dummies)@[i] == spec_dummy_step(old(dummies)@[i]),
        forall|i: int| 0 <= i < old(dummies)@.len() ==> (respawned@.contains(i as usize) <==> respawns(#[trigger] old(dummies)@[i])),
        forall|k: int| 0 <= k < respawned@.len() ==> #[trigger] respawned@[k] < old(dummies)@.len(),
        forall|a: int, b: int| 0 <= a < b < respawned@.len() ==> respawned@[a] < respawned@[b],
{
    let mut respawned: Vec<usize> = Vec::new();
    let mut i: usize = 0;
    while i < dummies.len()
        invariant
            i <= dummies.len(),
            dummies@.len() == old(dummies)@.len(),
            forall|j: int| i <= j < dummies@.len() ==> #[trigger] dummies@[j] == old(dummies)@[j],
            forall|j: int| 0 <= j < old(dummies)@.len() ==> dummy_ok(#[trigger] old(dummies)@[j]),
            forall|j: int| 0 <= j < i ==> #[trigger] dummies@[j] == spec_dummy_step(old(dummies)@[j]),
            forall|j: int| 0 <= j < old(dummies)@.len() ==> (respawned@.contains(j as usize) <==> (j < i && respawns(#[trigger] old(dummies)@[j]))),
            forall|k: int| 0 <= k < respawned@.len() ==> #[trigger] respawned@[k] < i,
            forall|a: int, b: int| 0 <= a < b < respawned@.len() ==> respawned@[a] < respawned@[b],
        decreases dummies.len() - i,
    {
        let d = dummies[i];
        let ghost before = respawned@;
        if let Some(t) = d.dead_ticks {
            let next = t + 1;
            if next >= DUMMY_RESPAWN {
                dummies.set(i, Dummy {
                    dead_ticks: None,
                    health: Some(Health { hp: DUMMY_HP, max: DUMMY_HP, iframes: 0, flash: 0 }),
                    has_body: true,
                });
                respawned.push(i);
            } else {
                dummies.set(i, Dummy { dead_ticks: Some(next), ..d });
            }
        }
        proof {
            assert forall|j: int| 0 <= j < old(dummies)@.len() implies (respawned@.contains(j as usize) <==> (j < i + 1 && respawns(#[trigger] old(dummies)@[j]))) by {
                if respawned@.contains(j as usize) {
                    let m = choose|m: int| 0 <= m < respawned@.len() && respawned@[m] == j as usize;
                    if m < before.len() {
                        assert(before[m] == j as usize);
                        assert(before.contains(j as usize));
                    }
                }
                if j < i && respawns(old(dummies)@[j]) {
                    assert(before.contains(j as usize));
                    let m = choose|m: int| 0 <= m < before.len() && before[m] == j as usize;
                    assert(respawned@[m] == j as usize);
                }
                if j == i && respawns(old(dummies)@[j]) {
                    assert(respawned@[respawned@.len() - 1] == i);
                }
            }
        }
        i = i + 1;
    }
    respawned
}

/// Per-tick hurt timers and animation clock of one entity: the hit flash
/// fades; invulnerability counts down here for everyone but the player
/// (whose own meters tick it).
pub fn tick_entity_timers(kind: EntityKind, health: &mut Option<Health>, anim: &mut AnimState)
    ensures
        final(anim).timer == if old(anim).timer == u16::MAX { 0 } else { (old(anim).timer + 1) as u16 },
        final(anim).frame == old(anim).frame && final(anim).sheet == old(anim).sheet,
        *old(health) is None ==> *final(health) is None,
        *old(health) is Some ==> *final(health) == Some(Health {
            flash: if (*old(health)).unwrap().flash > 0 { ((*old(health)).unwrap().flash - 1) as u8 } else { 0 },
            iframes: if kind != EntityKind::Player && (*old(health)).unwrap().iframes > 0 {
                ((*old(health)).unwrap().iframes - 1) as u16
            } else {
                (*old(health)).unwrap().iframes
            },
            ..(*old(health)).unwrap()
        }),
{
    if let Some(h) = health {
        if h.flash > 0 {
            h.flash = h.flash - 1;
        }
        if kind != EntityKind::Player && h.iframes > 0 {
            h.iframes = h.iframes - 1;
        }
    }
    anim.timer = if anim.timer == u16::MAX { 0 } else { anim.timer + 1 };
}


/// Ownership of a projectile: fired by the player's side, and whether it
/// has already hit.
#[derive(Clone, Copy, Debug, PartialEq, Eq, Structural)]
pub struct ShotOwner {
    pub from_player: bool,
    pub hit: bool,
}

/// What a perfect block does to a projectile near the shield.
#[derive(Clone, Copy, Debug, PartialEq, Eq, Structural)]
pub enum Reflect {
    /// Not a projectile: untouched.
    Untouched,
    /// Turned around: it now belongs to the player and can hit again (its
    /// velocity and direction reverse, its hitbox turns player-side).
    Reflected,
    /// A rock turned around likewise, dealing reflected-rock damage, with
    /// the zing sound.
    ReflectedRock,
}

pub fn reflect_shot(kind: EntityKind, shot: &mut ShotOwner) -> (r: Reflect)
    ensures
        r == if kind == EntityKind::SwordBeam || kind == EntityKind::DebugShot {
            Reflect::Reflected
        } else if kind == EntityKind::OctorokRock {
            Reflect::ReflectedRock
        } else {
            Reflect::Untouched
        },
        r == Reflect::Untouched ==> *final(shot) == *old(shot),
        r != Reflect::Untouched ==> *final(shot) == (ShotOwner { from_player: true, hit: false }),
{
    match kind {
        EntityKind::SwordBeam | EntityKind::DebugShot => {
            *shot = ShotOwner { from_player: true, hit: false };
            Reflect::Reflected
        },
        EntityKind::OctorokRock => {
            *shot = ShotOwner { from_player: true, hit: false };
            Reflect::ReflectedRock
        },
        _ => Reflect::Untouched,
    }
}

/// Projectiles that a hurt player's burst clears nearby: enemy rocks and
/// enemy debug shots (the player's own shots stay).
pub fn is_hostile_shot(kind: EntityKind, from_player: bool) -> (h: bool)
    ensures
        h == ((kind == EntityKind::OctorokRock || kind == EntityKind::DebugShot) && !from_player),
{
    match kind {
        EntityKind::OctorokRock | EntityKind::DebugShot => !from_player,
        _ => false,
    }
}

/// What one combat event came to.
#[derive(Clone, Copy, Debug, PartialEq, Eq, Structural)]
pub enum Applied {
    /// A hit on a live target and how it resolved.
    Enemy { target: EntityId, outcome: HitOutcome },
    /// A hit on a target that is gone (or whose slot holds a newer entity).
    Missed,
    /// A hit on the player and how it resolved.
    Player(PlayerHit),
}

/// A hit pushing the player along `dir` comes from the front when it comes
/// from the side the player faces: its push points against the facing.
pub open spec fn spec_from_front(facing: Dir4, dir: (i32, i32)) -> bool {
    let u = spec_dir_step(facing);
    u.0 * dir.0 + u.1 * dir.1 < 0
}

pub fn from_front(facing: Dir4, dir: (i32, i32)) -> (r: bool)
    ensures
        r == spec_from_front(facing, dir),
{
    match facing {
        Dir4::Up => dir.1 > 0,
        Dir4::Down => dir.1 < 0,
        Dir4::Left => dir.0 > 0,
        Dir4::Right => dir.0 < 0,
    }
}

/// The combat state the events act on: entity slots (generation and
/// target; `None` for a free slot), the player and the player's health;
/// `facing` is the player's facing this tick.
pub open spec fn spec_combat_step<P>(slots: Seq<Option<(u32, Target)>>, pd: PlayerData, h: Health, ev: WorldEvent<P>, facing: Dir4)
    -> (Seq<Option<(u32, Target)>>, PlayerData, Health, Seq<Applied>, Seq<Cue>) {
    match ev {
        WorldEvent::AttackHit { target, attack, damage_floor, .. } => {
            let i = target.index as int;
            if 0 <= i < slots.len() && slots[i] is Some && slots[i].unwrap().0 == target.gen {
                let slot = slots[i].unwrap();
                let o = spec_attack_hit(slot.1, attack, damage_floor);
                let next = match spec_after_hit(slot.1, o) {
                    Some(t) => Some((slot.0, t)),
                    None => None,
                };
                (slots.update(i, next), pd, h, seq![Applied::Enemy { target, outcome: o }], seq![])
            } else {
                (slots, pd, h, seq![Applied::Missed], seq![])
            }
        },
        WorldEvent::DamagedPlayer { amount, dx, dy, .. } => {
            let r = spec_player_damage(pd, h, amount, spec_from_front(facing, (dx, dy)));
            (slots, r.1, r.2, seq![Applied::Player(r.0)], r.3)
        },
        _ => (slots, pd, h, seq![], seq![]),
    }
}

/// The combat events applied one after another, in order.
pub open spec fn spec_combat_fold<P>(slots: Seq<Option<(u32, Target)>>, pd: PlayerData, h: Health, events: Seq<WorldEvent<P>>, facing: Dir4)
    -> (Seq<Option<(u32, Target)>>, PlayerData, Health, Seq<Applied>, Seq<Cue>)
    decreases events.len(),
{
    if events.len() == 0 {
        (slots, pd, h, seq![], seq![])
    } else {
        let prev = spec_combat_fold(slots, pd, h, events.drop_last(), facing);
        let step = spec_combat_step(prev.0, prev.1, prev.2, events.last(), facing);
        (step.0, step.1, step.2, prev.3 + step.3, prev.4 + step.4)
    }
}

/// Events that hold no hit leave the combat state as it was and come to
/// nothing.
pub proof fn lemma_no_combat_no_change<P>(slots: Seq<Option<(u32, Target)>>, pd: PlayerData, h: Health,
    events: Seq<WorldEvent<P>>, facing: Dir4)
    requires
        forall|i: int| 0 <= i < events.len() ==> !crate::events::is_combat(#[trigger] events[i]),
    ensures
        spec_combat_fold(slots, pd, h, events, facing) == (slots, pd, h, Seq::<Applied>::empty(), Seq::<Cue>::empty()),
    decreases events.len(),
{
    if events.len() > 0 {
        let prefix = events.drop_last();
        assert forall|i: int| 0 <= i < prefix.len() implies !crate::events::is_combat(#[trigger] prefix[i]) by {
            assert(prefix[i] == events[i]);
        }
        lemma_no_combat_no_change(slots, pd, h, prefix, facing);
        assert(!crate::events::is_combat(events[events.len() - 1]));
        assert(Seq::<Applied>::empty() + Seq::<Applied>::empty() =~= Seq::<Applied>::empty());
        assert(Seq::<Cue>::empty() + Seq::<Cue>::empty() =~= Seq::<Cue>::empty());
    }
}

/// A hit on the player lands within the range of its whole-number hit
/// points (`hp - amount` does not exceed `i32::MAX`).
pub open spec fn step_in_range<P>(pd: PlayerData, h: Health, ev: WorldEvent<P>, facing: Dir4) -> bool {
    match ev {
        WorldEvent::DamagedPlayer { amount, dx, dy, .. } =>
            h.iframes == 0 && !(pd.shield_held && spec_from_front(facing, (dx, dy))) ==> h.hp - amount <= i32::MAX,
        _ => true,
    }
}

/// Every hit on the player, in turn, lands within the range of the
/// player's hit points.
pub open spec fn fold_in_range<P>(slots: Seq<Option<(u32, Target)>>, pd: PlayerData, h: Health, events: Seq<WorldEvent<P>>, facing: Dir4) -> bool
    decreases events.len(),
{
    if events.len() == 0 {
        true
    } else {
        let prev = spec_combat_fold(slots, pd, h, events.drop_last(), facing);
        fold_in_range(slots, pd, h, events.drop_last(), facing) && step_in_range(prev.1, prev.2, events.last(), facing)
    }
}

/// Applies the tick's events in order: each hit on an enemy to the target
/// in its slot (`apply_attack_hit`, then the target's new state), each hit
/// on the player to the player (`apply_player_damage`, from the front when
/// its push points against `facing`). Other events change nothing.
/// Returns what each combat event came to, and the cues, in order.
pub fn apply_combat_events<P: Copy>(
    slots: &mut Vec<Option<(u32, Target)>>,
    pd: &mut PlayerData,
    health: &mut Health,
    events: &Vec<WorldEvent<P>>,
    facing: Dir4,
) -> (r: (Vec<Applied>, Vec<Cue>))
    requires
        fold_in_range(old(slots)@, *old(pd), *old(health), events@, facing),
    ensures
        ({
            let f = spec_combat_fold(old(slots)@, *old(pd), *old(health), events@, facing);
            &&& final(slots)@ == f.0
            &&& *final(pd) == f.1
            &&& *final(health) == f.2
            &&& r.0@ == f.3
            &&& r.1@ == f.4
        }),
{
    let mut applied: Vec<Applied> = Vec::new();
    let mut cues: Vec<Cue> = Vec::new();
    let mut i: usize = 0;
    proof {
        lemma_fold_in_range_prefix(old(slots)@, *old(pd), *old(health), events@, facing);
    }
    while i < events.len()
        invariant
            i <= events.len(),
            forall|k: int| 0 <= k <= events@.len() ==> #[trigger] fold_in_range(old(slots)@, *old(pd), *old(health),
                events@.subrange(0, k), facing),
            ({
                let f = spec_combat_fold(old(slots)@, *old(pd), *old(health), events@.subrange(0, i as int), facing);
                &&& slots@ == f.0
                &&& *pd == f.1
                &&& *health == f.2
                &&& applied@ == f.3
                &&& cues@ == f.4
            }),
        decreases events.len() - i,
    {
        let ev = events[i];
        proof {
            let pre = events@.subrange(0, i + 1);
            assert(pre.drop_last() =~= events@.subrange(0, i as int));
            assert(pre.last() == ev);
            assert(fold_in_range(old(slots)@, *old(pd), *old(health), pre, facing));
        }
        let ghost s0 = slots@;
        let ghost a0 = applied@;
        let ghost c0 = cues@;
        match ev {
            WorldEvent::AttackHit { target, attack, damage_floor, .. } => {
                let k = target.index as usize;
                let mut hit_live = false;
                if k < slots.len() {
                    if let Some(slot) = slots[k] {
                        if slot.0 == target.gen {
                            hit_live = true;
                            let o = apply_attack_hit(slot.1, attack, damage_floor);
                            let next = match after_hit(slot.1, o) {
                                Some(t) => Some((slot.0, t)),
                                None => None,
                            };
                            slots.set(k, next);
                            applied.push(Applied::Enemy { target, outcome: o });
                        }
                    }
                }
                if !hit_live {
                    applied.push(Applied::Missed);
                }
                proof {
                    assert(cues@ =~= c0 + Seq::<Cue>::empty());
                }
            },
            WorldEvent::DamagedPlayer { amount, dx, dy, .. } => {
                let front = from_front(facing, (dx, dy));
                let (ph, mut more) = apply_player_damage(pd, health, amount, front);
                applied.push(Applied::Player(ph));
                cues.append(&mut more);
                proof {
                    assert(slots@ == s0);
                }
            },
            _ => {
                proof {
                    assert(applied@ =~= a0 + Seq::<Applied>::empty());
                    assert(cues@ =~= c0 + Seq::<Cue>::empty());
                }
            },
        }
        i = i + 1;
    }
    proof {
        assert(events@.subrange(0, events@.len() as int) =~= events@);
    }
    (applied, cues)
}

/// In range for the whole list means in range for every prefix.
proof fn lemma_fold_in_range_prefix<P>(slots: Seq<Option<(u32, Target)>>, pd: PlayerData, h: Health, events: Seq<WorldEvent<P>>, facing: Dir4)
    requires
        fold_in_range(slots, pd, h, events, facing),
    ensures
        forall|k: int| 0 <= k <= events.len() ==> #[trigger] fold_in_range(slots, pd, h, events.subrange(0, k), facing),
    decreases events.len(),
{
    assert(events.subrange(0, events.len() as int) =~= events);
    if events.len() > 0 {
        let pre = events.drop_last();
        lemma_fold_in_range_prefix(slots, pd, h, pre, facing);
        assert forall|k: int| 0 <= k <= events.len() implies #[trigger] fold_in_range(slots, pd, h, events.subrange(0, k), facing) by {
            if k < events.len() {
                assert(pre.subrange(0, k) =~= events.subrange(0, k));
            }
        }
    }
}

} // verus!
