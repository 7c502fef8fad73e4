//! Short-lived effects: the particle pool with its cap, fading marks (slash
//! arcs, damage numbers), and the ambient particles of the overworld.
//! Each effect carries a `body` of the front end's (position, velocity,
//! size) that the rules only move along.

use vstd::prelude::*;
use crate::dice::roll_u16;

verus! {

/// Most particles alive at once; the oldest give way.
pub const PARTICLE_CAP: usize = 180;
/// Most ambient particles alive at once.
pub const AMBIENT_CAP: usize = 24;
/// Life of a damage number.
pub const NUMBER_LIFE: u16 = 40;

#[derive(Clone, Copy, Debug, PartialEq, Eq, Structural)]
pub enum ParticleKind {
    Dust,
    Impact,
    Poof,
    Shimmer,
    Fountain,
    Leaf,
    Ember,
}

/// A particle: ticks left of `max`, kind, whether it is ambient.
#[derive(Clone, Copy, Debug)]
pub struct Particle<T> {
    pub life: u16,
    pub max: u16,
    pub kind: ParticleKind,
    pub ambient: bool,
    pub body: T,
}

/// The particle pool, oldest first.
pub struct Particles<T> {
    pub list: Vec<Particle<T>>,
}

/// The ambient particles of a pool.
pub open spec fn ambient_of<T>(s: Seq<Particle<T>>) -> Seq<Particle<T>> {
    s.filter(|p: Particle<T>| p.ambient)
}

/// Particles after a tick: each ages, the spent ones go.
pub open spec fn aged<T>(s: Seq<Particle<T>>) -> Seq<Particle<T>> {
    s.map_values(|p: Particle<T>| Particle { life: if p.life > 0 { (p.life - 1) as u16 } else { 0 }, ..p })
        .filter(|p: Particle<T>| p.life > 0)
}

impl<T: Copy> Particles<T> {
    pub fn new() -> (s: Self)
        ensures
            s.list@.len() == 0,
    {
        Particles { list: Vec::new() }
    }

    pub fn count(&self) -> (n: usize)
        ensures
            n == self.list@.len(),
    {
        self.list.len()
    }

    pub fn ambient_count(&self) -> (n: usize)
        ensures
            n == ambient_of(self.list@).len(),
    {
        let mut n: usize = 0;
        let mut i: usize = 0;
        while i < self.list.len()
            invariant
                i <= self.list.len(),
                n == ambient_of(self.list@.subrange(0, i as int)).len(),
                n <= i,
            decreases self.list.len() - i,
        {
            proof {
                assert(self.list@.subrange(0, i + 1).drop_last() =~= self.list@.subrange(0, i as int));
                reveal_with_fuel(Seq::filter, 1);
            }
            if self.list[i].ambient {
                n = n + 1;
            }
            i = i + 1;
        }
        assert(self.list@.subrange(0, self.list@.len() as int) =~= self.list@);
        n
    }

    /// Adds a particle; at the cap the oldest one goes first.
    pub fn push(&mut self, body: T, life: u16, kind: ParticleKind, ambient: bool)
        requires
            old(self).list@.len() <= PARTICLE_CAP,
        ensures
            final(self).list@.len() <= PARTICLE_CAP,
            ({
                let p = Particle { life, max: life, kind, ambient, body };
                final(self).list@ == if old(self).list@.len() >= PARTICLE_CAP {
                    old(self).list@.drop_first().push(p)
                } else {
                    old(self).list@.push(p)
                }
            }),
    {
        if self.list.len() >= PARTICLE_CAP {
            self.list.remove(0);
            proof {
                assert(self.list@ =~= old(self).list@.drop_first());
            }
        }
        self.list.push(Particle { life, max: life, kind, ambient, body });
    }

    /// Adds a burst of one kind (fixed-life kinds: see `burst_life`), one
    /// particle per body.
    pub fn spawn_burst(&mut self, kind: ParticleKind, bodies: &Vec<T>)
        requires
            old(self).list@.len() <= PARTICLE_CAP,
        ensures
            final(self).list@.len() <= PARTICLE_CAP,
            final(self).list@.len() == spec_min_usize((old(self).list@.len() + bodies@.len()) as int, PARTICLE_CAP as int),
            bodies@.len() > 0 ==> final(self).list@.last() == (Particle {
                life: spec_burst_life(kind),
                max: spec_burst_life(kind),
                kind,
                ambient: spec_burst_ambient(kind),
                body: bodies@.last(),
            }),
    {
        let life = burst_life(kind);
        let ambient = burst_ambient(kind);
        let mut i: usize = 0;
        while i < bodies.len()
            invariant
                i <= bodies.len(),
                self.list@.len() <= PARTICLE_CAP,
                self.list@.len() == spec_min_usize((old(self).list@.len() + i) as int, PARTICLE_CAP as int),
                i > 0 ==> self.list@.last() == (Particle { life, max: life, kind, ambient, body: bodies@[i - 1] }),
                life == spec_burst_life(kind),
                ambient == spec_burst_ambient(kind),
            decreases bodies.len() - i,
        {
            self.push(bodies[i], life, kind, ambient);
            i = i + 1;
        }
    }

    /// One tick: every particle ages; spent ones (no life left) go.
    pub fn update(&mut self)
        ensures
            final(self).list@ == aged(old(self).list@),
            final(self).list@.len() <= old(self).list@.len(),
    {
        let mut kept: Vec<Particle<T>> = Vec::new();
        let mut i: usize = 0;
        while i < self.list.len()
            invariant
                i <= self.list.len(),
                self.list@ == old(self).list@,
                kept@ == aged(self.list@.subrange(0, i as int)),
            decreases self.list.len() - i,
        {
            let p = self.list[i];
            let life: u16 = if p.life > 0 { p.life - 1 } else { 0 };
            proof {
                let s = self.list@.subrange(0, i + 1);
                let m = |q: Particle<T>| Particle { life: if q.life > 0 { (q.life - 1) as u16 } else { 0 }, ..q };
                assert(s.drop_last() =~= self.list@.subrange(0, i as int));
                assert(s.map_values(m).drop_last() =~= s.drop_last().map_values(m));
                reveal_with_fuel(Seq::filter, 1);
            }
            if life > 0 {
                kept.push(Particle { life, ..p });
            }
            i = i + 1;
        }
        assert(self.list@.subrange(0, self.list@.len() as int) =~= self.list@);
        proof {
            lemma_aged_len(old(self).list@);
        }
        self.list = kept;
    }
}

/// Aging never lengthens the particle list.
pub proof fn lemma_aged_len<T>(s: Seq<Particle<T>>)
    ensures
        aged(s).len() <= s.len(),
{
    let m = s.map_values(|p: Particle<T>| Particle { life: if p.life > 0 { (p.life - 1) as u16 } else { 0 }, ..p });
    m.lemma_filter_len(|p: Particle<T>| p.life > 0);
}

pub open spec fn spec_min_usize(a: int, b: int) -> int {
    if a <= b { a } else { b }
}

/// Life of a burst particle: dust 18, impact 14, poof 22, shimmer 12,
/// fountain 20 (leaves and embers draw theirs).
pub open spec fn spec_burst_life(kind: ParticleKind) -> u16 {
    match kind {
        ParticleKind::Dust => 18,
        ParticleKind::Impact => 14,
        ParticleKind::Poof => 22,
        ParticleKind::Shimmer => 12,
        ParticleKind::Fountain => 20,
        ParticleKind::Leaf => 90,
        ParticleKind::Ember => 28,
    }
}

/// Fountain sparkles, leaves and embers are ambient.
pub open spec fn spec_burst_ambient(kind: ParticleKind) -> bool {
    kind == ParticleKind::Fountain || kind == ParticleKind::Leaf || kind == ParticleKind::Ember
}

pub fn burst_life(kind: ParticleKind) -> (l: u16)
    ensures
        l == spec_burst_life(kind),
{
    match kind {
        ParticleKind::Dust => 18,
        ParticleKind::Impact => 14,
        ParticleKind::Poof => 22,
        ParticleKind::Shimmer => 12,
        ParticleKind::Fountain => 20,
        ParticleKind::Leaf => 90,
        ParticleKind::Ember => 28,
    }
}

pub fn burst_ambient(kind: ParticleKind) -> (a: bool)
    ensures
        a == spec_burst_ambient(kind),
{
    match kind {
        ParticleKind::Fountain | ParticleKind::Leaf | ParticleKind::Ember => true,
        _ => false,
    }
}

/// How many particles a burst of each kind has: dust 3, impact 6, poof 10,
/// the rest 1.
pub fn burst_count(kind: ParticleKind) -> (n: usize)
    ensures
        n == match kind {
            ParticleKind::Dust => 3usize,
            ParticleKind::Impact => 6usize,
            ParticleKind::Poof => 10usize,
            _ => 1usize,
        },
{
    match kind {
        ParticleKind::Dust => 3,
        ParticleKind::Impact => 6,
        ParticleKind::Poof => 10,
        _ => 1,
    }
}

/// Life of an ambient leaf from a roll: 90 to 129 ticks.
pub fn leaf_life(roll: u16) -> (l: u16)
    ensures
        l == 90 + roll % 40,
{
    90 + roll % 40
}

/// Life of a lantern ember from a roll: 28 to 47 ticks.
pub fn ember_life(roll: u16) -> (l: u16)
    ensures
        l == 28 + roll % 20,
{
    28 + roll % 20
}

/// A leaf's life, drawn from the world's generator.
pub fn roll_leaf_life(rng: &mut fastrand::Rng) -> (l: u16)
    ensures
        90 <= l < 130,
{
    leaf_life(roll_u16(rng))
}

/// An ember's life, drawn from the world's generator.
pub fn roll_ember_life(rng: &mut fastrand::Rng) -> (l: u16)
    ensures
        28 <= l < 48,
{
    ember_life(roll_u16(rng))
}

/// A fading mark (slash arc, damage number): ticks left of `max`.
#[derive(Clone, Copy, Debug)]
pub struct Faded<T> {
    pub life: u16,
    pub max: u16,
    pub body: T,
}

/// Fading marks, oldest first.
pub struct Fading<T> {
    pub list: Vec<Faded<T>>,
}

pub open spec fn faded<T>(s: Seq<Faded<T>>) -> Seq<Faded<T>> {
    s.map_values(|f: Faded<T>| Faded { life: if f.life > 0 { (f.life - 1) as u16 } else { 0 }, ..f })
        .filter(|f: Faded<T>| f.life > 0)
}

impl<T: Copy> Fading<T> {
    pub fn new() -> (s: Self)
        ensures
            s.list@.len() == 0,
    {
        Fading { list: Vec::new() }
    }

    pub fn spawn(&mut self, body: T, life: u16)
        ensures
            final(self).list@ == old(self).list@.push(Faded { life, max: life, body }),
    {
        self.list.push(Faded { life, max: life, body });
    }

    /// One tick: every mark ages; spent ones go.
    pub fn update(&mut self)
        ensures
            final(self).list@ == faded(old(self).list@),
    {
        let mut kept: Vec<Faded<T>> = Vec::new();
        let mut i: usize = 0;
        while i < self.list.len()
            invariant
                i <= self.list.len(),
                self.list@ == old(self).list@,
                kept@ == faded(self.list@.subrange(0, i as int)),
            decreases self.list.len() - i,
        {
            let f = self.list[i];
            let life: u16 = if f.life > 0 { f.life - 1 } else { 0 };
            proof {
                let s = self.list@.subrange(0, i + 1);
                let m = |q: Faded<T>| Faded { life: if q.life > 0 { (q.life - 1) as u16 } else { 0 }, ..q };
                assert(s.drop_last() =~= self.list@.subrange(0, i as int));
                assert(s.map_values(m).drop_last() =~= s.drop_last().map_values(m));
                reveal_with_fuel(Seq::filter, 1);
            }
            if life > 0 {
                kept.push(Faded { life, ..f });
            }
            i = i + 1;
        }
        assert(self.list@.subrange(0, self.list@.len() as int) =~= self.list@);
        self.list = kept;
    }
}

/// Which ambient particles to spawn this tick.
#[derive(Clone, Copy, Debug, PartialEq, Eq, Structural)]
pub struct AmbientPlan {
    /// An ember at a lantern near the player.
    pub ember: bool,
    /// A sparkle at a fountain near the player.
    pub fountain: bool,
    /// A leaf around the player.
    pub leaf: bool,
}

pub open spec fn spec_ambient_plan(active: bool, ambient_live: usize, region: Option<u8>, tick: u64) -> AmbientPlan {
    let none = AmbientPlan { ember: false, fountain: false, leaf: false };
    if !active || ambient_live >= AMBIENT_CAP {
        none
    } else {
        let budget = AMBIENT_CAP - ambient_live;
        match region {
            Some(1) => AmbientPlan {
                ember: tick % 18 == 0 && budget > 0,
                fountain: tick % 22 == 0 && budget > 1,
                leaf: tick % 28 == 0 && budget > 2,
            },
            Some(2) => AmbientPlan { ember: false, fountain: false, leaf: tick % 14 == 0 && budget > 0 },
            _ => none,
        }
    }
}

/// Ambient particles of the overworld: `active` when on the overworld, the
/// map is drawn from its cached chunks, and there is a player. The village
/// (region 1) has lantern embers, fountain sparkles and leaves; the grove
/// (region 2) leaves; at most `AMBIENT_CAP` ambient particles live.
pub fn ambient_plan(active: bool, ambient_live: usize, region: Option<u8>, tick: u64) -> (p: AmbientPlan)
    ensures
        p == spec_ambient_plan(active, ambient_live, region, tick),
{
    let none = AmbientPlan { ember: false, fountain: false, leaf: false };
    if !active || ambient_live >= AMBIENT_CAP {
        return none;
    }
    let budget = AMBIENT_CAP - ambient_live;
    match region {
        Some(1) => AmbientPlan { ember: tick % 18 == 0 && budget > 0, fountain: tick % 22 == 0 && budget > 1, leaf: tick % 28 == 0 && budget > 2 },
        Some(2) => AmbientPlan { ember: false, fountain: false, leaf: tick % 14 == 0 && budget > 0 },
        _ => none,
    }
}

/// The region whose tile rectangle (inclusive) holds tile `(tx, ty)`: the
/// first listed.
pub open spec fn spec_region_at(regions: Seq<(u32, u32, u32, u32)>, tx: u32, ty: u32) -> Option<u8>
    decreases regions.len(),
{
    if regions.len() == 0 {
        None
    } else {
        let r = regions.last();
        let prev = spec_region_at(regions.drop_last(), tx, ty);
        if prev is Some {
            prev
        } else if tx >= r.0 && tx <= r.2 && ty >= r.1 && ty <= r.3 {
            Some((regions.len() - 1) as u8)
        } else {
            None
        }
    }
}

pub fn region_at(regions: &Vec<(u32, u32, u32, u32)>, tx: u32, ty: u32) -> (r: Option<u8>)
    ensures
        r == spec_region_at(regions@, tx, ty),
{
    let mut i: usize = 0;
    while i < regions.len()
        invariant
            i <= regions.len(),
            spec_region_at(regions@.subrange(0, i as int), tx, ty) is None,
        decreases regions.len() - i,
    {
        let (x0, y0, x1, y1) = regions[i];
        proof {
            assert(regions@.subrange(0, i + 1).drop_last() =~= regions@.subrange(0, i as int));
        }
        if tx >= x0 && tx <= x1 && ty >= y0 && ty <= y1 {
            proof {
                lemma_region_prefix(regions@, tx, ty, i + 1);
            }
            return Some(i as u8);
        }
        i = i + 1;
    }
    assert(regions@.subrange(0, regions@.len() as int) =~= regions@);
    None
}

/// A region found in a prefix is the answer for the whole list.
proof fn lemma_region_prefix(regions: Seq<(u32, u32, u32, u32)>, tx: u32, ty: u32, k: int)
    requires
        0 < k <= regions.len(),
        spec_region_at(regions.subrange(0, k), tx, ty) is Some,
    ensures
        spec_region_at(regions, tx, ty) == spec_region_at(regions.subrange(0, k), tx, ty),
    decreases regions.len() - k,
{
    if k < regions.len() {
        assert(regions.subrange(0, k + 1).drop_last() =~= regions.subrange(0, k));
        lemma_region_prefix(regions, tx, ty, k + 1);
    } else {
        assert(regions.subrange(0, k) =~= regions);
    }
}

} // verus!
