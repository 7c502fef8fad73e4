//! Granite Warden fight: crystal prime, gale, core windows, three phases.

use vstd::prelude::*;
use crate::cue::Sfx;
use crate::tuning::HITSTOP_BOSS_BREAK;

verus! {

#[derive(Clone, Copy, Debug, PartialEq, Eq, Structural)]
pub enum WardenPhase {
    One,
    Two,
    Three,
}

#[derive(Clone, Copy, Debug, PartialEq, Eq, Structural)]
pub enum WardenAttack {
    Idle,
    SlamTele,
    Slam,
    RockFanTele,
    RockFan,
    SweepTele,
    Sweep,
    FakeFlash,
    Collapse,
}

/// The Warden's fight state (hit points are kept by the front end).
#[derive(Clone, Copy, Debug, PartialEq, Eq, Structural)]
pub struct WardenData {
    pub phase: WardenPhase,
    pub attack: WardenAttack,
    pub timer: u16,
    pub core_exposed: u16,
    pub fake_armed: bool,
}

/// Fight timings that the arena is tuned with.
#[derive(Clone, Copy, Debug)]
pub struct WardenTuning {
    pub slam_tele: u16,
    pub sweep_tele: u16,
    pub prime_window: u16,
    pub prime_window_p2: u16,
    pub core_expose: u16,
}

/// What a phase break asks of the world.
pub struct PhaseBreak {
    pub hitstop: u8,
    /// The arena shakes for this many ticks.
    pub shake_ticks: u8,
    /// A kill poof bursts at the Warden's centre.
    pub poof: bool,
    pub anim_frame: u16,
    pub toast: &'static str,
    pub sounds: Vec<Sfx>,
}

/// The Warden just after breaking into phase `next`.
pub open spec fn spec_phase_broken(d: WardenData, next: WardenPhase) -> WardenData {
    WardenData {
        phase: next,
        attack: WardenAttack::Idle,
        timer: 90,
        core_exposed: 0,
        fake_armed: false,
    }
}

/// The phase the Warden's hit points put it in: three at or below
/// `phase3_hp`, else two at or below `phase2_hp`, else one.
pub open spec fn spec_warden_phase(hp: i32, phase2_hp: i32, phase3_hp: i32) -> WardenPhase {
    if hp <= phase3_hp {
        WardenPhase::Three
    } else if hp <= phase2_hp {
        WardenPhase::Two
    } else {
        WardenPhase::One
    }
}

/// The phase for the Warden's hit points after a hit (the `next` of
/// `on_damaged`), from the phase thresholds the tuning supplies.
pub fn warden_phase(hp: i32, phase2_hp: i32, phase3_hp: i32) -> (p: WardenPhase)
    ensures
        p == spec_warden_phase(hp, phase2_hp, phase3_hp),
{
    if hp <= phase3_hp {
        WardenPhase::Three
    } else if hp <= phase2_hp {
        WardenPhase::Two
    } else {
        WardenPhase::One
    }
}

/// After damage: when the hit points crossed into another phase (`next`),
/// the Warden breaks: attacks reset, core closes, the arena shakes.
pub fn on_damaged(d: &mut WardenData, next: WardenPhase) -> (r: Option<PhaseBreak>)
    ensures
        next == old(d).phase ==> r is None && *final(d) == *old(d),
        next != old(d).phase ==> {
            &&& *final(d) == spec_phase_broken(*old(d), next)
            &&& r matches Some(b) && b.hitstop == HITSTOP_BOSS_BREAK && b.anim_frame == 2
                && b.shake_ticks == 18 && b.poof
                && b.toast == "PHASE BREAK"
                && b.sounds@ == seq![Sfx::PhaseBreak, Sfx::WardenRoar]
        },
{
    if next == d.phase {
        return None;
    }
    d.phase = next;
    d.attack = WardenAttack::Idle;
    d.timer = 90;
    d.core_exposed = 0;
    d.fake_armed = false;
    let sounds = vec![Sfx::PhaseBreak, Sfx::WardenRoar];
    Some(PhaseBreak { hitstop: HITSTOP_BOSS_BREAK, shake_ticks: 18, poof: true, anim_frame: 2, toast: "PHASE BREAK", sounds })
}

/// One AI tick's requests.
pub struct WardenAi {
    pub anim_frame: Option<u16>,
    pub sound: Option<Sfx>,
    pub slam: bool,
    pub rocks: u8,
    pub sweep: bool,
    pub spawn_pebbles: bool,
}

/// The attack picked when the idle timer runs out: a rotation over
/// `(world_tick / 17) % 3`, with the sweep only from phase two.
pub open spec fn spec_pick_attack(phase: WardenPhase, world_tick: u64) -> WardenAttack {
    let slot = (world_tick / 17) % 3;
    match phase {
        WardenPhase::One => if slot == 1 { WardenAttack::RockFanTele } else { WardenAttack::SlamTele },
        _ => if slot == 0 {
            WardenAttack::SlamTele
        } else if slot == 1 {
            WardenAttack::SweepTele
        } else {
            WardenAttack::RockFanTele
        },
    }
}

pub open spec fn spec_sat_inc(t: u16) -> u16 {
    if t < u16::MAX { (t + 1) as u16 } else { t }
}

/// Next `(attack, timer)` of the attack cycle, not staggered.
pub open spec fn spec_warden_next(d: WardenData, tun: WardenTuning, world_tick: u64) -> (WardenAttack, u16) {
    let t = spec_sat_inc(d.timer);
    match d.attack {
        WardenAttack::Idle => if t >= 90 { (spec_pick_attack(d.phase, world_tick), 0) } else { (d.attack, t) },
        WardenAttack::SlamTele => if t >= tun.slam_tele { (WardenAttack::Slam, 0) } else { (d.attack, t) },
        WardenAttack::Slam => if t >= 20 { (WardenAttack::Idle, 0) } else { (d.attack, t) },
        WardenAttack::RockFanTele => if t >= 30 { (WardenAttack::RockFan, 0) } else { (d.attack, t) },
        WardenAttack::RockFan => if t >= 16 { (WardenAttack::Idle, 0) } else { (d.attack, t) },
        WardenAttack::SweepTele => if t >= tun.sweep_tele { (WardenAttack::Sweep, 0) } else { (d.attack, t) },
        WardenAttack::Sweep => if t >= 18 { (WardenAttack::Idle, 0) } else { (d.attack, t) },
        WardenAttack::FakeFlash => if t >= 70 {
            (WardenAttack::SlamTele, if tun.slam_tele >= 12 { (tun.slam_tele - 12) as u16 } else { 0 })
        } else {
            (d.attack, t)
        },
        WardenAttack::Collapse => (d.attack, t),
    }
}

/// Sprite frame for the attack the Warden moves into.
pub open spec fn spec_warden_frame(next: WardenAttack, exposed: u16) -> u16 {
    match next {
        WardenAttack::SlamTele | WardenAttack::SweepTele | WardenAttack::RockFanTele => 2,
        WardenAttack::FakeFlash => 1,
        _ => if exposed > 0 { 1 } else { 0 },
    }
}

/// Whether the Warden is stunned by an open core (a false core does not stun).
pub open spec fn spec_staggered(d: WardenData) -> bool {
    d.core_exposed > 0 && d.attack != WardenAttack::FakeFlash
}

/// One tick of the Warden's attack cycle, from `d` to `d2` with the
/// requests `ai`: no attack while the real core is open, else the cycle's
/// next step with its frame, sound and attack payloads.
pub open spec fn ai_step(d: WardenData, tun: WardenTuning, world_tick: u64, d2: WardenData, ai: WardenAi) -> bool {
    &&& (spec_staggered(d) ==> {
            &&& d2 == (WardenData { timer: spec_sat_inc(d.timer), ..d })
            &&& ai.anim_frame is None && ai.sound is None
            &&& !ai.slam && ai.rocks == 0 && !ai.sweep && !ai.spawn_pebbles
        })
    &&& (!spec_staggered(d) ==> ({
            let (na, nt) = spec_warden_next(d, tun, world_tick);
            let t = spec_sat_inc(d.timer);
            &&& d2 == (WardenData { attack: na, timer: nt, ..d })
            &&& ai.anim_frame == Some(spec_warden_frame(na, d.core_exposed))
            &&& ai.sound == if d.attack == WardenAttack::Idle && na != WardenAttack::Idle {
                Some(if na == WardenAttack::SlamTele {
                    Sfx::WardenRoar
                } else if na == WardenAttack::SweepTele {
                    Sfx::WardenSweep
                } else {
                    Sfx::RockFan
                })
            } else if d.attack == WardenAttack::SlamTele && na == WardenAttack::Slam {
                Some(Sfx::WardenSlam)
            } else if d.attack == WardenAttack::SweepTele && na == WardenAttack::Sweep {
                Some(Sfx::WardenSweep)
            } else {
                None
            }
            &&& ai.slam == (d.attack == WardenAttack::Slam && t == 1)
            &&& ai.spawn_pebbles == (ai.slam && d.phase != WardenPhase::One)
            &&& ai.rocks == if d.attack == WardenAttack::RockFan && t == 1 {
                if d.phase == WardenPhase::Three { 5u8 } else { 3u8 }
            } else {
                0u8
            }
            &&& ai.sweep == (d.attack == WardenAttack::Sweep && t == 1)
        }))
}

/// The Warden's attack rotation: after its idle wait it always winds up a
/// telegraphed attack (never strikes unannounced); in phase one it never
/// sweeps; its open core stops every attack; and each strike (slam, rock
/// fan, sweep) happens on the first tick of its attack only.
pub proof fn lemma_warden_rotation(d: WardenData, tun: WardenTuning, world_tick: u64, d2: WardenData, ai: WardenAi)
    requires
        ai_step(d, tun, world_tick, d2, ai),
    ensures
        d.phase == WardenPhase::One ==> spec_pick_attack(d.phase, world_tick) != WardenAttack::SweepTele,
        spec_pick_attack(d.phase, world_tick) == WardenAttack::SlamTele
            || spec_pick_attack(d.phase, world_tick) == WardenAttack::SweepTele
            || spec_pick_attack(d.phase, world_tick) == WardenAttack::RockFanTele,
        spec_staggered(d) ==> !ai.slam && !ai.sweep && ai.rocks == 0 && d2.attack == d.attack,
        ai.slam ==> d.attack == WardenAttack::Slam,
        ai.sweep ==> d.attack == WardenAttack::Sweep,
        ai.rocks > 0 ==> d.attack == WardenAttack::RockFan,
        d.phase == WardenPhase::One ==> !ai.spawn_pebbles,
{
}

/// One tick of the Warden's attack cycle (`tick_warden_ai`): telegraphs,
/// slams, rock fans and sweeps, and no attack while the real core is open.
pub fn tick_warden_ai(d: &mut WardenData, tun: WardenTuning, world_tick: u64) -> (ai: WardenAi)
    ensures
        ai_step(*old(d), tun, world_tick, *final(d), ai),
{
    let mut ai = WardenAi {
        anim_frame: None,
        sound: None,
        slam: false,
        rocks: 0,
        sweep: false,
        spawn_pebbles: false,
    };
    if d.core_exposed > 0 && d.attack != WardenAttack::FakeFlash {
        d.timer = d.timer.saturating_add(1);
        return ai;
    }
    let phase = d.phase;
    let mut next_attack = d.attack;
    let mut next_timer = d.timer.saturating_add(1);
    match d.attack {
        WardenAttack::Idle => {
            if next_timer >= 90 {
                next_timer = 0;
                let slot = (world_tick / 17) % 3;
                next_attack = match phase {
                    WardenPhase::One => if slot == 1 { WardenAttack::RockFanTele } else { WardenAttack::SlamTele },
                    _ => if slot == 0 {
                        WardenAttack::SlamTele
                    } else if slot == 1 {
                        WardenAttack::SweepTele
                    } else {
                        WardenAttack::RockFanTele
                    },
                };
                ai.sound = Some(if next_attack == WardenAttack::SlamTele {
                    Sfx::WardenRoar
                } else if next_attack == WardenAttack::SweepTele {
                    Sfx::WardenSweep
                } else {
                    Sfx::RockFan
                });
            }
        },
        WardenAttack::SlamTele => {
            if next_timer >= tun.slam_tele {
                next_attack = WardenAttack::Slam;
                next_timer = 0;
                ai.sound = Some(Sfx::WardenSlam);
            }
        },
        WardenAttack::Slam => {
            if next_timer == 1 {
                ai.slam = true;
                if phase != WardenPhase::One {
                    ai.spawn_pebbles = true;
                }
            }
            if next_timer >= 20 {
                next_attack = WardenAttack::Idle;
                next_timer = 0;
            }
        },
        WardenAttack::RockFanTele => {
            if next_timer >= 30 {
                next_attack = WardenAttack::RockFan;
                next_timer = 0;
            }
        },
        WardenAttack::RockFan => {
            if next_timer == 1 {
                ai.rocks = if phase == WardenPhase::Three { 5 } else { 3 };
            }
            if next_timer >= 16 {
                next_attack = WardenAttack::Idle;
                next_timer = 0;
            }
        },
        WardenAttack::SweepTele => {
            if next_timer >= tun.sweep_tele {
                next_attack = WardenAttack::Sweep;
                next_timer = 0;
                ai.sound = Some(Sfx::WardenSweep);
            }
        },
        WardenAttack::Sweep => {
            if next_timer == 1 {
                ai.sweep = true;
            }
            if next_timer >= 18 {
                next_attack = WardenAttack::Idle;
                next_timer = 0;
            }
        },
        WardenAttack::FakeFlash => {
            if next_timer >= 70 {
                next_attack = WardenAttack::SlamTele;
                next_timer = tun.slam_tele.saturating_sub(12);
            }
        },
        WardenAttack::Collapse => {},
    }
    ai.anim_frame = Some(match next_attack {
        WardenAttack::SlamTele | WardenAttack::SweepTele | WardenAttack::RockFanTele => 2,
        WardenAttack::FakeFlash => 1,
        _ => if d.core_exposed > 0 { 1 } else { 0 },
    });
    d.attack = next_attack;
    d.timer = next_timer;
    ai
}


/// A wind crystal's prime state (its position is kept by the front end).
#[derive(Clone, Copy, Debug, PartialEq, Eq, Structural)]
pub struct CrystalState {
    pub perch: u8,
    pub primed: u16,
    pub throw_id_seen: u32,
}

/// Prime window for a phase.
pub open spec fn spec_prime_window(phase: WardenPhase, tun: WardenTuning) -> u16 {
    if phase == WardenPhase::One { tun.prime_window } else { tun.prime_window_p2 }
}

/// First throw in `near` other than the one the crystal has already seen.
pub open spec fn spec_first_new_throw(near: Seq<u32>, seen: u32) -> Option<u32>
    decreases near.len(),
{
    if near.len() == 0 {
        None
    } else if near[0] != seen {
        Some(near[0])
    } else {
        spec_first_new_throw(near.drop_first(), seen)
    }
}

/// One crystal tick: the prime window counts down; a boomerang throw within
/// reach (`near_throws`, throw ids in reach order) that the crystal has not
/// seen yet primes it for the phase's window. Returns whether it was primed
/// this tick.
pub fn update_crystal(c: &mut CrystalState, phase: WardenPhase, tun: WardenTuning,
    near_throws: &Vec<u32>) -> (primed_now: bool)
    ensures
        primed_now == spec_first_new_throw(near_throws@, old(c).throw_id_seen) is Some,
        match spec_first_new_throw(near_throws@, old(c).throw_id_seen) {
            Some(tid) => *final(c) == (CrystalState {
                primed: spec_prime_window(phase, tun),
                throw_id_seen: tid,
                ..*old(c)
            }),
            None => *final(c) == (CrystalState {
                primed: if old(c).primed > 0 { (old(c).primed - 1) as u16 } else { 0 },
                ..*old(c)
            }),
        },
{
    if c.primed > 0 {
        c.primed = c.primed - 1;
    }
    let mut i: usize = 0;
    assert(near_throws@.skip(0) =~= near_throws@);
    while i < near_throws.len()
        invariant
            i <= near_throws.len(),
            spec_first_new_throw(near_throws@, old(c).throw_id_seen)
                == spec_first_new_throw(near_throws@.skip(i as int), old(c).throw_id_seen),
            *c == (CrystalState {
                primed: if old(c).primed > 0 { (old(c).primed - 1) as u16 } else { 0 },
                ..*old(c)
            }),
        decreases near_throws.len() - i,
    {
        let tid = near_throws[i];
        proof {
            assert(near_throws@.skip(i as int).drop_first() =~= near_throws@.skip(i + 1));
        }
        if tid != c.throw_id_seen {
            c.primed = if phase == WardenPhase::One { tun.prime_window } else { tun.prime_window_p2 };
            c.throw_id_seen = tid;
            return true;
        }
        i = i + 1;
    }
    proof {
        assert(near_throws@.skip(i as int) =~= Seq::<u32>::empty());
    }
    false
}

/// What a gale asks of the world.
pub struct Gale {
    pub hitstop: u8,
    pub toast: &'static str,
    pub sounds: Vec<Sfx>,
}

/// Both crystals primed at once blow a gale: primes clear, the core opens
/// for `core_expose` ticks, a false core is armed; in phase three the
/// crystals swap perches.
pub fn maybe_gale(crystals: &mut [CrystalState; 2], d: &mut WardenData, tun: WardenTuning) -> (g: Option<Gale>)
    requires
        old(crystals)@[0].perch <= 1,
        old(crystals)@[1].perch <= 1,
    ensures
        g is Some <==> (old(crystals)@[0].primed > 0 && old(crystals)@[1].primed > 0),
        g is None ==> *final(d) == *old(d) && final(crystals)@ == old(crystals)@,
        g is Some ==> {
            &&& *final(d) == (WardenData {
                core_exposed: tun.core_expose,
                fake_armed: true,
                attack: WardenAttack::Idle,
                timer: 40,
                ..*old(d)
            })
            &&& forall|i: int| 0 <= i < 2 ==> #[trigger] final(crystals)@[i] == (CrystalState {
                primed: 0,
                perch: if old(d).phase == WardenPhase::Three {
                    (1 - old(crystals)@[i].perch) as u8
                } else {
                    old(crystals)@[i].perch
                },
                ..old(crystals)@[i]
            })
        },
        g matches Some(gale) ==> gale.hitstop == 6 && gale.toast == "GALE!" && gale.sounds@ == if old(
            d,
        ).phase == WardenPhase::Three {
            seq![Sfx::GaleStagger, Sfx::CrystalAmber]
        } else {
            seq![Sfx::GaleStagger]
        },
{
    if !(crystals[0].primed > 0 && crystals[1].primed > 0) {
        return None;
    }
    let swap = d.phase == WardenPhase::Three;
    let mut i: usize = 0;
    while i < 2
        invariant
            0 <= i <= 2,
            d == old(d),
            forall|j: int| 0 <= j < 2 ==> #[trigger] old(crystals)@[j].perch <= 1,
            forall|j: int| 0 <= j < i ==> #[trigger] crystals@[j] == (CrystalState {
                primed: 0,
                perch: if swap { (1 - old(crystals)@[j].perch) as u8 } else { old(crystals)@[j].perch },
                ..old(crystals)@[j]
            }),
            forall|j: int| i <= j < 2 ==> #[trigger] crystals@[j] == old(crystals)@[j],
        decreases 2 - i,
    {
        let mut c = crystals[i];
        c.primed = 0;
        if swap {
            c.perch = 1 - c.perch;
        }
        crystals[i] = c;
        i = i + 1;
    }
    d.core_exposed = tun.core_expose;
    d.fake_armed = true;
    d.attack = WardenAttack::Idle;
    d.timer = 40;
    let mut sounds = vec![Sfx::GaleStagger];
    if swap {
        sounds.push(Sfx::CrystalAmber);
    }
    Some(Gale { hitstop: 6, toast: "GALE!", sounds })
}

/// The open core closes after its window; returns the sprite frame to show
/// while it counts (1 glowing, 0 once closed).
pub fn tick_core_timer(d: &mut WardenData) -> (frame: Option<u16>)
    ensures
        old(d).core_exposed == 0 ==> frame is None && *final(d) == *old(d),
        old(d).core_exposed > 0 ==> {
            &&& *final(d) == (WardenData { core_exposed: (old(d).core_exposed - 1) as u16, ..*old(d) })
            &&& frame == Some(if final(d).core_exposed == 0 { 0u16 } else { 1u16 })
        },
{
    if d.core_exposed > 0 {
        d.core_exposed = d.core_exposed - 1;
        if d.core_exposed == 0 { Some(0) } else { Some(1) }
    } else {
        None
    }
}

/// Phase three only: once per gale, 75 ticks into an idle the Warden fakes
/// a core glint (a trap that a slam answers). Returns whether it fired.
pub fn tick_fake_flash(d: &mut WardenData) -> (fired: bool)
    ensures
        fired == (old(d).phase == WardenPhase::Three && old(d).fake_armed && old(d).core_exposed == 0
            && old(d).attack == WardenAttack::Idle && old(d).timer == 75),
        fired ==> *final(d) == (WardenData {
            attack: WardenAttack::FakeFlash,
            timer: 0,
            fake_armed: false,
            ..*old(d)
        }),
        !fired ==> *final(d) == *old(d),
{
    if d.phase != WardenPhase::Three || !d.fake_armed || d.core_exposed > 0 {
        return false;
    }
    if d.attack == WardenAttack::Idle && d.timer == 75 {
        d.attack = WardenAttack::FakeFlash;
        d.timer = 0;
        d.fake_armed = false;
        return true;
    }
    false
}

} // verus!
