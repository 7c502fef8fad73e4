//! Style / momentum ranks: an economy meter only, it never changes damage.

use vstd::prelude::*;
use crate::cue::{Cue, Sfx};
use crate::player::PlayerData;
use crate::tuning::{
    DASH_ENERGY, DASH_ENERGY_A_PLUS, STYLE_A, STYLE_B, STYLE_C, STYLE_DECAY_INTERVAL, STYLE_MAX,
    STYLE_OUT_OF_COMBAT, STYLE_S, STYLE_STREAK_INTERVAL, STYLE_UNIT, STYLE_VERB_WINDOW,
};

verus! {

/// Actions that earn style.
#[derive(Clone, Copy, Debug, PartialEq, Eq, Structural)]
pub enum StyleVerb {
    Slash,
    Finisher,
    ChargeSpin,
    DashThrough,
    PerfectBlock,
    BoomerangStun,
}

pub open spec fn spec_verb_index(v: StyleVerb) -> int {
    match v {
        StyleVerb::Slash => 0,
        StyleVerb::Finisher => 1,
        StyleVerb::ChargeSpin => 2,
        StyleVerb::DashThrough => 3,
        StyleVerb::PerfectBlock => 4,
        StyleVerb::BoomerangStun => 5,
    }
}

/// Whole style points that a verb is worth before decay.
pub open spec fn spec_base_points(v: StyleVerb) -> int {
    match v {
        StyleVerb::Slash => 6,
        StyleVerb::Finisher => 14,
        StyleVerb::ChargeSpin => 16,
        StyleVerb::DashThrough => 10,
        StyleVerb::PerfectBlock => 12,
        StyleVerb::BoomerangStun => 10,
    }
}

impl StyleVerb {
    /// Slot of this verb in `verb_cooldowns`.
    pub fn index(self) -> (r: usize)
        ensures
            r == spec_verb_index(self),
            r < 6,
    {
        match self {
            StyleVerb::Slash => 0,
            StyleVerb::Finisher => 1,
            StyleVerb::ChargeSpin => 2,
            StyleVerb::DashThrough => 3,
            StyleVerb::PerfectBlock => 4,
            StyleVerb::BoomerangStun => 5,
        }
    }

    /// Whole points the verb is worth before repetition decay.
    pub fn base_points(self) -> (r: u32)
        ensures
            r == spec_base_points(self),
    {
        match self {
            StyleVerb::Slash => 6,
            StyleVerb::Finisher => 14,
            StyleVerb::ChargeSpin => 16,
            StyleVerb::DashThrough => 10,
            StyleVerb::PerfectBlock => 12,
            StyleVerb::BoomerangStun => 10,
        }
    }
}

/// Rank (0 = D .. 4 = S) for a meter value.
pub open spec fn spec_rank_from_points(p: int) -> int {
    if p >= STYLE_S {
        4
    } else if p >= STYLE_A {
        3
    } else if p >= STYLE_B {
        2
    } else if p >= STYLE_C {
        1
    } else {
        0
    }
}

/// Lowest meter value of a rank.
pub open spec fn spec_rank_floor(rank: int) -> int {
    if rank <= 0 {
        0
    } else if rank == 1 {
        STYLE_C as int
    } else if rank == 2 {
        STYLE_B as int
    } else if rank == 3 {
        STYLE_A as int
    } else {
        STYLE_S as int
    }
}

pub fn rank_from_points(p: u32) -> (r: u8)
    ensures
        r == spec_rank_from_points(p as int),
{
    if p >= STYLE_S {
        4
    } else if p >= STYLE_A {
        3
    } else if p >= STYLE_B {
        2
    } else if p >= STYLE_C {
        1
    } else {
        0
    }
}

/// The ranks band the meter: a meter reading `p` has the rank whose floor
/// is at most `p` and whose next floor (if any) is above it, and a fuller
/// meter never has a lower rank.
pub proof fn lemma_rank_bands(p: int, q: int)
    requires
        0 <= p <= q,
    ensures
        0 <= spec_rank_from_points(p) <= 4,
        spec_rank_floor(spec_rank_from_points(p)) <= p,
        spec_rank_from_points(p) < 4 ==> p < spec_rank_floor(spec_rank_from_points(p) + 1),
        spec_rank_from_points(p) <= spec_rank_from_points(q),
{
}

/// Letter shown on the HUD for a rank.
pub fn rank_letter(rank: u8) -> (r: &'static str)
    ensures
        rank == 0 ==> r == "D",
        rank == 1 ==> r == "C",
        rank == 2 ==> r == "B",
        rank == 3 ==> r == "A",
        rank >= 4 ==> r == "S",
{
    match rank {
        0 => "D",
        1 => "C",
        2 => "B",
        3 => "A",
        _ => "S",
    }
}

pub fn rank_floor(rank: u8) -> (r: u32)
    ensures
        r == spec_rank_floor(rank as int),
{
    match rank {
        0 => 0,
        1 => STYLE_C,
        2 => STYLE_B,
        3 => STYLE_A,
        _ => STYLE_S,
    }
}

/// Meter gain of a verb whose cooldown slot reads `cd`: full value when the
/// slot is idle, otherwise scaled by `1 - cd/180`, never below a quarter.
pub open spec fn spec_verb_gain(base: int, cd: int) -> int {
    if cd == 0 {
        base * STYLE_VERB_WINDOW
    } else if STYLE_VERB_WINDOW - cd >= 45 {
        base * (STYLE_VERB_WINDOW - cd)
    } else {
        base * 45
    }
}

pub open spec fn spec_min(a: int, b: int) -> int {
    if a <= b { a } else { b }
}

/// The two cues of a rank change.
pub open spec fn spec_rank_change_cues(up: bool) -> Seq<Cue> {
    if up {
        seq![Cue::Toast("RANK UP"), Cue::Sound(Sfx::RankUp)]
    } else {
        seq![Cue::Toast("RANK DOWN"), Cue::Sound(Sfx::RankDown)]
    }
}

/// What `sync_rank` leaves and emits, given the meter before it runs.
pub open spec fn synced(before: PlayerData, after: PlayerData, cues: Seq<Cue>) -> bool {
    let next = spec_rank_from_points(before.style_points as int);
    if next == before.style_rank {
        &&& after == before
        &&& cues.len() == 0
    } else {
        &&& after == (PlayerData { style_rank: next as u8, style_pulse: 14, ..before })
        &&& cues == spec_rank_change_cues(next > before.style_rank)
    }
}

fn sync_rank(pd: &mut PlayerData) -> (cues: Vec<Cue>)
    ensures
        synced(*old(pd), *final(pd), cues@),
{
    let next = rank_from_points(pd.style_points);
    if next == pd.style_rank {
        return Vec::new();
    }
    let up = next > pd.style_rank;
    pd.style_rank = next;
    pd.style_pulse = 14;
    if up {
        vec![Cue::Toast("RANK UP"), Cue::Sound(Sfx::RankUp)]
    } else {
        vec![Cue::Toast("RANK DOWN"), Cue::Sound(Sfx::RankDown)]
    }
}


/// The style meter is within its cap and the rank is the rank of the meter.
pub open spec fn style_consistent(pd: PlayerData) -> bool {
    &&& pd.style_points <= STYLE_MAX
    &&& pd.style_rank == spec_rank_from_points(pd.style_points as int)
}

/// A rank's floor is a meter value of exactly that rank.
pub proof fn lemma_rank_of_floor(rank: int)
    requires
        0 <= rank <= 4,
    ensures
        spec_rank_from_points(spec_rank_floor(rank)) == rank,
{
}

/// Meter value after crediting a verb (capped at `STYLE_MAX`).
pub open spec fn spec_points_after_verb(pd: PlayerData, v: StyleVerb) -> int {
    let cd = pd.verb_cooldowns@[spec_verb_index(v)];
    spec_min(pd.style_points + spec_verb_gain(spec_base_points(v), cd as int), STYLE_MAX as int)
}

/// The decay of a repeated verb: its gain is its base worth times
/// `180 - cd` ticks' worth, that is `1 - cd/180` of the full value, kept
/// between a quarter (45) and the whole (180); an idle slot (`cd == 0`)
/// pays in full. The meter then stops at `STYLE_MAX`.
pub proof fn lemma_verb_decay(pd: PlayerData, v: StyleVerb)
    ensures
        ({
            let cd = pd.verb_cooldowns@[spec_verb_index(v)] as int;
            let worth = if 180 - cd > 180 { 180 } else if 180 - cd < 45 { 45 } else { 180 - cd };
            let earned = pd.style_points + spec_base_points(v) * worth;
            &&& spec_points_after_verb(pd, v) == if earned <= STYLE_MAX { earned } else { STYLE_MAX as int }
            &&& (0 < cd <= 135 ==> worth == 180 - cd)
        }),
{
}

/// Repeating a verb sooner pays less: from the same meter, clear of its
/// cap, a verb whose slot reads `cd1` earns strictly more than the same
/// verb whose slot reads a later `cd2`, over the decaying range up to 135
/// ticks.
pub proof fn lemma_verb_decay_strict(p1: PlayerData, p2: PlayerData, v: StyleVerb)
    requires
        p1.style_points == p2.style_points,
        p1.style_points + spec_base_points(v) * 180 <= STYLE_MAX,
        0 <= p1.verb_cooldowns@[spec_verb_index(v)] < p2.verb_cooldowns@[spec_verb_index(v)] <= 135,
    ensures
        spec_points_after_verb(p1, v) > spec_points_after_verb(p2, v),
{
}

/// Apply a style verb; returns the cues to play after the player borrow ends.
pub fn apply_verb(pd: &mut PlayerData, verb: StyleVerb) -> (cues: Vec<Cue>)
    ensures
        final(pd).verb_cooldowns@ == old(pd).verb_cooldowns@.update(
            spec_verb_index(verb),
            STYLE_VERB_WINDOW,
        ),
        synced(
            (PlayerData {
                style_points: spec_points_after_verb(*old(pd), verb) as u32,
                verb_cooldowns: final(pd).verb_cooldowns,
                combat_timer: STYLE_OUT_OF_COMBAT,
                out_of_combat: 0,
                ..*old(pd)
            }),
            *final(pd),
            cues@,
        ),
        final(pd).style_points == spec_points_after_verb(*old(pd), verb),
        style_consistent(*old(pd)) ==> style_consistent(*final(pd)),
        style_consistent(*old(pd)) ==> final(pd).style_rank >= old(pd).style_rank,
{
    let idx = verb.index();
    let cd = pd.verb_cooldowns[idx];
    let base = verb.base_points() as u64;
    let gain: u64 = if cd == 0 {
        base * STYLE_VERB_WINDOW as u64
    } else if STYLE_VERB_WINDOW >= cd && STYLE_VERB_WINDOW - cd >= 45 {
        base * (STYLE_VERB_WINDOW - cd) as u64
    } else {
        base * 45
    };
    let sum = pd.style_points as u64 + gain;
    pd.style_points = if sum <= STYLE_MAX as u64 { sum as u32 } else { STYLE_MAX };
    pd.verb_cooldowns[idx] = STYLE_VERB_WINDOW;
    pd.combat_timer = STYLE_OUT_OF_COMBAT;
    pd.out_of_combat = 0;
    sync_rank(pd)
}

/// Taking a hit drops one rank (to that rank's floor) and breaks the streak.
pub fn on_player_damaged(pd: &mut PlayerData) -> (cues: Vec<Cue>)
    ensures
        old(pd).style_rank > 0 ==> {
            &&& *final(pd) == (PlayerData {
                no_dmg_streak: 0,
                style_rank: (old(pd).style_rank - 1) as u8,
                style_points: spec_rank_floor(old(pd).style_rank - 1) as u32,
                style_pulse: 12,
                ..*old(pd)
            })
            &&& cues@ == spec_rank_change_cues(false)
        },
        old(pd).style_rank == 0 ==> {
            &&& *final(pd) == (PlayerData { no_dmg_streak: 0, ..*old(pd) })
            &&& cues@.len() == 0
        },
        style_consistent(*old(pd)) ==> style_consistent(*final(pd)),
{
    proof {
        if old(pd).style_rank > 0 && old(pd).style_rank <= 4 {
            lemma_rank_of_floor(old(pd).style_rank - 1);
        }
    }
    pd.no_dmg_streak = 0;
    let mut ev = Vec::new();
    if pd.style_rank > 0 {
        pd.style_rank = pd.style_rank - 1;
        pd.style_points = rank_floor(pd.style_rank);
        pd.style_pulse = 12;
        ev.push(Cue::Toast("RANK DOWN"));
        ev.push(Cue::Sound(Sfx::RankDown));
    }
    ev
}

/// Meter state after the timer part of a style tick, before the rank sync.
/// Returns `(state, sync)`; the rank is re-synced only when `sync` holds.
pub open spec fn spec_style_timers(pd: PlayerData, cds: [u16; 6]) -> (PlayerData, bool) {
    let pulse = if pd.style_pulse > 0 { (pd.style_pulse - 1) as u8 } else { pd.style_pulse };
    if pd.combat_timer > 0 {
        let streak = if pd.no_dmg_streak < u16::MAX { (pd.no_dmg_streak + 1) as u16 } else { pd.no_dmg_streak };
        let bump = streak > 0 && streak % STYLE_STREAK_INTERVAL == 0;
        let pts = if bump { spec_min(pd.style_points + STYLE_UNIT, STYLE_MAX as int) } else { pd.style_points as int };
        (PlayerData {
            verb_cooldowns: cds,
            style_pulse: pulse,
            combat_timer: (pd.combat_timer - 1) as u16,
            out_of_combat: 0,
            no_dmg_streak: streak,
            style_points: pts as u32,
            ..pd
        }, bump)
    } else {
        let ooc = if pd.out_of_combat < u16::MAX { (pd.out_of_combat + 1) as u16 } else { pd.out_of_combat };
        let drop = ooc >= STYLE_OUT_OF_COMBAT && ooc % STYLE_DECAY_INTERVAL == 0;
        let pts = if drop {
            if pd.style_points >= STYLE_UNIT { pd.style_points - STYLE_UNIT } else { 0 }
        } else {
            pd.style_points as int
        };
        (PlayerData {
            verb_cooldowns: cds,
            style_pulse: pulse,
            out_of_combat: ooc,
            style_points: pts as u32,
            ..pd
        }, drop)
    }
}

/// Per-tick style update: cooldown slots count down, the no-damage streak
/// earns a point every `STYLE_STREAK_INTERVAL` ticks in combat, and the
/// meter loses a point every `STYLE_DECAY_INTERVAL` ticks once out of combat.
pub fn tick(pd: &mut PlayerData) -> (cues: Vec<Cue>)
    ensures
        forall|i: int| 0 <= i < 6 ==> #[trigger] final(pd).verb_cooldowns@[i] == if old(pd).verb_cooldowns@[i] > 0 {
            old(pd).verb_cooldowns@[i] - 1
        } else {
            0
        },
        ({
            let (mid, sync) = spec_style_timers(*old(pd), final(pd).verb_cooldowns);
            if sync {
                synced(mid, *final(pd), cues@)
            } else {
                *final(pd) == mid && cues@.len() == 0
            }
        }),
        style_consistent(*old(pd)) ==> style_consistent(*final(pd)),
{
    let mut i: usize = 0;
    while i < 6
        invariant
            0 <= i <= 6,
            forall|j: int| 0 <= j < i ==> #[trigger] pd.verb_cooldowns@[j] == if old(pd).verb_cooldowns@[j] > 0 {
                old(pd).verb_cooldowns@[j] - 1
            } else {
                0
            },
            forall|j: int| i <= j < 6 ==> #[trigger] pd.verb_cooldowns@[j] == old(pd).verb_cooldowns@[j],
            *pd == (PlayerData { verb_cooldowns: pd.verb_cooldowns, ..*old(pd) }),
        decreases 6 - i,
    {
        let cd = pd.verb_cooldowns[i];
        let next = if cd > 0 { cd - 1 } else { 0 };
        pd.verb_cooldowns[i] = next;
        i = i + 1;
    }
    if pd.style_pulse > 0 {
        pd.style_pulse = pd.style_pulse - 1;
    }
    if pd.combat_timer > 0 {
        pd.combat_timer = pd.combat_timer - 1;
        pd.out_of_combat = 0;
        pd.no_dmg_streak = pd.no_dmg_streak.saturating_add(1);
        if pd.no_dmg_streak > 0 && pd.no_dmg_streak % STYLE_STREAK_INTERVAL == 0 {
            let sum = pd.style_points as u64 + STYLE_UNIT as u64;
            pd.style_points = if sum <= STYLE_MAX as u64 { sum as u32 } else { STYLE_MAX };
            return sync_rank(pd);
        }
    } else {
        pd.out_of_combat = pd.out_of_combat.saturating_add(1);
        if pd.out_of_combat >= STYLE_OUT_OF_COMBAT && pd.out_of_combat % STYLE_DECAY_INTERVAL == 0 {
            pd.style_points = if pd.style_points >= STYLE_UNIT { pd.style_points - STYLE_UNIT } else { 0 };
            return sync_rank(pd);
        }
    }
    Vec::new()
}

/// Dash cost in tenths of energy: cheaper from rank A up.
pub fn dash_energy_cost(pd: &PlayerData) -> (r: u32)
    ensures
        r == if pd.style_rank >= 3 { DASH_ENERGY_A_PLUS } else { DASH_ENERGY },
{
    if pd.style_rank >= 3 {
        DASH_ENERGY_A_PLUS
    } else {
        DASH_ENERGY
    }
}

/// Energy regeneration multiplier, in tenths (x1.5 from rank B up).
pub fn energy_regen_mult(pd: &PlayerData) -> (r: u32)
    ensures
        r == if pd.style_rank >= 2 { 15u32 } else { 10u32 },
{
    if pd.style_rank >= 2 {
        15
    } else {
        10
    }
}

/// Rank S doubles kill drops.
pub fn s_rank_bonus_drops(pd: &PlayerData) -> (r: bool)
    ensures
        r == (pd.style_rank >= 4),
{
    pd.style_rank >= 4
}

} // verus!
