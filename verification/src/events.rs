//! World events of a tick: combat events are routed to the damage rules
//! first, the rest are drained in order; at most eight sounds leave a tick.

use vstd::prelude::*;
use crate::cue::Sfx;
use crate::entity::{AttackKind, EntityId, EntityKind};
use crate::flags::set_flag;
use crate::style::StyleVerb;

verus! {

/// Sounds sent to the front end per tick at most.
pub const MAX_SFX_PER_TICK: u8 = 8;

/// Something that happened in the world this tick. `P` is the front end's
/// payload (positions, directions, effect requests).
#[derive(Clone, Copy, Debug)]
pub enum WorldEvent<P> {
    /// A player attack connected (`damage_floor`: whole points of damage;
    /// `source`: the attack's owner, or the shot that struck).
    AttackHit { target: EntityId, attack: AttackKind, damage_floor: i32, source: EntityId, payload: P },
    /// The player takes `amount` damage, pushed along `(dx, dy)` (away
    /// from the source, in sub-pixels; only its signs matter to the rules).
    DamagedPlayer { amount: i32, dx: i32, dy: i32, payload: P },
    /// A visual effect.
    Fx(P),
    Sfx(Sfx),
    StyleAction(StyleVerb),
    EnergyDenied,
    Killed { kind: EntityKind, payload: P },
    RegionEntered(u8),
    GroupCleared(u16),
}

/// Events the damage rules consume.
pub open spec fn is_combat<P>(e: WorldEvent<P>) -> bool {
    e is AttackHit || e is DamagedPlayer
}

/// Splits the tick's events: combat events (applied in order by
/// `combat::apply_combat_events`) and the rest (to drain, in order).
pub fn route_combat_events<P: Copy>(events: Vec<WorldEvent<P>>) -> (r: (Vec<WorldEvent<P>>, Vec<WorldEvent<P>>))
    ensures
        r.0@ == events@.filter(|e: WorldEvent<P>| is_combat(e)),
        r.1@ == events@.filter(|e: WorldEvent<P>| !is_combat(e)),
{
    let mut combat: Vec<WorldEvent<P>> = Vec::new();
    let mut rest: Vec<WorldEvent<P>> = Vec::new();
    let mut i: usize = 0;
    while i < events.len()
        invariant
            i <= events.len(),
            combat@ == events@.subrange(0, i as int).filter(|e: WorldEvent<P>| is_combat(e)),
            rest@ == events@.subrange(0, i as int).filter(|e: WorldEvent<P>| !is_combat(e)),
        decreases events.len() - i,
    {
        let ev = events[i];
        proof {
            assert(events@.subrange(0, i + 1).drop_last() =~= events@.subrange(0, i as int));
            reveal_with_fuel(Seq::filter, 1);
        }
        match ev {
            WorldEvent::AttackHit { .. } | WorldEvent::DamagedPlayer { .. } => combat.push(ev),
            _ => rest.push(ev),
        }
        i = i + 1;
    }
    assert(events@.subrange(0, events@.len() as int) =~= events@);
    (combat, rest)
}

/// The sounds already sent this tick.
pub struct SoundBudget {
    pub sent: u8,
}

impl SoundBudget {
    pub fn new() -> (b: Self)
        ensures
            b.sent == 0,
    {
        SoundBudget { sent: 0 }
    }

    /// Whether one more sound may go out this tick (it is counted).
    pub fn take_slot(&mut self) -> (ok: bool)
        requires
            old(self).sent <= MAX_SFX_PER_TICK,
        ensures
            ok == (old(self).sent < MAX_SFX_PER_TICK),
            final(self).sent == if ok { old(self).sent + 1 } else { old(self).sent as int },
            final(self).sent <= MAX_SFX_PER_TICK,
    {
        if self.sent < MAX_SFX_PER_TICK {
            self.sent = self.sent + 1;
            true
        } else {
            false
        }
    }
}

/// The sounds of a tick that reach the front end: the requested ones in
/// order, up to `MAX_SFX_PER_TICK`.
pub fn cap_sounds(requested: &Vec<Sfx>) -> (sent: Vec<Sfx>)
    ensures
        sent@ == if requested@.len() <= MAX_SFX_PER_TICK { requested@ } else { requested@.subrange(0, MAX_SFX_PER_TICK as int) },
        sent@.len() <= MAX_SFX_PER_TICK,
{
    let mut budget = SoundBudget::new();
    let mut sent: Vec<Sfx> = Vec::new();
    let mut i: usize = 0;
    while i < requested.len()
        invariant
            i <= requested.len(),
            budget.sent <= MAX_SFX_PER_TICK,
            budget.sent as int == sent@.len(),
            sent@ == requested@.subrange(0, if i <= MAX_SFX_PER_TICK { i as int } else { MAX_SFX_PER_TICK as int }),
        decreases requested.len() - i,
    {
        if budget.take_slot() {
            sent.push(requested[i]);
            proof {
                assert(sent@ =~= requested@.subrange(0, i + 1));
            }
        }
        i = i + 1;
    }
    proof {
        if requested@.len() <= MAX_SFX_PER_TICK {
            assert(requested@.subrange(0, requested@.len() as int) =~= requested@);
        }
    }
    sent
}


/// Ticks between automatic saves.
pub const SAVE_INTERVAL_TICKS: u32 = 60;

/// Counts a drained tick (wrapping); a save is due every
/// `SAVE_INTERVAL_TICKS` ticks.
pub fn count_tick(ticks: &mut u32) -> (save_due: bool)
    ensures
        *final(ticks) == if *old(ticks) == u32::MAX { 0 } else { (*old(ticks) + 1) as u32 },
        save_due == (*final(ticks) % SAVE_INTERVAL_TICKS == 0),
{
    *ticks = if *ticks == u32::MAX { 0 } else { *ticks + 1 };
    *ticks % SAVE_INTERVAL_TICKS == 0
}

/// The camp's wave chain: each cleared group unlocks the next, and the
/// last one wins the camp war.
pub struct CampGroups {
    /// `(cleared group, group it unlocks)`, first match wins.
    pub chain: Vec<(u16, u16)>,
    pub wave2: u16,
    pub wave3: u16,
    /// Flag set when the camp guard is beaten.
    pub guard_flag: u16,
}

/// What clearing a group does at the camp.
#[derive(Clone, Copy, Debug)]
pub struct CampCleared {
    /// The next group unlocks and activates (toast, wave cue).
    pub unlock: Option<u16>,
    pub toast: Option<&'static str>,
    /// The last wave fell: the guard flag is set, the later waves lock for
    /// good, "GUARDS CLEARED" shows and the game saves.
    pub war_won: bool,
}

/// The first chain link leaving `group`.
pub open spec fn chain_next(chain: Seq<(u16, u16)>, group: u16) -> Option<u16>
    decreases chain.len(),
{
    if chain.len() == 0 {
        None
    } else if chain[0].0 == group {
        Some(chain[0].1)
    } else {
        chain_next(chain.drop_first(), group)
    }
}

fn find_next(chain: &Vec<(u16, u16)>, group: u16) -> (r: Option<u16>)
    ensures
        r == chain_next(chain@, group),
{
    let mut i: usize = 0;
    assert(chain@.subrange(0, chain@.len() as int) =~= chain@);
    while i < chain.len()
        invariant
            i <= chain.len(),
            chain_next(chain@, group) == chain_next(chain@.subrange(i as int, chain@.len() as int), group),
        decreases chain.len() - i,
    {
        proof {
            let r = chain@.subrange(i as int, chain@.len() as int);
            assert(r.drop_first() =~= chain@.subrange(i + 1, chain@.len() as int));
        }
        if chain[i].0 == group {
            return Some(chain[i].1);
        }
        i = i + 1;
    }
    None
}

/// A cleared spawn group at the camp (the dungeon's combat rooms open
/// their shutters separately).
pub fn camp_group_cleared(flags: &mut Vec<u16>, camp: &CampGroups, group: u16) -> (r: CampCleared)
    ensures
        r.unlock == chain_next(camp.chain@, group),
        r.war_won == (group == camp.wave3),
        r.toast == if group == camp.wave3 {
            Some("GUARDS CLEARED")
        } else {
            match chain_next(camp.chain@, group) {
                Some(next) => Some(if next == camp.wave2 { "WAVE 2!" } else { "WAVE 3!" }),
                None => None,
            }
        },
        final(flags)@ == if group == camp.wave3 {
            if old(flags)@.contains(camp.guard_flag) { old(flags)@ } else { old(flags)@.push(camp.guard_flag) }
        } else {
            old(flags)@
        },
{
    let unlock = find_next(&camp.chain, group);
    let mut toast: Option<&'static str> = match unlock {
        Some(next) => Some(if next == camp.wave2 { "WAVE 2!" } else { "WAVE 3!" }),
        None => None,
    };
    let won = group == camp.wave3;
    if won {
        set_flag(flags, camp.guard_flag);
        toast = Some("GUARDS CLEARED");
    }
    CampCleared { unlock, toast, war_won: won }
}

} // verus!
