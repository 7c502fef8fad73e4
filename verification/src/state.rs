//! Game mode and map transitions, what carries over a map switch, trigger
//! rectangles, and the fairy rescue on death.

use vstd::prelude::*;
use crate::entity::Health;
use crate::flags::set_flag;
use crate::map::{inside, spec_inside, MapId, Trigger, TriggerKind};
use crate::player::{PlayerData, PlayerState};
use crate::tuning::ENERGY_MAX;

verus! {

/// Ticks of each half of a fade (out, then in).
pub const FADE_TICKS: u8 = 16;
/// Ticks before another door can fire.
pub const DOOR_COOLDOWN: u8 = 40;
/// Hearts the fairy rescue restores.
pub const RESCUE_HEARTS: i32 = 6;
/// Invulnerability after a fairy rescue.
pub const RESCUE_IFRAMES: u16 = 90;

/// How a transition looks.
#[derive(Clone, Copy, Debug, PartialEq, Eq, Structural)]
pub enum Fade {
    Fade,
}

/// A map transition in progress: `t` ticks in, towards `target` at entry
/// `entry`.
#[derive(Clone, Copy, Debug, PartialEq, Eq, Structural)]
pub struct Transition {
    pub kind: Fade,
    pub t: u8,
    pub target: MapId,
    pub entry: u8,
}

/// Playing, or fading between maps.
#[derive(Clone, Copy, Debug, PartialEq, Eq, Structural)]
pub enum GameMode {
    Play,
    Transition(Transition),
}

/// Starts a fade to `target`, entry `entry`.
pub fn begin_transition(mode: &mut GameMode, target: MapId, entry: u8)
    ensures
        *final(mode) == GameMode::Transition(Transition { kind: Fade::Fade, t: 0, target, entry }),
{
    *mode = GameMode::Transition(Transition { kind: Fade::Fade, t: 0, target, entry });
}

/// A transition tick.
#[derive(Clone, Copy, Debug, PartialEq, Eq, Structural)]
pub enum TransitionTick {
    /// Not transitioning.
    Idle,
    /// Fading out or in.
    Fading,
    /// Fully faded out: switch to the target map now.
    SwitchMap { target: MapId, entry: u8 },
    /// Faded back in: play resumes.
    Done,
}

/// One tick of a transition, in spec: the new mode and what it asks for.
/// At `FADE_TICKS` the map switches, at twice that play resumes.
pub open spec fn spec_transition_step(mode: GameMode) -> (GameMode, TransitionTick) {
    match mode {
        GameMode::Play => (mode, TransitionTick::Idle),
        GameMode::Transition(tr) => {
            let t: int = if tr.t == u8::MAX { u8::MAX as int } else { tr.t + 1 };
            if t >= 2 * FADE_TICKS {
                (GameMode::Play, TransitionTick::Done)
            } else {
                (GameMode::Transition(Transition { t: t as u8, ..tr }), if t == FADE_TICKS {
                    TransitionTick::SwitchMap { target: tr.target, entry: tr.entry }
                } else {
                    TransitionTick::Fading
                })
            }
        },
    }
}

pub fn tick_transition(mode: &mut GameMode) -> (r: TransitionTick)
    ensures
        (*final(mode), r) == spec_transition_step(*old(mode)),
{
    match *mode {
        GameMode::Play => TransitionTick::Idle,
        GameMode::Transition(tr) => {
            let t: u8 = if tr.t == u8::MAX { u8::MAX } else { tr.t + 1 };
            if t >= 2 * FADE_TICKS {
                *mode = GameMode::Play;
                TransitionTick::Done
            } else {
                *mode = GameMode::Transition(Transition { t, ..tr });
                if t == FADE_TICKS {
                    TransitionTick::SwitchMap { target: tr.target, entry: tr.entry }
                } else {
                    TransitionTick::Fading
                }
            }
        },
    }
}

/// The mode after `n` transition ticks.
pub open spec fn transition_after(mode: GameMode, n: nat) -> GameMode
    decreases n,
{
    if n == 0 { mode } else { spec_transition_step(transition_after(mode, (n - 1) as nat)).0 }
}

/// A transition, once begun, switches maps exactly once, on its
/// `FADE_TICKS`-th tick, and returns to play on tick `2 * FADE_TICKS`:
/// every other tick before that only fades.
pub proof fn lemma_transition_schedule(target: MapId, entry: u8, n: nat)
    requires
        1 <= n <= 2 * FADE_TICKS,
    ensures
        ({
            let start = GameMode::Transition(Transition { kind: Fade::Fade, t: 0, target, entry });
            let r = spec_transition_step(transition_after(start, (n - 1) as nat)).1;
            &&& n < 2 * FADE_TICKS ==> transition_after(start, n) == GameMode::Transition(Transition {
                kind: Fade::Fade, t: n as u8, target, entry })
            &&& r == if n == FADE_TICKS {
                TransitionTick::SwitchMap { target, entry }
            } else if n == 2 * FADE_TICKS {
                TransitionTick::Done
            } else {
                TransitionTick::Fading
            }
            &&& n == 2 * FADE_TICKS ==> transition_after(start, n) == GameMode::Play
        }),
    decreases n,
{
    let start = GameMode::Transition(Transition { kind: Fade::Fade, t: 0, target, entry });
    if n > 1 {
        lemma_transition_schedule(target, entry, (n - 1) as nat);
    }
    assert(transition_after(start, (n - 1) as nat) == GameMode::Transition(Transition {
        kind: Fade::Fade, t: (n - 1) as u8, target, entry }));
}

/// Fade darkness in sixteenths: rising to 16 at the switch, then falling
/// (0 while playing).
pub open spec fn spec_fade_level(mode: GameMode) -> int {
    match mode {
        GameMode::Play => 0,
        GameMode::Transition(tr) => if tr.t <= FADE_TICKS { tr.t as int } else { 2 * FADE_TICKS - tr.t },
    }
}

pub fn fade_level(mode: &GameMode) -> (l: i32)
    ensures
        l == spec_fade_level(*mode),
{
    match mode {
        GameMode::Play => 0,
        GameMode::Transition(tr) => if tr.t <= FADE_TICKS { tr.t as i32 } else { 32 - tr.t as i32 },
    }
}

/// What the player carries from map to map.
pub struct PlayerPersist {
    pub hearts: i32,
    pub max_hearts: i32,
    pub energy: u32,
    pub rupees: u32,
    pub style_points: u32,
    pub style_rank: u8,
    pub gems: u8,
    pub flags: Vec<u16>,
    pub checkpoint: u8,
    pub bombs: u8,
    pub bomb_cap: u8,
    pub selected_item: u8,
}

/// The carried fields agree between the player and the persisted record.
pub open spec fn carries(p: PlayerPersist, pd: PlayerData) -> bool {
    &&& p.hearts == pd.hearts
    &&& p.max_hearts == pd.max_hearts
    &&& p.energy == pd.energy
    &&& p.rupees == pd.rupees
    &&& p.style_points == pd.style_points
    &&& p.style_rank == pd.style_rank
    &&& p.bombs == pd.bombs
    &&& p.bomb_cap == pd.bomb_cap
    &&& p.selected_item == pd.selected_item
}

impl PlayerPersist {
    pub fn from_player(pd: &PlayerData, checkpoint: u8, gems: u8, flags: Vec<u16>) -> (p: Self)
        ensures
            carries(p, *pd),
            p.checkpoint == checkpoint,
            p.gems == gems,
            p.flags@ == flags@,
    {
        PlayerPersist {
            hearts: pd.hearts,
            max_hearts: pd.max_hearts,
            energy: pd.energy,
            rupees: pd.rupees,
            style_points: pd.style_points,
            style_rank: pd.style_rank,
            gems,
            flags,
            checkpoint,
            bombs: pd.bombs,
            bomb_cap: pd.bomb_cap,
            selected_item: pd.selected_item,
        }
    }

    /// The record for a world without a player: six hearts, full energy,
    /// nothing else.
    pub fn fresh(checkpoint: u8, gems: u8, flags: Vec<u16>) -> (p: Self)
        ensures
            p.hearts == 6 && p.max_hearts == 6,
            p.energy == ENERGY_MAX,
            p.rupees == 0 && p.style_points == 0 && p.style_rank == 0,
            p.bombs == 0 && p.bomb_cap == 0 && p.selected_item == 0,
            p.checkpoint == checkpoint && p.gems == gems && p.flags@ == flags@,
    {
        PlayerPersist {
            hearts: 6,
            max_hearts: 6,
            energy: ENERGY_MAX,
            rupees: 0,
            style_points: 0,
            style_rank: 0,
            gems,
            flags,
            checkpoint,
            bombs: 0,
            bomb_cap: 0,
            selected_item: 0,
        }
    }

    /// Writes the carried fields into the player of the new map (every
    /// other field keeps its value), and its hit points into the player's
    /// health.
    pub fn apply(&self, pd: &mut PlayerData, health: &mut Option<Health>)
        ensures
            carries(*self, *final(pd)),
            *final(pd) == (PlayerData {
                hearts: self.hearts,
                max_hearts: self.max_hearts,
                energy: self.energy,
                rupees: self.rupees,
                style_points: self.style_points,
                style_rank: self.style_rank,
                bombs: self.bombs,
                bomb_cap: self.bomb_cap,
                selected_item: self.selected_item,
                ..*old(pd)
            }),
            *old(health) is None ==> *final(health) is None,
            *old(health) is Some ==> *final(health) == Some(Health {
                hp: self.hearts,
                max: self.max_hearts,
                ..(*old(health)).unwrap()
            }),
    {
        pd.hearts = self.hearts;
        pd.max_hearts = self.max_hearts;
        pd.energy = self.energy;
        pd.rupees = self.rupees;
        pd.style_points = self.style_points;
        pd.style_rank = self.style_rank;
        pd.bombs = self.bombs;
        pd.bomb_cap = self.bomb_cap;
        pd.selected_item = self.selected_item;
        if let Some(h) = health {
            h.hp = self.hearts;
            h.max = self.max_hearts;
        }
    }
}

/// What crosses a map switch: recording the player and applying the
/// record to the new map's player leaves hearts, energy, rupees, style,
/// bombs and the selected item as they were.
pub proof fn lemma_persist_round_trip(before: PlayerData, p: PlayerPersist, after: PlayerData)
    requires
        carries(p, before),
        carries(p, after),
    ensures
        after.hearts == before.hearts && after.max_hearts == before.max_hearts,
        after.energy == before.energy && after.rupees == before.rupees,
        after.style_points == before.style_points && after.style_rank == before.style_rank,
        after.bombs == before.bombs && after.bomb_cap == before.bomb_cap,
        after.selected_item == before.selected_item,
{
}

/// What the triggers under the player's feet did this tick.
#[derive(Clone, Copy, Debug, PartialEq, Eq, Structural)]
pub enum TriggerEvent {
    /// A region banner (region index).
    Region(u8),
    /// A new checkpoint (toast, chime).
    Checkpoint(u8),
    /// A secret found the first time (chime, toast, minimap mark).
    Secret(u16),
    /// The meadow fairy: energy refilled (toast).
    Fairy,
}

/// The state that trigger handling threads through:
/// `(door_cooldown, checkpoint, flags, energy, events, save, door)`.
pub type TriggerFold = (u8, u8, Seq<u16>, u32, Seq<TriggerEvent>, bool, Option<(MapId, u8)>);

/// One trigger that the feet stand in.
pub open spec fn trigger_step(k: TriggerKind, s: TriggerFold, meadow_flag: u16) -> TriggerFold {
    let (cool, cp, flags, energy, events, save, door) = s;
    match k {
        TriggerKind::Door { target, entry } => if cool == 0 {
            (DOOR_COOLDOWN, cp, flags, energy, events, save, Some((target, entry)))
        } else {
            s
        },
        TriggerKind::Banner { region } => (cool, cp, flags, energy, events.push(TriggerEvent::Region(region)), save, door),
        TriggerKind::Checkpoint { id } => if cp != id {
            (cool, id, flags, energy, events.push(TriggerEvent::Checkpoint(id)), true, door)
        } else {
            s
        },
        TriggerKind::Secret { flag } => if !flags.contains(flag) {
            if flag == meadow_flag {
                (cool, cp, flags.push(flag), ENERGY_MAX, events.push(TriggerEvent::Secret(flag)).push(TriggerEvent::Fairy), true, door)
            } else {
                (cool, cp, flags.push(flag), energy, events.push(TriggerEvent::Secret(flag)), true, door)
            }
        } else {
            s
        },
    }
}

/// The triggers in order; the first door that fires ends the pass.
pub open spec fn trigger_fold(ts: Seq<Trigger>, feet: (i32, i32), s: TriggerFold, meadow_flag: u16) -> TriggerFold
    decreases ts.len(),
{
    if ts.len() == 0 {
        s
    } else {
        let s1 = if spec_inside(ts[0], feet.0, feet.1) { trigger_step(ts[0].kind, s, meadow_flag) } else { s };
        if s1.6 is Some { s1 } else { trigger_fold(ts.drop_first(), feet, s1, meadow_flag) }
    }
}

/// Outcome of the trigger pass.
pub struct TriggerTick {
    pub events: Vec<TriggerEvent>,
    /// A save is due (new checkpoint or secret), unless a door fired.
    pub save: bool,
    /// A door fired: fade to this map and entry.
    pub door: Option<(MapId, u8)>,
}

/// Handles every trigger rectangle the feet tile `feet` stands in, in
/// order: a door (off cooldown) starts a fade and ends the pass, banners
/// announce regions, checkpoints move the respawn point, secrets set their
/// flag once (the meadow secret, `meadow_flag`, also refills energy).
pub fn check_triggers(triggers: &Vec<Trigger>, feet: (i32, i32), door_cooldown: &mut u8, checkpoint: &mut u8, flags: &mut Vec<u16>, energy: &mut u32, meadow_flag: u16) -> (r: TriggerTick)
    ensures
        ({
            let s = trigger_fold(triggers@, feet, (*old(door_cooldown), *old(checkpoint), old(flags)@, *old(energy), seq![], false, None), meadow_flag);
            &&& *final(door_cooldown) == s.0
            &&& *final(checkpoint) == s.1
            &&& final(flags)@ == s.2
            &&& *final(energy) == s.3
            &&& r.events@ == s.4
            &&& r.door == s.6
            &&& r.save == (s.5 && s.6 is None)
        }),
{
    let mut events: Vec<TriggerEvent> = Vec::new();
    let mut save = false;
    let mut i: usize = 0;
    assert(triggers@.subrange(0, triggers@.len() as int) =~= triggers@);
    while i < triggers.len()
        invariant
            i <= triggers.len(),
            trigger_fold(triggers@, feet, (*old(door_cooldown), *old(checkpoint), old(flags)@, *old(energy), seq![], false, None), meadow_flag)
                == trigger_fold(triggers@.subrange(i as int, triggers@.len() as int), feet,
                    (*door_cooldown, *checkpoint, flags@, *energy, events@, save, None), meadow_flag),
        decreases triggers.len() - i,
    {
        let tr = triggers[i];
        let ghost rest = triggers@.subrange(i as int, triggers@.len() as int);
        proof {
            assert(rest[0] == tr);
            assert(rest.drop_first() =~= triggers@.subrange(i + 1, triggers@.len() as int));
        }
        if inside(&tr, feet.0, feet.1) {
            match tr.kind {
                TriggerKind::Door { target, entry } => {
                    if *door_cooldown == 0 {
                        *door_cooldown = DOOR_COOLDOWN;
                        return TriggerTick { events, save: false, door: Some((target, entry)) };
                    }
                },
                TriggerKind::Banner { region } => {
                    events.push(TriggerEvent::Region(region));
                },
                TriggerKind::Checkpoint { id } => {
                    if *checkpoint != id {
                        *checkpoint = id;
                        events.push(TriggerEvent::Checkpoint(id));
                        save = true;
                    }
                },
                TriggerKind::Secret { flag } => {
                    if set_flag(flags, flag) {
                        events.push(TriggerEvent::Secret(flag));
                        if flag == meadow_flag {
                            *energy = ENERGY_MAX;
                            events.push(TriggerEvent::Fairy);
                        }
                        save = true;
                    }
                },
            }
        }
        i = i + 1;
    }
    TriggerTick { events, save, door: None }
}

/// While the door cooldown runs, no door fires, however many door
/// rectangles the feet stand in (and the cooldown itself is untouched).
pub proof fn lemma_cooldown_blocks_doors(ts: Seq<Trigger>, feet: (i32, i32), s: TriggerFold, meadow_flag: u16)
    requires
        s.0 > 0,
        s.6 is None,
    ensures
        trigger_fold(ts, feet, s, meadow_flag).6 is None,
        trigger_fold(ts, feet, s, meadow_flag).0 == s.0,
    decreases ts.len(),
{
    if ts.len() > 0 {
        let s1 = if spec_inside(ts[0], feet.0, feet.1) { trigger_step(ts[0].kind, s, meadow_flag) } else { s };
        assert(s1.0 == s.0 && s1.6 is None);
        lemma_cooldown_blocks_doors(ts.drop_first(), feet, s1, meadow_flag);
    }
}

/// A secret is discovered once: stepping on a secret whose flag is already
/// set changes nothing.
pub proof fn lemma_secret_once(k: TriggerKind, s: TriggerFold, meadow_flag: u16)
    requires
        k is Secret,
        s.2.contains(k->flag),
    ensures
        trigger_step(k, s, meadow_flag) == s,
{
}

/// A fairy rescue: the map to reload, at which entry, and its banner.
#[derive(Clone, Copy, Debug, PartialEq, Eq)]
pub struct FairyRescue {
    pub map: MapId,
    pub entry: u8,
    pub toast: &'static str,
}

/// A player at zero hit points is rescued by a fairy: six hearts (max at
/// least six), 90 invulnerable ticks, full energy, idle; then the current
/// map `map` is reloaded at the checkpoint `checkpoint` under the banner
/// "FAIRY RESCUE". Returns the rescue, or nothing (and changes nothing)
/// when the player still stands.
pub fn rescue_if_dead(pd: &mut PlayerData, health: &mut Option<Health>, map: MapId, checkpoint: u8) -> (rescue: Option<FairyRescue>)
    ensures
        (rescue is Some) == (*old(health) matches Some(h) && h.hp <= 0),
        rescue is None ==> *final(pd) == *old(pd) && *final(health) == *old(health),
        rescue is Some ==> ({
            let h = (*old(health)).unwrap();
            &&& rescue == Some(FairyRescue { map, entry: checkpoint, toast: "FAIRY RESCUE" })
            &&& *final(health) == Some(Health {
                hp: RESCUE_HEARTS,
                max: if h.max >= RESCUE_HEARTS { h.max } else { RESCUE_HEARTS },
                iframes: RESCUE_IFRAMES,
                flash: 0,
            })
            &&& *final(pd) == (PlayerData { hearts: RESCUE_HEARTS, energy: ENERGY_MAX, state: PlayerState::Idle, ..*old(pd) })
        }),
{
    let dead = match health {
        Some(h) => h.hp <= 0,
        None => false,
    };
    if !dead {
        return None;
    }
    if let Some(h) = health {
        h.hp = RESCUE_HEARTS;
        h.max = if h.max >= RESCUE_HEARTS { h.max } else { RESCUE_HEARTS };
        h.iframes = RESCUE_IFRAMES;
        h.flash = 0;
    }
    pd.hearts = RESCUE_HEARTS;
    pd.energy = ENERGY_MAX;
    pd.state = PlayerState::Idle;
    Some(FairyRescue { map, entry: checkpoint, toast: "FAIRY RESCUE" })
}

} // verus!
