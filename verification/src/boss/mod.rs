//! Granite Warden arena lifecycle: intro cutscenes, fight, collapse,
//! victory rewards.

pub mod pebble;
pub mod warden;

use vstd::prelude::*;
use crate::cue::Sfx;
use crate::entity::EntityId;
use crate::flags::{has_flag, set_flag};
use crate::player::PlayerData;
use crate::boss::warden::{ai_step, on_damaged, spec_phase_broken, spec_staggered, spec_warden_phase, tick_warden_ai,
    warden_phase, PhaseBreak, WardenAi, WardenTuning, WardenAttack, WardenData, WardenPhase};
use crate::tuning::HITSTOP_BOSS_BREAK;

verus! {

#[derive(Clone, Copy, Debug, PartialEq, Eq, Structural)]
pub enum CutsceneKind {
    IntroAssemble,
    IntroNamePlate,
    IntroReturn,
    ShortIntro,
    Collapse,
}

#[derive(Clone, Copy, Debug, PartialEq, Eq, Structural)]
pub struct Cutscene {
    pub kind: CutsceneKind,
    pub t: u16,
}

#[derive(Clone, Copy, Debug, PartialEq, Eq, Structural)]
pub enum BossPhase {
    Intro,
    Fight,
    Victory,
}

#[derive(Clone, Copy, Debug)]
pub struct BossState {
    pub warden: EntityId,
    pub crystals: [EntityId; 2],
    pub cutscene: Option<Cutscene>,
    pub phase: BossPhase,
    pub bar_visible: bool,
    pub rim_crumbled: bool,
    pub name_plate: u16,
    pub victory_step: u16,
    pub short_intro: bool,
}

/// The fight as it is spawned (`spawn_fight`).
pub fn spawn_fight(warden: EntityId, crystals: [EntityId; 2]) -> (b: BossState)
    ensures
        b == (BossState {
            warden,
            crystals,
            cutscene: None,
            phase: BossPhase::Fight,
            bar_visible: false,
            rim_crumbled: false,
            name_plate: 0,
            victory_step: 0,
            short_intro: false,
        }),
{
    BossState {
        warden,
        crystals,
        cutscene: None,
        phase: BossPhase::Fight,
        bar_visible: false,
        rim_crumbled: false,
        name_plate: 0,
        victory_step: 0,
        short_intro: false,
    }
}

/// Entering the arena starts the intro: the short one once the intro was
/// seen before (`intro_seen`), the full assembly otherwise.
pub fn begin_intro(boss: &mut BossState, intro_seen: bool)
    ensures
        *final(boss) == (BossState {
            short_intro: intro_seen,
            phase: BossPhase::Intro,
            bar_visible: false,
            cutscene: Some(Cutscene {
                kind: if intro_seen { CutsceneKind::ShortIntro } else { CutsceneKind::IntroAssemble },
                t: 0,
            }),
            ..*old(boss)
        }),
{
    boss.short_intro = intro_seen;
    boss.phase = BossPhase::Intro;
    boss.bar_visible = false;
    boss.cutscene = Some(Cutscene {
        kind: if intro_seen { CutsceneKind::ShortIntro } else { CutsceneKind::IntroAssemble },
        t: 0,
    });
}

/// Requests of one intro tick.
pub struct IntroTick {
    pub roar: bool,
    /// Impact burst at the Warden and a small shake.
    pub impact: bool,
    /// The camera eases toward the Warden (assembly shot).
    pub camera_push: bool,
    pub warden_frame: Option<u16>,
    /// The intro finished for the first time: persist the save.
    pub save: bool,
    /// Collapse still holds the sim.
    pub collapse_paused: bool,
}

pub open spec fn spec_fight(boss: BossState) -> BossState {
    BossState { cutscene: None, phase: BossPhase::Fight, bar_visible: true, ..boss }
}

/// The intro cutscenes: the assembly shot (90 ticks) hands to the name
/// plate (90 ticks) and the camera return (40 ticks), which marks the intro
/// seen; the short intro lasts 30 ticks. Each ends in the fight, bar shown.
pub fn tick_intro(boss: &mut BossState, flags: &mut Vec<u16>, intro_seen_flag: u16) -> (r: IntroTick)
    ensures
        old(boss).cutscene is None ==> *final(boss) == spec_fight(*old(boss)) && final(flags)@ == old(flags)@
            && !r.save,
        old(boss).cutscene matches Some(cs) ==> ({
            let t = if cs.t < u16::MAX { (cs.t + 1) as u16 } else { cs.t };
            let ticked = BossState { cutscene: Some(Cutscene { t, ..cs }), ..*old(boss) };
            match cs.kind {
                CutsceneKind::ShortIntro => {
                    &&& r.roar == (t == 1)
                    &&& *final(boss) == if t >= 30 { spec_fight(ticked) } else { ticked }
                    &&& final(flags)@ == old(flags)@ && !r.save
                },
                CutsceneKind::IntroAssemble => {
                    &&& r.roar == (t == 1)
                    &&& r.camera_push
                    &&& r.impact == (t == 20 || t == 40 || t == 60)
                    &&& r.warden_frame == Some(if (t / 20) % 4 < 3 { ((t / 20) % 4) as u16 } else { 3u16 })
                    &&& *final(boss) == if t >= 90 {
                        BossState {
                            cutscene: Some(Cutscene { kind: CutsceneKind::IntroNamePlate, t: 0 }),
                            name_plate: 90,
                            ..*old(boss)
                        }
                    } else {
                        ticked
                    }
                    &&& final(flags)@ == old(flags)@ && !r.save
                },
                CutsceneKind::IntroNamePlate => {
                    let plated = BossState {
                        name_plate: if old(boss).name_plate > 0 { (old(boss).name_plate - 1) as u16 } else { 0 },
                        ..ticked
                    };
                    &&& *final(boss) == if t >= 90 {
                        BossState {
                            cutscene: Some(Cutscene { kind: CutsceneKind::IntroReturn, t: 0 }),
                            ..plated
                        }
                    } else {
                        plated
                    }
                    &&& final(flags)@ == old(flags)@ && !r.save
                },
                CutsceneKind::IntroReturn => if t >= 40 {
                    &&& *final(boss) == BossState { name_plate: 0, ..spec_fight(*old(boss)) }
                    &&& final(flags)@.contains(intro_seen_flag)
                    &&& r.save
                } else {
                    *final(boss) == ticked && final(flags)@ == old(flags)@ && !r.save
                },
                CutsceneKind::Collapse => final(flags)@ == old(flags)@ && !r.save,
            }
        }),
{
    let mut r = IntroTick {
        roar: false,
        impact: false,
        camera_push: false,
        warden_frame: None,
        save: false,
        collapse_paused: false,
    };
    let mut cs = match boss.cutscene {
        None => {
            boss.phase = BossPhase::Fight;
            boss.bar_visible = true;
            return r;
        },
        Some(cs) => cs,
    };
    if cs.kind == CutsceneKind::Collapse {
        let (paused, _shake) = tick_collapse(boss);
        r.collapse_paused = paused;
        return r;
    }
    cs.t = cs.t.saturating_add(1);
    let t = cs.t;
    boss.cutscene = Some(cs);
    match cs.kind {
        CutsceneKind::ShortIntro => {
            r.roar = t == 1;
            if t >= 30 {
                boss.cutscene = None;
                boss.phase = BossPhase::Fight;
                boss.bar_visible = true;
            }
        },
        CutsceneKind::IntroAssemble => {
            r.camera_push = true;
            r.roar = t == 1;
            r.impact = t == 20 || t == 40 || t == 60;
            let f = (t / 20) % 4;
            r.warden_frame = Some(if f < 3 { f } else { 3 });
            if t >= 90 {
                boss.cutscene = Some(Cutscene { kind: CutsceneKind::IntroNamePlate, t: 0 });
                boss.name_plate = 90;
            }
        },
        CutsceneKind::IntroNamePlate => {
            boss.name_plate = boss.name_plate.saturating_sub(1);
            if t >= 90 {
                boss.cutscene = Some(Cutscene { kind: CutsceneKind::IntroReturn, t: 0 });
            }
        },
        CutsceneKind::IntroReturn => {
            if t >= 40 {
                set_flag(flags, intro_seen_flag);
                boss.cutscene = None;
                boss.phase = BossPhase::Fight;
                boss.bar_visible = true;
                boss.name_plate = 0;
                r.save = true;
            }
        },
        CutsceneKind::Collapse => {},
    }
    r
}

/// The Warden goes down: the victory phase starts with the collapse
/// cutscene and the Warden stops attacking.
pub fn begin_collapse(boss: &mut BossState, d: &mut WardenData)
    ensures
        *final(boss) == (BossState {
            phase: BossPhase::Victory,
            victory_step: 0,
            bar_visible: false,
            cutscene: Some(Cutscene { kind: CutsceneKind::Collapse, t: 0 }),
            ..*old(boss)
        }),
        *final(d) == (WardenData { attack: WardenAttack::Collapse, timer: 0, ..*old(d) }),
{
    boss.phase = BossPhase::Victory;
    boss.victory_step = 0;
    boss.bar_visible = false;
    boss.cutscene = Some(Cutscene { kind: CutsceneKind::Collapse, t: 0 });
    d.attack = WardenAttack::Collapse;
    d.timer = 0;
}

/// The collapse cutscene is running.
pub open spec fn collapsing(boss: BossState) -> bool {
    boss.cutscene matches Some(cs) && cs.kind == CutsceneKind::Collapse
}

/// Collapse cutscene tick. Returns `(paused, shake)`: the sim stays paused
/// for 120 ticks (a shake at tick 40), then victory rewards start at step 1.
pub fn tick_collapse(boss: &mut BossState) -> (r: (bool, bool))
    ensures
        !collapsing(*old(boss)) ==> r == (false, false) && *final(boss) == *old(boss),
        collapsing(*old(boss)) ==> ({
            let cs = old(boss).cutscene.unwrap();
            let t = if cs.t < u16::MAX { (cs.t + 1) as u16 } else { cs.t };
            &&& r.1 == (t == 40)
            &&& if t >= 120 {
                &&& *final(boss) == (BossState {
                    cutscene: None,
                    phase: BossPhase::Victory,
                    victory_step: 1,
                    ..*old(boss)
                })
                &&& !r.0
            } else {
                &&& *final(boss) == (BossState { cutscene: Some(Cutscene { t, ..cs }), ..*old(boss) })
                &&& r.0
            }
        }),
{
    let mut cs = match boss.cutscene {
        Some(cs) => cs,
        None => return (false, false),
    };
    if cs.kind != CutsceneKind::Collapse {
        return (false, false);
    }
    cs.t = cs.t.saturating_add(1);
    let t = cs.t;
    boss.cutscene = Some(cs);
    let shake = t == 40;
    if t >= 120 {
        boss.cutscene = None;
        boss.phase = BossPhase::Victory;
        boss.victory_step = 1;
        return (false, shake);
    }
    (true, shake)
}

/// The Warden's part of a fight tick: its attack cycle runs
/// (`tick_warden_ai`), and when that tick was not a stagger (the real core
/// closed) and it is in phase three, the arena rim crumbles, once per
/// fight. Returns the AI's requests and whether the rim crumbles now.
pub fn fight_ai_tick(boss: &mut BossState, d: &mut WardenData, tun: WardenTuning, world_tick: u64) -> (r: (WardenAi, bool))
    ensures
        ai_step(*old(d), tun, world_tick, *final(d), r.0),
        spec_staggered(*old(d)) ==> !r.1 && *final(boss) == *old(boss),
        !spec_staggered(*old(d)) ==> r.1 == (old(d).phase == WardenPhase::Three && !old(boss).rim_crumbled)
            && *final(boss) == (BossState { rim_crumbled: old(boss).rim_crumbled || r.1, ..*old(boss) }),
{
    let staggered = d.core_exposed > 0 && d.attack != WardenAttack::FakeFlash;
    let phase = d.phase;
    let ai = tick_warden_ai(d, tun, world_tick);
    if staggered {
        return (ai, false);
    }
    let crumble = take_rim_crumble(boss, phase);
    (ai, crumble)
}

/// Phase three crumbles the arena rim, once per fight.
pub fn take_rim_crumble(boss: &mut BossState, phase: WardenPhase) -> (crumble: bool)
    ensures
        crumble == (phase == WardenPhase::Three && !old(boss).rim_crumbled),
        *final(boss) == (BossState { rim_crumbled: old(boss).rim_crumbled || crumble, ..*old(boss) }),
{
    if phase == WardenPhase::Three && !boss.rim_crumbled {
        boss.rim_crumbled = true;
        true
    } else {
        false
    }
}

/// Story flag ids that the victory sequence reads and writes.
#[derive(Clone, Copy, Debug)]
pub struct VictoryFlags {
    pub warden_heart: u16,
    pub shard_of_courage: u16,
    pub warden_defeated: u16,
    pub tunic_unlocked: u16,
}

/// Requests of one victory tick.
pub struct VictoryTick {
    pub heart_container: bool,
    pub shard_dialog: bool,
    pub begin_credits: bool,
    pub save: bool,
    pub sounds: Vec<Sfx>,
    pub toast: Option<&'static str>,
}

/// Victory rewards, one step per tick after the collapse: (1) the heart
/// container, once per save; (2) the Shard of Courage on the first win
/// (a re-fight only marks the Warden defeated); (3) once the shard dialog
/// closes, the credits.
pub fn tick_victory(boss: &mut BossState, flags: &mut Vec<u16>, pd: &mut PlayerData,
    ids: VictoryFlags, dialog_open: bool) -> (r: VictoryTick)
    requires
        old(pd).max_hearts <= i32::MAX - 2,
    ensures
        collapsing(*old(boss)) ==> final(flags)@ == old(flags)@ && *final(pd) == *old(pd),
        !collapsing(*old(boss)) ==> {
            let step = old(boss).victory_step;
            &&& step == 1 ==> {
                &&& r.heart_container == !old(flags)@.contains(ids.warden_heart)
                &&& r.heart_container ==> final(pd).max_hearts == old(pd).max_hearts + 2
                    && final(pd).hearts == final(pd).max_hearts
                &&& !r.heart_container ==> *final(pd) == *old(pd)
                &&& final(flags)@.contains(ids.warden_heart)
                &&& final(boss).victory_step == 2
                &&& r.save
            }
            &&& step == 2 ==> {
                &&& r.shard_dialog == !old(flags)@.contains(ids.shard_of_courage)
                &&& final(flags)@.contains(ids.warden_defeated)
                &&& final(flags)@.contains(ids.shard_of_courage)
                &&& r.shard_dialog ==> final(flags)@.contains(ids.tunic_unlocked)
                &&& final(boss).victory_step == 3
                &&& *final(pd) == *old(pd)
                &&& r.save
            }
            &&& step == 3 ==> {
                &&& r.begin_credits == !dialog_open
                &&& final(boss).victory_step == if dialog_open { 3u16 } else { 4u16 }
                &&& final(flags)@ == old(flags)@
            }
            &&& (step != 1 && step != 2 && step != 3) ==> *final(boss) == *old(boss)
                && final(flags)@ == old(flags)@ && *final(pd) == *old(pd)
        },
{
    let mut r = VictoryTick {
        heart_container: false,
        shard_dialog: false,
        begin_credits: false,
        save: false,
        sounds: Vec::new(),
        toast: None,
    };
    if let Some(cs) = boss.cutscene {
        if cs.kind == CutsceneKind::Collapse {
            let _ = tick_collapse(boss);
            return r;
        }
    }
    let step = boss.victory_step;
    if step == 1 {
        if !has_flag(flags, ids.warden_heart) {
            set_flag(flags, ids.warden_heart);
            pd.max_hearts = pd.max_hearts + 2;
            pd.hearts = pd.max_hearts;
            r.heart_container = true;
            r.toast = Some("HEART CONTAINER");
            r.sounds.push(Sfx::PickupHeart);
        }
        boss.victory_step = 2;
        r.save = true;
    } else if step == 2 {
        if !has_flag(flags, ids.shard_of_courage) {
            set_flag(flags, ids.shard_of_courage);
            set_flag(flags, ids.warden_defeated);
            set_flag(flags, ids.tunic_unlocked);
            r.shard_dialog = true;
        } else {
            set_flag(flags, ids.warden_defeated);
        }
        boss.victory_step = 3;
        r.save = true;
    } else if step == 3 && !dialog_open {
        boss.victory_step = 4;
        r.begin_credits = true;
    }
    r
}


/// The arena's hook when the Warden takes damage: its hit points `hp`
/// decide its phase (`warden::warden_phase` with the tuning's thresholds),
/// and on entering a new phase it breaks (`warden::on_damaged`): attacks
/// reset, the core closes, a poof bursts at its centre and the arena
/// shakes for 18 ticks under the boss hit-stop.
pub fn on_warden_damaged(d: &mut WardenData, hp: i32, phase2_hp: i32, phase3_hp: i32) -> (r: Option<PhaseBreak>)
    ensures
        ({
            let next = spec_warden_phase(hp, phase2_hp, phase3_hp);
            &&& next == old(d).phase ==> r is None && *final(d) == *old(d)
            &&& next != old(d).phase ==> {
                &&& *final(d) == spec_phase_broken(*old(d), next)
                &&& r matches Some(b) && b.hitstop == HITSTOP_BOSS_BREAK && b.anim_frame == 2
                    && b.shake_ticks == 18 && b.poof
                    && b.toast == "PHASE BREAK"
                    && b.sounds@ == seq![Sfx::PhaseBreak, Sfx::WardenRoar]
            }
        }),
{
    let next = warden_phase(hp, phase2_hp, phase3_hp);
    on_damaged(d, next)
}

/// What the arena's per-tick dispatch runs.
#[derive(Clone, Copy, Debug, PartialEq, Eq, Structural)]
pub enum BossStep {
    /// No fight.
    Idle,
    /// Left the dungeon: the fight is cleared.
    Clear,
    /// The credits own the tick (world paused).
    Credits,
    /// Intro cutscene (world paused).
    Intro,
    /// The fight runs (world runs).
    Fight,
    /// Victory hold (world paused).
    Victory,
}

/// Which arena step runs this tick: nothing without a fight; leaving the
/// dungeon clears it; the credits, the intro and the victory hold pause the
/// world; the fight does not.
pub fn boss_step(boss: Option<BossPhase>, in_dungeon: bool, credits_active: bool) -> (r: BossStep)
    ensures
        r == match boss {
            None => BossStep::Idle,
            Some(p) => if !in_dungeon {
                BossStep::Clear
            } else if credits_active {
                BossStep::Credits
            } else {
                match p {
                    BossPhase::Intro => BossStep::Intro,
                    BossPhase::Fight => BossStep::Fight,
                    BossPhase::Victory => BossStep::Victory,
                }
            },
        },
{
    match boss {
        None => BossStep::Idle,
        Some(p) => {
            if !in_dungeon {
                BossStep::Clear
            } else if credits_active {
                BossStep::Credits
            } else {
                match p {
                    BossPhase::Intro => BossStep::Intro,
                    BossPhase::Fight => BossStep::Fight,
                    BossPhase::Victory => BossStep::Victory,
                }
            }
        },
    }
}

/// Whether an arena step pauses the world simulation.
pub open spec fn spec_pauses(s: BossStep) -> bool {
    s == BossStep::Credits || s == BossStep::Intro || s == BossStep::Victory
}

pub fn pauses_world(s: BossStep) -> (p: bool)
    ensures
        p == spec_pauses(s),
{
    match s {
        BossStep::Credits | BossStep::Intro | BossStep::Victory => true,
        _ => false,
    }
}

} // verus!
