use game::boss::warden::{on_damaged, warden_phase, WardenAttack, WardenData, WardenPhase};
use game::boss::{boss_step, fight_ai_tick, on_warden_damaged, pauses_world, spawn_fight, BossPhase, BossStep};
use game::boss::warden::WardenTuning;
use game::enemies::ironshell::{ironshell_update, IronshellData, IronshellState, IronshellTuning};
use game::enemies::{EnemyTick, Motion};
use game::math::Dir4;
use game::combat::{
    apply_attack_hit, apply_combat_events, apply_player_damage, beam_strike, Applied, is_hostile_shot, knock_down, reflect_shot, resolve_hits,
    shot_vs_player, strike_candidates, tick_dummies, ActiveAttack, Dummy, HitBody, HitLedger, HitOutcome, PlayerHit,
    Reflect, Shot, ShotOwner, ShotVerdict, Target,
};
use game::events::WorldEvent;
use game::frame::Aabb;
use game::entity::EntityId;
use game::cue::{Cue, Sfx};
use game::energy::{fill, refund, tick as energy_tick};
use game::enemies::count_alive_enemies;
use game::enemies::raider::{tick_torch_flame, tick_torch_proj, FlameTick, TorchFlameData, TorchProjData};
use game::enemies::waves::{
    clear_bonus, roster, spawn_plan, wave_banner, wave_sound, wave_toast, WaveDirector, WaveEvent, WaveKind,
};
use game::entity::{AnimState, AttackKind, EntityKind, Health};
use game::player::{PlayerData, PlayerState};
use game::style::{
    apply_verb, dash_energy_cost, energy_regen_mult, on_player_damaged, rank_from_points, rank_letter,
    rank_floor, s_rank_bonus_drops, tick as style_tick, StyleVerb,
};
use game::sword::{sword_hitbox, update_sword, SwingPush, SLASH_HALF, SLASH_REACH, SPIN_RADIUS};
use game::toasts::{push_toast, Toasts};

fn calm_player() -> PlayerData {
    PlayerData {
        hearts: 6,
        max_hearts: 6,
        rupees: 0,
        bombs: 0,
        bomb_cap: 0,
        selected_item: 0,
        item_cycle_flash: 0,
        energy: 1000,
        energy_deny_flash: 0,
        ticks_since_spend: 0,
        style_points: 0,
        style_rank: 0,
        style_pulse: 0,
        verb_cooldowns: [0; 6],
        combat_timer: 0,
        out_of_combat: 0,
        no_dmg_streak: 0,
        state: PlayerState::Idle,
        shield_held: false,
        shield_ticks: 0,
        buffer_attack: false,
        combo_drop: 0,
        swing_id: 0,
        hit_mask: 0,
        lunge_ticks: 0,
        charge_ready_sfx: false,
        dash_through_awarded: false,
        walk_timer: 0,
    }
}

fn is_toast(c: &Cue, text: &str) -> bool {
    matches!(c, Cue::Toast(t) if *t == text)
}

fn is_sound(c: &Cue, s: Sfx) -> bool {
    matches!(c, Cue::Sound(x) if *x == s)
}

#[test]
fn a_swing_hits_each_target_once() {
    let mut ledger = HitLedger::new();
    let first = strike_candidates(&mut ledger, 4, &vec![7, 8, 7]);
    assert_eq!(first, vec![7, 8]);
    let again = strike_candidates(&mut ledger, 4, &vec![8, 9]);
    assert_eq!(again, vec![9]);
    // A new swing may hit them again.
    assert_eq!(strike_candidates(&mut ledger, 5, &vec![7]), vec![7]);
    ledger.clear_swing_hits(4);
    assert_eq!(ledger.hits, vec![(5, 7)]);
}

#[test]
fn attack_hit_damages_and_kills() {
    let tg = Target {
        kind: EntityKind::Slime,
        is_enemy: true,
        dummy_down: false,
        hiding: false,
        health: Some(Health { hp: 3, max: 3, iframes: 0, flash: 0 }),
    };
    match apply_attack_hit(tg, AttackKind::Slash, 1) {
        HitOutcome::Damaged { health, killed, heavy, hitstop, verb, sound, .. } => {
            assert_eq!(health, Health { hp: 2, max: 3, iframes: 10, flash: 4 });
            assert!(!killed && !heavy);
            assert_eq!(hitstop, 3);
            assert_eq!(verb, StyleVerb::Slash);
            assert_eq!(sound, Sfx::EnemyHurt);
        }
        other => panic!("unexpected {:?}", other),
    }
    match apply_attack_hit(tg, AttackKind::Spin, 5) {
        HitOutcome::Damaged { health, killed, heavy, hitstop, shake, verb, .. } => {
            assert_eq!(health.hp, 0);
            assert!(killed && heavy && shake);
            assert_eq!(hitstop, 5);
            assert_eq!(verb, StyleVerb::ChargeSpin);
        }
        other => panic!("unexpected {:?}", other),
    }
    let hiding = Target { hiding: true, ..tg };
    assert_eq!(apply_attack_hit(hiding, AttackKind::Slash, 1), HitOutcome::Refused);
    let invulnerable = Target { health: Some(Health { hp: 3, max: 3, iframes: 2, flash: 0 }), ..tg };
    assert_eq!(apply_attack_hit(invulnerable, AttackKind::Slash, 1), HitOutcome::Ignored);
}

#[test]
fn shield_blocks_from_the_front() {
    let mut pd = calm_player();
    pd.shield_held = true;
    pd.shield_ticks = 3;
    pd.energy = 500;
    let mut h = Health { hp: 6, max: 6, iframes: 0, flash: 0 };
    let (r, cues) = apply_player_damage(&mut pd, &mut h, 2, true);
    assert_eq!(r, PlayerHit::Blocked { perfect: true });
    assert_eq!(pd.energy, 600);
    assert!(is_toast(&cues[0], "PERFECT BLOCK"));
    assert!(matches!(cues[1], Cue::Style(StyleVerb::PerfectBlock)));
    pd.shield_ticks = 20;
    let (r, _) = apply_player_damage(&mut pd, &mut h, 2, true);
    assert_eq!(r, PlayerHit::Blocked { perfect: false });
    assert_eq!(pd.energy, 550);
    assert_eq!(h.hp, 6);
    // From behind the hit lands.
    let (r, cues) = apply_player_damage(&mut pd, &mut h, 2, false);
    assert_eq!(r, PlayerHit::Hurt);
    assert_eq!(h, Health { hp: 4, max: 6, iframes: 60, flash: 4 });
    assert_eq!(pd.hearts, 4);
    assert!(is_sound(cues.last().unwrap(), Sfx::HurtPlayer));
    // Now invulnerable.
    let (r, cues) = apply_player_damage(&mut pd, &mut h, 2, false);
    assert_eq!(r, PlayerHit::Ignored);
    assert!(cues.is_empty());
}

#[test]
fn dummies_get_back_up() {
    let mut ds = vec![
        Dummy { dead_ticks: Some(118), health: None, has_body: false },
        Dummy { dead_ticks: None, health: Some(Health { hp: 5, max: 20, iframes: 0, flash: 0 }), has_body: true },
    ];
    assert!(tick_dummies(&mut ds).is_empty());
    assert_eq!(ds[0].dead_ticks, Some(119));
    assert_eq!(tick_dummies(&mut ds), vec![0]);
    assert_eq!(ds[0].dead_ticks, None);
    assert_eq!(ds[0].health, Some(Health { hp: 20, max: 20, iframes: 0, flash: 0 }));
    assert!(ds[0].has_body);
    assert_eq!(ds[1].health.unwrap().hp, 5);
}

#[test]
fn reflected_shots_change_sides() {
    let mut s = ShotOwner { from_player: false, hit: true };
    assert_eq!(reflect_shot(EntityKind::OctorokRock, &mut s), Reflect::ReflectedRock);
    assert_eq!(s, ShotOwner { from_player: true, hit: false });
    let mut t = ShotOwner { from_player: false, hit: false };
    assert_eq!(reflect_shot(EntityKind::Slime, &mut t), Reflect::Untouched);
    assert!(!t.from_player);
    assert!(is_hostile_shot(EntityKind::OctorokRock, false));
    assert!(!is_hostile_shot(EntityKind::OctorokRock, true));
    assert!(!is_hostile_shot(EntityKind::SwordBeam, false));
}

#[test]
fn style_verbs_climb_ranks() {
    let mut pd = calm_player();
    let cues = apply_verb(&mut pd, StyleVerb::Finisher);
    assert_eq!(pd.style_points, 14 * 180);
    assert_eq!(pd.verb_cooldowns[1], 180);
    assert!(cues.is_empty());
    // Repeating at once is worth a quarter.
    apply_verb(&mut pd, StyleVerb::Finisher);
    assert_eq!(pd.style_points, 14 * 180 + 14 * 45);
    assert_eq!(pd.style_rank, 0);
    let cues = apply_verb(&mut pd, StyleVerb::ChargeSpin);
    assert_eq!(pd.style_rank, 1);
    assert!(is_toast(&cues[0], "RANK UP"));
    assert!(is_sound(&cues[1], Sfx::RankUp));
    assert_eq!(rank_letter(pd.style_rank), "C");
}

#[test]
fn a_hit_drops_one_rank() {
    let mut pd = calm_player();
    pd.style_points = 17000;
    pd.style_rank = rank_from_points(17000);
    assert_eq!(pd.style_rank, 3);
    let cues = on_player_damaged(&mut pd);
    assert_eq!(pd.style_rank, 2);
    assert_eq!(pd.style_points, 9000);
    assert!(is_toast(&cues[0], "RANK DOWN"));
    let mut low = calm_player();
    assert!(on_player_damaged(&mut low).is_empty());
}

#[test]
fn style_decays_out_of_combat() {
    let mut pd = calm_player();
    pd.style_points = 3600;
    pd.style_rank = 1;
    pd.out_of_combat = 359;
    let cues = style_tick(&mut pd);
    assert_eq!(pd.out_of_combat, 360);
    assert_eq!(pd.style_points, 3420);
    assert_eq!(pd.style_rank, 0);
    assert!(is_toast(&cues[0], "RANK DOWN"));
}

#[test]
fn rank_perks() {
    let mut pd = calm_player();
    assert_eq!(dash_energy_cost(&pd), 250);
    assert_eq!(energy_regen_mult(&pd), 10);
    pd.style_rank = 3;
    assert_eq!(dash_energy_cost(&pd), 200);
    assert_eq!(energy_regen_mult(&pd), 15);
    assert!(!s_rank_bonus_drops(&pd));
    pd.style_rank = 4;
    assert!(s_rank_bonus_drops(&pd));
    assert_eq!(rank_letter(4), "S");
    assert_eq!(rank_letter(0), "D");
}

#[test]
fn energy_refills_to_the_cap() {
    let mut pd = calm_player();
    pd.energy = 950;
    fill(&mut pd, 150);
    assert_eq!(pd.energy, 1000);
    pd.energy = 100;
    refund(&mut pd, 100);
    assert_eq!(pd.energy, 200);
    pd.ticks_since_spend = 29;
    energy_tick(&mut pd);
    assert_eq!(pd.energy, 202);
    pd.style_rank = 2;
    energy_tick(&mut pd);
    assert_eq!(pd.energy, 205);
}

#[test]
fn toasts_stack_two_and_fade() {
    let mut t = Toasts::new();
    push_toast(&mut t, "A");
    push_toast(&mut t, "B");
    push_toast(&mut t, "C");
    assert_eq!(t.queue.len(), 2);
    assert_eq!(t.queue[0].text, "B");
    for _ in 0..89 {
        t.update();
    }
    assert_eq!(t.queue.len(), 2);
    assert_eq!(t.queue[0].ticks, 1);
    t.update();
    assert!(t.queue.is_empty());
}

#[test]
fn tap_then_release_swings() {
    let mut pd = calm_player();
    let mut anim = AnimState { frame: 0, sheet: 0, timer: 0 };
    let o = update_sword(&mut pd, &mut anim, true, true);
    assert_eq!(pd.state, PlayerState::Charging { tick: 0 });
    assert!(o.clear_swing.is_none());
    let o = update_sword(&mut pd, &mut anim, false, false);
    assert_eq!(pd.state, PlayerState::Swing { stage: 0, tick: 0 });
    assert_eq!(o.clear_swing, Some(1));
    assert_eq!(pd.swing_id, 1);
}

#[test]
fn full_charge_spins_for_its_price() {
    let mut pd = calm_player();
    let mut anim = AnimState { frame: 0, sheet: 0, timer: 0 };
    update_sword(&mut pd, &mut anim, true, true);
    for _ in 0..30 {
        update_sword(&mut pd, &mut anim, false, true);
    }
    let o = update_sword(&mut pd, &mut anim, false, false);
    assert_eq!(pd.state, PlayerState::Spin { tick: 0 });
    assert_eq!(pd.energy, 800);
    assert_eq!(o.arc, Some(true));
    assert!(o.sounds.contains(&Sfx::SpinRelease));
}

#[test]
fn waves_grow_and_respect_the_cap() {
    assert_eq!(roster(1), vec![WaveKind::Slime; 3]);
    assert_eq!(roster(2).len(), 4);
    assert_eq!(roster(3).len(), 5);
    assert_eq!(roster(20).len(), 10);
    assert_eq!(spawn_plan(20, 7).len(), 3);
    assert!(spawn_plan(3, 10).is_empty());
    assert_eq!(wave_toast(4), "WAVE 4");
    assert_eq!(wave_toast(12), "WAVE N");
    assert_eq!(clear_bonus(2, 3), 10);
}

#[test]
fn director_spawns_after_the_lull_and_pays_on_clear() {
    let mut d = WaveDirector::new();
    let mut rupees = 0u32;
    for _ in 0..29 {
        assert_eq!(d.update(0, 0, &mut rupees), WaveEvent::Nothing);
    }
    let ev = d.update(0, 0, &mut rupees);
    assert_eq!(ev, WaveEvent::Spawned(1));
    assert_eq!(wave_sound(ev), Some(Sfx::WaveCue));
    assert_eq!(d.update(3, 0, &mut rupees), WaveEvent::Nothing);
    assert_eq!(d.update(0, 1, &mut rupees), WaveEvent::Cleared(6));
    assert_eq!(rupees, 6);
    assert_eq!(d.lull, 120);
}

#[test]
fn alive_enemies_counted_by_kind() {
    let kinds = vec![EntityKind::Slime, EntityKind::Player, EntityKind::Bat, EntityKind::Pickup, EntityKind::Skeleton];
    assert_eq!(count_alive_enemies(&kinds), 3);
}

#[test]
fn warden_breaks_into_a_new_phase() {
    let mut d = WardenData { phase: WardenPhase::One, attack: WardenAttack::SlamTele, timer: 5, core_exposed: 3, fake_armed: true };
    assert!(on_damaged(&mut d, WardenPhase::One).is_none());
    // 40 of the hit points left is still phase one.
    assert!(on_warden_damaged(&mut d, 40, 30, 15).is_none());
    let b = on_warden_damaged(&mut d, 25, 30, 15).unwrap();
    assert_eq!(b.toast, "PHASE BREAK");
    assert_eq!((b.shake_ticks, b.poof), (18, true));
    assert_eq!(b.sounds, vec![Sfx::PhaseBreak, Sfx::WardenRoar]);
    assert_eq!(d.phase, WardenPhase::Two);
    assert_eq!(d.attack, WardenAttack::Idle);
    assert_eq!((d.timer, d.core_exposed, d.fake_armed), (90, 0, false));
}

#[test]
fn boss_dispatch_pauses_cutscenes() {
    assert_eq!(boss_step(None, true, false), BossStep::Idle);
    assert_eq!(boss_step(Some(BossPhase::Fight), false, false), BossStep::Clear);
    assert_eq!(boss_step(Some(BossPhase::Fight), true, true), BossStep::Credits);
    assert_eq!(boss_step(Some(BossPhase::Intro), true, false), BossStep::Intro);
    assert!(pauses_world(BossStep::Intro));
    assert!(!pauses_world(BossStep::Fight));
    assert!(pauses_world(BossStep::Victory));
}

#[test]
fn torch_lands_when_spent_and_flame_burns_on_its_beat() {
    let mut p = TorchProjData { life: 2, age: 3, hit: false };
    assert_eq!(tick_torch_proj(&mut p), (1, false));
    assert_eq!((p.age, p.life), (4, 1));
    assert_eq!(tick_torch_proj(&mut p), (1, true));
    let mut struck = TorchProjData { life: 30, age: 0, hit: true };
    assert_eq!(tick_torch_proj(&mut struck), (0, true));

    let mut f = TorchFlameData { life: 20, tick: 9 };
    assert_eq!(tick_torch_flame(&mut f, 10), FlameTick { frame: 1, dead: false, hurt: true });
    assert_eq!(tick_torch_flame(&mut f, 10), FlameTick { frame: 1, dead: false, hurt: false });
    let mut last = TorchFlameData { life: 1, tick: 19 };
    assert_eq!(tick_torch_flame(&mut last, 10), FlameTick { frame: 1, dead: true, hurt: false });
}

fn eid(index: u32) -> EntityId {
    EntityId { index, gen: 0 }
}

fn body(index: u32, enemy_body: bool, cx: i32, cy: i32) -> HitBody {
    HitBody { id: eid(index), enemy_body, area: Aabb { cx, cy, hx: 8, hy: 8 } }
}

#[test]
fn attacks_strike_overlapping_enemy_bodies_once() {
    let slash = ActiveAttack {
        owner: eid(0),
        kind: AttackKind::Slash,
        swing_id: 3,
        area: Aabb { cx: 0, cy: 0, hx: 10, hy: 4 },
        use_radius: false,
        radius: 0,
        damage_floor: 1,
        payload: 7u8,
    };
    let spin = ActiveAttack { kind: AttackKind::Spin, swing_id: 4, use_radius: true, radius: 20, damage_floor: 2, payload: 9u8, ..slash };
    // Body 1 overlaps the slash box; body 2 is not an enemy body; body 3 is
    // far off to the right but inside the spin's ring only when near.
    let bodies = vec![body(1, true, 15, 0), body(2, false, 0, 0), body(3, true, 25, 0), body(4, true, 100, 0)];
    let mut ledger = HitLedger::new();
    let mut attacks = vec![slash, slash, spin];
    let evs = resolve_hits(&mut ledger, &mut attacks, &bodies);
    assert!(attacks.is_empty());
    assert_eq!(evs.len(), 3);
    match evs[0] {
        WorldEvent::AttackHit { target, attack, damage_floor, source, payload } => {
            assert_eq!((target, attack, damage_floor, source, payload), (eid(1), AttackKind::Slash, 1, eid(0), 7));
        }
        _ => panic!("expected a hit"),
    }
    // The duplicate slash (same swing) hits nothing; the spin's ring
    // (radius 20) reaches body 1 (gap 7) and body 3 (gap 17) but not body 4.
    assert!(matches!(evs[1], WorldEvent::AttackHit { target, attack: AttackKind::Spin, .. } if target == eid(1)));
    assert!(matches!(evs[2], WorldEvent::AttackHit { target, attack: AttackKind::Spin, .. } if target == eid(3)));
    assert_eq!(ledger.hits, vec![(3, 1), (4, 1), (4, 3)]);
}

#[test]
fn hostile_shots_hurt_once_and_player_beams_strike_once() {
    assert_eq!(
        shot_vs_player(EntityKind::DebugShot, true, false, false, true, 2),
        ShotVerdict::HurtPlayer { amount: 2, despawn: true }
    );
    // A rock on the enemy-hit layer hurts too, but stays (it is marked hit).
    assert_eq!(
        shot_vs_player(EntityKind::OctorokRock, true, false, false, true, 1),
        ShotVerdict::HurtPlayer { amount: 1, despawn: false }
    );
    assert_eq!(shot_vs_player(EntityKind::DebugShot, true, false, true, true, 2), ShotVerdict::Pass);
    assert_eq!(shot_vs_player(EntityKind::SwordBeam, true, true, false, true, 2), ShotVerdict::Pass);
    assert_eq!(shot_vs_player(EntityKind::DebugShot, true, false, false, false, 2), ShotVerdict::Pass);
    assert_eq!(shot_vs_player(EntityKind::Slime, false, false, false, true, 2), ShotVerdict::Pass);
    assert_eq!(shot_vs_player(EntityKind::Player, true, false, false, true, 2), ShotVerdict::Pass);

    let beam = Shot {
        id: eid(9),
        kind: EntityKind::SwordBeam,
        from_player: true,
        hit: false,
        swing_id: 11,
        area: Aabb { cx: 0, cy: 0, hx: 4, hy: 4 },
        damage_floor: 2,
        payload: 0u8,
    };
    let bodies = vec![body(1, false, 0, 0), body(2, true, 5, 0), body(3, true, -5, 0)];
    let mut ledger = HitLedger::new();
    let ev = beam_strike(&mut ledger, &beam, &bodies);
    assert!(matches!(ev, Some(WorldEvent::AttackHit { target, attack: AttackKind::Beam, source, damage_floor: 2, .. })
        if target == eid(2) && source == eid(9)));
    assert_eq!(ledger.hits, vec![(11, 2)]);
    let spent = Shot { hit: true, ..beam };
    assert!(beam_strike(&mut ledger, &spent, &bodies).is_none());
    let hostile = Shot { from_player: false, ..beam };
    assert!(beam_strike(&mut ledger, &hostile, &bodies).is_none());
    assert_eq!(ledger.hits, vec![(11, 2)]);
}

#[test]
fn warden_phase_follows_hit_points() {
    assert_eq!(warden_phase(40, 30, 15), WardenPhase::One);
    assert_eq!(warden_phase(30, 30, 15), WardenPhase::Two);
    assert_eq!(warden_phase(16, 30, 15), WardenPhase::Two);
    assert_eq!(warden_phase(15, 30, 15), WardenPhase::Three);
    assert_eq!(warden_phase(0, 30, 15), WardenPhase::Three);
}

#[test]
fn a_killed_dummy_goes_down_and_gets_up_after_its_count() {
    let tg = Target {
        kind: EntityKind::Dummy,
        is_enemy: true,
        dummy_down: false,
        hiding: false,
        health: Some(Health { hp: 1, max: 20, iframes: 0, flash: 0 }),
    };
    match apply_attack_hit(tg, AttackKind::Slash, 1) {
        HitOutcome::Damaged { health, killed, dummy_knocked_down, .. } => {
            assert!(killed && dummy_knocked_down);
            assert_eq!(health, Health { hp: 0, max: 20, iframes: 0, flash: 0 });
        }
        other => panic!("unexpected {:?}", other),
    }
    let mut d = vec![Dummy { dead_ticks: None, health: Some(Health { hp: 1, max: 20, iframes: 0, flash: 0 }), has_body: true }];
    knock_down(&mut d[0]);
    assert_eq!(d[0].dead_ticks, Some(0));
    assert!(!d[0].has_body);
    let mut ups = 0;
    for k in 1..=120u16 {
        let r = tick_dummies(&mut d);
        if k < 120 {
            assert!(r.is_empty());
            assert_eq!(d[0].dead_ticks, Some(k));
        } else {
            assert_eq!(r, vec![0]);
            ups += 1;
        }
    }
    assert_eq!(ups, 1);
    assert_eq!(d[0].health, Some(Health { hp: 20, max: 20, iframes: 0, flash: 0 }));
}

#[test]
fn a_hurt_player_drops_to_the_lower_rank_floor() {
    let mut pd = calm_player();
    pd.style_rank = 2;
    pd.style_points = rank_floor(2) + 30;
    pd.no_dmg_streak = 40;
    pd.energy = 700;
    let mut h = Health { hp: 6, max: 6, iframes: 0, flash: 0 };
    let (r, _) = apply_player_damage(&mut pd, &mut h, 2, false);
    assert_eq!(r, PlayerHit::Hurt);
    assert_eq!(pd.style_rank, 1);
    assert_eq!(pd.style_points, rank_floor(1));
    assert_eq!(pd.style_pulse, 12);
    assert_eq!(pd.no_dmg_streak, 0);
    assert_eq!(pd.hearts, 4);
    assert_eq!(pd.energy, 700);
}

#[test]
fn wave_banners_and_defaults() {
    assert_eq!(wave_banner(WaveEvent::Spawned(2)), Some("WAVE 2"));
    assert_eq!(wave_banner(WaveEvent::Cleared(5)), Some("CLEAR!"));
    assert_eq!(wave_banner(WaveEvent::Nothing), None);
    let d = WaveDirector::default();
    assert_eq!((d.wave, d.lull, d.active, d.spawned_this_wave), (0, 30, true, false));
    assert!(Toasts::default().queue.is_empty());
}

#[test]
fn combat_events_apply_in_order() {
    let slime = Target {
        kind: EntityKind::Slime,
        is_enemy: true,
        dummy_down: false,
        hiding: false,
        health: Some(Health { hp: 2, max: 2, iframes: 0, flash: 0 }),
    };
    let dummy = Target { kind: EntityKind::Dummy, health: Some(Health { hp: 1, max: 20, iframes: 0, flash: 0 }), ..slime };
    let mut slots = vec![Some((0u32, slime)), Some((1u32, dummy)), None];
    let mut pd = calm_player();
    let mut h = Health { hp: 6, max: 6, iframes: 0, flash: 0 };
    let hit = |index: u32, gen: u32, damage_floor: i32| WorldEvent::AttackHit {
        target: EntityId { index, gen },
        attack: AttackKind::Slash,
        damage_floor,
        source: eid(0),
        payload: 0u8,
    };
    let events = vec![
        hit(0, 0, 1),
        // Pushed down: from behind a player facing down.
        WorldEvent::DamagedPlayer { amount: 2, dx: 0, dy: 256, payload: 0u8 },
        WorldEvent::Sfx(Sfx::Kill),
        hit(1, 1, 5),
        hit(2, 0, 1),
        hit(0, 0, 1),
        hit(0, 7, 1),
    ];
    pd.shield_held = true;
    let (applied, cues) = apply_combat_events(&mut slots, &mut pd, &mut h, &events, Dir4::Down);
    assert_eq!(applied.len(), 6);
    assert!(matches!(applied[0], Applied::Enemy { outcome: HitOutcome::Damaged { killed: false, .. }, .. }));
    assert_eq!(applied[1], Applied::Player(PlayerHit::Hurt));
    assert!(matches!(applied[2], Applied::Enemy { outcome: HitOutcome::Damaged { dummy_knocked_down: true, .. }, .. }));
    assert_eq!(applied[3], Applied::Missed);
    // The slime is invulnerable right after its first hit.
    assert!(matches!(applied[4], Applied::Enemy { outcome: HitOutcome::Ignored, .. }));
    // A stale generation misses.
    assert_eq!(applied[5], Applied::Missed);
    assert_eq!(slots[0].unwrap().1.health.unwrap().hp, 1);
    assert!(slots[1].unwrap().1.dummy_down);
    assert_eq!(h.hp, 4);
    assert_eq!(pd.hearts, 4);
    assert!(is_sound(cues.last().unwrap(), Sfx::HurtPlayer));
}

#[test]
fn a_stunned_ironshell_stands_still() {
    let tun = IronshellTuning { bash_tele: 20, bash_ticks: 10, recover: 30, stagger: 40 };
    let mut d = IronshellData { spawn_telegraph: 0, state: IronshellState::Bash, timer: 3, stun_ticks: 2, stagger_len: 0 };
    let tk = ironshell_update(&mut d, tun, true);
    assert_eq!(tk, EnemyTick { frame: 3, motion: Motion::Stop, sound: None, contact: false, strike: false });
    assert_eq!((d.stun_ticks, d.state, d.timer), (1, IronshellState::Bash, 3));
    ironshell_update(&mut d, tun, true);
    // Stun over: the bash resumes.
    let tk = ironshell_update(&mut d, tun, true);
    assert_eq!(tk.motion, Motion::Rush);
    assert_eq!(d.timer, 4);
}

#[test]
fn sword_hitboxes_by_kind() {
    let owner = EntityId { index: 0, gen: 0 };
    let slash = sword_hitbox(owner, 7, AttackKind::Slash, Dir4::Right, (1000, 2000));
    assert_eq!((slash.owner, slash.swing_id, slash.kind), (owner, 7, AttackKind::Slash));
    assert_eq!(slash.area, Aabb { cx: 1000 + SLASH_REACH, cy: 2000, hx: SLASH_HALF, hy: SLASH_HALF });
    assert!(!slash.use_radius);
    assert_eq!(slash.damage_floor, 1);
    assert_eq!(slash.payload, SwingPush { facing: Dir4::Right, damage_tenths: 10, knockback_hundredths: 200 });
    let fin = sword_hitbox(owner, 7, AttackKind::Finisher, Dir4::Up, (1000, 2000));
    assert_eq!(fin.area.cy, 2000 - SLASH_REACH);
    assert_eq!((fin.damage_floor, fin.payload.damage_tenths, fin.payload.knockback_hundredths), (1, 15, 512));
    let spin = sword_hitbox(owner, 8, AttackKind::Spin, Dir4::Down, (1000, 2000));
    assert!(spin.use_radius);
    assert_eq!((spin.radius, spin.area.cx, spin.area.cy), (SPIN_RADIUS, 1000, 2000));
    assert_eq!((spin.damage_floor, spin.payload.damage_tenths), (2, 20));
}

#[test]
fn the_rim_crumbles_once_and_not_while_staggered() {
    let tun = WardenTuning { slam_tele: 40, sweep_tele: 30, prime_window: 60, prime_window_p2: 45, core_expose: 120 };
    let mut boss = spawn_fight(EntityId { index: 1, gen: 0 }, [EntityId { index: 2, gen: 0 }, EntityId { index: 3, gen: 0 }]);
    let mut d = WardenData { phase: WardenPhase::Three, attack: WardenAttack::Idle, timer: 0, core_exposed: 30, fake_armed: false };
    // Core open: staggered, no crumble.
    let (_, crumble) = fight_ai_tick(&mut boss, &mut d, tun, 0);
    assert!(!crumble && !boss.rim_crumbled);
    d.core_exposed = 0;
    let (_, crumble) = fight_ai_tick(&mut boss, &mut d, tun, 1);
    assert!(crumble && boss.rim_crumbled);
    let (_, crumble) = fight_ai_tick(&mut boss, &mut d, tun, 2);
    assert!(!crumble);
}
