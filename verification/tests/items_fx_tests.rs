use game::art::{decode_strip, GridError};
use game::boss::BossPhase;
use game::cue::Sfx;
use game::entity::{AnimState, AttackKind, EntityId, EntityKind, Health};
use game::events::{cap_sounds, route_combat_events, WorldEvent};
use game::frame::{move_enemy, overlaps_player, plan_frame, update_beams, Aabb, Beam, FrameClock, FramePlan, Slot};
use game::fx::{ambient_plan, ember_life, leaf_life, region_at, AmbientPlan, Fading, ParticleKind, Particles, PARTICLE_CAP};
use game::items::{
    drop_table, fly_boomerang, low_hp, note_catch_buffer, tick_bomb, try_place_bomb, try_throw, update_pickups,
    Boomerang, BoomerangPhase, Flight, Pickup, PickupKind,
};
use game::looks::{enemy_look, player_sprite, player_visible, Look, LookFacts};
use game::map::MapId;
use game::math::Dir4;
use game::music::{desired_track, sync, Track};
use game::player::{PlayerData, PlayerState};

fn idle_player() -> PlayerData {
    PlayerData {
        hearts: 3,
        max_hearts: 6,
        rupees: 0,
        bombs: 0,
        bomb_cap: 0,
        selected_item: 0,
        item_cycle_flash: 0,
        energy: 900,
        energy_deny_flash: 0,
        ticks_since_spend: 0,
        style_points: 0,
        style_rank: 0,
        style_pulse: 0,
        verb_cooldowns: [0; 6],
        combat_timer: 0,
        out_of_combat: 0,
        no_dmg_streak: 0,
        state: PlayerState::Idle,
        shield_held: false,
        shield_ticks: 0,
        buffer_attack: false,
        combo_drop: 0,
        swing_id: 0,
        hit_mask: 0,
        lunge_ticks: 0,
        charge_ready_sfx: false,
        dash_through_awarded: false,
        walk_timer: 0,
    }
}

#[test]
fn pickups_age_expire_and_collect() {
    let mut ps = vec![
        Pickup { kind: PickupKind::Rupee, life: 1 },
        Pickup { kind: PickupKind::Heart, life: 10 },
        Pickup { kind: PickupKind::Energy, life: 10 },
        Pickup { kind: PickupKind::Rupee, life: 10 },
    ];
    let near = vec![true, true, true, false];
    let mut pd = idle_player();
    let mut h = Some(Health { hp: 3, max: 6, iframes: 0, flash: 0 });
    let r = update_pickups(&mut ps, &near, &mut pd, &mut h);
    assert_eq!(r.expired, vec![0]);
    assert_eq!(r.collected, vec![1, 2]);
    assert_eq!(r.sounds, vec![Sfx::PickupHeart, Sfx::PickupEnergy]);
    assert_eq!(ps[3].life, 9);
    assert_eq!(h.unwrap().hp, 4);
    assert_eq!(pd.hearts, 4);
    assert_eq!(pd.energy, 1000);
    assert_eq!(pd.rupees, 0);
}

#[test]
fn hearts_never_overfill() {
    let mut ps = vec![Pickup { kind: PickupKind::Heart, life: 5 }, Pickup { kind: PickupKind::Heart, life: 5 }];
    let mut pd = idle_player();
    let mut h = Some(Health { hp: 5, max: 6, iframes: 0, flash: 0 });
    update_pickups(&mut ps, &vec![true, true], &mut pd, &mut h);
    assert_eq!(h.unwrap().hp, 6);
    assert_eq!(pd.hearts, 6);
}

#[test]
fn rupees_saturate() {
    let mut ps = vec![Pickup { kind: PickupKind::Rupee, life: 5 }];
    let mut pd = idle_player();
    pd.rupees = u32::MAX;
    let mut h = None;
    update_pickups(&mut ps, &vec![true], &mut pd, &mut h);
    assert_eq!(pd.rupees, u32::MAX);
}

#[test]
fn drop_bands() {
    assert!(drop_table(0, false, false).is_empty());
    assert!(drop_table(54, true, false).is_empty());
    assert_eq!(drop_table(55, true, false), vec![PickupKind::Rupee]);
    assert_eq!(drop_table(72, true, false), vec![PickupKind::Heart]);
    assert_eq!(drop_table(83, false, false), vec![PickupKind::Rupee]);
    assert_eq!(drop_table(84, false, false), vec![PickupKind::Energy]);
    assert_eq!(drop_table(10, false, true), vec![PickupKind::Rupee, PickupKind::Energy]);
    assert_eq!(drop_table(99, false, true), vec![PickupKind::Energy, PickupKind::Rupee, PickupKind::Energy]);
}

#[test]
fn low_hp_is_half_or_less() {
    assert!(low_hp(Some(Health { hp: 3, max: 6, iframes: 0, flash: 0 })));
    assert!(!low_hp(Some(Health { hp: 4, max: 6, iframes: 0, flash: 0 })));
    assert!(low_hp(Some(Health { hp: 2, max: 5, iframes: 0, flash: 0 })));
    assert!(!low_hp(Some(Health { hp: 3, max: 5, iframes: 0, flash: 0 })));
    assert!(!low_hp(None));
}

#[test]
fn bombs_need_a_bag_and_the_item() {
    let mut pd = idle_player();
    assert!(!try_place_bomb(&mut pd));
    pd.selected_item = 1;
    pd.bomb_cap = 10;
    pd.bombs = 1;
    assert!(try_place_bomb(&mut pd));
    assert_eq!(pd.bombs, 0);
    assert!(!try_place_bomb(&mut pd));
}

#[test]
fn bomb_fuse_burns_down() {
    let mut fuse = 2u16;
    let mut anim = AnimState { frame: 0, sheet: 0, timer: 0 };
    assert!(!tick_bomb(&mut fuse, &mut anim));
    assert_eq!((fuse, anim.timer, anim.frame), (1, 1, 0));
    assert!(tick_bomb(&mut fuse, &mut anim));
    assert_eq!((fuse, anim.timer, anim.frame), (0, 2, 1));
    let mut long = 100u16;
    let mut anim2 = AnimState { frame: 0, sheet: 0, timer: 7 };
    tick_bomb(&mut long, &mut anim2);
    assert_eq!(anim2.frame, 1);
}

#[test]
fn boomerang_throw_and_catch_buffer() {
    let mut pd = idle_player();
    assert_eq!(try_throw(false, &mut pd), None);
    pd.selected_item = 2;
    pd.swing_id = 41;
    assert_eq!(try_throw(true, &mut pd), None);
    assert_eq!(try_throw(false, &mut pd), Some(42));
    assert_eq!(pd.swing_id, 42);
    let mut booms = vec![
        Boomerang { phase: BoomerangPhase::Out, throw_id: 1, flame: false, catch_buffer: false, traveled: 0 },
        Boomerang { phase: BoomerangPhase::Return, throw_id: 2, flame: false, catch_buffer: false, traveled: 0 },
    ];
    note_catch_buffer(&mut booms);
    assert!(!booms[0].catch_buffer);
    assert!(booms[1].catch_buffer);
}

#[test]
fn particle_pool_keeps_its_cap() {
    let mut p: Particles<u32> = Particles::new();
    for i in 0..200u32 {
        p.push(i, 5, ParticleKind::Dust, i % 2 == 0);
    }
    assert_eq!(p.count(), PARTICLE_CAP);
    assert_eq!(p.list[0].body, 20);
    assert_eq!(p.ambient_count(), 90);
    for _ in 0..5 {
        p.update();
    }
    assert_eq!(p.count(), 0);
}

#[test]
fn bursts_have_their_lives() {
    let mut p: Particles<u8> = Particles::new();
    p.spawn_burst(ParticleKind::Poof, &vec![1, 2, 3]);
    assert_eq!(p.count(), 3);
    assert_eq!(p.list[2].life, 22);
    assert!(!p.list[2].ambient);
    p.spawn_burst(ParticleKind::Fountain, &vec![9]);
    assert_eq!(p.list[3].life, 20);
    assert!(p.list[3].ambient);
    assert_eq!(leaf_life(0), 90);
    assert_eq!(leaf_life(41), 91);
    assert_eq!(ember_life(65535), 28 + 15);
}

#[test]
fn fading_marks_vanish() {
    let mut f: Fading<u8> = Fading::new();
    f.spawn(1, 2);
    f.spawn(2, 1);
    f.update();
    assert_eq!(f.list.len(), 1);
    assert_eq!(f.list[0].body, 1);
    assert_eq!(f.list[0].life, 1);
    f.update();
    assert!(f.list.is_empty());
}

#[test]
fn ambient_spawns_by_region_and_budget() {
    assert_eq!(ambient_plan(true, 0, Some(1), 18 * 22 * 28), AmbientPlan { ember: true, fountain: true, leaf: true });
    assert_eq!(ambient_plan(true, 23, Some(1), 18 * 22 * 28), AmbientPlan { ember: true, fountain: false, leaf: false });
    assert_eq!(ambient_plan(true, 24, Some(1), 0), AmbientPlan { ember: false, fountain: false, leaf: false });
    assert_eq!(ambient_plan(true, 0, Some(2), 14), AmbientPlan { ember: false, fountain: false, leaf: true });
    assert_eq!(ambient_plan(false, 0, Some(2), 14), AmbientPlan { ember: false, fountain: false, leaf: false });
    assert_eq!(region_at(&vec![(0, 0, 9, 9), (5, 5, 20, 20)], 6, 6), Some(0));
    assert_eq!(region_at(&vec![(0, 0, 9, 9), (5, 5, 20, 20)], 15, 6), Some(1));
    assert_eq!(region_at(&vec![(0, 0, 9, 9)], 15, 6), None);
}

#[test]
fn music_follows_the_story() {
    assert_eq!(desired_track(true, true, None, MapId::Dungeon, 1), Track::Title);
    assert_eq!(desired_track(false, true, None, MapId::Dungeon, 1), Track::Victory);
    assert_eq!(desired_track(false, false, Some(BossPhase::Fight), MapId::Dungeon, 0), Track::Boss);
    assert_eq!(desired_track(false, false, Some(BossPhase::Victory), MapId::Dungeon, 0), Track::Victory);
    assert_eq!(desired_track(false, false, None, MapId::Dungeon, 1), Track::Dungeon);
    assert_eq!(desired_track(false, false, None, MapId::Arena, 1), Track::Overworld);
    assert_eq!(desired_track(false, false, None, MapId::Overworld, 1), Track::Village);
    assert_eq!(desired_track(false, false, None, MapId::House(2), 0), Track::Overworld);
    let mut playing = None;
    assert_eq!(sync(&mut playing, Track::Village), Some(Track::Village));
    assert_eq!(sync(&mut playing, Track::Village), None);
    assert_eq!(sync(&mut playing, Track::Boss), Some(Track::Boss));
}

#[test]
fn player_sprites_by_state() {
    assert_eq!(player_sprite(Dir4::Down, PlayerState::Idle, false, 0, 24, true, false), ("player_hurt", 0, false));
    assert_eq!(player_sprite(Dir4::Left, PlayerState::Swing { stage: 0, tick: 6 }, false, 0, 0, false, false), ("player_slash_r", 1, true));
    assert_eq!(player_sprite(Dir4::Up, PlayerState::Swing { stage: 2, tick: 11 }, false, 0, 0, false, false), ("player_lunge_u", 1, false));
    assert_eq!(player_sprite(Dir4::Right, PlayerState::Spin { tick: 9 }, false, 0, 0, false, false), ("player_spin", 4, false));
    assert_eq!(player_sprite(Dir4::Down, PlayerState::Dash { tick: 5 }, false, 0, 0, true, false), ("player_dash_d", 1, false));
    assert_eq!(player_sprite(Dir4::Up, PlayerState::Idle, true, 0, 0, false, true), ("player_shield", 1, false));
    assert_eq!(player_sprite(Dir4::Right, PlayerState::Idle, false, 17, 0, false, true), ("player_walk_r", 2, false));
    assert_eq!(player_sprite(Dir4::Up, PlayerState::Idle, false, 0, 30, false, false), ("player_idle", 3, false));
    assert!(!player_visible(4));
    assert!(player_visible(2));
    assert!(player_visible(0));
}

fn facts(kind: EntityKind) -> LookFacts {
    LookFacts {
        kind,
        dummy_down: false,
        has_body: true,
        flash: Some(0),
        hp: Some(3),
        facing: Dir4::Left,
        frame: 7,
        timer: 20,
        rock_reflected: false,
        wisp_telegraph: false,
        wisp_phased: false,
    }
}

#[test]
fn enemy_looks() {
    match enemy_look(&facts(EntityKind::Skeleton)) {
        Look::Sprite { key, frame, flip, tall } => assert_eq!((key, frame, flip, tall), ("skeleton", 4, true, true)),
        other => panic!("unexpected {:?}", other),
    }
    let mut angry = facts(EntityKind::Slime);
    angry.hp = Some(1);
    match enemy_look(&angry) {
        Look::Sprite { key, .. } => assert_eq!(key, "slime_angry"),
        other => panic!("unexpected {:?}", other),
    }
    let mut spawning = facts(EntityKind::Bat);
    spawning.has_body = false;
    assert!(matches!(enemy_look(&spawning), Look::Telegraph));
    let mut blinking = facts(EntityKind::Octorok);
    blinking.flash = Some(2);
    assert!(matches!(enemy_look(&blinking), Look::Hidden));
    assert!(matches!(enemy_look(&facts(EntityKind::Chest)), Look::NotEnemy));
    let mut phased = facts(EntityKind::Wisp);
    phased.wisp_phased = true;
    match enemy_look(&phased) {
        Look::Sprite { frame, .. } => assert_eq!(frame, 2),
        other => panic!("unexpected {:?}", other),
    }
}

#[test]
fn combat_events_route_first() {
    let id = EntityId { index: 1, gen: 0 };
    let events: Vec<WorldEvent<u8>> = vec![
        WorldEvent::Sfx(Sfx::Kill),
        WorldEvent::AttackHit { target: id, attack: AttackKind::Slash, damage_floor: 1, source: id, payload: 0 },
        WorldEvent::GroupCleared(3),
        WorldEvent::DamagedPlayer { amount: 2, dx: 0, dy: 256, payload: 1 },
    ];
    let (combat, rest) = route_combat_events(events);
    assert_eq!(combat.len(), 2);
    assert!(matches!(combat[0], WorldEvent::AttackHit { .. }));
    assert!(matches!(combat[1], WorldEvent::DamagedPlayer { amount: 2, .. }));
    assert_eq!(rest.len(), 2);
    assert!(matches!(rest[1], WorldEvent::GroupCleared(3)));
}

#[test]
fn at_most_eight_sounds_a_tick() {
    let many = vec![Sfx::Kill; 12];
    assert_eq!(cap_sounds(&many).len(), 8);
    let few = vec![Sfx::Kill, Sfx::Dash];
    assert_eq!(cap_sounds(&few), few);
}

#[test]
fn frame_plan_holds_the_world_when_paused() {
    let mut clock = FrameClock { world_tick: 5, door_cooldown: 2, hitstop: 1 };
    assert_eq!(plan_frame(&mut clock, true, false, false), FramePlan::Viewer);
    assert_eq!(plan_frame(&mut clock, false, true, false), FramePlan::Transition);
    assert_eq!(plan_frame(&mut clock, false, false, true), FramePlan::Paused);
    assert_eq!(clock, FrameClock { world_tick: 5, door_cooldown: 2, hitstop: 1 });
    assert_eq!(plan_frame(&mut clock, false, false, false), FramePlan::Hitstop);
    assert_eq!(clock, FrameClock { world_tick: 6, door_cooldown: 1, hitstop: 0 });
    assert_eq!(plan_frame(&mut clock, false, false, false), FramePlan::Run);
    assert_eq!(clock, FrameClock { world_tick: 7, door_cooldown: 0, hitstop: 0 });
}

#[test]
fn stale_ids_do_not_move() {
    let arena = vec![Slot { gen: 0, occupied: true }, Slot { gen: 3, occupied: true }, Slot { gen: 1, occupied: false }];
    assert_eq!(move_enemy(&arena, EntityId { index: 1, gen: 3 }), Some(1));
    assert_eq!(move_enemy(&arena, EntityId { index: 1, gen: 2 }), None);
    assert_eq!(move_enemy(&arena, EntityId { index: 2, gen: 1 }), None);
    assert_eq!(move_enemy(&arena, EntityId { index: 9, gen: 0 }), None);
}

#[test]
fn beams_fly_their_range() {
    let mut beams = vec![
        Beam { kind: EntityKind::SwordBeam, traveled: 0 },
        Beam { kind: EntityKind::DebugShot, traveled: 0 },
        Beam { kind: EntityKind::Slime, traveled: 0 },
    ];
    let mut spent_at = [0u32; 2];
    for tick in 1..=200u32 {
        let spent = update_beams(&mut beams);
        for i in spent {
            if spent_at[i] == 0 {
                spent_at[i] = tick;
            }
        }
    }
    // 128 px at 3 px a tick; 220 px at 1.2 px a tick.
    assert_eq!(spent_at, [43, 184]);
    assert_eq!(beams[2].traveled, 0);
}

#[test]
fn contact_needs_a_player_body() {
    let p = Aabb { cx: 0, cy: 0, hx: 8, hy: 8 };
    let e = Aabb { cx: 15, cy: 0, hx: 8, hy: 8 };
    assert!(overlaps_player(Some(p), e));
    let touching = Aabb { cx: 16, cy: 0, hx: 8, hy: 8 };
    assert!(!overlaps_player(Some(p), touching));
    assert!(!overlaps_player(None, e));
}

#[test]
fn strips_decode_to_rgba() {
    let grid: Vec<char> = "\n  ab \r\n\n ba\n".chars().collect();
    let palette = vec![('a', [1, 2, 3, 4]), ('b', [5, 6, 7, 8])];
    let px = decode_strip(&grid, 1, 2, 2, &palette).unwrap();
    assert_eq!(px, vec![1, 2, 3, 4, 5, 6, 7, 8, 5, 6, 7, 8, 1, 2, 3, 4]);
}

#[test]
fn strips_report_their_faults() {
    let palette = vec![('a', [1, 2, 3, 4])];
    let wide: Vec<char> = "aaa\naa".chars().collect();
    assert_eq!(decode_strip(&wide, 2, 2, 1, &palette), Err(GridError::RowWidth { width: 3 }));
    let short: Vec<char> = "aa".chars().collect();
    assert_eq!(decode_strip(&short, 2, 2, 1, &palette), Err(GridError::RowCount { rows: 1 }));
    let bad: Vec<char> = "aa\naz".chars().collect();
    assert_eq!(decode_strip(&bad, 2, 2, 1, &palette), Err(GridError::BadChar { ch: 'z' }));
}

#[test]
fn boomerang_turns_at_range_and_is_caught() {
    let mut b = Boomerang { phase: BoomerangPhase::Out, throw_id: 3, flame: false, catch_buffer: false, traveled: 0 };
    let mut steps = 0;
    while fly_boomerang(&mut b, false, false) == Flight::Onward {
        steps += 1;
    }
    // 32 steps of 3.4 px reach 108.8 px; the 33rd would reach 112.2.
    assert_eq!(steps, 32);
    assert_eq!(b.traveled, 1088);
    assert_eq!(b.phase, BoomerangPhase::Return);
    assert_eq!(fly_boomerang(&mut b, false, false), Flight::Homing);
    b.catch_buffer = true;
    assert_eq!(fly_boomerang(&mut b, false, true), Flight::Caught { rethrow: true });

    let mut w = Boomerang { phase: BoomerangPhase::Out, throw_id: 4, flame: true, catch_buffer: false, traveled: 34 };
    assert_eq!(fly_boomerang(&mut w, true, false), Flight::TurnBack);
    assert_eq!(w.traveled, 34);
    assert_eq!(w.phase, BoomerangPhase::Return);
}
