use game::entity::Health;
use game::interact::{
    count_gems, grant_gem, in_tile, open_chest, take_gem, talk_to_elder, try_landmark, try_shrine_seal, ChestOpen,
    ElderLine, GemTake, Landmark, Loot, ShrineSeal, ShrineTiles, StoryFlags,
};
use game::map::{arrival_clear, inside, MapId, Trigger, TriggerKind};
use game::player::{PlayerData, PlayerState};
use game::rooms::{
    door_is_open, exits_reciprocal, locked_door, small_keys_held, unlock_door, DoorKind, DoorTiles, DungeonFlags, ExitDef,
    LockedDoor, RoomDef, RoomsState, SlideTick,
};
use game::state::{
    begin_transition, check_triggers, fade_level, rescue_if_dead, tick_transition, FairyRescue, GameMode, PlayerPersist,
    TransitionTick, TriggerEvent,
};
use game::tiles::Ground;

fn fresh_player() -> PlayerData {
    PlayerData {
        hearts: 6,
        max_hearts: 6,
        rupees: 0,
        bombs: 0,
        bomb_cap: 0,
        selected_item: 0,
        item_cycle_flash: 0,
        energy: 1000,
        energy_deny_flash: 0,
        ticks_since_spend: 0,
        style_points: 0,
        style_rank: 0,
        style_pulse: 0,
        verb_cooldowns: [0; 6],
        combat_timer: 0,
        out_of_combat: 0,
        no_dmg_streak: 0,
        state: PlayerState::Idle,
        shield_held: false,
        shield_ticks: 0,
        buffer_attack: false,
        combo_drop: 0,
        swing_id: 0,
        hit_mask: 0,
        lunge_ticks: 0,
        charge_ready_sfx: false,
        dash_through_awarded: false,
        walk_timer: 0,
    }
}

fn key_flags() -> DungeonFlags {
    DungeonFlags {
        small_key_1: 1,
        small_key_2: 2,
        door_wing: 3,
        door_inner: 4,
        boss_key: 5,
        door_boss_used: 6,
        seal_west: 7,
        seal_east: 8,
    }
}

fn door_tiles() -> DoorTiles {
    DoorTiles { door_open: 20, door_locked: 21, door_boss: 22, seal_door: 23, seal_broken: 24, shutter: 25 }
}

fn story() -> StoryFlags {
    StoryFlags {
        gem_courage: 100,
        gem_power: 101,
        gem_wisdom: 102,
        item_boomerang: 103,
        dchest_key1: 104,
        dkey_small_1: 105,
        dkey_small_2: 106,
        dkey_boss: 107,
        chest_power_gem: 108,
        group_camp_guard: 109,
        puzzle_chimes_done: 110,
        door_shrine_open: 111,
        shard_of_courage: 112,
        quest_started: 113,
        chest_cliffs_heart: 114,
        chest_ruins_cellar: 115,
        chest_grove_heart: 116,
        heart_piece_1: 117,
        heart_piece_2: 118,
        heart_piece_3: 119,
        secret_cliffs_cave: 120,
        secret_summit_vista: 121,
        wall_grove_open: 122,
        secret_shrine_braziers: 123,
        chest_shrine_braziers: 124,
    }
}

#[test]
fn small_keys_are_found_minus_spent() {
    let f = key_flags();
    assert_eq!(small_keys_held(&vec![], &f), 0);
    assert_eq!(small_keys_held(&vec![1], &f), 1);
    assert_eq!(small_keys_held(&vec![1, 2], &f), 2);
    assert_eq!(small_keys_held(&vec![1, 2, 3], &f), 1);
    assert_eq!(small_keys_held(&vec![1, 2, 3, 4], &f), 0);
    // Never below zero.
    assert_eq!(small_keys_held(&vec![3, 4], &f), 0);
}

#[test]
fn doors_open_by_tile_or_kind() {
    let f = key_flags();
    let t = door_tiles();
    let key_door = ExitDef { tx: 0, ty: 0, door: DoorKind::SmallKey, to_room: 1 };
    assert!(!door_is_open(&vec![], 0, false, &key_door, &f, &t));
    assert!(door_is_open(&vec![3], 0, false, &key_door, &f, &t));
    assert!(door_is_open(&vec![], t.door_open, false, &key_door, &f, &t));
    let open = ExitDef { tx: 0, ty: 0, door: DoorKind::Open, to_room: 1 };
    assert!(door_is_open(&vec![], 0, false, &open, &f, &t));
    assert!(!door_is_open(&vec![], 0, true, &open, &f, &t));
    let shutter = ExitDef { tx: 0, ty: 0, door: DoorKind::Shutter, to_room: 1 };
    assert!(!door_is_open(&vec![1, 2, 3, 4, 5, 6, 7, 8], 0, false, &shutter, &f, &t));
    assert!(door_is_open(&vec![], t.seal_broken, false, &shutter, &f, &t));
}

fn two_rooms() -> Vec<RoomDef> {
    let a = RoomDef {
        id: 1,
        rect: (0, 0, 9, 9),
        exits: [Some(ExitDef { tx: 5, ty: 0, door: DoorKind::SmallKey, to_room: 2 }), None, None, None],
    };
    let b = RoomDef {
        id: 2,
        rect: (0, 10, 9, 19),
        exits: [None, None, Some(ExitDef { tx: 5, ty: 19, door: DoorKind::SmallKey, to_room: 1 }), None],
    };
    vec![a, b]
}

#[test]
fn locked_door_wants_a_key() {
    let f = key_flags();
    let t = door_tiles();
    let rooms = two_rooms();
    let mut g = Ground::new(10, 20, 0);
    g.set(5, 0, t.door_locked);
    g.set(5, 19, t.door_locked);
    // Feet just below the door, pressing up.
    assert_eq!(locked_door(&g, &rooms, 1, &vec![], (5, 1), &f, &t), LockedDoor::Dialog);
    let verdict = locked_door(&g, &rooms, 1, &vec![1], (5, 1), &f, &t);
    let exit = rooms[0].exits[0].unwrap();
    assert_eq!(verdict, LockedDoor::Unlocked { exit, flag: 3 });
    let mut flags = vec![1];
    unlock_door(&mut flags, &mut g, &rooms, 1, &exit, 3, &t);
    assert_eq!(flags, vec![1, 3]);
    assert_eq!(g.get(5, 0), t.door_open);
    assert_eq!(g.get(5, 19), t.door_open);
    assert_eq!(small_keys_held(&flags, &f), 0);
    // Nothing locked around elsewhere.
    assert_eq!(locked_door(&g, &rooms, 1, &flags, (2, 5), &f, &t), LockedDoor::Nothing);
}

#[test]
fn slide_takes_twenty_four_ticks() {
    let rooms = two_rooms();
    let mut rs = RoomsState::new(1);
    let exit = ExitDef { tx: 5, ty: 0, door: DoorKind::Open, to_room: 2 };
    assert!(rs.start_slide(&rooms, &rooms[0], &exit, 0));
    for t in 1..24u8 {
        assert_eq!(rs.tick_slide(), SlideTick::Sliding { t });
    }
    assert_eq!(rs.tick_slide(), SlideTick::Arrived { room: 2 });
    assert_eq!(rs.current, 2);
    assert!(rs.slide.is_none());
    assert_eq!(rs.tick_slide(), SlideTick::Idle);
    let missing = ExitDef { tx: 5, ty: 0, door: DoorKind::Open, to_room: 9 };
    assert!(!rs.start_slide(&rooms, &rooms[0], &missing, 0));
}

#[test]
fn room_exit_needs_open_door_under_feet() {
    let f = key_flags();
    let t = door_tiles();
    let rooms = two_rooms();
    let g = Ground::new(10, 20, 0);
    let mut rs = RoomsState::new(1);
    assert!(!rs.try_room_exit(&g, &rooms, &vec![], &vec![], (5, 0), &f, &t));
    assert!(rs.slide.is_none());
    assert!(rs.try_room_exit(&g, &rooms, &vec![3], &vec![], (5, 0), &f, &t));
    assert_eq!(rs.slide.unwrap().to_room, 2);
}

#[test]
fn transition_switches_at_sixteen_and_ends_at_thirty_two() {
    let mut mode = GameMode::Play;
    assert_eq!(tick_transition(&mut mode), TransitionTick::Idle);
    begin_transition(&mut mode, MapId::Dungeon, 3);
    let mut switches = 0;
    for n in 1..=32 {
        let r = tick_transition(&mut mode);
        if n == 16 {
            assert_eq!(r, TransitionTick::SwitchMap { target: MapId::Dungeon, entry: 3 });
            switches += 1;
        } else if n == 32 {
            assert_eq!(r, TransitionTick::Done);
        } else {
            assert_eq!(r, TransitionTick::Fading);
        }
        if n == 8 {
            assert_eq!(fade_level(&mode), 8);
        }
        if n == 24 {
            assert_eq!(fade_level(&mode), 8);
        }
    }
    assert_eq!(switches, 1);
    assert_eq!(mode, GameMode::Play);
    assert_eq!(fade_level(&mode), 0);
}

#[test]
fn triggers_door_checkpoint_and_secret() {
    let triggers = vec![
        Trigger { tx: 0, ty: 0, w: 4, h: 4, kind: TriggerKind::Banner { region: 2 } },
        Trigger { tx: 1, ty: 1, w: 1, h: 1, kind: TriggerKind::Checkpoint { id: 5 } },
        Trigger { tx: 1, ty: 1, w: 1, h: 1, kind: TriggerKind::Secret { flag: 77 } },
    ];
    let mut cooldown = 0u8;
    let mut checkpoint = 0u8;
    let mut flags = vec![];
    let mut energy = 100u32;
    let r = check_triggers(&triggers, (1, 1), &mut cooldown, &mut checkpoint, &mut flags, &mut energy, 77);
    assert_eq!(r.events, vec![TriggerEvent::Region(2), TriggerEvent::Checkpoint(5), TriggerEvent::Secret(77), TriggerEvent::Fairy]);
    assert!(r.save);
    assert_eq!(r.door, None);
    assert_eq!(checkpoint, 5);
    assert_eq!(flags, vec![77]);
    assert_eq!(energy, 1000);
    // Second time: only the banner.
    let r = check_triggers(&triggers, (1, 1), &mut cooldown, &mut checkpoint, &mut flags, &mut energy, 77);
    assert_eq!(r.events, vec![TriggerEvent::Region(2)]);
    assert!(!r.save);
}

#[test]
fn door_trigger_fires_once_per_cooldown() {
    let triggers = vec![
        Trigger { tx: 2, ty: 2, w: 1, h: 1, kind: TriggerKind::Door { target: MapId::Shop, entry: 1 } },
        Trigger { tx: 2, ty: 2, w: 1, h: 1, kind: TriggerKind::Checkpoint { id: 9 } },
    ];
    let mut cooldown = 0u8;
    let mut checkpoint = 0u8;
    let mut flags = vec![];
    let mut energy = 0u32;
    let r = check_triggers(&triggers, (2, 2), &mut cooldown, &mut checkpoint, &mut flags, &mut energy, 0);
    assert_eq!(r.door, Some((MapId::Shop, 1)));
    assert_eq!(cooldown, 40);
    // The pass ended at the door: the checkpoint after it was not taken.
    assert_eq!(checkpoint, 0);
    let r = check_triggers(&triggers, (2, 2), &mut cooldown, &mut checkpoint, &mut flags, &mut energy, 0);
    assert_eq!(r.door, None);
    assert_eq!(checkpoint, 9);
    assert!(!inside(&triggers[0], 3, 2));
}

#[test]
fn fairy_rescues_the_fallen() {
    let mut pd = fresh_player();
    pd.hearts = 0;
    pd.energy = 10;
    pd.state = PlayerState::Dash { tick: 3 };
    let mut h = Some(Health { hp: 0, max: 4, iframes: 0, flash: 2 });
    assert_eq!(
        rescue_if_dead(&mut pd, &mut h, MapId::Dungeon, 3),
        Some(FairyRescue { map: MapId::Dungeon, entry: 3, toast: "FAIRY RESCUE" })
    );
    assert_eq!(h, Some(Health { hp: 6, max: 6, iframes: 90, flash: 0 }));
    assert_eq!(pd.hearts, 6);
    assert_eq!(pd.energy, 1000);
    assert_eq!(pd.state, PlayerState::Idle);
    let mut alive = Some(Health { hp: 3, max: 6, iframes: 0, flash: 0 });
    assert_eq!(rescue_if_dead(&mut pd, &mut alive, MapId::Overworld, 0), None);
    assert_eq!(rescue_if_dead(&mut pd, &mut None, MapId::Overworld, 0), None);
}

#[test]
fn persist_carries_meters_over_a_map_switch() {
    let mut pd = fresh_player();
    pd.hearts = 4;
    pd.rupees = 33;
    pd.energy = 420;
    pd.bombs = 3;
    pd.bomb_cap = 10;
    pd.selected_item = 1;
    pd.style_points = 9000;
    pd.style_rank = 2;
    let p = PlayerPersist::from_player(&pd, 2, 5, vec![9]);
    let mut fresh = fresh_player();
    let mut h = Some(Health { hp: 6, max: 6, iframes: 0, flash: 0 });
    p.apply(&mut fresh, &mut h);
    assert_eq!(fresh.hearts, 4);
    assert_eq!(fresh.rupees, 33);
    assert_eq!(fresh.energy, 420);
    assert_eq!(fresh.bombs, 3);
    assert_eq!(fresh.selected_item, 1);
    assert_eq!(fresh.style_points, 9000);
    assert_eq!(h, Some(Health { hp: 4, max: 6, iframes: 0, flash: 0 }));
    let f = PlayerPersist::fresh(0, 0, vec![]);
    assert_eq!((f.hearts, f.max_hearts, f.energy), (6, 6, 1000));
}

#[test]
fn gems_set_bits_flags_and_checkpoints() {
    let s = story();
    let mut gems = 0u8;
    let mut flags = vec![];
    let mut cp = 0u8;
    grant_gem(&mut gems, &mut flags, &mut cp, 1, &s);
    assert_eq!((gems, cp), (2, 3));
    grant_gem(&mut gems, &mut flags, &mut cp, 0, &s);
    grant_gem(&mut gems, &mut flags, &mut cp, 7, &s);
    assert_eq!((gems, cp), (7, 4));
    assert_eq!(flags, vec![101, 100, 102]);
    assert_eq!(count_gems(gems), 3);
    assert_eq!(count_gems(0b1010_0001), 3);
}

#[test]
fn shrine_seal_wants_three_gems() {
    let s = story();
    let st = ShrineTiles { cave_mouth: 50, path: 51 };
    let mut g = Ground::new(130, 20, 0);
    let mut flags = vec![];
    let mut triggers = vec![];
    assert_eq!(try_shrine_seal(&mut flags, &mut g, &mut triggers, 3, MapId::Overworld, (121, 11), &s, st), ShrineSeal::Holds { gems: 2 });
    assert_eq!(try_shrine_seal(&mut flags, &mut g, &mut triggers, 7, MapId::Overworld, (100, 11), &s, st), ShrineSeal::NotHere);
    assert_eq!(try_shrine_seal(&mut flags, &mut g, &mut triggers, 7, MapId::Dungeon, (121, 11), &s, st), ShrineSeal::NotHere);
    assert_eq!(try_shrine_seal(&mut flags, &mut g, &mut triggers, 7, MapId::Overworld, (121, 11), &s, st), ShrineSeal::Opened);
    assert_eq!(flags, vec![111]);
    assert_eq!((g.get(119, 10), g.get(120, 10), g.get(121, 10)), (51, 50, 51));
    assert_eq!(triggers.len(), 1);
    assert_eq!(triggers[0].kind, TriggerKind::Door { target: MapId::ShrineLobby, entry: 0 });
    assert_eq!(try_shrine_seal(&mut flags, &mut g, &mut triggers, 7, MapId::Overworld, (121, 11), &s, st), ShrineSeal::NotHere);
}

#[test]
fn chests_give_their_loot_once() {
    let s = story();
    let mut flags = vec![];
    let mut pd = fresh_player();
    assert_eq!(open_chest(&mut flags, &mut pd, false, 130, Loot::Boomerang, false, &s), ChestOpen::Opened(Loot::Boomerang));
    assert_eq!(flags, vec![130, 103]);
    assert_eq!(pd.selected_item, 2);
    assert_eq!(open_chest(&mut flags, &mut pd, true, 130, Loot::Boomerang, false, &s), ChestOpen::AlreadyOpen);
    // The first key chest gives the first small key.
    open_chest(&mut flags, &mut pd, false, 104, Loot::SmallKey, false, &s);
    assert!(flags.contains(&105));
    open_chest(&mut flags, &mut pd, false, 131, Loot::SmallKey, false, &s);
    assert!(flags.contains(&106));
    // The power gem chest waits for the camp guard.
    assert_eq!(open_chest(&mut flags, &mut pd, false, 108, Loot::Gem(1), false, &s), ChestOpen::Locked);
    assert_eq!(open_chest(&mut flags, &mut pd, false, 108, Loot::Gem(1), true, &s), ChestOpen::Opened(Loot::Gem(1)));
    // The cliffs heart piece also marks the cave secret.
    open_chest(&mut flags, &mut pd, false, 114, Loot::HeartPiece, false, &s);
    assert!(flags.contains(&117) && flags.contains(&120));
}

#[test]
fn courage_gem_stays_sealed_until_the_chimes() {
    let s = story();
    assert_eq!(take_gem(false, 0, false, MapId::Overworld, &vec![], &s), GemTake::Sealed);
    assert_eq!(take_gem(false, 0, false, MapId::Overworld, &vec![110], &s), GemTake::Taken);
    assert_eq!(take_gem(false, 0, true, MapId::Overworld, &vec![110], &s), GemTake::Sealed);
    assert_eq!(take_gem(false, 1, true, MapId::Overworld, &vec![], &s), GemTake::Taken);
    assert_eq!(take_gem(true, 1, false, MapId::Overworld, &vec![], &s), GemTake::AlreadyTaken);
}

#[test]
fn elder_lines_follow_the_story() {
    let s = story();
    let mut flags = vec![];
    assert_eq!(talk_to_elder(&mut flags, &s), ElderLine::Greeting);
    assert_eq!(talk_to_elder(&mut flags, &s), ElderLine::Reminder);
    flags.push(112);
    assert_eq!(talk_to_elder(&mut flags, &s), ElderLine::Victory);
    assert_eq!(flags, vec![113, 112]);
}

#[test]
fn landmarks_reveal_secrets() {
    let s = story();
    let mut flags = vec![];
    assert_eq!(try_landmark(&mut flags, 100, 30, false, &s), Landmark::SummitVista);
    assert_eq!(try_landmark(&mut flags, 100, 30, false, &s), Landmark::Nothing);
    assert_eq!(try_landmark(&mut flags, 30, 185, false, &s), Landmark::HollowWall);
    assert_eq!(try_landmark(&mut flags, 112, 14, false, &s), Landmark::Brazier);
    assert_eq!(try_landmark(&mut flags, 128, 14, true, &s), Landmark::TwinFlames);
    assert_eq!(flags, vec![121, 123, 124]);
    assert!(in_tile(98, 28, 98, 28, 104, 32));
    assert!(!in_tile(105, 28, 98, 28, 104, 32));
}

#[test]
fn room_exits_must_lead_back() {
    let mut rooms = two_rooms();
    assert!(exits_reciprocal(&rooms));
    assert!(exits_reciprocal(&vec![]));
    // A one-way doorway: room 2 no longer leads back to room 1.
    rooms[1].exits[2] = None;
    assert!(!exits_reciprocal(&rooms));
    // A doorway to a room that does not exist.
    let mut lost = two_rooms();
    lost[0].exits[1] = Some(ExitDef { tx: 9, ty: 5, door: DoorKind::Open, to_room: 7 });
    assert!(!exits_reciprocal(&lost));
}

#[test]
fn arrival_must_not_stand_in_a_door() {
    let dest = vec![
        Trigger { tx: 10, ty: 20, w: 2, h: 1, kind: TriggerKind::Door { target: MapId::Overworld, entry: 0 } },
        Trigger { tx: 0, ty: 0, w: 40, h: 40, kind: TriggerKind::Banner { region: 1 } },
    ];
    assert!(arrival_clear(&dest, 10, 19));
    assert!(arrival_clear(&dest, 12, 20));
    assert!(!arrival_clear(&dest, 11, 20));
    assert!(arrival_clear(&vec![], 11, 20));
}
