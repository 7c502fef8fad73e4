use game::entity::AttackKind;
use game::map::{MapId, Trigger, TriggerKind};
use game::puzzle::dungeon::{
    CrystalDef, CrystalGateDef, DungeonPuzzleState, DungeonPuzzles, DungeonTiles, FlameDef, RuneHit, TorchChange,
};
use game::puzzle::{
    barricade_damage, barricade_rupee, BarricadeDef, BarricadeHit, BombWallDef, FinaleChime, PlateCourtDef,
    PlateTick, PushInput, PuzzleState, PuzzleTiles, ChimeGateDef, ring_gate_chime, try_open_bomb_wall,
};
use game::tiles::Ground;

fn puzzle_ids() -> PuzzleTiles {
    PuzzleTiles { gate: 10, plate_up: 11, plate_down: 12, block: 13, crank: 14, barricade: 15, cracked_wall: 16 }
}

fn court() -> PlateCourtDef {
    PlateCourtDef {
        plates: [(1, 1), (3, 1)],
        gate: vec![(5, 0), (5, 1)],
        open_tile: 1,
        blocks: vec![(2, 3)],
        floor_tile: 2,
        flag: 500,
    }
}

#[test]
fn ground_reads_what_was_painted() {
    let mut g = Ground::new(4, 3, 7);
    assert_eq!(g.get(2, 1), 7);
    g.set(2, 1, 9);
    assert_eq!(g.get(2, 1), 9);
    assert_eq!(g.get(1, 2), 7);
    // Off the map reads 0 and painting there changes nothing.
    assert_eq!(g.get(4, 0), 0);
    g.set(9, 9, 3);
    assert_eq!(g.tiles.iter().filter(|&&t| t == 3).count(), 0);
}

#[test]
fn a_swing_strikes_a_tile_once() {
    let mut p = PuzzleState::for_map(&vec![], 3);
    assert!(p.mark_tile_hit(5, 2, 2));
    assert!(!p.mark_tile_hit(5, 2, 2));
    assert!(p.mark_tile_hit(6, 2, 2));
    assert_eq!(p.hit_tiles, vec![(5, 2, 2), (6, 2, 2)]);
}

#[test]
fn hit_ledger_is_trimmed_to_the_newest() {
    let mut p = PuzzleState::for_map(&vec![], 3);
    for i in 0..65u32 {
        assert!(p.mark_tile_hit(i, 0, 0));
    }
    p.prune_hit_tiles();
    assert_eq!(p.hit_tiles.len(), 32);
    assert_eq!(p.hit_tiles[0], (33, 0, 0));
    assert_eq!(p.hit_tiles[31], (64, 0, 0));
    // At 64 or fewer nothing is trimmed.
    let mut q = PuzzleState::for_map(&vec![], 3);
    for i in 0..64u32 {
        q.mark_tile_hit(i, 0, 0);
    }
    q.prune_hit_tiles();
    assert_eq!(q.hit_tiles.len(), 64);
}

#[test]
fn barricade_damage_by_attack() {
    assert_eq!(barricade_damage(AttackKind::Slash), 1);
    assert_eq!(barricade_damage(AttackKind::Boomerang), 1);
    assert_eq!(barricade_damage(AttackKind::Finisher), 2);
    assert_eq!(barricade_damage(AttackKind::Spin), 2);
    assert_eq!(barricade_damage(AttackKind::Bomb), 99);
}

#[test]
fn barricade_cracks_then_breaks_into_floor() {
    let mut g = Ground::new(8, 8, 15);
    let defs = vec![
        BarricadeDef { tiles: vec![(4, 4)], floor_tile: 21 },
        BarricadeDef { tiles: vec![(6, 6)], floor_tile: 22 },
    ];
    let mut p = PuzzleState::for_map(&vec![(4, 4), (6, 6)], 3);
    assert_eq!(p.barricade_hp, vec![((4, 4), 3), ((6, 6), 3)]);
    assert_eq!(p.damage_barricade(&mut g, &defs, 99, (4, 4), 2), BarricadeHit::Cracked);
    assert_eq!(p.barricade_hp, vec![((4, 4), 1), ((6, 6), 3)]);
    assert_eq!(g.get(4, 4), 15);
    assert_eq!(p.damage_barricade(&mut g, &defs, 99, (4, 4), 1), BarricadeHit::Broken);
    assert_eq!(p.barricade_hp, vec![((6, 6), 3)]);
    assert_eq!(g.get(4, 4), 21);
    assert_eq!(p.damage_barricade(&mut g, &defs, 99, (4, 4), 1), BarricadeHit::Missed);
    // A bomb breaks the other one at once.
    assert_eq!(p.damage_barricade(&mut g, &defs, 99, (6, 6), 99), BarricadeHit::Broken);
    assert_eq!(g.get(6, 6), 22);
    assert!(p.barricade_hp.is_empty());
}

#[test]
fn barricade_without_def_leaves_fallback_floor() {
    let mut g = Ground::new(4, 4, 15);
    let mut p = PuzzleState::for_map(&vec![(1, 1)], 1);
    assert_eq!(p.damage_barricade(&mut g, &vec![], 77, (1, 1), 1), BarricadeHit::Broken);
    assert_eq!(g.get(1, 1), 77);
}

#[test]
fn barricade_rupee_band() {
    assert!(barricade_rupee(0));
    assert!(barricade_rupee(29));
    assert!(!barricade_rupee(30));
    assert!(!barricade_rupee(99));
}

#[test]
fn gate_chime_opens_once() {
    let mut g = Ground::new(6, 6, 10);
    let mut flags = vec![];
    let gate = ChimeGateDef { chime: (0, 0), gate: vec![(2, 2), (3, 2)], open_tile: 1, flag: 40 };
    assert!(ring_gate_chime(&mut flags, &mut g, &gate));
    assert_eq!(flags, vec![40]);
    assert_eq!(g.get(2, 2), 1);
    assert_eq!(g.get(3, 2), 1);
    assert_eq!(g.get(4, 2), 10);
    g.set(2, 2, 10);
    assert!(!ring_gate_chime(&mut flags, &mut g, &gate));
    assert_eq!(g.get(2, 2), 10);
    assert_eq!(flags, vec![40]);
}

#[test]
fn finale_needs_three_chimes_in_window() {
    let mut p = PuzzleState::for_map(&vec![], 3);
    let mut flags = vec![];
    assert_eq!(p.ring_finale_chime(&mut flags, 7, 0, 100, 120), FinaleChime::Rang);
    assert_eq!(p.ring_finale_chime(&mut flags, 7, 1, 150, 120), FinaleChime::Rang);
    assert_eq!(p.chime_rings, [100, 150, 0]);
    assert_eq!(p.ring_finale_chime(&mut flags, 7, 2, 210, 120), FinaleChime::Solved);
    assert_eq!(flags, vec![7]);
    assert_eq!(p.ring_finale_chime(&mut flags, 7, 2, 211, 120), FinaleChime::Ignored);
}

#[test]
fn finale_too_slow_is_not_solved() {
    let mut p = PuzzleState::for_map(&vec![], 3);
    let mut flags = vec![];
    p.ring_finale_chime(&mut flags, 7, 0, 100, 120);
    p.ring_finale_chime(&mut flags, 7, 1, 150, 120);
    assert_eq!(p.ring_finale_chime(&mut flags, 7, 2, 221, 120), FinaleChime::Rang);
    assert!(flags.is_empty());
}

#[test]
fn finale_chimes_expire() {
    let mut p = PuzzleState::for_map(&vec![], 3);
    let mut flags = vec![];
    p.ring_finale_chime(&mut flags, 7, 0, 100, 120);
    p.ring_finale_chime(&mut flags, 7, 2, 200, 120);
    assert_eq!(p.tick_finale_expiry(&flags, 7, 220, 120), 0);
    assert_eq!(p.tick_finale_expiry(&flags, 7, 221, 120), 1);
    assert_eq!(p.chime_rings, [0, 0, 200]);
    // Once solved nothing expires.
    flags.push(7);
    assert_eq!(p.tick_finale_expiry(&flags, 7, 9999, 120), 0);
    assert_eq!(p.chime_rings, [0, 0, 200]);
}

#[test]
fn plates_need_both_held() {
    let ids = puzzle_ids();
    let c = court();
    let mut g = Ground::new(8, 8, 0);
    g.set(1, 1, ids.plate_up);
    g.set(3, 1, ids.plate_up);
    let mut flags = vec![];
    let mut p = PuzzleState::for_map(&vec![], 3);
    // Standing on the first plate: it clicks down, its gate stays shut.
    let t = p.update_plates(&mut flags, &mut g, &c, ids, Some((1, 1)));
    assert_eq!(t, PlateTick { clicks: 1, solved: false });
    assert_eq!(g.get(1, 1), ids.plate_down);
    assert_eq!(g.get(5, 0), ids.gate);
    assert_eq!(p.plate_down, [true, false]);
    // A block on the second plate and the player on the first: solved.
    g.set(3, 1, ids.block);
    let t = p.update_plates(&mut flags, &mut g, &c, ids, Some((1, 1)));
    assert_eq!(t, PlateTick { clicks: 0, solved: true });
    assert_eq!(flags, vec![500]);
    assert_eq!(g.get(5, 0), 1);
    assert_eq!(g.get(5, 1), 1);
}

#[test]
fn plate_springs_back_when_left() {
    let ids = puzzle_ids();
    let c = court();
    let mut g = Ground::new(8, 8, 0);
    g.set(1, 1, ids.plate_up);
    g.set(3, 1, ids.plate_up);
    let mut flags = vec![];
    let mut p = PuzzleState::for_map(&vec![], 3);
    p.update_plates(&mut flags, &mut g, &c, ids, Some((1, 1)));
    let t = p.update_plates(&mut flags, &mut g, &c, ids, Some((0, 0)));
    assert_eq!(t.clicks, 1);
    assert_eq!(g.get(1, 1), ids.plate_up);
    assert_eq!(p.plate_down, [false, false]);
}

#[test]
fn block_slides_after_six_ticks_of_push() {
    let ids = puzzle_ids();
    let c = court();
    let mut g = Ground::new(8, 8, 0);
    g.set(3, 3, ids.block);
    let flags = vec![];
    let mut p = PuzzleState::for_map(&vec![], 3);
    let push = PushInput::Moving { feet: (2, 3), dir: (1, 0) };
    for _ in 0..5 {
        assert_eq!(p.update_block_push(&flags, &mut g, &c, ids, &vec![], push), None);
    }
    assert_eq!(p.push_ticks, 5);
    assert_eq!(p.update_block_push(&flags, &mut g, &c, ids, &vec![], push), Some((4, 3)));
    assert_eq!(g.get(3, 3), c.floor_tile);
    assert_eq!(g.get(4, 3), ids.block);
    assert_eq!(p.push_ticks, 0);
}

#[test]
fn block_does_not_slide_onto_blocking_tile() {
    let ids = puzzle_ids();
    let c = court();
    let mut g = Ground::new(8, 8, 0);
    g.set(3, 3, ids.block);
    g.set(4, 3, 99);
    let flags = vec![];
    let mut p = PuzzleState::for_map(&vec![], 3);
    let push = PushInput::Moving { feet: (2, 3), dir: (1, 0) };
    for _ in 0..10 {
        assert_eq!(p.update_block_push(&flags, &mut g, &c, ids, &vec![99], push), None);
    }
    assert_eq!(g.get(3, 3), ids.block);
    // Standing still resets the push.
    p.update_block_push(&flags, &mut g, &c, ids, &vec![99], PushInput::Still);
    assert_eq!(p.push_ticks, 0);
    assert_eq!(p.push_block, None);
}

#[test]
fn bomb_wall_opens_into_a_door() {
    let ids = puzzle_ids();
    let mut g = Ground::new(8, 8, 0);
    g.set(2, 2, ids.cracked_wall);
    let wall = BombWallDef { wall: (2, 2), open_tile: 30, door_target: MapId::Cave(1), door_entry: 2, flag: 60 };
    let mut flags = vec![];
    let mut triggers: Vec<Trigger> = vec![];
    assert!(!try_open_bomb_wall(&mut flags, &mut g, &mut triggers, &wall, 61, ids, false));
    assert!(try_open_bomb_wall(&mut flags, &mut g, &mut triggers, &wall, 61, ids, true));
    assert_eq!(flags, vec![60, 61]);
    assert_eq!(g.get(2, 2), 30);
    assert_eq!(triggers.len(), 1);
    assert_eq!(triggers[0].kind, TriggerKind::Door { target: MapId::Cave(1), entry: 2 });
    assert!(!try_open_bomb_wall(&mut flags, &mut g, &mut triggers, &wall, 61, ids, true));
}

fn dungeon_ids() -> DungeonTiles {
    DungeonTiles {
        crystal_amber: 1,
        crystal_blue: 2,
        gate_blue_up: 3,
        gate_blue_down: 4,
        gate_amber_up: 5,
        gate_amber_down: 6,
        torch_lit: 7,
        torch_unlit: 8,
    }
}

fn dungeon_def() -> DungeonPuzzles {
    DungeonPuzzles {
        crystals: vec![CrystalDef { room: 2, tx: 1, ty: 1, amber: false }],
        gates: vec![
            CrystalGateDef { room: 2, amber: false, tiles: vec![(3, 3)] },
            CrystalGateDef { room: 2, amber: true, tiles: vec![(4, 4)] },
        ],
        flame: FlameDef { brazier: (0, 0), torches: [(6, 1), (7, 1)], gate: vec![(6, 6)] },
        multi_gate: vec![(7, 7)],
    }
}

#[test]
fn crystal_flips_its_family_gates() {
    let ids = dungeon_ids();
    let def = dungeon_def();
    let mut g = Ground::new(8, 8, 0);
    g.set(3, 3, ids.gate_blue_up);
    g.set(4, 4, ids.gate_amber_up);
    let mut st = DungeonPuzzleState::new(&def);
    assert_eq!(st.crystal_amber, vec![false]);
    assert_eq!(st.toggle_crystal(&mut g, &def, ids, 0), Some(true));
    assert_eq!(g.get(1, 1), ids.crystal_amber);
    assert_eq!(g.get(3, 3), ids.gate_blue_down);
    assert_eq!(g.get(4, 4), ids.gate_amber_up);
    assert_eq!(st.toggle_crystal(&mut g, &def, ids, 0), Some(false));
    assert_eq!(g.get(3, 3), ids.gate_blue_up);
    assert_eq!(st.toggle_crystal(&mut g, &def, ids, 5), None);
}

#[test]
fn seal_runes_must_come_in_order() {
    let def = dungeon_def();
    let mut st = DungeonPuzzleState::new(&def);
    let flags = vec![];
    assert_eq!(st.strike_rune(&flags, 90, 0, 11), RuneHit::Right);
    assert_eq!(st.strike_rune(&flags, 90, 0, 11), RuneHit::Ignored);
    assert_eq!(st.strike_rune(&flags, 90, 2, 11), RuneHit::Wrong);
    assert!(st.seal_hits.is_none());
    assert_eq!(st.strike_rune(&flags, 90, 0, 12), RuneHit::Right);
    assert_eq!(st.strike_rune(&flags, 90, 1, 12), RuneHit::Right);
    assert_eq!(st.strike_rune(&flags, 90, 2, 12), RuneHit::Broken);
    // A new throw starts over.
    assert_eq!(st.strike_rune(&flags, 91, 1, 13), RuneHit::Wrong);
    // A broken seal ignores its runes.
    assert_eq!(st.strike_rune(&vec![90], 90, 0, 14), RuneHit::Ignored);
}

#[test]
fn torches_light_and_snuff() {
    let ids = dungeon_ids();
    let def = dungeon_def();
    let mut g = Ground::new(8, 8, 0);
    let mut st = DungeonPuzzleState::new(&def);
    assert_eq!(st.touch_torch(&mut g, &def, ids, 0, true), TorchChange::Lit);
    assert_eq!(g.get(6, 1), ids.torch_lit);
    assert_eq!(st.touch_torch(&mut g, &def, ids, 0, true), TorchChange::Unchanged);
    st.touch_torch(&mut g, &def, ids, 1, true);
    st.update_flame(&vec![], 77, &mut g, &def, ids);
    assert_eq!(g.get(6, 6), ids.gate_blue_down);
    assert_eq!(st.touch_torch(&mut g, &def, ids, 1, false), TorchChange::Snuffed);
    assert_eq!(g.get(7, 1), ids.torch_unlit);
}

#[test]
fn multi_gate_waits_for_six_crystals() {
    let ids = dungeon_ids();
    let def = dungeon_def();
    let mut g = Ground::new(8, 8, 0);
    let st = DungeonPuzzleState { crystal_amber: vec![false; 6], flame_lit: [false; 2], seal_hits: None };
    st.update_multi(&mut g, &def, ids);
    assert_eq!(g.get(7, 7), ids.gate_blue_down);
    let st2 = DungeonPuzzleState { crystal_amber: vec![false, false, false, false, true, false], flame_lit: [false; 2], seal_hits: None };
    st2.update_multi(&mut g, &def, ids);
    assert_eq!(g.get(7, 7), ids.gate_blue_up);
    let short = DungeonPuzzleState { crystal_amber: vec![true], flame_lit: [false; 2], seal_hits: None };
    g.set(7, 7, 0);
    short.update_multi(&mut g, &def, ids);
    assert_eq!(g.get(7, 7), 0);
}
