//! Dungeon rooms: the current room, slides between rooms, doors that open
//! by key, seal or shutter, and the small-key count.

use vstd::prelude::*;
use crate::flags::{has_flag, set_flag};
use crate::tiles::{paint, Ground};

verus! {

/// Ticks a slide between rooms takes.
pub const SLIDE_TICKS: u8 = 24;

/// How a doorway opens.
#[derive(Clone, Copy, Debug, PartialEq, Eq, Structural)]
pub enum DoorKind {
    Open,
    Shutter,
    SmallKey,
    InnerKey,
    BossKey,
    SealWest,
    SealEast,
}

/// A doorway of a room, on tile `(tx, ty)`, leading to `to_room`.
#[derive(Clone, Copy, Debug, PartialEq, Eq, Structural)]
pub struct ExitDef {
    pub tx: u32,
    pub ty: u32,
    pub door: DoorKind,
    pub to_room: u8,
}

/// A room: its id, its tile rectangle `(x0, y0, x1, y1)` and its exits by
/// side (up, right, down, left).
#[derive(Clone, Copy, Debug)]
pub struct RoomDef {
    pub id: u8,
    pub rect: (u32, u32, u32, u32),
    pub exits: [Option<ExitDef>; 4],
}

/// The story flags that doors and keys read.
#[derive(Clone, Copy, Debug)]
pub struct DungeonFlags {
    pub small_key_1: u16,
    pub small_key_2: u16,
    pub door_wing: u16,
    pub door_inner: u16,
    pub boss_key: u16,
    pub door_boss_used: u16,
    pub seal_west: u16,
    pub seal_east: u16,
}

/// Door tile ids (from the dungeon's tile catalog).
#[derive(Clone, Copy, Debug)]
pub struct DoorTiles {
    pub door_open: u16,
    pub door_locked: u16,
    pub door_boss: u16,
    pub seal_door: u16,
    pub seal_broken: u16,
    pub shutter: u16,
}

/// A slide from one room to the next; the camera eases between the two
/// rooms' rectangles while the player is nudged through the doorway on
/// side `dir`.
#[derive(Clone, Copy, Debug)]
pub struct Slide {
    pub from_rect: (u32, u32, u32, u32),
    pub to_rect: (u32, u32, u32, u32),
    pub t: u8,
    pub to_room: u8,
    pub dir: u8,
}

/// The dungeon's room state.
#[derive(Clone, Copy, Debug)]
pub struct RoomsState {
    pub current: u8,
    pub slide: Option<Slide>,
    pub shutter_closed: [bool; 16],
}

/// 1 if the flag is set, else 0.
pub open spec fn bit(flags: Seq<u16>, f: u16) -> int {
    if flags.contains(f) { 1 } else { 0 }
}

/// Small keys held: keys found minus the doors they opened (never below 0).
pub open spec fn spec_small_keys(flags: Seq<u16>, f: DungeonFlags) -> int {
    let found = bit(flags, f.small_key_1) + bit(flags, f.small_key_2);
    let after_wing = if flags.contains(f.door_wing) { if found > 0 { found - 1 } else { 0 } } else { found };
    if flags.contains(f.door_inner) { if after_wing > 0 { after_wing - 1 } else { 0 } } else { after_wing }
}

pub fn small_keys_held(flags: &Vec<u16>, f: &DungeonFlags) -> (n: u8)
    ensures
        n == spec_small_keys(flags@, *f),
        n <= 2,
{
    let mut n: u8 = 0;
    if has_flag(flags, f.small_key_1) {
        n = n + 1;
    }
    if has_flag(flags, f.small_key_2) {
        n = n + 1;
    }
    if has_flag(flags, f.door_wing) {
        n = if n > 0 { n - 1 } else { 0 };
    }
    if has_flag(flags, f.door_inner) {
        n = if n > 0 { n - 1 } else { 0 };
    }
    n
}

/// The key flags are distinct.
pub open spec fn key_flags_distinct(f: DungeonFlags) -> bool {
    &&& f.small_key_1 != f.small_key_2 && f.small_key_1 != f.door_wing && f.small_key_1 != f.door_inner
    &&& f.small_key_2 != f.door_wing && f.small_key_2 != f.door_inner
    &&& f.door_wing != f.door_inner
}

/// Unlocking a small-key door spends one key: with a key in hand and that
/// door not yet opened, setting its flag leaves one key fewer. (Finding a
/// chest's key likewise adds one.)
pub proof fn lemma_unlock_spends_key(flags: Seq<u16>, f: DungeonFlags, door_flag: u16)
    requires
        key_flags_distinct(f),
        door_flag == f.door_wing || door_flag == f.door_inner,
        !flags.contains(door_flag),
        spec_small_keys(flags, f) > 0,
    ensures
        spec_small_keys(flags.push(door_flag), f) == spec_small_keys(flags, f) - 1,
{
    let g = flags.push(door_flag);
    assert forall|x: u16| x != door_flag implies (g.contains(x) <==> flags.contains(x)) by {
        if g.contains(x) {
            let i = choose|i: int| 0 <= i < g.len() && g[i] == x;
            assert(flags[i] == x);
        }
        if flags.contains(x) {
            let i = choose|i: int| 0 <= i < flags.len() && flags[i] == x;
            assert(g[i] == x);
        }
    }
    assert(g.contains(door_flag)) by {
        assert(g[g.len() - 1] == door_flag);
    }
    if door_flag == f.door_wing && flags.contains(f.door_inner) {
        // Two opened doors need two keys found; one is spent already.
        assert(bit(flags, f.small_key_1) + bit(flags, f.small_key_2) == 2);
    }
}

/// Finding a small key adds one to the keys held, as long as every opened
/// key door was opened with a key found before.
pub proof fn lemma_find_key(flags: Seq<u16>, f: DungeonFlags, key_flag: u16)
    requires
        key_flags_distinct(f),
        key_flag == f.small_key_1 || key_flag == f.small_key_2,
        !flags.contains(key_flag),
        bit(flags, f.small_key_1) + bit(flags, f.small_key_2) >= bit(flags, f.door_wing) + bit(flags, f.door_inner),
    ensures
        spec_small_keys(flags.push(key_flag), f) == spec_small_keys(flags, f) + 1,
{
    let g = flags.push(key_flag);
    assert forall|x: u16| x != key_flag implies (g.contains(x) <==> flags.contains(x)) by {
        if g.contains(x) {
            let i = choose|i: int| 0 <= i < g.len() && g[i] == x;
            assert(flags[i] == x);
        }
        if flags.contains(x) {
            let i = choose|i: int| 0 <= i < flags.len() && flags[i] == x;
            assert(g[i] == x);
        }
    }
    assert(g.contains(key_flag)) by {
        assert(g[g.len() - 1] == key_flag);
    }
}

/// The first room of `rooms` with id `id`.
pub open spec fn room_by_id(rooms: Seq<RoomDef>, id: u8) -> Option<RoomDef>
    decreases rooms.len(),
{
    if rooms.len() == 0 {
        None
    } else if rooms[0].id == id {
        Some(rooms[0])
    } else {
        room_by_id(rooms.drop_first(), id)
    }
}

pub fn find_room(rooms: &Vec<RoomDef>, id: u8) -> (r: Option<RoomDef>)
    ensures
        r == room_by_id(rooms@, id),
{
    let mut i: usize = 0;
    assert(rooms@.subrange(0, rooms@.len() as int) =~= rooms@);
    while i < rooms.len()
        invariant
            i <= rooms.len(),
            room_by_id(rooms@, id) == room_by_id(rooms@.subrange(i as int, rooms@.len() as int), id),
        decreases rooms.len() - i,
    {
        proof {
            assert(rooms@.subrange(i as int, rooms@.len() as int).drop_first() =~= rooms@.subrange(i + 1, rooms@.len() as int));
        }
        if rooms[i].id == id {
            return Some(rooms[i]);
        }
        i = i + 1;
    }
    None
}

/// A doorway that leads to room `id`.
pub open spec fn exit_to(x: Option<ExitDef>, id: u8) -> bool {
    x matches Some(e) && e.to_room == id
}

/// Room `r` has a doorway to room `id` on some side.
pub open spec fn leads_to(r: RoomDef, id: u8) -> bool {
    exit_to(r.exits@[0], id) || exit_to(r.exits@[1], id) || exit_to(r.exits@[2], id) || exit_to(r.exits@[3], id)
}

/// A doorway of room `from` is answered: its room exists and has a
/// doorway back to `from`.
pub open spec fn exit_answered(rooms: Seq<RoomDef>, from: u8, x: Option<ExitDef>) -> bool {
    match x {
        None => true,
        Some(e) => match room_by_id(rooms, e.to_room) {
            Some(o) => leads_to(o, from),
            None => false,
        },
    }
}

/// Every doorway of every room leads to a room that leads back.
pub open spec fn spec_exits_reciprocal(rooms: Seq<RoomDef>) -> bool {
    forall|i: int, k: int| 0 <= i < rooms.len() && 0 <= k < 4 ==> #[trigger] exit_answered(rooms, rooms[i].id, rooms[i].exits@[k])
}

fn room_leads_to(r: &RoomDef, id: u8) -> (b: bool)
    ensures
        b == leads_to(*r, id),
{
    let mut k: usize = 0;
    while k < 4
        invariant
            k <= 4,
            forall|j: int| 0 <= j < k ==> !exit_to(r.exits@[j], id),
        decreases 4 - k,
    {
        if let Some(e) = r.exits[k] {
            if e.to_room == id {
                return true;
            }
        }
        k = k + 1;
    }
    false
}

/// Self-check of the room layout: every doorway leads to a room that has
/// a doorway back.
pub fn exits_reciprocal(rooms: &Vec<RoomDef>) -> (ok: bool)
    ensures
        ok == spec_exits_reciprocal(rooms@),
{
    let mut i: usize = 0;
    while i < rooms.len()
        invariant
            i <= rooms.len(),
            forall|a: int, k: int| 0 <= a < i && 0 <= k < 4 ==> #[trigger] exit_answered(rooms@, rooms@[a].id, rooms@[a].exits@[k]),
        decreases rooms.len() - i,
    {
        let r = rooms[i];
        let mut k: usize = 0;
        while k < 4
            invariant
                i < rooms.len(),
                r == rooms@[i as int],
                k <= 4,
                forall|a: int, k2: int| 0 <= a < i && 0 <= k2 < 4 ==> #[trigger] exit_answered(rooms@, rooms@[a].id, rooms@[a].exits@[k2]),
                forall|j: int| 0 <= j < k ==> #[trigger] exit_answered(rooms@, r.id, r.exits@[j]),
            decreases 4 - k,
        {
            if let Some(e) = r.exits[k] {
                match find_room(rooms, e.to_room) {
                    Some(o) => {
                        if !room_leads_to(&o, r.id) {
                            assert(!exit_answered(rooms@, rooms@[i as int].id, rooms@[i as int].exits@[k as int]));
                            return false;
                        }
                    },
                    None => {
                        assert(!exit_answered(rooms@, rooms@[i as int].id, rooms@[i as int].exits@[k as int]));
                        return false;
                    },
                }
            }
            k = k + 1;
        }
        assert forall|a: int, k2: int| 0 <= a < i + 1 && 0 <= k2 < 4 implies #[trigger] exit_answered(rooms@, rooms@[a].id, rooms@[a].exits@[k2]) by {
            if a == i as int {
                assert(exit_answered(rooms@, r.id, r.exits@[k2]));
            }
        }
        i = i + 1;
    }
    true
}

/// Whether a doorway can be walked through: its tile shows open or broken,
/// or its kind allows it (an open doorway when its tile is not solid; a
/// key door once unlocked; a seal door once broken; a shutter never).
pub open spec fn spec_door_is_open(flags: Seq<u16>, tile: u16, solid: bool, exit: ExitDef, f: DungeonFlags, t: DoorTiles) -> bool {
    if tile == t.door_open || tile == t.seal_broken {
        true
    } else {
        match exit.door {
            DoorKind::Open => !solid,
            DoorKind::SmallKey => flags.contains(f.door_wing),
            DoorKind::InnerKey => flags.contains(f.door_inner),
            DoorKind::BossKey => flags.contains(f.door_boss_used),
            DoorKind::SealWest => flags.contains(f.seal_west),
            DoorKind::SealEast => flags.contains(f.seal_east),
            DoorKind::Shutter => false,
        }
    }
}

/// `tile` is the ground tile on the doorway and `solid` whether it blocks.
pub fn door_is_open(flags: &Vec<u16>, tile: u16, solid: bool, exit: &ExitDef, f: &DungeonFlags, t: &DoorTiles) -> (r: bool)
    ensures
        r == spec_door_is_open(flags@, tile, solid, *exit, *f, *t),
{
    if tile == t.door_open || tile == t.seal_broken {
        return true;
    }
    match exit.door {
        DoorKind::Open => !solid,
        DoorKind::SmallKey => has_flag(flags, f.door_wing),
        DoorKind::InnerKey => has_flag(flags, f.door_inner),
        DoorKind::BossKey => has_flag(flags, f.door_boss_used),
        DoorKind::SealWest => has_flag(flags, f.seal_west),
        DoorKind::SealEast => has_flag(flags, f.seal_east),
        DoorKind::Shutter => false,
    }
}

/// A slide's progress this tick.
#[derive(Clone, Copy, Debug, PartialEq, Eq, Structural)]
pub enum SlideTick {
    /// No slide under way.
    Idle,
    /// Still sliding (the world is paused; the camera eases, the player is
    /// nudged).
    Sliding { t: u8 },
    /// The slide ended in `room`, now the current room (its visited flag
    /// is set and room entry runs).
    Arrived { room: u8 },
}

impl RoomsState {
    /// A fresh dungeon visit in `entry_room`: no slide, no shutters closed.
    pub fn new(entry_room: u8) -> (s: Self)
        ensures
            s.current == entry_room,
            s.slide is None,
            forall|i: int| 0 <= i < 16 ==> !s.shutter_closed[i],
    {
        RoomsState { current: entry_room, slide: None, shutter_closed: [false; 16] }
    }

    /// Advances the slide: after `SLIDE_TICKS` ticks the destination
    /// becomes the current room.
    pub fn tick_slide(&mut self) -> (r: SlideTick)
        ensures
            final(self).shutter_closed == old(self).shutter_closed,
            old(self).slide is None ==> r == SlideTick::Idle && final(self).current == old(self).current
                && final(self).slide is None,
            old(self).slide is Some ==> ({
                let s = old(self).slide.unwrap();
                let t = if s.t == u8::MAX { u8::MAX } else { (s.t + 1) as u8 };
                if t >= SLIDE_TICKS {
                    &&& r == (SlideTick::Arrived { room: s.to_room })
                    &&& final(self).current == s.to_room
                    &&& final(self).slide is None
                } else {
                    &&& r == (SlideTick::Sliding { t })
                    &&& final(self).current == old(self).current
                    &&& final(self).slide == Some(Slide { t, ..s })
                }
            }),
    {
        match self.slide {
            None => SlideTick::Idle,
            Some(s) => {
                let t = if s.t == u8::MAX { u8::MAX } else { s.t + 1 };
                if t >= SLIDE_TICKS {
                    self.current = s.to_room;
                    self.slide = None;
                    SlideTick::Arrived { room: s.to_room }
                } else {
                    self.slide = Some(Slide { t, ..s });
                    SlideTick::Sliding { t }
                }
            },
        }
    }

    /// Starts a slide through `exit` (side `dir`) of room `from` when the
    /// destination room exists; returns whether it started (slide sound).
    pub fn start_slide(&mut self, rooms: &Vec<RoomDef>, from: &RoomDef, exit: &ExitDef, dir: u8) -> (started: bool)
        ensures
            final(self).current == old(self).current,
            final(self).shutter_closed == old(self).shutter_closed,
            started == room_by_id(rooms@, exit.to_room) is Some,
            started ==> final(self).slide == Some(Slide {
                from_rect: from.rect,
                to_rect: room_by_id(rooms@, exit.to_room).unwrap().rect,
                t: 0,
                to_room: exit.to_room,
                dir,
            }),
            !started ==> final(self).slide == old(self).slide,
    {
        match find_room(rooms, exit.to_room) {
            None => false,
            Some(to) => {
                self.slide = Some(Slide { from_rect: from.rect, to_rect: to.rect, t: 0, to_room: exit.to_room, dir });
                true
            },
        }
    }
}


/// Which exits of a room a repaint touches.
#[derive(Clone, Copy, Debug, PartialEq, Eq, Structural)]
pub enum ExitFilter {
    /// Exits leading to the given room.
    ToRoom(u8),
    /// Plain doorways and shutters (what a combat room slams shut).
    Doorways,
    /// Seal doors.
    Seals,
    /// Doors of one kind.
    Kind(DoorKind),
}

pub open spec fn selected(e: ExitDef, filter: ExitFilter) -> bool {
    match filter {
        ExitFilter::ToRoom(r) => e.to_room == r,
        ExitFilter::Doorways => e.door == DoorKind::Shutter || e.door == DoorKind::Open,
        ExitFilter::Seals => e.door == DoorKind::SealWest || e.door == DoorKind::SealEast,
        ExitFilter::Kind(k) => e.door == k,
    }
}

/// One exit's repaint: a selected exit's tile shows `id`.
pub open spec fn paint_exit(t: Seq<u16>, w: u32, h: u32, e: Option<ExitDef>, filter: ExitFilter, id: u16) -> Seq<u16> {
    match e {
        Some(x) => if selected(x, filter) { paint(t, w, h, x.tx, x.ty, id) } else { t },
        None => t,
    }
}

/// The selected exits of a room repainted with `id`, sides in order.
pub open spec fn paint_exits(t: Seq<u16>, w: u32, h: u32, room: RoomDef, filter: ExitFilter, id: u16) -> Seq<u16> {
    let t1 = paint_exit(t, w, h, room.exits[0], filter, id);
    let t2 = paint_exit(t1, w, h, room.exits[1], filter, id);
    let t3 = paint_exit(t2, w, h, room.exits[2], filter, id);
    paint_exit(t3, w, h, room.exits[3], filter, id)
}

fn selected_exec(e: &ExitDef, filter: ExitFilter) -> (r: bool)
    ensures
        r == selected(*e, filter),
{
    match filter {
        ExitFilter::ToRoom(r) => e.to_room == r,
        ExitFilter::Doorways => match e.door {
            DoorKind::Shutter | DoorKind::Open => true,
            _ => false,
        },
        ExitFilter::Seals => match e.door {
            DoorKind::SealWest | DoorKind::SealEast => true,
            _ => false,
        },
        ExitFilter::Kind(k) => e.door == k,
    }
}

/// Repaints the selected exits of `room` with `id`.
pub fn paint_room_exits(ground: &mut Ground, room: &RoomDef, filter: ExitFilter, id: u16)
    requires
        old(ground).wf(),
    ensures
        final(ground).wf(),
        final(ground).width == old(ground).width && final(ground).height == old(ground).height,
        final(ground).tiles@ == paint_exits(old(ground).tiles@, old(ground).width, old(ground).height, *room, filter, id),
{
    let ghost w = ground.width;
    let ghost h = ground.height;
    let ghost t0 = ground.tiles@;
    let mut d: usize = 0;
    while d < 4
        invariant
            d <= 4,
            ground.wf(),
            ground.width == w && ground.height == h,
            w == old(ground).width && h == old(ground).height,
            t0 == old(ground).tiles@,
            d == 0 ==> ground.tiles@ == t0,
            d == 1 ==> ground.tiles@ == paint_exit(t0, w, h, room.exits[0], filter, id),
            d == 2 ==> ground.tiles@ == paint_exit(paint_exit(t0, w, h, room.exits[0], filter, id), w, h, room.exits[1], filter, id),
            d == 3 ==> ground.tiles@ == paint_exit(paint_exit(paint_exit(t0, w, h, room.exits[0], filter, id), w, h,
                room.exits[1], filter, id), w, h, room.exits[2], filter, id),
            d == 4 ==> ground.tiles@ == paint_exits(t0, w, h, *room, filter, id),
        decreases 4 - d,
    {
        if let Some(e) = room.exits[d] {
            if selected_exec(&e, filter) {
                ground.set(e.tx, e.ty, id);
            }
        }
        d = d + 1;
    }
}

/// Side offsets probed for locked doors: up, right, down, left.
pub open spec fn side_offset(d: int) -> (int, int) {
    if d == 0 { (0, -1) } else if d == 1 { (1, 0) } else if d == 2 { (0, 1) } else { (-1, 0) }
}

/// The tile beside the feet on side `d`, when on the map's quadrant.
pub open spec fn beside(feet: (i32, i32), d: int) -> Option<(u32, u32)> {
    let x = feet.0 + side_offset(d).0;
    let y = feet.1 + side_offset(d).1;
    if x < 0 || y < 0 { None } else { Some((x as u32, y as u32)) }
}

/// The first exit of `room` (sides in order) on tile `(x, y)`.
pub open spec fn exit_on(room: RoomDef, x: u32, y: u32) -> Option<ExitDef> {
    if exit_is_on(room.exits[0], x, y) { room.exits[0] }
    else if exit_is_on(room.exits[1], x, y) { room.exits[1] }
    else if exit_is_on(room.exits[2], x, y) { room.exits[2] }
    else if exit_is_on(room.exits[3], x, y) { room.exits[3] }
    else { None }
}

pub open spec fn exit_is_on(e: Option<ExitDef>, x: u32, y: u32) -> bool {
    match e {
        Some(v) => v.tx == x && v.ty == y,
        None => false,
    }
}

/// What pressing against a locked door does.
#[derive(Clone, Copy, Debug, PartialEq, Eq, Structural)]
pub enum LockedDoor {
    /// No locked door beside the player (or nothing to do with it).
    Nothing,
    /// Locked and no key for it: the "door is locked" dialog opens.
    Dialog,
    /// Unlocked with a key: `flag` records it (unlock sound, shake, toast).
    Unlocked { exit: ExitDef, flag: u16 },
}

/// The verdict on a locked exit.
pub open spec fn locked_verdict(flags: Seq<u16>, exit: ExitDef, f: DungeonFlags) -> LockedDoor {
    match exit.door {
        DoorKind::SmallKey => if spec_small_keys(flags, f) > 0 {
            LockedDoor::Unlocked { exit, flag: f.door_wing }
        } else {
            LockedDoor::Dialog
        },
        DoorKind::InnerKey => if spec_small_keys(flags, f) > 0 {
            LockedDoor::Unlocked { exit, flag: f.door_inner }
        } else {
            LockedDoor::Dialog
        },
        DoorKind::BossKey => if flags.contains(f.boss_key) && !flags.contains(f.door_boss_used) {
            LockedDoor::Unlocked { exit, flag: f.door_boss_used }
        } else {
            LockedDoor::Dialog
        },
        _ => LockedDoor::Nothing,
    }
}

/// What unlocking a door asks: a boss door the boss key (and not yet
/// used), a small-key door a small key in hand; it records the door's own
/// flag. Only key doors unlock.
pub open spec fn key_in_hand(flags: Seq<u16>, exit: ExitDef, flag: u16, f: DungeonFlags) -> bool {
    match exit.door {
        DoorKind::BossKey => flags.contains(f.boss_key) && !flags.contains(f.door_boss_used) && flag == f.door_boss_used,
        DoorKind::SmallKey => spec_small_keys(flags, f) >= 1 && flag == f.door_wing,
        DoorKind::InnerKey => spec_small_keys(flags, f) >= 1 && flag == f.door_inner,
        _ => false,
    }
}

/// A key door opens exactly when its key is in hand; without it the
/// "locked" dialog opens; a door that takes no key is no concern here.
pub proof fn lemma_key_doors(flags: Seq<u16>, exit: ExitDef, f: DungeonFlags)
    ensures
        locked_verdict(flags, exit, f) matches LockedDoor::Unlocked { exit: e, flag }
            ==> e == exit && key_in_hand(flags, exit, flag, f),
        exit.door == DoorKind::BossKey && !flags.contains(f.boss_key) ==> locked_verdict(flags, exit, f) == LockedDoor::Dialog,
        exit.door == DoorKind::BossKey && flags.contains(f.boss_key) && !flags.contains(f.door_boss_used)
            ==> locked_verdict(flags, exit, f) is Unlocked,
        (exit.door == DoorKind::SmallKey || exit.door == DoorKind::InnerKey) ==> (locked_verdict(flags, exit, f) is Unlocked
            <==> spec_small_keys(flags, f) >= 1),
        (exit.door != DoorKind::SmallKey && exit.door != DoorKind::InnerKey && exit.door != DoorKind::BossKey)
            ==> locked_verdict(flags, exit, f) == LockedDoor::Nothing,
{
}

/// Pressing into the doors unlocks only a key door of the current room
/// whose key is in hand: a boss door never opens without the boss key.
pub proof fn lemma_locked_door_needs_key(g: Ground, rooms: Seq<RoomDef>, current: u8, flags: Seq<u16>, feet: (i32, i32), f: DungeonFlags, t: DoorTiles)
    ensures
        spec_locked_door(g, rooms, current, flags, feet, f, t) matches LockedDoor::Unlocked { exit, flag }
            ==> key_in_hand(flags, exit, flag, f) && room_by_id(rooms, current) is Some
                && exit_on(room_by_id(rooms, current).unwrap(), exit.tx, exit.ty) == Some(exit),
{
    let r = spec_locked_door(g, rooms, current, flags, feet, f, t);
    if r is Unlocked {
        let d = if probe_side(g, rooms, current, flags, feet, 0, f, t) is Some { 0int }
            else if probe_side(g, rooms, current, flags, feet, 1, f, t) is Some { 1int }
            else if probe_side(g, rooms, current, flags, feet, 2, f, t) is Some { 2int }
            else { 3int };
        assert(probe_side(g, rooms, current, flags, feet, d, f, t) == Some(r));
        let n = beside(feet, d).unwrap();
        let cur = room_by_id(rooms, current).unwrap();
        let exit = exit_on(cur, n.0, n.1).unwrap();
        lemma_key_doors(flags, exit, f);
        assert(exit_on(cur, n.0, n.1) == Some(exit));
        assert(exit.tx == n.0 && exit.ty == n.1);
    }
}

/// Side `d` settles the probe (`Some`), or the probe moves on (`None`):
/// the tile beside must show a locked or boss door; then with no current
/// room nothing happens, and an exit of the room on that tile decides.
pub open spec fn probe_side(g: Ground, rooms: Seq<RoomDef>, current: u8, flags: Seq<u16>, feet: (i32, i32), d: int, f: DungeonFlags, t: DoorTiles) -> Option<LockedDoor> {
    match beside(feet, d) {
        None => None,
        Some(n) => if g.at(n.0, n.1) != t.door_locked && g.at(n.0, n.1) != t.door_boss {
            None
        } else {
            match room_by_id(rooms, current) {
                None => Some(LockedDoor::Nothing),
                Some(cur) => match exit_on(cur, n.0, n.1) {
                    None => None,
                    Some(exit) => Some(locked_verdict(flags, exit, f)),
                },
            }
        },
    }
}

pub open spec fn spec_locked_door(g: Ground, rooms: Seq<RoomDef>, current: u8, flags: Seq<u16>, feet: (i32, i32), f: DungeonFlags, t: DoorTiles) -> LockedDoor {
    let p = |d: int| probe_side(g, rooms, current, flags, feet, d, f, t);
    if p(0) is Some { p(0).unwrap() }
    else if p(1) is Some { p(1).unwrap() }
    else if p(2) is Some { p(2).unwrap() }
    else if p(3) is Some { p(3).unwrap() }
    else { LockedDoor::Nothing }
}

fn exit_on_exec(room: &RoomDef, x: u32, y: u32) -> (r: Option<ExitDef>)
    ensures
        r == exit_on(*room, x, y),
{
    let mut d: usize = 0;
    while d < 4
        invariant
            d <= 4,
            forall|j: int| 0 <= j < d ==> !exit_is_on(#[trigger] room.exits[j], x, y),
        decreases 4 - d,
    {
        if let Some(e) = room.exits[d] {
            if e.tx == x && e.ty == y {
                return Some(e);
            }
        }
        d = d + 1;
    }
    None
}

fn locked_verdict_exec(flags: &Vec<u16>, exit: ExitDef, f: &DungeonFlags) -> (r: LockedDoor)
    ensures
        r == locked_verdict(flags@, exit, *f),
{
    match exit.door {
        DoorKind::SmallKey => if small_keys_held(flags, f) > 0 {
            LockedDoor::Unlocked { exit, flag: f.door_wing }
        } else {
            LockedDoor::Dialog
        },
        DoorKind::InnerKey => if small_keys_held(flags, f) > 0 {
            LockedDoor::Unlocked { exit, flag: f.door_inner }
        } else {
            LockedDoor::Dialog
        },
        DoorKind::BossKey => if has_flag(flags, f.boss_key) && !has_flag(flags, f.door_boss_used) {
            LockedDoor::Unlocked { exit, flag: f.door_boss_used }
        } else {
            LockedDoor::Dialog
        },
        _ => LockedDoor::Nothing,
    }
}

/// The player (feet on tile `feet`) presses into the doors around: the
/// first side showing a locked or boss door that is an exit of the current
/// room decides (see `probe_side`).
pub fn locked_door(ground: &Ground, rooms: &Vec<RoomDef>, current: u8, flags: &Vec<u16>, feet: (i32, i32), f: &DungeonFlags, t: &DoorTiles) -> (r: LockedDoor)
    requires
        ground.wf(),
    ensures
        r == spec_locked_door(*ground, rooms@, current, flags@, feet, *f, *t),
{
    let mut d: usize = 0;
    while d < 4
        invariant
            d <= 4,
            ground.wf(),
            forall|j: int| 0 <= j < d ==> probe_side(*ground, rooms@, current, flags@, feet, j, *f, *t) is None,
        decreases 4 - d,
    {
        let (dx, dy): (i64, i64) = if d == 0 { (0, -1) } else if d == 1 { (1, 0) } else if d == 2 { (0, 1) } else { (-1, 0) };
        let x: i64 = feet.0 as i64 + dx;
        let y: i64 = feet.1 as i64 + dy;
        if x >= 0 && y >= 0 {
            let n: (u32, u32) = (x as u32, y as u32);
            let tile = ground.get(n.0, n.1);
            if tile == t.door_locked || tile == t.door_boss {
                match find_room(rooms, current) {
                    None => return LockedDoor::Nothing,
                    Some(cur) => {
                        match exit_on_exec(&cur, n.0, n.1) {
                            None => {},
                            Some(exit) => {
                                return locked_verdict_exec(flags, exit, f);
                            },
                        }
                    },
                }
            }
        }
        d = d + 1;
    }
    LockedDoor::Nothing
}

/// Unlocking `exit` of room `current` with `flag`: the flag is set, the
/// door tile opens, and so do the doors of the room beyond that lead back.
pub fn unlock_door(flags: &mut Vec<u16>, ground: &mut Ground, rooms: &Vec<RoomDef>, current: u8, exit: &ExitDef, flag: u16, t: &DoorTiles)
    requires
        old(ground).wf(),
    ensures
        final(flags)@ == if old(flags)@.contains(flag) { old(flags)@ } else { old(flags)@.push(flag) },
        final(ground).wf(),
        final(ground).width == old(ground).width && final(ground).height == old(ground).height,
        ({
            let w = old(ground).width;
            let h = old(ground).height;
            let opened = paint(old(ground).tiles@, w, h, exit.tx, exit.ty, t.door_open);
            final(ground).tiles@ == match room_by_id(rooms@, exit.to_room) {
                Some(other) => paint_exits(opened, w, h, other, ExitFilter::ToRoom(current), t.door_open),
                None => opened,
            }
        }),
{
    set_flag(flags, flag);
    ground.set(exit.tx, exit.ty, t.door_open);
    if let Some(other) = find_room(rooms, exit.to_room) {
        paint_room_exits(ground, &other, ExitFilter::ToRoom(current), t.door_open);
    }
}


/// Exit on side `d` is on the feet tile and its door can be walked through.
pub open spec fn usable_exit(g: Ground, flags: Seq<u16>, solid: Seq<u16>, e: Option<ExitDef>, feet: (u32, u32), f: DungeonFlags, t: DoorTiles) -> bool {
    match e {
        Some(x) => x.tx == feet.0 && x.ty == feet.1
            && spec_door_is_open(flags, g.at(x.tx, x.ty), solid.contains(g.at(x.tx, x.ty)), x, f, t),
        None => false,
    }
}

fn contains_u16(v: &Vec<u16>, id: u16) -> (r: bool)
    ensures
        r == v@.contains(id),
{
    let mut i: usize = 0;
    while i < v.len()
        invariant
            i <= v.len(),
            forall|j: int| 0 <= j < i ==> v@[j] != id,
        decreases v.len() - i,
    {
        if v[i] == id {
            return true;
        }
        i = i + 1;
    }
    false
}

impl RoomsState {
    /// The player's feet (tile `feet`) on an exit of the current room whose
    /// door is open start a slide through it (the first such side). A tile
    /// is solid when its id is in `solid`. Returns whether a slide started.
    pub fn try_room_exit(&mut self, ground: &Ground, rooms: &Vec<RoomDef>, flags: &Vec<u16>, solid: &Vec<u16>, feet: (u32, u32), f: &DungeonFlags, t: &DoorTiles) -> (started: bool)
        requires
            ground.wf(),
        ensures
            final(self).current == old(self).current,
            final(self).shutter_closed == old(self).shutter_closed,
            ({
                let u = |d: int| room_by_id(rooms@, old(self).current) matches Some(cur)
                    && usable_exit(*ground, flags@, solid@, cur.exits[d], feet, *f, *t);
                let first = if u(0) { 0int } else if u(1) { 1int } else if u(2) { 2int } else if u(3) { 3int } else { 4int };
                if first == 4 {
                    !started && final(self).slide == old(self).slide
                } else {
                    let cur = room_by_id(rooms@, old(self).current).unwrap();
                    let exit = cur.exits[first].unwrap();
                    &&& started == room_by_id(rooms@, exit.to_room) is Some
                    &&& started ==> final(self).slide == Some(Slide {
                        from_rect: cur.rect,
                        to_rect: room_by_id(rooms@, exit.to_room).unwrap().rect,
                        t: 0,
                        to_room: exit.to_room,
                        dir: first as u8,
                    })
                    &&& !started ==> final(self).slide == old(self).slide
                }
            }),
    {
        let cur = match find_room(rooms, self.current) {
            None => return false,
            Some(c) => c,
        };
        let mut d: usize = 0;
        while d < 4
            invariant
                d <= 4,
                ground.wf(),
                room_by_id(rooms@, self.current) == Some(cur),
                *self == *old(self),
                forall|j: int| 0 <= j < d ==> !usable_exit(*ground, flags@, solid@, #[trigger] cur.exits[j], feet, *f, *t),
            decreases 4 - d,
        {
            if let Some(exit) = cur.exits[d] {
                if exit.tx == feet.0 && exit.ty == feet.1 {
                    let tile = ground.get(exit.tx, exit.ty);
                    let is_solid = contains_u16(solid, tile);
                    if door_is_open(flags, tile, is_solid, &exit, f, t) {
                        let dir: u8 = d as u8;
                        let started = self.start_slide(rooms, &cur, &exit, dir);
                        return started;
                    }
                }
            }
            d = d + 1;
        }
        false
    }

    /// Slams the doorways of a combat room shut (shutter tiles) and marks
    /// it (rooms 0 to 15 are tracked). Returns whether the room exists.
    pub fn close_room_shutters(&mut self, ground: &mut Ground, rooms: &Vec<RoomDef>, room: u8, t: &DoorTiles) -> (found: bool)
        requires
            old(ground).wf(),
        ensures
            found == room_by_id(rooms@, room) is Some,
            final(ground).wf(),
            final(ground).width == old(ground).width && final(ground).height == old(ground).height,
            final(self).current == old(self).current,
            final(self).slide == old(self).slide,
            !found ==> *final(ground) == *old(ground) && final(self).shutter_closed == old(self).shutter_closed,
            found ==> final(ground).tiles@ == paint_exits(old(ground).tiles@, old(ground).width, old(ground).height,
                room_by_id(rooms@, room).unwrap(), ExitFilter::Doorways, t.shutter),
            found ==> forall|i: int| 0 <= i < 16 ==> #[trigger] final(self).shutter_closed[i]
                == if i == room { true } else { old(self).shutter_closed[i] },
    {
        match find_room(rooms, room) {
            None => false,
            Some(def) => {
                paint_room_exits(ground, &def, ExitFilter::Doorways, t.shutter);
                if (room as usize) < 16 {
                    self.shutter_closed[room as usize] = true;
                }
                true
            },
        }
    }
}

/// Opens the doorways of a cleared combat room (gate sound) and unmarks
/// it when the dungeon's room state is live. Returns whether the room
/// exists.
pub fn open_room_shutters(state: &mut Option<RoomsState>, ground: &mut Ground, rooms: &Vec<RoomDef>, room: u8, t: &DoorTiles) -> (found: bool)
    requires
        old(ground).wf(),
    ensures
        found == room_by_id(rooms@, room) is Some,
        final(ground).wf(),
        final(ground).width == old(ground).width && final(ground).height == old(ground).height,
        !found ==> *final(ground) == *old(ground) && *final(state) == *old(state),
        found ==> final(ground).tiles@ == paint_exits(old(ground).tiles@, old(ground).width, old(ground).height,
            room_by_id(rooms@, room).unwrap(), ExitFilter::Doorways, t.door_open),
        found ==> match *old(state) {
            None => *final(state) is None,
            Some(s) => *final(state) matches Some(n) && n.current == s.current && n.slide == s.slide
                && forall|i: int| 0 <= i < 16 ==> #[trigger] n.shutter_closed[i] == if i == room { false } else { s.shutter_closed[i] },
        },
{
    match find_room(rooms, room) {
        None => false,
        Some(def) => {
            paint_room_exits(ground, &def, ExitFilter::Doorways, t.door_open);
            if let Some(rs) = state {
                if (room as usize) < 16 {
                    rs.shutter_closed[room as usize] = false;
                }
            }
            true
        },
    }
}

/// The ground after a seal room's seal doors, and the antechamber's doors
/// into it, are shown closed or broken (no change for an unknown room).
pub open spec fn spec_paint_seal_door(t0: Seq<u16>, w: u32, h: u32, rooms: Seq<RoomDef>, room: u8, antechamber: u8, closed: bool, t: DoorTiles) -> Seq<u16> {
    let tile = if closed { t.seal_door } else { t.seal_broken };
    match room_by_id(rooms, room) {
        None => t0,
        Some(def) => {
            let a = paint_exits(t0, w, h, def, ExitFilter::Seals, tile);
            match room_by_id(rooms, antechamber) {
                Some(ante) => paint_exits(a, w, h, ante, ExitFilter::ToRoom(room), tile),
                None => a,
            }
        },
    }
}

pub fn paint_seal_door(ground: &mut Ground, rooms: &Vec<RoomDef>, room: u8, antechamber: u8, closed: bool, t: &DoorTiles)
    requires
        old(ground).wf(),
    ensures
        final(ground).wf(),
        final(ground).width == old(ground).width && final(ground).height == old(ground).height,
        final(ground).tiles@ == spec_paint_seal_door(old(ground).tiles@, old(ground).width, old(ground).height, rooms@, room, antechamber, closed, *t),
{
    let def = match find_room(rooms, room) {
        None => return,
        Some(d) => d,
    };
    let tile = if closed { t.seal_door } else { t.seal_broken };
    paint_room_exits(ground, &def, ExitFilter::Seals, tile);
    if let Some(ante) = find_room(rooms, antechamber) {
        paint_room_exits(ground, &ante, ExitFilter::ToRoom(room), tile);
    }
}

/// Room ids of the dungeon that the rules name.
#[derive(Clone, Copy, Debug)]
pub struct DungeonRooms {
    pub vestibule: u8,
    pub antechamber: u8,
    pub sanctum: u8,
    pub seal_west: u8,
    pub seal_east: u8,
    pub flame: u8,
    pub trials: [u8; 3],
}

/// A room's exit on side `d` shown open, when the room and exit exist.
pub open spec fn open_side(t0: Seq<u16>, w: u32, h: u32, rooms: Seq<RoomDef>, room: u8, d: int, id: u16) -> Seq<u16> {
    match room_by_id(rooms, room) {
        Some(r) => match r.exits[d] {
            Some(e) => paint(t0, w, h, e.tx, e.ty, id),
            None => t0,
        },
        None => t0,
    }
}

/// With both seals broken the way on opens: the vestibule's north exit,
/// the antechamber's south and north exits, the sanctum's south exit.
pub open spec fn spec_open_ante(t0: Seq<u16>, w: u32, h: u32, rooms: Seq<RoomDef>, r: DungeonRooms, id: u16) -> Seq<u16> {
    let t1 = open_side(t0, w, h, rooms, r.vestibule, 0, id);
    let t2 = open_side(t1, w, h, rooms, r.antechamber, 2, id);
    let t3 = open_side(t2, w, h, rooms, r.antechamber, 0, id);
    open_side(t3, w, h, rooms, r.sanctum, 2, id)
}

fn open_side_exec(ground: &mut Ground, rooms: &Vec<RoomDef>, room: u8, d: usize, id: u16)
    requires
        old(ground).wf(),
        d < 4,
    ensures
        final(ground).wf(),
        final(ground).width == old(ground).width && final(ground).height == old(ground).height,
        final(ground).tiles@ == open_side(old(ground).tiles@, old(ground).width, old(ground).height, rooms@, room, d as int, id),
{
    if let Some(r) = find_room(rooms, room) {
        if let Some(e) = r.exits[d] {
            ground.set(e.tx, e.ty, id);
        }
    }
}

pub fn open_ante_shutters(ground: &mut Ground, rooms: &Vec<RoomDef>, r: &DungeonRooms, t: &DoorTiles)
    requires
        old(ground).wf(),
    ensures
        final(ground).wf(),
        final(ground).width == old(ground).width && final(ground).height == old(ground).height,
        final(ground).tiles@ == spec_open_ante(old(ground).tiles@, old(ground).width, old(ground).height, rooms@, *r, t.door_open),
{
    open_side_exec(ground, rooms, r.vestibule, 0, t.door_open);
    open_side_exec(ground, rooms, r.antechamber, 2, t.door_open);
    open_side_exec(ground, rooms, r.antechamber, 0, t.door_open);
    open_side_exec(ground, rooms, r.sanctum, 2, t.door_open);
}

/// The combat room whose spawn group is `group` (`groups[i]` fights in
/// `r.trials[i]`).
pub open spec fn spec_trial_room(groups: [u16; 3], r: DungeonRooms, group: u16) -> Option<u8> {
    if group == groups[0] { Some(r.trials[0]) }
    else if group == groups[1] { Some(r.trials[1]) }
    else if group == groups[2] { Some(r.trials[2]) }
    else { None }
}

pub fn trial_room(groups: &[u16; 3], r: &DungeonRooms, group: u16) -> (room: Option<u8>)
    ensures
        room == spec_trial_room(*groups, *r, group),
{
    if group == groups[0] {
        Some(r.trials[0])
    } else if group == groups[1] {
        Some(r.trials[1])
    } else if group == groups[2] {
        Some(r.trials[2])
    } else {
        None
    }
}

/// The spawn group fought in a combat room.
pub open spec fn spec_trial_group(groups: [u16; 3], r: DungeonRooms, room: u8) -> Option<u16> {
    if room == r.trials[0] { Some(groups[0]) }
    else if room == r.trials[1] { Some(groups[1]) }
    else if room == r.trials[2] { Some(groups[2]) }
    else { None }
}

pub fn trial_group(groups: &[u16; 3], r: &DungeonRooms, room: u8) -> (group: Option<u16>)
    ensures
        group == spec_trial_group(*groups, *r, room),
{
    if room == r.trials[0] {
        Some(groups[0])
    } else if room == r.trials[1] {
        Some(groups[1])
    } else if room == r.trials[2] {
        Some(groups[2])
    } else {
        None
    }
}

impl RoomsState {
    /// Entering a combat room whose group is not cleared slams its
    /// shutters (slam sound). Returns whether they slammed.
    pub fn on_enter_room(&mut self, ground: &mut Ground, rooms: &Vec<RoomDef>, groups: &[u16; 3], r: &DungeonRooms, room: u8, group_cleared: bool, t: &DoorTiles) -> (slammed: bool)
        requires
            old(ground).wf(),
        ensures
            slammed == (spec_trial_group(*groups, *r, room) is Some && !group_cleared),
            final(ground).wf(),
            final(ground).width == old(ground).width && final(ground).height == old(ground).height,
            final(self).current == old(self).current,
            final(self).slide == old(self).slide,
            !slammed ==> *final(ground) == *old(ground) && final(self).shutter_closed == old(self).shutter_closed,
            slammed && room_by_id(rooms@, room) is Some ==> final(ground).tiles@ == paint_exits(old(ground).tiles@,
                old(ground).width, old(ground).height, room_by_id(rooms@, room).unwrap(), ExitFilter::Doorways, t.shutter),
    {
        match trial_group(groups, r, room) {
            Some(_) => {
                if !group_cleared {
                    self.close_room_shutters(ground, rooms, room, t);
                    return true;
                }
                false
            },
            None => false,
        }
    }
}

/// The exits of every room (in order) whose door is `kind`, shown open.
pub open spec fn open_kind_doors(t: Seq<u16>, w: u32, h: u32, rooms: Seq<RoomDef>, kind: DoorKind, id: u16) -> Seq<u16>
    decreases rooms.len(),
{
    if rooms.len() == 0 {
        t
    } else {
        paint_exits(open_kind_doors(t, w, h, rooms.drop_last(), kind, id), w, h, rooms.last(), ExitFilter::Kind(kind), id)
    }
}

/// Every door of `kind` in the dungeon shown open (doors unlocked earlier).
pub fn open_flagged_doors(ground: &mut Ground, rooms: &Vec<RoomDef>, kind: DoorKind, t: &DoorTiles)
    requires
        old(ground).wf(),
    ensures
        final(ground).wf(),
        final(ground).width == old(ground).width && final(ground).height == old(ground).height,
        final(ground).tiles@ == open_kind_doors(old(ground).tiles@, old(ground).width, old(ground).height, rooms@, kind, t.door_open),
{
    let mut i: usize = 0;
    while i < rooms.len()
        invariant
            i <= rooms.len(),
            ground.wf(),
            ground.width == old(ground).width && ground.height == old(ground).height,
            ground.tiles@ == open_kind_doors(old(ground).tiles@, old(ground).width, old(ground).height, rooms@.subrange(0, i as int), kind, t.door_open),
        decreases rooms.len() - i,
    {
        proof {
            assert(rooms@.subrange(0, i + 1).drop_last() =~= rooms@.subrange(0, i as int));
            assert(rooms@.subrange(0, i + 1).last() == rooms@[i as int]);
        }
        paint_room_exits(ground, &rooms[i], ExitFilter::Kind(kind), t.door_open);
        i = i + 1;
    }
    assert(rooms@.subrange(0, rooms@.len() as int) =~= rooms@);
}

} // verus!
