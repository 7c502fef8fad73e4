//! The interact verb's rules: chests and their loot, gems and their
//! checkpoints, the shrine seal that wants three gems, landmark secrets,
//! the elder's lines.

use vstd::prelude::*;
use crate::flags::{has_flag, set_flag};
use crate::map::{MapId, Trigger, TriggerKind};
use crate::entity::AnimState;
use crate::player::PlayerData;
use crate::tiles::{paint, Ground};

verus! {

/// Story flags read and written by interactions.
#[derive(Clone, Copy, Debug)]
pub struct StoryFlags {
    pub gem_courage: u16,
    pub gem_power: u16,
    pub gem_wisdom: u16,
    pub item_boomerang: u16,
    pub dchest_key1: u16,
    pub dkey_small_1: u16,
    pub dkey_small_2: u16,
    pub dkey_boss: u16,
    pub chest_power_gem: u16,
    pub group_camp_guard: u16,
    pub puzzle_chimes_done: u16,
    pub door_shrine_open: u16,
    pub shard_of_courage: u16,
    pub quest_started: u16,
    pub chest_cliffs_heart: u16,
    pub chest_ruins_cellar: u16,
    pub chest_grove_heart: u16,
    pub heart_piece_1: u16,
    pub heart_piece_2: u16,
    pub heart_piece_3: u16,
    pub secret_cliffs_cave: u16,
    pub secret_summit_vista: u16,
    pub wall_grove_open: u16,
    pub secret_shrine_braziers: u16,
    pub chest_shrine_braziers: u16,
}

/// Gem bit of gem `gid` (ids past 2 count as the third gem).
pub open spec fn gem_bit(gid: u8) -> u8 {
    if gid == 0 { 1 } else if gid == 1 { 2 } else { 4 }
}

/// Checkpoint at a gem's site.
pub open spec fn gem_checkpoint(gid: u8) -> u8 {
    if gid == 0 { 2 } else if gid == 1 { 3 } else { 4 }
}

pub open spec fn gem_flag(gid: u8, s: StoryFlags) -> u16 {
    if gid == 0 { s.gem_courage } else if gid == 1 { s.gem_power } else { s.gem_wisdom }
}

/// Grants gem `gid`: its bit joins `gems`, its flag is set, its site
/// becomes the checkpoint (gem sound, toast, hold dialog, shake).
pub fn grant_gem(gems: &mut u8, flags: &mut Vec<u16>, checkpoint: &mut u8, gid: u8, s: &StoryFlags)
    ensures
        *final(gems) == *old(gems) | gem_bit(gid),
        *final(checkpoint) == gem_checkpoint(gid),
        final(flags)@ == if old(flags)@.contains(gem_flag(gid, *s)) { old(flags)@ } else { old(flags)@.push(gem_flag(gid, *s)) },
{
    let bit: u8 = if gid == 0 { 1 } else if gid == 1 { 2 } else { 4 };
    *gems = *gems | bit;
    let flag = if gid == 0 { s.gem_courage } else if gid == 1 { s.gem_power } else { s.gem_wisdom };
    set_flag(flags, flag);
    *checkpoint = if gid == 0 { 2 } else if gid == 1 { 3 } else { 4 };
}

/// Number of gems held (set bits of the low three).
pub open spec fn gem_count(gems: u8) -> int {
    (if gems & 1 != 0 { 1int } else { 0int }) + (if gems & 2 != 0 { 1int } else { 0int })
        + (if gems & 4 != 0 { 1int } else { 0int }) + (if gems & 8 != 0 { 1int } else { 0int })
        + (if gems & 16 != 0 { 1int } else { 0int }) + (if gems & 32 != 0 { 1int } else { 0int })
        + (if gems & 64 != 0 { 1int } else { 0int }) + (if gems & 128 != 0 { 1int } else { 0int })
}

/// A gem is counted once: granting a gem not yet held adds one to the
/// count, and granting it again changes nothing.
pub proof fn lemma_gem_counted_once(gems: u8, gid: u8)
    ensures
        gem_count(gems | gem_bit(gid)) == gem_count(gems) + (if gems & gem_bit(gid) == 0 { 1int } else { 0int }),
        (gems | gem_bit(gid)) | gem_bit(gid) == gems | gem_bit(gid),
{
    let b = gem_bit(gid);
    assert(b == 1 || b == 2 || b == 4);
    let g2 = gems | b;
    assert(g2 | b == g2) by (bit_vector)
        requires g2 == gems | b;
    assert((g2 & 1 != 0) == ((gems & 1 != 0) || (b & 1 != 0))) by (bit_vector) requires g2 == gems | b;
    assert((g2 & 2 != 0) == ((gems & 2 != 0) || (b & 2 != 0))) by (bit_vector) requires g2 == gems | b;
    assert((g2 & 4 != 0) == ((gems & 4 != 0) || (b & 4 != 0))) by (bit_vector) requires g2 == gems | b;
    assert((g2 & 8 != 0) == (gems & 8 != 0)) by (bit_vector) requires g2 == gems | b, b == 1 || b == 2 || b == 4;
    assert((g2 & 16 != 0) == (gems & 16 != 0)) by (bit_vector) requires g2 == gems | b, b == 1 || b == 2 || b == 4;
    assert((g2 & 32 != 0) == (gems & 32 != 0)) by (bit_vector) requires g2 == gems | b, b == 1 || b == 2 || b == 4;
    assert((g2 & 64 != 0) == (gems & 64 != 0)) by (bit_vector) requires g2 == gems | b, b == 1 || b == 2 || b == 4;
    assert((g2 & 128 != 0) == (gems & 128 != 0)) by (bit_vector) requires g2 == gems | b, b == 1 || b == 2 || b == 4;
    assert(b == 1 ==> (b & 1 != 0) && (b & 2 == 0) && (b & 4 == 0)) by (bit_vector);
    assert(b == 2 ==> (b & 1 == 0) && (b & 2 != 0) && (b & 4 == 0)) by (bit_vector);
    assert(b == 4 ==> (b & 1 == 0) && (b & 2 == 0) && (b & 4 != 0)) by (bit_vector);
}

pub fn count_gems(gems: u8) -> (n: u32)
    ensures
        n == gem_count(gems),
        n <= 8,
{
    let mut n: u32 = 0;
    if gems & 1 != 0 { n = n + 1; }
    if gems & 2 != 0 { n = n + 1; }
    if gems & 4 != 0 { n = n + 1; }
    if gems & 8 != 0 { n = n + 1; }
    if gems & 16 != 0 { n = n + 1; }
    if gems & 32 != 0 { n = n + 1; }
    if gems & 64 != 0 { n = n + 1; }
    if gems & 128 != 0 { n = n + 1; }
    n
}

/// The shrine's sealed door: its tile and the tiles either side.
pub const SHRINE_DOOR: (u32, u32) = (120, 10);
/// Reach of the shrine seal, in tiles either way of its door.
pub const SHRINE_REACH: i32 = 2;
/// Gems the shrine seal wants.
pub const SHRINE_GEMS: u32 = 3;

/// Tile ids the shrine seal opens into.
#[derive(Clone, Copy, Debug)]
pub struct ShrineTiles {
    pub cave_mouth: u16,
    pub path: u16,
}

/// Interacting near the shrine seal.
#[derive(Clone, Copy, Debug, PartialEq, Eq, Structural)]
pub enum ShrineSeal {
    /// Not on the overworld, already open, or not near it.
    NotHere,
    /// The seal holds: a dialog names how many gems (0, 1 or 2) are held.
    Holds { gems: u32 },
    /// Three gems: the seal opens (flag, door tiles, door to the shrine
    /// lobby, shake, seal sound, toast, dialog, save).
    Opened,
}

/// The opened shrine door: cave mouth flanked by path, and a door to the
/// shrine lobby.
pub open spec fn shrine_opened_tiles(t: Seq<u16>, w: u32, h: u32, st: ShrineTiles) -> Seq<u16> {
    let a = paint(t, w, h, 120, 10, st.cave_mouth);
    let b = paint(a, w, h, 119, 10, st.path);
    paint(b, w, h, 121, 10, st.path)
}

/// The player at tile `tile` interacts while on `map`.
pub fn try_shrine_seal(flags: &mut Vec<u16>, ground: &mut Ground, triggers: &mut Vec<Trigger>, gems: u8, map: MapId, tile: (i32, i32), s: &StoryFlags, st: ShrineTiles) -> (r: ShrineSeal)
    requires
        old(ground).wf(),
    ensures
        final(ground).wf(),
        final(ground).width == old(ground).width && final(ground).height == old(ground).height,
        ({
            let near = -SHRINE_REACH <= tile.0 - 120 <= SHRINE_REACH && -SHRINE_REACH <= tile.1 - 10 <= SHRINE_REACH;
            if map != MapId::Overworld || old(flags)@.contains(s.door_shrine_open) || !near {
                r == ShrineSeal::NotHere && final(flags)@ == old(flags)@ && *final(ground) == *old(ground)
                    && final(triggers)@ == old(triggers)@
            } else if gem_count(gems) < SHRINE_GEMS {
                r == (ShrineSeal::Holds { gems: gem_count(gems) as u32 }) && final(flags)@ == old(flags)@
                    && *final(ground) == *old(ground) && final(triggers)@ == old(triggers)@
            } else {
                &&& r == ShrineSeal::Opened
                &&& final(flags)@ == old(flags)@.push(s.door_shrine_open)
                &&& final(ground).tiles@ == shrine_opened_tiles(old(ground).tiles@, old(ground).width, old(ground).height, st)
                &&& final(triggers)@ == old(triggers)@.push(Trigger { tx: 120, ty: 10, w: 1, h: 1,
                    kind: TriggerKind::Door { target: MapId::ShrineLobby, entry: 0 } })
            }
        }),
{
    if map != MapId::Overworld || has_flag(flags, s.door_shrine_open) {
        return ShrineSeal::NotHere;
    }
    let dx: i64 = tile.0 as i64 - 120;
    let dy: i64 = tile.1 as i64 - 10;
    if !(-2 <= dx && dx <= 2 && -2 <= dy && dy <= 2) {
        return ShrineSeal::NotHere;
    }
    let count = count_gems(gems);
    if count < SHRINE_GEMS {
        return ShrineSeal::Holds { gems: count };
    }
    set_flag(flags, s.door_shrine_open);
    ground.set(120, 10, st.cave_mouth);
    ground.set(119, 10, st.path);
    ground.set(121, 10, st.path);
    triggers.push(Trigger { tx: 120, ty: 10, w: 1, h: 1, kind: TriggerKind::Door { target: MapId::ShrineLobby, entry: 0 } });
    ShrineSeal::Opened
}

/// On reload with the shrine open: its door tiles and (once) its door.
pub fn restore_shrine_door(ground: &mut Ground, triggers: &mut Vec<Trigger>, flags: &Vec<u16>, s: &StoryFlags, st: ShrineTiles)
    requires
        old(ground).wf(),
    ensures
        final(ground).wf(),
        final(ground).width == old(ground).width && final(ground).height == old(ground).height,
        !flags@.contains(s.door_shrine_open) ==> *final(ground) == *old(ground) && final(triggers)@ == old(triggers)@,
        flags@.contains(s.door_shrine_open) ==> final(ground).tiles@ == shrine_opened_tiles(old(ground).tiles@,
            old(ground).width, old(ground).height, st),
        flags@.contains(s.door_shrine_open) ==> ({
            let present = exists|i: int| 0 <= i < old(triggers)@.len()
                && (#[trigger] old(triggers)@[i]).kind matches TriggerKind::Door { target: MapId::ShrineLobby, .. };
            &&& present ==> final(triggers)@ == old(triggers)@
            &&& !present ==> final(triggers)@ == old(triggers)@.push(Trigger { tx: 120, ty: 10, w: 1, h: 1,
                kind: TriggerKind::Door { target: MapId::ShrineLobby, entry: 0 } })
        }),
{
    if !has_flag(flags, s.door_shrine_open) {
        return;
    }
    ground.set(120, 10, st.cave_mouth);
    ground.set(119, 10, st.path);
    ground.set(121, 10, st.path);
    let mut found = false;
    let mut i: usize = 0;
    while i < triggers.len()
        invariant
            i <= triggers.len(),
            triggers@ == old(triggers)@,
            found == exists|j: int| 0 <= j < i
                && (#[trigger] triggers@[j]).kind matches TriggerKind::Door { target: MapId::ShrineLobby, .. },
        decreases triggers.len() - i,
    {
        let hit = match triggers[i].kind {
            TriggerKind::Door { target: MapId::ShrineLobby, .. } => true,
            _ => false,
        };
        if hit {
            found = true;
        }
        i = i + 1;
    }
    if !found {
        triggers.push(Trigger { tx: 120, ty: 10, w: 1, h: 1, kind: TriggerKind::Door { target: MapId::ShrineLobby, entry: 0 } });
    }
}

/// What a chest holds.
#[derive(Clone, Copy, Debug, PartialEq, Eq, Structural)]
pub enum Loot {
    Rupees(u32),
    HeartPiece,
    Gem(u8),
    Boomerang,
    SmallKey,
    BossKey,
}

/// Opening a chest.
#[derive(Clone, Copy, Debug, PartialEq, Eq, Structural)]
pub enum ChestOpen {
    /// Already open.
    AlreadyOpen,
    /// The power-gem chest stays locked until the camp guard is beaten
    /// (a dialog says so).
    Locked,
    /// Opened (its flag set, chest sound, save); the loot's own effects
    /// are in the flags and the player.
    Opened(Loot),
}

/// Heart-piece flag earned by a chest's flag.
pub open spec fn heart_piece_for(chest_flag: u16, s: StoryFlags) -> u16 {
    if chest_flag == s.chest_cliffs_heart {
        s.heart_piece_1
    } else if chest_flag == s.chest_ruins_cellar {
        s.heart_piece_2
    } else {
        s.heart_piece_3
    }
}

/// The flags a loot sets besides the chest's own.
pub open spec fn loot_flags(flags: Seq<u16>, loot: Loot, chest_flag: u16, s: StoryFlags) -> Seq<u16> {
    match loot {
        Loot::Rupees(_) => flags,
        Loot::Gem(_) => flags,
        Loot::Boomerang => add_flag(flags, s.item_boomerang),
        Loot::SmallKey => add_flag(flags, if chest_flag == s.dchest_key1 { s.dkey_small_1 } else { s.dkey_small_2 }),
        Loot::BossKey => add_flag(flags, s.dkey_boss),
        Loot::HeartPiece => {
            let piece = heart_piece_for(chest_flag, s);
            let f1 = add_flag(flags, piece);
            if piece == s.heart_piece_1 { add_flag(f1, s.secret_cliffs_cave) } else { f1 }
        },
    }
}

/// `flags` with `f` set.
pub open spec fn add_flag(flags: Seq<u16>, f: u16) -> Seq<u16> {
    if flags.contains(f) { flags } else { flags.push(f) }
}

/// Opens the chest with flag `chest_flag` and loot `loot`. A gem loot is
/// granted by the caller (`grant_gem`); rupees spill as pickups; a heart
/// piece also counts toward a heart container.
pub fn open_chest(flags: &mut Vec<u16>, pd: &mut PlayerData, open: bool, chest_flag: u16, loot: Loot, guard_cleared: bool, s: &StoryFlags) -> (r: ChestOpen)
    ensures
        open ==> r == ChestOpen::AlreadyOpen && final(flags)@ == old(flags)@ && *final(pd) == *old(pd),
        !open && chest_flag == s.chest_power_gem && !old(flags)@.contains(s.group_camp_guard) && !guard_cleared
            ==> r == ChestOpen::Locked && final(flags)@ == old(flags)@ && *final(pd) == *old(pd),
        !open && !(chest_flag == s.chest_power_gem && !old(flags)@.contains(s.group_camp_guard) && !guard_cleared) ==> {
            &&& r == ChestOpen::Opened(loot)
            &&& final(flags)@ == loot_flags(add_flag(old(flags)@, chest_flag), loot, chest_flag, *s)
            &&& *final(pd) == if loot is Boomerang { PlayerData { selected_item: 2, ..*old(pd) } } else { *old(pd) }
        },
{
    if open {
        return ChestOpen::AlreadyOpen;
    }
    if chest_flag == s.chest_power_gem && !has_flag(flags, s.group_camp_guard) && !guard_cleared {
        return ChestOpen::Locked;
    }
    set_flag(flags, chest_flag);
    match loot {
        Loot::Rupees(_) => {},
        Loot::Gem(_) => {},
        Loot::Boomerang => {
            set_flag(flags, s.item_boomerang);
            pd.selected_item = 2;
        },
        Loot::SmallKey => {
            if chest_flag == s.dchest_key1 {
                set_flag(flags, s.dkey_small_1);
            } else {
                set_flag(flags, s.dkey_small_2);
            }
        },
        Loot::BossKey => {
            set_flag(flags, s.dkey_boss);
        },
        Loot::HeartPiece => {
            let piece = if chest_flag == s.chest_cliffs_heart {
                s.heart_piece_1
            } else if chest_flag == s.chest_ruins_cellar {
                s.heart_piece_2
            } else {
                s.heart_piece_3
            };
            set_flag(flags, piece);
            if piece == s.heart_piece_1 {
                set_flag(flags, s.secret_cliffs_cave);
            }
        },
    }
    ChestOpen::Opened(loot)
}

/// Taking a gem from its pedestal.
#[derive(Clone, Copy, Debug, PartialEq, Eq, Structural)]
pub enum GemTake {
    AlreadyTaken,
    /// The courage gem on the overworld stays sealed until the chime
    /// finale is done (a dialog says so).
    Sealed,
    /// Taken: the caller grants it (`grant_gem`) and saves.
    Taken,
}

pub fn take_gem(taken: bool, gid: u8, sealed: bool, map: MapId, flags: &Vec<u16>, s: &StoryFlags) -> (r: GemTake)
    ensures
        r == if taken {
            GemTake::AlreadyTaken
        } else if map == MapId::Overworld && gid == 0 && (sealed || !flags@.contains(s.puzzle_chimes_done)) {
            GemTake::Sealed
        } else {
            GemTake::Taken
        },
{
    if taken {
        return GemTake::AlreadyTaken;
    }
    if map == MapId::Overworld && gid == 0 && (sealed || !has_flag(flags, s.puzzle_chimes_done)) {
        return GemTake::Sealed;
    }
    GemTake::Taken
}

/// What the elder says.
#[derive(Clone, Copy, Debug, PartialEq, Eq, Structural)]
pub enum ElderLine {
    /// After the shard of courage is won.
    Victory,
    /// Once the quest has started.
    Reminder,
    /// The first talk.
    Greeting,
}

/// Talking to the elder: the line, and the quest starts.
pub fn talk_to_elder(flags: &mut Vec<u16>, s: &StoryFlags) -> (line: ElderLine)
    ensures
        line == if old(flags)@.contains(s.shard_of_courage) {
            ElderLine::Victory
        } else if old(flags)@.contains(s.quest_started) {
            ElderLine::Reminder
        } else {
            ElderLine::Greeting
        },
        final(flags)@ == add_flag(old(flags)@, s.quest_started),
{
    let line = if has_flag(flags, s.shard_of_courage) {
        ElderLine::Victory
    } else if has_flag(flags, s.quest_started) {
        ElderLine::Reminder
    } else {
        ElderLine::Greeting
    };
    set_flag(flags, s.quest_started);
    line
}

/// Tile `(tx, ty)` in the inclusive rectangle `(x0, y0)`..`(x1, y1)`.
pub open spec fn spec_in_tile(tx: u32, ty: u32, x0: u32, y0: u32, x1: u32, y1: u32) -> bool {
    tx >= x0 && tx <= x1 && ty >= y0 && ty <= y1
}

pub fn in_tile(tx: u32, ty: u32, x0: u32, y0: u32, x1: u32, y1: u32) -> (r: bool)
    ensures
        r == spec_in_tile(tx, ty, x0, y0, x1, y1),
{
    tx >= x0 && tx <= x1 && ty >= y0 && ty <= y1
}

/// A landmark interaction.
#[derive(Clone, Copy, Debug, PartialEq, Eq, Structural)]
pub enum Landmark {
    Nothing,
    /// The summit vista is found (secret; 30 rupees spill).
    SummitVista,
    /// The hollow wall in the grove hints at a bomb while closed.
    HollowWall,
    /// A brazier is noted (the minimap links the pair).
    Brazier,
    /// Both braziers linked: the twin-flames secret (50 rupees spill).
    TwinFlames,
}

/// Interacting at tile `(tx, ty)`; `braziers_linked` is whether both
/// braziers were lit close enough together (noting this one included).
pub fn try_landmark(flags: &mut Vec<u16>, tx: u32, ty: u32, braziers_linked: bool, s: &StoryFlags) -> (r: Landmark)
    ensures
        ({
            let vista = spec_in_tile(tx, ty, 98, 28, 104, 32) && !old(flags)@.contains(s.secret_summit_vista);
            let wall = spec_in_tile(tx, ty, 28, 183, 32, 187) && !old(flags)@.contains(s.wall_grove_open);
            let brazier = spec_in_tile(tx, ty, 110, 12, 114, 16) || spec_in_tile(tx, ty, 126, 12, 130, 16);
            if vista {
                r == Landmark::SummitVista && final(flags)@ == old(flags)@.push(s.secret_summit_vista)
            } else if wall {
                r == Landmark::HollowWall && final(flags)@ == old(flags)@
            } else if brazier {
                if braziers_linked && !old(flags)@.contains(s.secret_shrine_braziers) {
                    r == Landmark::TwinFlames
                        && final(flags)@ == add_flag(old(flags)@.push(s.secret_shrine_braziers), s.chest_shrine_braziers)
                } else {
                    r == Landmark::Brazier && final(flags)@ == old(flags)@
                }
            } else {
                r == Landmark::Nothing && final(flags)@ == old(flags)@
            }
        }),
{
    if in_tile(tx, ty, 98, 28, 104, 32) && !has_flag(flags, s.secret_summit_vista) {
        set_flag(flags, s.secret_summit_vista);
        return Landmark::SummitVista;
    }
    if in_tile(tx, ty, 28, 183, 32, 187) && !has_flag(flags, s.wall_grove_open) {
        return Landmark::HollowWall;
    }
    if in_tile(tx, ty, 110, 12, 114, 16) || in_tile(tx, ty, 126, 12, 130, 16) {
        if braziers_linked && !has_flag(flags, s.secret_shrine_braziers) {
            set_flag(flags, s.secret_shrine_braziers);
            set_flag(flags, s.chest_shrine_braziers);
            return Landmark::TwinFlames;
        }
        return Landmark::Brazier;
    }
    Landmark::Nothing
}


/// NPCs idle with a two-frame bob, stepping every 20 ticks of their clock.
pub fn npc_idle_anim(anim: &mut AnimState)
    requires
        old(anim).frame < u16::MAX,
    ensures
        final(anim).frame == if old(anim).timer % 20 == 0 { ((old(anim).frame + 1) % 2) as u16 } else { old(anim).frame },
        final(anim).timer == old(anim).timer && final(anim).sheet == old(anim).sheet,
{
    if anim.timer % 20 == 0 {
        anim.frame = (anim.frame + 1) % 2;
    }
}

/// An opened chest's lid animation: while it runs it counts down and the
/// open frame shows.
pub fn tick_chest_anim(open_anim: &mut u8, anim: &mut AnimState)
    ensures
        *old(open_anim) > 0 ==> *final(open_anim) == *old(open_anim) - 1 && final(anim).frame == 1,
        *old(open_anim) == 0 ==> *final(open_anim) == 0 && final(anim).frame == old(anim).frame,
        final(anim).timer == old(anim).timer && final(anim).sheet == old(anim).sheet,
{
    if *open_anim > 0 {
        *open_anim = *open_anim - 1;
        anim.frame = 1;
    }
}

/// Ticks an opened chest's lid animates.
pub const CHEST_OPEN_ANIM: u8 = 12;

} // verus!
