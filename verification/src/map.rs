//! Maps and their trigger rectangles.

use vstd::prelude::*;

verus! {

/// The maps of the game.
#[derive(Clone, Copy, Debug, PartialEq, Eq, Structural)]
pub enum MapId {
    Overworld,
    Arena,
    Dungeon,
    House(u8),
    Shop,
    Cave(u8),
    ShrineLobby,
}

/// What stepping into a trigger rectangle does.
#[derive(Clone, Copy, Debug, PartialEq, Eq, Structural)]
pub enum TriggerKind {
    /// Fade to `target`, arriving at entry `entry`.
    Door { target: MapId, entry: u8 },
    /// Announce a region by index.
    Banner { region: u8 },
    /// Make checkpoint `id` the respawn point.
    Checkpoint { id: u8 },
    /// Discover a secret flag.
    Secret { flag: u16 },
}

/// A trigger rectangle of `w` by `h` tiles at `(tx, ty)`.
#[derive(Clone, Copy, Debug, PartialEq, Eq, Structural)]
pub struct Trigger {
    pub tx: u32,
    pub ty: u32,
    pub w: u32,
    pub h: u32,
    pub kind: TriggerKind,
}

/// The feet tile `(fx, fy)` lies in the trigger's rectangle.
pub open spec fn spec_inside(t: Trigger, fx: i32, fy: i32) -> bool {
    &&& fx >= t.tx && fy >= t.ty
    &&& fx < t.tx + t.w && fy < t.ty + t.h
}

pub fn inside(t: &Trigger, fx: i32, fy: i32) -> (r: bool)
    ensures
        r == spec_inside(*t, fx, fy),
{
    let x: i64 = fx as i64;
    let y: i64 = fy as i64;
    x >= t.tx as i64 && y >= t.ty as i64 && x < t.tx as i64 + t.w as i64 && y < t.ty as i64 + t.h as i64
}

/// Adds a one-tile door trigger at `(tx, ty)` to `target`/`entry` unless
/// an identical door already stands there.
pub fn add_door_once(triggers: &mut Vec<Trigger>, tx: u32, ty: u32, target: MapId, entry: u8)
    ensures
        ({
            let door = Trigger { tx, ty, w: 1, h: 1, kind: TriggerKind::Door { target, entry } };
            let present = exists|i: int| 0 <= i < old(triggers)@.len()
                && (#[trigger] old(triggers)@[i]).tx == tx && old(triggers)@[i].ty == ty
                && old(triggers)@[i].kind == (TriggerKind::Door { target, entry });
            &&& present ==> final(triggers)@ == old(triggers)@
            &&& !present ==> final(triggers)@ == old(triggers)@.push(door)
        }),
{
    let mut i: usize = 0;
    let mut found = false;
    while i < triggers.len()
        invariant
            i <= triggers.len(),
            triggers@ == old(triggers)@,
            found == exists|j: int| 0 <= j < i
                && (#[trigger] triggers@[j]).tx == tx && triggers@[j].ty == ty
                && triggers@[j].kind == (TriggerKind::Door { target, entry }),
        decreases triggers.len() - i,
    {
        let t = triggers[i];
        let same = match t.kind {
            TriggerKind::Door { target: tm, entry: e } => tm == target && e == entry,
            _ => false,
        };
        if same && t.tx == tx && t.ty == ty {
            found = true;
        }
        proof {
            if same && t.tx == tx && t.ty == ty {
                assert(triggers@[i as int].kind == (TriggerKind::Door { target, entry }));
            }
        }
        i = i + 1;
    }
    if !found {
        triggers.push(Trigger { tx, ty, w: 1, h: 1, kind: TriggerKind::Door { target, entry } });
    }
}

/// Tile `(x, y)` lies in the trigger's rectangle.
pub open spec fn covers(t: Trigger, x: int, y: int) -> bool {
    t.tx <= x < t.tx + t.w && t.ty <= y < t.ty + t.h
}

/// Self-check of a door's arrival: the entry tile `(x, y)` on the target
/// map stands in none of that map's door rectangles, so arriving does not
/// send the player straight back.
pub fn arrival_clear(dest: &Vec<Trigger>, x: u32, y: u32) -> (ok: bool)
    ensures
        ok == forall|i: int| 0 <= i < dest@.len() ==> !((#[trigger] dest@[i]).kind is Door && covers(dest@[i], x as int, y as int)),
{
    let mut i: usize = 0;
    while i < dest.len()
        invariant
            i <= dest.len(),
            forall|j: int| 0 <= j < i ==> !((#[trigger] dest@[j]).kind is Door && covers(dest@[j], x as int, y as int)),
        decreases dest.len() - i,
    {
        let t = dest[i];
        let door = match t.kind {
            TriggerKind::Door { .. } => true,
            _ => false,
        };
        let x64: u64 = x as u64;
        let y64: u64 = y as u64;
        if door && t.tx as u64 <= x64 && x64 < t.tx as u64 + t.w as u64 && t.ty as u64 <= y64 && y64 < t.ty as u64 + t.h as u64 {
            return false;
        }
        i = i + 1;
    }
    true
}

} // verus!
