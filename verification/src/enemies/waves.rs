//! Arena wave director: lull, spawn a wave, wait for the clear, pay a bonus.

use vstd::prelude::*;
use crate::cue::Sfx;
use crate::tuning::{WAVE_ALIVE_CAP, WAVE_LULL};

verus! {

/// Enemy kinds a wave is made of.
#[derive(Clone, Copy, Debug, PartialEq, Eq, Structural)]
pub enum WaveKind {
    Slime,
    Bat,
    Octorok,
}

#[derive(Clone, Copy, Debug)]
pub struct WaveDirector {
    pub wave: u32,
    pub lull: u16,
    pub active: bool,
    pub spawned_this_wave: bool,
}

/// The third-wave pattern that later waves build on.
pub open spec fn spec_wave3() -> Seq<WaveKind> {
    seq![WaveKind::Octorok, WaveKind::Octorok, WaveKind::Slime, WaveKind::Slime, WaveKind::Bat]
}

/// Extra enemy `i` of an escalated wave: slime, bat, octorok, repeating.
pub open spec fn spec_extra(i: int) -> WaveKind {
    if i % 3 == 0 { WaveKind::Slime } else if i % 3 == 1 { WaveKind::Bat } else { WaveKind::Octorok }
}

/// Composition of a wave: three slimes, then slimes and bats, then the
/// third-wave pattern, then that pattern plus up to five extras.
pub open spec fn spec_roster(wave: u32) -> Seq<WaveKind> {
    if wave <= 1 {
        seq![WaveKind::Slime, WaveKind::Slime, WaveKind::Slime]
    } else if wave == 2 {
        seq![WaveKind::Slime, WaveKind::Slime, WaveKind::Bat, WaveKind::Bat]
    } else if wave == 3 {
        spec_wave3()
    } else {
        let extra = if wave - 3 < 5 { wave - 3 } else { 5 };
        spec_wave3() + Seq::new(extra as nat, |i: int| spec_extra(i))
    }
}

/// Waves escalate: a later wave never fields fewer enemies, the first
/// waves field three, four and five, and no wave fields more than ten.
pub proof fn lemma_waves_escalate(w1: u32, w2: u32)
    requires
        w1 <= w2,
    ensures
        spec_roster(w1).len() <= spec_roster(w2).len(),
        spec_roster(w2).len() <= 10,
        spec_roster(1).len() == 3 && spec_roster(2).len() == 4 && spec_roster(3).len() == 5,
{
}

impl WaveDirector {
    /// A director before the first wave: a short lull, active.
    pub fn new() -> (r: Self)
        ensures
            r.wave == 0 && r.lull == 30 && r.active && !r.spawned_this_wave,
    {
        WaveDirector { wave: 0, lull: 30, active: true, spawned_this_wave: false }
    }
}

impl Default for WaveDirector {
    /// The director before the first wave, as `new` gives.
    fn default() -> (r: Self)
        ensures
            r.wave == 0 && r.lull == 30 && r.active && !r.spawned_this_wave,
    {
        WaveDirector::new()
    }
}

/// Wave roster (never more than the alive cap).
pub fn roster(wave: u32) -> (r: Vec<WaveKind>)
    ensures
        r@ == spec_roster(wave),
        r@.len() <= WAVE_ALIVE_CAP,
{
    if wave <= 1 {
        return vec![WaveKind::Slime, WaveKind::Slime, WaveKind::Slime];
    }
    if wave == 2 {
        return vec![WaveKind::Slime, WaveKind::Slime, WaveKind::Bat, WaveKind::Bat];
    }
    let mut v = vec![WaveKind::Octorok, WaveKind::Octorok, WaveKind::Slime, WaveKind::Slime, WaveKind::Bat];
    if wave == 3 {
        assert(v@ =~= spec_wave3());
        return v;
    }
    let extra: u32 = if wave - 3 < 5 { wave - 3 } else { 5 };
    let mut i: u32 = 0;
    while i < extra
        invariant
            i <= extra <= 5,
            v@ == spec_wave3() + Seq::new(i as nat, |j: int| spec_extra(j)),
        decreases extra - i,
    {
        let k = if i % 3 == 0 {
            WaveKind::Slime
        } else if i % 3 == 1 {
            WaveKind::Bat
        } else {
            WaveKind::Octorok
        };
        v.push(k);
        i = i + 1;
        assert(v@ =~= spec_wave3() + Seq::new(i as nat, |j: int| spec_extra(j)));
    }
    v
}

/// Enemies actually spawned for a wave while `alive` are up: the roster,
/// cut off once the arena holds `WAVE_ALIVE_CAP` enemies.
pub fn spawn_plan(wave: u32, alive: usize) -> (r: Vec<WaveKind>)
    ensures
        alive >= WAVE_ALIVE_CAP ==> r@.len() == 0,
        alive < WAVE_ALIVE_CAP ==> r@ == spec_roster(wave).take(
            if spec_roster(wave).len() <= WAVE_ALIVE_CAP - alive {
                spec_roster(wave).len() as int
            } else {
                (WAVE_ALIVE_CAP - alive) as int
            },
        ),
        // The arena never holds more than the cap because of a wave.
        alive <= WAVE_ALIVE_CAP ==> alive + r@.len() <= WAVE_ALIVE_CAP,
{
    let full = roster(wave);
    let room: usize = if alive >= WAVE_ALIVE_CAP { 0 } else { WAVE_ALIVE_CAP - alive };
    let n: usize = if full.len() <= room { full.len() } else { room };
    let mut out: Vec<WaveKind> = Vec::new();
    let mut i: usize = 0;
    while i < n
        invariant
            i <= n <= full.len(),
            out@ == full@.take(i as int),
        decreases n - i,
    {
        out.push(full[i]);
        i = i + 1;
        assert(out@ =~= full@.take(i as int));
    }
    out
}

/// Banner text for a wave number.
pub open spec fn spec_wave_toast(wave: u32) -> &'static str {
    if wave == 1 { "WAVE 1" }
    else if wave == 2 { "WAVE 2" }
    else if wave == 3 { "WAVE 3" }
    else if wave == 4 { "WAVE 4" }
    else if wave == 5 { "WAVE 5" }
    else if wave == 6 { "WAVE 6" }
    else if wave == 7 { "WAVE 7" }
    else if wave == 8 { "WAVE 8" }
    else if wave == 9 { "WAVE 9" }
    else { "WAVE N" }
}

/// Banner for a wave number.
pub fn wave_toast(wave: u32) -> (r: &'static str)
    ensures
        r == spec_wave_toast(wave),
        wave == 1 ==> r == "WAVE 1",
        wave == 2 ==> r == "WAVE 2",
        wave == 3 ==> r == "WAVE 3",
        wave == 4 ==> r == "WAVE 4",
        wave == 5 ==> r == "WAVE 5",
        wave == 6 ==> r == "WAVE 6",
        wave == 7 ==> r == "WAVE 7",
        wave == 8 ==> r == "WAVE 8",
        wave == 9 ==> r == "WAVE 9",
        (wave == 0 || wave > 9) ==> r == "WAVE N",
{
    match wave {
        1 => "WAVE 1",
        2 => "WAVE 2",
        3 => "WAVE 3",
        4 => "WAVE 4",
        5 => "WAVE 5",
        6 => "WAVE 6",
        7 => "WAVE 7",
        8 => "WAVE 8",
        9 => "WAVE 9",
        _ => "WAVE N",
    }
}

/// Rupees paid for clearing a wave: `3 + wave`, plus two per style rank.
pub fn clear_bonus(style_rank: u8, wave: u32) -> (r: u32)
    requires
        3 + wave + style_rank * 2 <= u32::MAX,
    ensures
        r == 3 + wave + style_rank * 2,
{
    3 + wave + style_rank as u32 * 2
}

/// What the director did this tick.
#[derive(Clone, Copy, Debug, PartialEq, Eq, Structural)]
pub enum WaveEvent {
    Nothing,
    /// Wave `n` spawned (its banner and the wave cue play).
    Spawned(u32),
    /// The wave was cleared; the bonus was paid.
    Cleared(u32),
}

impl WaveDirector {
    /// One director tick with `alive` enemies up. During the lull it counts
    /// down and starts the next wave when it ends; once a spawned wave is
    /// wiped out it pays the clear bonus into `rupees` and starts a lull.
    pub fn update(&mut self, alive: usize, style_rank: u8, rupees: &mut u32) -> (ev: WaveEvent)
        requires
            old(self).active && old(self).lull == 1 && !old(self).spawned_this_wave ==> old(self).wave < u32::MAX,
            old(self).active && old(self).lull == 0 && alive == 0 && old(self).spawned_this_wave
                ==> 3 + old(self).wave + style_rank * 2 <= u32::MAX,
        ensures
            !old(self).active ==> ev == WaveEvent::Nothing && *final(self) == *old(self)
                && *final(rupees) == *old(rupees),
            old(self).active && old(self).lull > 0 ==> {
                let starts = old(self).lull == 1 && !old(self).spawned_this_wave;
                &&& final(self).lull == old(self).lull - 1
                &&& final(self).active
                &&& starts ==> final(self).wave == old(self).wave + 1 && final(self).spawned_this_wave
                    && ev == WaveEvent::Spawned(final(self).wave)
                &&& !starts ==> final(self).wave == old(self).wave && final(self).spawned_this_wave
                    == old(self).spawned_this_wave && ev == WaveEvent::Nothing
                &&& *final(rupees) == *old(rupees)
            },
            old(self).active && old(self).lull == 0 ==> {
                let clears = alive == 0 && old(self).spawned_this_wave;
                let bonus = 3 + old(self).wave + style_rank * 2;
                &&& clears ==> final(self).lull == WAVE_LULL && !final(self).spawned_this_wave
                    && final(self).wave == old(self).wave && final(self).active
                    && ev == WaveEvent::Cleared(bonus as u32)
                    && *final(rupees) == if *old(rupees) + bonus <= u32::MAX {
                        (*old(rupees) + bonus) as u32
                    } else {
                        u32::MAX
                    }
                &&& !clears ==> *final(self) == *old(self) && ev == WaveEvent::Nothing
                    && *final(rupees) == *old(rupees)
            },
    {
        if !self.active {
            return WaveEvent::Nothing;
        }
        if self.lull > 0 {
            self.lull = self.lull - 1;
            if self.lull == 0 && !self.spawned_this_wave {
                self.wave = self.wave + 1;
                self.spawned_this_wave = true;
                return WaveEvent::Spawned(self.wave);
            }
            return WaveEvent::Nothing;
        }
        if alive == 0 && self.spawned_this_wave {
            let bonus = clear_bonus(style_rank, self.wave);
            *rupees = rupees.saturating_add(bonus);
            self.lull = WAVE_LULL;
            self.spawned_this_wave = false;
            return WaveEvent::Cleared(bonus);
        }
        WaveEvent::Nothing
    }
}

/// Banner of a director event: the wave's number when it spawns,
/// "CLEAR!" when it is cleared.
pub fn wave_banner(ev: WaveEvent) -> (r: Option<&'static str>)
    ensures
        ev is Nothing ==> r is None,
        ev matches WaveEvent::Spawned(n) ==> r == Some(spec_wave_toast(n)),
        ev is Cleared ==> r == Some("CLEAR!"),
{
    match ev {
        WaveEvent::Nothing => None,
        WaveEvent::Spawned(n) => Some(wave_toast(n)),
        WaveEvent::Cleared(_) => Some("CLEAR!"),
    }
}

/// Sound of a director event.
pub fn wave_sound(ev: WaveEvent) -> (r: Option<Sfx>)
    ensures
        r == if ev is Spawned { Some(Sfx::WaveCue) } else { None::<Sfx> },
{
    match ev {
        WaveEvent::Spawned(_) => Some(Sfx::WaveCue),
        _ => None,
    }
}

} // verus!
