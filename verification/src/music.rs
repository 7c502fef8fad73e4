//! Which music track should play, and when to tell the front end.

use vstd::prelude::*;
use crate::boss::BossPhase;
use crate::map::MapId;

verus! {

/// Region index of Mosslight Village on the overworld.
pub const VILLAGE_REGION: u8 = 1;

/// The music tracks.
#[derive(Clone, Copy, Debug, PartialEq, Eq, Structural)]
pub enum Track {
    Title,
    Victory,
    Boss,
    Dungeon,
    Overworld,
    Village,
}

/// The title, then the credits, then the boss fight decide; otherwise the
/// map: the dungeon has its own track, the arena the overworld's, and the
/// overworld and interiors the village's while the last region was the
/// village.
pub open spec fn spec_desired_track(title: bool, credits: bool, boss: Option<BossPhase>, map: MapId, music_region: u8) -> Track {
    if title {
        Track::Title
    } else if credits {
        Track::Victory
    } else if boss is Some {
        match boss.unwrap() {
            BossPhase::Intro | BossPhase::Fight => Track::Boss,
            BossPhase::Victory => Track::Victory,
        }
    } else {
        match map {
            MapId::Dungeon => Track::Dungeon,
            MapId::Arena => Track::Overworld,
            _ => if music_region == VILLAGE_REGION { Track::Village } else { Track::Overworld },
        }
    }
}

/// Priorities of the score: the title screen wins over all; the credits
/// play the victory theme whatever the map; a fight in progress plays the
/// boss theme wherever it is; the map's music only plays with none of
/// these, and the boss theme never plays without a fight.
pub proof fn lemma_track_priority(title: bool, credits: bool, boss: Option<BossPhase>, map: MapId, r1: u8, map2: MapId, r2: u8)
    ensures
        title ==> spec_desired_track(title, credits, boss, map, r1) == Track::Title,
        !title && credits ==> spec_desired_track(title, credits, boss, map, r1) == Track::Victory,
        !title && !credits && (boss == Some(BossPhase::Fight) || boss == Some(BossPhase::Intro))
            ==> spec_desired_track(title, credits, boss, map, r1) == Track::Boss
                && spec_desired_track(title, credits, boss, map2, r2) == Track::Boss,
        spec_desired_track(title, credits, boss, map, r1) == Track::Boss ==> boss is Some,
        spec_desired_track(title, credits, boss, map, r1) == Track::Title ==> title,
{
}

pub fn desired_track(title: bool, credits: bool, boss: Option<BossPhase>, map: MapId, music_region: u8) -> (t: Track)
    ensures
        t == spec_desired_track(title, credits, boss, map, music_region),
{
    if title {
        return Track::Title;
    }
    if credits {
        return Track::Victory;
    }
    if let Some(phase) = boss {
        return match phase {
            BossPhase::Intro | BossPhase::Fight => Track::Boss,
            BossPhase::Victory => Track::Victory,
        };
    }
    match map {
        MapId::Dungeon => Track::Dungeon,
        MapId::Arena => Track::Overworld,
        MapId::Overworld | MapId::House(_) | MapId::Shop | MapId::Cave(_) | MapId::ShrineLobby => {
            if music_region == VILLAGE_REGION {
                Track::Village
            } else {
                Track::Overworld
            }
        },
    }
}

/// Asks for `want` only when it is not what plays already; returns the
/// track to announce.
pub fn sync(playing: &mut Option<Track>, want: Track) -> (announce: Option<Track>)
    ensures
        *final(playing) == Some(want),
        announce == if *old(playing) == Some(want) { None } else { Some(want) },
{
    let same = match *playing {
        Some(t) => t == want,
        None => false,
    };
    if same {
        return None;
    }
    *playing = Some(want);
    Some(want)
}

} // verus!
