//! Sound and toast cues that the simulation asks the front end to play.

use vstd::prelude::*;
use crate::style::StyleVerb;

verus! {

/// Sound effects named by the simulation rules.
#[derive(Clone, Copy, Debug, PartialEq, Eq, Structural)]
pub enum Sfx {
    RankUp,
    RankDown,
    Refused,
    Dash,
    ItemCycle,
    ChargeReady,
    SpinRelease,
    Finisher,
    Slash1,
    Slash2,
    ShieldBlock,
    PerfectBlock,
    HurtPlayer,
    HitEnemy,
    EnemyHurt,
    SpawnShimmer,
    SlimeSquish,
    SlimeLunge,
    BatSqueak,
    BatSwoop,
    OctorokSpit,
    OctorokDuck,
    SkeletonRattle,
    GuardClank,
    IronshellBash,
    IronshellCrack,
    RaiderPoke,
    TorchThrow,
    WispPhase,
    PebbleSkitter,
    WaveCue,
    WardenRoar,
    WardenSlam,
    WardenSweep,
    RockFan,
    PhaseBreak,
    CrystalPrime,
    GaleStagger,
    CrystalAmber,
    CrystalBlue,
    FakeFlash,
    PickupRupee,
    PickupHeart,
    PickupEnergy,
    FountainChime,
    RuneGood,
    RuneBad,
    SealBreak,
    ChimeRing,
    ChimeMiss,
    GateOpen,
    SealOpen,
    BlockSlide,
    PlateClick,
    BarricadeBreak,
    TorchLight,
    TorchSnuff,
    BombFuse,
    BombBoom,
    Kill,
    Beam,
    Slash,
    LedgeHop,
    ReflectZing,
    BoomerangThrow,
    BoomerangCatch,
    CheckpointChime,
    SecretChime,
    ChestOpen,
    GemGet,
    KeyGet,
    CrankTurn,
    DoorUnlock,
    RoomSlide,
    ShutterSlam,
    FlameBurst,
    WardenFall,
}

/// A cue emitted by a rule: a toast line, a sound, or a style action for
/// the style meter (`style::apply_verb`).
#[derive(Clone, Copy, Debug)]
pub enum Cue {
    Toast(&'static str),
    Sound(Sfx),
    Style(StyleVerb),
}

} // verus!
