//! Player energy meter (tenths of a point).

use vstd::prelude::*;
use crate::player::PlayerData;
use crate::style::{energy_regen_mult, spec_min};
use crate::tuning::{ENERGY_MAX, ENERGY_REGEN_DELAY, ENERGY_REGEN_PER_TICK};

verus! {

fn add_capped(energy: u32, amount: u32) -> (r: u32)
    ensures
        r == spec_min(energy + amount, ENERGY_MAX as int),
{
    let sum = energy as u64 + amount as u64;
    if sum <= ENERGY_MAX as u64 { sum as u32 } else { ENERGY_MAX }
}

/// Give back energy (perfect block), capped at `ENERGY_MAX`.
pub fn refund(pd: &mut PlayerData, amount: u32)
    ensures
        *final(pd) == (PlayerData {
            energy: spec_min(old(pd).energy + amount, ENERGY_MAX as int) as u32,
            ..*old(pd)
        }),
{
    pd.energy = add_capped(pd.energy, amount);
}

/// Add energy (orbs, fountains), capped at `ENERGY_MAX`.
pub fn fill(pd: &mut PlayerData, amount: u32)
    ensures
        *final(pd) == (PlayerData {
            energy: spec_min(old(pd).energy + amount, ENERGY_MAX as int) as u32,
            ..*old(pd)
        }),
{
    pd.energy = add_capped(pd.energy, amount);
}

/// Regeneration per tick, tenths: 0.2 x the rank multiplier.
pub open spec fn spec_regen_rate(rank: u8) -> int {
    if rank >= 2 { 3 } else { 2 }
}

/// Per-tick energy update: the deny flash fades, and after
/// `ENERGY_REGEN_DELAY` ticks without spending the meter refills.
pub fn tick(pd: &mut PlayerData)
    ensures
        ({
            let since = if old(pd).ticks_since_spend < u16::MAX {
                (old(pd).ticks_since_spend + 1) as u16
            } else {
                old(pd).ticks_since_spend
            };
            let regen = since >= ENERGY_REGEN_DELAY && old(pd).energy < ENERGY_MAX;
            *final(pd) == (PlayerData {
                energy_deny_flash: if old(pd).energy_deny_flash > 0 {
                    (old(pd).energy_deny_flash - 1) as u8
                } else {
                    0
                },
                ticks_since_spend: since,
                energy: if regen {
                    spec_min(old(pd).energy + spec_regen_rate(old(pd).style_rank), ENERGY_MAX as int) as u32
                } else {
                    old(pd).energy
                },
                ..*old(pd)
            })
        }),
        old(pd).energy <= ENERGY_MAX ==> final(pd).energy <= ENERGY_MAX,
{
    if pd.energy_deny_flash > 0 {
        pd.energy_deny_flash = pd.energy_deny_flash - 1;
    }
    pd.ticks_since_spend = pd.ticks_since_spend.saturating_add(1);
    if pd.ticks_since_spend >= ENERGY_REGEN_DELAY && pd.energy < ENERGY_MAX {
        let rate = ENERGY_REGEN_PER_TICK * energy_regen_mult(pd) / 10;
        pd.energy = add_capped(pd.energy, rate);
    }
}

} // verus!
