//! Persistent story / puzzle flags, kept as a list of `u16` ids.

use vstd::prelude::*;

verus! {

/// The set of flags that a flag list holds.
pub open spec fn flag_set(flags: Seq<u16>) -> Set<u16> {
    flags.to_set()
}

/// Whether `flag` is present in `flags`.
pub fn has_flag(flags: &Vec<u16>, flag: u16) -> (r: bool)
    ensures
        r == flags@.contains(flag),
{
    let mut i: usize = 0;
    while i < flags.len()
        invariant
            i <= flags.len(),
            forall|j: int| 0 <= j < i ==> flags@[j] != flag,
        decreases flags.len() - i,
    {
        if flags[i] == flag {
            return true;
        }
        i = i + 1;
    }
    false
}

/// Sets `flag`; returns true when it was not set before (first discovery).
pub fn set_flag(flags: &mut Vec<u16>, flag: u16) -> (newly: bool)
    ensures
        newly == !old(flags)@.contains(flag),
        newly ==> final(flags)@ == old(flags)@.push(flag),
        !newly ==> final(flags)@ == old(flags)@,
        final(flags)@.contains(flag),
        forall|f: u16| old(flags)@.contains(f) ==> final(flags)@.contains(f),
        forall|f: u16| final(flags)@.contains(f) ==> f == flag || old(flags)@.contains(f),
        old(flags)@.no_duplicates() ==> final(flags)@.no_duplicates(),
{
    if has_flag(flags, flag) {
        false
    } else {
        flags.push(flag);
        proof {
            assert(flags@[flags@.len() - 1] == flag);
            assert forall|f: u16| old(flags)@.contains(f) implies flags@.contains(f) by {
                let i = choose|i: int| 0 <= i < old(flags)@.len() && old(flags)@[i] == f;
                assert(flags@[i] == f);
            }
            assert forall|f: u16| flags@.contains(f) implies f == flag || old(flags)@.contains(f) by {
                let i = choose|i: int| 0 <= i < flags@.len() && flags@[i] == f;
                if i < old(flags)@.len() {
                    assert(old(flags)@[i] == f);
                }
            }
        }
        true
    }
}

} // verus!
