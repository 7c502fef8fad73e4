//! Toast queue: at most `MAX_STACK` short lines, each shown for `LIFE` ticks.

use vstd::prelude::*;

verus! {

pub const MAX_STACK: usize = 2;
pub const LIFE: u16 = 90;

#[derive(Clone, Copy, Debug)]
pub struct Toast {
    pub text: &'static str,
    pub ticks: u16,
}

pub struct Toasts {
    pub queue: Vec<Toast>,
}

/// The queue after one tick: every toast loses a tick, the expired leave,
/// the order of the rest is kept.
pub open spec fn spec_aged(q: Seq<Toast>) -> Seq<Toast>
    decreases q.len(),
{
    if q.len() == 0 {
        seq![]
    } else {
        let rest = spec_aged(q.drop_last());
        let t = q.last();
        if t.ticks > 1 {
            rest.push(Toast { text: t.text, ticks: (t.ticks - 1) as u16 })
        } else {
            rest
        }
    }
}

/// The queue after pushing `text`: the oldest leaves when the stack is full.
pub open spec fn spec_pushed(q: Seq<Toast>, text: &'static str) -> Seq<Toast> {
    let kept = if q.len() >= MAX_STACK { q.drop_first() } else { q };
    kept.push(Toast { text, ticks: LIFE })
}

/// Aging never lengthens the queue.
pub proof fn lemma_aged_len(q: Seq<Toast>)
    ensures
        spec_aged(q).len() <= q.len(),
    decreases q.len(),
{
    if q.len() > 0 {
        lemma_aged_len(q.drop_last());
    }
}

impl Toasts {
    pub fn new() -> (r: Self)
        ensures
            r.queue@.len() == 0,
    {
        Toasts { queue: Vec::new() }
    }

    /// Count every toast down by a tick and drop the expired ones.
    pub fn update(&mut self)
        ensures
            final(self).queue@ == spec_aged(old(self).queue@),
            final(self).queue@.len() <= old(self).queue@.len(),
    {
        let mut out: Vec<Toast> = Vec::new();
        let mut i: usize = 0;
        while i < self.queue.len()
            invariant
                i <= self.queue.len(),
                self.queue@ == old(self).queue@,
                out@ == spec_aged(self.queue@.subrange(0, i as int)),
            decreases self.queue.len() - i,
        {
            let t = self.queue[i];
            proof {
                assert(self.queue@.subrange(0, i + 1).drop_last() =~= self.queue@.subrange(0, i as int));
            }
            if t.ticks > 1 {
                out.push(Toast { text: t.text, ticks: t.ticks - 1 });
            }
            i = i + 1;
        }
        proof {
            assert(self.queue@.subrange(0, self.queue@.len() as int) =~= self.queue@);
            lemma_aged_len(self.queue@);
        }
        self.queue = out;
    }
}

impl Default for Toasts {
    /// An empty queue, as `new` gives.
    fn default() -> (r: Self)
        ensures
            r.queue@.len() == 0,
    {
        Toasts::new()
    }
}

/// Show `text`: the oldest toast leaves when `MAX_STACK` are already shown.
pub fn push_toast(toasts: &mut Toasts, text: &'static str)
    ensures
        final(toasts).queue@ == spec_pushed(old(toasts).queue@, text),
        old(toasts).queue@.len() <= MAX_STACK ==> final(toasts).queue@.len() <= MAX_STACK,
{
    if toasts.queue.len() >= MAX_STACK {
        toasts.queue.remove(0);
    }
    toasts.queue.push(Toast { text, ticks: LIFE });
}

} // verus!
