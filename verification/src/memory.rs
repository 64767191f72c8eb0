//! Working-set flush of every process but the caller's own.
use vstd::prelude::*;
use crate::effect::{push_deep, Effect, EffectView};
use crate::process::ProcessEntry;

verus! {

/// One trim request for every row of the snapshot that is not the caller's
/// own process, in snapshot order.
pub open spec fn flush_effects(snapshot: Seq<ProcessEntry>, own_pid: u32) -> Seq<EffectView>
    decreases snapshot.len(),
{
    if snapshot.len() == 0 {
        Seq::empty()
    } else {
        let rest = flush_effects(snapshot.drop_last(), own_pid);
        if snapshot.last().pid != own_pid {
            rest.push(EffectView::TrimWorkingSet { pid: snapshot.last().pid })
        } else {
            rest
        }
    }
}

pub struct MemoryService;

impl MemoryService {
    /// Asks for the working set of every other process to be released.
    pub fn flush_memory(snapshot: &Vec<ProcessEntry>, own_pid: u32) -> (effects: Vec<Effect>)
        ensures
            effects.deep_view() == flush_effects(snapshot@, own_pid),
    {
        let mut effects: Vec<Effect> = Vec::new();
        let mut i: usize = 0;
        assert(effects.deep_view() =~= Seq::<EffectView>::empty());
        assert(snapshot@.subrange(0, 0) =~= Seq::<ProcessEntry>::empty());
        while i < snapshot.len()
            invariant
                i <= snapshot@.len(),
                effects.deep_view() == flush_effects(snapshot@.subrange(0, i as int), own_pid),
            decreases snapshot@.len() - i,
        {
            proof {
                let upto = snapshot@.subrange(0, i as int + 1);
                assert(upto.drop_last() =~= snapshot@.subrange(0, i as int));
                assert(upto.last() == snapshot@[i as int]);
            }
            if snapshot[i].pid != own_pid {
                push_deep(&mut effects, Effect::TrimWorkingSet { pid: snapshot[i].pid });
            }
            i += 1;
        }
        assert(snapshot@.subrange(0, snapshot@.len() as int) =~= snapshot@);
        effects
    }
}

} // verus!
