use vstd::prelude::*;

verus! {

/// One trace-point record: the instruction address it instruments, if
/// one was resolved, and its accumulated hit counter.  The collection of
/// records is owned by the caller; the run loop only increments the
/// counters of records whose address matches a confirmed breakpoint hit.
#[derive(Clone, Copy, Debug)]
pub struct TraceData {
    pub address: Option<u64>,
    pub hits: u64,
}

impl TraceData {
    /// Creates a record with no hits yet.
    pub fn new(address: Option<u64>) -> (t: Self)
        ensures
            t.address == address,
            t.hits == 0,
    {
        TraceData { address, hits: 0 }
    }
}

/// Whether a record instruments the given address.
pub open spec fn at_address(t: TraceData, addr: u64) -> bool {
    t.address == Some(addr)
}

/// Increments the hit counter of every record whose address equals
/// `addr` by exactly one, and leaves every other record unchanged.  One
/// confirmed hit can fan out to several records that share one compiled
/// location.
pub fn record_hits(traces: &mut Vec<TraceData>, addr: u64)
    requires
        forall|k: int|
            0 <= k < old(traces)@.len() && at_address(#[trigger] old(traces)@[k], addr)
                ==> old(traces)@[k].hits < u64::MAX,
    ensures
        final(traces)@.len() == old(traces)@.len(),
        forall|k: int|
            0 <= k < old(traces)@.len() ==> #[trigger] final(traces)@[k] == (if at_address(
                old(traces)@[k],
                addr,
            ) {
                TraceData { address: old(traces)@[k].address, hits: (old(traces)@[k].hits + 1) as u64 }
            } else {
                old(traces)@[k]
            }),
{
    let n = traces.len();
    let mut i: usize = 0;
    while i < n
        invariant
            0 <= i <= n,
            n == traces@.len(),
            traces@.len() == old(traces)@.len(),
            forall|k: int|
                0 <= k < old(traces)@.len() && at_address(#[trigger] old(traces)@[k], addr)
                    ==> old(traces)@[k].hits < u64::MAX,
            forall|k: int|
                0 <= k < i ==> #[trigger] traces@[k] == (if at_address(old(traces)@[k], addr) {
                    TraceData {
                        address: old(traces)@[k].address,
                        hits: (old(traces)@[k].hits + 1) as u64,
                    }
                } else {
                    old(traces)@[k]
                }),
            forall|k: int| i <= k < n ==> #[trigger] traces@[k] == old(traces)@[k],
        decreases n - i,
    {
        let t = traces[i];
        let matches_here = match t.address {
            Some(a) => a == addr,
            None => false,
        };
        if matches_here {
            traces.set(i, TraceData { address: t.address, hits: t.hits + 1 });
        }
        i += 1;
    }
}

} // verus!
