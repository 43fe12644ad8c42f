use vstd::prelude::*;

verus! {

/// The address index of the caller's breakpoint table: the set of
/// instruction addresses at which a trap instruction has been inserted,
/// keys unique.  The per-address re-arm machinery lives with the caller;
/// the run loop only asks whether a resolved address is a known
/// breakpoint.
pub struct BreakpointTable {
    addrs: Vec<u64>,
}

impl View for BreakpointTable {
    type V = Seq<u64>;

    closed spec fn view(&self) -> Seq<u64> {
        self.addrs@
    }
}

impl BreakpointTable {
    /// Keys are unique: no address occurs twice.
    pub open spec fn wf(self) -> bool {
        forall|i: int, j: int| 0 <= i < j < self@.len() ==> self@[i] != self@[j]
    }

    /// Creates the empty table.
    pub fn new() -> (t: Self)
        ensures
            t@ == Seq::<u64>::empty(),
            t.wf(),
    {
        BreakpointTable { addrs: Vec::new() }
    }

    /// Returns whether `addr` is a known breakpoint address.
    pub fn contains(&self, addr: u64) -> (r: bool)
        ensures
            r == self@.contains(addr),
    {
        let n = self.addrs.len();
        let mut i: usize = 0;
        while i < n
            invariant
                0 <= i <= n,
                n == self@.len(),
                forall|k: int| 0 <= k < i ==> self@[k] != addr,
            decreases n - i,
        {
            if self.addrs[i] == addr {
                return true;
            }
            i += 1;
        }
        false
    }

    /// Records `addr` as a breakpoint address; a key already present is
    /// kept once.
    pub fn insert(&mut self, addr: u64)
        requires
            old(self).wf(),
        ensures
            final(self).wf(),
            final(self)@ == (if old(self)@.contains(addr) {
                old(self)@
            } else {
                old(self)@.push(addr)
            }),
            forall|q: u64| final(self)@.contains(q) <==> (old(self)@.contains(q) || q == addr),
    {
        if !self.contains(addr) {
            self.addrs.push(addr);
            proof {
                assert forall|q: u64| self@.contains(q) implies (old(self)@.contains(q) || q
                    == addr) by {
                    let k = choose|k: int| 0 <= k < self@.len() && self@[k] == q;
                    if k < old(self)@.len() {
                        assert(old(self)@[k] == q);
                    }
                }
                assert forall|q: u64| (old(self)@.contains(q) || q == addr) implies self@.contains(
                    q,
                ) by {
                    if old(self)@.contains(q) {
                        let k = choose|k: int| 0 <= k < old(self)@.len() && old(self)@[k] == q;
                        assert(self@[k] == q);
                    } else {
                        assert(self@[old(self)@.len() as int] == addr);
                    }
                }
                assert forall|i: int, j: int| 0 <= i < j < self@.len() implies self@[i] != self@[j] by {
                    if j < old(self)@.len() {
                    } else {
                        assert(self@[j] == addr);
                        assert(old(self)@[i] == self@[i]);
                        if self@[i] == addr {
                            assert(old(self)@.contains(addr));
                        }
                    }
                }
            }
        }
    }

    /// The number of breakpoint addresses.
    pub fn len(&self) -> (n: usize)
        ensures
            n == self@.len(),
    {
        self.addrs.len()
    }
}

} // verus!
