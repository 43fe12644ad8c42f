use vstd::prelude::*;

verus! {

/// The pids whose process image has exec'd into code outside the traced
/// binary.  The set is created empty at the start of a run, grows only
/// on an observed exec event, and never shrinks within a run.
pub struct IgnoredSet {
    pids: Vec<i32>,
}

impl View for IgnoredSet {
    type V = Seq<i32>;

    closed spec fn view(&self) -> Seq<i32> {
        self.pids@
    }
}

impl IgnoredSet {
    /// Creates the empty set.
    pub fn new() -> (s: Self)
        ensures
            s@ == Seq::<i32>::empty(),
    {
        IgnoredSet { pids: Vec::new() }
    }

    /// Returns whether `pid` has been recorded as exec'd away.
    pub fn contains(&self, pid: i32) -> (r: bool)
        ensures
            r == self@.contains(pid),
    {
        let n = self.pids.len();
        let mut i: usize = 0;
        while i < n
            invariant
                0 <= i <= n,
                n == self@.len(),
                forall|k: int| 0 <= k < i ==> self@[k] != pid,
            decreases n - i,
        {
            if self.pids[i] == pid {
                return true;
            }
            i += 1;
        }
        false
    }

    /// Records `pid` as exec'd away.
    pub fn insert(&mut self, pid: i32)
        ensures
            final(self)@ == old(self)@.push(pid),
            forall|q: i32| final(self)@.contains(q) <==> (old(self)@.contains(q) || q == pid),
    {
        self.pids.push(pid);
        proof {
            assert forall|q: i32| self@.contains(q) implies (old(self)@.contains(q) || q == pid) by {
                let k = choose|k: int| 0 <= k < self@.len() && self@[k] == q;
                if k < old(self)@.len() {
                    assert(old(self)@[k] == q);
                }
            }
            assert forall|q: i32| (old(self)@.contains(q) || q == pid) implies self@.contains(q) by {
                if old(self)@.contains(q) {
                    let k = choose|k: int| 0 <= k < old(self)@.len() && old(self)@[k] == q;
                    assert(self@[k] == q);
                } else {
                    assert(self@[old(self)@.len() as int] == pid);
                }
            }
        }
    }

    /// The number of recorded pids.
    pub fn len(&self) -> (n: usize)
        ensures
            n == self@.len(),
    {
        self.pids.len()
    }
}

} // verus!
