use vstd::prelude::*;

verus! {

/// Hands out message ids 1, 2, 3, ... in order. The counter has one owner, who draws every
/// id from it; tasks that share it hold it behind a lock, so no id is handed out twice.
#[derive(Debug)]
pub struct SeqIdCounter {
    last: usize,
}

impl SeqIdCounter {
    /// The id handed out last; 0 before the first.
    pub closed spec fn last(&self) -> usize {
        self.last
    }

    pub fn new() -> (c: Self)
        ensures
            c.last() == 0,
    {
        SeqIdCounter { last: 0 }
    }

    /// The id handed out last.
    pub fn last_id(&self) -> (id: usize)
        ensures
            id == self.last(),
    {
        self.last
    }

    /// The next id: one more than the last one.
    pub fn next_id(&mut self) -> (id: usize)
        requires
            old(self).last() < usize::MAX,
        ensures
            id == old(self).last() + 1,
            final(self).last() == id,
    {
        self.last = self.last + 1;
        self.last
    }
}

impl Default for SeqIdCounter {
    fn default() -> (c: Self)
        ensures
            c.last() == 0,
    {
        Self::new()
    }
}

} // verus!
