//! The word store: a fixed-length array of words logically split into
//! contiguous, non-overlapping regions, each with a fixed read/write
//! capability. Every access is gated by the region table; the boundaries are
//! fixed at construction and never change at runtime.

use vstd::prelude::*;

verus! {

/// One contiguous range of the word store, with fixed read/write capability.
#[derive(Clone, Copy)]
pub struct Region {
    pub base: i32,
    pub len: i32,
    pub readable: bool,
    pub writable: bool,
}

/// Whether `addr` lies inside region `r`.
pub open spec fn region_contains(r: Region, addr: int) -> bool {
    r.base <= addr && addr < r.base + r.len
}

/// The region descriptors lie within a store of `size` words and are pairwise
/// disjoint, so every address has at most one owning region.
pub open spec fn regions_wf(regions: Seq<Region>, size: int) -> bool {
    &&& forall|i: int|
        0 <= i < regions.len() ==> {
            &&& (#[trigger] regions[i]).base >= 0
            &&& regions[i].len >= 0
            &&& regions[i].base + regions[i].len <= size
        }
    &&& forall|i: int, j: int|
        0 <= i < regions.len() && 0 <= j < regions.len() && i != j ==> {
            (#[trigger] regions[i]).base + regions[i].len <= (#[trigger] regions[j]).base
                || regions[j].base + regions[j].len <= regions[i].base
        }
}

/// `addr` lies in a readable region of the table.
pub open spec fn seq_readable(regions: Seq<Region>, addr: int) -> bool {
    exists|i: int|
        0 <= i < regions.len() && region_contains(#[trigger] regions[i], addr)
            && regions[i].readable
}

/// `addr` lies in a writable region of the table.
pub open spec fn seq_writable(regions: Seq<Region>, addr: int) -> bool {
    exists|i: int|
        0 <= i < regions.len() && region_contains(#[trigger] regions[i], addr)
            && regions[i].writable
}

/// A fixed-size addressable array of words, partitioned into permission-gated
/// regions.
pub struct WordStore {
    pub words: Vec<i32>,
    pub regions: Vec<Region>,
}

impl WordStore {
    pub open spec fn wf(self) -> bool {
        regions_wf(self.regions@, self.words@.len() as int)
    }

    /// `addr` lies in a readable region.
    pub open spec fn readable(self, addr: int) -> bool {
        seq_readable(self.regions@, addr)
    }

    /// `addr` lies in a writable region.
    pub open spec fn writable(self, addr: int) -> bool {
        seq_writable(self.regions@, addr)
    }

    /// Region-checked read: returns the word exactly when `addr` lies in a
    /// readable region, and fails both on an address outside every region and
    /// on one whose owning region is not readable.
    pub fn read(&self, addr: i32) -> (r: Option<i32>)
        requires
            self.wf(),
        ensures
            self.readable(addr as int) ==> r == Some(self.words@[addr as int]),
            !self.readable(addr as int) ==> r == None::<i32>,
    {
        let n = self.regions.len();
        let mut i: usize = 0;
        while i < n
            invariant
                self.wf(),
                n == self.regions@.len(),
                i <= n,
                forall|j: int| 0 <= j < i ==> !region_contains(#[trigger] self.regions@[j], addr as int),
            decreases n - i,
        {
            let rg = self.regions[i];
            if rg.base <= addr && addr - rg.base < rg.len {
                proof {
                    assert forall|k: int|
                        0 <= k < self.regions@.len()
                            && region_contains(#[trigger] self.regions@[k], addr as int)
                        implies k == i as int by {
                        assert(region_contains(self.regions@[i as int], addr as int));
                    }
                }
                if rg.readable {
                    return Some(self.words[addr as usize]);
                } else {
                    return None;
                }
            }
            i = i + 1;
        }
        None
    }

    /// Region-checked write: stores the word and reports true exactly when
    /// `addr` lies in a writable region; otherwise changes nothing and
    /// reports false.
    pub fn write(&mut self, addr: i32, v: i32) -> (ok: bool)
        requires
            old(self).wf(),
        ensures
            final(self).wf(),
            final(self).regions@ == old(self).regions@,
            ok <==> old(self).writable(addr as int),
            ok ==> final(self).words@ == old(self).words@.update(addr as int, v),
            !ok ==> final(self).words@ == old(self).words@,
    {
        let n = self.regions.len();
        let mut i: usize = 0;
        while i < n
            invariant
                self.wf(),
                *self == *old(self),
                n == self.regions@.len(),
                i <= n,
                forall|j: int| 0 <= j < i ==> !region_contains(#[trigger] self.regions@[j], addr as int),
            decreases n - i,
        {
            let rg = self.regions[i];
            if rg.base <= addr && addr - rg.base < rg.len {
                proof {
                    assert forall|k: int|
                        0 <= k < self.regions@.len()
                            && region_contains(#[trigger] self.regions@[k], addr as int)
                        implies k == i as int by {
                        assert(region_contains(self.regions@[i as int], addr as int));
                    }
                }
                if rg.writable {
                    self.words.set(addr as usize, v);
                    return true;
                } else {
                    return false;
                }
            }
            i = i + 1;
        }
        false
    }
}

} // verus!
