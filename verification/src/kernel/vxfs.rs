//! Filesystem integrity journal: SHA-256 checksums per path.
//!
//! Reading and writing the files themselves happens outside the library;
//! the journal records the checksum of each file's contents as they pass
//! through, and verifies contents against it later.

use vstd::prelude::*;

use crate::vxp_security::{calculate_checksum, spec_checksum};

verus! {

/// One journal record: a path and the checksum its contents had.
#[derive(Debug)]
pub struct JournalEntry {
    /// The file's path.
    pub path: String,
    /// Lowercase hex SHA-256 of the contents.
    pub checksum: String,
}

/// The filesystem integrity journal, keyed by path.
pub struct VXFS {
    /// The journal records, in first-write order.
    pub journal: Vec<JournalEntry>,
}

impl VXFS {
    /// Paths are unique.
    pub open spec fn wf(self) -> bool {
        forall|i: int, j: int|
            0 <= i < j < self.journal@.len() ==> (#[trigger] self.journal@[i]).path@ != (
            #[trigger] self.journal@[j]).path@
    }

    /// Whether a path has a journal record.
    pub open spec fn spec_has(self, path: Seq<char>) -> bool {
        exists|i: int| 0 <= i < self.journal@.len() && (#[trigger] self.journal@[i]).path@ == path
    }

    /// The index of a path's record.
    pub open spec fn spec_index(self, path: Seq<char>) -> int {
        choose|i: int| 0 <= i < self.journal@.len() && (#[trigger] self.journal@[i]).path@ == path
    }

    /// With unique paths, an index that matches is the chosen one.
    proof fn lemma_index_is(self, path: Seq<char>, i: int)
        requires
            self.wf(),
            0 <= i < self.journal@.len(),
            self.journal@[i].path@ == path,
        ensures
            self.spec_has(path),
            self.spec_index(path) == i,
    {
        assert(self.spec_has(path));
        let j = self.spec_index(path);
        if j < i {
            assert(self.journal@[j].path@ != self.journal@[i].path@);
        } else if j > i {
            assert(self.journal@[i].path@ != self.journal@[j].path@);
        }
    }

    /// Build an empty journal.
    pub fn new() -> (s: VXFS)
        ensures
            s.wf(),
            s.journal@.len() == 0,
    {
        VXFS { journal: Vec::new() }
    }

    /// Find the index of a path's record.
    fn find_index(&self, path: &String) -> (r: Option<usize>)
        requires
            self.wf(),
        ensures
            match r {
                Some(i) => i < self.journal@.len() && self.journal@[i as int].path@ == path@
                    && self.spec_has(path@) && self.spec_index(path@) == i as int,
                None => !self.spec_has(path@),
            },
    {
        let mut i: usize = 0;
        while i < self.journal.len()
            invariant
                self.wf(),
                i <= self.journal@.len(),
                forall|k: int| 0 <= k < i as int ==> (#[trigger] self.journal@[k]).path@ != path@,
            decreases self.journal@.len() - i as int,
        {
            if self.journal[i].path.eq(path) {
                proof {
                    self.lemma_index_is(path@, i as int);
                }
                return Some(i);
            }
            i = i + 1;
        }
        None
    }

    /// Journal a file's contents: record the checksum the contents have
    /// now, replacing any previous record for the path.
    pub fn record_file(&mut self, path: String, contents: &Vec<u8>)
        requires
            old(self).wf(),
        ensures
            final(self).wf(),
            final(self).spec_has(path@),
            final(self).journal@[final(self).spec_index(path@)].path@ == path@,
            final(self).journal@[final(self).spec_index(path@)].checksum@ == spec_checksum(
                contents@,
            ),
            old(self).spec_has(path@) ==> final(self).journal@.len() == old(self).journal@.len()
                && final(self).spec_index(path@) == old(self).spec_index(path@) && forall|k: int|
                0 <= k < final(self).journal@.len() && k != old(self).spec_index(path@) ==> final(self).journal@[k] == old(self).journal@[k],
            !old(self).spec_has(path@) ==> final(self).journal@.len() == old(self).journal@.len()
                + 1 && forall|k: int|
                0 <= k < old(self).journal@.len() ==> final(self).journal@[k] == old(self).journal@[k],
    {
        let checksum = calculate_checksum(contents);
        match self.find_index(&path) {
            Some(i) => {
                let ghost pre = *self;
                let entry = JournalEntry { path, checksum };
                self.journal.set(i, entry);
                proof {
                    let pres = pre.journal@;
                    assert(self.journal@[i as int].path@ == pres[i as int].path@);
                    assert forall|x: int, y: int|
                        0 <= x < y < self.journal@.len() implies (
                    #[trigger] self.journal@[x]).path@ != (#[trigger] self.journal@[y]).path@ by {
                        if x != i as int {
                            assert(self.journal@[x] == pres[x]);
                        }
                        if y != i as int {
                            assert(self.journal@[y] == pres[y]);
                        }
                        assert(pres[x].path@ != pres[y].path@);
                    }
                    self.lemma_index_is(pres[i as int].path@, i as int);
                }
            },
            None => {
                let entry = JournalEntry { path, checksum };
                self.journal.push(entry);
                proof {
                    let n = self.journal@.len() - 1;
                    assert(self.wf());
                    self.lemma_index_is(self.journal@[n].path@, n);
                }
            },
        }
    }

    /// Whether the contents match the checksum journaled for the path.
    /// A path with no record does not verify.
    pub fn verify_contents(&self, path: &String, contents: &Vec<u8>) -> (r: bool)
        requires
            self.wf(),
        ensures
            r == (self.spec_has(path@) && self.journal@[self.spec_index(path@)].checksum@
                == spec_checksum(contents@)),
    {
        match self.find_index(path) {
            Some(i) => {
                let actual = calculate_checksum(contents);
                self.journal[i].checksum.eq(&actual)
            },
            None => false,
        }
    }
}

} // verus!
