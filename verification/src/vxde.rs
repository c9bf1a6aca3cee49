//! Desktop environment foundation: the session table.

use vstd::prelude::*;

use vstd::string::StringExecFns;

verus! {

/// One desktop session.
#[derive(Debug)]
pub struct Session {
    /// Session id.
    pub id: String,
    /// The user the session belongs to.
    pub user: String,
    /// Session status, active or terminated.
    pub status: String,
}

impl Clone for Session {
    /// A clone keeps every field.
    fn clone(&self) -> (r: Self)
        ensures
            r == *self,
    {
        Session { id: self.id.clone(), user: self.user.clone(), status: self.status.clone() }
    }
}

/// Desktop state: the sessions it hosts, keyed by session id.
pub struct VXDE {
    /// The sessions, in insertion order.
    pub sessions: Vec<Session>,
}

impl VXDE {
    /// Keys are unique.
    pub open spec fn wf(self) -> bool {
        forall|i: int, j: int|
            0 <= i < j < self.sessions@.len() ==> (#[trigger] self.sessions@[i]).id@ != (
            #[trigger] self.sessions@[j]).id@
    }

    /// Whether a session with this id exists.
    pub open spec fn spec_has(self, id: Seq<char>) -> bool {
        exists|i: int| 0 <= i < self.sessions@.len() && (#[trigger] self.sessions@[i]).id@ == id
    }

    /// The index of the session with this id.
    pub open spec fn spec_index(self, id: Seq<char>) -> int {
        choose|i: int| 0 <= i < self.sessions@.len() && (#[trigger] self.sessions@[i]).id@ == id
    }

    /// With unique keys, an index that matches is the chosen one.
    proof fn lemma_index_is(self, id: Seq<char>, i: int)
        requires
            self.wf(),
            0 <= i < self.sessions@.len(),
            self.sessions@[i].id@ == id,
        ensures
            self.spec_has(id),
            self.spec_index(id) == i,
    {
        assert(self.spec_has(id));
        let j = self.spec_index(id);
        if j < i {
            assert(self.sessions@[j].id@ != self.sessions@[i].id@);
        } else if j > i {
            assert(self.sessions@[i].id@ != self.sessions@[j].id@);
        }
    }

    /// Build an empty store.
    pub fn new() -> (s: VXDE)
        ensures
            s.wf(),
            s.sessions@.len() == 0,
    {
        VXDE { sessions: Vec::new() }
    }

    /// Find the index of a session by id.
    fn find_index(&self, id: &String) -> (r: Option<usize>)
        requires
            self.wf(),
        ensures
            match r {
                Some(i) => i < self.sessions@.len() && self.sessions@[i as int].id@ == id@
                    && self.spec_has(id@) && self.spec_index(id@) == i as int,
                None => !self.spec_has(id@),
            },
    {
        let mut i: usize = 0;
        while i < self.sessions.len()
            invariant
                self.wf(),
                i <= self.sessions@.len(),
                forall|k: int| 0 <= k < i as int ==> (#[trigger] self.sessions@[k]).id@ != id@,
            decreases self.sessions@.len() - i as int,
        {
            if self.sessions[i].id.eq(id) {
                proof {
                    self.lemma_index_is(id@, i as int);
                }
                return Some(i);
            }
            i = i + 1;
        }
        None
    }

    /// Create a session in the active status; a session with the same id
    /// is replaced.
    pub fn create_session(&mut self, id: String, user: String)
        requires
            old(self).wf(),
        ensures
            final(self).wf(),
            final(self).spec_has(id@),
            final(self).sessions@[final(self).spec_index(id@)].id@ == id@,
            final(self).sessions@[final(self).spec_index(id@)].user@ == user@,
            final(self).sessions@[final(self).spec_index(id@)].status@ == "active"@,
            old(self).spec_has(id@) ==> {
                &&& final(self).sessions@.len() == old(self).sessions@.len()
                &&& final(self).spec_index(id@) == old(self).spec_index(id@)
                &&& forall|k: int|
                    0 <= k < final(self).sessions@.len() && k != old(self).spec_index(id@)
                        ==> final(self).sessions@[k] == old(self).sessions@[k]
            },
            !old(self).spec_has(id@) ==> {
                &&& final(self).sessions@.len() == old(self).sessions@.len() + 1
                &&& final(self).spec_index(id@) == old(self).sessions@.len()
                &&& forall|k: int|
                    0 <= k < old(self).sessions@.len() ==> final(self).sessions@[k] == old(self).sessions@[k]
            },
    {
        match self.find_index(&id) {
            Some(i) => {
                let ghost pre = *self;
                let entry = Session { id, user, status: String::from_str("active") };
                self.sessions.set(i, entry);
                proof {
                    let pres = pre.sessions@;
                    assert(self.sessions@[i as int].id@ == pres[i as int].id@);
                    assert forall|x: int, y: int|
                        0 <= x < y < self.sessions@.len() implies (
                    #[trigger] self.sessions@[x]).id@ != (#[trigger] self.sessions@[y]).id@ by {
                        if x != i as int {
                            assert(self.sessions@[x] == pres[x]);
                        }
                        if y != i as int {
                            assert(self.sessions@[y] == pres[y]);
                        }
                        assert(pres[x].id@ != pres[y].id@);
                    }
                    self.lemma_index_is(pres[i as int].id@, i as int);
                }
            },
            None => {
                let entry = Session { id, user, status: String::from_str("active") };
                self.sessions.push(entry);
                proof {
                    let n = self.sessions@.len() - 1;
                    assert(self.wf());
                    self.lemma_index_is(self.sessions@[n].id@, n);
                }
            },
        }
    }

    /// Mark a session terminated; an unknown id is a no-op.
    pub fn terminate_session(&mut self, id: &String)
        requires
            old(self).wf(),
        ensures
            final(self).wf(),
            old(self).spec_has(id@) ==> {
                &&& final(self).sessions@.len() == old(self).sessions@.len()
                &&& final(self).spec_has(id@)
                &&& final(self).spec_index(id@) == old(self).spec_index(id@)
                &&& final(self).sessions@[final(self).spec_index(id@)].id@ == old(self).sessions@[old(self).spec_index(id@)].id@
                &&& final(self).sessions@[final(self).spec_index(id@)].user@ == old(self).sessions@[old(self).spec_index(id@)].user@
                &&& final(self).sessions@[final(self).spec_index(id@)].status@ == "terminated"@
                &&& forall|k: int|
                    0 <= k < final(self).sessions@.len() && k != old(self).spec_index(id@)
                        ==> final(self).sessions@[k] == old(self).sessions@[k]
            },
            !old(self).spec_has(id@) ==> *final(self) == *old(self),
    {
        match self.find_index(id) {
            Some(i) => {
                let ghost pre = *self;
                let current = self.sessions[i].clone();
                let entry = Session { status: String::from_str("terminated"), ..current };
                self.sessions.set(i, entry);
                proof {
                    let pres = pre.sessions@;
                    assert(self.sessions@[i as int].id@ == pres[i as int].id@);
                    assert forall|x: int, y: int|
                        0 <= x < y < self.sessions@.len() implies (
                    #[trigger] self.sessions@[x]).id@ != (#[trigger] self.sessions@[y]).id@ by {
                        if x != i as int {
                            assert(self.sessions@[x] == pres[x]);
                        }
                        if y != i as int {
                            assert(self.sessions@[y] == pres[y]);
                        }
                        assert(pres[x].id@ != pres[y].id@);
                    }
                    self.lemma_index_is(pres[i as int].id@, i as int);
                }
            },
            None => {},
        }
    }

    /// Look up a session by id.
    pub fn get_session(&self, id: &String) -> (r: Option<Session>)
        requires
            self.wf(),
        ensures
            self.spec_has(id@) ==> r == Some(self.sessions@[self.spec_index(id@)]),
            !self.spec_has(id@) ==> r == None::<Session>,
    {
        match self.find_index(id) {
            Some(i) => Some(self.sessions[i].clone()),
            None => None,
        }
    }
}

} // verus!
