//! Notification system: the pending notification table.

use vstd::prelude::*;

verus! {

/// One notification.
#[derive(Debug)]
pub struct Notification {
    /// Notification id.
    pub id: String,
    /// The message shown to the user.
    pub message: String,
    /// When the notification was raised.
    pub timestamp: u64,
}

impl Clone for Notification {
    /// A clone keeps every field.
    fn clone(&self) -> (r: Self)
        ensures
            r == *self,
    {
        Notification {
            id: self.id.clone(),
            message: self.message.clone(),
            timestamp: self.timestamp,
        }
    }
}

/// Notification state: the pending notifications, keyed by id.
pub struct VXNotification {
    /// The notifications, in insertion order.
    pub notifications: Vec<Notification>,
}

impl VXNotification {
    /// Keys are unique.
    pub open spec fn wf(self) -> bool {
        forall|i: int, j: int|
            0 <= i < j < self.notifications@.len() ==> (#[trigger] self.notifications@[i]).id@ != (
            #[trigger] self.notifications@[j]).id@
    }

    /// Whether an entry with this key exists.
    pub open spec fn spec_has(self, id: Seq<char>) -> bool {
        exists|i: int|
            0 <= i < self.notifications@.len() && (#[trigger] self.notifications@[i]).id@ == id
    }

    /// The index of the entry with this key.
    pub open spec fn spec_index(self, id: Seq<char>) -> int {
        choose|i: int|
            0 <= i < self.notifications@.len() && (#[trigger] self.notifications@[i]).id@ == id
    }

    /// With unique keys, an index that matches is the chosen one.
    proof fn lemma_index_is(self, id: Seq<char>, i: int)
        requires
            self.wf(),
            0 <= i < self.notifications@.len(),
            self.notifications@[i].id@ == id,
        ensures
            self.spec_has(id),
            self.spec_index(id) == i,
    {
        assert(self.spec_has(id));
        let j = self.spec_index(id);
        if j < i {
            assert(self.notifications@[j].id@ != self.notifications@[i].id@);
        } else if j > i {
            assert(self.notifications@[i].id@ != self.notifications@[j].id@);
        }
    }

    /// Build an empty store.
    pub fn new() -> (s: VXNotification)
        ensures
            s.wf(),
            s.notifications@.len() == 0,
    {
        VXNotification { notifications: Vec::new() }
    }

    /// Find the index of an entry by key.
    fn find_index(&self, id: &String) -> (r: Option<usize>)
        requires
            self.wf(),
        ensures
            match r {
                Some(i) => i < self.notifications@.len() && self.notifications@[i as int].id@ == id@
                    && self.spec_has(id@) && self.spec_index(id@) == i as int,
                None => !self.spec_has(id@),
            },
    {
        let mut i: usize = 0;
        while i < self.notifications.len()
            invariant
                self.wf(),
                i <= self.notifications@.len(),
                forall|k: int| 0 <= k < i as int ==> (#[trigger] self.notifications@[k]).id@ != id@,
            decreases self.notifications@.len() - i as int,
        {
            if self.notifications[i].id.eq(id) {
                proof {
                    self.lemma_index_is(id@, i as int);
                }
                return Some(i);
            }
            i = i + 1;
        }
        None
    }

    /// Raise a notification; one with the same id is replaced.
    pub fn create_notification(&mut self, id: String, message: String, timestamp: u64)
        requires
            old(self).wf(),
        ensures
            final(self).wf(),
            final(self).spec_has(id@),
            final(self).notifications@[final(self).spec_index(id@)] == (Notification { id, message, timestamp }),
            old(self).spec_has(id@) ==> final(self).notifications@ == old(self).notifications@.update(
                old(self).spec_index(id@),
                (Notification { id, message, timestamp }),
            ),
            !old(self).spec_has(id@) ==> final(self).notifications@ == old(self).notifications@.push(
                (Notification { id, message, timestamp }),
            ),
    {
        match self.find_index(&id) {
            Some(i) => {
                let ghost pre = *self;
                let entry = Notification { id, message, timestamp };
                self.notifications.set(i, entry);
                proof {
                    let pres = pre.notifications@;
                    assert(self.notifications@[i as int].id@ == pres[i as int].id@);
                    assert forall|x: int, y: int|
                        0 <= x < y < self.notifications@.len() implies (
                    #[trigger] self.notifications@[x]).id@ != (
                    #[trigger] self.notifications@[y]).id@ by {
                        if x != i as int {
                            assert(self.notifications@[x] == pres[x]);
                        }
                        if y != i as int {
                            assert(self.notifications@[y] == pres[y]);
                        }
                        assert(pres[x].id@ != pres[y].id@);
                    }
                    self.lemma_index_is(id@, i as int);
                }
            },
            None => {
                let entry = Notification { id, message, timestamp };
                self.notifications.push(entry);
                proof {
                    let n = self.notifications@.len() - 1;
                    assert(self.wf());
                    self.lemma_index_is(id@, n);
                }
            },
        }
    }

    /// Dismiss a notification; an unknown id is a no-op.
    pub fn remove_notification(&mut self, id: &String)
        requires
            old(self).wf(),
        ensures
            final(self).wf(),
            !final(self).spec_has(id@),
            old(self).spec_has(id@) ==> final(self).notifications@ == old(self).notifications@.remove(
                old(self).spec_index(id@),
            ),
            !old(self).spec_has(id@) ==> *final(self) == *old(self),
    {
        match self.find_index(id) {
            Some(i) => {
                let ghost pre = *self;
                self.notifications.remove(i);
                proof {
                    let pres = pre.notifications@;
                    pres.remove_ensures(i as int);
                    assert forall|x: int, y: int|
                        0 <= x < y < self.notifications@.len() implies (
                    #[trigger] self.notifications@[x]).id@ != (
                    #[trigger] self.notifications@[y]).id@ by {
                        let x0: int = if x >= i as int { x + 1 } else { x };
                        let y0: int = if y >= i as int { y + 1 } else { y };
                        assert(self.notifications@[x] == pres[x0]);
                        assert(self.notifications@[y] == pres[y0]);
                        assert(pres[x0].id@ != pres[y0].id@);
                    }
                    assert forall|x: int|
                        0 <= x < self.notifications@.len() implies (
                    #[trigger] self.notifications@[x]).id@ != id@ by {
                        let x0: int = if x >= i as int { x + 1 } else { x };
                        assert(self.notifications@[x] == pres[x0]);
                        if x0 < i as int {
                            assert(pres[x0].id@ != pres[i as int].id@);
                        } else {
                            assert(pres[i as int].id@ != pres[x0].id@);
                        }
                    }
                }
            },
            None => {},
        }
    }

    /// Look up a notification by id.
    pub fn get_notification(&self, id: &String) -> (r: Option<Notification>)
        requires
            self.wf(),
        ensures
            self.spec_has(id@) ==> r == Some(self.notifications@[self.spec_index(id@)]),
            !self.spec_has(id@) ==> r == None::<Notification>,
    {
        match self.find_index(id) {
            Some(i) => Some(self.notifications[i].clone()),
            None => None,
        }
    }

}

} // verus!
