//! Compositor and window manager: the window table.

use vstd::prelude::*;

verus! {

/// One composited window.
#[derive(Debug)]
pub struct Window {
    /// Window id.
    pub id: u32,
    /// Window title.
    pub title: String,
    /// Width and height in pixels.
    pub size: (u32, u32),
    /// On-screen position.
    pub position: (i32, i32),
}

impl Clone for Window {
    /// A clone keeps every field.
    fn clone(&self) -> (r: Self)
        ensures
            r == *self,
    {
        Window {
            id: self.id,
            title: self.title.clone(),
            size: self.size,
            position: self.position,
        }
    }
}

/// Compositor state: the windows it manages, keyed by window id.
pub struct VegaGX {
    /// The windows, in insertion order.
    pub windows: Vec<Window>,
}

impl VegaGX {
    /// Keys are unique.
    pub open spec fn wf(self) -> bool {
        forall|i: int, j: int|
            0 <= i < j < self.windows@.len() ==> (#[trigger] self.windows@[i]).id != (
            #[trigger] self.windows@[j]).id
    }

    /// Whether an entry with this key exists.
    pub open spec fn spec_has(self, id: u32) -> bool {
        exists|i: int|
            0 <= i < self.windows@.len() && (#[trigger] self.windows@[i]).id == id
    }

    /// The index of the entry with this key.
    pub open spec fn spec_index(self, id: u32) -> int {
        choose|i: int|
            0 <= i < self.windows@.len() && (#[trigger] self.windows@[i]).id == id
    }

    /// With unique keys, an index that matches is the chosen one.
    proof fn lemma_index_is(self, id: u32, i: int)
        requires
            self.wf(),
            0 <= i < self.windows@.len(),
            self.windows@[i].id == id,
        ensures
            self.spec_has(id),
            self.spec_index(id) == i,
    {
        assert(self.spec_has(id));
        let j = self.spec_index(id);
        if j < i {
            assert(self.windows@[j].id != self.windows@[i].id);
        } else if j > i {
            assert(self.windows@[i].id != self.windows@[j].id);
        }
    }

    /// Build an empty store.
    pub fn new() -> (s: VegaGX)
        ensures
            s.wf(),
            s.windows@.len() == 0,
    {
        VegaGX { windows: Vec::new() }
    }

    /// Find the index of an entry by key.
    fn find_index(&self, id: &u32) -> (r: Option<usize>)
        requires
            self.wf(),
        ensures
            match r {
                Some(i) => i < self.windows@.len() && self.windows@[i as int].id == *id
                    && self.spec_has(*id) && self.spec_index(*id) == i as int,
                None => !self.spec_has(*id),
            },
    {
        let mut i: usize = 0;
        while i < self.windows.len()
            invariant
                self.wf(),
                i <= self.windows@.len(),
                forall|k: int| 0 <= k < i as int ==> (#[trigger] self.windows@[k]).id != *id,
            decreases self.windows@.len() - i as int,
        {
            if self.windows[i].id == *id {
                proof {
                    self.lemma_index_is(*id, i as int);
                }
                return Some(i);
            }
            i = i + 1;
        }
        None
    }

    /// Create a window; a window with the same id is replaced.
    pub fn create_window(&mut self, id: u32, title: String, size: (u32, u32), position: (i32, i32))
        requires
            old(self).wf(),
        ensures
            final(self).wf(),
            final(self).spec_has(id),
            final(self).windows@[final(self).spec_index(id)] == (Window { id, title, size, position }),
            old(self).spec_has(id) ==> final(self).windows@ == old(self).windows@.update(
                old(self).spec_index(id),
                (Window { id, title, size, position }),
            ),
            !old(self).spec_has(id) ==> final(self).windows@ == old(self).windows@.push(
                (Window { id, title, size, position }),
            ),
    {
        match self.find_index(&id) {
            Some(i) => {
                let ghost pre = *self;
                let entry = Window { id, title, size, position };
                self.windows.set(i, entry);
                proof {
                    let pres = pre.windows@;
                    assert(self.windows@[i as int].id == pres[i as int].id);
                    assert forall|x: int, y: int|
                        0 <= x < y < self.windows@.len() implies (
                    #[trigger] self.windows@[x]).id != (
                    #[trigger] self.windows@[y]).id by {
                        if x != i as int {
                            assert(self.windows@[x] == pres[x]);
                        }
                        if y != i as int {
                            assert(self.windows@[y] == pres[y]);
                        }
                        assert(pres[x].id != pres[y].id);
                    }
                    self.lemma_index_is(id, i as int);
                }
            },
            None => {
                let entry = Window { id, title, size, position };
                self.windows.push(entry);
                proof {
                    let n = self.windows@.len() - 1;
                    assert(self.wf());
                    self.lemma_index_is(id, n);
                }
            },
        }
    }

    /// Destroy a window; an unknown id is a no-op.
    pub fn destroy_window(&mut self, id: u32)
        requires
            old(self).wf(),
        ensures
            final(self).wf(),
            !final(self).spec_has(id),
            old(self).spec_has(id) ==> final(self).windows@ == old(self).windows@.remove(
                old(self).spec_index(id),
            ),
            !old(self).spec_has(id) ==> *final(self) == *old(self),
    {
        match self.find_index(&id) {
            Some(i) => {
                let ghost pre = *self;
                self.windows.remove(i);
                proof {
                    let pres = pre.windows@;
                    pres.remove_ensures(i as int);
                    assert forall|x: int, y: int|
                        0 <= x < y < self.windows@.len() implies (
                    #[trigger] self.windows@[x]).id != (
                    #[trigger] self.windows@[y]).id by {
                        let x0: int = if x >= i as int { x + 1 } else { x };
                        let y0: int = if y >= i as int { y + 1 } else { y };
                        assert(self.windows@[x] == pres[x0]);
                        assert(self.windows@[y] == pres[y0]);
                        assert(pres[x0].id != pres[y0].id);
                    }
                    assert forall|x: int|
                        0 <= x < self.windows@.len() implies (
                    #[trigger] self.windows@[x]).id != id by {
                        let x0: int = if x >= i as int { x + 1 } else { x };
                        assert(self.windows@[x] == pres[x0]);
                        if x0 < i as int {
                            assert(pres[x0].id != pres[i as int].id);
                        } else {
                            assert(pres[i as int].id != pres[x0].id);
                        }
                    }
                }
            },
            None => {},
        }
    }

    /// Look up a window by id.
    pub fn get_window(&self, id: u32) -> (r: Option<Window>)
        requires
            self.wf(),
        ensures
            self.spec_has(id) ==> r == Some(self.windows@[self.spec_index(id)]),
            !self.spec_has(id) ==> r == None::<Window>,
    {
        match self.find_index(&id) {
            Some(i) => Some(self.windows[i].clone()),
            None => None,
        }
    }

}

} // verus!
