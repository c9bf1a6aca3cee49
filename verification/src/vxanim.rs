//! Animation processing: the animation table.

use vstd::prelude::*;

verus! {

/// Copy a property list.
fn clone_props(props: &Vec<(String, String)>) -> (r: Vec<(String, String)>)
    ensures
        r@ == props@,
{
    let mut r: Vec<(String, String)> = Vec::new();
    let mut i: usize = 0;
    while i < props.len()
        invariant
            i <= props@.len(),
            r@ == props@.subrange(0, i as int),
        decreases props@.len() - i as int,
    {
        let pair = &props[i];
        r.push((pair.0.clone(), pair.1.clone()));
        proof {
            assert(r@ =~= props@.subrange(0, i as int + 1));
        }
        i = i + 1;
    }
    proof {
        assert(props@.subrange(0, props@.len() as int) =~= props@);
    }
    r
}

/// One animation.
#[derive(Debug)]
pub struct Animation {
    /// Animation id.
    pub id: String,
    /// Duration in milliseconds.
    pub duration: u32,
    /// Animated properties and their targets.
    pub properties: Vec<(String, String)>,
}

/// The two animations agree on every field, with the properties compared
/// by their entries.
pub open spec fn animation_like(a: Animation, b: Animation) -> bool {
    a.id == b.id && a.duration == b.duration && a.properties@ == b.properties@
}

impl Clone for Animation {
    /// A clone keeps every field; the properties are copied pair by pair.
    fn clone(&self) -> (r: Self)
        ensures
            animation_like(r, *self),
    {
        Animation {
            id: self.id.clone(),
            duration: self.duration,
            properties: clone_props(&self.properties),
        }
    }
}

/// Animation state, keyed by animation id.
pub struct VXAnim {
    /// The animations, in insertion order.
    pub animations: Vec<Animation>,
}

impl VXAnim {
    /// Keys are unique.
    pub open spec fn wf(self) -> bool {
        forall|i: int, j: int|
            0 <= i < j < self.animations@.len() ==> (#[trigger] self.animations@[i]).id@ != (
            #[trigger] self.animations@[j]).id@
    }

    /// Whether an entry with this key exists.
    pub open spec fn spec_has(self, id: Seq<char>) -> bool {
        exists|i: int|
            0 <= i < self.animations@.len() && (#[trigger] self.animations@[i]).id@ == id
    }

    /// The index of the entry with this key.
    pub open spec fn spec_index(self, id: Seq<char>) -> int {
        choose|i: int|
            0 <= i < self.animations@.len() && (#[trigger] self.animations@[i]).id@ == id
    }

    /// With unique keys, an index that matches is the chosen one.
    proof fn lemma_index_is(self, id: Seq<char>, i: int)
        requires
            self.wf(),
            0 <= i < self.animations@.len(),
            self.animations@[i].id@ == id,
        ensures
            self.spec_has(id),
            self.spec_index(id) == i,
    {
        assert(self.spec_has(id));
        let j = self.spec_index(id);
        if j < i {
            assert(self.animations@[j].id@ != self.animations@[i].id@);
        } else if j > i {
            assert(self.animations@[i].id@ != self.animations@[j].id@);
        }
    }

    /// Build an empty store.
    pub fn new() -> (s: VXAnim)
        ensures
            s.wf(),
            s.animations@.len() == 0,
    {
        VXAnim { animations: Vec::new() }
    }

    /// Find the index of an entry by key.
    fn find_index(&self, id: &String) -> (r: Option<usize>)
        requires
            self.wf(),
        ensures
            match r {
                Some(i) => i < self.animations@.len() && self.animations@[i as int].id@ == id@
                    && self.spec_has(id@) && self.spec_index(id@) == i as int,
                None => !self.spec_has(id@),
            },
    {
        let mut i: usize = 0;
        while i < self.animations.len()
            invariant
                self.wf(),
                i <= self.animations@.len(),
                forall|k: int| 0 <= k < i as int ==> (#[trigger] self.animations@[k]).id@ != id@,
            decreases self.animations@.len() - i as int,
        {
            if self.animations[i].id.eq(id) {
                proof {
                    self.lemma_index_is(id@, i as int);
                }
                return Some(i);
            }
            i = i + 1;
        }
        None
    }

    /// Create an animation; one with the same id is replaced.
    pub fn create_animation(&mut self, id: String, duration: u32, properties: Vec<(String, String)>)
        requires
            old(self).wf(),
        ensures
            final(self).wf(),
            final(self).spec_has(id@),
            final(self).animations@[final(self).spec_index(id@)] == (Animation { id, duration, properties }),
            old(self).spec_has(id@) ==> final(self).animations@ == old(self).animations@.update(
                old(self).spec_index(id@),
                (Animation { id, duration, properties }),
            ),
            !old(self).spec_has(id@) ==> final(self).animations@ == old(self).animations@.push(
                (Animation { id, duration, properties }),
            ),
    {
        match self.find_index(&id) {
            Some(i) => {
                let ghost pre = *self;
                let entry = Animation { id, duration, properties };
                self.animations.set(i, entry);
                proof {
                    let pres = pre.animations@;
                    assert(self.animations@[i as int].id@ == pres[i as int].id@);
                    assert forall|x: int, y: int|
                        0 <= x < y < self.animations@.len() implies (
                    #[trigger] self.animations@[x]).id@ != (
                    #[trigger] self.animations@[y]).id@ by {
                        if x != i as int {
                            assert(self.animations@[x] == pres[x]);
                        }
                        if y != i as int {
                            assert(self.animations@[y] == pres[y]);
                        }
                        assert(pres[x].id@ != pres[y].id@);
                    }
                    self.lemma_index_is(id@, i as int);
                }
            },
            None => {
                let entry = Animation { id, duration, properties };
                self.animations.push(entry);
                proof {
                    let n = self.animations@.len() - 1;
                    assert(self.wf());
                    self.lemma_index_is(id@, n);
                }
            },
        }
    }

    /// Replace an animation's properties; an unknown id is a no-op.
    pub fn update_animation(&mut self, id: &String, properties: Vec<(String, String)>)
        requires
            old(self).wf(),
        ensures
            final(self).wf(),
            old(self).spec_has(id@) ==> final(self).animations@ == old(self).animations@.update(
                old(self).spec_index(id@),
                (Animation { properties, ..old(self).animations@[old(self).spec_index(id@)] }),
            ),
            !old(self).spec_has(id@) ==> *final(self) == *old(self),
    {
        match self.find_index(id) {
            Some(i) => {
                let ghost pre = *self;
                let current = self.animations[i].clone();
                let entry = Animation { properties, ..current };
                self.animations.set(i, entry);
                proof {
                    let pres = pre.animations@;
                    assert(self.animations@[i as int].id@ == pres[i as int].id@);
                    assert forall|x: int, y: int|
                        0 <= x < y < self.animations@.len() implies (
                    #[trigger] self.animations@[x]).id@ != (
                    #[trigger] self.animations@[y]).id@ by {
                        if x != i as int {
                            assert(self.animations@[x] == pres[x]);
                        }
                        if y != i as int {
                            assert(self.animations@[y] == pres[y]);
                        }
                        assert(pres[x].id@ != pres[y].id@);
                    }
                }
            },
            None => {},
        }
    }

    /// Look up an animation by id.
    pub fn get_animation(&self, id: &String) -> (r: Option<Animation>)
        requires
            self.wf(),
        ensures
            match r {
                Some(a) => self.spec_has(id@) && animation_like(
                    a,
                    self.animations@[self.spec_index(id@)],
                ),
                None => !self.spec_has(id@),
            },
    {
        match self.find_index(id) {
            Some(i) => Some(self.animations[i].clone()),
            None => None,
        }
    }

}

} // verus!
