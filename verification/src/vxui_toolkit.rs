//! UI toolkit: the widget table.

use vstd::prelude::*;

verus! {

/// Copy a property list.
fn clone_props(props: &Vec<(String, String)>) -> (r: Vec<(String, String)>)
    ensures
        r@ == props@,
{
    let mut r: Vec<(String, String)> = Vec::new();
    let mut i: usize = 0;
    while i < props.len()
        invariant
            i <= props@.len(),
            r@ == props@.subrange(0, i as int),
        decreases props@.len() - i as int,
    {
        let pair = &props[i];
        r.push((pair.0.clone(), pair.1.clone()));
        proof {
            assert(r@ =~= props@.subrange(0, i as int + 1));
        }
        i = i + 1;
    }
    proof {
        assert(props@.subrange(0, props@.len() as int) =~= props@);
    }
    r
}

/// One widget.
#[derive(Debug)]
pub struct Widget {
    /// Widget id.
    pub id: String,
    /// What kind of widget this is.
    pub kind: String,
    /// Widget properties.
    pub properties: Vec<(String, String)>,
}

/// The two widgets agree on every field, with the properties compared by
/// their entries.
pub open spec fn widget_like(a: Widget, b: Widget) -> bool {
    a.id == b.id && a.kind == b.kind && a.properties@ == b.properties@
}

impl Clone for Widget {
    /// A clone keeps every field; the properties are copied pair by pair.
    fn clone(&self) -> (r: Self)
        ensures
            widget_like(r, *self),
    {
        Widget {
            id: self.id.clone(),
            kind: self.kind.clone(),
            properties: clone_props(&self.properties),
        }
    }
}

/// Toolkit state: the widgets it manages, keyed by widget id.
pub struct VXUIToolkit {
    /// The widgets, in insertion order.
    pub widgets: Vec<Widget>,
}

impl VXUIToolkit {
    /// Keys are unique.
    pub open spec fn wf(self) -> bool {
        forall|i: int, j: int|
            0 <= i < j < self.widgets@.len() ==> (#[trigger] self.widgets@[i]).id@ != (
            #[trigger] self.widgets@[j]).id@
    }

    /// Whether an entry with this key exists.
    pub open spec fn spec_has(self, id: Seq<char>) -> bool {
        exists|i: int|
            0 <= i < self.widgets@.len() && (#[trigger] self.widgets@[i]).id@ == id
    }

    /// The index of the entry with this key.
    pub open spec fn spec_index(self, id: Seq<char>) -> int {
        choose|i: int|
            0 <= i < self.widgets@.len() && (#[trigger] self.widgets@[i]).id@ == id
    }

    /// With unique keys, an index that matches is the chosen one.
    proof fn lemma_index_is(self, id: Seq<char>, i: int)
        requires
            self.wf(),
            0 <= i < self.widgets@.len(),
            self.widgets@[i].id@ == id,
        ensures
            self.spec_has(id),
            self.spec_index(id) == i,
    {
        assert(self.spec_has(id));
        let j = self.spec_index(id);
        if j < i {
            assert(self.widgets@[j].id@ != self.widgets@[i].id@);
        } else if j > i {
            assert(self.widgets@[i].id@ != self.widgets@[j].id@);
        }
    }

    /// Build an empty store.
    pub fn new() -> (s: VXUIToolkit)
        ensures
            s.wf(),
            s.widgets@.len() == 0,
    {
        VXUIToolkit { widgets: Vec::new() }
    }

    /// Find the index of an entry by key.
    fn find_index(&self, id: &String) -> (r: Option<usize>)
        requires
            self.wf(),
        ensures
            match r {
                Some(i) => i < self.widgets@.len() && self.widgets@[i as int].id@ == id@
                    && self.spec_has(id@) && self.spec_index(id@) == i as int,
                None => !self.spec_has(id@),
            },
    {
        let mut i: usize = 0;
        while i < self.widgets.len()
            invariant
                self.wf(),
                i <= self.widgets@.len(),
                forall|k: int| 0 <= k < i as int ==> (#[trigger] self.widgets@[k]).id@ != id@,
            decreases self.widgets@.len() - i as int,
        {
            if self.widgets[i].id.eq(id) {
                proof {
                    self.lemma_index_is(id@, i as int);
                }
                return Some(i);
            }
            i = i + 1;
        }
        None
    }

    /// Create a widget; one with the same id is replaced.
    pub fn create_widget(&mut self, id: String, kind: String, properties: Vec<(String, String)>)
        requires
            old(self).wf(),
        ensures
            final(self).wf(),
            final(self).spec_has(id@),
            final(self).widgets@[final(self).spec_index(id@)] == (Widget { id, kind, properties }),
            old(self).spec_has(id@) ==> final(self).widgets@ == old(self).widgets@.update(
                old(self).spec_index(id@),
                (Widget { id, kind, properties }),
            ),
            !old(self).spec_has(id@) ==> final(self).widgets@ == old(self).widgets@.push(
                (Widget { id, kind, properties }),
            ),
    {
        match self.find_index(&id) {
            Some(i) => {
                let ghost pre = *self;
                let entry = Widget { id, kind, properties };
                self.widgets.set(i, entry);
                proof {
                    let pres = pre.widgets@;
                    assert(self.widgets@[i as int].id@ == pres[i as int].id@);
                    assert forall|x: int, y: int|
                        0 <= x < y < self.widgets@.len() implies (
                    #[trigger] self.widgets@[x]).id@ != (
                    #[trigger] self.widgets@[y]).id@ by {
                        if x != i as int {
                            assert(self.widgets@[x] == pres[x]);
                        }
                        if y != i as int {
                            assert(self.widgets@[y] == pres[y]);
                        }
                        assert(pres[x].id@ != pres[y].id@);
                    }
                    self.lemma_index_is(id@, i as int);
                }
            },
            None => {
                let entry = Widget { id, kind, properties };
                self.widgets.push(entry);
                proof {
                    let n = self.widgets@.len() - 1;
                    assert(self.wf());
                    self.lemma_index_is(id@, n);
                }
            },
        }
    }

    /// Replace a widget's properties; an unknown id is a no-op.
    pub fn update_widget(&mut self, id: &String, properties: Vec<(String, String)>)
        requires
            old(self).wf(),
        ensures
            final(self).wf(),
            old(self).spec_has(id@) ==> final(self).widgets@ == old(self).widgets@.update(
                old(self).spec_index(id@),
                (Widget { properties, ..old(self).widgets@[old(self).spec_index(id@)] }),
            ),
            !old(self).spec_has(id@) ==> *final(self) == *old(self),
    {
        match self.find_index(id) {
            Some(i) => {
                let ghost pre = *self;
                let current = self.widgets[i].clone();
                let entry = Widget { properties, ..current };
                self.widgets.set(i, entry);
                proof {
                    let pres = pre.widgets@;
                    assert(self.widgets@[i as int].id@ == pres[i as int].id@);
                    assert forall|x: int, y: int|
                        0 <= x < y < self.widgets@.len() implies (
                    #[trigger] self.widgets@[x]).id@ != (
                    #[trigger] self.widgets@[y]).id@ by {
                        if x != i as int {
                            assert(self.widgets@[x] == pres[x]);
                        }
                        if y != i as int {
                            assert(self.widgets@[y] == pres[y]);
                        }
                        assert(pres[x].id@ != pres[y].id@);
                    }
                }
            },
            None => {},
        }
    }

    /// Look up a widget by id.
    pub fn get_widget(&self, id: &String) -> (r: Option<Widget>)
        requires
            self.wf(),
        ensures
            match r {
                Some(w) => self.spec_has(id@) && widget_like(
                    w,
                    self.widgets@[self.spec_index(id@)],
                ),
                None => !self.spec_has(id@),
            },
    {
        match self.find_index(id) {
            Some(i) => Some(self.widgets[i].clone()),
            None => None,
        }
    }

}

} // verus!
