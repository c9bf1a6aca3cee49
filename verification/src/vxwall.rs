//! Security firewall layer: the rule table.

use vstd::prelude::*;

verus! {

/// One firewall rule.
#[derive(Debug)]
pub struct Rule {
    /// Rule id.
    pub id: String,
    /// What to do with matching traffic.
    pub action: String,
    /// Protocol the rule applies to.
    pub protocol: String,
    /// Source address pattern.
    pub source: String,
    /// Destination address pattern.
    pub destination: String,
}

impl Clone for Rule {
    /// A clone keeps every field.
    fn clone(&self) -> (r: Self)
        ensures
            r == *self,
    {
        Rule {
            id: self.id.clone(),
            action: self.action.clone(),
            protocol: self.protocol.clone(),
            source: self.source.clone(),
            destination: self.destination.clone(),
        }
    }
}

/// Firewall state: the rules in force, keyed by rule id.
pub struct VXWall {
    /// The rules, in insertion order.
    pub rules: Vec<Rule>,
}

impl VXWall {
    /// Keys are unique.
    pub open spec fn wf(self) -> bool {
        forall|i: int, j: int|
            0 <= i < j < self.rules@.len() ==> (#[trigger] self.rules@[i]).id@ != (
            #[trigger] self.rules@[j]).id@
    }

    /// Whether an entry with this key exists.
    pub open spec fn spec_has(self, id: Seq<char>) -> bool {
        exists|i: int|
            0 <= i < self.rules@.len() && (#[trigger] self.rules@[i]).id@ == id
    }

    /// The index of the entry with this key.
    pub open spec fn spec_index(self, id: Seq<char>) -> int {
        choose|i: int|
            0 <= i < self.rules@.len() && (#[trigger] self.rules@[i]).id@ == id
    }

    /// With unique keys, an index that matches is the chosen one.
    proof fn lemma_index_is(self, id: Seq<char>, i: int)
        requires
            self.wf(),
            0 <= i < self.rules@.len(),
            self.rules@[i].id@ == id,
        ensures
            self.spec_has(id),
            self.spec_index(id) == i,
    {
        assert(self.spec_has(id));
        let j = self.spec_index(id);
        if j < i {
            assert(self.rules@[j].id@ != self.rules@[i].id@);
        } else if j > i {
            assert(self.rules@[i].id@ != self.rules@[j].id@);
        }
    }

    /// Build an empty store.
    pub fn new() -> (s: VXWall)
        ensures
            s.wf(),
            s.rules@.len() == 0,
    {
        VXWall { rules: Vec::new() }
    }

    /// Find the index of an entry by key.
    fn find_index(&self, id: &String) -> (r: Option<usize>)
        requires
            self.wf(),
        ensures
            match r {
                Some(i) => i < self.rules@.len() && self.rules@[i as int].id@ == id@
                    && self.spec_has(id@) && self.spec_index(id@) == i as int,
                None => !self.spec_has(id@),
            },
    {
        let mut i: usize = 0;
        while i < self.rules.len()
            invariant
                self.wf(),
                i <= self.rules@.len(),
                forall|k: int| 0 <= k < i as int ==> (#[trigger] self.rules@[k]).id@ != id@,
            decreases self.rules@.len() - i as int,
        {
            if self.rules[i].id.eq(id) {
                proof {
                    self.lemma_index_is(id@, i as int);
                }
                return Some(i);
            }
            i = i + 1;
        }
        None
    }

    /// Add a rule; a rule with the same id is replaced.
    pub fn add_rule(&mut self, id: String, action: String, protocol: String, source: String, destination: String)
        requires
            old(self).wf(),
        ensures
            final(self).wf(),
            final(self).spec_has(id@),
            final(self).rules@[final(self).spec_index(id@)] == (Rule { id, action, protocol, source, destination }),
            old(self).spec_has(id@) ==> final(self).rules@ == old(self).rules@.update(
                old(self).spec_index(id@),
                (Rule { id, action, protocol, source, destination }),
            ),
            !old(self).spec_has(id@) ==> final(self).rules@ == old(self).rules@.push(
                (Rule { id, action, protocol, source, destination }),
            ),
    {
        match self.find_index(&id) {
            Some(i) => {
                let ghost pre = *self;
                let entry = Rule { id, action, protocol, source, destination };
                self.rules.set(i, entry);
                proof {
                    let pres = pre.rules@;
                    assert(self.rules@[i as int].id@ == pres[i as int].id@);
                    assert forall|x: int, y: int|
                        0 <= x < y < self.rules@.len() implies (
                    #[trigger] self.rules@[x]).id@ != (
                    #[trigger] self.rules@[y]).id@ by {
                        if x != i as int {
                            assert(self.rules@[x] == pres[x]);
                        }
                        if y != i as int {
                            assert(self.rules@[y] == pres[y]);
                        }
                        assert(pres[x].id@ != pres[y].id@);
                    }
                    self.lemma_index_is(id@, i as int);
                }
            },
            None => {
                let entry = Rule { id, action, protocol, source, destination };
                self.rules.push(entry);
                proof {
                    let n = self.rules@.len() - 1;
                    assert(self.wf());
                    self.lemma_index_is(id@, n);
                }
            },
        }
    }

    /// Remove a rule; an unknown id is a no-op.
    pub fn remove_rule(&mut self, id: &String)
        requires
            old(self).wf(),
        ensures
            final(self).wf(),
            !final(self).spec_has(id@),
            old(self).spec_has(id@) ==> final(self).rules@ == old(self).rules@.remove(
                old(self).spec_index(id@),
            ),
            !old(self).spec_has(id@) ==> *final(self) == *old(self),
    {
        match self.find_index(id) {
            Some(i) => {
                let ghost pre = *self;
                self.rules.remove(i);
                proof {
                    let pres = pre.rules@;
                    pres.remove_ensures(i as int);
                    assert forall|x: int, y: int|
                        0 <= x < y < self.rules@.len() implies (
                    #[trigger] self.rules@[x]).id@ != (
                    #[trigger] self.rules@[y]).id@ by {
                        let x0: int = if x >= i as int { x + 1 } else { x };
                        let y0: int = if y >= i as int { y + 1 } else { y };
                        assert(self.rules@[x] == pres[x0]);
                        assert(self.rules@[y] == pres[y0]);
                        assert(pres[x0].id@ != pres[y0].id@);
                    }
                    assert forall|x: int|
                        0 <= x < self.rules@.len() implies (
                    #[trigger] self.rules@[x]).id@ != id@ by {
                        let x0: int = if x >= i as int { x + 1 } else { x };
                        assert(self.rules@[x] == pres[x0]);
                        if x0 < i as int {
                            assert(pres[x0].id@ != pres[i as int].id@);
                        } else {
                            assert(pres[i as int].id@ != pres[x0].id@);
                        }
                    }
                }
            },
            None => {},
        }
    }

    /// Look up a rule by id.
    pub fn get_rule(&self, id: &String) -> (r: Option<Rule>)
        requires
            self.wf(),
        ensures
            self.spec_has(id@) ==> r == Some(self.rules@[self.spec_index(id@)]),
            !self.spec_has(id@) ==> r == None::<Rule>,
    {
        match self.find_index(id) {
            Some(i) => Some(self.rules[i].clone()),
            None => None,
        }
    }

}

} // verus!
