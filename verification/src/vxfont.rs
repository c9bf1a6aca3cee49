//! Font system: loaded fonts for scalable rendering.

use vstd::prelude::*;

verus! {

/// Copy a byte vector.
fn clone_bytes(data: &Vec<u8>) -> (r: Vec<u8>)
    ensures
        r@ == data@,
{
    let mut r: Vec<u8> = Vec::new();
    let mut i: usize = 0;
    while i < data.len()
        invariant
            i <= data@.len(),
            r@ == data@.subrange(0, i as int),
        decreases data@.len() - i as int,
    {
        r.push(data[i]);
        proof {
            assert(r@ =~= data@.subrange(0, i as int + 1));
        }
        i = i + 1;
    }
    proof {
        assert(data@.subrange(0, data@.len() as int) =~= data@);
    }
    r
}

/// One loaded font.
#[derive(Debug)]
pub struct Font {
    /// Font name.
    pub name: String,
    /// Nominal size.
    pub size: u32,
    /// The font data.
    pub data: Vec<u8>,
}

/// The two fonts agree on every field, with the data compared by its
/// bytes.
pub open spec fn font_like(a: Font, b: Font) -> bool {
    a.name == b.name && a.size == b.size && a.data@ == b.data@
}

impl Clone for Font {
    /// A clone keeps every field; the data is copied byte for byte.
    fn clone(&self) -> (r: Self)
        ensures
            font_like(r, *self),
    {
        Font {
            name: self.name.clone(),
            size: self.size,
            data: clone_bytes(&self.data),
        }
    }
}

/// Font registry, keyed by font name.
pub struct VXFont {
    /// The fonts, in insertion order.
    pub fonts: Vec<Font>,
}

impl VXFont {
    /// Keys are unique.
    pub open spec fn wf(self) -> bool {
        forall|i: int, j: int|
            0 <= i < j < self.fonts@.len() ==> (#[trigger] self.fonts@[i]).name@ != (
            #[trigger] self.fonts@[j]).name@
    }

    /// Whether an entry with this key exists.
    pub open spec fn spec_has(self, name: Seq<char>) -> bool {
        exists|i: int|
            0 <= i < self.fonts@.len() && (#[trigger] self.fonts@[i]).name@ == name
    }

    /// The index of the entry with this key.
    pub open spec fn spec_index(self, name: Seq<char>) -> int {
        choose|i: int|
            0 <= i < self.fonts@.len() && (#[trigger] self.fonts@[i]).name@ == name
    }

    /// With unique keys, an index that matches is the chosen one.
    proof fn lemma_index_is(self, name: Seq<char>, i: int)
        requires
            self.wf(),
            0 <= i < self.fonts@.len(),
            self.fonts@[i].name@ == name,
        ensures
            self.spec_has(name),
            self.spec_index(name) == i,
    {
        assert(self.spec_has(name));
        let j = self.spec_index(name);
        if j < i {
            assert(self.fonts@[j].name@ != self.fonts@[i].name@);
        } else if j > i {
            assert(self.fonts@[i].name@ != self.fonts@[j].name@);
        }
    }

    /// Build an empty store.
    pub fn new() -> (s: VXFont)
        ensures
            s.wf(),
            s.fonts@.len() == 0,
    {
        VXFont { fonts: Vec::new() }
    }

    /// Find the index of an entry by key.
    fn find_index(&self, name: &String) -> (r: Option<usize>)
        requires
            self.wf(),
        ensures
            match r {
                Some(i) => i < self.fonts@.len() && self.fonts@[i as int].name@ == name@
                    && self.spec_has(name@) && self.spec_index(name@) == i as int,
                None => !self.spec_has(name@),
            },
    {
        let mut i: usize = 0;
        while i < self.fonts.len()
            invariant
                self.wf(),
                i <= self.fonts@.len(),
                forall|k: int| 0 <= k < i as int ==> (#[trigger] self.fonts@[k]).name@ != name@,
            decreases self.fonts@.len() - i as int,
        {
            if self.fonts[i].name.eq(name) {
                proof {
                    self.lemma_index_is(name@, i as int);
                }
                return Some(i);
            }
            i = i + 1;
        }
        None
    }

    /// Load a font; a font with the same name is replaced.
    pub fn load_font(&mut self, name: String, size: u32, data: Vec<u8>)
        requires
            old(self).wf(),
        ensures
            final(self).wf(),
            final(self).spec_has(name@),
            final(self).fonts@[final(self).spec_index(name@)] == (Font { name, size, data }),
            old(self).spec_has(name@) ==> final(self).fonts@ == old(self).fonts@.update(
                old(self).spec_index(name@),
                (Font { name, size, data }),
            ),
            !old(self).spec_has(name@) ==> final(self).fonts@ == old(self).fonts@.push(
                (Font { name, size, data }),
            ),
    {
        match self.find_index(&name) {
            Some(i) => {
                let ghost pre = *self;
                let entry = Font { name, size, data };
                self.fonts.set(i, entry);
                proof {
                    let pres = pre.fonts@;
                    assert(self.fonts@[i as int].name@ == pres[i as int].name@);
                    assert forall|x: int, y: int|
                        0 <= x < y < self.fonts@.len() implies (
                    #[trigger] self.fonts@[x]).name@ != (
                    #[trigger] self.fonts@[y]).name@ by {
                        if x != i as int {
                            assert(self.fonts@[x] == pres[x]);
                        }
                        if y != i as int {
                            assert(self.fonts@[y] == pres[y]);
                        }
                        assert(pres[x].name@ != pres[y].name@);
                    }
                    self.lemma_index_is(name@, i as int);
                }
            },
            None => {
                let entry = Font { name, size, data };
                self.fonts.push(entry);
                proof {
                    let n = self.fonts@.len() - 1;
                    assert(self.wf());
                    self.lemma_index_is(name@, n);
                }
            },
        }
    }

    /// Look up a font by name.
    pub fn get_font(&self, name: &String) -> (r: Option<Font>)
        requires
            self.wf(),
        ensures
            match r {
                Some(f) => self.spec_has(name@) && font_like(
                    f,
                    self.fonts@[self.spec_index(name@)],
                ),
                None => !self.spec_has(name@),
            },
    {
        match self.find_index(name) {
            Some(i) => Some(self.fonts[i].clone()),
            None => None,
        }
    }

}

} // verus!
