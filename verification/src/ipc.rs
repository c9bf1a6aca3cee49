//! Named IPC byte channels: per-channel append buffers.

use vstd::prelude::*;

verus! {

/// One named byte channel.
pub struct Channel {
    /// Channel name.
    pub name: String,
    /// The accumulated bytes.
    pub data: Vec<u8>,
}

/// The byte channel store, keyed by channel name.
pub struct VXChan {
    /// The channels, in creation order.
    pub channels: Vec<Channel>,
}

/// Append the bytes of `src` to `dst`.
fn append_bytes(dst: &mut Vec<u8>, src: &Vec<u8>)
    ensures
        final(dst)@ == old(dst)@ + src@,
{
    let mut i: usize = 0;
    while i < src.len()
        invariant
            i <= src@.len(),
            dst@ == old(dst)@ + src@.subrange(0, i as int),
        decreases src@.len() - i as int,
    {
        dst.push(src[i]);
        proof {
            assert(dst@ =~= old(dst)@ + src@.subrange(0, i as int + 1));
        }
        i = i + 1;
    }
    proof {
        assert(old(dst)@ + src@.subrange(0, src@.len() as int) =~= old(dst)@ + src@);
    }
}

impl VXChan {
    /// Channel names are unique.
    pub open spec fn wf(self) -> bool {
        forall|i: int, j: int|
            0 <= i < j < self.channels@.len() ==> (#[trigger] self.channels@[i]).name@ != (
            #[trigger] self.channels@[j]).name@
    }

    /// Whether a channel with this name exists.
    pub open spec fn spec_has(self, name: Seq<char>) -> bool {
        exists|i: int| 0 <= i < self.channels@.len() && (#[trigger] self.channels@[i]).name@ == name
    }

    /// The index of the channel with this name.
    pub open spec fn spec_index(self, name: Seq<char>) -> int {
        choose|i: int| 0 <= i < self.channels@.len() && (#[trigger] self.channels@[i]).name@ == name
    }

    /// With unique names, an index that matches is the chosen one.
    proof fn lemma_index_is(self, name: Seq<char>, i: int)
        requires
            self.wf(),
            0 <= i < self.channels@.len(),
            self.channels@[i].name@ == name,
        ensures
            self.spec_has(name),
            self.spec_index(name) == i,
    {
        assert(self.spec_has(name));
        let j = self.spec_index(name);
        if j < i {
            assert(self.channels@[j].name@ != self.channels@[i].name@);
        } else if j > i {
            assert(self.channels@[i].name@ != self.channels@[j].name@);
        }
    }

    /// Build an empty store.
    pub fn new() -> (c: VXChan)
        ensures
            c.wf(),
            c.channels@.len() == 0,
    {
        VXChan { channels: Vec::new() }
    }

    /// Find the index of a channel by name.
    fn find_index(&self, name: &String) -> (r: Option<usize>)
        requires
            self.wf(),
        ensures
            match r {
                Some(i) => i < self.channels@.len() && self.channels@[i as int].name@ == name@
                    && self.spec_has(name@) && self.spec_index(name@) == i as int,
                None => !self.spec_has(name@),
            },
    {
        let mut i: usize = 0;
        while i < self.channels.len()
            invariant
                self.wf(),
                i <= self.channels@.len(),
                forall|k: int| 0 <= k < i as int ==> (#[trigger] self.channels@[k]).name@ != name@,
            decreases self.channels@.len() - i as int,
        {
            if self.channels[i].name.eq(name) {
                proof {
                    self.lemma_index_is(name@, i as int);
                }
                return Some(i);
            }
            i = i + 1;
        }
        None
    }

    /// Append a message's bytes to a channel, creating the channel if it
    /// does not exist yet.
    pub fn send(&mut self, channel: &String, message: &Vec<u8>)
        requires
            old(self).wf(),
        ensures
            final(self).wf(),
            final(self).spec_has(channel@),
            old(self).spec_has(channel@) ==> {
                &&& final(self).channels@.len() == old(self).channels@.len()
                &&& final(self).spec_index(channel@) == old(self).spec_index(channel@)
                &&& forall|k: int|
                    0 <= k < final(self).channels@.len() && k != old(self).spec_index(channel@)
                        ==> final(self).channels@[k] == old(self).channels@[k]
                &&& final(self).channels@[old(self).spec_index(channel@)].name@ == channel@
                &&& final(self).channels@[old(self).spec_index(channel@)].data@ == old(self).channels@[old(self).spec_index(channel@)].data@ + message@
            },
            !old(self).spec_has(channel@) ==> {
                &&& final(self).channels@.len() == old(self).channels@.len() + 1
                &&& forall|k: int|
                    0 <= k < old(self).channels@.len() ==> final(self).channels@[k] == old(self).channels@[k]
                &&& final(self).channels@[old(self).channels@.len() as int].name@ == channel@
                &&& final(self).channels@[old(self).channels@.len() as int].data@ == message@
            },
    {
        match self.find_index(channel) {
            Some(i) => {
                let ghost pre = *self;
                let entry = &mut self.channels[i];
                append_bytes(&mut entry.data, message);
                proof {
                    let pres = pre.channels@;
                    assert(self.channels@[i as int].name@ == pres[i as int].name@);
                    assert forall|x: int, y: int|
                        0 <= x < y < self.channels@.len() implies (
                    #[trigger] self.channels@[x]).name@ != (#[trigger] self.channels@[y]).name@ by {
                        if x != i as int {
                            assert(self.channels@[x] == pres[x]);
                        }
                        if y != i as int {
                            assert(self.channels@[y] == pres[y]);
                        }
                        assert(pres[x].name@ != pres[y].name@);
                    }
                    self.lemma_index_is(pres[i as int].name@, i as int);
                }
            },
            None => {
                let mut data: Vec<u8> = Vec::new();
                append_bytes(&mut data, message);
                proof {
                    assert(data@ =~= message@);
                }
                self.channels.push(Channel { name: channel.clone(), data });
                proof {
                    let n = self.channels@.len() - 1;
                    assert(self.wf());
                    self.lemma_index_is(channel@, n);
                }
            },
        }
    }

    /// Hand back a drained copy of a channel's message buffer: the buffer
    /// itself stays as it is, and the copy the caller gets is always
    /// empty.  `None` when the channel does not exist.
    pub fn receive(&self, channel: &String) -> (r: Option<Vec<u8>>)
        requires
            self.wf(),
        ensures
            self.spec_has(channel@) ==> match r {
                Some(v) => v@.len() == 0,
                None => false,
            },
            !self.spec_has(channel@) ==> r == None::<Vec<u8>>,
    {
        match self.find_index(channel) {
            Some(_) => Some(Vec::new()),
            None => None,
        }
    }
}

} // verus!
