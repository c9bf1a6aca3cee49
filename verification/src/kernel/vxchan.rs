//! Named message channels: FIFO queues of strings, managed by name.

use vstd::prelude::*;

verus! {

/// One message channel: a FIFO queue of messages.  Sending enqueues and
/// receiving dequeues in arrival order.
pub struct VXChan {
    /// The queued messages, oldest first.
    pub messages: Vec<String>,
}

impl VXChan {
    /// Build an empty channel.
    pub fn new() -> (c: VXChan)
        ensures
            c.messages@.len() == 0,
    {
        VXChan { messages: Vec::new() }
    }

    /// Queue a message.
    pub fn send(&mut self, message: String) -> (r: Result<(), &'static str>)
        ensures
            r == Ok::<(), &'static str>(()),
            final(self).messages@ == old(self).messages@.push(message),
    {
        self.messages.push(message);
        Ok(())
    }

    /// Take the oldest message.  Receiving from an empty channel reports
    /// a failure rather than waiting for a sender.
    pub fn receive(&mut self) -> (r: Result<String, &'static str>)
        ensures
            old(self).messages@.len() == 0 ==> r is Err && *final(self) == *old(self),
            old(self).messages@.len() > 0 ==> {
                &&& r == Ok::<String, &'static str>(old(self).messages@[0])
                &&& final(self).messages@ == old(self).messages@.drop_first()
            },
    {
        if self.messages.len() == 0 {
            return Err("Failed to receive message");
        }
        let m = self.messages.remove(0);
        proof {
            assert(self.messages@ =~= old(self).messages@.drop_first());
        }
        Ok(m)
    }
}

/// One named channel.
pub struct ChannelEntry {
    /// Channel name.
    pub name: String,
    /// The channel itself.
    pub chan: VXChan,
}

/// The channel registry, keyed by channel name.
pub struct VXChanManager {
    /// The channels, in creation order.
    pub channels: Vec<ChannelEntry>,
}

impl VXChanManager {
    /// Channel names are unique.
    pub open spec fn wf(self) -> bool {
        forall|i: int, j: int|
            0 <= i < j < self.channels@.len() ==> (#[trigger] self.channels@[i]).name@ != (
            #[trigger] self.channels@[j]).name@
    }

    /// Whether a channel with this name exists.
    pub open spec fn spec_has(self, name: Seq<char>) -> bool {
        exists|i: int| 0 <= i < self.channels@.len() && (#[trigger] self.channels@[i]).name@ == name
    }

    /// The index of the channel with this name.
    pub open spec fn spec_index(self, name: Seq<char>) -> int {
        choose|i: int| 0 <= i < self.channels@.len() && (#[trigger] self.channels@[i]).name@ == name
    }

    /// With unique names, an index that matches is the chosen one.
    proof fn lemma_index_is(self, name: Seq<char>, i: int)
        requires
            self.wf(),
            0 <= i < self.channels@.len(),
            self.channels@[i].name@ == name,
        ensures
            self.spec_has(name),
            self.spec_index(name) == i,
    {
        assert(self.spec_has(name));
        let j = self.spec_index(name);
        if j < i {
            assert(self.channels@[j].name@ != self.channels@[i].name@);
        } else if j > i {
            assert(self.channels@[i].name@ != self.channels@[j].name@);
        }
    }

    /// Build an empty registry.
    pub fn new() -> (m: VXChanManager)
        ensures
            m.wf(),
            m.channels@.len() == 0,
    {
        VXChanManager { channels: Vec::new() }
    }

    /// Find the index of a channel by name.
    fn find_index(&self, name: &String) -> (r: Option<usize>)
        requires
            self.wf(),
        ensures
            match r {
                Some(i) => i < self.channels@.len() && self.channels@[i as int].name@ == name@
                    && self.spec_has(name@) && self.spec_index(name@) == i as int,
                None => !self.spec_has(name@),
            },
    {
        let mut i: usize = 0;
        while i < self.channels.len()
            invariant
                self.wf(),
                i <= self.channels@.len(),
                forall|k: int| 0 <= k < i as int ==> (#[trigger] self.channels@[k]).name@ != name@,
            decreases self.channels@.len() - i as int,
        {
            if self.channels[i].name.eq(name) {
                proof {
                    self.lemma_index_is(name@, i as int);
                }
                return Some(i);
            }
            i = i + 1;
        }
        None
    }

    /// Create a channel; a name already in use is rejected.
    pub fn create_channel(&mut self, name: &String) -> (r: Result<(), &'static str>)
        requires
            old(self).wf(),
        ensures
            final(self).wf(),
            old(self).spec_has(name@) ==> r is Err && *final(self) == *old(self),
            !old(self).spec_has(name@) ==> {
                &&& r == Ok::<(), &'static str>(())
                &&& final(self).channels@.len() == old(self).channels@.len() + 1
                &&& forall|k: int|
                    0 <= k < old(self).channels@.len() ==> final(self).channels@[k] == old(self).channels@[k]
                &&& final(self).channels@[old(self).channels@.len() as int].name@ == name@
                &&& final(self).channels@[old(self).channels@.len() as int].chan.messages@.len()
                    == 0
                &&& final(self).spec_has(name@)
            },
    {
        match self.find_index(name) {
            Some(_) => Err("Channel already exists"),
            None => {
                self.channels.push(ChannelEntry { name: name.clone(), chan: VXChan::new() });
                proof {
                    let n = self.channels@.len() - 1;
                    assert(self.wf());
                    self.lemma_index_is(name@, n);
                }
                Ok(())
            },
        }
    }

    /// Queue a message on a named channel.
    pub fn send_message(&mut self, name: &String, message: String) -> (r: Result<
        (),
        &'static str,
    >)
        requires
            old(self).wf(),
        ensures
            final(self).wf(),
            !old(self).spec_has(name@) ==> r is Err && *final(self) == *old(self),
            old(self).spec_has(name@) ==> {
                &&& r == Ok::<(), &'static str>(())
                &&& final(self).channels@.len() == old(self).channels@.len()
                &&& forall|k: int|
                    0 <= k < final(self).channels@.len() && k != old(self).spec_index(name@)
                        ==> final(self).channels@[k] == old(self).channels@[k]
                &&& final(self).channels@[old(self).spec_index(name@)].name@ == name@
                &&& final(self).channels@[old(self).spec_index(name@)].chan.messages@ == old(self).channels@[old(self).spec_index(name@)].chan.messages@.push(message)
            },
    {
        match self.find_index(name) {
            None => Err("Channel not found"),
            Some(i) => {
                let ghost pre = *self;
                let entry = &mut self.channels[i];
                let _ = entry.chan.send(message);
                proof {
                    let pres = pre.channels@;
                    assert(self.channels@[i as int].name@ == pres[i as int].name@);
                    assert forall|x: int, y: int|
                        0 <= x < y < self.channels@.len() implies (
                    #[trigger] self.channels@[x]).name@ != (#[trigger] self.channels@[y]).name@ by {
                        if x != i as int {
                            assert(self.channels@[x] == pres[x]);
                        }
                        if y != i as int {
                            assert(self.channels@[y] == pres[y]);
                        }
                        assert(pres[x].name@ != pres[y].name@);
                    }
                }
                Ok(())
            },
        }
    }

    /// Take the oldest message from a named channel.
    pub fn receive_message(&mut self, name: &String) -> (r: Result<String, &'static str>)
        requires
            old(self).wf(),
        ensures
            final(self).wf(),
            !old(self).spec_has(name@) ==> r is Err && *final(self) == *old(self),
            old(self).spec_has(name@) && old(self).channels@[old(self).spec_index(
                name@,
            )].chan.messages@.len() == 0 ==> r is Err && *final(self) == *old(self),
            old(self).spec_has(name@) && old(self).channels@[old(self).spec_index(
                name@,
            )].chan.messages@.len() > 0 ==> {
                &&& r == Ok::<String, &'static str>(
                    old(self).channels@[old(self).spec_index(name@)].chan.messages@[0],
                )
                &&& final(self).channels@.len() == old(self).channels@.len()
                &&& forall|k: int|
                    0 <= k < final(self).channels@.len() && k != old(self).spec_index(name@)
                        ==> final(self).channels@[k] == old(self).channels@[k]
                &&& final(self).channels@[old(self).spec_index(name@)].name@ == name@
                &&& final(self).channels@[old(self).spec_index(name@)].chan.messages@ == old(self).channels@[old(self).spec_index(name@)].chan.messages@.drop_first()
            },
    {
        match self.find_index(name) {
            None => Err("Channel not found"),
            Some(i) => {
                if self.channels[i].chan.messages.len() == 0 {
                    return Err("Failed to receive message");
                }
                let ghost pre = *self;
                let entry = &mut self.channels[i];
                let r = entry.chan.receive();
                proof {
                    let pres = pre.channels@;
                    assert(self.channels@[i as int].name@ == pres[i as int].name@);
                    assert forall|x: int, y: int|
                        0 <= x < y < self.channels@.len() implies (
                    #[trigger] self.channels@[x]).name@ != (#[trigger] self.channels@[y]).name@ by {
                        if x != i as int {
                            assert(self.channels@[x] == pres[x]);
                        }
                        if y != i as int {
                            assert(self.channels@[y] == pres[y]);
                        }
                        assert(pres[x].name@ != pres[y].name@);
                    }
                }
                r
            },
        }
    }
}

/// Set up the channel subsystem: an empty registry.
pub fn vxchan_init() -> (r: Result<VXChanManager, &'static str>)
    ensures
        match r {
            Ok(m) => m.wf() && m.channels@.len() == 0,
            Err(_) => false,
        },
{
    Ok(VXChanManager::new())
}

} // verus!
