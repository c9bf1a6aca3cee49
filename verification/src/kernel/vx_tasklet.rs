//! Deferred-work tasklets, kept in a queue ordered by priority.
//!
//! A tasklet is its id and priority; the work itself lives with the
//! caller, which pops tasklets in priority order and runs them.

use vstd::prelude::*;

verus! {

/// One unit of deferred work.
#[derive(Clone, Copy, Debug, PartialEq, Eq, Structural)]
pub struct Tasklet {
    /// Position in arrival order when the tasklet was queued.
    pub id: usize,
    /// Priority; lower values run first.
    pub priority: usize,
}

/// Where a stable sort by priority places a new entry: after every queued
/// tasklet whose priority is less than or equal to the new one.
pub open spec fn spec_insert_pos(q: Seq<Tasklet>, priority: usize) -> int
    decreases q.len(),
{
    if q.len() == 0 {
        0
    } else if q[0].priority <= priority {
        1 + spec_insert_pos(q.drop_first(), priority)
    } else {
        0
    }
}

/// In a sorted queue, the insertion point is the first index whose
/// priority exceeds the new one.
proof fn lemma_insert_pos_is(q: Seq<Tasklet>, priority: usize, k: int)
    requires
        0 <= k <= q.len(),
        forall|x: int| 0 <= x < k ==> (#[trigger] q[x]).priority <= priority,
        k < q.len() ==> q[k].priority > priority,
    ensures
        spec_insert_pos(q, priority) == k,
    decreases q.len(),
{
    if q.len() == 0 {
    } else if k == 0 {
    } else {
        let rest = q.drop_first();
        assert(q[0].priority <= priority);
        assert forall|x: int| 0 <= x < k - 1 implies (#[trigger] rest[x]).priority <= priority by {
            assert(rest[x] == q[x + 1]);
        }
        assert(k - 1 < rest.len() ==> rest[k - 1].priority > priority);
        lemma_insert_pos_is(rest, priority, k - 1);
    }
}

/// The tasklet queue, kept sorted by priority; equal priorities keep
/// arrival order.
pub struct TaskletScheduler {
    /// The queued tasklets, sorted by priority.
    pub task_queue: Vec<Tasklet>,
}

impl TaskletScheduler {
    /// The queue is sorted by priority.
    pub open spec fn wf(self) -> bool {
        forall|i: int, j: int|
            0 <= i < j < self.task_queue@.len() ==> (#[trigger] self.task_queue@[i]).priority <= (
            #[trigger] self.task_queue@[j]).priority
    }

    /// Build an empty scheduler.
    pub fn new() -> (s: TaskletScheduler)
        ensures
            s.wf(),
            s.task_queue@.len() == 0,
    {
        TaskletScheduler { task_queue: Vec::new() }
    }

    /// Queue a tasklet with the given priority.  It takes the next id and
    /// is placed after every tasklet of the same or lower priority value,
    /// as a stable sort by priority would leave it.
    pub fn add_task(&mut self, priority: usize)
        requires
            old(self).wf(),
        ensures
            final(self).wf(),
            final(self).task_queue@.len() == old(self).task_queue@.len() + 1,
            final(self).task_queue@ == old(self).task_queue@.insert(
                spec_insert_pos(old(self).task_queue@, priority),
                (Tasklet { id: old(self).task_queue@.len() as usize, priority }),
            ),
            0 <= spec_insert_pos(old(self).task_queue@, priority) <= old(self).task_queue@.len(),
    {
        let id = self.task_queue.len();
        let ghost pre = self.task_queue@;
        let mut k: usize = 0;
        while k < self.task_queue.len() && self.task_queue[k].priority <= priority
            invariant
                *self == *old(self),
                k <= self.task_queue@.len(),
                forall|x: int| 0 <= x < k as int ==> (#[trigger] self.task_queue@[x]).priority <= priority,
            decreases self.task_queue@.len() - k as int,
        {
            k = k + 1;
        }
        proof {
            lemma_insert_pos_is(pre, priority, k as int);
        }
        self.task_queue.insert(k, Tasklet { id, priority });
        proof {
            let post = self.task_queue@;
            assert forall|i: int, j: int|
                0 <= i < j < post.len() implies (#[trigger] post[i]).priority <= (
            #[trigger] post[j]).priority by {
                let i0: int = if i < k as int {
                    i
                } else {
                    i - 1
                };
                let j0: int = if j < k as int {
                    j
                } else {
                    j - 1
                };
                if i != k as int {
                    assert(post[i] == pre[i0]);
                }
                if j != k as int {
                    assert(post[j] == pre[j0]);
                }
            }
        }
    }

    /// Take the front tasklet, the one with the lowest priority value.
    pub fn next_task(&mut self) -> (r: Option<Tasklet>)
        requires
            old(self).wf(),
        ensures
            final(self).wf(),
            old(self).task_queue@.len() == 0 ==> r == None::<Tasklet> && *final(self) == *old(self),
            old(self).task_queue@.len() > 0 ==> {
                &&& r == Some(old(self).task_queue@[0])
                &&& final(self).task_queue@ == old(self).task_queue@.drop_first()
            },
    {
        if self.task_queue.len() == 0 {
            return None;
        }
        let t = self.task_queue.remove(0);
        proof {
            assert(self.task_queue@ =~= old(self).task_queue@.drop_first());
        }
        Some(t)
    }
}

} // verus!
