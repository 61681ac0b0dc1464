//! The work queue between the command handlers and the star worker: an
//! unbounded first-in, first-out sequence of star requests.

use vstd::prelude::*;
use std::collections::VecDeque;
use crate::request::{StarRequest, StarRequestView};

verus! {

/// Star requests waiting for the worker, oldest first.
pub struct WorkQueue {
    items: VecDeque<StarRequest>,
}

impl View for WorkQueue {
    type V = Seq<StarRequestView>;

    closed spec fn view(&self) -> Seq<StarRequestView> {
        self.items@.map_values(|r: StarRequest| r@)
    }
}

/// Every waiting request carries a timestamp of the canonical shape.
pub open spec fn all_wf(waiting: Seq<StarRequestView>) -> bool {
    forall|i: int| 0 <= i < waiting.len() ==> (#[trigger] waiting[i]).wf()
}

/// What waits after `request` has been enqueued.
pub open spec fn enqueued(waiting: Seq<StarRequestView>, request: StarRequestView) -> Seq<
    StarRequestView,
> {
    waiting.push(request)
}

/// What waits after the `n` oldest requests have been dequeued.
pub open spec fn after_dequeues(waiting: Seq<StarRequestView>, n: nat) -> Seq<StarRequestView>
    recommends
        n <= waiting.len(),
{
    waiting.subrange(n as int, waiting.len() as int)
}

impl WorkQueue {
    /// Every waiting request carries a timestamp of the canonical shape.
    pub open spec fn wf(&self) -> bool {
        all_wf(self@)
    }

    /// A queue in which nothing waits.
    pub fn new() -> (q: WorkQueue)
        ensures
            q@ == Seq::<StarRequestView>::empty(),
            q.wf(),
    {
        let q = WorkQueue { items: VecDeque::new() };
        assert(q@ =~= Seq::<StarRequestView>::empty());
        q
    }

    /// How many requests wait.
    pub fn len(&self) -> (n: usize)
        ensures
            n == self@.len(),
    {
        self.items.len()
    }

    /// Whether nothing waits.
    pub fn is_empty(&self) -> (b: bool)
        ensures
            b == (self@.len() == 0),
    {
        self.items.len() == 0
    }

    /// Puts `request` behind everything that already waits. Never blocks,
    /// never drops and never reorders.
    pub fn enqueue(&mut self, request: StarRequest)
        requires
            old(self).wf(),
            request.wf(),
        ensures
            final(self)@ == enqueued(old(self)@, request@),
            final(self).wf(),
    {
        self.items.push_back(request);
        assert(self@ =~= enqueued(old(self)@, request@));
    }

    /// Takes out the request that has waited longest, or `None` when nothing
    /// waits; the queue is then unchanged.
    pub fn dequeue(&mut self) -> (r: Option<StarRequest>)
        requires
            old(self).wf(),
        ensures
            final(self).wf(),
            match r {
                Some(request) => {
                    &&& old(self)@.len() > 0
                    &&& request@ == old(self)@[0]
                    &&& request.wf()
                    &&& final(self)@ == after_dequeues(old(self)@, 1)
                },
                None => old(self)@.len() == 0 && final(self)@ == old(self)@,
            },
    {
        let r = self.items.pop_front();
        assert(r.is_some() ==> self@ =~= after_dequeues(old(self)@, 1));
        r
    }
}

/// First in, first out: when `a` and then `b` are enqueued behind whatever
/// waits, and everything that waited before has been dequeued, the next
/// request to come out is `a` and the one after it is `b`.
pub proof fn lemma_enqueue_order_is_dequeue_order(
    waiting: Seq<StarRequestView>,
    a: StarRequestView,
    b: StarRequestView,
)
    ensures
        ({
            let both = enqueued(enqueued(waiting, a), b);
            &&& after_dequeues(both, waiting.len())[0] == a
            &&& after_dequeues(both, waiting.len() + 1)[0] == b
            &&& after_dequeues(both, waiting.len() + 2).len() == 0
        }),
{
}

/// Dequeuing one request after another is dequeuing them together, so the
/// `i`-th request to come out is the `i`-th that waits.
pub proof fn lemma_dequeues_compose(waiting: Seq<StarRequestView>, n: nat, m: nat)
    requires
        n + m <= waiting.len(),
    ensures
        after_dequeues(after_dequeues(waiting, n), m) == after_dequeues(waiting, n + m),
        n < waiting.len() ==> after_dequeues(waiting, n)[0] == waiting[n as int],
{
    assert(after_dequeues(after_dequeues(waiting, n), m) =~= after_dequeues(waiting, n + m));
}

} // verus!
