//! Queues of parked tasks.

use vstd::prelude::*;
use std::collections::VecDeque;

verus! {

/// The tasks that wait for one kind of event, oldest first. A task is named
/// by a token that the scheduler chose; the queue never holds a token twice.
pub struct WaitQueue {
    queue: VecDeque<usize>,
}

impl WaitQueue {
    /// The waiting tokens, oldest first.
    pub closed spec fn view(&self) -> Seq<usize> {
        self.queue@
    }

    /// Holds of every queue: no token occurs twice.
    #[verifier::type_invariant]
    pub open spec fn unique(&self) -> bool {
        self@.no_duplicates()
    }

    /// A queue in which nobody waits.
    pub fn new() -> (queue: Self)
        ensures
            queue@ == Seq::<usize>::empty(),
    {
        WaitQueue { queue: VecDeque::new() }
    }

    /// Number of waiting tokens. No token is counted twice, since none
    /// occurs twice.
    pub fn len(&self) -> (n: usize)
        ensures
            n == self@.len(),
            self@.no_duplicates(),
    {
        proof {
            use_type_invariant(self);
        }
        self.queue.len()
    }

    /// Whether nobody waits.
    pub fn is_empty(&self) -> (none: bool)
        ensures
            none == (self@.len() == 0),
    {
        self.queue.len() == 0
    }

    /// Whether `waiter` is in the queue.
    pub fn contains(&self, waiter: usize) -> (found: bool)
        ensures
            found == self@.contains(waiter),
    {
        let n: usize = self.queue.len();
        let mut i: usize = 0;
        while i < n
            invariant
                n == self.queue@.len(),
                i <= n,
                forall|j: int| 0 <= j < i ==> self.queue@[j] != waiter,
            decreases n - i,
        {
            if self.queue[i] == waiter {
                return true;
            }
            i += 1;
        }
        false
    }

    /// Puts `waiter` at the back of the queue unless it waits already.
    /// Returns whether it was added.
    pub fn register_waiter(&mut self, waiter: usize) -> (added: bool)
        ensures
            added == !old(self)@.contains(waiter),
            final(self)@ == registered(old(self)@, waiter),
            final(self)@.no_duplicates(),
    {
        proof {
            use_type_invariant(&*self);
        }
        if self.contains(waiter) {
            false
        } else {
            let mut queue = VecDeque::new();
            std::mem::swap(&mut self.queue, &mut queue);
            queue.push_back(waiter);
            self.queue = queue;
            true
        }
    }

    /// Takes the oldest waiter out of the queue, if there is one.
    pub fn wake_one(&mut self) -> (woken: Option<usize>)
        ensures
            woken == first_waiter(old(self)@),
            final(self)@ == without_first(old(self)@),
            final(self)@.no_duplicates(),
    {
        proof {
            use_type_invariant(&*self);
        }
        let mut queue = VecDeque::new();
        std::mem::swap(&mut self.queue, &mut queue);
        let woken = queue.pop_front();
        self.queue = queue;
        woken
    }

    /// Takes every waiter out of the queue, oldest first.
    pub fn wake_all(&mut self) -> (woken: Vec<usize>)
        ensures
            woken@ == old(self)@,
            final(self)@ == Seq::<usize>::empty(),
    {
        let mut queue = VecDeque::new();
        std::mem::swap(&mut self.queue, &mut queue);
        let mut woken: Vec<usize> = Vec::new();
        let n: usize = queue.len();
        let mut i: usize = 0;
        while i < n
            invariant
                n == queue@.len(),
                i <= n,
                woken@ == queue@.subrange(0, i as int),
            decreases n - i,
        {
            woken.push(queue[i]);
            assert(queue@.subrange(0, i + 1) =~= queue@.subrange(0, i as int).push(queue@[i as int]));
            i += 1;
        }
        assert(queue@.subrange(0, n as int) =~= queue@);
        woken
    }
}

/// The queue after `waiter` has asked to wait: unchanged if it waits
/// already, else with `waiter` at the back.
pub open spec fn registered(queue: Seq<usize>, waiter: usize) -> Seq<usize> {
    if queue.contains(waiter) {
        queue
    } else {
        queue.push(waiter)
    }
}

/// The token that the next wake takes: the oldest one.
pub open spec fn first_waiter(queue: Seq<usize>) -> Option<usize> {
    if queue.len() > 0 {
        Some(queue[0])
    } else {
        None
    }
}

/// The queue after one wake.
pub open spec fn without_first(queue: Seq<usize>) -> Seq<usize> {
    if queue.len() > 0 {
        queue.subrange(1, queue.len() as int)
    } else {
        queue
    }
}

} // verus!
