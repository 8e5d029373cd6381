//! The message drain: a finite, non-restartable pass over whatever messages
//! the thread's queue currently holds.
//!
//! The queue is modelled as the sequence of queued message identifiers, in
//! arrival order. One step peeks at the front and removes it; the drain
//! ends as soon as the peek finds the queue empty.

use vstd::prelude::*;

verus! {

/// Drains the calling thread's queue by repeated non-blocking
/// peek-and-remove.
pub struct MessageIterator {
    /// Set once a peek has found the queue empty; the drain then yields
    /// nothing more, even if messages arrive later.
    pub done: bool,
}

impl MessageIterator {
    /// One drain step: remove and return the frontmost queued message, or
    /// end the drain if the queue is empty.
    pub fn next(&mut self, queue: &mut Vec<u32>) -> (m: Option<u32>)
        ensures
            old(self).done || old(queue)@.len() == 0 ==> {
                &&& m is None
                &&& final(queue)@ == old(queue)@
                &&& final(self).done
            },
            !old(self).done && old(queue)@.len() > 0 ==> {
                &&& m == Some(old(queue)@[0])
                &&& final(queue)@ == old(queue)@.drop_first()
                &&& !final(self).done
            },
    {
        if self.done || queue.len() == 0 {
            self.done = true;
            None
        } else {
            let m = queue.remove(0);
            proof {
                assert(old(queue)@.remove(0) =~= old(queue)@.drop_first());
            }
            Some(m)
        }
    }

    /// Drain every currently queued message, in order; the queue is left
    /// empty and the drain is finished.
    #[verifier::loop_isolation(false)]
    pub fn collect_all(&mut self, queue: &mut Vec<u32>) -> (drained: Vec<u32>)
        requires
            !old(self).done,
        ensures
            drained@ == old(queue)@,
            final(queue)@.len() == 0,
            final(self).done,
    {
        let ghost entry_contents: Seq<u32> = old(queue)@;
        let mut drained: Vec<u32> = Vec::new();
        loop
            invariant
                drained@ + queue@ == entry_contents,
                self.done ==> queue@.len() == 0,
            decreases queue@.len() + 1 - (if self.done { 1int } else { 0 }),
        {
            let step = self.next(queue);
            match step {
                Some(m) => {
                    drained.push(m);
                    proof {
                        assert(drained@ + queue@ =~= entry_contents);
                    }
                },
                None => {
                    proof {
                        assert(drained@ =~= entry_contents);
                    }
                    return drained;
                },
            }
        }
    }
}

impl Default for MessageIterator {
    /// A fresh drain, ready to run.
    fn default() -> (it: Self)
        ensures
            !it.done,
    {
        MessageIterator { done: false }
    }
}

} // verus!
