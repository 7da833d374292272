use crate::errors::Error;
use crate::monitor::Alert;
use vstd::prelude::*;

verus! {

/// Alerts that wait to be dispatched. `add` puts an alert at the head and `take_first`
/// takes the head: the last alert added is the first taken.
#[derive(Debug)]
pub struct AlertQueue<T> {
    pub queue: Vec<Alert<T>>,
}

impl<T> AlertQueue<T> {
    /// Puts `item` at the head.
    pub fn add(&mut self, item: Alert<T>) -> (r: Result<(), Error>)
        ensures
            r is Ok,
            final(self).queue@ == seq![item] + old(self).queue@,
    {
        self.queue.insert(0, item);
        assert(self.queue@ =~= seq![item] + old(self).queue@);
        Ok(())
    }

    /// The number of alerts waiting.
    pub fn len(&self) -> (r: Result<usize, Error>)
        ensures
            r matches Ok(n) && n == self.queue@.len(),
    {
        Ok(self.queue.len())
    }

    /// Takes the head; `EmptyQueue` when nothing waits.
    pub fn take_first(&mut self) -> (r: Result<Alert<T>, Error>)
        ensures
            old(self).queue@.len() == 0 ==> (r matches Err(e) && e is EmptyQueue),
            old(self).queue@.len() == 0 ==> final(self).queue@ == old(self).queue@,
            old(self).queue@.len() > 0 ==> (r matches Ok(a) && a == old(self).queue@[0]),
            old(self).queue@.len() > 0 ==> final(self).queue@ == old(self).queue@.drop_first(),
    {
        if self.queue.len() == 0 {
            return Err(Error::EmptyQueue);
        }
        let first = self.queue.remove(0);
        assert(self.queue@ =~= old(self).queue@.drop_first());
        Ok(first)
    }

    /// Takes every waiting alert, head first, leaving the queue empty.
    pub fn drain(&mut self) -> (r: Vec<Alert<T>>)
        ensures
            r@ == old(self).queue@,
            final(self).queue@.len() == 0,
    {
        let mut taken: Vec<Alert<T>> = Vec::new();
        while self.queue.len() > 0
            invariant
                taken@ + self.queue@ == old(self).queue@,
            decreases self.queue@.len(),
        {
            match self.take_first() {
                Ok(a) => taken.push(a),
                Err(_) => {},
            }
            assert(taken@ + self.queue@ =~= old(self).queue@);
        }
        assert(taken@ =~= old(self).queue@);
        taken
    }
}

/// A new, empty queue.
pub fn add<T>() -> (r: Result<AlertQueue<T>, Error>)
    ensures
        r matches Ok(q) && q.queue@.len() == 0,
{
    Ok(AlertQueue { queue: Vec::new() })
}

/// What taking from a queue gives: its head and the rest.
pub open spec fn taken<A>(q: Seq<A>) -> (A, Seq<A>) {
    (q[0], q.drop_first())
}

/// The queue hands alerts out last in, first out: after `add(a)` and `add(b)`, the first
/// `take_first` gives `b`, the second gives `a`, and the queue is back where it started.
pub proof fn lemma_last_in_first_out<A>(q: Seq<A>, a: A, b: A)
    ensures
        ({
            let after_adds = seq![b] + (seq![a] + q);
            let (first, rest) = taken(after_adds);
            let (second, remaining) = taken(rest);
            first == b && second == a && remaining == q
        }),
{
    let after_adds = seq![b] + (seq![a] + q);
    assert(after_adds.drop_first() =~= seq![a] + q);
    assert((seq![a] + q).drop_first() =~= q);
}

} // verus!
