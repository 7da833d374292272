use crate::alerts::queue::AlertQueue;
use crate::errors::Error;
use crate::utils::time::{more_than_mins_after, occurred_more_than_mins_ago, DateTimeOffset};
use std::collections::VecDeque;
use vstd::prelude::*;

pub mod notify;

verus! {

/// An alert: the data that raised it, the report to send, and when it was raised.
#[derive(Debug)]
pub struct Alert<T> {
    pub data: T,
    pub message: String,
    pub created_at: DateTimeOffset,
}

impl<T> Alert<T> {
    pub open spec fn wf(&self) -> bool {
        self.created_at.wf()
    }
}

/// The antispam window: the record of the last alert sent. Empty until the first alert is
/// admitted, then holding exactly one record.
#[derive(Debug)]
pub struct SentAlerts<T> {
    pub sent_queue: VecDeque<Alert<T>>,
}

impl<T> SentAlerts<T> {
    pub open spec fn wf(&self) -> bool {
        &&& self.sent_queue@.len() <= 1
        &&& forall|i: int| 0 <= i < self.sent_queue@.len() ==> (#[trigger] self.sent_queue@[i]).wf()
    }

    /// When the last alert was sent, if one was.
    pub open spec fn last_sent(&self) -> Option<DateTimeOffset> {
        if self.sent_queue@.len() == 0 {
            None
        } else {
            Some(self.sent_queue@[0].created_at)
        }
    }

    /// Whether an alert raised at `at` is admitted, with `threshold_mins` between two alerts.
    pub open spec fn passes(&self, at: DateTimeOffset, threshold_mins: int) -> bool {
        match self.last_sent() {
            None => true,
            Some(last) => more_than_mins_after(last.naive(), at.naive(), threshold_mins),
        }
    }

    /// An empty window.
    pub fn initialise() -> (r: Result<SentAlerts<T>, Error>)
        ensures
            r matches Ok(w) && w.wf() && w.sent_queue@.len() == 0,
    {
        Ok(SentAlerts { sent_queue: VecDeque::new() })
    }

    /// Records `alert` as the last alert sent, in place of any earlier record.
    pub fn add(&mut self, alert: Alert<T>) -> (r: Result<(), Error>)
        requires
            alert.wf(),
        ensures
            r is Ok,
            final(self).wf(),
            final(self).sent_queue@ == seq![alert],
    {
        self.sent_queue.clear();
        self.sent_queue.push_back(alert);
        assert(self.sent_queue@ =~= seq![alert]);
        Ok(())
    }

    /// The records held.
    pub fn sent(&self) -> (r: Result<&VecDeque<Alert<T>>, Error>)
        ensures
            r matches Ok(q) && q@ == self.sent_queue@,
    {
        Ok(&self.sent_queue)
    }
}

/// A copy of an alert for the window; the copy of `data` is whatever `T`'s `clone` gives.
fn record_of<T: Clone>(alert: &Alert<T>) -> (r: Alert<T>)
    ensures
        r.created_at == alert.created_at,
        r.message@ == alert.message@,
{
    Alert { data: alert.data.clone(), message: alert.message.clone(), created_at: alert.created_at }
}

impl<T: Clone> SentAlerts<T> {
    /// Decides whether `alert` is sent. With no record, or with a record more than
    /// `threshold_mins` minutes older than the alert, the alert goes to the head of `queue`
    /// and its time becomes the record. Otherwise it is dropped and the record stays.
    /// Returns whether the alert was admitted.
    pub fn screen(&mut self, queue: &mut AlertQueue<T>, alert: Alert<T>, threshold_mins: i64) -> (r:
        bool)
        requires
            old(self).wf(),
            alert.wf(),
        ensures
            r == old(self).passes(alert.created_at, threshold_mins as int),
            final(self).wf(),
            final(self).sent_queue@.len() == 1,
            r ==> final(queue).queue@ == seq![alert] + old(queue).queue@,
            r ==> final(self).last_sent() == Some(alert.created_at),
            r ==> final(self).sent_queue@[0].message@ == alert.message@,
            !r ==> final(queue).queue@ == old(queue).queue@,
            !r ==> final(self).sent_queue@ == old(self).sent_queue@,
    {
        match self.sent_queue.pop_front() {
            None => {
                let record = record_of(&alert);
                self.sent_queue.push_back(record);
                queue.add(alert);
                true
            },
            Some(last) => {
                assert(old(self).sent_queue@[0] == last);
                if occurred_more_than_mins_ago(last.created_at, alert.created_at, threshold_mins) {
                    let record = record_of(&alert);
                    self.sent_queue.push_back(record);
                    queue.add(alert);
                    true
                } else {
                    self.sent_queue.push_back(last);
                    assert(self.sent_queue@ =~= old(self).sent_queue@);
                    false
                }
            },
        }
    }
}

} // verus!
