use crate::alerts::queue::AlertQueue;
use crate::dbslave::alertable::{alertable, evaluate, status_report};
use crate::dbslave::DBSlaveStatus;
use crate::monitor::{Alert, SentAlerts};
use crate::mpsc::Message;
use crate::utils::time::DateTimeOffset;
use vstd::prelude::*;

verus! {

/// One cycle's decision on a probed status. The status is evaluated at `lag_threshold`
/// seconds; when it is alertable, an alert raised at `now` with its report goes to the
/// antispam window, which puts it on `queue` if no alert was sent in the last
/// `threshold_mins` minutes. Returns whether an alert was queued.
pub fn process_status(
    window: &mut SentAlerts<DBSlaveStatus>,
    queue: &mut AlertQueue<DBSlaveStatus>,
    status: DBSlaveStatus,
    lag_threshold: u64,
    beijing_timestamp: &str,
    now: DateTimeOffset,
    threshold_mins: i64,
) -> (r: bool)
    requires
        old(window).wf(),
        now.wf(),
    ensures
        r == (alertable(status, lag_threshold as nat) && old(window).passes(
            now,
            threshold_mins as int,
        )),
        final(window).wf(),
        alertable(status, lag_threshold as nat) ==> final(window).sent_queue@.len() == 1,
        !alertable(status, lag_threshold as nat) ==> final(window).sent_queue@ == old(
            window,
        ).sent_queue@,
        alertable(status, lag_threshold as nat) && !r ==> final(window).sent_queue@ == old(
            window,
        ).sent_queue@,
        r ==> final(queue).queue@.len() == old(queue).queue@.len() + 1,
        r ==> final(queue).queue@[0].created_at == now,
        r ==> final(queue).queue@[0].message@ == status_report(status, beijing_timestamp@),
        r ==> final(queue).queue@.drop_first() == old(queue).queue@,
        r ==> final(window).last_sent() == Some(now),
        !r ==> final(queue).queue@ == old(queue).queue@,
{
    let (notify, message) = evaluate(&status, lag_threshold, beijing_timestamp);
    if !notify {
        return false;
    }
    let alert = Alert { data: status, message, created_at: now };
    let queued = window.screen(queue, alert, threshold_mins);
    proof {
        if queued {
            assert(queue.queue@.drop_first() =~= old(queue).queue@);
        }
    }
    queued
}

/// Empties the queue into the messages to send, one for each alert with its report,
/// head first.
pub fn dispatch_pending<T>(queue: &mut AlertQueue<T>) -> (r: Vec<Message>)
    ensures
        r@.len() == old(queue).queue@.len(),
        forall|i: int| 0 <= i < r@.len() ==> #[trigger] r@[i].text@ == old(queue).queue@[i].message@,
        final(queue).queue@.len() == 0,
{
    let alerts = queue.drain();
    let mut messages: Vec<Message> = Vec::new();
    let mut i: usize = 0;
    while i < alerts.len()
        invariant
            alerts@ == old(queue).queue@,
            i <= alerts@.len(),
            messages@.len() == i,
            forall|j: int| 0 <= j < i ==> #[trigger] messages@[j].text@ == alerts@[j].message@,
        decreases alerts@.len() - i,
    {
        messages.push(Message { text: alerts[i].message.clone() });
        i = i + 1;
    }
    messages
}

/// The phases of the monitoring loop, in the order of one cycle.
#[derive(Debug, Clone, Copy, PartialEq, Eq, Structural)]
pub enum Phase {
    Probe,
    Evaluate,
    AdmitOrSuppress,
    Dispatch,
    CollectAndNotify,
    Sleep,
    Stopped,
}

/// Where the loop stands: its phase, and the number of the cycle, kept for the log.
#[derive(Debug, Clone, Copy, PartialEq, Eq, Structural)]
pub struct LoopState {
    pub phase: Phase,
    pub cycle: u64,
}

/// The phase after `p`. Without cancellation the phases run in order and `Sleep` leads back
/// to `Probe`. Once cancelled, no new work starts: a cycle that has begun goes straight to
/// collecting what was handed off, and collecting or sleeping ends the loop.
pub open spec fn next_phase(p: Phase, cancelled: bool) -> Phase {
    match p {
        Phase::Stopped => Phase::Stopped,
        Phase::CollectAndNotify => if cancelled {
            Phase::Stopped
        } else {
            Phase::Sleep
        },
        Phase::Sleep => if cancelled {
            Phase::Stopped
        } else {
            Phase::Probe
        },
        Phase::Probe => if cancelled {
            Phase::CollectAndNotify
        } else {
            Phase::Evaluate
        },
        Phase::Evaluate => if cancelled {
            Phase::CollectAndNotify
        } else {
            Phase::AdmitOrSuppress
        },
        Phase::AdmitOrSuppress => if cancelled {
            Phase::CollectAndNotify
        } else {
            Phase::Dispatch
        },
        Phase::Dispatch => Phase::CollectAndNotify,
    }
}

/// The cycle number after a step: it goes up by one, up to `u64::MAX`, when a new cycle
/// begins.
pub open spec fn next_cycle(s: LoopState, cancelled: bool) -> u64 {
    if next_phase(s.phase, cancelled) == Phase::Probe && s.cycle < u64::MAX {
        (s.cycle + 1) as u64
    } else {
        s.cycle
    }
}

/// The loop before its first probe.
pub fn start() -> (r: LoopState)
    ensures
        r.phase == Phase::Probe,
        r.cycle == 1,
{
    LoopState { phase: Phase::Probe, cycle: 1 }
}

/// The loop after the current phase is done, given whether cancellation was asked for.
pub fn step(s: LoopState, cancelled: bool) -> (r: LoopState)
    ensures
        r.phase == next_phase(s.phase, cancelled),
        r.cycle == next_cycle(s, cancelled),
{
    let phase = match s.phase {
        Phase::Stopped => Phase::Stopped,
        Phase::CollectAndNotify => if cancelled {
            Phase::Stopped
        } else {
            Phase::Sleep
        },
        Phase::Sleep => if cancelled {
            Phase::Stopped
        } else {
            Phase::Probe
        },
        Phase::Probe => if cancelled {
            Phase::CollectAndNotify
        } else {
            Phase::Evaluate
        },
        Phase::Evaluate => if cancelled {
            Phase::CollectAndNotify
        } else {
            Phase::AdmitOrSuppress
        },
        Phase::AdmitOrSuppress => if cancelled {
            Phase::CollectAndNotify
        } else {
            Phase::Dispatch
        },
        Phase::Dispatch => Phase::CollectAndNotify,
    };
    let cycle = if phase == Phase::Probe && s.cycle < u64::MAX {
        s.cycle + 1
    } else {
        s.cycle
    };
    LoopState { phase, cycle }
}

/// Without cancellation a cycle passes every working phase once, in order, and comes back
/// to `Probe`.
pub proof fn lemma_cycle_order()
    ensures
        next_phase(Phase::Probe, false) == Phase::Evaluate,
        next_phase(Phase::Evaluate, false) == Phase::AdmitOrSuppress,
        next_phase(Phase::AdmitOrSuppress, false) == Phase::Dispatch,
        next_phase(Phase::Dispatch, false) == Phase::CollectAndNotify,
        next_phase(Phase::CollectAndNotify, false) == Phase::Sleep,
        next_phase(Phase::Sleep, false) == Phase::Probe,
{
}

/// Cancellation ends the loop within two steps, collecting what was handed off first where a
/// cycle had begun; a stopped loop stays stopped.
pub proof fn lemma_cancellation_stops(p: Phase)
    ensures
        next_phase(next_phase(p, true), true) == Phase::Stopped,
        p != Phase::Sleep && p != Phase::CollectAndNotify && p != Phase::Stopped ==> next_phase(
            p,
            true,
        ) == Phase::CollectAndNotify,
        forall|c: bool| #[trigger] next_phase(Phase::Stopped, c) == Phase::Stopped,
{
}

} // verus!
