use crate::errors::Error;
use crate::wrappers::chrono::WrappedDateTime;
use vstd::prelude::*;

verus! {

/// The state of a monitored service.
#[derive(Debug, Clone, Copy, PartialEq, Eq, Structural)]
pub enum State {
    Up,
    Down,
    Unknown,
}

impl Default for State {
    fn default() -> (r: State)
        ensures
            r == State::Unknown,
    {
        State::Unknown
    }
}

/// What an alert of a monitor reports.
#[derive(Debug, Clone, Copy, PartialEq, Eq, Structural)]
pub enum AlertContext {
    PollFailure,
    StateChange(State),
    UnknownFailure,
}

/// A check of an HTTP body's content.
#[derive(Debug, Clone, Copy)]
pub struct PollHTTPBodyContent;

/// A check that an HTTP status is OK.
#[derive(Debug, Clone, Copy)]
pub struct PollHTTPStatusOk;

/// A check of a MySQL replica.
#[derive(Debug, Clone, Copy)]
pub struct PollMySQLDBSlave;

/// A monitor: its check, and its current and previous states with when each began.
#[derive(Debug, Clone, Copy)]
pub struct Monitor<T> {
    pub context: T,
    pub current_state: State,
    pub previous_state: State,
    pub current_state_timestamp: WrappedDateTime,
    pub previous_state_timestamp: WrappedDateTime,
}

/// What a poll of a monitor reports: the change, and the monitor as it was before it.
#[derive(Debug, Clone, Copy)]
pub struct PollAlert<T> {
    pub alert_context: AlertContext,
    pub cx: Monitor<T>,
}

/// Something that reports what it is.
pub trait Pollable {
    fn debug(&self) -> String;
}

/// A monitor that can be listed by name.
pub trait Monitorable {
    fn info(&self) -> String;
}

/// The monitors in use.
pub struct Monitored {
    pub enabled: Vec<Box<dyn Monitorable>>,
}

impl<T> Monitor<T> {
    pub open spec fn wf(&self) -> bool {
        self.current_state_timestamp.wf() && self.previous_state_timestamp.wf()
    }

    /// Moves to `new_state` as of now: the current state and its time become the previous ones.
    pub fn update_state(&mut self, new_state: State)
        requires
            old(self).wf(),
        ensures
            final(self).wf(),
            final(self).context == old(self).context,
            final(self).previous_state == old(self).current_state,
            final(self).current_state == new_state,
            final(self).previous_state_timestamp == old(self).current_state_timestamp,
    {
        self.previous_state = self.current_state;
        self.current_state = new_state;
        self.previous_state_timestamp = self.current_state_timestamp;
        self.current_state_timestamp = WrappedDateTime::default();
    }
}

impl<T: Copy> Monitor<T> {
    /// A monitor for `context`, in state `Unknown` since now.
    fn starting(context: T) -> (r: Monitor<T>)
        ensures
            r.wf(),
            r.context == context,
            r.current_state == State::Unknown,
            r.previous_state == State::Unknown,
    {
        Monitor {
            context,
            current_state: State::default(),
            previous_state: State::default(),
            current_state_timestamp: WrappedDateTime::default(),
            previous_state_timestamp: WrappedDateTime::default(),
        }
    }

    /// Records `new_state` and reports the change with the monitor as it was.
    fn poll_with(&mut self, new_state: State) -> (r: PollAlert<T>)
        requires
            old(self).wf(),
        ensures
            r.alert_context == AlertContext::StateChange(new_state),
            r.cx == *old(self),
            final(self).wf(),
            final(self).context == old(self).context,
            final(self).previous_state == old(self).current_state,
            final(self).current_state == new_state,
            final(self).previous_state_timestamp == old(self).current_state_timestamp,
    {
        let alert = PollAlert { alert_context: AlertContext::StateChange(new_state), cx: *self };
        self.update_state(new_state);
        alert
    }
}

impl Monitor<PollHTTPBodyContent> {
    /// A new monitor, in state `Unknown` since now.
    pub fn new() -> (r: Result<Monitor<PollHTTPBodyContent>, Error>)
        ensures
            r matches Ok(m) && m.wf() && m.current_state == State::Unknown
                && m.previous_state == State::Unknown,
    {
        Ok(Monitor::starting(PollHTTPBodyContent))
    }

    /// Polls the body check, which reports `Up`.
    pub fn poll(&mut self) -> (r: PollAlert<PollHTTPBodyContent>)
        requires
            old(self).wf(),
        ensures
            r.alert_context == AlertContext::StateChange(State::Up),
            r.cx == *old(self),
            final(self).wf(),
            final(self).context == old(self).context,
            final(self).previous_state == old(self).current_state,
            final(self).current_state == State::Up,
            final(self).previous_state_timestamp == old(self).current_state_timestamp,
    {
        self.poll_with(State::Up)
    }
}

impl Monitor<PollHTTPStatusOk> {
    /// A new monitor, in state `Unknown` since now.
    pub fn new() -> (r: Result<Monitor<PollHTTPStatusOk>, Error>)
        ensures
            r matches Ok(m) && m.wf() && m.current_state == State::Unknown
                && m.previous_state == State::Unknown,
    {
        Ok(Monitor::starting(PollHTTPStatusOk))
    }

    /// Polls the status check, which reports `Down`.
    pub fn poll(&mut self) -> (r: PollAlert<PollHTTPStatusOk>)
        requires
            old(self).wf(),
        ensures
            r.alert_context == AlertContext::StateChange(State::Down),
            r.cx == *old(self),
            final(self).wf(),
            final(self).context == old(self).context,
            final(self).previous_state == old(self).current_state,
            final(self).current_state == State::Down,
            final(self).previous_state_timestamp == old(self).current_state_timestamp,
    {
        self.poll_with(State::Down)
    }
}

/// The name of a state.
pub open spec fn state_text(s: State) -> Seq<char> {
    match s {
        State::Up => "Up"@,
        State::Down => "Down"@,
        State::Unknown => "Unknown"@,
    }
}

/// An alert context as text, such as `StateChange(Up)`.
pub open spec fn context_text(c: AlertContext) -> Seq<char> {
    match c {
        AlertContext::PollFailure => "PollFailure"@,
        AlertContext::StateChange(s) => "StateChange("@ + state_text(s) + ")"@,
        AlertContext::UnknownFailure => "UnknownFailure"@,
    }
}

impl State {
    /// The name of the state.
    pub fn describe(&self) -> (r: String)
        ensures
            r@ == state_text(*self),
    {
        match self {
            State::Up => String::from_str("Up"),
            State::Down => String::from_str("Down"),
            State::Unknown => String::from_str("Unknown"),
        }
    }
}

impl AlertContext {
    /// The context as text, such as `StateChange(Up)`.
    pub fn describe(&self) -> (r: String)
        ensures
            r@ == context_text(*self),
    {
        match self {
            AlertContext::PollFailure => String::from_str("PollFailure"),
            AlertContext::StateChange(s) => {
                let mut t = String::from_str("StateChange(");
                t.append(s.describe().as_str());
                t.append(")");
                t
            },
            AlertContext::UnknownFailure => String::from_str("UnknownFailure"),
        }
    }
}

impl Pollable for PollAlert<PollHTTPBodyContent> {
    fn debug(&self) -> String {
        let mut t = String::from_str("PollAlert<PollHTTPBodyContent> { alert_context: ");
        t.append(self.alert_context.describe().as_str());
        t.append(" }");
        t
    }
}

impl Pollable for PollAlert<PollHTTPStatusOk> {
    fn debug(&self) -> String {
        let mut t = String::from_str("PollAlert<PollHTTPStatusOk> { alert_context: ");
        t.append(self.alert_context.describe().as_str());
        t.append(" }");
        t
    }
}

impl Monitorable for Monitor<PollHTTPBodyContent> {
    fn info(&self) -> String {
        String::from_str("Monitor<PollHTTPBodyContent>")
    }
}

impl Monitorable for Monitor<PollHTTPStatusOk> {
    fn info(&self) -> String {
        String::from_str("Monitor<PollHTTPStatusOk>")
    }
}

impl Monitored {
    /// No monitors.
    pub fn new() -> (r: Monitored)
        ensures
            r.enabled@.len() == 0,
    {
        Monitored { enabled: Vec::new() }
    }

    /// Adds a monitor at the end.
    pub fn add(&mut self, item: Box<dyn Monitorable>)
        ensures
            final(self).enabled@ == old(self).enabled@.push(item),
    {
        self.enabled.push(item);
    }
}

} // verus!
