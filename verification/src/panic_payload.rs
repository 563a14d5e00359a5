//! Messages of panics caught in spawned tasks.
use vstd::prelude::*;
use crate::text::{debug_quoted, debug_str};

verus! {

broadcast use vstd::string::group_string_axioms;

/// What a caught panic carried: a message built from a format string, a
/// constant message, or something that is not a message.
pub enum PanicMessage {
    Formatted(String),
    Literal(String),
    Unprintable,
}

/// The payload of a caught panic.
pub struct PanicPayload(pub PanicMessage);

/// How a panic payload is shown: its message in `Debug` form, or a
/// placeholder when it carries none.
pub open spec fn payload_text(p: PanicPayload) -> Seq<char> {
    match p.0 {
        PanicMessage::Formatted(s) => debug_quoted(s@),
        PanicMessage::Literal(s) => debug_quoted(s@),
        PanicMessage::Unprintable => "[unprintable panic payload]"@,
    }
}

impl PanicPayload {
    /// If the panic contained a format string, returns the formatted panic message. Otherwise returns None.
    pub fn as_formatted_panic(&self) -> (r: Option<&str>)
        ensures
            match self.0 {
                PanicMessage::Formatted(s) => r matches Some(m) && m@ == s@,
                _ => r is None,
            },
    {
        match &self.0 {
            PanicMessage::Formatted(s) => Some(s.as_str()),
            _ => None,
        }
    }

    /// If the panic message was simply a constant string, returns it. Otherwise returns None.
    pub fn as_literal_panic(&self) -> (r: Option<&str>)
        ensures
            match self.0 {
                PanicMessage::Literal(s) => r matches Some(m) && m@ == s@,
                _ => r is None,
            },
    {
        match &self.0 {
            PanicMessage::Literal(s) => Some(s.as_str()),
            _ => None,
        }
    }

    /// The payload as it is displayed.
    pub fn to_display_string(&self) -> (r: String)
        ensures
            r@ == payload_text(*self),
    {
        if let Some(s) = self.as_formatted_panic() {
            debug_str(s)
        } else if let Some(s) = self.as_literal_panic() {
            debug_str(s)
        } else {
            String::from_str("[unprintable panic payload]")
        }
    }
}

/// The message with which a task manager panics when one of its tasks panicked.
pub fn task_panic_message(name: &str, payload: &PanicPayload) -> (r: String)
    ensures
        r@ == "task "@ + debug_quoted(name@) + " panicked with "@ + payload_text(*payload),
{
    let mut m = String::from_str("task ");
    let quoted = debug_str(name);
    m.append(quoted.as_str());
    m.append(" panicked with ");
    let shown = payload.to_display_string();
    m.append(shown.as_str());
    m
}

/// How a task of the group ended, as the task manager observes it.
pub enum TaskEnd<E> {
    /// Every task finished without error.
    AllDone,
    /// The named task panicked with the given payload.
    Panicked { name: String, payload: PanicPayload },
    /// A task returned an application error.
    Failed(E),
    /// Tasks are still running.
    Running,
}

/// What polling the task manager does with what it observed.
pub enum PollStep<E> {
    /// The manager completes with this result.
    Ready(Result<(), E>),
    /// The manager is not finished yet.
    Pending,
    /// The manager panics with this message.
    Panic(String),
}

/// Decides the outcome of a poll of the task manager: a finished group
/// completes with `Ok`, an application error is handed on, and a panic in a
/// task is turned into a panic of the manager that names the task.
pub fn poll_step<E>(end: TaskEnd<E>) -> (r: PollStep<E>)
    ensures
        match end {
            TaskEnd::AllDone => r matches PollStep::Ready(Ok(())),
            TaskEnd::Failed(e) => r matches PollStep::Ready(Err(x)) && x == e,
            TaskEnd::Running => r is Pending,
            TaskEnd::Panicked { name, payload } => r matches PollStep::Panic(m) && m@
                == "task "@ + debug_quoted(name@) + " panicked with "@ + payload_text(payload),
        },
{
    match end {
        TaskEnd::AllDone => PollStep::Ready(Ok(())),
        TaskEnd::Failed(e) => PollStep::Ready(Err(e)),
        TaskEnd::Running => PollStep::Pending,
        TaskEnd::Panicked { name, payload } => PollStep::Panic(
            task_panic_message(name.as_str(), &payload),
        ),
    }
}

} // verus!
