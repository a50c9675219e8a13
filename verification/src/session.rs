//! The life of a session, from start-up to exit.

use vstd::prelude::*;
use crate::inbound::InboundNext;
use crate::outbound::{
    lemma_quit_never_sent, quit_command, spec_outbound_step, OutboundAction, OutboundActionView,
};
use crate::text::line_feed;

verus! {

/// Exit status of a session that the operator ended with the quit command.
pub const EXIT_CLEAN: i32 = 0;

/// Exit status of a session that a fatal error ended.
pub const EXIT_FAILURE: i32 = 1;

/// How long a draining session waits for the inbound path to stop before it
/// leaves without it, in milliseconds.
pub const DRAIN_LIMIT_MILLIS: u64 = 1000;

/// Where a session stands.
#[derive(Clone, Copy, Debug, PartialEq, Eq, Structural)]
pub enum Session {
    /// The command line is being read and the device opened and configured.
    /// No data flows yet.
    Starting,
    /// Both paths are at work.
    Running,
    /// The operator has quit. The session waits for the inbound path to stop.
    Draining,
    /// The session is over. `failed` tells whether a fatal error ended it.
    Terminated { failed: bool },
}

/// What can happen to a session.
#[derive(Clone, Copy, Debug, PartialEq, Eq, Structural)]
pub enum SessionEvent {
    /// The command line was accepted and the device is open and configured.
    StartupSucceeded,
    /// The command line was turned down, or the device could not be opened
    /// or configured.
    StartupFailed,
    /// The outbound path met the quit command.
    QuitRequested,
    /// The outbound path met a fatal error: the operator's input ended or
    /// could not be read, or the device or the console could not be written.
    OutboundFailed,
    /// The inbound path has stopped in good order.
    InboundFinished,
    /// The inbound path has stopped on a fatal error.
    InboundFailed,
    /// The inbound path has not stopped within the time allowed, most likely
    /// because it is held in a read on a silent device.
    InboundAbandoned,
}

/// What the main flow of the program does next.
#[derive(Clone, Copy, Debug, PartialEq, Eq, Structural)]
pub enum Directive {
    /// Read the command line, open the device and configure it.
    StartUp,
    /// Relay one more line from the operator to the device.
    Relay,
    /// Ask the inbound path to stop and wait until it has, but no longer
    /// than `limit_millis` milliseconds.
    AwaitInbound { limit_millis: u64 },
    /// Leave the process with this status.
    Exit { status: i32 },
}

impl Session {
    /// A session that has not begun.
    pub fn new() -> (session: Session)
        ensures
            session == Session::Starting,
    {
        Session::Starting
    }

    /// The place of a phase in the order in which a session passes through
    /// them.
    pub open spec fn rank(self) -> nat {
        match self {
            Session::Starting => 0,
            Session::Running => 1,
            Session::Draining => 2,
            Session::Terminated { .. } => 3,
        }
    }

    /// The session after `event`.
    ///
    /// A failure ends the session from any phase in which it can be seen. The
    /// quit command moves a running session to draining, and the end of the
    /// inbound path ends a draining one; so does the end of the wait for it,
    /// which is no failure. The main flow learns of the inbound path only
    /// while it waits for it, so its end means nothing before. An event that
    /// does not belong to the phase leaves the session as it is.
    pub open spec fn spec_advance(self, event: SessionEvent) -> Session {
        match (self, event) {
            (Session::Starting, SessionEvent::StartupSucceeded) => Session::Running,
            (Session::Starting, SessionEvent::StartupFailed) => Session::Terminated {
                failed: true,
            },
            (Session::Running, SessionEvent::QuitRequested) => Session::Draining,
            (Session::Running, SessionEvent::OutboundFailed) => Session::Terminated {
                failed: true,
            },
            (Session::Draining, SessionEvent::InboundFinished) => Session::Terminated {
                failed: false,
            },
            (Session::Draining, SessionEvent::InboundFailed) => Session::Terminated {
                failed: true,
            },
            (Session::Draining, SessionEvent::InboundAbandoned) => Session::Terminated {
                failed: false,
            },
            _ => self,
        }
    }

    /// What the main flow does in this phase.
    pub open spec fn spec_directive(self) -> Directive {
        match self {
            Session::Starting => Directive::StartUp,
            Session::Running => Directive::Relay,
            Session::Draining => Directive::AwaitInbound { limit_millis: DRAIN_LIMIT_MILLIS },
            Session::Terminated { failed } => Directive::Exit {
                status: if failed {
                    EXIT_FAILURE
                } else {
                    EXIT_CLEAN
                },
            },
        }
    }

    /// The exit status, once the session is over.
    pub open spec fn spec_exit_status(self) -> Option<i32> {
        match self {
            Session::Terminated { failed } => Some(
                if failed {
                    EXIT_FAILURE
                } else {
                    EXIT_CLEAN
                },
            ),
            _ => None,
        }
    }

    /// Whether data may flow between the operator and the device.
    pub open spec fn spec_data_flows(self) -> bool {
        self is Running || self is Draining
    }

    /// Moves the session on by one event.
    pub fn advance(self, event: SessionEvent) -> (next: Session)
        ensures
            next == self.spec_advance(event),
    {
        match (self, event) {
            (Session::Starting, SessionEvent::StartupSucceeded) => Session::Running,
            (Session::Starting, SessionEvent::StartupFailed) => Session::Terminated {
                failed: true,
            },
            (Session::Running, SessionEvent::QuitRequested) => Session::Draining,
            (Session::Running, SessionEvent::OutboundFailed) => Session::Terminated {
                failed: true,
            },
            (Session::Draining, SessionEvent::InboundFinished) => Session::Terminated {
                failed: false,
            },
            (Session::Draining, SessionEvent::InboundFailed) => Session::Terminated {
                failed: true,
            },
            (Session::Draining, SessionEvent::InboundAbandoned) => Session::Terminated {
                failed: false,
            },
            _ => self,
        }
    }

    /// What the main flow does next.
    pub fn directive(self) -> (directive: Directive)
        ensures
            directive == self.spec_directive(),
    {
        match self {
            Session::Starting => Directive::StartUp,
            Session::Running => Directive::Relay,
            Session::Draining => Directive::AwaitInbound { limit_millis: DRAIN_LIMIT_MILLIS },
            Session::Terminated { failed } => Directive::Exit {
                status: if failed {
                    EXIT_FAILURE
                } else {
                    EXIT_CLEAN
                },
            },
        }
    }

    /// The exit status, once the session is over.
    pub fn exit_status(self) -> (status: Option<i32>)
        ensures
            status == self.spec_exit_status(),
    {
        match self {
            Session::Terminated { failed } => Some(
                if failed {
                    EXIT_FAILURE
                } else {
                    EXIT_CLEAN
                },
            ),
            _ => None,
        }
    }

    /// Whether data may flow between the operator and the device.
    pub fn data_flows(self) -> (flows: bool)
        ensures
            flows == self.spec_data_flows(),
    {
        match self {
            Session::Running => true,
            Session::Draining => true,
            _ => false,
        }
    }
}

/// The session that `events` lead to from the start, first to last.
pub open spec fn spec_run(events: Seq<SessionEvent>) -> Session
    decreases events.len(),
{
    if events.len() == 0 {
        Session::Starting
    } else {
        spec_run(events.drop_last()).spec_advance(events.last())
    }
}

/// A session never goes back to an earlier phase, and once it is over no
/// event changes it or its exit status.
pub proof fn lemma_phases_in_order(session: Session, event: SessionEvent)
    ensures
        session.rank() <= session.spec_advance(event).rank(),
        session is Terminated ==> session.spec_advance(event) == session,
{
}

/// What the session learns from a step of the outbound path. `written` tells
/// whether every write that the step asked for succeeded.
///
/// The quit command is reported as such. The end of the operator's input is a
/// failure, and so is a write that failed. A line that was sent and
/// acknowledged is nothing to report.
pub open spec fn spec_outbound_event(action: OutboundActionView, written: bool) -> Option<
    SessionEvent,
> {
    match action {
        OutboundActionView::Quit => Some(SessionEvent::QuitRequested),
        OutboundActionView::EndOfInput => Some(SessionEvent::OutboundFailed),
        OutboundActionView::Send { .. } => if written {
            None
        } else {
            Some(SessionEvent::OutboundFailed)
        },
    }
}

/// What the session learns from a step of the inbound path. `written` tells
/// whether the output of the step reached the console.
///
/// A console that cannot be written ends the path like a device that cannot
/// be read. A path that rests before its next read has nothing to report.
pub open spec fn spec_inbound_event(next: InboundNext, written: bool) -> Option<SessionEvent> {
    if !written {
        Some(SessionEvent::InboundFailed)
    } else {
        match next {
            InboundNext::Pause { .. } => None,
            InboundNext::Finish => Some(SessionEvent::InboundFinished),
            InboundNext::Abort => Some(SessionEvent::InboundFailed),
        }
    }
}

/// The event to report after a step of the outbound path, if any.
pub fn outbound_event(action: &OutboundAction, written: bool) -> (event: Option<SessionEvent>)
    ensures
        event == spec_outbound_event(action@, written),
{
    match action {
        OutboundAction::Quit => Some(SessionEvent::QuitRequested),
        OutboundAction::EndOfInput => Some(SessionEvent::OutboundFailed),
        OutboundAction::Send { .. } => if written {
            None
        } else {
            Some(SessionEvent::OutboundFailed)
        },
    }
}

/// The event to report after a step of the inbound path, if any.
pub fn inbound_event(next: InboundNext, written: bool) -> (event: Option<SessionEvent>)
    ensures
        event == spec_inbound_event(next, written),
{
    if !written {
        Some(SessionEvent::InboundFailed)
    } else {
        match next {
            InboundNext::Pause { .. } => None,
            InboundNext::Finish => Some(SessionEvent::InboundFinished),
            InboundNext::Abort => Some(SessionEvent::InboundFailed),
        }
    }
}

/// Whether `event` is one of the ways in which the wait for the inbound path
/// ends.
pub open spec fn ends_the_wait(event: SessionEvent) -> bool {
    event == SessionEvent::InboundFinished || event == SessionEvent::InboundFailed || event
        == SessionEvent::InboundAbandoned
}

/// The quit command always ends a running session. The line `q!` is reported
/// as a request to quit and moves the session to draining at once; from there
/// the session is over as soon as the wait for the inbound path ends, with
/// the failure status if the path stopped on an error and the clean status
/// otherwise.
pub proof fn lemma_quit_ends_session(written: bool, inbound_end: SessionEvent)
    requires
        ends_the_wait(inbound_end),
    ensures
        spec_outbound_event(spec_outbound_step(quit_command().push(line_feed())), written) == Some(
            SessionEvent::QuitRequested,
        ),
        Session::Running.spec_advance(SessionEvent::QuitRequested) == Session::Draining,
        Session::Draining.spec_advance(inbound_end) is Terminated,
        Session::Draining.spec_advance(inbound_end).spec_exit_status() == Some(
            if inbound_end == SessionEvent::InboundFailed {
                EXIT_FAILURE
            } else {
                EXIT_CLEAN
            },
        ),
{
    lemma_quit_never_sent(quit_command());
}

/// Whether `event` is among `events`.
pub open spec fn happened(events: Seq<SessionEvent>, event: SessionEvent) -> bool {
    exists|i: int| 0 <= i < events.len() && #[trigger] events[i] == event
}

/// What the phase of a session tells about its past.
///
/// Data flows only after start-up has succeeded. A session drains only after
/// the quit command. A session ends with the clean status only if start-up
/// succeeded, the operator quit, and the inbound path stopped in good order
/// or was given up waiting for; it ends with the failure status only if some
/// failure was reported.
pub proof fn lemma_history(events: Seq<SessionEvent>)
    ensures
        spec_run(events).spec_data_flows() ==> happened(events, SessionEvent::StartupSucceeded),
        spec_run(events) is Draining ==> happened(events, SessionEvent::QuitRequested),
        spec_run(events).spec_exit_status() == Some(EXIT_CLEAN) ==> {
            &&& happened(events, SessionEvent::StartupSucceeded)
            &&& happened(events, SessionEvent::QuitRequested)
            &&& (happened(events, SessionEvent::InboundFinished) || happened(
                events,
                SessionEvent::InboundAbandoned,
            ))
        },
        spec_run(events).spec_exit_status() == Some(EXIT_FAILURE) ==> {
            ||| happened(events, SessionEvent::StartupFailed)
            ||| happened(events, SessionEvent::OutboundFailed)
            ||| happened(events, SessionEvent::InboundFailed)
        },
    decreases events.len(),
{
    if events.len() > 0 {
        let earlier = events.drop_last();
        let last = events.len() - 1;
        lemma_history(earlier);
        assert forall|event: SessionEvent| happened(earlier, event) implies happened(
            events,
            event,
        ) by {
            let i = choose|i: int| 0 <= i < earlier.len() && #[trigger] earlier[i] == event;
            assert(events[i] == event);
        }
        assert(happened(events, events[last]));
    }
}

} // verus!
