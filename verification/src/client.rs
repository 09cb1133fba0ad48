//! Reaching the overlay's server in another process.

use crate::injector::{injection, install_hook, InjectError, Injection, OverlayDll};
use core::time::Duration;
use vstd::prelude::*;

verus! {

/// How long to wait before the pipe is tried again, in milliseconds.
pub const PIPE_RETRY_MS: u64 = 50;

/// Why the server was not reached.
#[derive(Debug, Clone, Copy, PartialEq, Eq, Structural)]
pub enum ConnectError {
    /// The server did not come up in time for a client.
    ClientTimeout,
    /// The server did not come up in time.
    ServerTimeout,
    /// The server is there, and the connection failed.
    Handshake,
}

impl ConnectError {
    pub open spec fn text(self) -> Option<Seq<char>> {
        match self {
            ConnectError::ClientTimeout => Some("ipc client wait timeout"@),
            ConnectError::ServerTimeout => Some("ipc server wait timeout"@),
            ConnectError::Handshake => None,
        }
    }

    /// What went wrong, where the connection does not tell.
    pub fn message(&self) -> (r: Option<&'static str>)
        ensures
            match r {
                Some(text) => self.text() == Some(text@),
                None => self.text() is None,
            },
    {
        match self {
            ConnectError::ClientTimeout => Some("ipc client wait timeout"),
            ConnectError::ServerTimeout => Some("ipc server wait timeout"),
            ConnectError::Handshake => None,
        }
    }
}

/// What happened.
#[derive(Debug, Clone, Copy, PartialEq, Eq, Structural)]
pub enum ConnectEvent {
    /// Whether what was to be done was done.
    Done(bool),
    /// The time is up.
    Elapsed,
}

/// How far the reaching of the server has come, and so what to do next.
#[derive(Debug, Clone, Copy, PartialEq, Eq, Structural)]
pub enum ConnectStage {
    OpenPipe,
    /// Sleep for a number of milliseconds.
    Sleep(u64),
    /// Set up the connection on the pipe that was opened.
    Handshake,
    /// The server is there.
    Reached,
    Failed(ConnectError),
}

/// A wait for the server.
#[derive(Debug, Clone, Copy, PartialEq, Eq, Structural)]
pub struct Connect {
    /// Whether the pipe is kept for a connection, rather than opened to see whether it is there.
    pub keep: bool,
    /// Whether the time is limited.
    pub limited: bool,
    pub stage: ConnectStage,
}

impl Connect {
    /// Whether `event` can happen.
    pub open spec fn awaits(self, event: ConnectEvent) -> bool {
        &&& !(self.stage is Reached || self.stage is Failed)
        &&& event is Elapsed ==> self.limited
    }

    /// What comes after `event`. The pipe is tried until it is there or the time is up.
    pub open spec fn next(self, event: ConnectEvent) -> ConnectStage {
        match (self.stage, event) {
            (_, ConnectEvent::Elapsed) => ConnectStage::Failed(
                if self.keep {
                    ConnectError::ClientTimeout
                } else {
                    ConnectError::ServerTimeout
                },
            ),
            (ConnectStage::OpenPipe, ConnectEvent::Done(opened)) => if !opened {
                ConnectStage::Sleep(PIPE_RETRY_MS)
            } else if self.keep {
                ConnectStage::Handshake
            } else {
                ConnectStage::Reached
            },
            (ConnectStage::Sleep(_), _) => ConnectStage::OpenPipe,
            (ConnectStage::Handshake, ConnectEvent::Done(connected)) => if connected {
                ConnectStage::Reached
            } else {
                ConnectStage::Failed(ConnectError::Handshake)
            },
            (stage, _) => stage,
        }
    }

    /// Tells what happened.
    pub fn advance(&mut self, event: ConnectEvent)
        requires
            old(self).awaits(event),
        ensures
            *final(self) == (Connect { stage: old(self).next(event), ..*old(self) }),
    {
        self.stage =
        match (self.stage, event) {
            (_, ConnectEvent::Elapsed) => {
                if self.keep {
                    ConnectStage::Failed(ConnectError::ClientTimeout)
                } else {
                    ConnectStage::Failed(ConnectError::ServerTimeout)
                }
            },
            (ConnectStage::OpenPipe, ConnectEvent::Done(opened)) => if !opened {
                ConnectStage::Sleep(PIPE_RETRY_MS)
            } else if self.keep {
                ConnectStage::Handshake
            } else {
                ConnectStage::Reached
            },
            (ConnectStage::Sleep(_), _) => ConnectStage::OpenPipe,
            (ConnectStage::Handshake, ConnectEvent::Done(connected)) => if connected {
                ConnectStage::Reached
            } else {
                ConnectStage::Failed(ConnectError::Handshake)
            },
            (stage, _) => stage,
        };
    }
}

/// Begins to connect to the server, within a time or not.
pub fn connect(limited: bool) -> (r: Connect)
    ensures
        r == (Connect { keep: true, limited, stage: ConnectStage::OpenPipe }),
{
    Connect { keep: true, limited, stage: ConnectStage::OpenPipe }
}

/// Begins to wait until the server is up, within a time or not, without keeping a connection.
pub fn wait_for_ipc(limited: bool) -> (r: Connect)
    ensures
        r == (Connect { keep: false, limited, stage: ConnectStage::OpenPipe }),
{
    Connect { keep: false, limited, stage: ConnectStage::OpenPipe }
}

/// The attaching of an overlay: first the hook is installed, then the server is connected to.
#[derive(Debug)]
pub enum Inject<P> {
    Installing(Injection<P>),
    Connecting(Connect),
    /// The hook was not installed.
    Failed(InjectError),
}

/// Begins to attach the overlay to process `pid`. The timeout is for the hook, and again for the
/// connection; without one the wait has no end.
pub fn inject<P>(pid: u32, dll: OverlayDll<P>, timeout: Option<Duration>) -> (r: Inject<P>)
    ensures
        r == Inject::Installing(injection(pid, dll, timeout)),
{
    Inject::Installing(install_hook(pid, dll, timeout))
}

/// Goes on once the installing of the hook gave `result`.
pub fn hook_installed<P>(result: Result<(), InjectError>, timeout: Option<Duration>) -> (r: Inject<
    P,
>)
    ensures
        r == (match result {
            Ok(()) => Inject::<P>::Connecting(
                Connect { keep: true, limited: timeout is Some, stage: ConnectStage::OpenPipe },
            ),
            Err(err) => Inject::<P>::Failed(err),
        }),
{
    match result {
        Ok(()) => Inject::Connecting(connect(timeout.is_some())),
        Err(err) => Inject::Failed(err),
    }
}

/// The wait after `events`.
pub open spec fn connect_run(keep: bool, limited: bool, events: Seq<ConnectEvent>) -> Connect
    decreases events.len(),
{
    if events.len() == 0 {
        Connect { keep, limited, stage: ConnectStage::OpenPipe }
    } else {
        let wait = connect_run(keep, limited, events.drop_last());
        Connect { stage: wait.next(events.last()), ..wait }
    }
}

/// Whether each of `events` can happen when it does.
pub open spec fn connect_awaits(keep: bool, limited: bool, events: Seq<ConnectEvent>) -> bool
    decreases events.len(),
{
    events.len() == 0 || (connect_awaits(keep, limited, events.drop_last()) && connect_run(
        keep,
        limited,
        events.drop_last(),
    ).awaits(events.last()))
}

/// A pipe that is not there ends no wait: only the time does, or, once the pipe is there, the
/// connection. A wait whose time is not limited never runs out of time.
pub proof fn law_wait_ends_by_time_or_connection(
    keep: bool,
    limited: bool,
    events: Seq<ConnectEvent>,
)
    requires
        connect_awaits(keep, limited, events),
    ensures
        ({
            let wait = connect_run(keep, limited, events);
            &&& wait.keep == keep
            &&& wait.limited == limited
            &&& wait.stage == ConnectStage::Failed(ConnectError::ClientTimeout) ==> limited && keep
            &&& wait.stage == ConnectStage::Failed(ConnectError::ServerTimeout) ==> limited && !keep
            &&& wait.stage == ConnectStage::Failed(ConnectError::Handshake) ==> keep
            &&& wait.stage is Reached || wait.stage is Failed ==> events.last()
                == ConnectEvent::Elapsed || events.last() == ConnectEvent::Done(true) || wait.stage
                == ConnectStage::Failed(ConnectError::Handshake)
            &&& wait.stage is Handshake ==> keep
        }),
    decreases events.len(),
{
    if events.len() > 0 {
        law_wait_ends_by_time_or_connection(keep, limited, events.drop_last());
    }
}

/// What is done next follows from what was done and what happened: a pipe that is not there is
/// tried again after a pause of fifty milliseconds, one that is there is connected to where it is
/// kept and is enough where it is not, and a time that is up ends the wait wherever it stands.
pub proof fn law_connect_leads_on(wait: Connect, event: ConnectEvent)
    requires
        wait.awaits(event),
    ensures
        event is Elapsed && wait.keep ==> wait.next(event) == ConnectStage::Failed(
            ConnectError::ClientTimeout,
        ),
        event is Elapsed && !wait.keep ==> wait.next(event) == ConnectStage::Failed(
            ConnectError::ServerTimeout,
        ),
        event matches ConnectEvent::Done(done) ==> match wait.stage {
            ConnectStage::Sleep(_) => wait.next(event) is OpenPipe,
            ConnectStage::OpenPipe if !done => wait.next(event) == ConnectStage::Sleep(50),
            ConnectStage::OpenPipe if wait.keep => wait.next(event) is Handshake,
            ConnectStage::OpenPipe => wait.next(event) is Reached,
            ConnectStage::Handshake if done => wait.next(event) is Reached,
            ConnectStage::Handshake => wait.next(event) == ConnectStage::Failed(
                ConnectError::Handshake,
            ),
            _ => false,
        },
{
}

} // verus!
