//! Serving clients.

use crate::backend::{
    after_open, after_request, all_cleared, request_outcome, Backends, WindowBackend, WindowOutcome,
};
use crate::render::OverlaySurface;
use crate::request::Request;
use vstd::prelude::*;

verus! {

/// How long to wait before another server is made after one could not be, in milliseconds.
pub const SERVER_RETRY_MS: u64 = 5000;

/// What happened to a client's session.
#[derive(Debug, Clone, Copy, PartialEq, Eq)]
pub enum SessionEvent {
    /// Whether what was to be done was done.
    Done(bool),
    /// The client's next request and its number, or nothing once the client has gone.
    Received(Option<(u32, Request)>),
    /// The shared texture that was opened, if it was.
    Opened(Option<OverlaySurface>),
}

/// What to do for a client.
#[derive(Debug, Clone, Copy, PartialEq, Eq, Structural)]
pub enum SessionAction {
    Handshake,
    /// Start the reader of the game's memory. That it does not start is no matter.
    StartReader,
    /// Tell the client of every window.
    EmitInitial,
    /// Tell the client of every event from now on.
    SetSink,
    Receive,
    OpenSurface { window: u32, handle: u32 },
    Reply { id: u32, success: bool },
    /// Tell the client of no more events.
    ClearSink,
    StopReader,
    /// The session is over, well or not.
    Finish { ok: bool },
}

/// How far a session has come.
#[derive(Debug, Clone, Copy, PartialEq, Eq, Structural)]
pub enum SessionStage {
    Handshaking,
    StartingReader,
    SendingInitial,
    SettingSink,
    Receiving,
    Opening { id: u32, window: u32, handle: u32 },
    Replying { id: u32, success: bool },
    ClearingSink { ok: bool },
    StoppingReader { ok: bool },
    Over { ok: bool },
}

/// A client's session.
#[derive(Debug, Clone, Copy, PartialEq, Eq, Structural)]
pub struct Session {
    /// Whether the reader of the game's memory runs.
    pub reader: bool,
    pub stage: SessionStage,
}

impl Session {
    /// Whether `event` answers what is to be done.
    pub open spec fn awaits(self, event: SessionEvent) -> bool {
        match self.stage {
            SessionStage::Receiving => event is Received,
            SessionStage::Opening { .. } => event is Opened,
            SessionStage::Over { .. } => false,
            _ => event is Done,
        }
    }

    /// What is to be done.
    pub open spec fn asks(self) -> SessionAction {
        match self.stage {
            SessionStage::Handshaking => SessionAction::Handshake,
            SessionStage::StartingReader => SessionAction::StartReader,
            SessionStage::SendingInitial => SessionAction::EmitInitial,
            SessionStage::SettingSink => SessionAction::SetSink,
            SessionStage::Receiving => SessionAction::Receive,
            SessionStage::Opening { window, handle, .. } => SessionAction::OpenSurface {
                window,
                handle,
            },
            SessionStage::Replying { id, success } => SessionAction::Reply { id, success },
            SessionStage::ClearingSink { .. } => SessionAction::ClearSink,
            SessionStage::StoppingReader { .. } => SessionAction::StopReader,
            SessionStage::Over { ok } => SessionAction::Finish { ok },
        }
    }

    /// The session after `event`.
    pub open spec fn told(self, backends: Map<u32, WindowBackend>, event: SessionEvent) -> Session {
        let done = event == SessionEvent::Done(true);
        match self.stage {
            SessionStage::Handshaking => Session {
                stage: if done {
                    SessionStage::StartingReader
                } else {
                    SessionStage::Over { ok: false }
                },
                ..self
            },
            SessionStage::StartingReader => Session {
                reader: done,
                stage: SessionStage::SendingInitial,
            },
            SessionStage::SendingInitial => Session { stage: SessionStage::SettingSink, ..self },
            SessionStage::SettingSink => Session { stage: SessionStage::Receiving, ..self },
            SessionStage::Receiving => Session {
                stage: match event {
                    SessionEvent::Received(Some((id, Request::Window { id: window, request }))) => {
                        match request_outcome(backends, window, request) {
                            WindowOutcome::Reply(success) => SessionStage::Replying {
                                id,
                                success,
                            },
                            WindowOutcome::OpenSurface { handle } => SessionStage::Opening {
                                id,
                                window,
                                handle,
                            },
                        }
                    },
                    _ => SessionStage::ClearingSink { ok: true },
                },
                ..self
            },
            SessionStage::Opening { id, window, .. } => Session {
                stage: SessionStage::Replying {
                    id,
                    success: backends.dom().contains(window) && event != SessionEvent::Opened(None),
                },
                ..self
            },
            SessionStage::Replying { .. } => Session {
                stage: if done {
                    SessionStage::Receiving
                } else {
                    SessionStage::ClearingSink { ok: false }
                },
                ..self
            },
            SessionStage::ClearingSink { ok } => Session {
                stage: if self.reader {
                    SessionStage::StoppingReader { ok }
                } else {
                    SessionStage::Over { ok }
                },
                ..self
            },
            SessionStage::StoppingReader { ok } => Session {
                reader: false,
                stage: SessionStage::Over { ok },
            },
            SessionStage::Over { .. } => self,
        }
    }

    /// The windows after `event`. What the client asked of them goes with its events.
    pub open spec fn backends_after(
        self,
        backends: Map<u32, WindowBackend>,
        event: SessionEvent,
    ) -> Map<u32, WindowBackend> {
        match (self.stage, event) {
            (
                SessionStage::Receiving,
                SessionEvent::Received(Some((_, Request::Window { id, request }))),
            ) => after_request(backends, id, request),
            (SessionStage::Opening { window, .. }, SessionEvent::Opened(opened)) => after_open(
                backends,
                window,
                opened,
            ),
            (SessionStage::ClearingSink { .. }, _) => all_cleared(backends),
            _ => backends,
        }
    }

    /// Begins a client's session.
    pub fn new() -> (r: Session)
        ensures
            r == (Session { reader: false, stage: SessionStage::Handshaking }),
    {
        Session { reader: false, stage: SessionStage::Handshaking }
    }

    /// What is to be done now.
    pub fn action(&self) -> (r: SessionAction)
        ensures
            r == self.asks(),
    {
        match self.stage {
            SessionStage::Handshaking => SessionAction::Handshake,
            SessionStage::StartingReader => SessionAction::StartReader,
            SessionStage::SendingInitial => SessionAction::EmitInitial,
            SessionStage::SettingSink => SessionAction::SetSink,
            SessionStage::Receiving => SessionAction::Receive,
            SessionStage::Opening { window, handle, .. } => SessionAction::OpenSurface {
                window,
                handle,
            },
            SessionStage::Replying { id, success } => SessionAction::Reply { id, success },
            SessionStage::ClearingSink { .. } => SessionAction::ClearSink,
            SessionStage::StoppingReader { .. } => SessionAction::StopReader,
            SessionStage::Over { ok } => SessionAction::Finish { ok },
        }
    }

    /// Tells the session what happened, and does what the client asks of its windows.
    pub fn advance(&mut self, backends: &mut Backends, event: SessionEvent)
        requires
            old(self).awaits(event),
        ensures
            *final(self) == old(self).told(old(backends)@, event),
            final(backends)@ == old(self).backends_after(old(backends)@, event),
    {
        let done = match event {
            SessionEvent::Done(done) => done,
            _ => false,
        };
        match self.stage {
            SessionStage::Handshaking => {
                self.stage =
                if done {
                    SessionStage::StartingReader
                } else {
                    SessionStage::Over { ok: false }
                };
            },
            SessionStage::StartingReader => {
                self.reader = done;
                self.stage = SessionStage::SendingInitial;
            },
            SessionStage::SendingInitial => {
                self.stage = SessionStage::SettingSink;
            },
            SessionStage::SettingSink => {
                self.stage = SessionStage::Receiving;
            },
            SessionStage::Receiving => {
                self.stage =
                match event {
                    SessionEvent::Received(Some((id, Request::Window { id: window, request }))) => {
                        match backends.handle_window_event(window, request) {
                            WindowOutcome::Reply(success) => SessionStage::Replying {
                                id,
                                success,
                            },
                            WindowOutcome::OpenSurface { handle } => SessionStage::Opening {
                                id,
                                window,
                                handle,
                            },
                        }
                    },
                    _ => SessionStage::ClearingSink { ok: true },
                };
            },
            SessionStage::Opening { id, window, .. } => {
                let opened: Result<OverlaySurface, ()> = match event {
                    SessionEvent::Opened(Some(surface)) => Ok(surface),
                    _ => Err(()),
                };
                let success = backends.surface_opened(window, opened);
                self.stage = SessionStage::Replying { id, success };
            },
            SessionStage::Replying { .. } => {
                self.stage =
                if done {
                    SessionStage::Receiving
                } else {
                    SessionStage::ClearingSink { ok: false }
                };
            },
            SessionStage::ClearingSink { ok } => {
                backends.cleanup_backends();
                self.stage =
                if self.reader {
                    SessionStage::StoppingReader { ok }
                } else {
                    SessionStage::Over { ok }
                };
            },
            SessionStage::StoppingReader { ok } => {
                self.reader = false;
                self.stage = SessionStage::Over { ok };
            },
            SessionStage::Over { .. } => {},
        }
    }
}

/// A request is answered under its own number before the next one is received: at once, or after
/// a surface was opened for it.
pub proof fn law_request_answered(
    session: Session,
    backends: Map<u32, WindowBackend>,
    id: u32,
    request: Request,
    opened: Option<OverlaySurface>,
)
    requires
        session.stage is Receiving,
    ensures
        ({
            let event = SessionEvent::Received(Some((id, request)));
            let next = session.told(backends, event);
            let windows = session.backends_after(backends, event);
            match next.asks() {
                SessionAction::Reply { id: answered, .. } => answered == id,
                SessionAction::OpenSurface { .. } => match next.told(
                    windows,
                    SessionEvent::Opened(opened),
                ).asks() {
                    SessionAction::Reply { id: answered, success } => answered == id && success
                        == opened is Some,
                    _ => false,
                },
                _ => false,
            }
        }),
{
}

/// A request to a window that is not known is answered that it was not met, and changes nothing.
pub proof fn law_unknown_window_refused(
    session: Session,
    backends: Map<u32, WindowBackend>,
    id: u32,
    request: Request,
)
    requires
        session.stage is Receiving,
        !backends.dom().contains(request->id),
    ensures
        ({
            let event = SessionEvent::Received(Some((id, request)));
            &&& session.told(backends, event).asks() == (SessionAction::Reply {
                id,
                success: false,
            })
            &&& session.backends_after(backends, event) == backends
        }),
{
}

/// The session and the windows after `events`.
pub open spec fn session_run(
    start: Session,
    backends: Map<u32, WindowBackend>,
    events: Seq<SessionEvent>,
) -> (Session, Map<u32, WindowBackend>)
    decreases events.len(),
{
    if events.len() == 0 {
        (start, backends)
    } else {
        let (session, windows) = session_run(start, backends, events.drop_last());
        (session.told(windows, events.last()), session.backends_after(windows, events.last()))
    }
}

/// Whether each of `events` answers what was to be done.
pub open spec fn session_awaits(
    start: Session,
    backends: Map<u32, WindowBackend>,
    events: Seq<SessionEvent>,
) -> bool
    decreases events.len(),
{
    events.len() == 0 || (session_awaits(start, backends, events.drop_last()) && session_run(
        start,
        backends,
        events.drop_last(),
    ).0.awaits(events.last()))
}

/// Whether what clients asked of the windows is gone.
pub open spec fn nothing_asked(backends: Map<u32, WindowBackend>) -> bool {
    forall|id: u32| #[trigger]
        backends.dom().contains(id) ==> backends[id] == backends[id].cleared()
}

/// However a session ends, no reader is left running, and nothing that the client asked of the
/// windows is left; the windows themselves are the same as before. A session that never came
/// about has asked nothing.
pub proof fn law_session_cleans_up(
    backends: Map<u32, WindowBackend>,
    events: Seq<SessionEvent>,
)
    requires
        nothing_asked(backends),
        session_awaits(
            Session { reader: false, stage: SessionStage::Handshaking },
            backends,
            events,
        ),
    ensures
        ({
            let (session, windows) = session_run(
                Session { reader: false, stage: SessionStage::Handshaking },
                backends,
                events,
            );
            &&& windows.dom() == backends.dom()
            &&& session.asks() is Finish ==> !session.reader && nothing_asked(windows)
        }),
{
    lemma_session(backends, events);
}

proof fn lemma_session(backends: Map<u32, WindowBackend>, events: Seq<SessionEvent>)
    requires
        nothing_asked(backends),
        session_awaits(
            Session { reader: false, stage: SessionStage::Handshaking },
            backends,
            events,
        ),
    ensures
        ({
            let (session, windows) = session_run(
                Session { reader: false, stage: SessionStage::Handshaking },
                backends,
                events,
            );
            &&& windows.dom() == backends.dom()
            &&& match session.stage {
                SessionStage::Handshaking => !session.reader && nothing_asked(windows),
                SessionStage::StartingReader => !session.reader,
                SessionStage::StoppingReader { .. } => nothing_asked(windows),
                SessionStage::Over { .. } => !session.reader && nothing_asked(windows),
                _ => true,
            }
        }),
    decreases events.len(),
{
    if events.len() > 0 {
        let start = Session { reader: false, stage: SessionStage::Handshaking };
        let (session, windows) = session_run(start, backends, events.drop_last());
        lemma_session(backends, events.drop_last());
        assert(session.backends_after(windows, events.last()).dom() =~= windows.dom());
        if session.stage is ClearingSink {
            let after = all_cleared(windows);
            assert forall|id: u32| #[trigger] after.dom().contains(id) implies after[id]
                == after[id].cleared() by {
                assert(after[id] == windows[id].cleared());
            }
        }
    }
}

/// How far the listening for clients has come, and so what to do next. It has no end.
#[derive(Debug, Clone, Copy, PartialEq, Eq, Structural)]
pub enum Listener {
    /// Wait for a client.
    Accept,
    /// Serve the client until its session is over.
    Serve,
    /// Make another server.
    CreateServer,
    /// Sleep for a number of milliseconds.
    Sleep(u64),
}

impl Listener {
    /// What comes after what was to be done was done, or failed.
    pub open spec fn next(self, done: bool) -> Listener {
        match self {
            Listener::Accept => if done {
                Listener::Serve
            } else {
                Listener::CreateServer
            },
            Listener::Serve => Listener::CreateServer,
            Listener::CreateServer => if done {
                Listener::Accept
            } else {
                Listener::Sleep(SERVER_RETRY_MS)
            },
            Listener::Sleep(_) => Listener::CreateServer,
        }
    }

    /// Tells whether what was to be done was done.
    pub fn advance(&mut self, done: bool)
        ensures
            *final(self) == old(self).next(done),
    {
        *self =
        match *self {
            Listener::Accept => if done {
                Listener::Serve
            } else {
                Listener::CreateServer
            },
            Listener::Serve => Listener::CreateServer,
            Listener::CreateServer => if done {
                Listener::Accept
            } else {
                Listener::Sleep(SERVER_RETRY_MS)
            },
            Listener::Sleep(_) => Listener::CreateServer,
        };
    }
}

/// Begins to listen for clients, with a server that was made.
pub fn run_server() -> (r: Listener)
    ensures
        r == Listener::Accept,
{
    Listener::Accept
}

/// Whatever became of a client, a new server is made before the next one is waited for; where
/// that fails it is tried again after a pause.
pub proof fn law_server_per_client(served: bool, slept: bool)
    ensures
        Listener::Accept.next(false) == Listener::CreateServer,
        Listener::Accept.next(true).next(served) == Listener::CreateServer,
        Listener::CreateServer.next(true) == Listener::Accept,
        Listener::CreateServer.next(false) == Listener::Sleep(SERVER_RETRY_MS),
        Listener::CreateServer.next(false).next(slept) == Listener::CreateServer,
{
}

/// How far the start of the overlay has come, and so what to do next.
#[derive(Debug, Clone, Copy, PartialEq, Eq, Structural)]
pub enum Startup {
    CreateRuntime,
    /// Make a server, which is the first under its name or not.
    CreateServer { first: bool },
    /// Hook the system's functions.
    Initialize,
    /// Listen for clients.
    Listen,
    /// There is no overlay. The program goes on without one.
    Inert,
}

impl Startup {
    /// What comes after what was to be done was done, or failed.
    pub open spec fn next(self, done: bool) -> Startup {
        if !done {
            match self {
                Startup::Listen => Startup::Listen,
                _ => Startup::Inert,
            }
        } else {
            match self {
                Startup::CreateRuntime => Startup::CreateServer { first: true },
                Startup::CreateServer { .. } => Startup::Initialize,
                Startup::Initialize => Startup::Listen,
                over => over,
            }
        }
    }

    /// Tells whether what was to be done was done.
    pub fn advance(&mut self, done: bool)
        ensures
            *final(self) == old(self).next(done),
    {
        *self =
        match *self {
            Startup::Listen => Startup::Listen,
            _ if !done => Startup::Inert,
            Startup::CreateRuntime => Startup::CreateServer { first: true },
            Startup::CreateServer { .. } => Startup::Initialize,
            Startup::Initialize => Startup::Listen,
            Startup::Inert => Startup::Inert,
        };
    }
}

/// Begins to start the overlay.
pub fn start_overlay() -> (r: Startup)
    ensures
        r == Startup::CreateRuntime,
{
    Startup::CreateRuntime
}

/// A call of the message hook, as the system made it.
#[derive(Debug, Clone, Copy, PartialEq, Eq, Structural)]
pub struct HookMessage {
    pub code: i32,
    pub wparam: usize,
    pub lparam: isize,
}

/// How far the answer to a call of the message hook has come, and so what to do next.
#[derive(Debug, Clone, Copy, PartialEq, Eq, Structural)]
pub enum HookStage {
    /// Pin this module, so that it outlives the hook, and find its handle.
    PinModule,
    /// Start the overlay of the module.
    StartOverlay { module: usize },
    /// Pass the call on to the next hook.
    CallNext(HookMessage),
    /// Return the result.
    Return(isize),
}

/// What came of it.
#[derive(Debug, Clone, Copy, PartialEq, Eq, Structural)]
pub enum HookReply {
    /// The module's handle, or zero where it was not found.
    Module(usize),
    Started,
    /// What the next hook returned.
    Result(isize),
}

/// The answer to a call of the message hook.
#[derive(Debug, Clone, Copy, PartialEq, Eq, Structural)]
pub struct HookCall {
    pub message: HookMessage,
    pub stage: HookStage,
}

impl HookCall {
    /// Whether `reply` is what came of what was to be done.
    pub open spec fn awaits(self, reply: HookReply) -> bool {
        match self.stage {
            HookStage::PinModule => reply is Module,
            HookStage::StartOverlay { .. } => reply is Started,
            HookStage::CallNext(_) => reply is Result,
            HookStage::Return(_) => false,
        }
    }

    /// What comes after `reply`. The overlay is started even where the module was not pinned.
    pub open spec fn next(self, reply: HookReply) -> HookStage {
        match (self.stage, reply) {
            (HookStage::PinModule, HookReply::Module(module)) => HookStage::StartOverlay { module },
            (HookStage::StartOverlay { .. }, _) => HookStage::CallNext(self.message),
            (HookStage::CallNext(_), HookReply::Result(result)) => HookStage::Return(result),
            (stage, _) => stage,
        }
    }

    /// Tells what came of what was to be done.
    pub fn advance(&mut self, reply: HookReply)
        requires
            old(self).awaits(reply),
        ensures
            *final(self) == (HookCall { stage: old(self).next(reply), ..*old(self) }),
    {
        self.stage =
        match (self.stage, reply) {
            (HookStage::PinModule, HookReply::Module(module)) => HookStage::StartOverlay { module },
            (HookStage::StartOverlay { .. }, _) => HookStage::CallNext(self.message),
            (HookStage::CallNext(_), HookReply::Result(result)) => HookStage::Return(result),
            (stage, _) => stage,
        };
    }
}

/// Whether the overlay was started in this process.
#[derive(Debug, Clone, Copy, PartialEq, Eq, Structural)]
pub struct HookProc {
    pub started: bool,
}

/// The answer to a call of the message hook, at its beginning.
pub open spec fn hook_call(proc: HookProc, message: HookMessage) -> HookCall {
    HookCall {
        message,
        stage: if proc.started {
            HookStage::CallNext(message)
        } else {
            HookStage::PinModule
        },
    }
}

impl HookProc {
    /// The hook was not called yet.
    pub fn new() -> (r: HookProc)
        ensures
            !r.started,
    {
        HookProc { started: false }
    }

    /// The hook is called. At the first call the overlay is started; every call is passed on.
    pub fn msg_hook_proc(&mut self, message: HookMessage) -> (r: HookCall)
        ensures
            r == hook_call(*old(self), message),
            final(self).started,
    {
        let stage = if self.started {
            HookStage::CallNext(message)
        } else {
            HookStage::PinModule
        };
        self.started = true;
        HookCall { message, stage }
    }
}

/// The answer after `replies`.
pub open spec fn hook_run(start: HookCall, replies: Seq<HookReply>) -> HookCall
    decreases replies.len(),
{
    if replies.len() == 0 {
        start
    } else {
        let call = hook_run(start, replies.drop_last());
        HookCall { stage: call.next(replies.last()), ..call }
    }
}

/// Whether each of `replies` is what came of what was to be done.
pub open spec fn hook_awaits(start: HookCall, replies: Seq<HookReply>) -> bool
    decreases replies.len(),
{
    replies.len() == 0 || (hook_awaits(start, replies.drop_last()) && hook_run(
        start,
        replies.drop_last(),
    ).awaits(replies.last()))
}

/// How often a call was passed on.
pub open spec fn passed_on(start: HookCall, replies: Seq<HookReply>) -> nat
    decreases replies.len(),
{
    if replies.len() == 0 {
        0
    } else if hook_run(start, replies.drop_last()).stage is CallNext {
        passed_on(start, replies.drop_last()) + 1
    } else {
        passed_on(start, replies.drop_last())
    }
}

/// A call is passed on once, with its own three arguments, and what the next hook returned is
/// returned. Before that, a first call has the module pinned and then the overlay started with
/// the module that was found; any other call has neither.
pub proof fn law_hook_call_passed_on(
    proc: HookProc,
    message: HookMessage,
    replies: Seq<HookReply>,
)
    requires
        hook_awaits(hook_call(proc, message), replies),
    ensures
        ({
            let start = hook_call(proc, message);
            let n = replies.len() as int;
            match hook_run(start, replies).stage {
                HookStage::PinModule => !proc.started && n == 0,
                HookStage::StartOverlay { module } => !proc.started && n == 1 && replies[0]
                    == HookReply::Module(module),
                HookStage::CallNext(passed) => passed == message && n == (if proc.started {
                    0int
                } else {
                    2int
                }) && passed_on(start, replies) == 0,
                HookStage::Return(result) => n == (if proc.started {
                    1int
                } else {
                    3int
                }) && replies.last() == HookReply::Result(result) && passed_on(start, replies) == 1,
            }
        }),
        !(hook_run(hook_call(proc, message), replies).stage is Return) ==> passed_on(
            hook_call(proc, message),
            replies,
        ) == 0,
        hook_run(hook_call(proc, message), replies).message == message,
    decreases replies.len(),
{
    if replies.len() > 0 {
        law_hook_call_passed_on(proc, message, replies.drop_last());
    }
}

/// The answers to calls of the hook, at their beginning, in the order of the calls.
pub open spec fn hook_calls(proc: HookProc, messages: Seq<HookMessage>) -> Seq<HookCall>
    decreases messages.len(),
{
    if messages.len() == 0 {
        Seq::empty()
    } else {
        seq![hook_call(proc, messages[0])] + hook_calls(
            HookProc { started: true },
            messages.drop_first(),
        )
    }
}

/// However often the hook is called, the module is pinned and the overlay started by the first
/// call alone, and every call is answered with its own message.
pub proof fn law_started_by_first_call(proc: HookProc, messages: Seq<HookMessage>)
    ensures
        hook_calls(proc, messages).len() == messages.len(),
        forall|i: int|
            0 <= i < messages.len() ==> {
                let call = #[trigger] hook_calls(proc, messages)[i];
                &&& call.message == messages[i]
                &&& call.stage == if i == 0 && !proc.started {
                    HookStage::PinModule
                } else {
                    HookStage::CallNext(messages[i])
                }
            },
    decreases messages.len(),
{
    if messages.len() > 0 {
        let rest = messages.drop_first();
        let later = HookProc { started: true };
        law_started_by_first_call(later, rest);
        assert forall|i: int| 0 <= i < messages.len() implies {
            let call = #[trigger] hook_calls(proc, messages)[i];
            &&& call.message == messages[i]
            &&& call.stage == if i == 0 && !proc.started {
                HookStage::PinModule
            } else {
                HookStage::CallNext(messages[i])
            }
        } by {
            if i > 0 {
                assert(hook_calls(proc, messages)[i] == hook_calls(later, rest)[i - 1]);
            }
        }
    }
}

/// What a session does next follows from what it did and what happened: it serves a client that
/// connected, goes on receiving as long as its answers arrive, and ends well where the client has
/// gone and badly where an answer did not arrive. A reader is stopped exactly where one runs.
pub proof fn law_session_leads_on(
    session: Session,
    backends: Map<u32, WindowBackend>,
    event: SessionEvent,
)
    requires
        session.awaits(event),
    ensures
        ({
            let after = session.told(backends, event);
            let then = after.asks();
            let windows = session.backends_after(backends, event);
            let done = event == SessionEvent::Done(true);
            &&& match session.asks() {
                SessionAction::Handshake => then == (if done {
                    SessionAction::StartReader
                } else {
                    SessionAction::Finish { ok: false }
                }),
                SessionAction::StartReader => then == SessionAction::EmitInitial && after.reader
                    == done,
                SessionAction::EmitInitial => then == SessionAction::SetSink,
                SessionAction::SetSink => then == SessionAction::Receive,
                SessionAction::Receive => match event {
                    SessionEvent::Received(Some((id, Request::Window { id: window, request }))) => {
                        match request_outcome(backends, window, request) {
                            WindowOutcome::Reply(success) => then == SessionAction::Reply {
                                id,
                                success,
                            },
                            WindowOutcome::OpenSurface { handle } => then
                                == SessionAction::OpenSurface { window, handle },
                        }
                    },
                    _ => then is ClearSink,
                },
                SessionAction::OpenSurface { window, .. } => match (event, then) {
                    (SessionEvent::Opened(opened), SessionAction::Reply { success, .. }) => success
                        <==> opened is Some && backends.dom().contains(window),
                    _ => false,
                },
                SessionAction::Reply { .. } => if done {
                    then == SessionAction::Receive
                } else {
                    then == SessionAction::ClearSink
                },
                SessionAction::ClearSink => if session.reader {
                    then == SessionAction::StopReader
                } else {
                    then is Finish
                },
                SessionAction::StopReader => then is Finish && !after.reader,
                SessionAction::Finish { .. } => false,
            }
            &&& !(session.asks() is StartReader || session.asks() is StopReader) ==> after.reader
                == session.reader
            &&& match (session.asks(), event) {
                (
                    SessionAction::Receive,
                    SessionEvent::Received(Some((_, Request::Window { id, request }))),
                ) => windows == after_request(backends, id, request),
                (SessionAction::OpenSurface { window, .. }, SessionEvent::Opened(opened)) => {
                    windows == after_open(backends, window, opened)
                },
                (SessionAction::ClearSink, _) => windows == all_cleared(backends),
                _ => windows == backends,
            }
        }),
{
}

/// A session whose client has gone ends well, and one whose answer did not arrive ends badly, be
/// there a reader to stop or not.
pub proof fn law_session_ends(
    session: Session,
    backends: Map<u32, WindowBackend>,
    event: SessionEvent,
    cleared: bool,
    stopped: bool,
)
    requires
        session.awaits(event),
        session.told(backends, event).asks() is ClearSink,
    ensures
        ({
            let ok = event == SessionEvent::Received(None);
            let clearing = session.told(backends, event);
            let next = clearing.told(backends, SessionEvent::Done(cleared));
            &&& !ok ==> event == SessionEvent::Done(false) && session.asks() is Reply
            &&& clearing.reader ==> next.told(backends, SessionEvent::Done(stopped)).asks() == (
            SessionAction::Finish { ok })
            &&& !clearing.reader ==> next.asks() == (SessionAction::Finish { ok })
        }),
{
}

/// The overlay starts in a fixed order, the first failure leaves the program without one, and one
/// that listens goes on listening.
pub proof fn law_startup_leads_on(first: bool, done: bool)
    ensures
        Startup::CreateRuntime.next(true) == (Startup::CreateServer { first: true }),
        (Startup::CreateServer { first }).next(true) == Startup::Initialize,
        Startup::Initialize.next(true) == Startup::Listen,
        Startup::CreateRuntime.next(false) == Startup::Inert,
        (Startup::CreateServer { first }).next(false) == Startup::Inert,
        Startup::Initialize.next(false) == Startup::Inert,
        Startup::Listen.next(done) == Startup::Listen,
        Startup::Inert.next(done) == Startup::Inert,
{
}

/// A server that could not be made is tried again after five seconds.
pub proof fn law_server_retried(ms: u64, done: bool)
    ensures
        Listener::CreateServer.next(false) == Listener::Sleep(5000),
        Listener::Sleep(ms).next(done) == Listener::CreateServer,
{
}

} // verus!
