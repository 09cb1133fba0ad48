//! Installing the overlay hook in another process.
//!
//! An [`Injection`] says what to ask of the system next and is told what came back. It refuses a
//! DLL that is not trusted, and sets the hook only on a thread that was found to still belong to
//! the process it was found in.

use crate::event::texts;
use crate::signature::Untrusted;
use crate::text::{append_decimal, decimal, duration_debug, duration_text};
use core::time::Duration;
use vstd::prelude::*;
use vstd::string::StringExecFns;

verus! {

/// Machine type of a process that does not run under emulation.
pub const MACHINE_UNKNOWN: u16 = 0;

pub const MACHINE_I386: u16 = 0x014c;

pub const MACHINE_AMD64: u16 = 0x8664;

pub const MACHINE_ARM64: u16 = 0xaa64;

/// Exit code of a process that is still running.
pub const STILL_ACTIVE: u32 = 259;

/// Access to a process that is granted even on protected ones.
pub const PROCESS_QUERY_LIMITED_INFORMATION: u32 = 0x1000;

/// Access to a thread that tells its process.
pub const THREAD_QUERY_LIMITED_INFORMATION: u32 = 0x800;

/// A hook that is called for each message that a thread gets.
pub const HOOK_GET_MESSAGE: i32 = 3;

/// A message that says nothing.
pub const MESSAGE_NULL: u32 = 0;

/// How long to wait before looking for the target's window again, in milliseconds.
pub const GUI_THREAD_POLL_MS: u64 = 100;

/// Paths to overlay DLLs for different architectures.
#[derive(Debug, Clone, Copy)]
pub struct OverlayDll<P> {
    /// Path to DLL to be used for x64 applications.
    pub x64: Option<P>,
    /// Path to DLL to be used for x86 applications.
    pub x86: Option<P>,
    /// Path to DLL to be used for ARM64 applications.
    pub arm64: Option<P>,
}

impl<P> Default for OverlayDll<P> {
    fn default() -> (r: OverlayDll<P>)
        ensures
            r == (OverlayDll::<P> { x64: None, x86: None, arm64: None }),
    {
        OverlayDll { x64: None, x86: None, arm64: None }
    }
}

/// Architecture that a DLL path can be missing for.
#[derive(Debug, Clone, Copy, PartialEq, Eq, Structural)]
pub enum Arch {
    X64,
    X86,
    Arm64,
}

/// The creation time of a process could not be read.
#[derive(Debug, Clone, Copy, PartialEq, Eq, Structural)]
pub enum CreationTimeError {
    /// The process cannot be opened.
    Unreachable,
    /// The system did not tell.
    Failed,
}

/// The thread is not, or no longer, one of the target.
#[derive(Debug, Clone, Copy, PartialEq, Eq, Structural)]
pub enum IdentityError {
    ThreadGone,
    OwnerUnknown,
    OwnerChanged { owner: u32, pid: u32 },
    CreationTime(CreationTimeError),
    Recycled { pid: u32 },
}

/// Why the hook was not installed.
#[derive(Debug, Clone, Copy, PartialEq, Eq)]
pub enum InjectError {
    /// The target cannot be opened.
    Unreachable,
    /// The target runs on another architecture than the injector.
    CrossArch { injector: u16, target: u16 },
    /// No DLL is known for the architecture.
    DllMissing(Arch),
    UnsupportedArch(u16),
    /// The DLL is not trusted.
    Untrusted(Untrusted),
    /// The DLL cannot be loaded.
    LoadLibrary,
    /// The DLL has no hook procedure.
    ExportMissing,
    /// The system did not tell whether the target runs.
    ExitCode,
    /// The target exited before it had a window.
    Exited { pid: u32 },
    TimedOut { pid: u32, timeout: Duration },
    /// The target's creation time is unknown.
    Discovery(CreationTimeError),
    /// The target changed after it was found.
    Changed(IdentityError),
    /// The system refused the hook.
    SetHook,
}

/// What the system tells of a process' exit.
#[derive(Debug, Clone, Copy, PartialEq, Eq, Structural)]
pub enum ExitQuery {
    /// The process cannot be opened.
    Unreachable,
    /// The system did not tell.
    Failed,
    Code(u32),
}

/// What the system tells of a process' creation.
#[derive(Debug, Clone, Copy, PartialEq, Eq, Structural)]
pub enum TimesQuery {
    /// The process cannot be opened.
    Unreachable,
    /// The system did not tell.
    Failed,
    /// The two halves of the creation time.
    Created { low: u32, high: u32 },
}

/// What came back from the system.
#[derive(Debug, Clone, Copy, PartialEq, Eq, Structural)]
pub enum Reply {
    /// The emulated machine, if any, and the native one.
    Machine { wow64: u16, native: u16 },
    /// The target cannot be opened.
    Unreachable,
    /// The DLL is signed and trusted.
    Trusted,
    Untrusted(Untrusted),
    /// Whether the call succeeded.
    Done(bool),
    /// Thread of a visible window of the target.
    Window(Option<u32>),
    Exit(ExitQuery),
    /// The clock runs.
    ClockStarted,
    /// Whether the deadline has passed.
    Deadline(bool),
    Slept,
    Times(TimesQuery),
    /// Process that owns the thread, or zero.
    Owner(u32),
    Closed,
    Posted,
}

/// What to ask of the system.
#[derive(Debug)]
pub enum Action<P> {
    QueryInjectorMachine,
    /// Open the target with an access right, and ask for its machine.
    QueryTargetMachine { pid: u32, access: u32 },
    /// Verify that the DLL is signed and trusted.
    Verify(P),
    LoadLibrary(P),
    FindExport,
    /// Set the deadline: the timeout from now on.
    StartClock(Duration),
    /// Look for a visible top-level window of the target.
    FindWindow { pid: u32 },
    /// Open the target with an access right, and ask for its exit code.
    QueryExit { pid: u32, access: u32 },
    /// See whether the deadline has passed.
    ReadClock,
    /// Sleep for a number of milliseconds.
    Sleep(u64),
    /// Open the target with an access right, and ask for its creation time.
    QueryTimes { pid: u32, access: u32 },
    OpenThread { thread: u32, access: u32 },
    QueryOwner,
    /// Close the thread that was opened.
    CloseThread,
    /// Set the hook procedure of the DLL as a hook of a thread.
    SetHook { thread: u32, kind: i32 },
    /// Post a message without arguments to a thread.
    Post { thread: u32, message: u32 },
    /// Nothing more: the injection is over.
    Finish(Result<(), InjectError>),
}

/// How far an injection has come.
#[derive(Debug)]
pub enum Stage<P> {
    InjectorMachine,
    TargetMachine { current: u16 },
    Verifying { path: P },
    Loading { path: P },
    FindingExport,
    StartingClock { timeout: Duration },
    FindingWindow,
    CheckingExit,
    CheckingDeadline { timeout: Duration },
    Pausing,
    Discovered { thread: u32 },
    OpeningThread { thread: u32, created: u64 },
    CheckingOwner { thread: u32, created: u64 },
    Rechecking { thread: u32, created: u64 },
    ClosingThread { thread: u32, error: Option<IdentityError> },
    Hooking { thread: u32 },
    Nudging { thread: u32 },
    Installed,
    Failed(InjectError),
}

/// An injection in progress.
#[derive(Debug)]
pub struct Injection<P> {
    pub pid: u32,
    pub dll: OverlayDll<P>,
    pub timeout: Option<Duration>,
    pub stage: Stage<P>,
}

/// The machine a process was built for: the emulated one where there is one.
pub open spec fn machine(wow64: u16, native: u16) -> u16 {
    if wow64 != MACHINE_UNKNOWN {
        wow64
    } else {
        native
    }
}

/// Get the architecture of a process (resolving WOW64).
pub fn process_arch(wow64: u16, native: u16) -> (r: u16)
    ensures
        r == machine(wow64, native),
{
    if wow64 != MACHINE_UNKNOWN {
        wow64
    } else {
        native
    }
}

/// The DLL for the injector's machine `current` and the target's machine `target`.
pub open spec fn dll_for<P>(current: u16, target: u16, dll: OverlayDll<P>) -> Result<
    P,
    InjectError,
> {
    if target != current {
        Err(InjectError::CrossArch { injector: current, target })
    } else if current == MACHINE_AMD64 {
        match dll.x64 {
            Some(path) => Ok(path),
            None => Err(InjectError::DllMissing(Arch::X64)),
        }
    } else if current == MACHINE_ARM64 {
        match dll.arm64 {
            Some(path) => Ok(path),
            None => Err(InjectError::DllMissing(Arch::Arm64)),
        }
    } else if current == MACHINE_I386 {
        match dll.x86 {
            Some(path) => Ok(path),
            None => Err(InjectError::DllMissing(Arch::X86)),
        }
    } else {
        Err(InjectError::UnsupportedArch(current))
    }
}

/// Picks the DLL to inject. Only a target of the injector's own architecture can be injected.
pub fn select_dll<P>(current: u16, target: u16, dll: OverlayDll<P>) -> (r: Result<P, InjectError>)
    ensures
        r == dll_for(current, target, dll),
{
    if target != current {
        return Err(InjectError::CrossArch { injector: current, target });
    }
    match current {
        MACHINE_AMD64 => dll.x64.ok_or(InjectError::DllMissing(Arch::X64)),
        MACHINE_ARM64 => dll.arm64.ok_or(InjectError::DllMissing(Arch::Arm64)),
        MACHINE_I386 => dll.x86.ok_or(InjectError::DllMissing(Arch::X86)),
        arch => Err(InjectError::UnsupportedArch(arch)),
    }
}

/// Flattens the two halves of a file time into a single tick count.
pub fn filetime_to_u64(low: u32, high: u32) -> (r: u64)
    ensures
        r == high * 0x1_0000_0000 + low,
{
    proof {
        let (h, l) = (high as u64, low as u64);
        assert((h << 32) | l == h * 0x1_0000_0000 + l) by (bit_vector)
            requires
                h <= 0xffff_ffffu64,
                l <= 0xffff_ffffu64,
        ;
    }
    ((high as u64) << 32) | (low as u64)
}

/// The creation time that a query gave.
pub open spec fn creation_time(query: TimesQuery) -> Result<u64, CreationTimeError> {
    match query {
        TimesQuery::Unreachable => Err(CreationTimeError::Unreachable),
        TimesQuery::Failed => Err(CreationTimeError::Failed),
        TimesQuery::Created { low, high } => Ok((high * 0x1_0000_0000 + low) as u64),
    }
}

/// Reads the creation time of a process, which with its pid identifies it: pids are reused.
pub fn process_creation_time(query: TimesQuery) -> (r: Result<u64, CreationTimeError>)
    ensures
        r == creation_time(query),
{
    match query {
        TimesQuery::Unreachable => Err(CreationTimeError::Unreachable),
        TimesQuery::Failed => Err(CreationTimeError::Failed),
        TimesQuery::Created { low, high } => Ok(filetime_to_u64(low, high)),
    }
}

/// Whether a process runs. One that can no longer be opened is gone.
pub fn process_is_alive(query: ExitQuery) -> (r: Result<bool, InjectError>)
    ensures
        r == (match query {
            ExitQuery::Unreachable => Ok::<bool, InjectError>(false),
            ExitQuery::Failed => Err(InjectError::ExitCode),
            ExitQuery::Code(code) => Ok(code == STILL_ACTIVE),
        }),
{
    match query {
        ExitQuery::Unreachable => Ok(false),
        ExitQuery::Failed => Err(InjectError::ExitCode),
        ExitQuery::Code(code) => Ok(code == STILL_ACTIVE),
    }
}

/// A top-level window: the thread it belongs to (zero if the window is gone), that thread's
/// process, and whether the window shows.
#[derive(Debug, Clone, Copy, PartialEq, Eq, Structural)]
pub struct TopWindow {
    pub thread: u32,
    pub pid: u32,
    pub visible: bool,
}

impl TopWindow {
    /// Whether the window is one that process `pid` shows.
    pub open spec fn shown_by(self, pid: u32) -> bool {
        self.thread != 0 && self.pid == pid && self.visible
    }
}

/// A search for a thread of a process that owns a visible top-level window.
#[derive(Debug, Clone, Copy, PartialEq, Eq, Structural)]
pub struct FindThread {
    pub pid: u32,
    pub thread: u32,
}

impl FindThread {
    /// A search that has seen no window.
    pub fn new(pid: u32) -> (r: FindThread)
        ensures
            r == (FindThread { pid, thread: 0 }),
    {
        FindThread { pid, thread: 0 }
    }

    /// The search after one more window.
    pub open spec fn after(self, window: TopWindow) -> FindThread {
        if window.shown_by(self.pid) {
            FindThread { thread: window.thread, ..self }
        } else {
            self
        }
    }

    /// The search after `windows`, which ends at the first that matches.
    pub open spec fn over(self, windows: Seq<TopWindow>) -> FindThread
        decreases windows.len(),
    {
        if windows.len() == 0 {
            self
        } else if windows[0].shown_by(self.pid) {
            self.after(windows[0])
        } else {
            self.after(windows[0]).over(windows.drop_first())
        }
    }

    /// Looks at one window. Says whether the search goes on.
    pub fn visit(&mut self, window: TopWindow) -> (go_on: bool)
        ensures
            *final(self) == old(self).after(window),
            go_on == !window.shown_by(old(self).pid),
    {
        if window.thread != 0 && window.pid == self.pid && window.visible {
            self.thread = window.thread;
            return false;
        }
        true
    }

    /// The thread that was found.
    pub fn found(&self) -> (r: Option<u32>)
        ensures
            r == (if self.thread != 0 {
                Some(self.thread)
            } else {
                None
            }),
    {
        if self.thread != 0 {
            Some(self.thread)
        } else {
            None
        }
    }
}

/// A search over the top-level windows finds the thread of the first one that the process shows,
/// and finds nothing exactly where it shows none.
pub proof fn law_first_window(pid: u32, windows: Seq<TopWindow>)
    ensures
        ({
            let found = (FindThread { pid, thread: 0 }).over(windows).thread;
            if found == 0 {
                forall|i: int|
                    0 <= i < windows.len() ==> !(#[trigger] windows[i]).shown_by(pid)
            } else {
                exists|i: int|
                    {
                        &&& 0 <= i < windows.len()
                        &&& (#[trigger] windows[i]).shown_by(pid)
                        &&& windows[i].thread == found
                        &&& forall|j: int| 0 <= j < i ==> !(#[trigger] windows[j]).shown_by(pid)
                    }
            }
        }),
    decreases windows.len(),
{
    if windows.len() > 0 && !windows[0].shown_by(pid) {
        let rest = windows.drop_first();
        law_first_window(pid, rest);
        let found = (FindThread { pid, thread: 0 }).over(windows).thread;
        if found == 0 {
            assert forall|i: int| 0 <= i < windows.len() implies !(
            #[trigger] windows[i]).shown_by(pid) by {
                if i > 0 {
                    assert(rest[i - 1] == windows[i]);
                }
            }
        } else {
            let k = choose|i: int|
                {
                    &&& 0 <= i < rest.len()
                    &&& (#[trigger] rest[i]).shown_by(pid)
                    &&& rest[i].thread == found
                    &&& forall|j: int| 0 <= j < i ==> !(#[trigger] rest[j]).shown_by(pid)
                };
            assert(windows[k + 1] == rest[k]);
            assert forall|j: int| 0 <= j < k + 1 implies !(#[trigger] windows[j]).shown_by(
                pid,
            ) by {
                if j > 0 {
                    assert(rest[j - 1] == windows[j]);
                }
            }
        }
    }
}

impl<P: Copy> Injection<P> {
    /// Whether `reply` answers what the injection asks.
    pub open spec fn awaits(self, reply: Reply) -> bool {
        match self.stage {
            Stage::InjectorMachine => reply is Machine,
            Stage::TargetMachine { .. } => reply is Machine || reply is Unreachable,
            Stage::Verifying { .. } => reply is Trusted || reply is Untrusted,
            Stage::Loading { .. } => reply is Done,
            Stage::FindingExport => reply is Done,
            Stage::StartingClock { .. } => reply is ClockStarted,
            Stage::FindingWindow => reply is Window,
            Stage::CheckingExit => reply is Exit,
            Stage::CheckingDeadline { .. } => reply is Deadline,
            Stage::Pausing => reply is Slept,
            Stage::Discovered { .. } => reply is Times,
            Stage::OpeningThread { .. } => reply is Done,
            Stage::CheckingOwner { .. } => reply is Owner,
            Stage::Rechecking { .. } => reply is Times,
            Stage::ClosingThread { .. } => reply is Closed,
            Stage::Hooking { .. } => reply is Done,
            Stage::Nudging { .. } => reply is Posted,
            Stage::Installed => false,
            Stage::Failed(_) => false,
        }
    }

    /// What the injection asks for.
    pub open spec fn asks(self) -> Action<P> {
        match self.stage {
            Stage::InjectorMachine => Action::QueryInjectorMachine,
            Stage::TargetMachine { .. } => Action::QueryTargetMachine {
                pid: self.pid,
                access: PROCESS_QUERY_LIMITED_INFORMATION,
            },
            Stage::Verifying { path } => Action::Verify(path),
            Stage::Loading { path } => Action::LoadLibrary(path),
            Stage::FindingExport => Action::FindExport,
            Stage::StartingClock { timeout } => Action::StartClock(timeout),
            Stage::FindingWindow => Action::FindWindow { pid: self.pid },
            Stage::CheckingExit => Action::QueryExit {
                pid: self.pid,
                access: PROCESS_QUERY_LIMITED_INFORMATION,
            },
            Stage::CheckingDeadline { .. } => Action::ReadClock,
            Stage::Pausing => Action::Sleep(GUI_THREAD_POLL_MS),
            Stage::Discovered { .. } => Action::QueryTimes {
                pid: self.pid,
                access: PROCESS_QUERY_LIMITED_INFORMATION,
            },
            Stage::OpeningThread { thread, .. } => Action::OpenThread {
                thread,
                access: THREAD_QUERY_LIMITED_INFORMATION,
            },
            Stage::CheckingOwner { .. } => Action::QueryOwner,
            Stage::Rechecking { .. } => Action::QueryTimes {
                pid: self.pid,
                access: PROCESS_QUERY_LIMITED_INFORMATION,
            },
            Stage::ClosingThread { .. } => Action::CloseThread,
            Stage::Hooking { thread } => Action::SetHook { thread, kind: HOOK_GET_MESSAGE },
            Stage::Nudging { thread } => Action::Post { thread, message: MESSAGE_NULL },
            Stage::Installed => Action::Finish(Ok(())),
            Stage::Failed(err) => Action::Finish(Err(err)),
        }
    }

    /// Where the injection stands after `reply`.
    pub open spec fn next(self, reply: Reply) -> Stage<P> {
        match (self.stage, reply) {
            (Stage::InjectorMachine, Reply::Machine { wow64, native }) => {
                Stage::TargetMachine { current: machine(wow64, native) }
            },
            (Stage::TargetMachine { current }, Reply::Machine { wow64, native }) => {
                match dll_for(current, machine(wow64, native), self.dll) {
                    Ok(path) => Stage::Verifying { path },
                    Err(err) => Stage::Failed(err),
                }
            },
            (Stage::TargetMachine { .. }, _) => Stage::Failed(InjectError::Unreachable),
            (Stage::Verifying { path }, Reply::Trusted) => Stage::Loading { path },
            (Stage::Verifying { .. }, Reply::Untrusted(err)) => {
                Stage::Failed(InjectError::Untrusted(err))
            },
            (Stage::Loading { .. }, Reply::Done(true)) => Stage::FindingExport,
            (Stage::Loading { .. }, _) => Stage::Failed(InjectError::LoadLibrary),
            (Stage::FindingExport, Reply::Done(true)) => match self.timeout {
                Some(timeout) => Stage::StartingClock { timeout },
                None => Stage::FindingWindow,
            },
            (Stage::FindingExport, _) => Stage::Failed(InjectError::ExportMissing),
            (Stage::StartingClock { .. }, _) => Stage::FindingWindow,
            (Stage::FindingWindow, Reply::Window(Some(thread))) => Stage::Discovered { thread },
            (Stage::FindingWindow, _) => Stage::CheckingExit,
            (Stage::CheckingExit, Reply::Exit(ExitQuery::Failed)) => {
                Stage::Failed(InjectError::ExitCode)
            },
            (Stage::CheckingExit, reply) => {
                if reply != Reply::Exit(ExitQuery::Code(STILL_ACTIVE)) {
                    Stage::Failed(InjectError::Exited { pid: self.pid })
                } else {
                    match self.timeout {
                        Some(timeout) => Stage::CheckingDeadline { timeout },
                        None => Stage::Pausing,
                    }
                }
            },
            (Stage::CheckingDeadline { timeout }, Reply::Deadline(true)) => {
                Stage::Failed(InjectError::TimedOut { pid: self.pid, timeout })
            },
            (Stage::CheckingDeadline { .. }, _) => Stage::Pausing,
            (Stage::Pausing, _) => Stage::FindingWindow,
            (Stage::Discovered { thread }, Reply::Times(query)) => match creation_time(query) {
                Ok(created) => Stage::OpeningThread { thread, created },
                Err(err) => Stage::Failed(InjectError::Discovery(err)),
            },
            (Stage::OpeningThread { thread, created }, Reply::Done(true)) => {
                Stage::CheckingOwner { thread, created }
            },
            (Stage::OpeningThread { .. }, _) => {
                Stage::Failed(InjectError::Changed(IdentityError::ThreadGone))
            },
            (Stage::CheckingOwner { thread, created }, Reply::Owner(owner)) => {
                if owner == 0 {
                    Stage::ClosingThread { thread, error: Some(IdentityError::OwnerUnknown) }
                } else if owner != self.pid {
                    Stage::ClosingThread {
                        thread,
                        error: Some(IdentityError::OwnerChanged { owner, pid: self.pid }),
                    }
                } else {
                    Stage::Rechecking { thread, created }
                }
            },
            (Stage::Rechecking { thread, created }, Reply::Times(query)) => {
                Stage::ClosingThread {
                    thread,
                    error: match creation_time(query) {
                        Err(err) => Some(IdentityError::CreationTime(err)),
                        Ok(now) => if now == created {
                            None
                        } else {
                            Some(IdentityError::Recycled { pid: self.pid })
                        },
                    },
                }
            },
            (Stage::ClosingThread { thread, error }, Reply::Closed) => match error {
                None => Stage::Hooking { thread },
                Some(err) => Stage::Failed(InjectError::Changed(err)),
            },
            (Stage::Hooking { thread }, Reply::Done(true)) => Stage::Nudging { thread },
            (Stage::Hooking { .. }, _) => Stage::Failed(InjectError::SetHook),
            (Stage::Nudging { .. }, _) => Stage::Installed,
            (stage, _) => stage,
        }
    }

    /// The injection after `reply`.
    pub open spec fn told(self, reply: Reply) -> Injection<P> {
        Injection { stage: self.next(reply), ..self }
    }

    /// What to ask of the system now.
    pub fn action(&self) -> (r: Action<P>)
        ensures
            r == self.asks(),
    {
        match &self.stage {
            Stage::InjectorMachine => Action::QueryInjectorMachine,
            Stage::TargetMachine { .. } => Action::QueryTargetMachine {
                pid: self.pid,
                access: PROCESS_QUERY_LIMITED_INFORMATION,
            },
            Stage::Verifying { path } => Action::Verify(*path),
            Stage::Loading { path } => Action::LoadLibrary(*path),
            Stage::FindingExport => Action::FindExport,
            Stage::StartingClock { timeout } => Action::StartClock(*timeout),
            Stage::FindingWindow => Action::FindWindow { pid: self.pid },
            Stage::CheckingExit => Action::QueryExit {
                pid: self.pid,
                access: PROCESS_QUERY_LIMITED_INFORMATION,
            },
            Stage::CheckingDeadline { .. } => Action::ReadClock,
            Stage::Pausing => Action::Sleep(GUI_THREAD_POLL_MS),
            Stage::Discovered { .. } => Action::QueryTimes {
                pid: self.pid,
                access: PROCESS_QUERY_LIMITED_INFORMATION,
            },
            Stage::OpeningThread { thread, .. } => Action::OpenThread {
                thread: *thread,
                access: THREAD_QUERY_LIMITED_INFORMATION,
            },
            Stage::CheckingOwner { .. } => Action::QueryOwner,
            Stage::Rechecking { .. } => Action::QueryTimes {
                pid: self.pid,
                access: PROCESS_QUERY_LIMITED_INFORMATION,
            },
            Stage::ClosingThread { .. } => Action::CloseThread,
            Stage::Hooking { thread } => Action::SetHook { thread: *thread, kind: HOOK_GET_MESSAGE },
            Stage::Nudging { thread } => Action::Post { thread: *thread, message: MESSAGE_NULL },
            Stage::Installed => Action::Finish(Ok(())),
            Stage::Failed(err) => Action::Finish(Err(*err)),
        }
    }

    /// Tells the injection what came back from the system.
    pub fn advance(&mut self, reply: Reply)
        requires
            old(self).awaits(reply),
        ensures
            *final(self) == old(self).told(reply),
    {
        let stage = match (&self.stage, reply) {
            (Stage::InjectorMachine, Reply::Machine { wow64, native }) => {
                Stage::TargetMachine { current: process_arch(wow64, native) }
            },
            (Stage::TargetMachine { current }, Reply::Machine { wow64, native }) => {
                match select_dll(*current, process_arch(wow64, native), self.dll) {
                    Ok(path) => Stage::Verifying { path },
                    Err(err) => Stage::Failed(err),
                }
            },
            (Stage::TargetMachine { .. }, _) => Stage::Failed(InjectError::Unreachable),
            (Stage::Verifying { path }, Reply::Trusted) => Stage::Loading { path: *path },
            (Stage::Verifying { .. }, Reply::Untrusted(err)) => {
                Stage::Failed(InjectError::Untrusted(err))
            },
            (Stage::Loading { .. }, Reply::Done(loaded)) => {
                if loaded {
                    Stage::FindingExport
                } else {
                    Stage::Failed(InjectError::LoadLibrary)
                }
            },
            (Stage::FindingExport, Reply::Done(found)) => {
                if found {
                    match self.timeout {
                        Some(timeout) => Stage::StartingClock { timeout },
                        None => Stage::FindingWindow,
                    }
                } else {
                    Stage::Failed(InjectError::ExportMissing)
                }
            },
            (Stage::StartingClock { .. }, _) => Stage::FindingWindow,
            (Stage::FindingWindow, Reply::Window(window)) => match window {
                Some(thread) => Stage::Discovered { thread },
                None => Stage::CheckingExit,
            },
            (Stage::CheckingExit, Reply::Exit(query)) => match process_is_alive(query) {
                Err(err) => Stage::Failed(err),
                Ok(false) => Stage::Failed(InjectError::Exited { pid: self.pid }),
                Ok(true) => match self.timeout {
                    Some(timeout) => Stage::CheckingDeadline { timeout },
                    None => Stage::Pausing,
                },
            },
            (Stage::CheckingDeadline { timeout }, Reply::Deadline(passed)) => {
                if passed {
                    Stage::Failed(InjectError::TimedOut { pid: self.pid, timeout: *timeout })
                } else {
                    Stage::Pausing
                }
            },
            (Stage::Pausing, _) => Stage::FindingWindow,
            (Stage::Discovered { thread }, Reply::Times(query)) => {
                match process_creation_time(query) {
                    Ok(created) => Stage::OpeningThread { thread: *thread, created },
                    Err(err) => Stage::Failed(InjectError::Discovery(err)),
                }
            },
            (Stage::OpeningThread { thread, created }, Reply::Done(opened)) => {
                if opened {
                    Stage::CheckingOwner { thread: *thread, created: *created }
                } else {
                    Stage::Failed(InjectError::Changed(IdentityError::ThreadGone))
                }
            },
            (Stage::CheckingOwner { thread, created }, Reply::Owner(owner)) => {
                if owner == 0 {
                    let error = Some(IdentityError::OwnerUnknown);
                    Stage::ClosingThread { thread: *thread, error }
                } else if owner != self.pid {
                    let error = Some(IdentityError::OwnerChanged { owner, pid: self.pid });
                    Stage::ClosingThread { thread: *thread, error }
                } else {
                    Stage::Rechecking { thread: *thread, created: *created }
                }
            },
            (Stage::Rechecking { thread, created }, Reply::Times(query)) => {
                let error = match process_creation_time(query) {
                    Err(err) => Some(IdentityError::CreationTime(err)),
                    Ok(now) => if now == *created {
                        None
                    } else {
                        Some(IdentityError::Recycled { pid: self.pid })
                    },
                };
                Stage::ClosingThread { thread: *thread, error }
            },
            (Stage::ClosingThread { thread, error }, Reply::Closed) => match error {
                None => Stage::Hooking { thread: *thread },
                Some(err) => Stage::Failed(InjectError::Changed(*err)),
            },
            (Stage::Hooking { thread }, Reply::Done(set)) => {
                if set {
                    Stage::Nudging { thread: *thread }
                } else {
                    Stage::Failed(InjectError::SetHook)
                }
            },
            _ => Stage::Installed,
        };
        self.stage = stage;
    }

    /// The injection after `replies`.
    pub open spec fn run(self, replies: Seq<Reply>) -> Injection<P>
        decreases replies.len(),
    {
        if replies.len() == 0 {
            self
        } else {
            self.run(replies.drop_last()).told(replies.last())
        }
    }

    /// Whether each of `replies` answers what was asked.
    pub open spec fn awaits_all(self, replies: Seq<Reply>) -> bool
        decreases replies.len(),
    {
        replies.len() == 0 || (self.awaits_all(replies.drop_last()) && self.run(
            replies.drop_last(),
        ).awaits(replies.last()))
    }
}

/// An injection that has asked for nothing yet.
pub open spec fn injection<P>(
    pid: u32,
    dll: OverlayDll<P>,
    timeout: Option<Duration>,
) -> Injection<P> {
    Injection { pid, dll, timeout, stage: Stage::InjectorMachine }
}

/// Begins to install the overlay hook in process `pid`. The timeout bounds the wait for the
/// target's first window; without one the wait has no end.
pub fn install_hook<P>(pid: u32, dll: OverlayDll<P>, timeout: Option<Duration>) -> (r: Injection<
    P,
>)
    ensures
        r == injection(pid, dll, timeout),
{
    Injection { pid, dll, timeout, stage: Stage::InjectorMachine }
}

impl CreationTimeError {
    pub open spec fn text(self) -> Seq<char> {
        match self {
            CreationTimeError::Unreachable => {
                "cannot open target process for creation-time query"@
            },
            CreationTimeError::Failed => "GetProcessTimes failed for target process"@,
        }
    }

    /// What went wrong.
    pub fn message(&self) -> (r: String)
        ensures
            r@ == self.text(),
    {
        match self {
            CreationTimeError::Unreachable => {
                "cannot open target process for creation-time query".to_owned()
            },
            CreationTimeError::Failed => "GetProcessTimes failed for target process".to_owned(),
        }
    }
}

impl IdentityError {
    pub open spec fn texts(self) -> Seq<Seq<char>> {
        match self {
            IdentityError::ThreadGone => seq!["target GUI thread no longer exists"@],
            IdentityError::OwnerUnknown => seq![
                "cannot resolve owning process of target GUI thread"@,
            ],
            IdentityError::OwnerChanged { owner, pid } => seq![
                "target GUI thread now belongs to pid "@ + decimal(owner as nat) + ", expected "@
                    + decimal(pid as nat) + " (pid recycled or thread reassigned)"@,
            ],
            IdentityError::CreationTime(err) => seq![
                "cannot re-read target creation time for identity check"@,
                err.text(),
            ],
            IdentityError::Recycled { pid } => seq![
                "target pid "@ + decimal(pid as nat)
                    + " was recycled (creation time changed) between discovery and injection"@,
            ],
        }
    }

    fn append_messages(&self, out: &mut Vec<String>)
        ensures
            texts(final(out)@) == texts(old(out)@) + self.texts(),
    {
        match self {
            IdentityError::ThreadGone => {
                out.push("target GUI thread no longer exists".to_owned());
            },
            IdentityError::OwnerUnknown => {
                out.push("cannot resolve owning process of target GUI thread".to_owned());
            },
            IdentityError::OwnerChanged { owner, pid } => {
                let mut text = "target GUI thread now belongs to pid ".to_owned();
                append_decimal(&mut text, *owner as u64);
                text.append(", expected ");
                append_decimal(&mut text, *pid as u64);
                text.append(" (pid recycled or thread reassigned)");
                out.push(text);
            },
            IdentityError::CreationTime(err) => {
                out.push("cannot re-read target creation time for identity check".to_owned());
                out.push(err.message());
            },
            IdentityError::Recycled { pid } => {
                let mut text = "target pid ".to_owned();
                append_decimal(&mut text, *pid as u64);
                text.append(
                    " was recycled (creation time changed) between discovery and injection",
                );
                out.push(text);
            },
        }
        assert(texts(out@) =~= texts(old(out)@) + self.texts());
    }
}

impl InjectError {
    /// The error's texts below its outermost context, where the DLL is at the path `dll`.
    pub open spec fn causes(self, dll: Seq<char>) -> Seq<Seq<char>> {
        match self {
            InjectError::Unreachable => seq!["cannot open target process for arch query"@],
            InjectError::CrossArch { injector, target } => seq![
                "cross-arch injection (injector "@ + decimal(injector as nat) + ", target "@
                    + decimal(target as nat)
                    + ") requires a same-arch helper exe (not implemented)"@,
            ],
            InjectError::DllMissing(Arch::X64) => seq!["x64 dll path is not provided"@],
            InjectError::DllMissing(Arch::Arm64) => seq!["arm64 dll path is not provided"@],
            InjectError::DllMissing(Arch::X86) => seq!["x86 dll path is not provided"@],
            InjectError::UnsupportedArch(arch) => seq![
                "Unsupported injector arch: "@ + decimal(arch as nat),
            ],
            InjectError::Untrusted(err) => seq![err.text(dll)],
            InjectError::LoadLibrary => seq!["failed to load overlay dll in injector process"@],
            InjectError::ExportMissing => seq![
                "overlay dll is missing the `msg_hook_proc` export"@,
            ],
            InjectError::ExitCode => seq!["GetExitCodeProcess failed for target process"@],
            InjectError::Exited { pid } => seq![
                "target process "@ + decimal(pid as nat) + " exited before creating a window"@,
            ],
            InjectError::TimedOut { pid, timeout } => seq![
                "timed out after "@ + duration_debug(timeout)
                    + " waiting for a GUI thread (visible top-level window) in target process "@
                    + decimal(pid as nat),
            ],
            InjectError::Discovery(err) => seq![
                "cannot read target process creation time for identity check"@,
                err.text(),
            ],
            InjectError::Changed(err) => seq![
                "target process changed between discovery and injection; aborting"@,
            ] + err.texts(),
            InjectError::SetHook => seq!["SetWindowsHookExW failed"@],
        }
    }

    /// What went wrong, the outermost context first, where the DLL is at the path `dll`. What the
    /// system itself said of it is not among these texts.
    pub fn messages(&self, dll: &str) -> (r: Vec<String>)
        ensures
            texts(r@) == seq!["failed to inject overlay DLL"@] + self.causes(dll@),
    {
        let mut out: Vec<String> = Vec::new();
        out.push("failed to inject overlay DLL".to_owned());
        assert(texts(out@) =~= seq!["failed to inject overlay DLL"@]);
        let ghost head = out@;
        match self {
            InjectError::Unreachable => {
                out.push("cannot open target process for arch query".to_owned());
            },
            InjectError::CrossArch { injector, target } => {
                let mut text = "cross-arch injection (injector ".to_owned();
                append_decimal(&mut text, *injector as u64);
                text.append(", target ");
                append_decimal(&mut text, *target as u64);
                text.append(") requires a same-arch helper exe (not implemented)");
                out.push(text);
            },
            InjectError::DllMissing(Arch::X64) => {
                out.push("x64 dll path is not provided".to_owned());
            },
            InjectError::DllMissing(Arch::Arm64) => {
                out.push("arm64 dll path is not provided".to_owned());
            },
            InjectError::DllMissing(Arch::X86) => {
                out.push("x86 dll path is not provided".to_owned());
            },
            InjectError::UnsupportedArch(arch) => {
                let mut text = "Unsupported injector arch: ".to_owned();
                append_decimal(&mut text, *arch as u64);
                out.push(text);
            },
            InjectError::Untrusted(err) => {
                out.push(err.message(dll));
            },
            InjectError::LoadLibrary => {
                out.push("failed to load overlay dll in injector process".to_owned());
            },
            InjectError::ExportMissing => {
                out.push("overlay dll is missing the `msg_hook_proc` export".to_owned());
            },
            InjectError::ExitCode => {
                out.push("GetExitCodeProcess failed for target process".to_owned());
            },
            InjectError::Exited { pid } => {
                let mut text = "target process ".to_owned();
                append_decimal(&mut text, *pid as u64);
                text.append(" exited before creating a window");
                out.push(text);
            },
            InjectError::TimedOut { pid, timeout } => {
                let mut text = "timed out after ".to_owned();
                text.append(duration_text(*timeout).as_str());
                text.append(
                    " waiting for a GUI thread (visible top-level window) in target process ",
                );
                append_decimal(&mut text, *pid as u64);
                out.push(text);
            },
            InjectError::Discovery(err) => {
                out.push("cannot read target process creation time for identity check".to_owned());
                out.push(err.message());
            },
            InjectError::Changed(err) => {
                out.push(
                    "target process changed between discovery and injection; aborting".to_owned(),
                );
                err.append_messages(&mut out);
            },
            InjectError::SetHook => {
                out.push("SetWindowsHookExW failed".to_owned());
            },
        }
        assert(texts(out@) =~= texts(head) + self.causes(dll@));
        out
    }
}

/// The last two replies give a window's thread and the target's creation time.
pub open spec fn found(thread: u32, created: u64, replies: Seq<Reply>) -> bool {
    let n = replies.len() as int;
    &&& n >= 2
    &&& replies[n - 2] == Reply::Window(Some(thread))
    &&& replies[n - 1] is Times
    &&& creation_time(replies[n - 1]->Times_0) == Ok::<u64, CreationTimeError>(created)
}

/// The last five replies give a window's thread and the target's creation time, then that the
/// thread could be opened, that process `pid` owns it, and the same creation time again.
pub open spec fn validated(pid: u32, thread: u32, replies: Seq<Reply>) -> bool {
    let n = replies.len() as int;
    &&& n >= 5
    &&& replies[n - 5] == Reply::Window(Some(thread))
    &&& replies[n - 4] is Times
    &&& creation_time(replies[n - 4]->Times_0) is Ok
    &&& replies[n - 3] == Reply::Done(true)
    &&& replies[n - 2] == Reply::Owner(pid)
    &&& replies[n - 1] is Times
    &&& creation_time(replies[n - 1]->Times_0) == creation_time(replies[n - 4]->Times_0)
}

/// The thread was so validated, and closed again.
pub open spec fn identified(pid: u32, thread: u32, replies: Seq<Reply>) -> bool {
    &&& replies.len() >= 6
    &&& replies.last() == Reply::Closed
    &&& validated(pid, thread, replies.drop_last())
}

/// The first two replies give the machines of the injector and of the target, and `path` is the
/// DLL for them.
pub open spec fn selected<P>(dll: OverlayDll<P>, path: P, replies: Seq<Reply>) -> bool {
    &&& replies.len() >= 2
    &&& replies[0] is Machine
    &&& replies[1] is Machine
    &&& dll_for(
        machine(replies[0]->wow64, replies[0]->native),
        machine(replies[1]->wow64, replies[1]->native),
        dll,
    ) == Ok::<P, InjectError>(path)
}

/// The first three replies choose a DLL and say that it is trusted.
pub open spec fn chosen_and_trusted<P>(dll: OverlayDll<P>, replies: Seq<Reply>) -> bool {
    &&& replies.len() >= 3
    &&& replies[2] == Reply::Trusted
    &&& exists|path: P| selected(dll, path, replies)
}

/// What the replies show once an injection has come as far as `stage`.
spec fn shown<P>(pid: u32, dll: OverlayDll<P>, stage: Stage<P>, replies: Seq<Reply>) -> bool {
    let n = replies.len() as int;
    match stage {
        Stage::InjectorMachine => n == 0,
        Stage::TargetMachine { current } => n == 1 && replies[0] is Machine && current == machine(
            replies[0]->wow64,
            replies[0]->native,
        ),
        Stage::Verifying { path } => n == 2 && selected(dll, path, replies),
        Stage::Loading { path } => n == 3 && selected(dll, path, replies) && replies[2]
            == Reply::Trusted,
        Stage::Failed(_) => true,
        _ => chosen_and_trusted(dll, replies) && match stage {
            Stage::Discovered { thread } => n >= 1 && replies[n - 1] == Reply::Window(Some(thread)),
            Stage::OpeningThread { thread, created } => found(thread, created, replies),
            Stage::CheckingOwner { thread, created } => n >= 1 && replies[n - 1] == Reply::Done(
                true,
            ) && found(thread, created, replies.drop_last()),
            Stage::Rechecking { thread, created } => n >= 2 && replies[n - 1] == Reply::Owner(pid)
                && replies[n - 2] == Reply::Done(true) && found(
                thread,
                created,
                replies.take(n - 2),
            ),
            Stage::ClosingThread { thread, error } => error is None ==> validated(
                pid,
                thread,
                replies,
            ),
            Stage::Hooking { thread } => identified(pid, thread, replies),
            Stage::Nudging { thread } => n >= 1 && replies[n - 1] == Reply::Done(true)
                && identified(pid, thread, replies.drop_last()),
            Stage::Installed => n >= 8 && replies[n - 1] == Reply::Posted && replies[n - 2]
                == Reply::Done(true) && identified(
                pid,
                replies[n - 8]->Window_0->0,
                replies.take(n - 2),
            ),
            _ => true,
        },
    }
}

proof fn lemma_chosen_stays<P>(dll: OverlayDll<P>, replies: Seq<Reply>)
    requires
        replies.len() > 0,
        chosen_and_trusted(dll, replies.drop_last()),
    ensures
        chosen_and_trusted(dll, replies),
{
    let path = choose|path: P| selected(dll, path, replies.drop_last());
    assert(selected(dll, path, replies));
}

proof fn lemma_shown<P: Copy>(start: Injection<P>, replies: Seq<Reply>)
    requires
        start.stage is InjectorMachine,
        start.awaits_all(replies),
    ensures
        start.run(replies).pid == start.pid,
        start.run(replies).dll == start.dll,
        start.run(replies).timeout == start.timeout,
        shown(start.pid, start.dll, start.run(replies).stage, replies),
    decreases replies.len(),
{
    if replies.len() > 0 {
        let before = replies.drop_last();
        lemma_shown(start, before);
        match start.run(before).stage {
            Stage::Loading { path } => {
                assert(selected(start.dll, path, replies));
            },
            _ => {
                if chosen_and_trusted(start.dll, before) {
                    lemma_chosen_stays(start.dll, replies);
                }
            },
        }
    }
}

/// The hook is set only on a thread that, since it was found to own a visible window of the
/// target, could still be opened, was owned by the target's pid, and whose process had the same
/// creation time before and after. So a recycled pid is never hooked.
pub proof fn law_hook_after_identity<P: Copy>(
    pid: u32,
    dll: OverlayDll<P>,
    timeout: Option<Duration>,
    replies: Seq<Reply>,
    thread: u32,
)
    requires
        injection(pid, dll, timeout).awaits_all(replies),
        injection(pid, dll, timeout).run(replies).asks() matches Action::SetHook {
            thread: hooked,
            ..
        } && hooked == thread,
    ensures
        identified(pid, thread, replies),
{
    lemma_shown(injection(pid, dll, timeout), replies);
}

/// An injection ends well only after the hook was set on such a thread and that thread was
/// posted a message.
pub proof fn law_installed<P: Copy>(
    pid: u32,
    dll: OverlayDll<P>,
    timeout: Option<Duration>,
    replies: Seq<Reply>,
)
    requires
        injection(pid, dll, timeout).awaits_all(replies),
        injection(pid, dll, timeout).run(replies).asks() == Action::<P>::Finish(Ok(())),
    ensures
        ({
            let n = replies.len() as int;
            &&& n >= 8
            &&& replies[n - 1] == Reply::Posted
            &&& replies[n - 2] == Reply::Done(true)
            &&& identified(pid, replies[n - 8]->Window_0->0, replies.take(n - 2))
        }),
{
    lemma_shown(injection(pid, dll, timeout), replies);
}

/// The DLL that is loaded is the one for the machine that injector and target share, and was
/// found to be trusted just before.
pub proof fn law_dll_matches_machine<P: Copy>(
    pid: u32,
    dll: OverlayDll<P>,
    timeout: Option<Duration>,
    replies: Seq<Reply>,
    path: P,
)
    requires
        injection(pid, dll, timeout).awaits_all(replies),
        injection(pid, dll, timeout).run(replies).asks() == Action::<P>::LoadLibrary(path),
    ensures
        selected(dll, path, replies),
        replies.last() == Reply::Trusted,
{
    lemma_shown(injection(pid, dll, timeout), replies);
}

/// The hook is set, and an injection ends well, only where the DLL for the machine that injector
/// and target share was found to be trusted.
pub proof fn law_hook_after_trust<P: Copy>(
    pid: u32,
    dll: OverlayDll<P>,
    timeout: Option<Duration>,
    replies: Seq<Reply>,
)
    requires
        injection(pid, dll, timeout).awaits_all(replies),
        ({
            let asks = injection(pid, dll, timeout).run(replies).asks();
            asks is SetHook || asks == Action::<P>::Finish(Ok(()))
        }),
    ensures
        chosen_and_trusted(dll, replies),
{
    lemma_shown(injection(pid, dll, timeout), replies);
}

/// Whatever an injection opens is the target itself, or the thread that was found, and it is opened
/// with no more access than it takes to ask about it.
pub proof fn law_limited_access<P: Copy>(
    pid: u32,
    dll: OverlayDll<P>,
    timeout: Option<Duration>,
    replies: Seq<Reply>,
)
    requires
        injection(pid, dll, timeout).awaits_all(replies),
    ensures
        match injection(pid, dll, timeout).run(replies).asks() {
            Action::QueryTargetMachine { pid: target, access } => target == pid && access
                == PROCESS_QUERY_LIMITED_INFORMATION,
            Action::QueryExit { pid: target, access } => target == pid && access
                == PROCESS_QUERY_LIMITED_INFORMATION,
            Action::QueryTimes { pid: target, access } => target == pid && access
                == PROCESS_QUERY_LIMITED_INFORMATION,
            Action::FindWindow { pid: target } => target == pid,
            Action::OpenThread { thread, access } => access == THREAD_QUERY_LIMITED_INFORMATION
                && replies.len() >= 2 && replies[replies.len() - 2] == Reply::Window(Some(thread)),
            _ => true,
        },
{
    lemma_shown(injection(pid, dll, timeout), replies);
}

/// How many threads were opened and not closed.
pub open spec fn open_threads<P: Copy>(start: Injection<P>, replies: Seq<Reply>) -> int
    decreases replies.len(),
{
    if replies.len() == 0 {
        0
    } else {
        let before = open_threads(start, replies.drop_last());
        match (start.run(replies.drop_last()).asks(), replies.last()) {
            (Action::OpenThread { .. }, Reply::Done(true)) => before + 1,
            (Action::CloseThread, _) => before - 1,
            _ => before,
        }
    }
}

/// A thread that was opened is closed on every path: before the hook is set, and before the
/// injection ends, well or not.
pub proof fn law_thread_closed<P: Copy>(
    pid: u32,
    dll: OverlayDll<P>,
    timeout: Option<Duration>,
    replies: Seq<Reply>,
)
    requires
        injection(pid, dll, timeout).awaits_all(replies),
    ensures
        ({
            let start = injection(pid, dll, timeout);
            let stage = start.run(replies).stage;
            open_threads(start, replies) == if stage is CheckingOwner || stage is Rechecking
                || stage is ClosingThread {
                1int
            } else {
                0int
            }
        }),
        injection(pid, dll, timeout).run(replies).asks() is SetHook || injection(
            pid,
            dll,
            timeout,
        ).run(replies).asks() is Finish ==> open_threads(injection(pid, dll, timeout), replies)
            == 0,
    decreases replies.len(),
{
    if replies.len() > 0 {
        law_thread_closed(pid, dll, timeout, replies.drop_last());
    }
}

/// How often the clock was started.
pub open spec fn clock_starts<P: Copy>(start: Injection<P>, replies: Seq<Reply>) -> nat
    decreases replies.len(),
{
    if replies.len() == 0 {
        0
    } else if start.run(replies.drop_last()).asks() is StartClock {
        clock_starts(start, replies.drop_last()) + 1
    } else {
        clock_starts(start, replies.drop_last())
    }
}

/// With a timeout the clock is started once, with that timeout: after the DLL was verified, loaded
/// and found to have a hook procedure, and right before a window is looked for the first time. So
/// the timeout is for the wait alone.
pub proof fn law_clock_starts_with_wait<P: Copy>(
    pid: u32,
    dll: OverlayDll<P>,
    timeout: Duration,
    replies: Seq<Reply>,
)
    requires
        injection(pid, dll, Some(timeout)).awaits_all(replies),
    ensures
        ({
            let start = injection(pid, dll, Some(timeout));
            let n = replies.len();
            match start.run(replies).stage {
                Stage::InjectorMachine => n == 0,
                Stage::TargetMachine { .. } => n == 1,
                Stage::Verifying { .. } => n == 2,
                Stage::Loading { .. } => n == 3,
                Stage::FindingExport => n == 4,
                Stage::StartingClock { timeout: set } => n == 5 && set == timeout,
                Stage::Failed(_) => true,
                _ => n >= 6 && replies[5] == Reply::ClockStarted,
            }
        }),
        ({
            let start = injection(pid, dll, Some(timeout));
            match start.run(replies).asks() {
                Action::FindWindow { .. } => clock_starts(start, replies) == 1,
                Action::ReadClock => clock_starts(start, replies) == 1,
                Action::SetHook { .. } => clock_starts(start, replies) == 1,
                _ => clock_starts(start, replies) <= 1,
            }
        }),
{
    lemma_clock(pid, dll, timeout, replies);
}

proof fn lemma_clock<P: Copy>(
    pid: u32,
    dll: OverlayDll<P>,
    timeout: Duration,
    replies: Seq<Reply>,
)
    requires
        injection(pid, dll, Some(timeout)).awaits_all(replies),
    ensures
        ({
            let start = injection(pid, dll, Some(timeout));
            let n = replies.len();
            let starts = clock_starts(start, replies);
            &&& start.run(replies).timeout == Some(timeout)
            &&& match start.run(replies).stage {
                Stage::InjectorMachine => n == 0 && starts == 0,
                Stage::TargetMachine { .. } => n == 1 && starts == 0,
                Stage::Verifying { .. } => n == 2 && starts == 0,
                Stage::Loading { .. } => n == 3 && starts == 0,
                Stage::FindingExport => n == 4 && starts == 0,
                Stage::StartingClock { timeout: set } => n == 5 && set == timeout && starts == 0,
                Stage::Failed(_) => starts <= 1,
                _ => n >= 6 && replies[5] == Reply::ClockStarted && starts == 1,
            }
        }),
    decreases replies.len(),
{
    if replies.len() > 0 {
        lemma_clock(pid, dll, timeout, replies.drop_last());
    }
}

/// Without a timeout an injection never sets or reads the clock, and never times out.
pub proof fn law_no_timeout<P: Copy>(pid: u32, dll: OverlayDll<P>, replies: Seq<Reply>)
    requires
        injection(pid, dll, None).awaits_all(replies),
    ensures
        !(injection(pid, dll, None).run(replies).asks() is StartClock),
        injection(pid, dll, None).run(replies).asks() != Action::<P>::ReadClock,
        !(injection(pid, dll, None).run(replies).stage matches Stage::Failed(
            InjectError::TimedOut { .. },
        )),
    decreases replies.len(),
{
    if replies.len() > 0 {
        let before = replies.drop_last();
        law_no_timeout(pid, dll, before);
        lemma_shown(injection(pid, dll, None), before);
    }
}

/// What an injection asks, and what it asks after a reply. A reply that is no failure leads on:
/// from the machines to the DLL, to its verification, its loading and its hook procedure; from a
/// window that is there to the identity of its thread, and to the hook; and from a window that is
/// not there to whether the target runs, to the clock if there is a timeout, to a pause, and to the
/// window again.
pub proof fn law_reply_leads_on<P: Copy>(now: Injection<P>, reply: Reply)
    requires
        now.awaits(reply),
    ensures
        now.asks() is QueryInjectorMachine ==> now.told(reply).asks() is QueryTargetMachine,
        now.asks() matches Action::Verify(path) ==> reply is Trusted ==> now.told(reply).asks()
            == Action::LoadLibrary(path),
        now.asks() is LoadLibrary && reply == Reply::Done(true) ==> now.told(reply).asks()
            is FindExport,
        now.asks() is FindExport && reply == Reply::Done(true) ==> match now.timeout {
            Some(timeout) => now.told(reply).asks() == Action::<P>::StartClock(timeout),
            None => now.told(reply).asks() == (Action::<P>::FindWindow { pid: now.pid }),
        },
        now.asks() is StartClock ==> now.told(reply).asks() == (Action::<P>::FindWindow {
            pid: now.pid,
        }),
        reply is Window ==> match reply->Window_0 {
            Some(_) => now.told(reply).asks() is QueryTimes,
            None => now.told(reply).asks() is QueryExit,
        },
        reply == Reply::Exit(ExitQuery::Code(259)) ==> if now.timeout is Some {
            now.told(reply).asks() is ReadClock
        } else {
            now.told(reply).asks() == Action::<P>::Sleep(100)
        },
        reply == Reply::Deadline(false) ==> now.told(reply).asks() == Action::<P>::Sleep(100),
        reply is Slept ==> now.told(reply).asks() == (Action::<P>::FindWindow { pid: now.pid }),
        now.asks() is OpenThread && reply == Reply::Done(true) ==> now.told(reply).asks()
            is QueryOwner,
        now.asks() is QueryOwner && reply == Reply::Owner(now.pid) && now.pid != 0 ==> now.told(
            reply,
        ).asks() is QueryTimes,
        now.asks() is QueryOwner && (reply != Reply::Owner(now.pid) || now.pid == 0) ==> now.told(
            reply,
        ).asks() is CloseThread,
        now.asks() matches Action::SetHook { thread, .. } ==> reply == Reply::Done(true)
            ==> now.told(reply).asks() == (Action::<P>::Post { thread, message: 0 }),
        now.asks() is Post ==> now.told(reply).asks() == Action::<P>::Finish(Ok(())),
        now.told(reply).pid == now.pid,
        now.told(reply).dll == now.dll,
        now.told(reply).timeout == now.timeout,
{
}

/// The creation time that a reply gives, and whether it gives one, by the two halves: the low one
/// counts ticks, the high one counts what the low one cannot hold.
pub proof fn law_creation_time(low: u32, high: u32)
    ensures
        creation_time(TimesQuery::Created { low, high }) is Ok,
        creation_time(TimesQuery::Created { low, high })->Ok_0 % 0x1_0000_0000 == low,
        creation_time(TimesQuery::Created { low, high })->Ok_0 / 0x1_0000_0000 == high,
        creation_time(TimesQuery::Unreachable) == Err::<u64, CreationTimeError>(
            CreationTimeError::Unreachable,
        ),
        creation_time(TimesQuery::Failed) == Err::<u64, CreationTimeError>(
            CreationTimeError::Failed,
        ),
{
    vstd::arithmetic::div_mod::lemma_fundamental_div_mod_converse(
        high * 0x1_0000_0000 + low,
        0x1_0000_0000,
        high as int,
        low as int,
    );
}

/// Only the process that has the same creation time before and after is the same one: two replies
/// give the same time exactly where both halves agree.
pub proof fn law_creation_times_differ(a_low: u32, a_high: u32, b_low: u32, b_high: u32)
    ensures
        creation_time(TimesQuery::Created { low: a_low, high: a_high }) == creation_time(
            TimesQuery::Created { low: b_low, high: b_high },
        ) <==> a_low == b_low && a_high == b_high,
{
    law_creation_time(a_low, a_high);
    law_creation_time(b_low, b_high);
}

/// The thread of a window that was found is opened, once the target's creation time is known, and
/// it is the thread that is hooked where everything agrees: the target owns it, and the target's
/// creation time is still the same. Where anything disagrees it is closed and not hooked.
pub proof fn law_identity_decides<P: Copy>(
    now: Injection<P>,
    thread: u32,
    first: TimesQuery,
    owner: u32,
    second: TimesQuery,
)
    requires
        now.stage is FindingWindow,
    ensures
        ({
            let found = now.told(Reply::Window(Some(thread)));
            let timed = found.told(Reply::Times(first));
            let owned = timed.told(Reply::Done(true)).told(Reply::Owner(owner));
            let closed = owned.told(Reply::Times(second)).told(Reply::Closed);
            &&& found.awaits(Reply::Times(first))
            &&& first is Created ==> timed.asks() == (Action::<P>::OpenThread {
                thread,
                access: 0x800,
            })
            &&& first is Created && owner == now.pid && owner != 0 ==> {
                &&& owned.awaits(Reply::Times(second))
                &&& closed.asks() == (Action::<P>::SetHook { thread, kind: 3 }) <==> second is Created
                    && second->low == first->low && second->high == first->high
                &&& !(closed.asks() is SetHook) ==> closed.asks() is Finish
            }
            &&& first is Created && (owner != now.pid || owner == 0) ==> {
                &&& owned.asks() is CloseThread
                &&& owned.told(Reply::Closed).asks() is Finish
            }
        }),
{
    if first is Created && second is Created {
        law_creation_times_differ(first->low, first->high, second->low, second->high);
    }
}

/// An injection that failed was told so by its last reply: each error comes after the reply that
/// says it, and after no other. In particular an injection times out only where the clock said that
/// the deadline has passed.
pub proof fn law_failure_has_cause<P: Copy>(
    pid: u32,
    dll: OverlayDll<P>,
    timeout: Option<Duration>,
    replies: Seq<Reply>,
)
    requires
        injection(pid, dll, timeout).awaits_all(replies),
        injection(pid, dll, timeout).run(replies).stage is Failed,
    ensures
        ({
            let asked = injection(pid, dll, timeout).run(replies.drop_last()).asks();
            let last = replies.last();
            match injection(pid, dll, timeout).run(replies).stage->Failed_0 {
                InjectError::Unreachable => asked is QueryTargetMachine && last is Unreachable,
                InjectError::CrossArch { injector, target } => asked is QueryTargetMachine
                    && last is Machine && injector != target && target == machine(
                    last->wow64,
                    last->native,
                ),
                InjectError::DllMissing(_) => asked is QueryTargetMachine && last is Machine,
                InjectError::UnsupportedArch(_) => asked is QueryTargetMachine && last is Machine,
                InjectError::Untrusted(err) => last == Reply::Untrusted(err),
                InjectError::LoadLibrary => asked is LoadLibrary && last == Reply::Done(false),
                InjectError::ExportMissing => asked is FindExport && last == Reply::Done(false),
                InjectError::ExitCode => last == Reply::Exit(ExitQuery::Failed),
                InjectError::Exited { pid: gone } => gone == pid && last is Exit && last
                    != Reply::Exit(ExitQuery::Failed) && last != Reply::Exit(ExitQuery::Code(259)),
                InjectError::TimedOut { pid: target, timeout: given } => target == pid && timeout
                    == Some(given) && last == Reply::Deadline(true),
                InjectError::Discovery(err) => asked is QueryTimes && last is Times
                    && creation_time(last->Times_0) == Err::<u64, CreationTimeError>(err),
                InjectError::Changed(IdentityError::ThreadGone) => asked is OpenThread && last
                    == Reply::Done(false),
                InjectError::Changed(err) => last is Closed && replies.len() >= 2 && {
                    let said = replies[replies.len() - 2];
                    match err {
                        IdentityError::ThreadGone => false,
                        IdentityError::OwnerUnknown => said == Reply::Owner(0),
                        IdentityError::OwnerChanged { owner, pid: target } => said == Reply::Owner(
                            owner,
                        ) && target == pid && owner != pid && owner != 0,
                        IdentityError::CreationTime(err) => said is Times && creation_time(
                            said->Times_0,
                        ) == Err::<u64, CreationTimeError>(err),
                        IdentityError::Recycled { pid: target } => target == pid && said is Times
                            && creation_time(said->Times_0) is Ok,
                    }
                },
                InjectError::SetHook => asked is SetHook && last == Reply::Done(false),
            }
        }),
{
    assert(replies.len() > 0);
    lemma_shown(injection(pid, dll, timeout), replies.drop_last());
    lemma_closing(pid, dll, timeout, replies.drop_last());
    if timeout is Some {
        lemma_clock(pid, dll, timeout->0, replies.drop_last());
        lemma_deadline(pid, dll, timeout->0, replies.drop_last());
    } else {
        law_no_timeout(pid, dll, replies);
    }
}

/// A thread is closed after the reply that decided about it.
proof fn lemma_closing<P: Copy>(
    pid: u32,
    dll: OverlayDll<P>,
    timeout: Option<Duration>,
    replies: Seq<Reply>,
)
    requires
        injection(pid, dll, timeout).awaits_all(replies),
    ensures
        injection(pid, dll, timeout).run(replies).stage matches Stage::ClosingThread {
            error: Some(err),
            ..
        } ==> replies.len() > 0 && match err {
            IdentityError::ThreadGone => false,
            IdentityError::OwnerUnknown => replies.last() == Reply::Owner(0),
            IdentityError::OwnerChanged { owner, pid: target } => replies.last() == Reply::Owner(
                owner,
            ) && target == pid && owner != pid && owner != 0,
            IdentityError::CreationTime(err) => replies.last() is Times && creation_time(
                replies.last()->Times_0,
            ) == Err::<u64, CreationTimeError>(err),
            IdentityError::Recycled { pid: target } => target == pid && replies.last() is Times
                && creation_time(replies.last()->Times_0) is Ok,
        },
{
    if replies.len() > 0 {
        lemma_shown(injection(pid, dll, timeout), replies.drop_last());
    }
}

/// A deadline is looked at with the timeout that was given.
proof fn lemma_deadline<P: Copy>(
    pid: u32,
    dll: OverlayDll<P>,
    timeout: Duration,
    replies: Seq<Reply>,
)
    requires
        injection(pid, dll, Some(timeout)).awaits_all(replies),
    ensures
        injection(pid, dll, Some(timeout)).run(replies).stage matches Stage::CheckingDeadline {
            timeout: given,
        } ==> given == timeout,
        injection(pid, dll, Some(timeout)).run(replies).timeout == Some(timeout),
    decreases replies.len(),
{
    if replies.len() > 0 {
        lemma_deadline(pid, dll, timeout, replies.drop_last());
    }
}

/// A process runs under emulation exactly where there is an emulated machine, and is then one of
/// that machine, whatever the native one is.
pub proof fn law_machine(emulated: u16, native: u16, other: u16)
    ensures
        machine(0, native) == native,
        emulated != 0 ==> machine(emulated, native) == emulated,
        emulated != 0 ==> machine(emulated, native) == machine(emulated, other),
{
}

/// A DLL is chosen exactly where injector and target are of the same machine, that machine is one
/// of three, and the DLL for it is given; and it is that DLL. The DLLs for other machines do not
/// matter.
pub proof fn law_dll_choice<P>(current: u16, target: u16, dll: OverlayDll<P>, path: P)
    ensures
        dll_for(current, target, dll) == Ok::<P, InjectError>(path) <==> current == target && (
        current == 0x8664 && dll.x64 == Some(path) || current == 0xaa64 && dll.arm64 == Some(path)
            || current == 0x014c && dll.x86 == Some(path)),
        current != target ==> dll_for(current, target, dll) == Err::<P, InjectError>(
            InjectError::CrossArch { injector: current, target },
        ),
        current == 0x8664 && target == 0x8664 && dll.x64 is None ==> dll_for(current, target, dll)
            == Err::<P, InjectError>(InjectError::DllMissing(Arch::X64)),
        current == 0xaa64 && target == 0xaa64 && dll.arm64 is None ==> dll_for(current, target, dll)
            == Err::<P, InjectError>(InjectError::DllMissing(Arch::Arm64)),
        current == 0x014c && target == 0x014c && dll.x86 is None ==> dll_for(current, target, dll)
            == Err::<P, InjectError>(InjectError::DllMissing(Arch::X86)),
        current == target && current != 0x8664 && current != 0xaa64 && current != 0x014c ==> dll_for(
            current,
            target,
            dll,
        ) == Err::<P, InjectError>(InjectError::UnsupportedArch(current)),
{
}

/// A window counts for a process exactly where it has a thread, is that process' and shows; one
/// that does not count leaves a search as it is.
pub proof fn law_window_counts(window: TopWindow, pid: u32, search: FindThread)
    ensures
        window.shown_by(pid) <==> window.visible && window.pid == pid && window.thread != 0,
        search.after(window).pid == search.pid,
        window.shown_by(search.pid) ==> search.after(window).thread == window.thread,
        !window.shown_by(search.pid) ==> search.after(window) == search,
{
}

/// What an error's texts tell by numbers can be read from them: the machines of the injector and of
/// the target, the machine that is not supported, and the process that has exited, was waited for,
/// or was recycled.
pub proof fn law_error_names_numbers(pid: u32, owner: u32, timeout: Duration, dll: Seq<char>, a: u16, b: u16)
    ensures
        ({
            let text = (InjectError::CrossArch { injector: a, target: b }).causes(dll)[0];
            let first = decimal(a as nat);
            let second = decimal(b as nat);
            let after = 31int + first.len();
            &&& text.subrange(31, after) == first
            &&& text.subrange(after + 9, after + 9 + second.len()) == second
        }),
        InjectError::UnsupportedArch(a).causes(dll)[0].skip(27) == decimal(a as nat),
        (InjectError::Exited { pid }).causes(dll)[0].subrange(
            15,
            15int + decimal(pid as nat).len(),
        ) == decimal(pid as nat),
        ({
            let text = (InjectError::TimedOut { pid, timeout }).causes(dll)[0];
            let told = duration_debug(timeout);
            &&& text.subrange(16, 16int + told.len()) == told
            &&& text.skip(16int + told.len() + 71) == decimal(pid as nat)
        }),
        ({
            let text = (IdentityError::OwnerChanged { owner, pid }).texts()[0];
            let first = decimal(owner as nat);
            let second = decimal(pid as nat);
            let after = 37int + first.len();
            &&& text.subrange(37, after) == first
            &&& text.subrange(after + 11, after + 11 + second.len()) == second
        }),
        (IdentityError::Recycled { pid }).texts()[0].subrange(
            11,
            11int + decimal(pid as nat).len(),
        ) == decimal(pid as nat),
{
    reveal_strlit("cross-arch injection (injector ");
    reveal_strlit(", target ");
    reveal_strlit("Unsupported injector arch: ");
    reveal_strlit("target process ");
    reveal_strlit("timed out after ");
    reveal_strlit(" waiting for a GUI thread (visible top-level window) in target process ");
    reveal_strlit("target GUI thread now belongs to pid ");
    reveal_strlit(", expected ");
    reveal_strlit("target pid ");
}

/// An error that has a cause of its own tells that cause after itself.
pub proof fn law_error_names_cause(
    err: CreationTimeError,
    changed: IdentityError,
    refused: Untrusted,
    dll: Seq<char>,
)
    ensures
        InjectError::Discovery(err).causes(dll).len() == 2,
        InjectError::Discovery(err).causes(dll)[1] == err.text(),
        InjectError::Changed(changed).causes(dll).skip(1) == changed.texts(),
        IdentityError::CreationTime(err).texts().len() == 2,
        IdentityError::CreationTime(err).texts()[1] == err.text(),
        InjectError::Untrusted(refused).causes(dll) == seq![refused.text(dll)],
{
}

} // verus!
