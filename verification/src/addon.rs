//! What a script can ask of an overlay.

use crate::conv::{
    clamped, deserialize_percent_length, emit_event, event_js, to_u32, InvalidPercentLength,
};
use crate::event::OverlayEvent;
use crate::js::{items_view, JsValue};
use crate::render::UpdateSharedHandle;
use crate::request::{
    BlockInput, Cursor, ListenInput, PercentLength, Request, SetAnchor, SetBlockingCursor,
    SetMargin, SetPosition, WindowRequest,
};
use vstd::prelude::*;

verus! {

/// An attached overlay: its connection and its events, until it is destroyed.
#[derive(Debug)]
pub struct Overlay<C, E> {
    inner: Option<Inner<C, E>>,
}

#[derive(Debug)]
struct Inner<C, E> {
    ipc: C,
    event: E,
}

impl<C, E> View for Overlay<C, E> {
    type V = Option<(C, E)>;

    closed spec fn view(&self) -> Option<(C, E)> {
        match self.inner {
            Some(inner) => Some((inner.ipc, inner.event)),
            None => None,
        }
    }
}

/// The overlay is not there.
#[derive(Debug, Clone, Copy, PartialEq, Eq, Structural)]
pub enum OverlayError {
    Destroyed,
    AlreadyDestroyed,
}

impl OverlayError {
    pub open spec fn text(self) -> Seq<char> {
        match self {
            OverlayError::Destroyed => "Overlay is destroyed"@,
            OverlayError::AlreadyDestroyed => "Overlay is already destroyed"@,
        }
    }

    /// What went wrong.
    pub fn message(&self) -> (r: &'static str)
        ensures
            r@ == self.text(),
    {
        match self {
            OverlayError::Destroyed => "Overlay is destroyed",
            OverlayError::AlreadyDestroyed => "Overlay is already destroyed",
        }
    }
}

impl<C, E> Overlay<C, E> {
    /// An overlay that was just attached.
    pub fn new(ipc: C, event: E) -> (r: Overlay<C, E>)
        ensures
            r@ == Some((ipc, event)),
    {
        Overlay { inner: Some(Inner { ipc, event }) }
    }

    /// The connection to the overlay.
    pub fn ipc(&self) -> (r: Result<&C, OverlayError>)
        ensures
            match self@ {
                Some((ipc, _)) => r == Ok::<&C, OverlayError>(&ipc),
                None => r == Err::<&C, OverlayError>(OverlayError::Destroyed),
            },
    {
        match &self.inner {
            Some(inner) => Ok(&inner.ipc),
            None => Err(OverlayError::Destroyed),
        }
    }

    /// The events of the overlay.
    pub fn events(&self) -> (r: Result<&E, OverlayError>)
        ensures
            match self@ {
                Some((_, event)) => r == Ok::<&E, OverlayError>(&event),
                None => r == Err::<&E, OverlayError>(OverlayError::Destroyed),
            },
    {
        match &self.inner {
            Some(inner) => Ok(&inner.event),
            None => Err(OverlayError::Destroyed),
        }
    }

    /// Destroys the overlay, which can be done once. Afterwards there is neither a connection nor
    /// events.
    pub fn destroy(&mut self) -> (r: Result<(), OverlayError>)
        ensures
            final(self)@ is None,
            match old(self)@ {
                Some(_) => r == Ok::<(), OverlayError>(()),
                None => r == Err::<(), OverlayError>(OverlayError::AlreadyDestroyed),
            },
    {
        match self.inner.take() {
            Some(_) => Ok(()),
            None => Err(OverlayError::AlreadyDestroyed),
        }
    }
}

/// File names of the overlay DLLs.
#[derive(Debug, Clone, Copy)]
pub struct DllNames {
    pub x64: &'static str,
    pub x86: &'static str,
    pub arm64: &'static str,
}

/// The overlay DLLs that a script's directory holds.
pub fn dll_names() -> (r: DllNames)
    ensures
        r.x64@ == "yourgg_overlay-x64.dll"@,
        r.x86@ == "yourgg_overlay-x86.dll"@,
        r.arm64@ == "yourgg_overlay-aarch64.dll"@,
{
    DllNames {
        x64: "yourgg_overlay-x64.dll",
        x86: "yourgg_overlay-x86.dll",
        arm64: "yourgg_overlay-aarch64.dll",
    }
}

/// What an overlay is to be attached with.
#[derive(Debug, Clone, Copy)]
pub struct AttachPlan {
    pub pid: u32,
    /// How long to wait, in milliseconds; without it the wait has no end.
    pub timeout_ms: Option<u64>,
    /// The DLLs, by their names in the script's directory.
    pub names: DllNames,
}

/// Reads what a script asks to attach to: the process and the timeout in milliseconds, if it
/// gives one.
pub fn attach(pid: i64, timeout_ms: Option<u64>) -> (r: AttachPlan)
    ensures
        r.pid == clamped(pid as int, 0, u32::MAX as int),
        r.timeout_ms == timeout_ms,
        r.names.x64@ == "yourgg_overlay-x64.dll"@,
        r.names.x86@ == "yourgg_overlay-x86.dll"@,
        r.names.arm64@ == "yourgg_overlay-aarch64.dll"@,
{
    AttachPlan { pid: to_u32(pid), timeout_ms, names: dll_names() }
}

/// What a script is told where the overlay could not be attached, before the causes.
pub fn attach_context() -> (r: &'static str)
    ensures
        r@ == "cannot inject to the process"@,
{
    "cannot inject to the process"
}

/// A length as a script gives it: what it is relative to, and the bits of its single-precision
/// value.
#[derive(Debug)]
pub struct LengthArg {
    pub ty: String,
    pub value: u32,
}

impl LengthArg {
    /// The length that is meant.
    pub open spec fn length(self) -> Option<PercentLength> {
        if self.ty@ == "percent"@ {
            Some(PercentLength::Percent(self.value))
        } else if self.ty@ == "length"@ {
            Some(PercentLength::Length(self.value))
        } else {
            None
        }
    }

    fn read(&self) -> (r: Result<PercentLength, InvalidPercentLength>)
        ensures
            r == (match self.length() {
                Some(length) => Ok(length),
                None => Err(InvalidPercentLength),
            }),
    {
        deserialize_percent_length(&self.ty, self.value)
    }
}

/// A window as a script names it.
pub open spec fn window_of(id: i64) -> u32 {
    clamped(id as int, 0, u32::MAX as int) as u32
}

/// Asks window `id` to move the overlay.
pub fn overlay_set_position(id: i64, x: &LengthArg, y: &LengthArg) -> (r: Result<
    Request,
    InvalidPercentLength,
>)
    ensures
        r == (match (x.length(), y.length()) {
            (Some(x), Some(y)) => Ok(
                Request::Window {
                    id: window_of(id),
                    request: WindowRequest::SetPosition(SetPosition { x, y }),
                },
            ),
            _ => Err(InvalidPercentLength),
        }),
{
    let x = match x.read() {
        Ok(x) => x,
        Err(err) => return Err(err),
    };
    let y = match y.read() {
        Ok(y) => y,
        Err(err) => return Err(err),
    };
    Ok(
        Request::Window {
            id: to_u32(id),
            request: WindowRequest::SetPosition(SetPosition { x, y }),
        },
    )
}

/// Asks window `id` to put another point of the overlay at its position.
pub fn overlay_set_anchor(id: i64, x: &LengthArg, y: &LengthArg) -> (r: Result<
    Request,
    InvalidPercentLength,
>)
    ensures
        r == (match (x.length(), y.length()) {
            (Some(x), Some(y)) => Ok(
                Request::Window {
                    id: window_of(id),
                    request: WindowRequest::SetAnchor(SetAnchor { x, y }),
                },
            ),
            _ => Err(InvalidPercentLength),
        }),
{
    let x = match x.read() {
        Ok(x) => x,
        Err(err) => return Err(err),
    };
    let y = match y.read() {
        Ok(y) => y,
        Err(err) => return Err(err),
    };
    Ok(Request::Window { id: to_u32(id), request: WindowRequest::SetAnchor(SetAnchor { x, y }) })
}

/// Asks window `id` to keep the overlay off its edges.
pub fn overlay_set_margin(
    id: i64,
    top: &LengthArg,
    right: &LengthArg,
    bottom: &LengthArg,
    left: &LengthArg,
) -> (r: Result<Request, InvalidPercentLength>)
    ensures
        r == (match (top.length(), right.length(), bottom.length(), left.length()) {
            (Some(top), Some(right), Some(bottom), Some(left)) => Ok(
                Request::Window {
                    id: window_of(id),
                    request: WindowRequest::SetMargin(SetMargin { top, right, bottom, left }),
                },
            ),
            _ => Err(InvalidPercentLength),
        }),
{
    let top = match top.read() {
        Ok(top) => top,
        Err(err) => return Err(err),
    };
    let right = match right.read() {
        Ok(right) => right,
        Err(err) => return Err(err),
    };
    let bottom = match bottom.read() {
        Ok(bottom) => bottom,
        Err(err) => return Err(err),
    };
    let left = match left.read() {
        Ok(left) => left,
        Err(err) => return Err(err),
    };
    Ok(
        Request::Window {
            id: to_u32(id),
            request: WindowRequest::SetMargin(SetMargin { top, right, bottom, left }),
        },
    )
}

/// Asks window `id` to show another shared texture.
pub fn overlay_update_handle(id: i64, update: UpdateSharedHandle) -> (r: Request)
    ensures
        r == (Request::Window {
            id: window_of(id),
            request: WindowRequest::UpdateSharedHandle(update),
        }),
{
    Request::Window { id: to_u32(id), request: WindowRequest::UpdateSharedHandle(update) }
}

/// Asks window `id` to tell of its input.
pub fn overlay_listen_input(id: i64, cursor: bool, keyboard: bool) -> (r: Request)
    ensures
        r == (Request::Window {
            id: window_of(id),
            request: WindowRequest::ListenInput(ListenInput { cursor, keyboard }),
        }),
{
    Request::Window {
        id: to_u32(id),
        request: WindowRequest::ListenInput(ListenInput { cursor, keyboard }),
    }
}

/// Asks window `id` to block its input, or not to.
pub fn overlay_block_input(id: i64, block: bool) -> (r: Request)
    ensures
        r == (Request::Window {
            id: window_of(id),
            request: WindowRequest::BlockInput(BlockInput { block }),
        }),
{
    Request::Window { id: to_u32(id), request: WindowRequest::BlockInput(BlockInput { block }) }
}

/// The number is no cursor's.
#[derive(Debug, Clone, Copy, PartialEq, Eq, Structural)]
pub struct InvalidCursor;

impl InvalidCursor {
    /// What went wrong.
    pub fn message(&self) -> (r: &'static str)
        ensures
            r@ == "invalid cursor value"@,
    {
        "invalid cursor value"
    }
}

fn is_cursor(number: u32, cursors: &[u32]) -> (r: bool)
    ensures
        r == cursors@.contains(number),
{
    let mut i: usize = 0;
    while i < cursors.len()
        invariant
            i <= cursors@.len(),
            forall|j: int| 0 <= j < i ==> cursors@[j] != number,
        decreases cursors.len() - i,
    {
        if cursors[i] == number {
            assert(cursors@[i as int] == number);
            return true;
        }
        i += 1;
    }
    false
}

/// Asks window `id` to show a cursor while its input is blocked, or none. `cursors` are the
/// numbers that are cursors'.
pub fn overlay_set_blocking_cursor(id: i64, cursor: Option<i64>, cursors: &[u32]) -> (r: Result<
    Request,
    InvalidCursor,
>)
    ensures
        r == (match cursor {
            None => Ok(
                Request::Window {
                    id: window_of(id),
                    request: WindowRequest::SetBlockingCursor(SetBlockingCursor { cursor: None }),
                },
            ),
            Some(n) => {
                let number = clamped(n as int, 0, u32::MAX as int) as u32;
                if cursors@.contains(number) {
                    Ok(
                        Request::Window {
                            id: window_of(id),
                            request: WindowRequest::SetBlockingCursor(
                                SetBlockingCursor { cursor: Some(Cursor(number)) },
                            ),
                        },
                    )
                } else {
                    Err(InvalidCursor)
                }
            },
        }),
{
    let cursor = match cursor {
        Some(n) => {
            let number: u32 = to_u32(n);
            if !is_cursor(number, cursors) {
                return Err(InvalidCursor);
            }
            Some(Cursor(number))
        },
        None => None,
    };
    Ok(
        Request::Window {
            id: to_u32(id),
            request: WindowRequest::SetBlockingCursor(SetBlockingCursor { cursor }),
        },
    )
}

/// What a script is told when it asks for the next event: the arguments of its emitter, or that
/// there are no more events.
pub fn overlay_call_next_event(event: Option<OverlayEvent>) -> (r: Option<Vec<JsValue>>)
    ensures
        match event {
            Some(event) => r is Some && items_view(r->0@) == event_js(event@),
            None => r is None,
        },
{
    match event {
        Some(event) => Some(emit_event(event)),
        None => None,
    }
}

/// What a script asked an overlay for and did not get.
#[derive(Debug, Clone, Copy, PartialEq, Eq, Structural)]
pub enum Failed {
    CreateSurface,
    UpdateSurface,
    ListProcesses,
}

impl Failed {
    pub open spec fn text(self) -> Seq<char> {
        match self {
            Failed::CreateSurface => "Failed to create surface. "@,
            Failed::UpdateSurface => "Failed to update from shared handle. "@,
            Failed::ListProcesses => "Failed to list processes. "@,
        }
    }

    /// What a script is told went wrong, before the cause.
    pub fn message(&self, cause: &str) -> (r: String)
        ensures
            r@ == self.text() + cause@,
    {
        let mut text = match self {
            Failed::CreateSurface => "Failed to create surface. ".to_owned(),
            Failed::UpdateSurface => "Failed to update from shared handle. ".to_owned(),
            Failed::ListProcesses => "Failed to list processes. ".to_owned(),
        };
        vstd::string::StringExecFns::append(&mut text, cause);
        text
    }
}

/// A window that a script names by its number is that window; a number that no window can have
/// names the nearest one.
pub proof fn law_window_named(id: i64)
    ensures
        0 <= id <= u32::MAX ==> window_of(id) == id,
        id < 0 ==> window_of(id) == 0,
        id > u32::MAX ==> window_of(id) == u32::MAX,
{
}

/// A length is relative exactly where it says "percent", in pixels exactly where it says "length",
/// and otherwise none; its number is kept bit by bit.
pub proof fn law_length_read(arg: LengthArg)
    ensures
        arg.length() matches Some(PercentLength::Percent(bits)) ==> arg.ty@ == "percent"@ && bits
            == arg.value,
        arg.length() matches Some(PercentLength::Length(bits)) ==> arg.ty@ == "length"@ && bits
            == arg.value,
        arg.ty@ == "percent"@ ==> arg.length() == Some(PercentLength::Percent(arg.value)),
        arg.ty@ == "length"@ ==> arg.length() == Some(PercentLength::Length(arg.value)),
        arg.length() is None <==> arg.ty@ != "percent"@ && arg.ty@ != "length"@,
{
    reveal_strlit("percent");
    reveal_strlit("length");
    assert("percent"@.len() == 7);
    assert("length"@.len() == 6);
}

} // verus!
