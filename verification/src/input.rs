//! What a program is told of input while its window's input is blocked.
//!
//! Each function here stands in front of a function of the system: where the window's input is
//! blocked it gives what the program is told instead, and otherwise nothing, so that the system's
//! own function is called.

use crate::backend::{Backends, InputBlockData, ScreenRect, WindowBackend, WindowProc};
use crate::hooks::{
    first_missing, input_hook_order, law_hooked_together_or_not_at_all, without, HookPoint, HookSet,
};
use vstd::prelude::*;

verus! {

/// Asks for the data of an input.
pub const RID_INPUT: u32 = 0x1000_0003;

/// Asks for the header of an input.
pub const RID_HEADER: u32 = 0x1000_0005;

/// Input of a device that is neither a mouse nor a keyboard.
pub const RIM_TYPEHID: u32 = 2;

/// The window that a handle names.
pub open spec fn window_id(hwnd: u64) -> u32 {
    (hwnd % 0x1_0000_0000) as u32
}

/// Whether input of window `id` is blocked.
pub open spec fn blocked(backends: Map<u32, WindowBackend>, id: u32) -> bool {
    backends.dom().contains(id) && backends[id].proc.blocking_state is Some
}

/// Whether input of the active window is blocked. It is not while a message is read.
pub open spec fn active_blocked(
    backends: Map<u32, WindowBackend>,
    active: u64,
    message_reading: bool,
) -> bool {
    active != 0 && !message_reading && blocked(backends, window_id(active))
}

/// Whether input of the foreground window is blocked.
pub open spec fn foreground_blocked(backends: Map<u32, WindowBackend>, foreground: u64) -> bool {
    foreground != 0 && blocked(backends, window_id(foreground))
}

/// The active window, if there is one that can be blocked.
pub fn active_hwnd_can_block(active: u64, message_reading: bool) -> (r: Option<u64>)
    ensures
        r == (if active != 0 && !message_reading {
            Some(active)
        } else {
            None
        }),
{
    if active != 0 && !message_reading {
        Some(active)
    } else {
        None
    }
}

/// What is kept for the active window while its input is blocked, and the window.
pub fn active_hwnd_with(backends: &Backends, active: u64, message_reading: bool) -> (r: Option<
    (u32, InputBlockData),
>)
    ensures
        r == (if active_blocked(backends@, active, message_reading) {
            Some((window_id(active), backends@[window_id(active)].proc.blocking_state->0))
        } else {
            None
        }),
{
    let hwnd: u64 = match active_hwnd_can_block(active, message_reading) {
        Some(hwnd) => hwnd,
        None => return None,
    };
    let id: u32 = (hwnd % 0x1_0000_0000) as u32;
    let backend = match backends.get(id) {
        Some(backend) => backend,
        None => return None,
    };
    match backend.proc.blocking_state {
        Some(data) => Some((id, data)),
        None => None,
    }
}

/// Whether input of the foreground window is blocked.
pub fn foreground_hwnd_input_blocked(backends: &Backends, foreground: u64) -> (r: bool)
    ensures
        r == foreground_blocked(backends@, foreground),
{
    if foreground == 0 {
        return false;
    }
    match backends.get((foreground % 0x1_0000_0000) as u32) {
        Some(backend) => backend.proc.input_blocking(),
        None => false,
    }
}

/// Whether input of the active window is blocked.
pub fn active_hwnd_input_blocked(backends: &Backends, active: u64, message_reading: bool) -> (r:
    bool)
    ensures
        r == active_blocked(backends@, active, message_reading),
{
    active_hwnd_with(backends, active, message_reading).is_some()
}

/// The windows after window `id`, whose input is blocked, confined the cursor.
pub open spec fn clipped(
    backends: Map<u32, WindowBackend>,
    id: u32,
    rect: Option<ScreenRect>,
) -> Map<u32, WindowBackend> {
    backends.insert(
        id,
        WindowBackend {
            proc: WindowProc {
                blocking_state: Some(InputBlockData { clip_cursor: rect }),
                ..backends[id].proc
            },
            ..backends[id]
        },
    )
}

/// A program confines the cursor, or frees it. While its input is blocked that is only noted;
/// says whether it was.
pub fn hooked_clip_cursor(
    backends: &mut Backends,
    active: u64,
    message_reading: bool,
    rect: Option<ScreenRect>,
) -> (r: bool)
    ensures
        r == active_blocked(old(backends)@, active, message_reading),
        final(backends)@ == (if r {
            clipped(old(backends)@, window_id(active), rect)
        } else {
            old(backends)@
        }),
{
    match active_hwnd_with(backends, active, message_reading) {
        Some((id, _)) => {
            if let Some(mut backend) = backends.get(id) {
                backend.proc.blocking_state = Some(InputBlockData { clip_cursor: rect });
                backends.put(id, backend);
            }
            true
        },
        None => false,
    }
}

/// A program moves the cursor. Says whether that is only pretended.
pub fn hooked_set_cursor_pos(backends: &Backends, foreground: u64) -> (r: bool)
    ensures
        r == foreground_blocked(backends@, foreground),
{
    foreground_hwnd_input_blocked(backends, foreground)
}

/// Where a program is told that the cursor is confined to.
pub open spec fn told_clip(
    backends: Map<u32, WindowBackend>,
    active: u64,
    message_reading: bool,
) -> Option<ScreenRect> {
    if active_blocked(backends, active, message_reading) {
        backends[window_id(active)].proc.blocking_state->0.clip_cursor
    } else {
        None
    }
}

/// A program asks where the cursor is confined to.
pub fn hooked_get_clip_cursor(backends: &Backends, active: u64, message_reading: bool) -> (r:
    Option<ScreenRect>)
    ensures
        r == told_clip(backends@, active, message_reading),
{
    match active_hwnd_with(backends, active, message_reading) {
        Some((_, data)) => data.clip_cursor,
        None => None,
    }
}

/// A program whose input is blocked is told where it last confined the cursor to itself, though
/// the cursor is not confined.
pub proof fn law_clip_cursor_read_back(
    backends: Map<u32, WindowBackend>,
    active: u64,
    message_reading: bool,
    rect: ScreenRect,
)
    requires
        active_blocked(backends, active, message_reading),
    ensures
        told_clip(clipped(backends, window_id(active), Some(rect)), active, message_reading)
            == Some(rect),
        told_clip(clipped(backends, window_id(active), None), active, message_reading) is None,
{
}

/// A fixed place of the cursor.
pub open spec fn hidden_cursor() -> (i32, i32) {
    (0i32, 0i32)
}

/// A program asks where the cursor is. It is told a fixed place, so that it cannot follow the
/// mouse.
pub fn hooked_get_cursor_pos(backends: &Backends, foreground: u64) -> (r: Option<(i32, i32)>)
    ensures
        r == (if foreground_blocked(backends@, foreground) {
            Some(hidden_cursor())
        } else {
            None
        }),
{
    if foreground_hwnd_input_blocked(backends, foreground) {
        Some((0, 0))
    } else {
        None
    }
}

/// A program asks where the cursor is, in pixels of the screen. It is told a fixed place, so that
/// it cannot follow the mouse.
pub fn hooked_get_physical_cursor_pos(backends: &Backends, foreground: u64) -> (r: Option<
    (i32, i32),
>)
    ensures
        r == (if foreground_blocked(backends@, foreground) {
            Some(hidden_cursor())
        } else {
            None
        }),
{
    if foreground_hwnd_input_blocked(backends, foreground) {
        Some((0, 0))
    } else {
        None
    }
}

/// A program asks whether a key is down now. It is told that none is.
pub fn hooked_get_async_key_state(backends: &Backends, foreground: u64) -> (r: Option<i16>)
    ensures
        r == (if foreground_blocked(backends@, foreground) {
            Some(0i16)
        } else {
            None
        }),
{
    if foreground_hwnd_input_blocked(backends, foreground) {
        Some(0)
    } else {
        None
    }
}

/// A program asks whether a key was down at its last message. It is told that none was.
pub fn hooked_get_key_state(backends: &Backends, active: u64, message_reading: bool) -> (r: Option<
    i16,
>)
    ensures
        r == (if active_blocked(backends@, active, message_reading) {
            Some(0i16)
        } else {
            None
        }),
{
    if active_hwnd_input_blocked(backends, active, message_reading) {
        Some(0)
    } else {
        None
    }
}

/// A program asks for the state of all 256 keys. It is told that none is down.
pub fn hooked_get_keyboard_state(backends: &Backends, active: u64, message_reading: bool) -> (r:
    Option<Vec<u8>>)
    ensures
        r is Some <==> active_blocked(backends@, active, message_reading),
        r is Some ==> r->0@ == Seq::new(256, |i: int| 0u8),
{
    if !active_hwnd_input_blocked(backends, active, message_reading) {
        return None;
    }
    let mut keys: Vec<u8> = Vec::new();
    let mut i: usize = 0;
    while i < 256
        invariant
            i <= 256,
            keys@ == Seq::new(i as nat, |j: int| 0u8),
        decreases 256 - i,
    {
        keys.push(0);
        i += 1;
        assert(keys@ =~= Seq::new(i as nat, |j: int| 0u8));
    }
    Some(keys)
}

/// What is written for a program that asks for raw input.
#[derive(Debug, Clone, Copy, PartialEq, Eq, Structural)]
pub enum RawInputData {
    Nothing,
    /// A header of this type and size, and zero otherwise.
    Header { kind: u32, size: u32 },
    /// An input with such a header, and zero otherwise.
    Input { kind: u32, size: u32 },
}

/// What a program that asks for raw input is told.
#[derive(Debug, Clone, Copy, PartialEq, Eq, Structural)]
pub struct RawInputReply {
    /// The size that the program is told the data has.
    pub size: u32,
    pub data: RawInputData,
    /// What the call returns.
    pub result: u32,
}

/// The size of what a command asks for.
pub open spec fn raw_input_size(command: u32, header_size: u32, input_size: u32) -> u32 {
    if command == RID_HEADER {
        header_size
    } else if command == RID_INPUT {
        input_size
    } else {
        0
    }
}

/// What a program is told that asks for raw input.
pub open spec fn raw_input_reply(
    command: u32,
    has_buffer: bool,
    header_size: u32,
    input_size: u32,
) -> RawInputReply {
    let size = raw_input_size(command, header_size, input_size);
    RawInputReply {
        size,
        data: if !has_buffer {
            RawInputData::Nothing
        } else if command == RID_HEADER {
            RawInputData::Header { kind: RIM_TYPEHID, size }
        } else if command == RID_INPUT {
            RawInputData::Input { kind: RIM_TYPEHID, size }
        } else {
            RawInputData::Nothing
        },
        result: if has_buffer {
            size
        } else {
            0
        },
    }
}

/// A program asks for raw input, or, without a buffer, for its size. It is told of an empty input
/// of a device that it does not know. `header_size` and `input_size` are the sizes of a header
/// and of an input.
pub fn hooked_get_raw_input_data(
    backends: &Backends,
    foreground: u64,
    command: u32,
    has_buffer: bool,
    header_size: u32,
    input_size: u32,
) -> (r: Option<RawInputReply>)
    ensures
        r == (if foreground_blocked(backends@, foreground) {
            Some(raw_input_reply(command, has_buffer, header_size, input_size))
        } else {
            None
        }),
{
    if !foreground_hwnd_input_blocked(backends, foreground) {
        return None;
    }
    let size: u32 = match command {
        RID_HEADER => header_size,
        RID_INPUT => input_size,
        _ => 0,
    };
    if !has_buffer {
        return Some(RawInputReply { size, data: RawInputData::Nothing, result: 0 });
    }
    let data = match command {
        RID_HEADER => RawInputData::Header { kind: RIM_TYPEHID, size },
        RID_INPUT => RawInputData::Input { kind: RIM_TYPEHID, size },
        _ => RawInputData::Nothing,
    };
    Some(RawInputReply { size, data, result: size })
}

/// A program that asks for the size of raw input and then for the input is told the same size
/// twice, and gets an input that says it has that size.
pub proof fn law_raw_input_sizes_agree(command: u32, header_size: u32, input_size: u32)
    ensures
        ({
            let query = raw_input_reply(command, false, header_size, input_size);
            let read = raw_input_reply(command, true, header_size, input_size);
            &&& query.result == 0
            &&& query.data is Nothing
            &&& read.size == query.size
            &&& read.result == query.size
            &&& read.data matches RawInputData::Header { size, .. } ==> size == query.size
            &&& read.data matches RawInputData::Input { size, .. } ==> size == query.size
        }),
{
}

/// A program asks for the raw inputs that wait for it. It is told that none do: the number is
/// both what it is told of their size and what the call returns.
pub fn hooked_get_raw_input_buffer(backends: &Backends, foreground: u64) -> (r: Option<u32>)
    ensures
        r == (if foreground_blocked(backends@, foreground) {
            Some(0u32)
        } else {
            None
        }),
{
    if foreground_hwnd_input_blocked(backends, foreground) {
        Some(0)
    } else {
        None
    }
}

/// What a program whose input is not blocked asks for is left to the system.
pub proof fn law_unblocked_left_alone(
    backends: Map<u32, WindowBackend>,
    hwnd: u64,
    message_reading: bool,
)
    requires
        !blocked(backends, window_id(hwnd)),
    ensures
        !active_blocked(backends, hwnd, message_reading),
        !foreground_blocked(backends, hwnd),
{
}

/// The functions to hook for input.
pub fn hook() -> (r: Vec<HookPoint>)
    ensures
        r@ == input_hook_order(),
{
    let order = vec![
        HookPoint::ClipCursor,
        HookPoint::SetCursorPos,
        HookPoint::GetClipCursor,
        HookPoint::GetCursorPos,
        HookPoint::GetPhysicalCursorPos,
        HookPoint::GetAsyncKeyState,
        HookPoint::GetKeyState,
        HookPoint::GetKeyboardState,
        HookPoint::GetRawInputData,
        HookPoint::GetRawInputBuffer,
    ];
    assert(order@ =~= input_hook_order());
    order
}

/// Notes that a function was hooked for input, if it was. They are hooked together or not at all:
/// after a failure none of them is hooked, and the next attempt begins with the first.
pub fn hooked(hooks: &mut HookSet, point: HookPoint, attached: bool) -> (r: Result<(), HookPoint>)
    ensures
        attached ==> r == Ok::<(), HookPoint>(()) && final(hooks)@ == old(hooks)@.push(point),
        !attached ==> r == Err::<(), HookPoint>(point) && final(hooks)@ == without(
            old(hooks)@,
            input_hook_order(),
        ),
        !attached ==> first_missing(input_hook_order(), final(hooks)@) == Some(
            HookPoint::ClipCursor,
        ),
{
    let order = hook();
    proof {
        law_hooked_together_or_not_at_all(
            input_hook_order(),
            hooks@,
            HookPoint::ClipCursor,
        );
    }
    hooks.attached_together(&order, point, attached)
}

/// A handle that fits in 32 bits names the window of that very number, and what a handle has above
/// these bits does not matter.
pub proof fn law_handle_names_window(hwnd: u64, upper: u32)
    ensures
        hwnd <= u32::MAX ==> window_id(hwnd) == hwnd,
        hwnd <= u32::MAX ==> window_id((upper * 0x1_0000_0000 + hwnd) as u64) == hwnd,
{
    if hwnd <= u32::MAX {
        vstd::arithmetic::div_mod::lemma_fundamental_div_mod_converse(
            upper * 0x1_0000_0000 + hwnd,
            0x1_0000_0000,
            upper as int,
            hwnd as int,
        );
    }
}

/// Exactly where a known window's input is blocked, what the program asks with that window in the
/// foreground is answered for it, and so it is with the active window while no message is read.
/// Without a window nothing is.
pub proof fn law_blocked_windows_are_answered(
    backends: Map<u32, WindowBackend>,
    id: u32,
    message_reading: bool,
)
    ensures
        foreground_blocked(backends, id as u64) <==> id != 0 && backends.dom().contains(id)
            && backends[id].proc.blocking_state is Some,
        active_blocked(backends, id as u64, message_reading) <==> id != 0
            && backends.dom().contains(id) && backends[id].proc.blocking_state is Some
            && !message_reading,
{
    law_handle_names_window(id as u64, 0);
}

/// To confine the cursor changes nothing but what is noted for the one window: it stays blocked,
/// and every other window, and everything else about this one, is as it was.
pub proof fn law_clip_changes_its_note_only(
    backends: Map<u32, WindowBackend>,
    id: u32,
    rect: Option<ScreenRect>,
    other: u32,
)
    requires
        backends.dom().contains(id),
    ensures
        ({
            let after = clipped(backends, id, rect);
            &&& after.dom() =~= backends.dom()
            &&& after[id].proc.blocking_state is Some
            &&& after[id].proc.blocking_state->0.clip_cursor == rect
            &&& after[id].proc.listen == backends[id].proc.listen
            &&& after[id].proc.blocking_cursor == backends[id].proc.blocking_cursor
            &&& after[id].layout == backends[id].layout
            &&& after[id].render == backends[id].render
            &&& other != id ==> after[other] == backends[other]
        }),
{
}

/// A program that asks for raw input with a buffer gets the header, or the input, of a device that
/// it does not know, of the size that it was told; without a buffer, or for anything else, it gets
/// none.
pub proof fn law_raw_input_is_of_unknown_device(
    command: u32,
    has_buffer: bool,
    header_size: u32,
    input_size: u32,
)
    ensures
        ({
            let reply = raw_input_reply(command, has_buffer, header_size, input_size);
            &&& reply.data is Header <==> has_buffer && command == RID_HEADER
            &&& reply.data is Input <==> has_buffer && command == RID_INPUT
            &&& reply.data matches RawInputData::Header { kind, size } ==> kind == RIM_TYPEHID
                && size == header_size
            &&& reply.data matches RawInputData::Input { kind, size } ==> kind == RIM_TYPEHID
                && size == input_size
            &&& command == RID_HEADER ==> reply.size == header_size
            &&& command == RID_INPUT ==> reply.size == input_size
            &&& command != RID_HEADER && command != RID_INPUT ==> reply.size == 0
            &&& reply.result == 0 || has_buffer
        }),
{
}

/// The cursor is told to be in the same place whatever it does: the upper left corner.
pub proof fn law_cursor_hidden()
    ensures
        hidden_cursor().0 == 0,
        hidden_cursor().1 == 0,
{
}

} // verus!
