//! Packets from the overlay to its client, as bytes.
//!
//! A structure is its fields one after the other. An alternative is its number, counted from
//! zero, followed by its fields. A list is its length followed by its items. A truth value is
//! one byte, zero or one; a single precision number is its four bytes, lowest first.

use crate::event::{
    AugmentCardView, AugmentChoicesView, CursorAction, CursorEvent, CursorInput, CursorInputState,
    GpuLuid, ImeCandidateListView, ImeView, InputEventView, InputPosition, Key, KeyInputState,
    KeyboardInputView, OverlayEvent, OverlayEventView, ScrollAxis, WindowEventView,
};
use crate::primitive::{
    law_char, law_text, law_varint, law_zigzag, le, le_value, read_char, read_text, read_varint,
    read_zigzag, text, varint, zigzag,
};
use vstd::prelude::*;
use vstd::utf8::{encode_scalar, encode_utf8};

verus! {

/// What the overlay sends to its client.
#[derive(Debug, Clone, PartialEq)]
pub enum ServerToClientPacket {
    /// Whether the request with this number was carried out.
    Response { id: u32, success: bool },
    /// Something happened.
    Event(OverlayEvent),
}

/// View of a [`ServerToClientPacket`].
pub enum ServerToClientPacketView {
    Response { id: u32, success: bool },
    Event(OverlayEventView),
}

impl View for ServerToClientPacket {
    type V = ServerToClientPacketView;

    open spec fn view(&self) -> ServerToClientPacketView {
        match *self {
            ServerToClientPacket::Response { id, success } => ServerToClientPacketView::Response {
                id,
                success,
            },
            ServerToClientPacket::Event(event) => ServerToClientPacketView::Event(event@),
        }
    }
}

impl ServerToClientPacketView {
    /// Whether every key code in the packet names a key.
    pub open spec fn wf(self) -> bool {
        self matches ServerToClientPacketView::Event(event) ==> event.wf()
    }

    /// Whether every length in the packet is a 64-bit number.
    pub open spec fn fits(self) -> bool {
        self matches ServerToClientPacketView::Event(event) ==> event_fits(event)
    }
}

// Layout of each type.

/// Layout of a truth value.
pub open spec fn flag(b: bool) -> Seq<u8> {
    seq![if b { 1u8 } else { 0u8 }]
}

/// The items of a list one after the other.
pub open spec fn items<T>(list: Seq<T>, layout: spec_fn(T) -> Seq<u8>) -> Seq<u8>
    decreases list.len(),
{
    if list.len() == 0 {
        Seq::empty()
    } else {
        items(list.drop_last(), layout) + layout(list.last())
    }
}

/// Layout of a list.
pub open spec fn list<T>(values: Seq<T>, layout: spec_fn(T) -> Seq<u8>) -> Seq<u8> {
    varint(values.len()) + items(values, layout)
}

/// Layout of a list of texts.
pub open spec fn text_list(values: Seq<Seq<char>>) -> Seq<u8> {
    list(values, |t: Seq<char>| text(t))
}

/// Layout of a GPU identifier.
pub open spec fn gpu_luid(id: GpuLuid) -> Seq<u8> {
    varint(id.low as nat) + varint(zigzag(id.high as int))
}

/// Layout of a position.
pub open spec fn position(p: InputPosition) -> Seq<u8> {
    varint(zigzag(p.x as int)) + varint(zigzag(p.y as int))
}

/// Number of a mouse button.
pub open spec fn cursor_action(action: CursorAction) -> nat {
    match action {
        CursorAction::Left => 0,
        CursorAction::Right => 1,
        CursorAction::Middle => 2,
        CursorAction::Back => 3,
        CursorAction::Forward => 4,
    }
}

/// Layout of a mouse button's state.
pub open spec fn cursor_state(state: CursorInputState) -> Seq<u8> {
    match state {
        CursorInputState::Pressed { double_click } => varint(0) + flag(double_click),
        CursorInputState::Released => varint(1),
    }
}

/// Number of a scroll axis.
pub open spec fn scroll_axis(axis: ScrollAxis) -> nat {
    match axis {
        ScrollAxis::X => 0,
        ScrollAxis::Y => 1,
    }
}

/// Layout of what the cursor did.
pub open spec fn cursor_event(event: CursorEvent) -> Seq<u8> {
    match event {
        CursorEvent::Enter => varint(0),
        CursorEvent::Leave => varint(1),
        CursorEvent::Action { state, action } => varint(2) + (cursor_state(state) + varint(
            cursor_action(action),
        )),
        CursorEvent::Move => varint(3),
        CursorEvent::Scroll { axis, delta } => varint(4) + (varint(scroll_axis(axis)) + varint(
            zigzag(delta as int),
        )),
    }
}

/// Layout of a cursor event with its positions.
pub open spec fn cursor_input(input: CursorInput) -> Seq<u8> {
    cursor_event(input.event) + (position(input.client) + position(input.window))
}

/// Number of a key's state.
pub open spec fn key_state(state: KeyInputState) -> nat {
    match state {
        KeyInputState::Pressed => 0,
        KeyInputState::Released => 1,
    }
}

/// Layout of a key.
pub open spec fn key(k: Key) -> Seq<u8> {
    seq![k.code] + flag(k.extended)
}

/// Layout of a candidate window.
pub open spec fn candidate_list(l: ImeCandidateListView) -> Seq<u8> {
    varint(l.page_start_index as nat) + (varint(l.page_size as nat) + (varint(
        l.selected_index as nat,
    ) + text_list(l.candidates)))
}

/// Layout of an input method editor event.
pub open spec fn ime(event: ImeView) -> Seq<u8> {
    match event {
        ImeView::Enabled { lang, conversion } => varint(0) + (text(lang) + varint(
            conversion as nat,
        )),
        ImeView::Changed(lang) => varint(1) + text(lang),
        ImeView::ConversionChanged(conversion) => varint(2) + varint(conversion as nat),
        ImeView::CandidateChanged(l) => varint(3) + candidate_list(l),
        ImeView::CandidateClosed => varint(4),
        ImeView::Compose { text: t, caret } => varint(5) + (text(t) + varint(caret as nat)),
        ImeView::Commit(t) => varint(6) + text(t),
        ImeView::Disabled => varint(7),
    }
}

/// Layout of what the keyboard did.
pub open spec fn keyboard_input(input: KeyboardInputView) -> Seq<u8> {
    match input {
        KeyboardInputView::Key { key: k, state } => varint(0) + (key(k) + varint(key_state(state))),
        KeyboardInputView::Char(ch) => varint(1) + encode_scalar(ch as u32),
        KeyboardInputView::Ime(event) => varint(2) + ime(event),
    }
}

/// Layout of a window's input.
pub open spec fn input_event(event: InputEventView) -> Seq<u8> {
    match event {
        InputEventView::Cursor(input) => varint(0) + cursor_input(input),
        InputEventView::Keyboard(input) => varint(1) + keyboard_input(input),
    }
}

/// Layout of a window event.
pub open spec fn window_event(event: WindowEventView) -> Seq<u8> {
    match event {
        WindowEventView::Added { width, height, gpu_id } => varint(0) + (varint(width as nat) + (
        varint(height as nat) + gpu_luid(gpu_id))),
        WindowEventView::Resized { width, height } => varint(1) + (varint(width as nat) + varint(
            height as nat,
        )),
        WindowEventView::Input(event) => varint(2) + input_event(event),
        WindowEventView::InputBlockingEnded => varint(3),
        WindowEventView::Destroyed => varint(4),
    }
}

/// Layout of an augment card.
pub open spec fn augment_card(card: AugmentCardView) -> Seq<u8> {
    varint(card.instance as nat) + (text(card.name) + (text(card.description) + (le(
        card.x as nat,
        4,
    ) + (le(card.y as nat, 4) + (le(card.width as nat, 4) + le(card.height as nat, 4))))))
}

/// Layout of an augment choice snapshot.
pub open spec fn augment_choices(choices: AugmentChoicesView) -> Seq<u8> {
    text(choices.mode) + list(choices.cards, |c: AugmentCardView| augment_card(c))
}

/// Layout of an overlay event.
pub open spec fn overlay_event(event: OverlayEventView) -> Seq<u8> {
    match event {
        OverlayEventView::Window { id, event } => varint(0) + (varint(id as nat) + window_event(
            event,
        )),
        OverlayEventView::LolAugmentChoices(choices) => varint(1) + augment_choices(choices),
        OverlayEventView::LolAugmentReadError(error) => varint(2) + text(error),
        OverlayEventView::LolAugmentOwned(names) => varint(3) + text_list(names),
    }
}

/// Layout of a packet.
pub open spec fn packet(p: ServerToClientPacketView) -> Seq<u8> {
    match p {
        ServerToClientPacketView::Response { id, success } => varint(0) + (varint(id as nat) + flag(
            success,
        )),
        ServerToClientPacketView::Event(event) => varint(1) + overlay_event(event),
    }
}

// What a packet reads as.

/// The byte that `s` starts with and what follows it.
pub open spec fn read_byte(s: Seq<u8>) -> Option<(u8, Seq<u8>)> {
    if s.len() > 0 {
        Some((s[0], s.skip(1)))
    } else {
        None
    }
}

/// The truth value that `s` starts with and what follows it.
pub open spec fn read_flag(s: Seq<u8>) -> Option<(bool, Seq<u8>)> {
    if s.len() > 0 && s[0] <= 1 {
        Some((s[0] == 1, s.skip(1)))
    } else {
        None
    }
}

/// The four byte number that `s` starts with and what follows it.
pub open spec fn read_bits(s: Seq<u8>) -> Option<(u32, Seq<u8>)> {
    if s.len() >= 4 {
        Some((le_value(s.take(4)) as u32, s.skip(4)))
    } else {
        None
    }
}

/// The 32-bit number that `s` starts with and what follows it.
pub open spec fn read_u32(s: Seq<u8>) -> Option<(u32, Seq<u8>)> {
    match read_varint(s, 4) {
        Some((n, rest)) => Some((n as u32, rest)),
        None => None,
    }
}

/// The signed 32-bit number that `s` starts with and what follows it.
pub open spec fn read_i32(s: Seq<u8>) -> Option<(i32, Seq<u8>)> {
    match read_zigzag(s) {
        Some((n, rest)) => Some((n as i32, rest)),
        None => None,
    }
}

/// The `n` items that `s` starts with and what follows them.
pub open spec fn read_items<T>(
    s: Seq<u8>,
    n: nat,
    read: spec_fn(Seq<u8>) -> Option<(T, Seq<u8>)>,
) -> Option<(Seq<T>, Seq<u8>)>
    decreases n,
{
    if n == 0 {
        Some((Seq::empty(), s))
    } else {
        match read_items(s, (n - 1) as nat, read) {
            Some((values, rest)) => match read(rest) {
                Some((value, rest)) => Some((values.push(value), rest)),
                None => None,
            },
            None => None,
        }
    }
}

/// The list that `s` starts with and what follows it.
pub open spec fn read_list<T>(
    s: Seq<u8>,
    read: spec_fn(Seq<u8>) -> Option<(T, Seq<u8>)>,
) -> Option<(Seq<T>, Seq<u8>)> {
    match read_varint(s, 8) {
        Some((n, rest)) => read_items(rest, n, read),
        None => None,
    }
}

/// The list of texts that `s` starts with and what follows it.
pub open spec fn read_text_list(s: Seq<u8>) -> Option<(Seq<Seq<char>>, Seq<u8>)> {
    read_list(s, |t: Seq<u8>| read_text(t))
}

/// The GPU identifier that `s` starts with and what follows it.
pub open spec fn read_gpu_luid(s: Seq<u8>) -> Option<(GpuLuid, Seq<u8>)> {
    match read_u32(s) {
        Some((low, s)) => match read_i32(s) {
            Some((high, s)) => Some((GpuLuid { low, high }, s)),
            None => None,
        },
        None => None,
    }
}

/// The position that `s` starts with and what follows it.
pub open spec fn read_position(s: Seq<u8>) -> Option<(InputPosition, Seq<u8>)> {
    match read_i32(s) {
        Some((x, s)) => match read_i32(s) {
            Some((y, s)) => Some((InputPosition { x, y }, s)),
            None => None,
        },
        None => None,
    }
}

/// The mouse button that `s` starts with and what follows it.
pub open spec fn read_cursor_action(s: Seq<u8>) -> Option<(CursorAction, Seq<u8>)> {
    match read_u32(s) {
        Some((0, s)) => Some((CursorAction::Left, s)),
        Some((1, s)) => Some((CursorAction::Right, s)),
        Some((2, s)) => Some((CursorAction::Middle, s)),
        Some((3, s)) => Some((CursorAction::Back, s)),
        Some((4, s)) => Some((CursorAction::Forward, s)),
        _ => None,
    }
}

/// The mouse button state that `s` starts with and what follows it.
pub open spec fn read_cursor_state(s: Seq<u8>) -> Option<(CursorInputState, Seq<u8>)> {
    match read_u32(s) {
        Some((0, s)) => match read_flag(s) {
            Some((double_click, s)) => Some((CursorInputState::Pressed { double_click }, s)),
            None => None,
        },
        Some((1, s)) => Some((CursorInputState::Released, s)),
        _ => None,
    }
}

/// The scroll axis that `s` starts with and what follows it.
pub open spec fn read_scroll_axis(s: Seq<u8>) -> Option<(ScrollAxis, Seq<u8>)> {
    match read_u32(s) {
        Some((0, s)) => Some((ScrollAxis::X, s)),
        Some((1, s)) => Some((ScrollAxis::Y, s)),
        _ => None,
    }
}

/// What the cursor did, at the start of `s`, and what follows it.
pub open spec fn read_cursor_event(s: Seq<u8>) -> Option<(CursorEvent, Seq<u8>)> {
    match read_u32(s) {
        Some((0, s)) => Some((CursorEvent::Enter, s)),
        Some((1, s)) => Some((CursorEvent::Leave, s)),
        Some((2, s)) => match read_cursor_state(s) {
            Some((state, s)) => match read_cursor_action(s) {
                Some((action, s)) => Some((CursorEvent::Action { state, action }, s)),
                None => None,
            },
            None => None,
        },
        Some((3, s)) => Some((CursorEvent::Move, s)),
        Some((4, s)) => match read_scroll_axis(s) {
            Some((axis, s)) => match read_i32(s) {
                Some((delta, s)) => Some((CursorEvent::Scroll { axis, delta }, s)),
                None => None,
            },
            None => None,
        },
        _ => None,
    }
}

/// The cursor event with its positions that `s` starts with and what follows it.
pub open spec fn read_cursor_input(s: Seq<u8>) -> Option<(CursorInput, Seq<u8>)> {
    match read_cursor_event(s) {
        Some((event, s)) => match read_position(s) {
            Some((client, s)) => match read_position(s) {
                Some((window, s)) => Some((CursorInput { event, client, window }, s)),
                None => None,
            },
            None => None,
        },
        None => None,
    }
}

/// The key state that `s` starts with and what follows it.
pub open spec fn read_key_state(s: Seq<u8>) -> Option<(KeyInputState, Seq<u8>)> {
    match read_u32(s) {
        Some((0, s)) => Some((KeyInputState::Pressed, s)),
        Some((1, s)) => Some((KeyInputState::Released, s)),
        _ => None,
    }
}

/// The key that `s` starts with and what follows it. A zero is no key.
pub open spec fn read_key(s: Seq<u8>) -> Option<(Key, Seq<u8>)> {
    match read_byte(s) {
        Some((code, s)) => if code == 0 {
            None
        } else {
            match read_flag(s) {
                Some((extended, s)) => Some((Key { code, extended }, s)),
                None => None,
            }
        },
        None => None,
    }
}

/// The candidate window that `s` starts with and what follows it.
pub open spec fn read_candidate_list(s: Seq<u8>) -> Option<(ImeCandidateListView, Seq<u8>)> {
    match read_u32(s) {
        Some((page_start_index, s)) => match read_u32(s) {
            Some((page_size, s)) => match read_u32(s) {
                Some((selected_index, s)) => match read_text_list(s) {
                    Some((candidates, s)) => Some(
                        (
                            ImeCandidateListView {
                                page_start_index,
                                page_size,
                                selected_index,
                                candidates,
                            },
                            s,
                        ),
                    ),
                    None => None,
                },
                None => None,
            },
            None => None,
        },
        None => None,
    }
}

/// The input method editor event that `s` starts with and what follows it.
pub open spec fn read_ime(s: Seq<u8>) -> Option<(ImeView, Seq<u8>)> {
    match read_u32(s) {
        Some((0, s)) => match read_text(s) {
            Some((lang, s)) => match read_u32(s) {
                Some((conversion, s)) => Some((ImeView::Enabled { lang, conversion }, s)),
                None => None,
            },
            None => None,
        },
        Some((1, s)) => match read_text(s) {
            Some((lang, s)) => Some((ImeView::Changed(lang), s)),
            None => None,
        },
        Some((2, s)) => match read_u32(s) {
            Some((conversion, s)) => Some((ImeView::ConversionChanged(conversion), s)),
            None => None,
        },
        Some((3, s)) => match read_candidate_list(s) {
            Some((l, s)) => Some((ImeView::CandidateChanged(l), s)),
            None => None,
        },
        Some((4, s)) => Some((ImeView::CandidateClosed, s)),
        Some((5, s)) => match read_text(s) {
            Some((text, s)) => match read_varint(s, 8) {
                Some((caret, s)) => Some((ImeView::Compose { text, caret: caret as u64 }, s)),
                None => None,
            },
            None => None,
        },
        Some((6, s)) => match read_text(s) {
            Some((text, s)) => Some((ImeView::Commit(text), s)),
            None => None,
        },
        Some((7, s)) => Some((ImeView::Disabled, s)),
        _ => None,
    }
}

/// What the keyboard did, at the start of `s`, and what follows it.
pub open spec fn read_keyboard_input(s: Seq<u8>) -> Option<(KeyboardInputView, Seq<u8>)> {
    match read_u32(s) {
        Some((0, s)) => match read_key(s) {
            Some((key, s)) => match read_key_state(s) {
                Some((state, s)) => Some((KeyboardInputView::Key { key, state }, s)),
                None => None,
            },
            None => None,
        },
        Some((1, s)) => match read_char(s) {
            Some((ch, s)) => Some((KeyboardInputView::Char(ch), s)),
            None => None,
        },
        Some((2, s)) => match read_ime(s) {
            Some((event, s)) => Some((KeyboardInputView::Ime(event), s)),
            None => None,
        },
        _ => None,
    }
}

/// The window input that `s` starts with and what follows it.
pub open spec fn read_input_event(s: Seq<u8>) -> Option<(InputEventView, Seq<u8>)> {
    match read_u32(s) {
        Some((0, s)) => match read_cursor_input(s) {
            Some((input, s)) => Some((InputEventView::Cursor(input), s)),
            None => None,
        },
        Some((1, s)) => match read_keyboard_input(s) {
            Some((input, s)) => Some((InputEventView::Keyboard(input), s)),
            None => None,
        },
        _ => None,
    }
}

/// The window event that `s` starts with and what follows it.
pub open spec fn read_window_event(s: Seq<u8>) -> Option<(WindowEventView, Seq<u8>)> {
    match read_u32(s) {
        Some((0, s)) => match read_u32(s) {
            Some((width, s)) => match read_u32(s) {
                Some((height, s)) => match read_gpu_luid(s) {
                    Some((gpu_id, s)) => Some((WindowEventView::Added { width, height, gpu_id }, s)),
                    None => None,
                },
                None => None,
            },
            None => None,
        },
        Some((1, s)) => match read_u32(s) {
            Some((width, s)) => match read_u32(s) {
                Some((height, s)) => Some((WindowEventView::Resized { width, height }, s)),
                None => None,
            },
            None => None,
        },
        Some((2, s)) => match read_input_event(s) {
            Some((event, s)) => Some((WindowEventView::Input(event), s)),
            None => None,
        },
        Some((3, s)) => Some((WindowEventView::InputBlockingEnded, s)),
        Some((4, s)) => Some((WindowEventView::Destroyed, s)),
        _ => None,
    }
}

/// The four single precision numbers that `s` starts with and what follows them.
pub open spec fn read_rect(s: Seq<u8>) -> Option<((u32, u32, u32, u32), Seq<u8>)> {
    match read_bits(s) {
        Some((x, s)) => match read_bits(s) {
            Some((y, s)) => match read_bits(s) {
                Some((width, s)) => match read_bits(s) {
                    Some((height, s)) => Some(((x, y, width, height), s)),
                    None => None,
                },
                None => None,
            },
            None => None,
        },
        None => None,
    }
}

/// The augment card that `s` starts with and what follows it.
pub open spec fn read_augment_card(s: Seq<u8>) -> Option<(AugmentCardView, Seq<u8>)> {
    match read_u32(s) {
        Some((instance, s)) => match read_text(s) {
            Some((name, s)) => match read_text(s) {
                Some((description, s)) => match read_rect(s) {
                    Some(((x, y, width, height), s)) => Some(
                        (
                            AugmentCardView { instance, name, description, x, y, width, height },
                            s,
                        ),
                    ),
                    None => None,
                },
                None => None,
            },
            None => None,
        },
        None => None,
    }
}

/// The augment choice snapshot that `s` starts with and what follows it.
pub open spec fn read_augment_choices(s: Seq<u8>) -> Option<(AugmentChoicesView, Seq<u8>)> {
    match read_text(s) {
        Some((mode, s)) => match read_list(s, |t: Seq<u8>| read_augment_card(t)) {
            Some((cards, s)) => Some((AugmentChoicesView { mode, cards }, s)),
            None => None,
        },
        None => None,
    }
}

/// The overlay event that `s` starts with and what follows it.
pub open spec fn read_overlay_event(s: Seq<u8>) -> Option<(OverlayEventView, Seq<u8>)> {
    match read_u32(s) {
        Some((0, s)) => match read_u32(s) {
            Some((id, s)) => match read_window_event(s) {
                Some((event, s)) => Some((OverlayEventView::Window { id, event }, s)),
                None => None,
            },
            None => None,
        },
        Some((1, s)) => match read_augment_choices(s) {
            Some((choices, s)) => Some((OverlayEventView::LolAugmentChoices(choices), s)),
            None => None,
        },
        Some((2, s)) => match read_text(s) {
            Some((error, s)) => Some((OverlayEventView::LolAugmentReadError(error), s)),
            None => None,
        },
        Some((3, s)) => match read_text_list(s) {
            Some((names, s)) => Some((OverlayEventView::LolAugmentOwned(names), s)),
            None => None,
        },
        _ => None,
    }
}

/// The packet that `s` starts with and what follows it.
pub open spec fn read_packet(s: Seq<u8>) -> Option<(ServerToClientPacketView, Seq<u8>)> {
    match read_u32(s) {
        Some((0, s)) => match read_u32(s) {
            Some((id, s)) => match read_flag(s) {
                Some((success, s)) => Some((ServerToClientPacketView::Response { id, success }, s)),
                None => None,
            },
            None => None,
        },
        Some((1, s)) => match read_overlay_event(s) {
            Some((event, s)) => Some((ServerToClientPacketView::Event(event), s)),
            None => None,
        },
        _ => None,
    }
}

// Which lengths a packet can hold.

/// Whether the length of a text is a 64-bit number.
pub open spec fn text_fits(chars: Seq<char>) -> bool {
    encode_utf8(chars).len() <= u64::MAX
}

/// Whether the length of a list, and of every text in it, is a 64-bit number.
pub open spec fn text_list_fits(values: Seq<Seq<char>>) -> bool {
    &&& values.len() <= u64::MAX
    &&& forall|i: int| 0 <= i < values.len() ==> text_fits(#[trigger] values[i])
}

/// Whether the lengths in an input method editor event are 64-bit numbers.
pub open spec fn ime_fits(event: ImeView) -> bool {
    match event {
        ImeView::Enabled { lang, .. } => text_fits(lang),
        ImeView::Changed(lang) => text_fits(lang),
        ImeView::CandidateChanged(l) => text_list_fits(l.candidates),
        ImeView::Compose { text: t, .. } => text_fits(t),
        ImeView::Commit(t) => text_fits(t),
        _ => true,
    }
}

/// Whether the lengths in a card are 64-bit numbers.
pub open spec fn card_fits(card: AugmentCardView) -> bool {
    text_fits(card.name) && text_fits(card.description)
}

/// Whether the lengths in an augment choice snapshot are 64-bit numbers.
pub open spec fn choices_fit(choices: AugmentChoicesView) -> bool {
    &&& text_fits(choices.mode)
    &&& choices.cards.len() <= u64::MAX
    &&& forall|i: int| 0 <= i < choices.cards.len() ==> card_fits(#[trigger] choices.cards[i])
}

/// Whether the lengths in a window event are 64-bit numbers.
pub open spec fn window_event_fits(event: WindowEventView) -> bool {
    event matches WindowEventView::Input(
        InputEventView::Keyboard(KeyboardInputView::Ime(event)),
    ) ==> ime_fits(event)
}

/// Whether the lengths in an overlay event are 64-bit numbers.
pub open spec fn event_fits(event: OverlayEventView) -> bool {
    match event {
        OverlayEventView::Window { event, .. } => window_event_fits(event),
        OverlayEventView::LolAugmentChoices(choices) => choices_fit(choices),
        OverlayEventView::LolAugmentOwned(names) => text_list_fits(names),
        OverlayEventView::LolAugmentReadError(error) => text_fits(error),
    }
}


// Everything that was laid out can be read back.

pub(crate) proof fn lemma_assoc(a: Seq<u8>, b: Seq<u8>, c: Seq<u8>)
    ensures
        (a + b) + c == a + (b + c),
{
    assert((a + b) + c =~= a + (b + c));
}

proof fn lemma_number(v: u32, rest: Seq<u8>)
    ensures
        read_u32(varint(v as nat) + rest) == Some((v, rest)),
{
    law_varint(v as nat, 4, rest);
}

proof fn lemma_signed(v: i32, rest: Seq<u8>)
    ensures
        read_i32(varint(zigzag(v as int)) + rest) == Some((v, rest)),
{
    law_zigzag(v, rest);
}

proof fn lemma_flag(b: bool, rest: Seq<u8>)
    ensures
        read_flag(flag(b) + rest) == Some((b, rest)),
{
    assert((flag(b) + rest).skip(1) =~= rest);
}

proof fn lemma_bits(v: u32, rest: Seq<u8>)
    ensures
        read_bits(le(v as nat, 4) + rest) == Some((v, rest)),
{
    lemma_le_four(v);
    assert((le(v as nat, 4) + rest).take(4) =~= le(v as nat, 4));
    assert((le(v as nat, 4) + rest).skip(4) =~= rest);
}

/// The four digits of a 32-bit number, and that they make it up.
pub(crate) proof fn lemma_le_four(v: u32)
    ensures
        le(v as nat, 4) == seq![
            (v % 256) as u8,
            (v / 256 % 256) as u8,
            (v / 65536 % 256) as u8,
            (v / 16777216) as u8,
        ],
        le_value(le(v as nat, 4)) == v,
{
    reveal_with_fuel(le, 5);
    let digits = seq![
        (v % 256) as u8,
        (v / 256 % 256) as u8,
        (v / 65536 % 256) as u8,
        (v / 16777216) as u8,
    ];
    assert(le(v as nat, 4) =~= digits);
    lemma_le_value_four(digits);
}

/// The number that four digits make up.
pub(crate) proof fn lemma_le_value_four(s: Seq<u8>)
    requires
        s.len() == 4,
    ensures
        le_value(s) == s[0] + 256 * s[1] + 65536 * s[2] + 16777216 * s[3],
{
    reveal_with_fuel(le_value, 5);
    let t = s.drop_first();
    assert(t.len() == 3 && t[0] == s[1] && t[1] == s[2] && t[2] == s[3]);
    let u = t.drop_first();
    assert(u.len() == 2 && u[0] == s[2] && u[1] == s[3]);
    let w = u.drop_first();
    assert(w.len() == 1 && w[0] == s[3]);
    assert(w.drop_first().len() == 0);
}

proof fn lemma_items<T>(
    values: Seq<T>,
    layout: spec_fn(T) -> Seq<u8>,
    read: spec_fn(Seq<u8>) -> Option<(T, Seq<u8>)>,
    rest: Seq<u8>,
)
    requires
        forall|i: int, r: Seq<u8>|
            0 <= i < values.len() ==> #[trigger] read(layout(values[i]) + r) == Some(
                (values[i], r),
            ),
    ensures
        read_items(items(values, layout) + rest, values.len(), read) == Some((values, rest)),
    decreases values.len(),
{
    if values.len() == 0 {
        assert(items(values, layout) + rest =~= rest);
        assert(values =~= Seq::empty());
    } else {
        let init = values.drop_last();
        let n = values.len() - 1;
        let last = layout(values[n]);
        assert forall|i: int, r: Seq<u8>| 0 <= i < init.len() implies #[trigger] read(
            layout(init[i]) + r,
        ) == Some((init[i], r)) by {
            assert(init[i] == values[i]);
        }
        lemma_items(init, layout, read, last + rest);
        lemma_assoc(items(init, layout), last, rest);
        assert(read(layout(values[n]) + rest) == Some((values[n], rest)));
        assert(init.push(values[n]) =~= values);
    }
}

proof fn lemma_list<T>(
    values: Seq<T>,
    layout: spec_fn(T) -> Seq<u8>,
    read: spec_fn(Seq<u8>) -> Option<(T, Seq<u8>)>,
    rest: Seq<u8>,
)
    requires
        values.len() <= u64::MAX,
        forall|i: int, r: Seq<u8>|
            0 <= i < values.len() ==> #[trigger] read(layout(values[i]) + r) == Some(
                (values[i], r),
            ),
    ensures
        read_list(list(values, layout) + rest, read) == Some((values, rest)),
{
    lemma_assoc(varint(values.len()), items(values, layout), rest);
    law_varint(values.len(), 8, items(values, layout) + rest);
    lemma_items(values, layout, read, rest);
}

proof fn lemma_text_list(values: Seq<Seq<char>>, rest: Seq<u8>)
    requires
        text_list_fits(values),
    ensures
        read_text_list(text_list(values) + rest) == Some((values, rest)),
{
    let layout = |t: Seq<char>| text(t);
    let read = |t: Seq<u8>| read_text(t);
    assert forall|i: int, r: Seq<u8>| 0 <= i < values.len() implies #[trigger] read(
        layout(values[i]) + r,
    ) == Some((values[i], r)) by {
        law_text(values[i], r);
    }
    lemma_list(values, layout, read, rest);
}

proof fn lemma_gpu_luid(id: GpuLuid, rest: Seq<u8>)
    ensures
        read_gpu_luid(gpu_luid(id) + rest) == Some((id, rest)),
{
    let high = varint(zigzag(id.high as int));
    lemma_assoc(varint(id.low as nat), high, rest);
    lemma_number(id.low, high + rest);
    lemma_signed(id.high, rest);
}

proof fn lemma_position(p: InputPosition, rest: Seq<u8>)
    ensures
        read_position(position(p) + rest) == Some((p, rest)),
{
    let y = varint(zigzag(p.y as int));
    lemma_assoc(varint(zigzag(p.x as int)), y, rest);
    lemma_signed(p.x, y + rest);
    lemma_signed(p.y, rest);
}

proof fn lemma_cursor_action(action: CursorAction, rest: Seq<u8>)
    ensures
        read_cursor_action(varint(cursor_action(action)) + rest) == Some((action, rest)),
{
    lemma_number(cursor_action(action) as u32, rest);
}

proof fn lemma_cursor_state(state: CursorInputState, rest: Seq<u8>)
    ensures
        read_cursor_state(cursor_state(state) + rest) == Some((state, rest)),
{
    match state {
        CursorInputState::Pressed { double_click } => {
            lemma_assoc(varint(0), flag(double_click), rest);
            lemma_number(0, flag(double_click) + rest);
            lemma_flag(double_click, rest);
        },
        CursorInputState::Released => {
            lemma_number(1, rest);
        },
    }
}

proof fn lemma_cursor_event(event: CursorEvent, rest: Seq<u8>)
    ensures
        read_cursor_event(cursor_event(event) + rest) == Some((event, rest)),
{
    match event {
        CursorEvent::Enter => lemma_number(0, rest),
        CursorEvent::Leave => lemma_number(1, rest),
        CursorEvent::Action { state, action } => {
            let a = varint(cursor_action(action));
            lemma_assoc(varint(2), cursor_state(state) + a, rest);
            lemma_assoc(cursor_state(state), a, rest);
            lemma_number(2, cursor_state(state) + (a + rest));
            lemma_cursor_state(state, a + rest);
            lemma_cursor_action(action, rest);
        },
        CursorEvent::Move => lemma_number(3, rest),
        CursorEvent::Scroll { axis, delta } => {
            let a = varint(scroll_axis(axis));
            let d = varint(zigzag(delta as int));
            lemma_assoc(varint(4), a + d, rest);
            lemma_assoc(a, d, rest);
            lemma_number(4, a + (d + rest));
            lemma_number(scroll_axis(axis) as u32, d + rest);
            lemma_signed(delta, rest);
        },
    }
}

proof fn lemma_cursor_input(input: CursorInput, rest: Seq<u8>)
    ensures
        read_cursor_input(cursor_input(input) + rest) == Some((input, rest)),
{
    let client = position(input.client);
    let window = position(input.window);
    lemma_assoc(cursor_event(input.event), client + window, rest);
    lemma_assoc(client, window, rest);
    lemma_cursor_event(input.event, client + (window + rest));
    lemma_position(input.client, window + rest);
    lemma_position(input.window, rest);
}

proof fn lemma_key(k: Key, rest: Seq<u8>)
    requires
        k.wf(),
    ensures
        read_key(key(k) + rest) == Some((k, rest)),
{
    assert((key(k) + rest).skip(1) =~= flag(k.extended) + rest);
    lemma_flag(k.extended, rest);
}

proof fn lemma_candidate_list(l: ImeCandidateListView, rest: Seq<u8>)
    requires
        text_list_fits(l.candidates),
    ensures
        read_candidate_list(candidate_list(l) + rest) == Some((l, rest)),
{
    let a = varint(l.page_start_index as nat);
    let b = varint(l.page_size as nat);
    let c = varint(l.selected_index as nat);
    let d = text_list(l.candidates);
    lemma_assoc(a, b + (c + d), rest);
    lemma_assoc(b, c + d, rest);
    lemma_assoc(c, d, rest);
    lemma_number(l.page_start_index, b + (c + (d + rest)));
    lemma_number(l.page_size, c + (d + rest));
    lemma_number(l.selected_index, d + rest);
    lemma_text_list(l.candidates, rest);
}

proof fn lemma_ime(event: ImeView, rest: Seq<u8>)
    requires
        ime_fits(event),
    ensures
        read_ime(ime(event) + rest) == Some((event, rest)),
{
    match event {
        ImeView::Enabled { lang, conversion } => {
            let c = varint(conversion as nat);
            lemma_assoc(varint(0), text(lang) + c, rest);
            lemma_assoc(text(lang), c, rest);
            lemma_number(0, text(lang) + (c + rest));
            law_text(lang, c + rest);
            lemma_number(conversion, rest);
        },
        ImeView::Changed(lang) => {
            lemma_assoc(varint(1), text(lang), rest);
            lemma_number(1, text(lang) + rest);
            law_text(lang, rest);
        },
        ImeView::ConversionChanged(conversion) => {
            let c = varint(conversion as nat);
            lemma_assoc(varint(2), c, rest);
            lemma_number(2, c + rest);
            lemma_number(conversion, rest);
        },
        ImeView::CandidateChanged(l) => {
            lemma_assoc(varint(3), candidate_list(l), rest);
            lemma_number(3, candidate_list(l) + rest);
            lemma_candidate_list(l, rest);
        },
        ImeView::CandidateClosed => lemma_number(4, rest),
        ImeView::Compose { text: t, caret } => {
            let c = varint(caret as nat);
            lemma_assoc(varint(5), text(t) + c, rest);
            lemma_assoc(text(t), c, rest);
            lemma_number(5, text(t) + (c + rest));
            law_text(t, c + rest);
            law_varint(caret as nat, 8, rest);
        },
        ImeView::Commit(t) => {
            lemma_assoc(varint(6), text(t), rest);
            lemma_number(6, text(t) + rest);
            law_text(t, rest);
        },
        ImeView::Disabled => lemma_number(7, rest),
    }
}

proof fn lemma_keyboard_input(input: KeyboardInputView, rest: Seq<u8>)
    requires
        input matches KeyboardInputView::Key { key: k, .. } ==> k.wf(),
        input matches KeyboardInputView::Ime(event) ==> ime_fits(event),
    ensures
        read_keyboard_input(keyboard_input(input) + rest) == Some((input, rest)),
{
    match input {
        KeyboardInputView::Key { key: k, state } => {
            let t = varint(key_state(state));
            lemma_assoc(varint(0), key(k) + t, rest);
            lemma_assoc(key(k), t, rest);
            lemma_number(0, key(k) + (t + rest));
            lemma_key(k, t + rest);
            lemma_number(key_state(state) as u32, rest);
        },
        KeyboardInputView::Char(ch) => {
            let c = encode_scalar(ch as u32);
            lemma_assoc(varint(1), c, rest);
            lemma_number(1, c + rest);
            law_char(ch, rest);
        },
        KeyboardInputView::Ime(event) => {
            lemma_assoc(varint(2), ime(event), rest);
            lemma_number(2, ime(event) + rest);
            lemma_ime(event, rest);
        },
    }
}

proof fn lemma_input_event(event: InputEventView, rest: Seq<u8>)
    requires
        event matches InputEventView::Keyboard(KeyboardInputView::Key { key: k, .. }) ==> k.wf(),
        event matches InputEventView::Keyboard(KeyboardInputView::Ime(e)) ==> ime_fits(e),
    ensures
        read_input_event(input_event(event) + rest) == Some((event, rest)),
{
    match event {
        InputEventView::Cursor(input) => {
            lemma_assoc(varint(0), cursor_input(input), rest);
            lemma_number(0, cursor_input(input) + rest);
            lemma_cursor_input(input, rest);
        },
        InputEventView::Keyboard(input) => {
            lemma_assoc(varint(1), keyboard_input(input), rest);
            lemma_number(1, keyboard_input(input) + rest);
            lemma_keyboard_input(input, rest);
        },
    }
}

proof fn lemma_window_event(event: WindowEventView, rest: Seq<u8>)
    requires
        event matches WindowEventView::Input(
            InputEventView::Keyboard(KeyboardInputView::Key { key: k, .. }),
        ) ==> k.wf(),
        window_event_fits(event),
    ensures
        read_window_event(window_event(event) + rest) == Some((event, rest)),
{
    match event {
        WindowEventView::Added { width, height, gpu_id } => {
            let w = varint(width as nat);
            let h = varint(height as nat);
            let g = gpu_luid(gpu_id);
            lemma_assoc(varint(0), w + (h + g), rest);
            lemma_assoc(w, h + g, rest);
            lemma_assoc(h, g, rest);
            lemma_number(0, w + (h + (g + rest)));
            lemma_number(width, h + (g + rest));
            lemma_number(height, g + rest);
            lemma_gpu_luid(gpu_id, rest);
        },
        WindowEventView::Resized { width, height } => {
            let w = varint(width as nat);
            let h = varint(height as nat);
            lemma_assoc(varint(1), w + h, rest);
            lemma_assoc(w, h, rest);
            lemma_number(1, w + (h + rest));
            lemma_number(width, h + rest);
            lemma_number(height, rest);
        },
        WindowEventView::Input(event) => {
            lemma_assoc(varint(2), input_event(event), rest);
            lemma_number(2, input_event(event) + rest);
            lemma_input_event(event, rest);
        },
        WindowEventView::InputBlockingEnded => lemma_number(3, rest),
        WindowEventView::Destroyed => lemma_number(4, rest),
    }
}

proof fn lemma_augment_card(card: AugmentCardView, rest: Seq<u8>)
    requires
        card_fits(card),
    ensures
        read_augment_card(augment_card(card) + rest) == Some((card, rest)),
{
    let i = varint(card.instance as nat);
    let n = text(card.name);
    let d = text(card.description);
    let x = le(card.x as nat, 4);
    let y = le(card.y as nat, 4);
    let w = le(card.width as nat, 4);
    let h = le(card.height as nat, 4);
    lemma_assoc(i, n + (d + (x + (y + (w + h)))), rest);
    lemma_assoc(n, d + (x + (y + (w + h))), rest);
    lemma_assoc(d, x + (y + (w + h)), rest);
    lemma_assoc(x, y + (w + h), rest);
    lemma_assoc(y, w + h, rest);
    lemma_assoc(w, h, rest);
    let tail = x + (y + (w + (h + rest)));
    lemma_number(card.instance, n + (d + tail));
    law_text(card.name, d + tail);
    law_text(card.description, tail);
    lemma_bits(card.x, y + (w + (h + rest)));
    lemma_bits(card.y, w + (h + rest));
    lemma_bits(card.width, h + rest);
    lemma_bits(card.height, rest);
}

proof fn lemma_augment_choices(choices: AugmentChoicesView, rest: Seq<u8>)
    requires
        choices_fit(choices),
    ensures
        read_augment_choices(augment_choices(choices) + rest) == Some((choices, rest)),
{
    let layout = |c: AugmentCardView| augment_card(c);
    let read = |t: Seq<u8>| read_augment_card(t);
    let cards = list(choices.cards, layout);
    lemma_assoc(text(choices.mode), cards, rest);
    law_text(choices.mode, cards + rest);
    assert forall|i: int, r: Seq<u8>| 0 <= i < choices.cards.len() implies #[trigger] read(
        layout(choices.cards[i]) + r,
    ) == Some((choices.cards[i], r)) by {
        lemma_augment_card(choices.cards[i], r);
    }
    lemma_list(choices.cards, layout, read, rest);
}

/// An overlay event can be read back from its layout, whatever follows it.
pub proof fn law_overlay_event(event: OverlayEventView, rest: Seq<u8>)
    requires
        event.wf(),
        event_fits(event),
    ensures
        read_overlay_event(overlay_event(event) + rest) == Some((event, rest)),
{
    match event {
        OverlayEventView::Window { id, event } => {
            let i = varint(id as nat);
            let e = window_event(event);
            lemma_assoc(varint(0), i + e, rest);
            lemma_assoc(i, e, rest);
            lemma_number(0, i + (e + rest));
            lemma_number(id, e + rest);
            lemma_window_event(event, rest);
        },
        OverlayEventView::LolAugmentChoices(choices) => {
            lemma_assoc(varint(1), augment_choices(choices), rest);
            lemma_number(1, augment_choices(choices) + rest);
            lemma_augment_choices(choices, rest);
        },
        OverlayEventView::LolAugmentReadError(error) => {
            lemma_assoc(varint(2), text(error), rest);
            lemma_number(2, text(error) + rest);
            law_text(error, rest);
        },
        OverlayEventView::LolAugmentOwned(names) => {
            lemma_assoc(varint(3), text_list(names), rest);
            lemma_number(3, text_list(names) + rest);
            lemma_text_list(names, rest);
        },
    }
}

/// A packet can be read back from its layout, whatever follows it.
pub proof fn law_packet(p: ServerToClientPacketView, rest: Seq<u8>)
    requires
        p.wf(),
        p.fits(),
    ensures
        read_packet(packet(p) + rest) == Some((p, rest)),
{
    match p {
        ServerToClientPacketView::Response { id, success } => {
            let i = varint(id as nat);
            lemma_assoc(varint(0), i + flag(success), rest);
            lemma_assoc(i, flag(success), rest);
            lemma_number(0, i + (flag(success) + rest));
            lemma_number(id, flag(success) + rest);
            lemma_flag(success, rest);
        },
        ServerToClientPacketView::Event(event) => {
            lemma_assoc(varint(1), overlay_event(event), rest);
            lemma_number(1, overlay_event(event) + rest);
            law_overlay_event(event, rest);
        },
    }
}

/// A packet begins with one byte that says what it is, zero for a response and one for an event. A
/// response goes on with the number of its request and one byte for whether that was carried out;
/// an event with one byte for its kind, and that of a window with the window's number.
pub proof fn law_packet_layout(
    id: u32,
    success: bool,
    event: WindowEventView,
    choices: AugmentChoicesView,
    error: Seq<char>,
    names: Seq<Seq<char>>,
)
    ensures
        packet(ServerToClientPacketView::Response { id, success }) == seq![0u8] + varint(id as nat)
            + seq![if success { 1u8 } else { 0u8 }],
        packet(ServerToClientPacketView::Event(OverlayEventView::Window { id, event })) == seq![
            1u8,
            0u8,
        ] + varint(id as nat) + window_event(event),
        packet(ServerToClientPacketView::Event(OverlayEventView::LolAugmentChoices(choices)))
            == seq![1u8, 1u8] + text(choices.mode) + varint(choices.cards.len()) + items(
            choices.cards,
            |c: AugmentCardView| augment_card(c),
        ),
        packet(ServerToClientPacketView::Event(OverlayEventView::LolAugmentReadError(error)))
            == seq![1u8, 2u8] + text(error),
        packet(ServerToClientPacketView::Event(OverlayEventView::LolAugmentOwned(names))) == seq![
            1u8,
            3u8,
        ] + varint(names.len()) + items(names, |t: Seq<char>| text(t)),
{
}

/// An event of a window begins with one byte for its kind. That of a new window goes on with its
/// width, its height, and the low and the high part of its adapter, and that of a resize with the
/// width and the height.
pub proof fn law_window_event_layout(width: u32, height: u32, gpu_id: GpuLuid, event: InputEventView)
    ensures
        window_event(WindowEventView::Added { width, height, gpu_id }) == seq![0u8] + varint(
            width as nat,
        ) + varint(height as nat) + varint(gpu_id.low as nat) + varint(zigzag(gpu_id.high as int)),
        window_event(WindowEventView::Resized { width, height }) == seq![1u8] + varint(width as nat)
            + varint(height as nat),
        window_event(WindowEventView::Input(event)) == seq![2u8] + input_event(event),
        window_event(WindowEventView::InputBlockingEnded) == seq![3u8],
        window_event(WindowEventView::Destroyed) == seq![4u8],
{
}

/// An input begins with one byte, zero for the cursor and one for the keyboard. The cursor's goes
/// on with what it did, then where it is in the client area and then where in the window, each
/// with the horizontal before the vertical.
pub proof fn law_cursor_layout(input: CursorInput)
    ensures
        input_event(InputEventView::Cursor(input)) == seq![0u8] + cursor_event(input.event)
            + varint(zigzag(input.client.x as int)) + varint(zigzag(input.client.y as int))
            + varint(zigzag(input.window.x as int)) + varint(zigzag(input.window.y as int)),
        match input.event {
            CursorEvent::Enter => cursor_event(input.event) == seq![0u8],
            CursorEvent::Leave => cursor_event(input.event) == seq![1u8],
            CursorEvent::Action { state, action } => {
                let button = match action {
                    CursorAction::Left => 0u8,
                    CursorAction::Right => 1u8,
                    CursorAction::Middle => 2u8,
                    CursorAction::Back => 3u8,
                    CursorAction::Forward => 4u8,
                };
                match state {
                    CursorInputState::Pressed { double_click } => cursor_event(input.event) == seq![
                        2u8,
                        0u8,
                        if double_click { 1u8 } else { 0u8 },
                        button,
                    ],
                    CursorInputState::Released => cursor_event(input.event) == seq![
                        2u8,
                        1u8,
                        button,
                    ],
                }
            },
            CursorEvent::Move => cursor_event(input.event) == seq![3u8],
            CursorEvent::Scroll { axis, delta } => cursor_event(input.event) == seq![
                4u8,
                if axis is X { 0u8 } else { 1u8 },
            ] + varint(zigzag(delta as int)),
        },
{
}

/// The keyboard's input goes on with one byte for what it is: a key with its code, whether it is
/// an extended one and whether it went down or up; a character; or an input method's event.
pub proof fn law_keyboard_layout(k: Key, state: KeyInputState, ch: char, event: ImeView)
    ensures
        input_event(InputEventView::Keyboard(KeyboardInputView::Key { key: k, state })) == seq![
            1u8,
            0u8,
            k.code,
            if k.extended { 1u8 } else { 0u8 },
            if state is Pressed { 0u8 } else { 1u8 },
        ],
        input_event(InputEventView::Keyboard(KeyboardInputView::Char(ch))) == seq![1u8, 1u8]
            + encode_scalar(ch as u32),
        input_event(InputEventView::Keyboard(KeyboardInputView::Ime(event))) == seq![1u8, 2u8]
            + ime(event),
{
}

/// An input method's event begins with one byte for its kind, and goes on with what belongs to it,
/// the text before the number.
pub proof fn law_ime_layout(event: ImeView)
    ensures
        match event {
            ImeView::Enabled { lang, conversion } => ime(event) == seq![0u8] + text(lang) + varint(
                conversion as nat,
            ),
            ImeView::Changed(lang) => ime(event) == seq![1u8] + text(lang),
            ImeView::ConversionChanged(conversion) => ime(event) == seq![2u8] + varint(
                conversion as nat,
            ),
            ImeView::CandidateChanged(l) => ime(event) == seq![3u8] + varint(
                l.page_start_index as nat,
            ) + varint(l.page_size as nat) + varint(l.selected_index as nat) + varint(
                l.candidates.len(),
            ) + items(l.candidates, |t: Seq<char>| text(t)),
            ImeView::CandidateClosed => ime(event) == seq![4u8],
            ImeView::Compose { text: t, caret } => ime(event) == seq![5u8] + text(t) + varint(
                caret as nat,
            ),
            ImeView::Commit(t) => ime(event) == seq![6u8] + text(t),
            ImeView::Disabled => ime(event) == seq![7u8],
        },
{
}

/// A card is the number of its instance, its name and its description, and then the four bytes
/// each of where it is and how large.
pub proof fn law_card_layout(card: AugmentCardView)
    ensures
        augment_card(card) == varint(card.instance as nat) + text(card.name) + text(
            card.description,
        ) + le(card.x as nat, 4) + le(card.y as nat, 4) + le(card.width as nat, 4) + le(
            card.height as nat,
            4,
        ),
{
}

/// The items of a list stand one after the other, the first one first.
pub proof fn law_items<T>(list: Seq<T>, layout: spec_fn(T) -> Seq<u8>, value: T)
    ensures
        items(Seq::<T>::empty(), layout).len() == 0,
        items(list.push(value), layout) == items(list, layout) + layout(value),
{
    assert(list.push(value).drop_last() =~= list);
}

/// A byte that stands for no truth value, and a number that no alternative has, is no packet.
pub proof fn law_malformed(s: Seq<u8>)
    requires
        s.len() > 0,
    ensures
        2 <= s[0] <= 250 ==> read_packet(s) is None,
        read_flag(s) is Some <==> s[0] == 0 || s[0] == 1,
        read_flag(s) matches Some((b, rest)) ==> (b <==> s[0] == 1) && rest == s.skip(1),
        s[0] == 0 ==> read_key(s) is None,
        5 <= s[0] <= 250 ==> read_cursor_action(s) is None && read_cursor_event(s) is None
            && read_window_event(s) is None,
        8 <= s[0] <= 250 ==> read_ime(s) is None,
        3 <= s[0] <= 250 ==> read_keyboard_input(s) is None,
        2 <= s[0] <= 250 ==> read_input_event(s) is None && read_key_state(s) is None
            && read_cursor_state(s) is None && read_scroll_axis(s) is None,
        4 <= s[0] <= 250 ==> read_overlay_event(s) is None,
        read_packet(Seq::<u8>::empty()) is None,
{
}

} // verus!
