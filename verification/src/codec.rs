//! Writing packets to bytes and reading them back.

use crate::event::{
    card_views, texts, AugmentCard, AugmentCardView, AugmentChoices, CursorAction, CursorEvent,
    CursorInput, CursorInputState, GpuLuid, Ime, ImeCandidateList, InputEvent, InputPosition, Key,
    KeyInputState, KeyboardInput, OverlayEvent, OwnedAugments, ScrollAxis, WindowEvent,
};
use crate::primitive::{
    decode_char, decode_i32, decode_str, decode_u32, decode_u64, encode_char, encode_i32,
    encode_str, encode_u32, encode_u64, le, read_char, read_text, read_varint, text,
    varint, zigzag,
};
use crate::wire::{
    augment_card, augment_choices, candidate_list, card_fits, choices_fit, cursor_action,
    cursor_event, cursor_input, cursor_state, event_fits, flag, gpu_luid, ime, ime_fits,
    items, key, keyboard_input, lemma_assoc, lemma_le_four,
    lemma_le_value_four, overlay_event, packet, position, read_augment_card, read_augment_choices,
    read_bits, read_byte, read_candidate_list, read_cursor_action, read_cursor_event,
    read_cursor_input, read_cursor_state, read_flag, read_gpu_luid, read_i32, read_ime,
    read_input_event, read_items, read_key, read_key_state, read_keyboard_input, read_list,
    read_overlay_event, read_packet, read_position, read_rect, read_scroll_axis, read_text_list,
    read_u32, read_window_event, text_fits, text_list, text_list_fits, window_event,
    window_event_fits, ServerToClientPacket,
};
use vstd::prelude::*;
use vstd::slice::slice_subrange;
use vstd::utf8::encode_utf8;

verus! {

/// The bytes are no packet.
#[derive(Debug, Clone, Copy, PartialEq, Eq, Structural)]
pub struct MalformedPacket;

fn put(out: &mut Vec<u8>, bytes: Vec<u8>)
    ensures
        final(out)@ == old(out)@ + bytes@,
{
    let mut tail = bytes;
    out.append(&mut tail);
}

fn put_u32(out: &mut Vec<u8>, v: u32)
    ensures
        final(out)@ == old(out)@ + varint(v as nat),
{
    put(out, encode_u32(v).unwrap());
}

fn put_u64(out: &mut Vec<u8>, v: u64)
    ensures
        final(out)@ == old(out)@ + varint(v as nat),
{
    put(out, encode_u64(v).unwrap());
}

fn put_i32(out: &mut Vec<u8>, v: i32)
    ensures
        final(out)@ == old(out)@ + varint(zigzag(v as int)),
{
    put(out, encode_i32(v).unwrap());
}

fn put_flag(out: &mut Vec<u8>, b: bool)
    ensures
        final(out)@ == old(out)@ + flag(b),
{
    out.push(if b { 1 } else { 0 });
    assert(out@ =~= old(out)@ + flag(b));
}

fn put_bits(out: &mut Vec<u8>, v: u32)
    ensures
        final(out)@ == old(out)@ + le(v as nat, 4),
{
    proof {
        lemma_le_four(v);
    }
    out.push((v % 256) as u8);
    out.push((v / 256 % 256) as u8);
    out.push((v / 65536 % 256) as u8);
    out.push((v / 16777216) as u8);
    assert(out@ =~= old(out)@ + le(v as nat, 4));
}

fn put_str(out: &mut Vec<u8>, v: &str)
    ensures
        final(out)@ == old(out)@ + text(v@),
        text_fits(v@),
{
    let bytes = v.as_bytes();
    let len: usize = bytes.len();
    assert(len as nat == encode_utf8(v@).len());
    put(out, encode_str(v).unwrap());
}

fn put_texts(out: &mut Vec<u8>, values: &Vec<String>)
    ensures
        final(out)@ == old(out)@ + text_list(texts(values@)),
        text_list_fits(texts(values@)),
{
    let ghost layout = |t: Seq<char>| text(t);
    let ghost all = texts(values@);
    let n: usize = values.len();
    put_u64(out, n as u64);
    let ghost start = out@;
    let mut i: usize = 0;
    assert(all.take(0) =~= Seq::empty());
    assert(out@ =~= start + items(all.take(0), layout));
    while i < n
        invariant
            i <= n == values.len(),
            all == texts(values@),
            layout == |t: Seq<char>| text(t),
            out@ == start + items(all.take(i as int), layout),
            forall|j: int| 0 <= j < i ==> text_fits(#[trigger] all[j]),
        decreases n - i,
    {
        let ghost before = out@;
        put_str(out, values[i].as_str());
        proof {
            assert(all[i as int] == values@[i as int]@);
            let next = all.take(i + 1);
            assert(next.drop_last() =~= all.take(i as int));
            assert(next.last() == all[i as int]);
            lemma_assoc(start, items(all.take(i as int), layout), text(all[i as int]));
        }
        i += 1;
    }
    proof {
        assert(all.take(n as int) =~= all);
        lemma_assoc(old(out)@, varint(all.len()), items(all, layout));
    }
}

fn put_gpu_luid(out: &mut Vec<u8>, id: &GpuLuid)
    ensures
        final(out)@ == old(out)@ + gpu_luid(*id),
{
    put_u32(out, id.low);
    put_i32(out, id.high);
    assert(out@ =~= old(out)@ + gpu_luid(*id));
}

fn put_position(out: &mut Vec<u8>, p: &InputPosition)
    ensures
        final(out)@ == old(out)@ + position(*p),
{
    put_i32(out, p.x);
    put_i32(out, p.y);
    assert(out@ =~= old(out)@ + position(*p));
}

fn put_cursor_action(out: &mut Vec<u8>, action: CursorAction)
    ensures
        final(out)@ == old(out)@ + varint(cursor_action(action)),
{
    let number: u32 = match action {
        CursorAction::Left => 0,
        CursorAction::Right => 1,
        CursorAction::Middle => 2,
        CursorAction::Back => 3,
        CursorAction::Forward => 4,
    };
    put_u32(out, number);
}

fn put_cursor_state(out: &mut Vec<u8>, state: CursorInputState)
    ensures
        final(out)@ == old(out)@ + cursor_state(state),
{
    match state {
        CursorInputState::Pressed { double_click } => {
            put_u32(out, 0);
            put_flag(out, double_click);
        },
        CursorInputState::Released => {
            put_u32(out, 1);
        },
    }
    assert(out@ =~= old(out)@ + cursor_state(state));
}

fn put_cursor_event(out: &mut Vec<u8>, event: CursorEvent)
    ensures
        final(out)@ == old(out)@ + cursor_event(event),
{
    match event {
        CursorEvent::Enter => {
            put_u32(out, 0);
        },
        CursorEvent::Leave => {
            put_u32(out, 1);
        },
        CursorEvent::Action { state, action } => {
            put_u32(out, 2);
            put_cursor_state(out, state);
            put_cursor_action(out, action);
        },
        CursorEvent::Move => {
            put_u32(out, 3);
        },
        CursorEvent::Scroll { axis, delta } => {
            put_u32(out, 4);
            let number: u32 = match axis {
                ScrollAxis::X => 0,
                ScrollAxis::Y => 1,
            };
            put_u32(out, number);
            put_i32(out, delta);
        },
    }
    assert(out@ =~= old(out)@ + cursor_event(event));
}

fn put_cursor_input(out: &mut Vec<u8>, input: &CursorInput)
    ensures
        final(out)@ == old(out)@ + cursor_input(*input),
{
    put_cursor_event(out, input.event);
    put_position(out, &input.client);
    put_position(out, &input.window);
    assert(out@ =~= old(out)@ + cursor_input(*input));
}

fn put_candidate_list(out: &mut Vec<u8>, l: &ImeCandidateList)
    ensures
        final(out)@ == old(out)@ + candidate_list(l@),
        text_list_fits(l@.candidates),
{
    put_u32(out, l.page_start_index);
    put_u32(out, l.page_size);
    put_u32(out, l.selected_index);
    put_texts(out, &l.candidates);
    assert(out@ =~= old(out)@ + candidate_list(l@));
}

fn put_ime(out: &mut Vec<u8>, event: &Ime)
    ensures
        final(out)@ == old(out)@ + ime(event@),
        ime_fits(event@),
{
    match event {
        Ime::Enabled { lang, conversion } => {
            put_u32(out, 0);
            put_str(out, lang.as_str());
            put_u32(out, *conversion);
        },
        Ime::Changed(lang) => {
            put_u32(out, 1);
            put_str(out, lang.as_str());
        },
        Ime::ConversionChanged(conversion) => {
            put_u32(out, 2);
            put_u32(out, *conversion);
        },
        Ime::CandidateChanged(l) => {
            put_u32(out, 3);
            put_candidate_list(out, l);
        },
        Ime::CandidateClosed => {
            put_u32(out, 4);
        },
        Ime::Compose { text, caret } => {
            put_u32(out, 5);
            put_str(out, text.as_str());
            put_u64(out, *caret);
        },
        Ime::Commit(text) => {
            put_u32(out, 6);
            put_str(out, text.as_str());
        },
        Ime::Disabled => {
            put_u32(out, 7);
        },
    }
    assert(out@ =~= old(out)@ + ime(event@));
}

fn put_keyboard_input(out: &mut Vec<u8>, input: &KeyboardInput)
    ensures
        final(out)@ == old(out)@ + keyboard_input(input@),
        input matches KeyboardInput::Ime(event) ==> ime_fits(event@),
{
    match input {
        KeyboardInput::Key { key, state } => {
            put_u32(out, 0);
            out.push(key.code);
            put_flag(out, key.extended);
            let number: u32 = match state {
                KeyInputState::Pressed => 0,
                KeyInputState::Released => 1,
            };
            put_u32(out, number);
        },
        KeyboardInput::Char(ch) => {
            put_u32(out, 1);
            put(out, encode_char(*ch).unwrap());
        },
        KeyboardInput::Ime(event) => {
            put_u32(out, 2);
            put_ime(out, event);
        },
    }
    assert(out@ =~= old(out)@ + keyboard_input(input@));
}

fn put_window_event(out: &mut Vec<u8>, event: &WindowEvent)
    ensures
        final(out)@ == old(out)@ + window_event(event@),
        window_event_fits(event@),
{
    match event {
        WindowEvent::Added { width, height, gpu_id } => {
            put_u32(out, 0);
            put_u32(out, *width);
            put_u32(out, *height);
            put_gpu_luid(out, gpu_id);
        },
        WindowEvent::Resized { width, height } => {
            put_u32(out, 1);
            put_u32(out, *width);
            put_u32(out, *height);
        },
        WindowEvent::Input(input) => {
            put_u32(out, 2);
            match input {
                InputEvent::Cursor(input) => {
                    put_u32(out, 0);
                    put_cursor_input(out, input);
                },
                InputEvent::Keyboard(input) => {
                    put_u32(out, 1);
                    put_keyboard_input(out, input);
                },
            }
        },
        WindowEvent::InputBlockingEnded => {
            put_u32(out, 3);
        },
        WindowEvent::Destroyed => {
            put_u32(out, 4);
        },
    }
    assert(out@ =~= old(out)@ + window_event(event@));
}

fn put_augment_card(out: &mut Vec<u8>, card: &AugmentCard)
    ensures
        final(out)@ == old(out)@ + augment_card(card@),
        card_fits(card@),
{
    put_u32(out, card.instance);
    put_str(out, card.name.as_str());
    put_str(out, card.description.as_str());
    put_bits(out, card.x);
    put_bits(out, card.y);
    put_bits(out, card.width);
    put_bits(out, card.height);
    assert(out@ =~= old(out)@ + augment_card(card@));
}

fn put_augment_choices(out: &mut Vec<u8>, choices: &AugmentChoices)
    ensures
        final(out)@ == old(out)@ + augment_choices(choices@),
        choices_fit(choices@),
{
    let ghost layout = |c: AugmentCardView| augment_card(c);
    let ghost all = card_views(choices.cards@);
    put_str(out, choices.mode.as_str());
    let n: usize = choices.cards.len();
    put_u64(out, n as u64);
    let ghost start = out@;
    let mut i: usize = 0;
    assert(all.take(0) =~= Seq::empty());
    assert(out@ =~= start + items(all.take(0), layout));
    while i < n
        invariant
            i <= n == choices.cards.len(),
            all == card_views(choices.cards@),
            layout == |c: AugmentCardView| augment_card(c),
            out@ == start + items(all.take(i as int), layout),
            forall|j: int| 0 <= j < i ==> card_fits(#[trigger] all[j]),
        decreases n - i,
    {
        put_augment_card(out, &choices.cards[i]);
        proof {
            assert(all[i as int] == choices.cards@[i as int]@);
            let next = all.take(i + 1);
            assert(next.drop_last() =~= all.take(i as int));
            assert(next.last() == all[i as int]);
            lemma_assoc(start, items(all.take(i as int), layout), augment_card(all[i as int]));
        }
        i += 1;
    }
    proof {
        assert(all.take(n as int) =~= all);
        assert(out@ =~= old(out)@ + augment_choices(choices@));
    }
}

fn put_overlay_event(out: &mut Vec<u8>, event: &OverlayEvent)
    ensures
        final(out)@ == old(out)@ + overlay_event(event@),
        event_fits(event@),
{
    match event {
        OverlayEvent::Window { id, event } => {
            put_u32(out, 0);
            put_u32(out, *id);
            put_window_event(out, event);
        },
        OverlayEvent::LolAugmentChoices(choices) => {
            put_u32(out, 1);
            put_augment_choices(out, choices);
        },
        OverlayEvent::LolAugmentReadError(error) => {
            put_u32(out, 2);
            put_str(out, error.as_str());
        },
        OverlayEvent::LolAugmentOwned(owned) => {
            put_u32(out, 3);
            put_texts(out, &owned.internal_names);
        },
    }
    assert(out@ =~= old(out)@ + overlay_event(event@));
}

/// Writes a packet to bytes.
pub fn encode_packet(p: &ServerToClientPacket) -> (bytes: Vec<u8>)
    ensures
        bytes@ == packet(p@),
        p@.fits(),
{
    let mut out: Vec<u8> = Vec::new();
    match p {
        ServerToClientPacket::Response { id, success } => {
            put_u32(&mut out, 0);
            put_u32(&mut out, *id);
            put_flag(&mut out, *success);
        },
        ServerToClientPacket::Event(event) => {
            put_u32(&mut out, 1);
            put_overlay_event(&mut out, event);
        },
    }
    assert(out@ =~= packet(p@));
    out
}

/// Whether what was taken from position `pos` of the bytes is what stands there.
pub open spec fn took<V>(
    parsed: Option<(V, Seq<u8>)>,
    got: Option<(V, usize)>,
    bytes: Seq<u8>,
    pos: usize,
) -> bool {
    match got {
        Some((value, end)) => pos <= end <= bytes.len() && parsed == Some(
            (value, bytes.skip(end as int)),
        ),
        None => parsed is None,
    }
}

proof fn lemma_skip(bytes: Seq<u8>, pos: usize, n: usize)
    requires
        pos + n <= bytes.len(),
    ensures
        bytes.skip(pos as int).skip(n as int) == bytes.skip(pos + n),
{
    assert(bytes.skip(pos as int).skip(n as int) =~= bytes.skip(pos + n));
}

fn after(bytes: &[u8], pos: usize) -> (r: &[u8])
    requires
        pos <= bytes@.len(),
    ensures
        r@ == bytes@.skip(pos as int),
        bytes@.len() <= usize::MAX,
{
    slice_subrange(bytes, pos, bytes.len())
}

fn take_u32(bytes: &[u8], pos: usize) -> (r: Result<(u32, usize), MalformedPacket>)
    requires
        pos <= bytes@.len(),
    ensures
        took(
            read_u32(bytes@.skip(pos as int)),
            match r {
                Ok((v, end)) => Some((v, end)),
                Err(_) => None,
            },
            bytes@,
            pos,
        ),
{
    match decode_u32(after(bytes, pos)) {
        Ok((v, n)) => {
            proof {
                lemma_skip(bytes@, pos, n);
            }
            Ok((v, pos + n))
        },
        Err(_) => Err(MalformedPacket),
    }
}

fn take_u64(bytes: &[u8], pos: usize) -> (r: Result<(u64, usize), MalformedPacket>)
    requires
        pos <= bytes@.len(),
    ensures
        took(
            read_varint(bytes@.skip(pos as int), 8),
            match r {
                Ok((v, end)) => Some((v as nat, end)),
                Err(_) => None,
            },
            bytes@,
            pos,
        ),
{
    match decode_u64(after(bytes, pos)) {
        Ok((v, n)) => {
            proof {
                lemma_skip(bytes@, pos, n);
            }
            Ok((v, pos + n))
        },
        Err(_) => Err(MalformedPacket),
    }
}

fn take_i32(bytes: &[u8], pos: usize) -> (r: Result<(i32, usize), MalformedPacket>)
    requires
        pos <= bytes@.len(),
    ensures
        took(
            read_i32(bytes@.skip(pos as int)),
            match r {
                Ok((v, end)) => Some((v, end)),
                Err(_) => None,
            },
            bytes@,
            pos,
        ),
{
    match decode_i32(after(bytes, pos)) {
        Ok((v, n)) => {
            proof {
                lemma_skip(bytes@, pos, n);
            }
            Ok((v, pos + n))
        },
        Err(_) => Err(MalformedPacket),
    }
}

fn take_char(bytes: &[u8], pos: usize) -> (r: Result<(char, usize), MalformedPacket>)
    requires
        pos <= bytes@.len(),
    ensures
        took(
            read_char(bytes@.skip(pos as int)),
            match r {
                Ok((v, end)) => Some((v, end)),
                Err(_) => None,
            },
            bytes@,
            pos,
        ),
{
    match decode_char(after(bytes, pos)) {
        Ok((v, n)) => {
            proof {
                lemma_skip(bytes@, pos, n);
            }
            Ok((v, pos + n))
        },
        Err(_) => Err(MalformedPacket),
    }
}

fn take_string(bytes: &[u8], pos: usize) -> (r: Result<(String, usize), MalformedPacket>)
    requires
        pos <= bytes@.len(),
    ensures
        took(
            read_text(bytes@.skip(pos as int)),
            match r {
                Ok((v, end)) => Some((v@, end)),
                Err(_) => None,
            },
            bytes@,
            pos,
        ),
{
    match decode_str(after(bytes, pos)) {
        Ok((v, n)) => {
            proof {
                lemma_skip(bytes@, pos, n);
            }
            Ok((v.to_owned(), pos + n))
        },
        Err(_) => Err(MalformedPacket),
    }
}

fn take_byte(bytes: &[u8], pos: usize) -> (r: Result<(u8, usize), MalformedPacket>)
    requires
        pos <= bytes@.len(),
    ensures
        took(
            read_byte(bytes@.skip(pos as int)),
            match r {
                Ok((v, end)) => Some((v, end)),
                Err(_) => None,
            },
            bytes@,
            pos,
        ),
{
    if pos < bytes.len() {
        proof {
            lemma_skip(bytes@, pos, 1);
        }
        Ok((bytes[pos], pos + 1))
    } else {
        Err(MalformedPacket)
    }
}

fn take_flag(bytes: &[u8], pos: usize) -> (r: Result<(bool, usize), MalformedPacket>)
    requires
        pos <= bytes@.len(),
    ensures
        took(
            read_flag(bytes@.skip(pos as int)),
            match r {
                Ok((v, end)) => Some((v, end)),
                Err(_) => None,
            },
            bytes@,
            pos,
        ),
{
    if pos < bytes.len() && bytes[pos] <= 1 {
        proof {
            lemma_skip(bytes@, pos, 1);
        }
        Ok((bytes[pos] == 1, pos + 1))
    } else {
        Err(MalformedPacket)
    }
}

fn take_bits(bytes: &[u8], pos: usize) -> (r: Result<(u32, usize), MalformedPacket>)
    requires
        pos <= bytes@.len(),
    ensures
        took(
            read_bits(bytes@.skip(pos as int)),
            match r {
                Ok((v, end)) => Some((v, end)),
                Err(_) => None,
            },
            bytes@,
            pos,
        ),
{
    if bytes.len() - pos >= 4 {
        proof {
            lemma_skip(bytes@, pos, 4);
            lemma_le_value_four(bytes@.skip(pos as int).take(4));
        }
        let v: u32 = bytes[pos] as u32 + 256 * (bytes[pos + 1] as u32) + 65536 * (bytes[pos
            + 2] as u32) + 16777216 * (bytes[pos + 3] as u32);
        Ok((v, pos + 4))
    } else {
        Err(MalformedPacket)
    }
}

proof fn lemma_items_fail<T>(
    s: Seq<u8>,
    i: nat,
    n: nat,
    read: spec_fn(Seq<u8>) -> Option<(T, Seq<u8>)>,
)
    requires
        i <= n,
        read_items(s, i, read) is None,
    ensures
        read_items(s, n, read) is None,
    decreases n,
{
    if i < n {
        lemma_items_fail(s, i, (n - 1) as nat, read);
    }
}

fn take_texts(bytes: &[u8], pos: usize) -> (r: Result<(Vec<String>, usize), MalformedPacket>)
    requires
        pos <= bytes@.len(),
    ensures
        took(
            read_text_list(bytes@.skip(pos as int)),
            match r {
                Ok((v, end)) => Some((texts(v@), end)),
                Err(_) => None,
            },
            bytes@,
            pos,
        ),
{
    let ghost read = |t: Seq<u8>| read_text(t);
    let (n, start) = take_u64(bytes, pos)?;
    let ghost rest = bytes@.skip(start as int);
    let mut values: Vec<String> = Vec::new();
    let mut i: u64 = 0;
    let mut end: usize = start;
    assert(texts(values@) =~= Seq::empty());
    while i < n
        invariant
            i <= n,
            pos <= start <= end <= bytes@.len(),
            read == |t: Seq<u8>| read_text(t),
            rest == bytes@.skip(start as int),
            read_varint(bytes@.skip(pos as int), 8) == Some((n as nat, rest)),
            read_items(rest, i as nat, read) == Some((texts(values@), bytes@.skip(end as int))),
        decreases n - i,
    {
        match take_string(bytes, end) {
            Ok((value, next)) => {
                let ghost before = texts(values@);
                values.push(value);
                end = next;
                i += 1;
                assert(texts(values@) =~= before.push(value@));
            },
            Err(_) => {
                proof {
                    lemma_items_fail(rest, (i + 1) as nat, n as nat, read);
                }
                return Err(MalformedPacket);
            },
        }
    }
    Ok((values, end))
}

fn take_gpu_luid(bytes: &[u8], pos: usize) -> (r: Result<(GpuLuid, usize), MalformedPacket>)
    requires
        pos <= bytes@.len(),
    ensures
        took(
            read_gpu_luid(bytes@.skip(pos as int)),
            match r {
                Ok((v, end)) => Some((v, end)),
                Err(_) => None,
            },
            bytes@,
            pos,
        ),
{
    let (low, pos) = take_u32(bytes, pos)?;
    let (high, pos) = take_i32(bytes, pos)?;
    Ok((GpuLuid { low, high }, pos))
}

fn take_position(bytes: &[u8], pos: usize) -> (r: Result<(InputPosition, usize), MalformedPacket>)
    requires
        pos <= bytes@.len(),
    ensures
        took(
            read_position(bytes@.skip(pos as int)),
            match r {
                Ok((v, end)) => Some((v, end)),
                Err(_) => None,
            },
            bytes@,
            pos,
        ),
{
    let (x, pos) = take_i32(bytes, pos)?;
    let (y, pos) = take_i32(bytes, pos)?;
    Ok((InputPosition { x, y }, pos))
}

fn take_cursor_action(bytes: &[u8], pos: usize) -> (r: Result<(CursorAction, usize), MalformedPacket>)
    requires
        pos <= bytes@.len(),
    ensures
        took(
            read_cursor_action(bytes@.skip(pos as int)),
            match r {
                Ok((v, end)) => Some((v, end)),
                Err(_) => None,
            },
            bytes@,
            pos,
        ),
{
    let (number, pos) = take_u32(bytes, pos)?;
    match number {
        0 => Ok((CursorAction::Left, pos)),
        1 => Ok((CursorAction::Right, pos)),
        2 => Ok((CursorAction::Middle, pos)),
        3 => Ok((CursorAction::Back, pos)),
        4 => Ok((CursorAction::Forward, pos)),
        _ => Err(MalformedPacket),
    }
}

fn take_cursor_state(bytes: &[u8], pos: usize) -> (r: Result<(CursorInputState, usize), MalformedPacket>)
    requires
        pos <= bytes@.len(),
    ensures
        took(
            read_cursor_state(bytes@.skip(pos as int)),
            match r {
                Ok((v, end)) => Some((v, end)),
                Err(_) => None,
            },
            bytes@,
            pos,
        ),
{
    let (number, pos) = take_u32(bytes, pos)?;
    match number {
        0 => {
            let (double_click, pos) = take_flag(bytes, pos)?;
            Ok((CursorInputState::Pressed { double_click }, pos))
        },
        1 => Ok((CursorInputState::Released, pos)),
        _ => Err(MalformedPacket),
    }
}

fn take_scroll_axis(bytes: &[u8], pos: usize) -> (r: Result<(ScrollAxis, usize), MalformedPacket>)
    requires
        pos <= bytes@.len(),
    ensures
        took(
            read_scroll_axis(bytes@.skip(pos as int)),
            match r {
                Ok((v, end)) => Some((v, end)),
                Err(_) => None,
            },
            bytes@,
            pos,
        ),
{
    let (number, pos) = take_u32(bytes, pos)?;
    match number {
        0 => Ok((ScrollAxis::X, pos)),
        1 => Ok((ScrollAxis::Y, pos)),
        _ => Err(MalformedPacket),
    }
}

fn take_cursor_event(bytes: &[u8], pos: usize) -> (r: Result<(CursorEvent, usize), MalformedPacket>)
    requires
        pos <= bytes@.len(),
    ensures
        took(
            read_cursor_event(bytes@.skip(pos as int)),
            match r {
                Ok((v, end)) => Some((v, end)),
                Err(_) => None,
            },
            bytes@,
            pos,
        ),
{
    let (number, pos) = take_u32(bytes, pos)?;
    match number {
        0 => Ok((CursorEvent::Enter, pos)),
        1 => Ok((CursorEvent::Leave, pos)),
        2 => {
            let (state, pos) = take_cursor_state(bytes, pos)?;
            let (action, pos) = take_cursor_action(bytes, pos)?;
            Ok((CursorEvent::Action { state, action }, pos))
        },
        3 => Ok((CursorEvent::Move, pos)),
        4 => {
            let (axis, pos) = take_scroll_axis(bytes, pos)?;
            let (delta, pos) = take_i32(bytes, pos)?;
            Ok((CursorEvent::Scroll { axis, delta }, pos))
        },
        _ => Err(MalformedPacket),
    }
}

fn take_cursor_input(bytes: &[u8], pos: usize) -> (r: Result<(CursorInput, usize), MalformedPacket>)
    requires
        pos <= bytes@.len(),
    ensures
        took(
            read_cursor_input(bytes@.skip(pos as int)),
            match r {
                Ok((v, end)) => Some((v, end)),
                Err(_) => None,
            },
            bytes@,
            pos,
        ),
{
    let (event, pos) = take_cursor_event(bytes, pos)?;
    let (client, pos) = take_position(bytes, pos)?;
    let (window, pos) = take_position(bytes, pos)?;
    Ok((CursorInput { event, client, window }, pos))
}

fn take_key_state(bytes: &[u8], pos: usize) -> (r: Result<(KeyInputState, usize), MalformedPacket>)
    requires
        pos <= bytes@.len(),
    ensures
        took(
            read_key_state(bytes@.skip(pos as int)),
            match r {
                Ok((v, end)) => Some((v, end)),
                Err(_) => None,
            },
            bytes@,
            pos,
        ),
{
    let (number, pos) = take_u32(bytes, pos)?;
    match number {
        0 => Ok((KeyInputState::Pressed, pos)),
        1 => Ok((KeyInputState::Released, pos)),
        _ => Err(MalformedPacket),
    }
}

fn take_key(bytes: &[u8], pos: usize) -> (r: Result<(Key, usize), MalformedPacket>)
    requires
        pos <= bytes@.len(),
    ensures
        took(
            read_key(bytes@.skip(pos as int)),
            match r {
                Ok((v, end)) => Some((v, end)),
                Err(_) => None,
            },
            bytes@,
            pos,
        ),
{
    let (code, pos) = take_byte(bytes, pos)?;
    if code == 0 {
        return Err(MalformedPacket);
    }
    let (extended, pos) = take_flag(bytes, pos)?;
    Ok((Key { code, extended }, pos))
}

fn take_candidate_list(bytes: &[u8], pos: usize) -> (r: Result<(ImeCandidateList, usize), MalformedPacket>)
    requires
        pos <= bytes@.len(),
    ensures
        took(
            read_candidate_list(bytes@.skip(pos as int)),
            match r {
                Ok((v, end)) => Some((v@, end)),
                Err(_) => None,
            },
            bytes@,
            pos,
        ),
{
    let (page_start_index, pos) = take_u32(bytes, pos)?;
    let (page_size, pos) = take_u32(bytes, pos)?;
    let (selected_index, pos) = take_u32(bytes, pos)?;
    let (candidates, pos) = take_texts(bytes, pos)?;
    Ok((ImeCandidateList { page_start_index, page_size, selected_index, candidates }, pos))
}

fn take_ime(bytes: &[u8], pos: usize) -> (r: Result<(Ime, usize), MalformedPacket>)
    requires
        pos <= bytes@.len(),
    ensures
        took(
            read_ime(bytes@.skip(pos as int)),
            match r {
                Ok((v, end)) => Some((v@, end)),
                Err(_) => None,
            },
            bytes@,
            pos,
        ),
{
    let (number, pos) = take_u32(bytes, pos)?;
    match number {
        0 => {
            let (lang, pos) = take_string(bytes, pos)?;
            let (conversion, pos) = take_u32(bytes, pos)?;
            Ok((Ime::Enabled { lang, conversion }, pos))
        },
        1 => {
            let (lang, pos) = take_string(bytes, pos)?;
            Ok((Ime::Changed(lang), pos))
        },
        2 => {
            let (conversion, pos) = take_u32(bytes, pos)?;
            Ok((Ime::ConversionChanged(conversion), pos))
        },
        3 => {
            let (l, pos) = take_candidate_list(bytes, pos)?;
            Ok((Ime::CandidateChanged(l), pos))
        },
        4 => Ok((Ime::CandidateClosed, pos)),
        5 => {
            let (text, pos) = take_string(bytes, pos)?;
            let (caret, pos) = take_u64(bytes, pos)?;
            Ok((Ime::Compose { text, caret }, pos))
        },
        6 => {
            let (text, pos) = take_string(bytes, pos)?;
            Ok((Ime::Commit(text), pos))
        },
        7 => Ok((Ime::Disabled, pos)),
        _ => Err(MalformedPacket),
    }
}

fn take_keyboard_input(bytes: &[u8], pos: usize) -> (r: Result<(KeyboardInput, usize), MalformedPacket>)
    requires
        pos <= bytes@.len(),
    ensures
        took(
            read_keyboard_input(bytes@.skip(pos as int)),
            match r {
                Ok((v, end)) => Some((v@, end)),
                Err(_) => None,
            },
            bytes@,
            pos,
        ),
{
    let (number, pos) = take_u32(bytes, pos)?;
    match number {
        0 => {
            let (key, pos) = take_key(bytes, pos)?;
            let (state, pos) = take_key_state(bytes, pos)?;
            Ok((KeyboardInput::Key { key, state }, pos))
        },
        1 => {
            let (ch, pos) = take_char(bytes, pos)?;
            Ok((KeyboardInput::Char(ch), pos))
        },
        2 => {
            let (event, pos) = take_ime(bytes, pos)?;
            Ok((KeyboardInput::Ime(event), pos))
        },
        _ => Err(MalformedPacket),
    }
}

fn take_input_event(bytes: &[u8], pos: usize) -> (r: Result<(InputEvent, usize), MalformedPacket>)
    requires
        pos <= bytes@.len(),
    ensures
        took(
            read_input_event(bytes@.skip(pos as int)),
            match r {
                Ok((v, end)) => Some((v@, end)),
                Err(_) => None,
            },
            bytes@,
            pos,
        ),
{
    let (number, pos) = take_u32(bytes, pos)?;
    match number {
        0 => {
            let (input, pos) = take_cursor_input(bytes, pos)?;
            Ok((InputEvent::Cursor(input), pos))
        },
        1 => {
            let (input, pos) = take_keyboard_input(bytes, pos)?;
            Ok((InputEvent::Keyboard(input), pos))
        },
        _ => Err(MalformedPacket),
    }
}

fn take_window_event(bytes: &[u8], pos: usize) -> (r: Result<(WindowEvent, usize), MalformedPacket>)
    requires
        pos <= bytes@.len(),
    ensures
        took(
            read_window_event(bytes@.skip(pos as int)),
            match r {
                Ok((v, end)) => Some((v@, end)),
                Err(_) => None,
            },
            bytes@,
            pos,
        ),
{
    let (number, pos) = take_u32(bytes, pos)?;
    match number {
        0 => {
            let (width, pos) = take_u32(bytes, pos)?;
            let (height, pos) = take_u32(bytes, pos)?;
            let (gpu_id, pos) = take_gpu_luid(bytes, pos)?;
            Ok((WindowEvent::Added { width, height, gpu_id }, pos))
        },
        1 => {
            let (width, pos) = take_u32(bytes, pos)?;
            let (height, pos) = take_u32(bytes, pos)?;
            Ok((WindowEvent::Resized { width, height }, pos))
        },
        2 => {
            let (event, pos) = take_input_event(bytes, pos)?;
            Ok((WindowEvent::Input(event), pos))
        },
        3 => Ok((WindowEvent::InputBlockingEnded, pos)),
        4 => Ok((WindowEvent::Destroyed, pos)),
        _ => Err(MalformedPacket),
    }
}

fn take_rect(bytes: &[u8], pos: usize) -> (r: Result<((u32, u32, u32, u32), usize), MalformedPacket>)
    requires
        pos <= bytes@.len(),
    ensures
        took(
            read_rect(bytes@.skip(pos as int)),
            match r {
                Ok((v, end)) => Some((v, end)),
                Err(_) => None,
            },
            bytes@,
            pos,
        ),
{
    let (x, pos) = take_bits(bytes, pos)?;
    let (y, pos) = take_bits(bytes, pos)?;
    let (width, pos) = take_bits(bytes, pos)?;
    let (height, pos) = take_bits(bytes, pos)?;
    Ok(((x, y, width, height), pos))
}

fn take_augment_card(bytes: &[u8], pos: usize) -> (r: Result<(AugmentCard, usize), MalformedPacket>)
    requires
        pos <= bytes@.len(),
    ensures
        took(
            read_augment_card(bytes@.skip(pos as int)),
            match r {
                Ok((v, end)) => Some((v@, end)),
                Err(_) => None,
            },
            bytes@,
            pos,
        ),
{
    let (instance, pos) = take_u32(bytes, pos)?;
    let (name, pos) = take_string(bytes, pos)?;
    let (description, pos) = take_string(bytes, pos)?;
    let ((x, y, width, height), pos) = take_rect(bytes, pos)?;
    Ok((AugmentCard { instance, name, description, x, y, width, height }, pos))
}

/// The list of cards that `s` starts with and what follows it.
spec fn read_cards(s: Seq<u8>) -> Option<(Seq<AugmentCardView>, Seq<u8>)> {
    read_list(s, |t: Seq<u8>| read_augment_card(t))
}

fn take_cards(bytes: &[u8], pos: usize) -> (r: Result<(Vec<AugmentCard>, usize), MalformedPacket>)
    requires
        pos <= bytes@.len(),
    ensures
        took(
            read_cards(bytes@.skip(pos as int)),
            match r {
                Ok((v, end)) => Some((card_views(v@), end)),
                Err(_) => None,
            },
            bytes@,
            pos,
        ),
{
    let ghost read = |t: Seq<u8>| read_augment_card(t);
    let (n, start) = take_u64(bytes, pos)?;
    let ghost rest = bytes@.skip(start as int);
    let mut values: Vec<AugmentCard> = Vec::new();
    let mut i: u64 = 0;
    let mut end: usize = start;
    assert(card_views(values@) =~= Seq::empty());
    while i < n
        invariant
            i <= n,
            pos <= start <= end <= bytes@.len(),
            read == |t: Seq<u8>| read_augment_card(t),
            rest == bytes@.skip(start as int),
            read_varint(bytes@.skip(pos as int), 8) == Some((n as nat, rest)),
            read_items(rest, i as nat, read) == Some((card_views(values@), bytes@.skip(end as int))),
        decreases n - i,
    {
        match take_augment_card(bytes, end) {
            Ok((value, next)) => {
                let ghost before = card_views(values@);
                values.push(value);
                end = next;
                i += 1;
                assert(card_views(values@) =~= before.push(value@));
            },
            Err(_) => {
                proof {
                    lemma_items_fail(rest, (i + 1) as nat, n as nat, read);
                }
                return Err(MalformedPacket);
            },
        }
    }
    Ok((values, end))
}

fn take_augment_choices(bytes: &[u8], pos: usize) -> (r: Result<(AugmentChoices, usize), MalformedPacket>)
    requires
        pos <= bytes@.len(),
    ensures
        took(
            read_augment_choices(bytes@.skip(pos as int)),
            match r {
                Ok((v, end)) => Some((v@, end)),
                Err(_) => None,
            },
            bytes@,
            pos,
        ),
{
    let (mode, pos) = take_string(bytes, pos)?;
    let (cards, pos) = take_cards(bytes, pos)?;
    Ok((AugmentChoices { mode, cards }, pos))
}

fn take_overlay_event(bytes: &[u8], pos: usize) -> (r: Result<(OverlayEvent, usize), MalformedPacket>)
    requires
        pos <= bytes@.len(),
    ensures
        took(
            read_overlay_event(bytes@.skip(pos as int)),
            match r {
                Ok((v, end)) => Some((v@, end)),
                Err(_) => None,
            },
            bytes@,
            pos,
        ),
{
    let (number, pos) = take_u32(bytes, pos)?;
    match number {
        0 => {
            let (id, pos) = take_u32(bytes, pos)?;
            let (event, pos) = take_window_event(bytes, pos)?;
            Ok((OverlayEvent::Window { id, event }, pos))
        },
        1 => {
            let (choices, pos) = take_augment_choices(bytes, pos)?;
            Ok((OverlayEvent::LolAugmentChoices(choices), pos))
        },
        2 => {
            let (error, pos) = take_string(bytes, pos)?;
            Ok((OverlayEvent::LolAugmentReadError(error), pos))
        },
        3 => {
            let (internal_names, pos) = take_texts(bytes, pos)?;
            Ok((OverlayEvent::LolAugmentOwned(OwnedAugments { internal_names }), pos))
        },
        _ => Err(MalformedPacket),
    }
}

/// Reads the packet at the start of the bytes and says how many bytes it takes. Fails exactly
/// where no packet stands there.
pub fn decode_packet(bytes: &[u8]) -> (r: Result<(ServerToClientPacket, usize), MalformedPacket>)
    ensures
        took(
            read_packet(bytes@),
            match r {
                Ok((p, end)) => Some((p@, end)),
                Err(_) => None,
            },
            bytes@,
            0,
        ),
{
    assert(bytes@.skip(0) =~= bytes@);
    let (number, pos) = take_u32(bytes, 0)?;
    match number {
        0 => {
            let (id, pos) = take_u32(bytes, pos)?;
            let (success, pos) = take_flag(bytes, pos)?;
            Ok((ServerToClientPacket::Response { id, success }, pos))
        },
        1 => {
            let (event, pos) = take_overlay_event(bytes, pos)?;
            Ok((ServerToClientPacket::Event(event), pos))
        },
        _ => Err(MalformedPacket),
    }
}

} // verus!
