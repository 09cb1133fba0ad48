//! Events and requests as a script sees them.

use crate::event::{
    AugmentCard, AugmentCardView, AugmentChoices, AugmentChoicesView, CursorAction, CursorEvent,
    CursorInput, CursorInputState, GpuLuid, Ime, ImeCandidateList, ImeCandidateListView, ImeView,
    InputEvent, InputEventView, Key, KeyInputState, KeyboardInput, KeyboardInputView,
    OverlayEvent, OverlayEventView, OwnedAugments, ScrollAxis, WindowEvent, WindowEventView,
    card_views, texts,
};
use crate::js::{
    add_item, array, boolean, fields_view, items_view, number, object, set_prop, single, string, text,
    JsField, JsValue, JsView,
};
use crate::render::UpdateSharedHandle;
use crate::request::PercentLength;
use vstd::prelude::*;

verus! {

/// Makes a text of one character with `String::from`.
#[verifier::external_body]
fn char_text(ch: char) -> (r: String)
    ensures
        r@ == seq![ch],
{
    String::from(ch)
}

pub open spec fn gpu_luid_js(id: GpuLuid) -> JsView {
    JsView::Object(
        seq![("low"@, JsView::Int(id.low as int)), ("high"@, JsView::Int(id.high as int))],
    )
}

/// The adapter of a window.
pub fn serialize_gpu_luid(id: GpuLuid) -> (r: JsValue)
    ensures
        r.view() == gpu_luid_js(id),
{
    let mut obj: Vec<JsField> = Vec::new();
    set_prop(&mut obj, "low", number(id.low as i64));
    set_prop(&mut obj, "high", number(id.high as i64));
    assert(fields_view(obj@) =~= gpu_luid_js(id)->Object_0);
    object(obj)
}

pub open spec fn key_js(key: Key) -> JsView {
    JsView::Object(
        seq![
            ("code"@, JsView::Int(key.code as int)),
            ("extended"@, JsView::Bool(key.extended)),
        ],
    )
}

/// A key of the keyboard.
pub fn serialize_key(key: Key) -> (r: JsValue)
    ensures
        r.view() == key_js(key),
{
    let mut obj: Vec<JsField> = Vec::new();
    set_prop(&mut obj, "code", number(key.code as i64));
    set_prop(&mut obj, "extended", boolean(key.extended));
    assert(fields_view(obj@) =~= key_js(key)->Object_0);
    object(obj)
}

pub open spec fn key_state_text(state: KeyInputState) -> Seq<char> {
    match state {
        KeyInputState::Pressed => "Pressed"@,
        KeyInputState::Released => "Released"@,
    }
}

/// What happened to a key.
pub fn serialize_key_input_state(state: KeyInputState) -> (r: JsValue)
    ensures
        r.view() == JsView::Text(key_state_text(state)),
{
    match state {
        KeyInputState::Pressed => text("Pressed"),
        KeyInputState::Released => text("Released"),
    }
}

/// What happened to a button of the mouse, and whether it was a double click.
pub fn serialize_cursor_input_state(state: CursorInputState) -> (r: (JsValue, JsValue))
    ensures
        (r.0.view(), r.1.view()) == (match state {
            CursorInputState::Pressed { double_click } => (
                JsView::Text("Pressed"@),
                JsView::Bool(double_click),
            ),
            CursorInputState::Released => (JsView::Text("Released"@), JsView::Bool(false)),
        }),
{
    match state {
        CursorInputState::Pressed { double_click } => (text("Pressed"), boolean(double_click)),
        CursorInputState::Released => (text("Released"), boolean(false)),
    }
}

pub open spec fn action_text(action: CursorAction) -> Seq<char> {
    match action {
        CursorAction::Left => "Left"@,
        CursorAction::Right => "Right"@,
        CursorAction::Middle => "Middle"@,
        CursorAction::Back => "Back"@,
        CursorAction::Forward => "Forward"@,
    }
}

/// The properties that only some cursor events have.
pub open spec fn cursor_event_fields(event: CursorEvent) -> Seq<(Seq<char>, JsView)> {
    match event {
        CursorEvent::Enter => seq![("kind"@, JsView::Text("Enter"@))],
        CursorEvent::Leave => seq![("kind"@, JsView::Text("Leave"@))],
        CursorEvent::Action { state, action } => seq![
            ("kind"@, JsView::Text("Action"@)),
            (
                "state"@,
                JsView::Text(
                    match state {
                        CursorInputState::Pressed { .. } => "Pressed"@,
                        CursorInputState::Released => "Released"@,
                    },
                ),
            ),
            ("doubleClick"@, JsView::Bool(state == CursorInputState::Pressed { double_click: true })),
            ("action"@, JsView::Text(action_text(action))),
        ],
        CursorEvent::Move => seq![("kind"@, JsView::Text("Move"@))],
        CursorEvent::Scroll { axis, delta } => seq![
            ("kind"@, JsView::Text("Scroll"@)),
            (
                "axis"@,
                JsView::Text(
                    match axis {
                        ScrollAxis::X => "X"@,
                        ScrollAxis::Y => "Y"@,
                    },
                ),
            ),
            ("delta"@, JsView::Int(delta as int)),
        ],
    }
}

pub open spec fn cursor_input_js(input: CursorInput) -> JsView {
    JsView::Object(
        seq![
            ("clientX"@, JsView::Int(input.client.x as int)),
            ("clientY"@, JsView::Int(input.client.y as int)),
            ("windowX"@, JsView::Int(input.window.x as int)),
            ("windowY"@, JsView::Int(input.window.y as int)),
        ] + cursor_event_fields(input.event),
    )
}

/// Input of the mouse.
pub fn serialize_cursor_input(input: CursorInput) -> (r: JsValue)
    ensures
        r.view() == cursor_input_js(input),
{
    let mut obj: Vec<JsField> = Vec::new();
    set_prop(&mut obj, "clientX", number(input.client.x as i64));
    set_prop(&mut obj, "clientY", number(input.client.y as i64));
    set_prop(&mut obj, "windowX", number(input.window.x as i64));
    set_prop(&mut obj, "windowY", number(input.window.y as i64));
    match input.event {
        CursorEvent::Enter => {
            set_prop(&mut obj, "kind", text("Enter"));
        },
        CursorEvent::Leave => {
            set_prop(&mut obj, "kind", text("Leave"));
        },
        CursorEvent::Action { state, action } => {
            set_prop(&mut obj, "kind", text("Action"));
            let (state, double_click) = serialize_cursor_input_state(state);
            set_prop(&mut obj, "state", state);
            set_prop(&mut obj, "doubleClick", double_click);
            let action = match action {
                CursorAction::Left => "Left",
                CursorAction::Right => "Right",
                CursorAction::Middle => "Middle",
                CursorAction::Back => "Back",
                CursorAction::Forward => "Forward",
            };
            set_prop(&mut obj, "action", text(action));
        },
        CursorEvent::Move => {
            set_prop(&mut obj, "kind", text("Move"));
        },
        CursorEvent::Scroll { axis, delta } => {
            set_prop(&mut obj, "kind", text("Scroll"));
            let axis = match axis {
                ScrollAxis::X => "X",
                ScrollAxis::Y => "Y",
            };
            set_prop(&mut obj, "axis", text(axis));
            set_prop(&mut obj, "delta", number(delta as i64));
        },
    }
    assert(fields_view(obj@) =~= cursor_input_js(input)->Object_0);
    object(obj)
}

/// A list of texts.
pub open spec fn texts_js(list: Seq<Seq<char>>) -> JsView {
    JsView::Array(list.map_values(|s: Seq<char>| JsView::Text(s)))
}

fn text_array(list: Vec<String>) -> (r: JsValue)
    ensures
        r.view() == texts_js(texts(list@)),
{
    let mut items: Vec<JsValue> = Vec::new();
    let mut i: usize = 0;
    while i < list.len()
        invariant
            i <= list.len(),
            items_view(items@) == Seq::new(i as nat, |j: int| JsView::Text(list@[j]@)),
        decreases list.len() - i,
    {
        add_item(&mut items, text(list[i].as_str()));
        i += 1;
        assert(items_view(items@) =~= Seq::new(i as nat, |j: int| JsView::Text(list@[j]@)));
    }
    assert(items_view(items@) =~= texts_js(texts(list@))->Array_0);
    array(items)
}

pub open spec fn candidate_list_js(list: ImeCandidateListView) -> JsView {
    JsView::Object(
        seq![
            ("pageStartIndex"@, JsView::Int(list.page_start_index as int)),
            ("pageSize"@, JsView::Int(list.page_size as int)),
            ("selectedIndex"@, JsView::Int(list.selected_index as int)),
            ("candidates"@, texts_js(list.candidates)),
        ],
    )
}

/// What an input method offers.
pub fn serialize_candidate_list(candidate_list: ImeCandidateList) -> (r: JsValue)
    ensures
        r.view() == candidate_list_js(candidate_list@),
{
    let mut obj: Vec<JsField> = Vec::new();
    set_prop(&mut obj, "pageStartIndex", number(candidate_list.page_start_index as i64));
    set_prop(&mut obj, "pageSize", number(candidate_list.page_size as i64));
    set_prop(&mut obj, "selectedIndex", number(candidate_list.selected_index as i64));
    set_prop(&mut obj, "candidates", text_array(candidate_list.candidates));
    assert(fields_view(obj@) =~= candidate_list_js(candidate_list@)->Object_0);
    object(obj)
}

pub open spec fn ime_js(ime: ImeView) -> JsView {
    JsView::Object(
        match ime {
            ImeView::Enabled { lang, conversion } => seq![
                ("lang"@, JsView::Text(lang)),
                ("conversion"@, JsView::Int(conversion as int)),
                ("kind"@, JsView::Text("Enabled"@)),
            ],
            ImeView::Changed(lang) => seq![
                ("lang"@, JsView::Text(lang)),
                ("kind"@, JsView::Text("Changed"@)),
            ],
            ImeView::ConversionChanged(conversion) => seq![
                ("conversion"@, JsView::Int(conversion as int)),
                ("kind"@, JsView::Text("ConversionChanged"@)),
            ],
            ImeView::CandidateChanged(list) => seq![
                ("list"@, candidate_list_js(list)),
                ("kind"@, JsView::Text("CandidateChanged"@)),
            ],
            ImeView::CandidateClosed => seq![("kind"@, JsView::Text("CandidateClosed"@))],
            ImeView::Compose { text, caret } => seq![
                ("text"@, JsView::Text(text)),
                ("caret"@, JsView::Size(caret as nat)),
                ("kind"@, JsView::Text("Compose"@)),
            ],
            ImeView::Commit(text) => seq![
                ("text"@, JsView::Text(text)),
                ("kind"@, JsView::Text("Commit"@)),
            ],
            ImeView::Disabled => seq![("kind"@, JsView::Text("Disabled"@))],
        },
    )
}

/// What happened to an input method.
pub fn serialize_ime(ime: Ime) -> (r: JsValue)
    ensures
        r.view() == ime_js(ime@),
{
    let ghost given = ime@;
    let mut obj: Vec<JsField> = Vec::new();
    let kind = match ime {
        Ime::Enabled { lang, conversion } => {
            set_prop(&mut obj, "lang", string(lang));
            set_prop(&mut obj, "conversion", number(conversion as i64));
            "Enabled"
        },
        Ime::Changed(lang) => {
            set_prop(&mut obj, "lang", string(lang));
            "Changed"
        },
        Ime::ConversionChanged(conversion) => {
            set_prop(&mut obj, "conversion", number(conversion as i64));
            "ConversionChanged"
        },
        Ime::CandidateChanged(candidate_list) => {
            set_prop(&mut obj, "list", serialize_candidate_list(candidate_list));
            "CandidateChanged"
        },
        Ime::CandidateClosed => "CandidateClosed",
        Ime::Compose { text, caret } => {
            set_prop(&mut obj, "text", string(text));
            set_prop(&mut obj, "caret", JsValue::Size(caret));
            "Compose"
        },
        Ime::Commit(text) => {
            set_prop(&mut obj, "text", string(text));
            "Commit"
        },
        Ime::Disabled => "Disabled",
    };
    set_prop(&mut obj, "kind", text(kind));
    assert(fields_view(obj@) =~= ime_js(given)->Object_0);
    object(obj)
}

pub open spec fn keyboard_input_js(input: KeyboardInputView) -> JsView {
    JsView::Object(
        match input {
            KeyboardInputView::Key { key, state } => seq![
                ("kind"@, JsView::Text("Key"@)),
                ("key"@, key_js(key)),
                ("state"@, JsView::Text(key_state_text(state))),
            ],
            KeyboardInputView::Char(ch) => seq![
                ("kind"@, JsView::Text("Char"@)),
                ("ch"@, JsView::Text(seq![ch])),
            ],
            KeyboardInputView::Ime(ime) => seq![
                ("kind"@, JsView::Text("Ime"@)),
                ("ime"@, ime_js(ime)),
            ],
        },
    )
}

/// Input of the keyboard.
pub fn serialize_keyboard_input(input: KeyboardInput) -> (r: JsValue)
    ensures
        r.view() == keyboard_input_js(input@),
{
    let ghost given = input@;
    let mut obj: Vec<JsField> = Vec::new();
    match input {
        KeyboardInput::Key { key, state } => {
            set_prop(&mut obj, "kind", text("Key"));
            set_prop(&mut obj, "key", serialize_key(key));
            set_prop(&mut obj, "state", serialize_key_input_state(state));
        },
        KeyboardInput::Char(ch) => {
            set_prop(&mut obj, "kind", text("Char"));
            set_prop(&mut obj, "ch", string(char_text(ch)));
        },
        KeyboardInput::Ime(ime) => {
            set_prop(&mut obj, "kind", text("Ime"));
            set_prop(&mut obj, "ime", serialize_ime(ime));
        },
    }
    assert(fields_view(obj@) =~= keyboard_input_js(given)->Object_0);
    object(obj)
}

pub open spec fn card_js(card: AugmentCardView) -> JsView {
    JsView::Object(
        seq![
            ("instance"@, JsView::Int(card.instance as int)),
            ("name"@, JsView::Text(card.name)),
            ("description"@, JsView::Text(card.description)),
            ("x"@, JsView::Single(card.x)),
            ("y"@, JsView::Single(card.y)),
            ("width"@, JsView::Single(card.width)),
            ("height"@, JsView::Single(card.height)),
        ],
    )
}

fn serialize_card(card: &AugmentCard) -> (r: JsValue)
    ensures
        r.view() == card_js(card@),
{
    let mut item: Vec<JsField> = Vec::new();
    set_prop(&mut item, "instance", number(card.instance as i64));
    set_prop(&mut item, "name", text(card.name.as_str()));
    set_prop(&mut item, "description", text(card.description.as_str()));
    set_prop(&mut item, "x", single(card.x));
    set_prop(&mut item, "y", single(card.y));
    set_prop(&mut item, "width", single(card.width));
    set_prop(&mut item, "height", single(card.height));
    assert(fields_view(item@) =~= card_js(card@)->Object_0);
    object(item)
}

pub open spec fn augment_choices_js(choices: AugmentChoicesView) -> JsView {
    JsView::Object(
        seq![
            ("mode"@, JsView::Text(choices.mode)),
            (
                "cards"@,
                JsView::Array(choices.cards.map_values(|card: AugmentCardView| card_js(card))),
            ),
        ],
    )
}

/// The augments to choose from.
pub fn serialize_augment_choices(choices: AugmentChoices) -> (r: JsValue)
    ensures
        r.view() == augment_choices_js(choices@),
{
    let ghost given = choices@;
    let list = choices.cards;
    let mut obj: Vec<JsField> = Vec::new();
    set_prop(&mut obj, "mode", string(choices.mode));
    let mut cards: Vec<JsValue> = Vec::new();
    let mut i: usize = 0;
    while i < list.len()
        invariant
            i <= list.len(),
            items_view(cards@) == Seq::new(i as nat, |j: int| card_js(list@[j]@)),
        decreases list.len() - i,
    {
        add_item(&mut cards, serialize_card(&list[i]));
        i += 1;
        assert(items_view(cards@) =~= Seq::new(i as nat, |j: int| card_js(list@[j]@)));
    }
    assert(items_view(cards@) =~= card_views(list@).map_values(
        |card: AugmentCardView| card_js(card),
    ));
    set_prop(&mut obj, "cards", array(cards));
    assert(fields_view(obj@) =~= augment_choices_js(given)->Object_0);
    object(obj)
}

pub open spec fn owned_augments_js(names: Seq<Seq<char>>) -> JsView {
    JsView::Object(seq![("internalNames"@, texts_js(names))])
}

/// The augments that the player has.
pub fn serialize_owned_augments(owned: OwnedAugments) -> (r: JsValue)
    ensures
        r.view() == owned_augments_js(owned@),
{
    let ghost given = owned@;
    let mut obj: Vec<JsField> = Vec::new();
    set_prop(&mut obj, "internalNames", text_array(owned.internal_names));
    assert(fields_view(obj@) =~= owned_augments_js(given)->Object_0);
    object(obj)
}

/// What a script is told of an event of window `id`: the name of the event, the window, and what
/// else there is to say.
pub open spec fn window_event_js(id: u32, event: WindowEventView) -> Seq<JsView> {
    match event {
        WindowEventView::Added { width, height, gpu_id } => seq![
            JsView::Text("added"@),
            JsView::Int(id as int),
            JsView::Int(width as int),
            JsView::Int(height as int),
            gpu_luid_js(gpu_id),
        ],
        WindowEventView::Resized { width, height } => seq![
            JsView::Text("resized"@),
            JsView::Int(id as int),
            JsView::Int(width as int),
            JsView::Int(height as int),
        ],
        WindowEventView::Input(InputEventView::Cursor(input)) => seq![
            JsView::Text("cursor_input"@),
            JsView::Int(id as int),
            cursor_input_js(input),
        ],
        WindowEventView::Input(InputEventView::Keyboard(input)) => seq![
            JsView::Text("keyboard_input"@),
            JsView::Int(id as int),
            keyboard_input_js(input),
        ],
        WindowEventView::InputBlockingEnded => seq![
            JsView::Text("input_blocking_ended"@),
            JsView::Int(id as int),
        ],
        WindowEventView::Destroyed => seq![JsView::Text("destroyed"@), JsView::Int(id as int)],
    }
}

/// What a script is told of an event.
pub open spec fn event_js(event: OverlayEventView) -> Seq<JsView> {
    match event {
        OverlayEventView::Window { id, event } => window_event_js(id, event),
        OverlayEventView::LolAugmentChoices(choices) => seq![
            JsView::Text("game.lol.augment.choices"@),
            augment_choices_js(choices),
        ],
        OverlayEventView::LolAugmentOwned(names) => seq![
            JsView::Text("game.lol.augment.owned"@),
            owned_augments_js(names),
        ],
        OverlayEventView::LolAugmentReadError(error) => seq![
            JsView::Text("game.lol.augment.error"@),
            JsView::Text(error),
        ],
    }
}

/// The arguments with which a script's emitter is called for an event.
pub fn emit_event(event: OverlayEvent) -> (r: Vec<JsValue>)
    ensures
        items_view(r@) == event_js(event@),
{
    let ghost given = event@;
    let mut args: Vec<JsValue> = Vec::new();
    match event {
        OverlayEvent::Window { id, event } => match event {
            WindowEvent::Added { width, height, gpu_id } => {
                add_item(&mut args, text("added"));
                add_item(&mut args, number(id as i64));
                add_item(&mut args, number(width as i64));
                add_item(&mut args, number(height as i64));
                add_item(&mut args, serialize_gpu_luid(gpu_id));
            },
            WindowEvent::Resized { width, height } => {
                add_item(&mut args, text("resized"));
                add_item(&mut args, number(id as i64));
                add_item(&mut args, number(width as i64));
                add_item(&mut args, number(height as i64));
            },
            WindowEvent::Input(event) => match event {
                InputEvent::Cursor(input) => {
                    add_item(&mut args, text("cursor_input"));
                    add_item(&mut args, number(id as i64));
                    add_item(&mut args, serialize_cursor_input(input));
                },
                InputEvent::Keyboard(input) => {
                    add_item(&mut args, text("keyboard_input"));
                    add_item(&mut args, number(id as i64));
                    add_item(&mut args, serialize_keyboard_input(input));
                },
            },
            WindowEvent::InputBlockingEnded => {
                add_item(&mut args, text("input_blocking_ended"));
                add_item(&mut args, number(id as i64));
            },
            WindowEvent::Destroyed => {
                add_item(&mut args, text("destroyed"));
                add_item(&mut args, number(id as i64));
            },
        },
        OverlayEvent::LolAugmentChoices(choices) => {
            add_item(&mut args, text("game.lol.augment.choices"));
            add_item(&mut args, serialize_augment_choices(choices));
        },
        OverlayEvent::LolAugmentOwned(owned) => {
            add_item(&mut args, text("game.lol.augment.owned"));
            add_item(&mut args, serialize_owned_augments(owned));
        },
        OverlayEvent::LolAugmentReadError(error) => {
            add_item(&mut args, text("game.lol.augment.error"));
            add_item(&mut args, string(error));
        },
    }
    assert(items_view(args@) =~= event_js(given));
    args
}

/// Every event is told by its name first, and an event of a window by that window next.
pub proof fn law_event_name_first(event: OverlayEventView)
    ensures
        event_js(event).len() >= 2,
        event_js(event)[0] is Text,
        event matches OverlayEventView::Window { id, .. } ==> event_js(event)[1] == JsView::Int(
            id as int,
        ),
{
}

/// The number in a range that is nearest to `n`.
pub open spec fn clamped(n: int, low: int, high: int) -> int {
    if n < low {
        low
    } else if n > high {
        high
    } else {
        n
    }
}

/// A script's number, cut to a whole number, as an unsigned number.
pub fn to_u32(n: i64) -> (r: u32)
    ensures
        r == clamped(n as int, 0, u32::MAX as int),
{
    if n < 0 {
        0
    } else if n > u32::MAX as i64 {
        u32::MAX
    } else {
        n as u32
    }
}

/// A script's number, cut to a whole number, as a signed number.
pub fn to_i32(n: i64) -> (r: i32)
    ensures
        r == clamped(n as int, i32::MIN as int, i32::MAX as int),
{
    if n < i32::MIN as i64 {
        i32::MIN
    } else if n > i32::MAX as i64 {
        i32::MAX
    } else {
        n as i32
    }
}

pub open spec fn gpu_luid_from(low: int, high: int) -> GpuLuid {
    GpuLuid {
        low: clamped(low, 0, u32::MAX as int) as u32,
        high: clamped(high, i32::MIN as int, i32::MAX as int) as i32,
    }
}

/// Reads an adapter from the properties `low` and `high`.
pub fn deserialize_gpu_luid(low: i64, high: i64) -> (r: GpuLuid)
    ensures
        r == gpu_luid_from(low as int, high as int),
{
    GpuLuid { low: to_u32(low), high: to_i32(high) }
}

/// What an object has under a name, if it has anything.
pub open spec fn prop(obj: JsView, name: Seq<char>) -> Option<JsView> {
    match obj {
        JsView::Object(fields) => {
            if exists|i: int| 0 <= i < fields.len() && (#[trigger] fields[i]).0 == name {
                let i = choose|i: int| 0 <= i < fields.len() && (#[trigger] fields[i]).0 == name;
                Some(fields[i].1)
            } else {
                None
            }
        },
        _ => None,
    }
}

/// The adapter that a script is told of is the one that is read back from it.
pub proof fn law_gpu_luid_round_trip(id: GpuLuid)
    ensures
        prop(gpu_luid_js(id), "low"@) == Some(JsView::Int(id.low as int)),
        prop(gpu_luid_js(id), "high"@) == Some(JsView::Int(id.high as int)),
        gpu_luid_from(id.low as int, id.high as int) == id,
{
    reveal_strlit("low");
    reveal_strlit("high");
    let fields = gpu_luid_js(id)->Object_0;
    assert("low"@.len() == 3 && "high"@.len() == 4);
    assert(fields[0].0 == "low"@ && fields[1].0 == "high"@);
}

pub open spec fn handle_update_js(update: UpdateSharedHandle) -> JsView {
    JsView::Object(
        match update.handle {
            Some(handle) => seq![("handle"@, JsView::Int(handle as int))],
            None => Seq::empty(),
        },
    )
}

/// The shared texture that a surface has now.
pub fn serialize_handle_update(update: UpdateSharedHandle) -> (r: JsValue)
    ensures
        r.view() == handle_update_js(update),
{
    let mut obj: Vec<JsField> = Vec::new();
    if let Some(handle) = update.handle {
        set_prop(&mut obj, "handle", number(handle as i64));
    }
    assert(fields_view(obj@) =~= handle_update_js(update)->Object_0);
    object(obj)
}

pub open spec fn handle_update_from(handle: Option<int>) -> UpdateSharedHandle {
    UpdateSharedHandle {
        handle: match handle {
            Some(n) => {
                let handle = clamped(n, 0, u32::MAX as int) as u32;
                if handle == 0 {
                    None
                } else {
                    Some(handle)
                }
            },
            None => None,
        },
    }
}

/// Reads a shared texture from the property `handle`, if it is there. Zero is no handle.
pub fn deserialize_handle_update(handle: Option<i64>) -> (r: UpdateSharedHandle)
    ensures
        r == handle_update_from(
            match handle {
                Some(n) => Some(n as int),
                None => None,
            },
        ),
{
    let handle = match handle {
        Some(n) => {
            let handle: u32 = to_u32(n);
            if handle == 0 {
                None
            } else {
                Some(handle)
            }
        },
        None => None,
    };
    UpdateSharedHandle { handle }
}

/// The shared texture that a script is told of is the one that is read back from it.
pub proof fn law_handle_update_round_trip(update: UpdateSharedHandle)
    requires
        update.handle != Some(0u32),
    ensures
        handle_update_from(
            match prop(handle_update_js(update), "handle"@) {
                Some(JsView::Int(n)) => Some(n),
                _ => None,
            },
        ) == update,
{
    if update.handle is Some {
        assert(handle_update_js(update)->Object_0[0].0 == "handle"@);
    }
}

/// What a length cannot be read from.
#[derive(Debug, Clone, Copy, PartialEq, Eq, Structural)]
pub struct InvalidPercentLength;

impl InvalidPercentLength {
    /// What went wrong.
    pub fn message(&self) -> (r: &'static str)
        ensures
            r@ == "invalid PercentLength type"@,
    {
        "invalid PercentLength type"
    }
}

/// Reads a length from the properties `ty` and `value`, the latter a single-precision float
/// given as its bits.
pub fn deserialize_percent_length(ty: &String, value: u32) -> (r: Result<
    PercentLength,
    InvalidPercentLength,
>)
    ensures
        r == (if ty@ == "percent"@ {
            Ok(PercentLength::Percent(value))
        } else if ty@ == "length"@ {
            Ok(PercentLength::Length(value))
        } else {
            Err(InvalidPercentLength)
        }),
{
    if *ty == "percent".to_owned() {
        Ok(PercentLength::Percent(value))
    } else if *ty == "length".to_owned() {
        Ok(PercentLength::Length(value))
    } else {
        Err(InvalidPercentLength)
    }
}

/// A rectangle of a texture.
#[derive(Debug, Clone, Copy, PartialEq, Eq, Structural)]
pub struct Rect {
    pub x: u32,
    pub y: u32,
    pub width: u32,
    pub height: u32,
}

/// A rectangle to copy, and where to.
#[derive(Debug, Clone, Copy, PartialEq, Eq, Structural)]
pub struct CopyRect {
    pub dst_x: u32,
    pub dst_y: u32,
    pub src: Rect,
}

pub open spec fn rect_from(x: int, y: int, width: int, height: int) -> Rect {
    Rect {
        x: clamped(x, 0, u32::MAX as int) as u32,
        y: clamped(y, 0, u32::MAX as int) as u32,
        width: clamped(width, 0, u32::MAX as int) as u32,
        height: clamped(height, 0, u32::MAX as int) as u32,
    }
}

/// Reads a rectangle from the properties `x`, `y`, `width` and `height`.
pub fn deserialize_rect(x: i64, y: i64, width: i64, height: i64) -> (r: Rect)
    ensures
        r == rect_from(x as int, y as int, width as int, height as int),
{
    Rect { x: to_u32(x), y: to_u32(y), width: to_u32(width), height: to_u32(height) }
}

/// Reads a rectangle to copy from the properties `dstX` and `dstY` and the rectangle `src`.
pub fn deserialize_copy_rect(dst_x: i64, dst_y: i64, src: Rect) -> (r: CopyRect)
    ensures
        r == (CopyRect {
            dst_x: clamped(dst_x as int, 0, u32::MAX as int) as u32,
            dst_y: clamped(dst_y as int, 0, u32::MAX as int) as u32,
            src,
        }),
{
    CopyRect { dst_x: to_u32(dst_x), dst_y: to_u32(dst_y), src }
}

/// What an object has under a name that only one of its properties has.
proof fn lemma_prop(fields: Seq<(Seq<char>, JsView)>, i: int)
    requires
        0 <= i < fields.len(),
        forall|j: int| 0 <= j < fields.len() && j != i ==> (#[trigger] fields[j]).0 != fields[i].0,
    ensures
        prop(JsView::Object(fields), fields[i].0) == Some(fields[i].1),
{
    assert(fields[i].0 == fields[i].0);
}

/// A script is told a key's code and whether it is an extended one, so that it can tell keys apart.
pub proof fn law_key_told(key: Key, other: Key)
    ensures
        prop(key_js(key), "code"@) == Some(JsView::Int(key.code as int)),
        prop(key_js(key), "extended"@) == Some(JsView::Bool(key.extended)),
        key_js(key) == key_js(other) ==> key == other,
{
    reveal_strlit("code");
    reveal_strlit("extended");
    assert("code"@.len() == 4);
    assert("extended"@.len() == 8);
    let fields = key_js(key)->Object_0;
    lemma_prop(fields, 0);
    lemma_prop(fields, 1);
    if key_js(key) == key_js(other) {
        let others = key_js(other)->Object_0;
        assert(fields[0] == others[0] && fields[1] == others[1]);
    }
}

/// A script is told whether a key went down or up.
pub proof fn law_key_state_told(state: KeyInputState)
    ensures
        key_state_text(state) == "Pressed"@ <==> state is Pressed,
        key_state_text(state) == "Released"@ <==> state is Released,
{
    reveal_strlit("Pressed");
    reveal_strlit("Released");
    assert("Pressed"@.len() == 7);
    assert("Released"@.len() == 8);
}

/// A script is told which button of the mouse it was.
pub proof fn law_cursor_action_told(action: CursorAction)
    ensures
        action_text(action) == "Left"@ <==> action is Left,
        action_text(action) == "Right"@ <==> action is Right,
        action_text(action) == "Middle"@ <==> action is Middle,
        action_text(action) == "Back"@ <==> action is Back,
        action_text(action) == "Forward"@ <==> action is Forward,
{
    reveal_strlit("Left");
    reveal_strlit("Right");
    reveal_strlit("Middle");
    reveal_strlit("Back");
    reveal_strlit("Forward");
    assert("Left"@.len() == 4);
    assert("Right"@.len() == 5);
    assert("Middle"@.len() == 6);
    assert("Back"@.len() == 4);
    assert("Forward"@.len() == 7);
    assert("Left"@[0] != "Back"@[0]);
}

/// No two of the names that a cursor input is told by are the same.
proof fn lemma_cursor_names()
    ensures
        "clientX"@.len() == 7,
        "clientY"@.len() == 7,
        "windowX"@.len() == 7,
        "windowY"@.len() == 7,
        "kind"@.len() == 4,
        "state"@.len() == 5,
        "doubleClick"@.len() == 11,
        "action"@.len() == 6,
        "axis"@.len() == 4,
        "delta"@.len() == 5,
        "clientX"@ != "clientY"@,
        "windowX"@ != "windowY"@,
        "clientX"@ != "windowX"@,
        "clientX"@ != "windowY"@,
        "clientY"@ != "windowX"@,
        "clientY"@ != "windowY"@,
        "kind"@ != "axis"@,
        "state"@ != "delta"@,
{
    reveal_strlit("clientX");
    reveal_strlit("clientY");
    reveal_strlit("windowX");
    reveal_strlit("windowY");
    reveal_strlit("kind");
    reveal_strlit("state");
    reveal_strlit("doubleClick");
    reveal_strlit("action");
    reveal_strlit("axis");
    reveal_strlit("delta");
    assert("clientX"@.len() == 7);
    assert("clientY"@.len() == 7);
    assert("windowX"@.len() == 7);
    assert("windowY"@.len() == 7);
    assert("kind"@.len() == 4);
    assert("state"@.len() == 5);
    assert("doubleClick"@.len() == 11);
    assert("action"@.len() == 6);
    assert("axis"@.len() == 4);
    assert("delta"@.len() == 5);
    assert("clientX"@[6] != "clientY"@[6]);
    assert("windowX"@[6] != "windowY"@[6]);
    assert("clientX"@[0] != "windowX"@[0]);
    assert("clientX"@[0] != "windowY"@[0]);
    assert("clientY"@[0] != "windowX"@[0]);
    assert("clientY"@[0] != "windowY"@[0]);
    assert("kind"@[0] != "axis"@[0]);
    assert("state"@[0] != "delta"@[0]);
}

/// A script is told where the cursor is, in the client area and in the window, what kind of input
/// it was, and what belongs to that kind: of a button whether it went down or up, whether it was a
/// double click and which button it was, and of the wheel the axis and how far it turned.
pub proof fn law_cursor_input_told(input: CursorInput)
    ensures
        ({
            let told = cursor_input_js(input);
            &&& prop(told, "clientX"@) == Some(JsView::Int(input.client.x as int))
            &&& prop(told, "clientY"@) == Some(JsView::Int(input.client.y as int))
            &&& prop(told, "windowX"@) == Some(JsView::Int(input.window.x as int))
            &&& prop(told, "windowY"@) == Some(JsView::Int(input.window.y as int))
            &&& match input.event {
                CursorEvent::Enter => prop(told, "kind"@) == Some(JsView::Text("Enter"@)),
                CursorEvent::Leave => prop(told, "kind"@) == Some(JsView::Text("Leave"@)),
                CursorEvent::Move => prop(told, "kind"@) == Some(JsView::Text("Move"@)),
                CursorEvent::Action { state, action } => {
                    &&& prop(told, "kind"@) == Some(JsView::Text("Action"@))
                    &&& state is Pressed ==> prop(told, "state"@) == Some(JsView::Text("Pressed"@))
                    &&& state is Released ==> prop(told, "state"@) == Some(
                        JsView::Text("Released"@),
                    )
                    &&& prop(told, "doubleClick"@) == Some(
                        JsView::Bool(state is Pressed && state->double_click),
                    )
                    &&& prop(told, "action"@) == Some(JsView::Text(action_text(action)))
                },
                CursorEvent::Scroll { axis, delta } => {
                    &&& prop(told, "kind"@) == Some(JsView::Text("Scroll"@))
                    &&& axis is X ==> prop(told, "axis"@) == Some(JsView::Text("X"@))
                    &&& axis is Y ==> prop(told, "axis"@) == Some(JsView::Text("Y"@))
                    &&& prop(told, "delta"@) == Some(JsView::Int(delta as int))
                },
            }
        }),
{
    lemma_cursor_names();
    let fields = cursor_input_js(input)->Object_0;
    let tail = cursor_event_fields(input.event);
    assert(forall|k: int| 0 <= k < tail.len() ==> fields[k + 4] == tail[k]);
    lemma_prop(fields, 0);
    lemma_prop(fields, 1);
    lemma_prop(fields, 2);
    lemma_prop(fields, 3);
    lemma_prop(fields, 4);
    match input.event {
        CursorEvent::Action { .. } => {
            lemma_prop(fields, 5);
            lemma_prop(fields, 6);
            lemma_prop(fields, 7);
        },
        CursorEvent::Scroll { .. } => {
            lemma_prop(fields, 5);
            lemma_prop(fields, 6);
        },
        _ => {},
    }
}

/// A list of texts is told as just these texts, in their order.
pub proof fn law_texts_told(list: Seq<Seq<char>>, i: int)
    ensures
        texts_js(list) is Array,
        texts_js(list)->Array_0.len() == list.len(),
        0 <= i < list.len() ==> texts_js(list)->Array_0[i] == JsView::Text(list[i]),
{
}

/// A script is told which candidates there are, where the page begins and how long it is, and which
/// one is selected.
pub proof fn law_candidates_told(list: ImeCandidateListView)
    ensures
        ({
            let told = candidate_list_js(list);
            &&& prop(told, "pageStartIndex"@) == Some(JsView::Int(list.page_start_index as int))
            &&& prop(told, "pageSize"@) == Some(JsView::Int(list.page_size as int))
            &&& prop(told, "selectedIndex"@) == Some(JsView::Int(list.selected_index as int))
            &&& prop(told, "candidates"@) == Some(texts_js(list.candidates))
        }),
{
    reveal_strlit("pageStartIndex");
    reveal_strlit("pageSize");
    reveal_strlit("selectedIndex");
    reveal_strlit("candidates");
    assert("pageStartIndex"@.len() == 14);
    assert("pageSize"@.len() == 8);
    assert("selectedIndex"@.len() == 13);
    assert("candidates"@.len() == 10);
    let fields = candidate_list_js(list)->Object_0;
    lemma_prop(fields, 0);
    lemma_prop(fields, 1);
    lemma_prop(fields, 2);
    lemma_prop(fields, 3);
}

/// A script is told what happened to an input method, and what belongs to that: the language, the
/// conversion, the candidates, or the text and where the caret stands in it.
pub proof fn law_ime_told(ime: ImeView)
    ensures
        ({
            let told = ime_js(ime);
            match ime {
                ImeView::Enabled { lang, conversion } => {
                    &&& prop(told, "kind"@) == Some(JsView::Text("Enabled"@))
                    &&& prop(told, "lang"@) == Some(JsView::Text(lang))
                    &&& prop(told, "conversion"@) == Some(JsView::Int(conversion as int))
                },
                ImeView::Changed(lang) => {
                    &&& prop(told, "kind"@) == Some(JsView::Text("Changed"@))
                    &&& prop(told, "lang"@) == Some(JsView::Text(lang))
                },
                ImeView::ConversionChanged(conversion) => {
                    &&& prop(told, "kind"@) == Some(JsView::Text("ConversionChanged"@))
                    &&& prop(told, "conversion"@) == Some(JsView::Int(conversion as int))
                },
                ImeView::CandidateChanged(list) => {
                    &&& prop(told, "kind"@) == Some(JsView::Text("CandidateChanged"@))
                    &&& prop(told, "list"@) == Some(candidate_list_js(list))
                },
                ImeView::CandidateClosed => prop(told, "kind"@) == Some(
                    JsView::Text("CandidateClosed"@),
                ),
                ImeView::Compose { text, caret } => {
                    &&& prop(told, "kind"@) == Some(JsView::Text("Compose"@))
                    &&& prop(told, "text"@) == Some(JsView::Text(text))
                    &&& prop(told, "caret"@) == Some(JsView::Size(caret as nat))
                },
                ImeView::Commit(text) => {
                    &&& prop(told, "kind"@) == Some(JsView::Text("Commit"@))
                    &&& prop(told, "text"@) == Some(JsView::Text(text))
                },
                ImeView::Disabled => prop(told, "kind"@) == Some(JsView::Text("Disabled"@)),
            }
        }),
{
    reveal_strlit("kind");
    reveal_strlit("lang");
    reveal_strlit("list");
    reveal_strlit("text");
    reveal_strlit("caret");
    reveal_strlit("conversion");
    assert("kind"@.len() == 4);
    assert("lang"@.len() == 4);
    assert("list"@.len() == 4);
    assert("text"@.len() == 4);
    assert("caret"@.len() == 5);
    assert("conversion"@.len() == 10);
    assert("kind"@[0] != "lang"@[0]);
    assert("kind"@[0] != "list"@[0]);
    assert("kind"@[0] != "text"@[0]);
    let fields = ime_js(ime)->Object_0;
    lemma_prop(fields, 0);
    if fields.len() > 1 {
        lemma_prop(fields, 1);
    }
    if fields.len() > 2 {
        lemma_prop(fields, 2);
    }
}

/// A script is told whether a key, a character or an input method it was, and which.
pub proof fn law_keyboard_input_told(input: KeyboardInputView)
    ensures
        ({
            let told = keyboard_input_js(input);
            match input {
                KeyboardInputView::Key { key, state } => {
                    &&& prop(told, "kind"@) == Some(JsView::Text("Key"@))
                    &&& prop(told, "key"@) == Some(key_js(key))
                    &&& prop(told, "state"@) == Some(JsView::Text(key_state_text(state)))
                },
                KeyboardInputView::Char(ch) => {
                    &&& prop(told, "kind"@) == Some(JsView::Text("Char"@))
                    &&& prop(told, "ch"@) == Some(JsView::Text(seq![ch]))
                },
                KeyboardInputView::Ime(ime) => {
                    &&& prop(told, "kind"@) == Some(JsView::Text("Ime"@))
                    &&& prop(told, "ime"@) == Some(ime_js(ime))
                },
            }
        }),
{
    reveal_strlit("kind");
    reveal_strlit("key");
    reveal_strlit("state");
    reveal_strlit("ch");
    reveal_strlit("ime");
    assert("kind"@.len() == 4);
    assert("key"@.len() == 3);
    assert("state"@.len() == 5);
    assert("ch"@.len() == 2);
    assert("ime"@.len() == 3);
    let fields = keyboard_input_js(input)->Object_0;
    lemma_prop(fields, 0);
    lemma_prop(fields, 1);
    if fields.len() > 2 {
        lemma_prop(fields, 2);
    }
}

/// A script is told all of a card: which one it is, its name and description, and where it is and
/// how large.
pub proof fn law_card_told(card: AugmentCardView)
    ensures
        ({
            let told = card_js(card);
            &&& prop(told, "instance"@) == Some(JsView::Int(card.instance as int))
            &&& prop(told, "name"@) == Some(JsView::Text(card.name))
            &&& prop(told, "description"@) == Some(JsView::Text(card.description))
            &&& prop(told, "x"@) == Some(JsView::Single(card.x))
            &&& prop(told, "y"@) == Some(JsView::Single(card.y))
            &&& prop(told, "width"@) == Some(JsView::Single(card.width))
            &&& prop(told, "height"@) == Some(JsView::Single(card.height))
        }),
{
    reveal_strlit("instance");
    reveal_strlit("name");
    reveal_strlit("description");
    reveal_strlit("x");
    reveal_strlit("y");
    reveal_strlit("width");
    reveal_strlit("height");
    assert("instance"@.len() == 8);
    assert("name"@.len() == 4);
    assert("description"@.len() == 11);
    assert("x"@.len() == 1);
    assert("y"@.len() == 1);
    assert("width"@.len() == 5);
    assert("height"@.len() == 6);
    assert("x"@[0] != "y"@[0]);
    let fields = card_js(card)->Object_0;
    lemma_prop(fields, 0);
    lemma_prop(fields, 1);
    lemma_prop(fields, 2);
    lemma_prop(fields, 3);
    lemma_prop(fields, 4);
    lemma_prop(fields, 5);
    lemma_prop(fields, 6);
}

/// A script is told the mode, and every card that there is to choose from, in their order; and the
/// names of the augments that the player has, in theirs.
pub proof fn law_augments_told(choices: AugmentChoicesView, names: Seq<Seq<char>>, i: int)
    ensures
        prop(augment_choices_js(choices), "mode"@) == Some(JsView::Text(choices.mode)),
        prop(augment_choices_js(choices), "cards"@) matches Some(JsView::Array(cards))
            && cards.len() == choices.cards.len() && (0 <= i < cards.len() ==> cards[i] == card_js(
            choices.cards[i],
        )),
        prop(owned_augments_js(names), "internalNames"@) == Some(texts_js(names)),
{
    reveal_strlit("mode");
    reveal_strlit("cards");
    assert("mode"@.len() == 4);
    assert("cards"@.len() == 5);
    let fields = augment_choices_js(choices)->Object_0;
    lemma_prop(fields, 0);
    lemma_prop(fields, 1);
    lemma_prop(owned_augments_js(names)->Object_0, 0);
}

/// A script is told of an event by its name, and then by everything there is to say of it, in a
/// fixed order.
pub proof fn law_event_told(event: OverlayEventView)
    ensures
        ({
            let told = event_js(event);
            match event {
                OverlayEventView::Window {
                    event: WindowEventView::Added { width, height, gpu_id },
                    ..
                } => told.len() == 5 && told[0] == JsView::Text("added"@) && told[2] == JsView::Int(
                    width as int,
                ) && told[3] == JsView::Int(height as int) && told[4] == gpu_luid_js(gpu_id),
                OverlayEventView::Window {
                    event: WindowEventView::Resized { width, height },
                    ..
                } => told.len() == 4 && told[0] == JsView::Text("resized"@) && told[2]
                    == JsView::Int(width as int) && told[3] == JsView::Int(height as int),
                OverlayEventView::Window {
                    event: WindowEventView::Input(InputEventView::Cursor(input)),
                    ..
                } => told.len() == 3 && told[0] == JsView::Text("cursor_input"@) && told[2]
                    == cursor_input_js(input),
                OverlayEventView::Window {
                    event: WindowEventView::Input(InputEventView::Keyboard(input)),
                    ..
                } => told.len() == 3 && told[0] == JsView::Text("keyboard_input"@) && told[2]
                    == keyboard_input_js(input),
                OverlayEventView::Window { event: WindowEventView::InputBlockingEnded, .. } => {
                    told.len() == 2 && told[0] == JsView::Text("input_blocking_ended"@)
                },
                OverlayEventView::Window { event: WindowEventView::Destroyed, .. } => told.len()
                    == 2 && told[0] == JsView::Text("destroyed"@),
                OverlayEventView::LolAugmentChoices(choices) => told.len() == 2 && told[0]
                    == JsView::Text("game.lol.augment.choices"@) && told[1] == augment_choices_js(
                    choices,
                ),
                OverlayEventView::LolAugmentOwned(names) => told.len() == 2 && told[0]
                    == JsView::Text("game.lol.augment.owned"@) && told[1] == owned_augments_js(
                    names,
                ),
                OverlayEventView::LolAugmentReadError(error) => told.len() == 2 && told[0]
                    == JsView::Text("game.lol.augment.error"@) && told[1] == JsView::Text(error),
            }
        }),
{
}

/// A number is cut to the nearest one of a range: it stays where it is in the range, and is never
/// beyond it.
pub proof fn law_clamped(n: int, low: int, high: int, m: int)
    requires
        low <= high,
    ensures
        low <= clamped(n, low, high) <= high,
        low <= n <= high ==> clamped(n, low, high) == n,
        n < low ==> clamped(n, low, high) == low,
        n > high ==> clamped(n, low, high) == high,
        n <= m ==> clamped(n, low, high) <= clamped(m, low, high),
{
}

/// A rectangle that a script gives is read side by side: what fits is taken as it is.
pub proof fn law_rect_read(rect: Rect)
    ensures
        rect_from(rect.x as int, rect.y as int, rect.width as int, rect.height as int) == rect,
        rect_from(-1, -1, -1, -1) == (Rect { x: 0, y: 0, width: 0, height: 0 }),
{
}

/// A shared texture is read from a script's number as it is; zero, and what is less, is none.
pub proof fn law_handle_read(n: int)
    ensures
        0 < n <= u32::MAX ==> handle_update_from(Some(n)).handle == Some(n as u32),
        n <= 0 ==> handle_update_from(Some(n)).handle is None,
        n > u32::MAX ==> handle_update_from(Some(n)).handle == Some(u32::MAX),
        handle_update_from(None).handle is None,
{
}

} // verus!
