//! The [`OverlayEvent`] enum and the types it is made of.
//!
//! Every type that holds text has a view: the same shape with each `String` taken as its
//! characters and each `Vec` as a sequence.

use vstd::prelude::*;

verus! {

/// The characters of every string of a list.
pub open spec fn texts(list: Seq<String>) -> Seq<Seq<char>> {
    list.map_values(|s: String| s@)
}

/// Locally unique identifier for a GPU adapter.
///
/// This identifier is not persistent across reboots.
#[derive(Debug, Clone, Copy, PartialEq, Eq, Hash, Structural)]
pub struct GpuLuid {
    /// The low part of the LUID.
    pub low: u32,
    /// The high part of the LUID.
    pub high: i32,
}

/// A point in pixels.
#[derive(Debug, Clone, Copy, PartialEq, Eq, Structural)]
pub struct InputPosition {
    pub x: i32,
    pub y: i32,
}

/// Which mouse button an action is about.
#[derive(Debug, Clone, Copy, PartialEq, Eq, Structural)]
pub enum CursorAction {
    Left,
    Right,
    Middle,
    Back,
    Forward,
}

/// Whether a mouse button went down or up.
#[derive(Debug, Clone, Copy, PartialEq, Eq, Structural)]
pub enum CursorInputState {
    Pressed { double_click: bool },
    Released,
}

/// Axis of a scroll.
#[derive(Debug, Clone, Copy, PartialEq, Eq, Structural)]
pub enum ScrollAxis {
    X,
    Y,
}

/// What the cursor did.
#[derive(Debug, Clone, Copy, PartialEq, Eq, Structural)]
pub enum CursorEvent {
    Enter,
    Leave,
    Action { state: CursorInputState, action: CursorAction },
    Move,
    Scroll { axis: ScrollAxis, delta: i32 },
}

/// A cursor event with the cursor's position, relative to the client area and to the window.
#[derive(Debug, Clone, Copy, PartialEq, Eq, Structural)]
pub struct CursorInput {
    pub event: CursorEvent,
    pub client: InputPosition,
    pub window: InputPosition,
}

/// Whether a key went down or up.
#[derive(Debug, Clone, Copy, PartialEq, Eq, Structural)]
pub enum KeyInputState {
    Pressed,
    Released,
}

/// A keyboard key. The code of a key is never zero.
#[derive(Debug, Clone, Copy, PartialEq, Eq, Structural)]
pub struct Key {
    pub code: u8,
    pub extended: bool,
}

impl Key {
    /// Whether the code names a key.
    pub open spec fn wf(self) -> bool {
        self.code != 0
    }
}

/// Candidate window of an input method editor.
#[derive(Debug, Clone, PartialEq)]
pub struct ImeCandidateList {
    pub page_start_index: u32,
    pub page_size: u32,
    pub selected_index: u32,
    pub candidates: Vec<String>,
}

/// View of an [`ImeCandidateList`].
pub struct ImeCandidateListView {
    pub page_start_index: u32,
    pub page_size: u32,
    pub selected_index: u32,
    pub candidates: Seq<Seq<char>>,
}

impl View for ImeCandidateList {
    type V = ImeCandidateListView;

    open spec fn view(&self) -> ImeCandidateListView {
        ImeCandidateListView {
            page_start_index: self.page_start_index,
            page_size: self.page_size,
            selected_index: self.selected_index,
            candidates: texts(self.candidates@),
        }
    }
}

/// Input method editor event. Conversion modes are given by their flag bits.
#[derive(Debug, Clone, PartialEq)]
pub enum Ime {
    Enabled { lang: String, conversion: u32 },
    Changed(String),
    ConversionChanged(u32),
    CandidateChanged(ImeCandidateList),
    CandidateClosed,
    Compose { text: String, caret: u64 },
    Commit(String),
    Disabled,
}

/// View of an [`Ime`].
pub enum ImeView {
    Enabled { lang: Seq<char>, conversion: u32 },
    Changed(Seq<char>),
    ConversionChanged(u32),
    CandidateChanged(ImeCandidateListView),
    CandidateClosed,
    Compose { text: Seq<char>, caret: u64 },
    Commit(Seq<char>),
    Disabled,
}

impl View for Ime {
    type V = ImeView;

    open spec fn view(&self) -> ImeView {
        match *self {
            Ime::Enabled { lang, conversion } => ImeView::Enabled { lang: lang@, conversion },
            Ime::Changed(lang) => ImeView::Changed(lang@),
            Ime::ConversionChanged(conversion) => ImeView::ConversionChanged(conversion),
            Ime::CandidateChanged(list) => ImeView::CandidateChanged(list@),
            Ime::CandidateClosed => ImeView::CandidateClosed,
            Ime::Compose { text, caret } => ImeView::Compose { text: text@, caret },
            Ime::Commit(text) => ImeView::Commit(text@),
            Ime::Disabled => ImeView::Disabled,
        }
    }
}

/// What the keyboard did.
#[derive(Debug, Clone, PartialEq)]
pub enum KeyboardInput {
    Key { key: Key, state: KeyInputState },
    Char(char),
    Ime(Ime),
}

/// View of a [`KeyboardInput`].
pub enum KeyboardInputView {
    Key { key: Key, state: KeyInputState },
    Char(char),
    Ime(ImeView),
}

impl View for KeyboardInput {
    type V = KeyboardInputView;

    open spec fn view(&self) -> KeyboardInputView {
        match *self {
            KeyboardInput::Key { key, state } => KeyboardInputView::Key { key, state },
            KeyboardInput::Char(ch) => KeyboardInputView::Char(ch),
            KeyboardInput::Ime(ime) => KeyboardInputView::Ime(ime@),
        }
    }
}

/// Input that a window received.
#[derive(Debug, Clone, PartialEq)]
pub enum InputEvent {
    Cursor(CursorInput),
    Keyboard(KeyboardInput),
}

/// View of an [`InputEvent`].
pub enum InputEventView {
    Cursor(CursorInput),
    Keyboard(KeyboardInputView),
}

impl View for InputEvent {
    type V = InputEventView;

    open spec fn view(&self) -> InputEventView {
        match *self {
            InputEvent::Cursor(input) => InputEventView::Cursor(input),
            InputEvent::Keyboard(input) => InputEventView::Keyboard(input@),
        }
    }
}

/// Describe a window event.
#[derive(Debug, Clone, PartialEq)]
pub enum WindowEvent {
    /// A new window capable for overlay rendering is identified.
    Added {
        /// Initial width of the window
        width: u32,
        /// Initial height of the window
        height: u32,
        /// The LUID of the GPU adapter which the window used to present to surface.
        ///
        /// Client must choose correct GPU adapter using this luid,
        /// otherwise overlay rendering may fail.
        gpu_id: GpuLuid,
    },
    /// Window size is changed.
    Resized {
        /// New width of the window
        width: u32,
        /// New height of the window
        height: u32,
    },
    /// Input event related to this window.
    ///
    /// You only receive this event if you are listening to input events
    /// or have input blocking enabled for this window.
    Input(InputEvent),
    /// Input blocking is turned off or interrupted by the user or system.
    InputBlockingEnded,
    /// Window is no longer available for overlay rendering.
    /// This is likely the last event for this window.
    Destroyed,
}

/// View of a [`WindowEvent`].
pub enum WindowEventView {
    Added { width: u32, height: u32, gpu_id: GpuLuid },
    Resized { width: u32, height: u32 },
    Input(InputEventView),
    InputBlockingEnded,
    Destroyed,
}

impl View for WindowEvent {
    type V = WindowEventView;

    open spec fn view(&self) -> WindowEventView {
        match *self {
            WindowEvent::Added { width, height, gpu_id } => WindowEventView::Added {
                width,
                height,
                gpu_id,
            },
            WindowEvent::Resized { width, height } => WindowEventView::Resized { width, height },
            WindowEvent::Input(event) => WindowEventView::Input(event@),
            WindowEvent::InputBlockingEnded => WindowEventView::InputBlockingEnded,
            WindowEvent::Destroyed => WindowEventView::Destroyed,
        }
    }
}

/// A single League augment card. The rectangle's edges are IEEE 754 single precision numbers,
/// each held as its 32 bits.
#[derive(Debug, Clone, PartialEq)]
pub struct AugmentCard {
    pub instance: u32,
    pub name: String,
    pub description: String,
    pub x: u32,
    pub y: u32,
    pub width: u32,
    pub height: u32,
}

/// View of an [`AugmentCard`].
pub struct AugmentCardView {
    pub instance: u32,
    pub name: Seq<char>,
    pub description: Seq<char>,
    pub x: u32,
    pub y: u32,
    pub width: u32,
    pub height: u32,
}

impl View for AugmentCard {
    type V = AugmentCardView;

    open spec fn view(&self) -> AugmentCardView {
        AugmentCardView {
            instance: self.instance,
            name: self.name@,
            description: self.description@,
            x: self.x,
            y: self.y,
            width: self.width,
            height: self.height,
        }
    }
}

/// The views of every card of a list.
pub open spec fn card_views(list: Seq<AugmentCard>) -> Seq<AugmentCardView> {
    list.map_values(|c: AugmentCard| c@)
}

/// League augment choice snapshot.
#[derive(Debug, Clone, PartialEq)]
pub struct AugmentChoices {
    pub mode: String,
    pub cards: Vec<AugmentCard>,
}

/// View of [`AugmentChoices`].
pub struct AugmentChoicesView {
    pub mode: Seq<char>,
    pub cards: Seq<AugmentCardView>,
}

impl View for AugmentChoices {
    type V = AugmentChoicesView;

    open spec fn view(&self) -> AugmentChoicesView {
        AugmentChoicesView { mode: self.mode@, cards: card_views(self.cards@) }
    }
}

/// Augments that the local player owns, by their internal names.
#[derive(Debug, Clone, PartialEq)]
pub struct OwnedAugments {
    pub internal_names: Vec<String>,
}

impl View for OwnedAugments {
    type V = Seq<Seq<char>>;

    open spec fn view(&self) -> Seq<Seq<char>> {
        texts(self.internal_names@)
    }
}

/// Describe a overlay event.
#[derive(Debug, Clone, PartialEq)]
pub enum OverlayEvent {
    /// Events related to a specific window.
    Window {
        /// Unique identifier for the window.
        id: u32,
        event: WindowEvent,
    },
    /// Current League of Legends augment choices read inside the game process.
    LolAugmentChoices(AugmentChoices),
    /// Memory reader diagnostic emitted when a snapshot cannot be read.
    LolAugmentReadError(String),
    /// Augments the local player owns, read inside the game process.
    LolAugmentOwned(OwnedAugments),
}

/// View of an [`OverlayEvent`].
pub enum OverlayEventView {
    Window { id: u32, event: WindowEventView },
    LolAugmentChoices(AugmentChoicesView),
    LolAugmentReadError(Seq<char>),
    LolAugmentOwned(Seq<Seq<char>>),
}

impl View for OverlayEvent {
    type V = OverlayEventView;

    open spec fn view(&self) -> OverlayEventView {
        match *self {
            OverlayEvent::Window { id, event } => OverlayEventView::Window { id, event: event@ },
            OverlayEvent::LolAugmentChoices(choices) => OverlayEventView::LolAugmentChoices(
                choices@,
            ),
            OverlayEvent::LolAugmentOwned(owned) => OverlayEventView::LolAugmentOwned(owned@),
            OverlayEvent::LolAugmentReadError(error) => OverlayEventView::LolAugmentReadError(
                error@,
            ),
        }
    }
}

impl OverlayEventView {
    /// Whether every key code in the event names a key.
    pub open spec fn wf(self) -> bool {
        self matches OverlayEventView::Window {
            event: WindowEventView::Input(
                InputEventView::Keyboard(KeyboardInputView::Key { key, .. }),
            ),
            ..
        } ==> key.wf()
    }
}

/// A view has every part of what it is the view of: numbers as they are, texts as their characters
/// and lists item by item.
pub proof fn law_views(
    list: ImeCandidateList,
    card: AugmentCard,
    choices: AugmentChoices,
    owned: OwnedAugments,
    i: int,
)
    ensures
        list@.page_start_index == list.page_start_index,
        list@.page_size == list.page_size,
        list@.selected_index == list.selected_index,
        list@.candidates.len() == list.candidates@.len(),
        0 <= i < list.candidates@.len() ==> list@.candidates[i] == list.candidates@[i]@,
        card@.instance == card.instance,
        card@.name == card.name@,
        card@.description == card.description@,
        card@.x == card.x,
        card@.y == card.y,
        card@.width == card.width,
        card@.height == card.height,
        choices@.mode == choices.mode@,
        choices@.cards.len() == choices.cards@.len(),
        0 <= i < choices.cards@.len() ==> choices@.cards[i] == choices.cards@[i]@,
        owned@.len() == owned.internal_names@.len(),
        0 <= i < owned.internal_names@.len() ==> owned@[i] == owned.internal_names@[i]@,
{
}

/// The view of an event says what happened, to which window, and everything that belongs to it.
pub proof fn law_event_views(event: OverlayEvent, input: KeyboardInput, ime: Ime)
    ensures
        match event {
            OverlayEvent::Window { id, event: happened } => event@ matches OverlayEventView::Window {
                id: seen,
                event: view,
            } && seen == id && match happened {
                WindowEvent::Added { width, height, gpu_id } => view == (WindowEventView::Added {
                    width,
                    height,
                    gpu_id,
                }),
                WindowEvent::Resized { width, height } => view == (WindowEventView::Resized {
                    width,
                    height,
                }),
                WindowEvent::Input(InputEvent::Cursor(cursor)) => view == WindowEventView::Input(
                    InputEventView::Cursor(cursor),
                ),
                WindowEvent::Input(InputEvent::Keyboard(keys)) => view == WindowEventView::Input(
                    InputEventView::Keyboard(keys@),
                ),
                WindowEvent::InputBlockingEnded => view is InputBlockingEnded,
                WindowEvent::Destroyed => view is Destroyed,
            },
            OverlayEvent::LolAugmentChoices(choices) => event@
                == OverlayEventView::LolAugmentChoices(choices@),
            OverlayEvent::LolAugmentReadError(error) => event@
                == OverlayEventView::LolAugmentReadError(error@),
            OverlayEvent::LolAugmentOwned(owned) => event@ == OverlayEventView::LolAugmentOwned(
                owned@,
            ),
        },
        match input {
            KeyboardInput::Key { key, state } => input@ == (KeyboardInputView::Key { key, state }),
            KeyboardInput::Char(ch) => input@ == KeyboardInputView::Char(ch),
            KeyboardInput::Ime(happened) => input@ == KeyboardInputView::Ime(happened@),
        },
        match ime {
            Ime::Enabled { lang, conversion } => ime@ == (ImeView::Enabled {
                lang: lang@,
                conversion,
            }),
            Ime::Changed(lang) => ime@ == ImeView::Changed(lang@),
            Ime::ConversionChanged(conversion) => ime@ == ImeView::ConversionChanged(conversion),
            Ime::CandidateChanged(list) => ime@ == ImeView::CandidateChanged(list@),
            Ime::CandidateClosed => ime@ is CandidateClosed,
            Ime::Compose { text, caret } => ime@ == (ImeView::Compose { text: text@, caret }),
            Ime::Commit(text) => ime@ == ImeView::Commit(text@),
            Ime::Disabled => ime@ is Disabled,
        },
{
}

} // verus!
