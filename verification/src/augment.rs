//! What a reader of the game's memory tells.

use crate::event::{
    card_views, texts, AugmentCard, AugmentCardView, AugmentChoices, AugmentChoicesView,
    OverlayEvent, OverlayEventView, OwnedAugments,
};
use vstd::prelude::*;
use vstd::utf8::{decode_utf8, valid_utf8};

verus! {

/// The text that UTF-8 stands for, where what is not valid is replaced.
pub uninterp spec fn utf8_lossy(bytes: Seq<u8>) -> Seq<char>;

/// Decodes UTF-8 with `String::from_utf8_lossy`. Valid UTF-8 is decoded as it is. How what is not
/// valid is replaced is not stated, but that it depends on the bytes alone.
#[verifier::external_body]
fn decode_lossy(bytes: &[u8]) -> (r: String)
    ensures
        r@ == utf8_lossy(bytes@),
        valid_utf8(bytes@) ==> r@ == decode_utf8(bytes@),
{
    String::from_utf8_lossy(bytes).into_owned()
}

/// A card as the reader gives it. Texts that are not there are `None`; the others are without
/// the zero at their end. The numbers are single-precision floats, held as their bits.
#[derive(Debug)]
pub struct NativeAugmentCard {
    pub instance: u32,
    pub name: Option<Vec<u8>>,
    pub description: Option<Vec<u8>>,
    pub x: u32,
    pub y: u32,
    pub width: u32,
    pub height: u32,
}

/// The text that the reader gives.
pub open spec fn copied(value: Option<Vec<u8>>) -> Seq<char> {
    match value {
        Some(bytes) => utf8_lossy(bytes@),
        None => Seq::empty(),
    }
}

/// Whether `text` is what valid UTF-8 stands for. Of what is not valid nothing is said.
pub open spec fn faithful(value: Option<Vec<u8>>, text: Seq<char>) -> bool {
    value matches Some(bytes) ==> valid_utf8(bytes@) ==> text == decode_utf8(bytes@)
}

/// Copies a text that the reader gives. One that is not there is empty.
pub fn copy_string(value: &Option<Vec<u8>>) -> (r: String)
    ensures
        r@ == copied(*value),
        faithful(*value, r@),
{
    match value {
        None => String::new(),
        Some(bytes) => decode_lossy(bytes.as_slice()),
    }
}

/// The card that the reader gives.
pub open spec fn copied_card(card: NativeAugmentCard) -> AugmentCardView {
    AugmentCardView {
        instance: card.instance,
        name: copied(card.name),
        description: copied(card.description),
        x: card.x,
        y: card.y,
        width: card.width,
        height: card.height,
    }
}

fn copy_card(card: &NativeAugmentCard) -> (r: AugmentCard)
    ensures
        r@ == copied_card(*card),
        faithful(card.name, r.name@),
        faithful(card.description, r.description@),
{
    AugmentCard {
        instance: card.instance,
        name: copy_string(&card.name),
        description: copy_string(&card.description),
        x: card.x,
        y: card.y,
        width: card.width,
        height: card.height,
    }
}

/// The choices that the reader gives.
pub open spec fn choices_event(mode: Seq<char>, cards: Seq<NativeAugmentCard>) -> OverlayEventView {
    OverlayEventView::LolAugmentChoices(
        AugmentChoicesView {
            mode,
            cards: cards.map_values(|card: NativeAugmentCard| copied_card(card)),
        },
    )
}

/// The reader gives choices. `emitter` is whether there is a client to tell, and `cards` the
/// cards, if there is a list of them. Nothing is told without a mode, nor where there should be
/// cards and there is no list.
pub fn on_choices(
    emitter: bool,
    mode: &Option<Vec<u8>>,
    cards: &Option<Vec<NativeAugmentCard>>,
    card_count: usize,
) -> (r: Option<OverlayEvent>)
    requires
        card_count != 0 && cards is Some ==> cards->0@.len() == card_count,
    ensures
        r is Some <==> emitter && mode is Some && (card_count == 0 || cards is Some),
        r is Some ==> r->0@ == choices_event(
            utf8_lossy(mode->0@),
            if card_count == 0 {
                Seq::empty()
            } else {
                cards->0@
            },
        ),
        r matches Some(OverlayEvent::LolAugmentChoices(choices)) ==> {
            &&& faithful(*mode, choices.mode@)
            &&& forall|i: int|
                0 <= i < choices.cards@.len() ==> {
                    let card = #[trigger] choices.cards@[i];
                    &&& faithful(cards->0@[i].name, card.name@)
                    &&& faithful(cards->0@[i].description, card.description@)
                }
        },
{
    if !emitter {
        return None;
    }
    let mode = match mode {
        Some(bytes) => decode_lossy(bytes.as_slice()),
        None => return None,
    };
    let mut copies: Vec<AugmentCard> = Vec::new();
    if card_count != 0 {
        let list = match cards {
            Some(list) => list,
            None => return None,
        };
        let mut i: usize = 0;
        while i < list.len()
            invariant
                i <= list.len(),
                card_views(copies@) == Seq::new(i as nat, |j: int| copied_card(list@[j])),
                copies@.len() == i,
                forall|j: int|
                    0 <= j < i ==> {
                        let card = #[trigger] copies@[j];
                        &&& faithful(list@[j].name, card.name@)
                        &&& faithful(list@[j].description, card.description@)
                    },
            decreases list.len() - i,
        {
            let ghost before = copies@;
            copies.push(copy_card(&list[i]));
            assert(card_views(copies@) =~= card_views(before).push(copied_card(list@[i as int])));
            i += 1;
            assert(card_views(copies@) =~= Seq::new(i as nat, |j: int| copied_card(list@[j])));
        }
        assert(card_views(copies@) =~= list@.map_values(
            |card: NativeAugmentCard| copied_card(card),
        ));
    } else {
        assert(card_views(copies@) =~= Seq::<NativeAugmentCard>::empty().map_values(
            |card: NativeAugmentCard| copied_card(card),
        ));
    }
    Some(OverlayEvent::LolAugmentChoices(AugmentChoices { mode, cards: copies }))
}

/// The augments that the reader gives.
pub open spec fn owned_event(names: Seq<Option<Vec<u8>>>) -> OverlayEventView {
    OverlayEventView::LolAugmentOwned(names.map_values(|name: Option<Vec<u8>>| copied(name)))
}

/// The reader gives the augments that the player has. Nothing is told where there should be names
/// and there is no list.
pub fn on_owned(emitter: bool, names: &Option<Vec<Option<Vec<u8>>>>, name_count: usize) -> (r:
    Option<OverlayEvent>)
    requires
        name_count != 0 && names is Some ==> names->0@.len() == name_count,
    ensures
        r is Some <==> emitter && (name_count == 0 || names is Some),
        r is Some ==> r->0@ == owned_event(
            if name_count == 0 {
                Seq::empty()
            } else {
                names->0@
            },
        ),
        r matches Some(OverlayEvent::LolAugmentOwned(owned)) ==> forall|i: int|
            0 <= i < owned.internal_names@.len() ==> faithful(
                names->0@[i],
                (#[trigger] owned.internal_names@[i])@,
            ),
{
    if !emitter {
        return None;
    }
    let mut internal_names: Vec<String> = Vec::new();
    if name_count != 0 {
        let list = match names {
            Some(list) => list,
            None => return None,
        };
        let mut i: usize = 0;
        while i < list.len()
            invariant
                i <= list.len(),
                texts(internal_names@) == Seq::new(i as nat, |j: int| copied(list@[j])),
                internal_names@.len() == i,
                forall|j: int|
                    0 <= j < i ==> faithful(list@[j], (#[trigger] internal_names@[j])@),
            decreases list.len() - i,
        {
            let ghost before = internal_names@;
            internal_names.push(copy_string(&list[i]));
            assert(texts(internal_names@) =~= texts(before).push(copied(list@[i as int])));
            i += 1;
            assert(texts(internal_names@) =~= Seq::new(i as nat, |j: int| copied(list@[j])));
        }
        assert(texts(internal_names@) =~= list@.map_values(
            |name: Option<Vec<u8>>| copied(name),
        ));
    } else {
        assert(texts(internal_names@) =~= Seq::<Option<Vec<u8>>>::empty().map_values(
            |name: Option<Vec<u8>>| copied(name),
        ));
    }
    Some(OverlayEvent::LolAugmentOwned(OwnedAugments { internal_names }))
}

/// The reader could not read.
pub fn on_error(emitter: bool, error: &Option<Vec<u8>>) -> (r: Option<OverlayEvent>)
    ensures
        r is Some <==> emitter,
        r is Some ==> r->0@ == OverlayEventView::LolAugmentReadError(copied(*error)),
        r matches Some(OverlayEvent::LolAugmentReadError(text)) ==> faithful(*error, text@),
{
    if !emitter {
        return None;
    }
    Some(OverlayEvent::LolAugmentReadError(copy_string(error)))
}

/// Why there is no reader.
#[derive(Debug, Clone, Copy, PartialEq, Eq, Structural)]
pub enum ReaderError {
    Create,
    Start,
}

impl ReaderError {
    pub open spec fn text(self) -> Seq<char> {
        match self {
            ReaderError::Create => "cannot create augment memory reader"@,
            ReaderError::Start => "cannot start augment memory reader"@,
        }
    }

    /// What went wrong.
    pub fn message(&self) -> (r: &'static str)
        ensures
            r@ == self.text(),
    {
        match self {
            ReaderError::Create => "cannot create augment memory reader",
            ReaderError::Start => "cannot start augment memory reader",
        }
    }
}

/// How far a reader has come, and so what to do next.
#[derive(Debug, Clone, Copy, PartialEq, Eq, Structural)]
pub enum AugmentReader {
    Create,
    /// Start the reader, which may call back from now on.
    Start,
    /// The reader runs until it is dropped.
    Running,
    Stop,
    /// Give up the reader.
    Destroy { error: Option<ReaderError> },
    /// Give up what the reader calls back with.
    FreeContext { error: Option<ReaderError> },
    Gone { error: Option<ReaderError> },
}

impl AugmentReader {
    /// Where the reader stands after what was to be done was done, or failed. What is given up
    /// cannot fail to be.
    pub open spec fn next(self, done: bool) -> AugmentReader {
        match self {
            AugmentReader::Create => if done {
                AugmentReader::Start
            } else {
                AugmentReader::Gone { error: Some(ReaderError::Create) }
            },
            AugmentReader::Start => if done {
                AugmentReader::Running
            } else {
                AugmentReader::Destroy { error: Some(ReaderError::Start) }
            },
            AugmentReader::Running => AugmentReader::Stop,
            AugmentReader::Stop => AugmentReader::Destroy { error: None },
            AugmentReader::Destroy { error } => AugmentReader::FreeContext { error },
            AugmentReader::FreeContext { error } => AugmentReader::Gone { error },
            over => over,
        }
    }

    /// Begins to start a reader.
    pub fn start() -> (r: AugmentReader)
        ensures
            r == AugmentReader::Create,
    {
        AugmentReader::Create
    }

    /// Tells whether what was to be done was done. To a running reader it says that it is
    /// dropped.
    pub fn advance(&mut self, done: bool)
        ensures
            *final(self) == old(self).next(done),
    {
        *self =
        match *self {
            AugmentReader::Create => if done {
                AugmentReader::Start
            } else {
                AugmentReader::Gone { error: Some(ReaderError::Create) }
            },
            AugmentReader::Start => if done {
                AugmentReader::Running
            } else {
                AugmentReader::Destroy { error: Some(ReaderError::Start) }
            },
            AugmentReader::Running => AugmentReader::Stop,
            AugmentReader::Stop => AugmentReader::Destroy { error: None },
            AugmentReader::Destroy { error } => AugmentReader::FreeContext { error },
            AugmentReader::FreeContext { error } => AugmentReader::Gone { error },
            over => over,
        };
    }
}

/// The reader after what was done.
pub open spec fn reader_run(done: Seq<bool>) -> AugmentReader
    decreases done.len(),
{
    if done.len() == 0 {
        AugmentReader::Create
    } else {
        reader_run(done.drop_last()).next(done.last())
    }
}

/// Whether the reader itself, and what it calls back with, are held.
pub open spec fn reader_holds(done: Seq<bool>) -> (bool, bool)
    decreases done.len(),
{
    if done.len() == 0 {
        (false, false)
    } else {
        let (reader, context) = reader_holds(done.drop_last());
        match reader_run(done.drop_last()) {
            AugmentReader::Create => (done.last(), done.last()),
            AugmentReader::Destroy { .. } => (false, context),
            AugmentReader::FreeContext { .. } => (reader, false),
            _ => (reader, context),
        }
    }
}

/// What a reader calls back with outlives the reader, and in the end neither is held, whether the
/// reader ran or not.
pub proof fn law_reader_given_up(done: Seq<bool>)
    ensures
        match reader_run(done) {
            AugmentReader::Create => reader_holds(done) == (false, false),
            AugmentReader::Start => reader_holds(done) == (true, true),
            AugmentReader::Running => reader_holds(done) == (true, true),
            AugmentReader::Stop => reader_holds(done) == (true, true),
            AugmentReader::Destroy { .. } => reader_holds(done) == (true, true),
            AugmentReader::FreeContext { .. } => reader_holds(done) == (false, true),
            AugmentReader::Gone { .. } => reader_holds(done) == (false, false),
        },
    decreases done.len(),
{
    if done.len() > 0 {
        law_reader_given_up(done.drop_last());
    }
}

/// A card that the reader gives is told as it is: its numbers bit by bit, and its texts each for
/// itself; a text that is not there is empty.
pub proof fn law_card_copied(card: NativeAugmentCard)
    ensures
        ({
            let told = copied_card(card);
            &&& told.instance == card.instance
            &&& told.x == card.x
            &&& told.y == card.y
            &&& told.width == card.width
            &&& told.height == card.height
            &&& card.name is None ==> told.name.len() == 0
            &&& card.description is None ==> told.description.len() == 0
            &&& card.name matches Some(bytes) ==> told.name == utf8_lossy(bytes@)
            &&& card.description matches Some(bytes) ==> told.description == utf8_lossy(bytes@)
        }),
{
}

/// Everything that the reader gives is told, one for one and in its order.
pub proof fn law_all_told(
    mode: Seq<char>,
    cards: Seq<NativeAugmentCard>,
    names: Seq<Option<Vec<u8>>>,
    i: int,
)
    ensures
        choices_event(mode, cards) matches OverlayEventView::LolAugmentChoices(choices)
            && choices.mode == mode && choices.cards.len() == cards.len() && (0 <= i < cards.len()
            ==> choices.cards[i] == copied_card(cards[i])),
        owned_event(names) matches OverlayEventView::LolAugmentOwned(told) && told.len()
            == names.len() && (0 <= i < names.len() ==> told[i] == copied(names[i])),
{
}

/// A text is copied faithfully exactly where, if it is valid UTF-8, it is what that stands for.
pub proof fn law_faithful(bytes: Vec<u8>, text: Seq<char>)
    ensures
        valid_utf8(bytes@) ==> (faithful(Some(bytes), text) <==> text == decode_utf8(bytes@)),
{
}

/// A reader runs exactly after it was made and started, and an error says which of the two failed.
pub proof fn law_reader_answers(done: Seq<bool>)
    ensures
        match reader_run(done) {
            AugmentReader::Create => done.len() == 0,
            AugmentReader::Start => done.len() == 1 && done[0],
            AugmentReader::Running => done.len() == 2 && done[0] && done[1],
            AugmentReader::Stop => done.len() == 3 && done[0] && done[1],
            AugmentReader::Destroy { error: None } => done.len() == 4 && done[0] && done[1],
            AugmentReader::Destroy { error: Some(err) } => done.len() == 2 && done[0] && !done[1]
                && err == ReaderError::Start,
            AugmentReader::FreeContext { error: None } => done.len() == 5 && done[0] && done[1],
            AugmentReader::FreeContext { error: Some(err) } => done.len() == 3 && done[0]
                && !done[1] && err == ReaderError::Start,
            AugmentReader::Gone { error: None } => done.len() >= 6 && done[0] && done[1],
            AugmentReader::Gone { error: Some(ReaderError::Create) } => done.len() >= 1 && !done[0],
            AugmentReader::Gone { error: Some(ReaderError::Start) } => done.len() >= 4 && done[0]
                && !done[1],
        },
    decreases done.len(),
{
    if done.len() > 0 {
        law_reader_answers(done.drop_last());
    }
}

} // verus!
