use vstd::prelude::*;

use crate::app::common::utils::flashcards::current_day;

verus! {

/// The rating a learner gives to a [`Flashcard`] after studying it.
#[derive(Debug, Clone, Copy, PartialEq, Eq, Structural)]
pub enum FlashcardStatus {
    /// Not rated yet.
    Unrated,
    Bad,
    Okay,
    Great,
    Easy,
}

/// The database id of each status.
pub open spec fn status_id(status: FlashcardStatus) -> i32 {
    match status {
        FlashcardStatus::Unrated => 1,
        FlashcardStatus::Bad => 2,
        FlashcardStatus::Okay => 3,
        FlashcardStatus::Great => 4,
        FlashcardStatus::Easy => 5,
    }
}

/// The status stored under a database id, if any.
pub open spec fn status_of_id(id: i32) -> Option<FlashcardStatus> {
    if id == 1 {
        Some(FlashcardStatus::Unrated)
    } else if id == 2 {
        Some(FlashcardStatus::Bad)
    } else if id == 3 {
        Some(FlashcardStatus::Okay)
    } else if id == 4 {
        Some(FlashcardStatus::Great)
    } else if id == 5 {
        Some(FlashcardStatus::Easy)
    } else {
        None
    }
}

/// The key of each status's name in the translations.
pub open spec fn status_label_key(status: FlashcardStatus) -> Seq<char> {
    match status {
        FlashcardStatus::Unrated => "none-status"@,
        FlashcardStatus::Bad => "bad-status"@,
        FlashcardStatus::Okay => "ok-status"@,
        FlashcardStatus::Great => "good-status"@,
        FlashcardStatus::Easy => "easy-status"@,
    }
}

impl FlashcardStatus {
    /// The key under which the translations hold the status's name.
    pub fn label_key(self) -> (key: &'static str)
        ensures
            key@ == status_label_key(self),
    {
        match self {
            FlashcardStatus::Unrated => "none-status",
            FlashcardStatus::Bad => "bad-status",
            FlashcardStatus::Okay => "ok-status",
            FlashcardStatus::Great => "good-status",
            FlashcardStatus::Easy => "easy-status",
        }
    }

    /// Converts the status to its database id.
    pub fn to_id(self) -> (id: i32)
        ensures
            id == status_id(self),
    {
        match self {
            FlashcardStatus::Unrated => 1,
            FlashcardStatus::Bad => 2,
            FlashcardStatus::Okay => 3,
            FlashcardStatus::Great => 4,
            FlashcardStatus::Easy => 5,
        }
    }

    /// The status stored under the given database id; `None` for an id that
    /// no status has.
    pub fn from_id(id: i32) -> (status: Option<Self>)
        ensures
            status == status_of_id(id),
    {
        match id {
            1 => Some(FlashcardStatus::Unrated),
            2 => Some(FlashcardStatus::Bad),
            3 => Some(FlashcardStatus::Okay),
            4 => Some(FlashcardStatus::Great),
            5 => Some(FlashcardStatus::Easy),
            _ => None,
        }
    }

    /// The status that an unknown id reads as (`unwrap_or_default`).
    pub fn from_id_or_default(id: i32) -> (status: Self)
        ensures
            status == (match status_of_id(id) {
                Some(s) => s,
                None => FlashcardStatus::Unrated,
            }),
    {
        match Self::from_id(id) {
            Some(s) => s,
            None => FlashcardStatus::Unrated,
        }
    }
}

/// Every status reads back from its id.
pub proof fn lemma_status_id_roundtrip(status: FlashcardStatus)
    ensures
        status_of_id(status_id(status)) == Some(status),
{
}

/// An id that reads as a status is that status's id: ids and statuses are in
/// one-to-one correspondence on `1..=5`.
pub proof fn lemma_id_status_roundtrip(id: i32)
    ensures
        status_of_id(id) matches Some(s) ==> status_id(s) == id,
        status_of_id(id) is Some <==> 1 <= id <= 5,
{
}

/// The content of one side of a flashcard.
#[derive(Debug, Clone)]
pub enum FlashcardField {
    Text(String),
    Image { path: String, alt_text: String },
}

/// The text a side shows in lists and exports: its text, or the alternative
/// text of its image.
pub open spec fn field_text(field: FlashcardField) -> Seq<char> {
    match field {
        FlashcardField::Text(t) => t@,
        FlashcardField::Image { alt_text, .. } => alt_text@,
    }
}

/// A side is ready to be saved when its text, or both the path and the
/// alternative text of its image, are not empty.
pub open spec fn field_is_valid(field: FlashcardField) -> bool {
    match field {
        FlashcardField::Text(t) => t@.len() > 0,
        FlashcardField::Image { path, alt_text } => path@.len() > 0 && alt_text@.len() > 0,
    }
}

impl FlashcardField {
    /// An empty text side.
    pub fn empty_text() -> (f: Self)
        ensures
            f matches FlashcardField::Text(t) && t@.len() == 0,
    {
        FlashcardField::Text(String::new())
    }

    /// An image side with no image and no alternative text.
    pub fn empty_image() -> (f: Self)
        ensures
            f matches FlashcardField::Image { path, alt_text } && path@.len() == 0
                && alt_text@.len() == 0,
    {
        FlashcardField::Image { path: String::new(), alt_text: String::new() }
    }

    /// Returns true if the side is ready for database submission.
    pub fn is_valid(&self) -> (b: bool)
        ensures
            b == field_is_valid(*self),
    {
        match self {
            FlashcardField::Text(t) => !t.as_str().is_empty(),
            FlashcardField::Image { path, alt_text } => !path.as_str().is_empty() && !alt_text.as_str().is_empty(),
        }
    }

    /// The text of the side, or the alternative text of its image.
    pub fn text(&self) -> (t: &String)
        ensures
            t@ == field_text(*self),
    {
        match self {
            FlashcardField::Text(t) => t,
            FlashcardField::Image { alt_text, .. } => alt_text,
        }
    }

    /// The name of the kind of side, as the type picker shows it.
    pub fn kind_label(&self) -> (s: &'static str)
        ensures
            self is Text ==> s@ == "Text"@,
            self is Image ==> s@ == "Image"@,
    {
        match self {
            FlashcardField::Text(_) => "Text",
            FlashcardField::Image { .. } => "Image",
        }
    }

    /// An exact copy of the side.
    pub fn duplicate(&self) -> (r: Self)
        ensures
            r == *self,
    {
        match self {
            FlashcardField::Text(t) => FlashcardField::Text(t.clone()),
            FlashcardField::Image { path, alt_text } => FlashcardField::Image {
                path: path.clone(),
                alt_text: alt_text.clone(),
            },
        }
    }
}

/// The memory state of the scheduler for one card. Its two `f32` values,
/// stability and difficulty, are held as their IEEE-754 bit patterns: the
/// library stores and hands them on but never computes with them.
#[derive(Debug, Clone, Copy, PartialEq, Eq, Structural)]
pub struct SerializableMemoryState {
    pub stability_bits: u32,
    pub difficulty_bits: u32,
}

/// A flashcard with its review data.
#[derive(Debug, Clone)]
pub struct Flashcard {
    pub id: Option<i32>,
    pub front: FlashcardField,
    pub back: FlashcardField,
    pub status: FlashcardStatus,
    pub fsrs_state: Option<SerializableMemoryState>,
    /// Days since the epoch.
    pub due_date: Option<i32>,
    /// Days since the epoch.
    pub last_reviewed: Option<i32>,
}

/// A card is ready to be saved when both of its sides are.
pub open spec fn card_is_valid(card: Flashcard) -> bool {
    field_is_valid(card.front) && field_is_valid(card.back)
}

/// Whether a card is due on the given day: a scheduled card is due from its
/// due date on; an unscheduled card only when it has never been reviewed.
pub open spec fn card_is_due_on(card: Flashcard, today: i32) -> bool {
    match card.due_date {
        Some(due) => due <= today,
        None => card.fsrs_state is None,
    }
}

/// A new card: empty text sides, unrated, never reviewed.
pub open spec fn is_blank_card(card: Flashcard) -> bool {
    &&& card.id is None
    &&& card.front matches FlashcardField::Text(t) && t@.len() == 0
    &&& card.back matches FlashcardField::Text(t) && t@.len() == 0
    &&& card.status == FlashcardStatus::Unrated
    &&& card.fsrs_state is None
    &&& card.due_date is None
    &&& card.last_reviewed is None
}

impl Default for Flashcard {
    fn default() -> (card: Self)
        ensures
            is_blank_card(card),
    {
        Flashcard {
            id: None,
            front: FlashcardField::empty_text(),
            back: FlashcardField::empty_text(),
            status: FlashcardStatus::Unrated,
            fsrs_state: None,
            due_date: None,
            last_reviewed: None,
        }
    }
}

impl Flashcard {
    /// A new unrated card with the given texts.
    pub fn from_texts(front: String, back: String) -> (card: Self)
        ensures
            card.id is None,
            card.front == FlashcardField::Text(front),
            card.back == FlashcardField::Text(back),
            card.status == FlashcardStatus::Unrated,
            card.fsrs_state is None,
            card.due_date is None,
            card.last_reviewed is None,
    {
        Flashcard {
            id: None,
            front: FlashcardField::Text(front),
            back: FlashcardField::Text(back),
            status: FlashcardStatus::Unrated,
            fsrs_state: None,
            due_date: None,
            last_reviewed: None,
        }
    }

    /// Returns true if the flashcard is ready for database submission.
    pub fn is_valid(&self) -> (b: bool)
        ensures
            b == card_is_valid(*self),
    {
        self.front.is_valid() && self.back.is_valid()
    }

    /// Whether the card is due for review on the given day.
    pub fn is_due_on(&self, today: i32) -> (b: bool)
        ensures
            b == card_is_due_on(*self, today),
    {
        match self.due_date {
            Some(due) => due <= today,
            None => self.fsrs_state.is_none(),
        }
    }

    /// Whether the card is due for review today, by the system clock;
    /// `None` when the clock reads earlier than the epoch.
    pub fn is_due(&self) -> (b: Option<bool>)
        ensures
            self.due_date is None ==> (b matches Some(x) ==> x == (self.fsrs_state is None)),
    {
        match current_day() {
            Some(today) => Some(self.is_due_on(today)),
            None => None,
        }
    }

    /// An exact copy of the card.
    pub fn duplicate(&self) -> (r: Self)
        ensures
            r == *self,
    {
        Flashcard {
            id: self.id,
            front: self.front.duplicate(),
            back: self.back.duplicate(),
            status: self.status,
            fsrs_state: self.fsrs_state,
            due_date: self.due_date,
            last_reviewed: self.last_reviewed,
        }
    }

    /// Cards are the same card when their ids are equal.
    pub fn same_card(&self, other: &Self) -> (b: bool)
        ensures
            b == (self.id == other.id),
    {
        match (self.id, other.id) {
            (Some(a), Some(b)) => a == b,
            (None, None) => true,
            _ => false,
        }
    }
}

} // verus!
