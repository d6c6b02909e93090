//! The flashcards page of plain text cards: editing, listing and studying
//! the cards of a folder.

use vstd::prelude::*;

use crate::models::{is_error_card, Flashcard};
use crate::utils::{drawn_by_ticket, select_random_flashcard};

verus! {

/// The card being created or edited.
#[derive(Debug)]
pub struct CreateEditFlashcardState {
    pub id: Option<i32>,
    pub front: String,
    pub back: String,
    pub status: i32,
}

/// The messages of the page.
#[derive(Debug)]
pub enum Message {
    Upsert,
    Upserted,
    Load,
    LoadedSingle(Flashcard),
    SetFlashcards(Vec<Flashcard>),
    ToggleCreatePage(Option<Flashcard>),
    StudyFlashcards,
    ContextPageFrontInput(String),
    ContextPageBackInput(String),
    UpdateFlashcardStatus(Flashcard, StudyActions),
    UpdatedStatus(Vec<Flashcard>),
    SwapFlashcardSide,
    Delete(Option<i32>),
}

/// What the page asks of the application.
#[derive(Debug)]
pub enum Command {
    /// Load the cards of the folder with this id.
    LoadFlashcards(i32),
    ToggleCreateFlashcardPage(Option<Flashcard>),
    UpsertFlashcard(Flashcard),
    OpenStudyFolderFlashcardsPage,
    UpdateFlashcardStatus(Flashcard),
    DeleteFlashcard(Option<i32>),
}

/// The answers of the study page.
#[derive(Debug, Clone, Copy, PartialEq, Eq, Structural)]
pub enum StudyActions {
    Bad,
    Okay,
    Good,
}

/// Which side of the studied card is shown.
#[derive(Debug, Clone, Copy, PartialEq, Eq, Structural)]
pub enum CurrentFlashcardSide {
    Front,
    Back,
}

/// The flashcards page.
#[derive(Debug)]
pub struct Flashcards {
    pub current_folder_id: i32,
    pub flashcards: Vec<Flashcard>,
    pub new_edit_flashcard: CreateEditFlashcardState,
    pub currently_studying_flashcard: Flashcard,
    pub currently_studying_flashcard_side: CurrentFlashcardSide,
}

/// An empty card form.
pub open spec fn is_empty_form(f: CreateEditFlashcardState) -> bool {
    f.id is None && f.front@.len() == 0 && f.back@.len() == 0 && f.status == 0
}

/// The status each answer gives: bad 1, ok 2, good 3.
pub open spec fn action_status(action: StudyActions) -> i32 {
    match action {
        StudyActions::Bad => 1,
        StudyActions::Okay => 2,
        StudyActions::Good => 3,
    }
}

/// The card drawn for study from `cards`: the card of a ticket of the
/// weighted draw, or the error card when there is none.
pub open spec fn drawn_from(card: Flashcard, cards: Seq<Flashcard>) -> bool {
    if cards.len() == 0 {
        is_error_card(card)
    } else {
        drawn_by_ticket(card, cards)
    }
}

/// The page after a message, and the commands the message gives.
pub open spec fn flashcards_step(old: Flashcards, msg: Message, new: Flashcards, cmds: Seq<Command>) -> bool {
    match msg {
        Message::Upsert => new == old && cmds.len() == 1 && cmds[0] == Command::UpsertFlashcard(
            Flashcard {
                id: old.new_edit_flashcard.id,
                front: old.new_edit_flashcard.front,
                back: old.new_edit_flashcard.back,
                status: old.new_edit_flashcard.status,
            },
        ),
        Message::Upserted => {
            &&& is_empty_form(new.new_edit_flashcard)
            &&& new == Flashcards { new_edit_flashcard: new.new_edit_flashcard, ..old }
            &&& cmds == seq![Command::LoadFlashcards(old.current_folder_id)]
        },
        Message::LoadedSingle(card) => new == Flashcards {
            new_edit_flashcard: CreateEditFlashcardState {
                id: card.id,
                front: card.front,
                back: card.back,
                status: card.status,
            },
            ..old
        } && cmds.len() == 0,
        Message::SetFlashcards(cards) => new == Flashcards { flashcards: cards, ..old } && cmds.len()
            == 0,
        Message::ToggleCreatePage(card) => {
            &&& if card is None {
                is_empty_form(new.new_edit_flashcard) && new == Flashcards {
                    new_edit_flashcard: new.new_edit_flashcard,
                    ..old
                }
            } else {
                new == old
            }
            &&& cmds == seq![Command::ToggleCreateFlashcardPage(card)]
        },
        Message::StudyFlashcards => new == old && cmds == seq![Command::OpenStudyFolderFlashcardsPage],
        Message::ContextPageFrontInput(v) => new == Flashcards {
            new_edit_flashcard: CreateEditFlashcardState { front: v, ..old.new_edit_flashcard },
            ..old
        } && cmds.len() == 0,
        Message::ContextPageBackInput(v) => new == Flashcards {
            new_edit_flashcard: CreateEditFlashcardState { back: v, ..old.new_edit_flashcard },
            ..old
        } && cmds.len() == 0,
        Message::UpdateFlashcardStatus(card, action) => new == old && cmds == seq![
            Command::UpdateFlashcardStatus(Flashcard { status: action_status(action), ..card }),
        ],
        Message::UpdatedStatus(cards) => {
            &&& new == Flashcards {
                flashcards: cards,
                currently_studying_flashcard: new.currently_studying_flashcard,
                ..old
            }
            &&& drawn_from(new.currently_studying_flashcard, cards@)
            &&& cmds.len() == 0
        },
        Message::SwapFlashcardSide => new == Flashcards {
            currently_studying_flashcard_side: match old.currently_studying_flashcard_side {
                CurrentFlashcardSide::Front => CurrentFlashcardSide::Back,
                CurrentFlashcardSide::Back => CurrentFlashcardSide::Front,
            },
            ..old
        } && cmds.len() == 0,
        Message::Delete(id) => new == old && cmds == seq![Command::DeleteFlashcard(id)],
        Message::Load => new == old && cmds == seq![Command::LoadFlashcards(old.current_folder_id)],
    }
}

/// An empty card form.
fn empty_form() -> (f: CreateEditFlashcardState)
    ensures
        is_empty_form(f),
{
    CreateEditFlashcardState { id: None, front: String::new(), back: String::new(), status: 0 }
}

impl Flashcards {
    /// A page for folder 0 with no cards, an empty form and the error card.
    pub fn new() -> (p: Self)
        ensures
            p.current_folder_id == 0,
            p.flashcards@.len() == 0,
            is_empty_form(p.new_edit_flashcard),
            is_error_card(p.currently_studying_flashcard),
            p.currently_studying_flashcard_side == CurrentFlashcardSide::Front,
    {
        Self {
            current_folder_id: 0,
            flashcards: Vec::new(),
            currently_studying_flashcard: Flashcard::new_error_variant(),
            new_edit_flashcard: empty_form(),
            currently_studying_flashcard_side: CurrentFlashcardSide::Front,
        }
    }

    /// Handles a message of the page.
    pub fn update(&mut self, message: Message) -> (commands: Vec<Command>)
        ensures
            flashcards_step(*old(self), message, *final(self), commands@),
    {
        let mut commands: Vec<Command> = Vec::new();
        match message {
            Message::Upsert => commands.push(
                Command::UpsertFlashcard(
                    Flashcard {
                        id: self.new_edit_flashcard.id,
                        front: self.new_edit_flashcard.front.clone(),
                        back: self.new_edit_flashcard.back.clone(),
                        status: self.new_edit_flashcard.status,
                    },
                ),
            ),
            Message::Upserted => {
                self.new_edit_flashcard = empty_form();
                commands.push(Command::LoadFlashcards(self.current_folder_id));
            },
            Message::LoadedSingle(flashcard) => {
                self.new_edit_flashcard = CreateEditFlashcardState {
                    id: flashcard.id,
                    front: flashcard.front,
                    back: flashcard.back,
                    status: flashcard.status,
                };
            },
            Message::SetFlashcards(flashcards) => self.flashcards = flashcards,
            Message::ToggleCreatePage(flashcard) => {
                if flashcard.is_none() {
                    self.new_edit_flashcard = empty_form();
                }
                commands.push(Command::ToggleCreateFlashcardPage(flashcard));
            },
            Message::StudyFlashcards => commands.push(Command::OpenStudyFolderFlashcardsPage),
            Message::ContextPageFrontInput(value) => self.new_edit_flashcard.front = value,
            Message::ContextPageBackInput(value) => self.new_edit_flashcard.back = value,
            Message::UpdateFlashcardStatus(flashcard, action) => {
                let mut card = flashcard;
                match action {
                    StudyActions::Bad => card.status = 1,
                    StudyActions::Okay => card.status = 2,
                    StudyActions::Good => card.status = 3,
                }
                commands.push(Command::UpdateFlashcardStatus(card));
            },
            Message::UpdatedStatus(flashcards) => {
                self.flashcards = flashcards;
                self.currently_studying_flashcard = match select_random_flashcard(&self.flashcards) {
                    Some(card) => card,
                    None => Flashcard::new_error_variant(),
                };
            },
            Message::SwapFlashcardSide => match self.currently_studying_flashcard_side {
                CurrentFlashcardSide::Front => {
                    self.currently_studying_flashcard_side = CurrentFlashcardSide::Back
                },
                CurrentFlashcardSide::Back => {
                    self.currently_studying_flashcard_side = CurrentFlashcardSide::Front
                },
            },
            Message::Delete(flashcard_id) => commands.push(Command::DeleteFlashcard(flashcard_id)),
            Message::Load => commands.push(Command::LoadFlashcards(self.current_folder_id)),
        }
        proof {
            if commands@.len() == 1 {
                assert(commands@ =~= seq![commands@[0]]);
            }
        }
        commands
    }
}

} // verus!
