//! The study page of the `oboete` pages.

use vstd::prelude::*;

use crate::flashcards::{action_status, drawn_from};
use crate::models::{is_error_card, Flashcard};
use crate::oboete::utils::select_random_flashcard;

verus! {

/// Which side of the studied card is shown.
#[derive(Debug, Clone, Copy, PartialEq, Eq, Structural)]
pub enum CurrentFlashcardSide {
    Front,
    Back,
}

/// The answers of the study page.
#[derive(Debug, Clone, Copy, PartialEq, Eq, Structural)]
pub enum StudyActions {
    Bad,
    Okay,
    Good,
}

/// The messages of the page.
#[derive(Debug)]
pub enum Message {
    SetFlashcards(Vec<Flashcard>),
    SwapFlashcardSide,
    UpdateFlashcardStatus(Flashcard, StudyActions),
    UpdatedFlashcardStatus(Vec<Flashcard>),
}

/// What the page asks of the application.
#[derive(Debug)]
pub enum StudyPageTask {
    UpdateFlashcardStatus(Flashcard),
}

/// The study page.
#[derive(Debug)]
pub struct StudyPage {
    pub flashcards: Vec<Flashcard>,
    pub currently_studying_flashcard: Flashcard,
    pub currently_studying_flashcard_side: CurrentFlashcardSide,
}

/// The status each answer gives: bad 1, ok 2, good 3.
pub open spec fn answer_status(action: StudyActions) -> i32 {
    match action {
        StudyActions::Bad => 1,
        StudyActions::Okay => 2,
        StudyActions::Good => 3,
    }
}

/// The page after a message, and the tasks the message gives.
pub open spec fn study_page_step(old: StudyPage, msg: Message, new: StudyPage, tasks: Seq<StudyPageTask>) -> bool {
    match msg {
        Message::SetFlashcards(cards) => {
            &&& new.flashcards == cards
            &&& new.currently_studying_flashcard_side == old.currently_studying_flashcard_side
            &&& drawn_from(new.currently_studying_flashcard, cards@)
            &&& tasks.len() == 0
        },
        Message::SwapFlashcardSide => new == StudyPage {
            currently_studying_flashcard_side: match old.currently_studying_flashcard_side {
                CurrentFlashcardSide::Front => CurrentFlashcardSide::Back,
                CurrentFlashcardSide::Back => CurrentFlashcardSide::Front,
            },
            ..old
        } && tasks.len() == 0,
        Message::UpdateFlashcardStatus(card, action) => new == old && tasks == seq![
            StudyPageTask::UpdateFlashcardStatus(Flashcard { status: answer_status(action), ..card }),
        ],
        Message::UpdatedFlashcardStatus(cards) => {
            &&& new.flashcards == cards
            &&& new.currently_studying_flashcard_side == CurrentFlashcardSide::Front
            &&& drawn_from(new.currently_studying_flashcard, cards@)
            &&& tasks.len() == 0
        },
    }
}

impl StudyPage {
    /// A page with no cards, showing the front of the error card.
    pub fn init() -> (p: Self)
        ensures
            p.flashcards@.len() == 0,
            is_error_card(p.currently_studying_flashcard),
            p.currently_studying_flashcard_side == CurrentFlashcardSide::Front,
    {
        Self {
            flashcards: Vec::new(),
            currently_studying_flashcard: Flashcard::new_error_variant(),
            currently_studying_flashcard_side: CurrentFlashcardSide::Front,
        }
    }

    /// Handles a message of the page.
    pub fn update(&mut self, message: Message) -> (tasks: Vec<StudyPageTask>)
        ensures
            study_page_step(*old(self), message, *final(self), tasks@),
    {
        let mut tasks: Vec<StudyPageTask> = Vec::new();
        match message {
            Message::SetFlashcards(flashcards) => {
                self.flashcards = flashcards;
                self.currently_studying_flashcard = match select_random_flashcard(&self.flashcards) {
                    Some(card) => card,
                    None => Flashcard::new_error_variant(),
                };
            },
            Message::SwapFlashcardSide => match self.currently_studying_flashcard_side {
                CurrentFlashcardSide::Front => {
                    self.currently_studying_flashcard_side = CurrentFlashcardSide::Back
                },
                CurrentFlashcardSide::Back => {
                    self.currently_studying_flashcard_side = CurrentFlashcardSide::Front
                },
            },
            Message::UpdateFlashcardStatus(flashcard, action) => {
                let mut card = flashcard;
                match action {
                    StudyActions::Bad => card.status = 1,
                    StudyActions::Okay => card.status = 2,
                    StudyActions::Good => card.status = 3,
                }
                tasks.push(StudyPageTask::UpdateFlashcardStatus(card));
                proof {
                    assert(tasks@ =~= seq![tasks@[0]]);
                }
            },
            Message::UpdatedFlashcardStatus(flashcards) => {
                self.flashcards = flashcards;
                self.currently_studying_flashcard_side = CurrentFlashcardSide::Front;
                self.currently_studying_flashcard = match select_random_flashcard(&self.flashcards) {
                    Some(card) => card,
                    None => Flashcard::new_error_variant(),
                };
            },
        }
        tasks
    }
}

} // verus!
