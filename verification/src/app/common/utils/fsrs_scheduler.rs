//! The plain values that the FSRS scheduler hands the library. The
//! scheduler itself computes with `f32` and stays outside the library; each
//! state it proposes reaches the library with its memory state as bit
//! patterns and its interval truncated to whole days (`interval as i32`).

use vstd::prelude::*;

use crate::app::common::models::flashcard::{FlashcardStatus, SerializableMemoryState};

verus! {

/// The four answers the scheduler plans a next state for.
#[derive(Debug, Clone, Copy, PartialEq, Eq, Structural)]
pub enum Rating {
    Again,
    Hard,
    Good,
    Easy,
}

/// One state the scheduler proposes: the new memory state and the interval
/// in whole days, truncated toward zero (`f32 as i32`, saturating).
#[derive(Debug, Clone, Copy, PartialEq, Eq, Structural)]
pub struct ScheduledState {
    pub memory: SerializableMemoryState,
    pub interval_days: i32,
}

/// The next state for each rating.
#[derive(Debug, Clone, Copy, PartialEq, Eq, Structural)]
pub struct NextStates {
    pub again: ScheduledState,
    pub hard: ScheduledState,
    pub good: ScheduledState,
    pub easy: ScheduledState,
}

/// The rating that each status of the study buttons answers with; an
/// unrated status answers with none.
pub open spec fn rating_of(status: FlashcardStatus) -> Option<Rating> {
    match status {
        FlashcardStatus::Unrated => None,
        FlashcardStatus::Bad => Some(Rating::Again),
        FlashcardStatus::Okay => Some(Rating::Hard),
        FlashcardStatus::Great => Some(Rating::Good),
        FlashcardStatus::Easy => Some(Rating::Easy),
    }
}

/// The proposed state for a rating.
pub open spec fn state_for(next: NextStates, rating: Rating) -> ScheduledState {
    match rating {
        Rating::Again => next.again,
        Rating::Hard => next.hard,
        Rating::Good => next.good,
        Rating::Easy => next.easy,
    }
}

/// The rating a status answers with.
pub fn rating_for_status(status: FlashcardStatus) -> (r: Option<Rating>)
    ensures
        r == rating_of(status),
{
    match status {
        FlashcardStatus::Unrated => None,
        FlashcardStatus::Bad => Some(Rating::Again),
        FlashcardStatus::Okay => Some(Rating::Hard),
        FlashcardStatus::Great => Some(Rating::Good),
        FlashcardStatus::Easy => Some(Rating::Easy),
    }
}

impl NextStates {
    /// The proposed state for a rating.
    pub fn state(&self, rating: Rating) -> (s: ScheduledState)
        ensures
            s == state_for(*self, rating),
    {
        match rating {
            Rating::Again => self.again,
            Rating::Hard => self.hard,
            Rating::Good => self.good,
            Rating::Easy => self.easy,
        }
    }
}

} // verus!
