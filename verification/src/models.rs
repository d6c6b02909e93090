//! The plain data model: texts on both sides and a numeric status.

use vstd::prelude::*;

verus! {

broadcast use vstd::string::group_string_axioms;

/// A flashcard: texts on both sides and a status (0 unrated, 1 bad, 2 ok,
/// 3 good).
#[derive(Debug, Clone)]
pub struct Flashcard {
    pub id: Option<i32>,
    pub front: String,
    pub back: String,
    pub status: i32,
}

/// The card shown when there is nothing to study.
pub open spec fn is_error_card(card: Flashcard) -> bool {
    card.id is None && card.front@ == "Error"@ && card.back@ == "Error"@ && card.status == 0
}

impl Flashcard {
    /// The card shown when there is nothing to study.
    pub fn new_error_variant() -> (card: Flashcard)
        ensures
            is_error_card(card),
    {
        Flashcard { id: None, front: String::from_str("Error"), back: String::from_str("Error"), status: 0 }
    }

    /// An exact copy of the card.
    pub fn duplicate(&self) -> (r: Self)
        ensures
            r == *self,
    {
        Flashcard { id: self.id, front: self.front.clone(), back: self.back.clone(), status: self.status }
    }
}

/// A study set and its folders.
#[derive(Debug, Clone)]
pub struct StudySet {
    pub id: Option<i32>,
    pub name: String,
    pub folders: Vec<Folder>,
}

impl StudySet {
    /// A new study set with this name and no folders.
    pub fn new(name: String) -> (s: StudySet)
        ensures
            s.id is None,
            s.name == name,
            s.folders@.len() == 0,
    {
        StudySet { id: None, name, folders: Vec::new() }
    }
}

/// A folder and its flashcards.
#[derive(Debug, Clone)]
pub struct Folder {
    pub id: Option<i32>,
    pub name: String,
    pub flashcards: Vec<Flashcard>,
}

impl Folder {
    /// A new folder with this name and no flashcards.
    pub fn new(name: String) -> (f: Folder)
        ensures
            f.id is None,
            f.name == name,
            f.flashcards@.len() == 0,
    {
        Folder { id: None, name, flashcards: Vec::new() }
    }
}

} // verus!
