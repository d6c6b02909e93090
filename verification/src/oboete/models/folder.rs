use vstd::prelude::*;

use crate::models::Flashcard;

verus! {

/// A folder of the `oboete` pages: its cards, and whether its texts are
/// shown right to left.
#[derive(Debug, Clone)]
pub struct Folder {
    pub id: Option<i32>,
    pub name: String,
    pub rtl_fix: bool,
    pub flashcards: Vec<Flashcard>,
}

/// A folder as a value: id, name, right-to-left flag and cards.
pub type FolderModel = (Option<i32>, String, bool, Seq<Flashcard>);

impl View for Folder {
    type V = FolderModel;

    open spec fn view(&self) -> FolderModel {
        (self.id, self.name, self.rtl_fix, self.flashcards@)
    }
}

impl Folder {
    /// A new folder with this name, left to right, with no cards.
    pub fn new(name: String) -> (f: Folder)
        ensures
            f.id is None,
            f.name == name,
            !f.rtl_fix,
            f.flashcards@.len() == 0,
    {
        Folder { id: None, name, rtl_fix: false, flashcards: Vec::new() }
    }
}

} // verus!
