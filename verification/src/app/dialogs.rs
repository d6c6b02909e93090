use std::collections::VecDeque;

use vstd::prelude::*;

use crate::app::common::models::flashcard::{Flashcard, FlashcardField};

verus! {

/// A dialog of the application.
#[derive(Debug, Clone)]
pub enum DialogPage {
    /// Creating a new study set, with the name typed so far.
    NewStudySet(String),
    /// Renaming the active study set.
    RenameStudySet { to: String },
    /// Confirming the deletion of the active study set.
    DeleteStudySet,
    /// Confirming the deletion of a folder.
    DeleteFolder(i32),
    /// Creating a new folder in the active study set.
    NewFolder(String),
    /// Confirming the deletion of a flashcard.
    DeleteFlashcard(Flashcard),
}

/// What the user does with the dialogs.
#[derive(Debug, Clone)]
pub enum DialogAction {
    OpenNewStudySetDialog,
    OpenRenameStudySetDialog,
    OpenDeleteStudySetDialog,
    OpenCreateFolderDialog,
    OpenDeleteFolderDialog(i32),
    OpenDeleteFlashcardDialog(Flashcard),
    /// The user confirms the dialog in front.
    DialogComplete,
    /// The user cancels the dialog in front.
    DialogCancel,
    /// The dialog in front changes (its text is edited).
    DialogUpdate(DialogPage),
}

/// The study set selected in the navigation bar: its name and its id.
#[derive(Debug, Clone)]
pub struct NavSelection {
    pub active_text: Option<String>,
    pub active_id: Option<i32>,
}

/// The database work that confirming a dialog asks for, and what follows it.
#[derive(Debug, Clone)]
pub enum DialogJob {
    Nothing,
    /// Add a study set with this name, then reload the study sets.
    AddStudySet(String),
    /// Rename the study set, then reload the study sets.
    EditStudySet { id: i32, name: String },
    /// Delete the study set, then reload the study sets.
    DeleteStudySet(i32),
    /// Delete the folder, then reload the folders.
    DeleteFolder(i32),
    /// Add a folder with this name to the study set, then open the study set.
    AddFolder { name: String, studyset_id: i32 },
    /// Delete the flashcard, then delete the saved images of its sides, then
    /// reload the flashcards.
    DeleteFlashcard { id: i32, front_image: Option<String>, back_image: Option<String> },
}

/// What executing a dialog action asks of the interface.
#[derive(Debug, Clone)]
pub enum DialogEffect {
    Nothing,
    /// Focus the text input of the dialog.
    FocusTextInput,
    /// Run the job of the confirmed dialog.
    Run(DialogJob),
}

/// The saved image of a flashcard side that deleting the card removes: the
/// path of an image side with a path, for a card stored in the database.
pub open spec fn image_to_delete(field: FlashcardField, card_id: Option<i32>) -> Option<Seq<char>> {
    match field {
        FlashcardField::Image { path, .. } => if path@.len() > 0 && card_id is Some {
            Some(path@)
        } else {
            None
        },
        FlashcardField::Text(_) => None,
    }
}

/// The views of an optional string.
pub open spec fn opt_str(s: Option<String>) -> Option<Seq<char>> {
    match s {
        Some(t) => Some(t@),
        None => None,
    }
}

/// The job that confirming `page` asks for, with the active study set `set_id`.
pub open spec fn completion(page: DialogPage, set_id: Option<i32>, job: DialogJob) -> bool {
    match page {
        DialogPage::NewStudySet(name) => if name@.len() > 0 {
            job matches DialogJob::AddStudySet(n) && n@ == name@
        } else {
            job is Nothing
        },
        DialogPage::RenameStudySet { to } => if to@.len() > 0 && set_id is Some {
            job matches DialogJob::EditStudySet { id, name } && id == set_id->0 && name@ == to@
        } else {
            job is Nothing
        },
        DialogPage::DeleteStudySet => match set_id {
            Some(id) => job == DialogJob::DeleteStudySet(id),
            None => job is Nothing,
        },
        DialogPage::DeleteFolder(id) => job == DialogJob::DeleteFolder(id),
        DialogPage::NewFolder(name) => if name@.len() > 0 && set_id is Some {
            job matches DialogJob::AddFolder { name: n, studyset_id } && n@ == name@
                && studyset_id == set_id->0
        } else {
            job is Nothing
        },
        DialogPage::DeleteFlashcard(card) => job matches DialogJob::DeleteFlashcard {
            id,
            front_image,
            back_image,
        } && id == (match card.id {
            Some(i) => i,
            None => 0,
        }) && opt_str(front_image) == image_to_delete(card.front, card.id) && opt_str(back_image)
            == image_to_delete(card.back, card.id),
    }
}

/// The saved image of a side that deleting its card removes.
fn image_of(field: &FlashcardField, card_id: Option<i32>) -> (r: Option<String>)
    ensures
        opt_str(r) == image_to_delete(*field, card_id),
{
    match field {
        FlashcardField::Image { path, .. } => {
            if !path.as_str().is_empty() && card_id.is_some() {
                Some(path.clone())
            } else {
                None
            }
        },
        FlashcardField::Text(_) => None,
    }
}

impl DialogPage {
    /// The job of confirming this dialog, with `active_set_id` the study set
    /// selected in the navigation bar.
    pub fn complete(&self, active_set_id: Option<i32>) -> (job: DialogJob)
        ensures
            completion(*self, active_set_id, job),
    {
        match self {
            DialogPage::NewStudySet(name) => {
                if !name.as_str().is_empty() {
                    DialogJob::AddStudySet(name.clone())
                } else {
                    DialogJob::Nothing
                }
            },
            DialogPage::RenameStudySet { to } => {
                if !to.as_str().is_empty() {
                    if let Some(id) = active_set_id {
                        return DialogJob::EditStudySet { id, name: to.clone() };
                    }
                }
                DialogJob::Nothing
            },
            DialogPage::DeleteStudySet => match active_set_id {
                Some(id) => DialogJob::DeleteStudySet(id),
                None => DialogJob::Nothing,
            },
            DialogPage::DeleteFolder(id) => DialogJob::DeleteFolder(*id),
            DialogPage::NewFolder(name) => {
                if let Some(id) = active_set_id {
                    if !name.as_str().is_empty() {
                        return DialogJob::AddFolder { name: name.clone(), studyset_id: id };
                    }
                }
                DialogJob::Nothing
            },
            DialogPage::DeleteFlashcard(card) => {
                let front_image = image_of(&card.front, card.id);
                let back_image = image_of(&card.back, card.id);
                let id = match card.id {
                    Some(i) => i,
                    None => 0,
                };
                DialogJob::DeleteFlashcard { id, front_image, back_image }
            },
        }
    }

    /// An exact copy of the dialog.
    pub fn duplicate(&self) -> (r: Self)
        ensures
            r == *self,
    {
        match self {
            DialogPage::NewStudySet(n) => DialogPage::NewStudySet(n.clone()),
            DialogPage::RenameStudySet { to } => DialogPage::RenameStudySet { to: to.clone() },
            DialogPage::DeleteStudySet => DialogPage::DeleteStudySet,
            DialogPage::DeleteFolder(id) => DialogPage::DeleteFolder(*id),
            DialogPage::NewFolder(n) => DialogPage::NewFolder(n.clone()),
            DialogPage::DeleteFlashcard(c) => DialogPage::DeleteFlashcard(c.duplicate()),
        }
    }
}

/// The queue of open dialogs after `action`, and whether `effect` is what
/// the action asks for: an open action adds its dialog at the back (renaming
/// and deleting a study set only when one is selected) and focuses the text
/// input of the dialogs that have one; confirming removes the dialog in front
/// and runs its job; cancelling removes it; an update replaces it.
pub open spec fn executed(
    action: DialogAction,
    before: Seq<DialogPage>,
    nav: NavSelection,
    after: Seq<DialogPage>,
    effect: DialogEffect,
) -> bool {
    match action {
        DialogAction::OpenNewStudySetDialog => {
            &&& after.len() == before.len() + 1
            &&& after.drop_last() == before
            &&& after.last() matches DialogPage::NewStudySet(n) && n@.len() == 0
            &&& effect is FocusTextInput
        },
        DialogAction::OpenRenameStudySetDialog => match nav.active_text {
            Some(t) => {
                &&& after.len() == before.len() + 1
                &&& after.drop_last() == before
                &&& after.last() matches DialogPage::RenameStudySet { to } && to@ == t@
                &&& effect is FocusTextInput
            },
            None => after == before && effect is Nothing,
        },
        DialogAction::OpenDeleteStudySetDialog => (if nav.active_id is Some {
            after == before.push(DialogPage::DeleteStudySet)
        } else {
            after == before
        }) && effect is Nothing,
        DialogAction::OpenCreateFolderDialog => {
            &&& after.len() == before.len() + 1
            &&& after.drop_last() == before
            &&& after.last() matches DialogPage::NewFolder(n) && n@.len() == 0
            &&& effect is FocusTextInput
        },
        DialogAction::OpenDeleteFolderDialog(id) => after == before.push(DialogPage::DeleteFolder(id))
            && effect is Nothing,
        DialogAction::OpenDeleteFlashcardDialog(card) => after == before.push(
            DialogPage::DeleteFlashcard(card),
        ) && effect is Nothing,
        DialogAction::DialogComplete => if before.len() > 0 {
            &&& after == before.drop_first()
            &&& effect matches DialogEffect::Run(job) && completion(before[0], nav.active_id, job)
        } else {
            after == before && effect is Nothing
        },
        DialogAction::DialogCancel => (if before.len() > 0 {
            after == before.drop_first()
        } else {
            after == before
        }) && effect is Nothing,
        DialogAction::DialogUpdate(page) => after == before.update(0, page) && effect is Nothing,
    }
}

impl DialogAction {
    /// Executes the action on the queue of open dialogs.
    pub fn execute(self, dialog_pages: &mut VecDeque<DialogPage>, nav: &NavSelection) -> (effect:
        DialogEffect)
        requires
            self is DialogUpdate ==> old(dialog_pages)@.len() > 0,
        ensures
            executed(self, old(dialog_pages)@, *nav, final(dialog_pages)@, effect),
    {
        match self {
            DialogAction::OpenNewStudySetDialog => {
                dialog_pages.push_back(DialogPage::NewStudySet(String::new()));
                proof {
                    assert(dialog_pages@.drop_last() =~= old(dialog_pages)@);
                }
                DialogEffect::FocusTextInput
            },
            DialogAction::OpenRenameStudySetDialog => {
                if let Some(set_name) = &nav.active_text {
                    dialog_pages.push_back(DialogPage::RenameStudySet { to: set_name.clone() });
                    proof {
                        assert(dialog_pages@.drop_last() =~= old(dialog_pages)@);
                    }
                    return DialogEffect::FocusTextInput;
                }
                DialogEffect::Nothing
            },
            DialogAction::OpenDeleteStudySetDialog => {
                if nav.active_id.is_some() {
                    dialog_pages.push_back(DialogPage::DeleteStudySet);
                }
                DialogEffect::Nothing
            },
            DialogAction::OpenCreateFolderDialog => {
                dialog_pages.push_back(DialogPage::NewFolder(String::new()));
                proof {
                    assert(dialog_pages@.drop_last() =~= old(dialog_pages)@);
                }
                DialogEffect::FocusTextInput
            },
            DialogAction::OpenDeleteFolderDialog(folder_id) => {
                dialog_pages.push_back(DialogPage::DeleteFolder(folder_id));
                DialogEffect::Nothing
            },
            DialogAction::OpenDeleteFlashcardDialog(flashcard) => {
                dialog_pages.push_back(DialogPage::DeleteFlashcard(flashcard));
                DialogEffect::Nothing
            },
            DialogAction::DialogComplete => {
                if let Some(dialog_page) = dialog_pages.pop_front() {
                    return DialogEffect::Run(dialog_page.complete(nav.active_id));
                }
                DialogEffect::Nothing
            },
            DialogAction::DialogCancel => {
                let _ = dialog_pages.pop_front();
                DialogEffect::Nothing
            },
            DialogAction::DialogUpdate(dialog_page) => {
                let _ = dialog_pages.pop_front();
                dialog_pages.push_front(dialog_page);
                proof {
                    assert(dialog_pages@ =~= old(dialog_pages)@.update(0, dialog_page));
                }
                DialogEffect::Nothing
            },
        }
    }
}

/// Opening a dialog and cancelling it leaves no dialog open, when none was.
pub proof fn lemma_open_then_cancel(
    open: DialogAction,
    nav: NavSelection,
    mid: Seq<DialogPage>,
    e1: DialogEffect,
    after: Seq<DialogPage>,
    e2: DialogEffect,
)
    requires
        !(open is DialogComplete || open is DialogCancel || open is DialogUpdate),
        executed(open, Seq::empty(), nav, mid, e1),
        executed(DialogAction::DialogCancel, mid, nav, after, e2),
    ensures
        after == Seq::<DialogPage>::empty(),
{
    if mid.len() > 0 {
        assert(mid.drop_first() =~= Seq::<DialogPage>::empty());
    }
}

} // verus!

verus! {

/// Confirming a deletion dialog asks for the deletion of exactly what it
/// names: the folder of a folder dialog, whatever study set is selected,
/// the selected study set of a study set dialog, and the card of a card
/// dialog (id 0 for a card that was never stored).
pub proof fn lemma_confirm_deletion(page: DialogPage, set_id: Option<i32>, job: DialogJob)
    requires
        completion(page, set_id, job),
    ensures
        page matches DialogPage::DeleteFolder(id) ==> job == DialogJob::DeleteFolder(id),
        (page is DeleteStudySet && set_id is Some) ==> job == DialogJob::DeleteStudySet(set_id->0),
        page matches DialogPage::DeleteFlashcard(card) ==> (job is DeleteFlashcard
            && job->DeleteFlashcard_id == (match card.id {
            Some(i) => i,
            None => 0,
        })),
{
}

} // verus!
