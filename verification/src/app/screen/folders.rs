//! The folders screen of a study set.

use vstd::prelude::*;

use crate::app::common::models::folder::{Folder, DEFAULT_DESIRED_RETENTION_BITS};
use crate::app::context_page::ContextPage;

verus! {

/// Work the screen asks the interface to carry out.
#[derive(Debug, Clone)]
pub enum Job {
    /// Load the folders of the study set: `FoldersLoaded`, then
    /// `UpdateCurrentSetId` with the study set.
    LoadFolders(i32),
    /// Store the edited folder, then `LoadFolders`.
    EditFolder(Folder),
}

/// What the screen asks of the application.
#[derive(Debug, Clone)]
pub enum Action {
    Nothing,
    Run(Job),
    OpenCreateFolderDialog,
    OpenDeleteFolderDialog(i32),
    OpenContextPage(ContextPage),
    OpenFolder(i32),
}

/// The messages of the screen.
#[derive(Debug)]
pub enum Message {
    UpdateCurrentSetId(i32),
    LoadFolders,
    FoldersLoaded(Result<Vec<Folder>, String>),
    OpenCreateFolderDialog,
    OpenContextPage(ContextPage, Folder),
    EditFolder,
    EditFolderInput(String),
    DeleteFolder(i32),
    OpenFolder(i32),
}

/// The state of the screen.
#[derive(Debug)]
pub enum State {
    Loading,
    NoStudySet,
    Ready { current_set_id: Option<i32>, edit_folder: Folder, folders: Vec<Folder> },
}

/// The folders screen.
#[derive(Debug)]
pub struct FoldersScreen {
    pub state: State,
}

/// The state after a message, and what the message asks for.
pub open spec fn folders_step(old: State, msg: Message, new: State, action: Action) -> bool {
    match msg {
        Message::UpdateCurrentSetId(id) => action is Nothing && match old {
            State::Ready { edit_folder, folders, .. } => new == State::Ready {
                current_set_id: Some(id),
                edit_folder,
                folders,
            },
            _ => new == old,
        },
        Message::LoadFolders => new == old && match old {
            State::Ready { current_set_id: Some(id), .. } => action == Action::Run(
                Job::LoadFolders(id),
            ),
            _ => action is Nothing,
        },
        Message::FoldersLoaded(Ok(folders)) => {
            &&& action is Nothing
            &&& new matches State::Ready { current_set_id, edit_folder, folders: f }
            &&& new->current_set_id is None
            &&& new->Ready_folders == folders
            &&& match old {
                State::Ready { edit_folder, .. } => new->edit_folder == edit_folder,
                _ => new->edit_folder.id is None && new->edit_folder.name@.len() == 0
                    && new->edit_folder.desired_retention_bits == DEFAULT_DESIRED_RETENTION_BITS,
            }
        },
        Message::FoldersLoaded(Err(_)) => new == old && action is Nothing,
        Message::OpenCreateFolderDialog => new == old && action is OpenCreateFolderDialog,
        Message::OpenContextPage(page, folder) => match old {
            State::Ready { current_set_id, folders, .. } => new == State::Ready {
                current_set_id,
                edit_folder: folder,
                folders,
            } && action == Action::OpenContextPage(page),
            _ => new == old && action is Nothing,
        },
        Message::EditFolder => new == old && match old {
            State::Ready { edit_folder, .. } => action == Action::Run(Job::EditFolder(edit_folder)),
            _ => action is Nothing,
        },
        Message::EditFolderInput(name) => action is Nothing && match old {
            State::Ready { current_set_id, edit_folder, folders } => new == State::Ready {
                current_set_id,
                edit_folder: Folder { name, ..edit_folder },
                folders,
            },
            _ => new == old,
        },
        Message::DeleteFolder(id) => new == old && action == Action::OpenDeleteFolderDialog(id),
        Message::OpenFolder(id) => new == old && action == Action::OpenFolder(id),
    }
}

impl FoldersScreen {
    /// Whether the edit button of the folder settings can be pressed: when
    /// the edited folder has a name. `None` without a loaded study set.
    pub fn can_edit_folder(&self) -> (r: Option<bool>)
        ensures
            match self.state {
                State::Ready { edit_folder, .. } => r == Some(edit_folder.name@.len() > 0),
                _ => r is None,
            },
    {
        match &self.state {
            State::Ready { edit_folder, .. } => Some(!edit_folder.name.as_str().is_empty()),
            _ => None,
        }
    }


    /// The screen for a study set, and the job that loads its folders; with
    /// no study set, an empty screen and no job.
    pub fn new(studyset_id: Option<i32>) -> (r: (Self, Option<Job>))
        ensures
            match studyset_id {
                Some(id) => r.0.state is Loading && r.1 == Some(Job::LoadFolders(id)),
                None => r.0.state is NoStudySet && r.1 is None,
            },
    {
        match studyset_id {
            Some(set_id) => (FoldersScreen { state: State::Loading }, Some(Job::LoadFolders(set_id))),
            None => (FoldersScreen { state: State::NoStudySet }, None),
        }
    }

    /// Handles a message of the screen.
    pub fn update(&mut self, message: Message) -> (action: Action)
        ensures
            folders_step(old(self).state, message, final(self).state, action),
    {
        let mut st = State::Loading;
        std::mem::swap(&mut st, &mut self.state);
        match message {
            Message::UpdateCurrentSetId(set_id) => {
                match st {
                    State::Ready { edit_folder, folders, .. } => {
                        self.state = State::Ready { current_set_id: Some(set_id), edit_folder, folders };
                    },
                    other => {
                        self.state = other;
                    },
                }
                Action::Nothing
            },
            Message::LoadFolders => {
                let action = match &st {
                    State::Ready { current_set_id: Some(set_id), .. } => Action::Run(
                        Job::LoadFolders(*set_id),
                    ),
                    _ => Action::Nothing,
                };
                self.state = st;
                action
            },
            Message::FoldersLoaded(res) => {
                match res {
                    Ok(folders) => {
                        let edit_folder = match &st {
                            State::Ready { edit_folder, .. } => edit_folder.duplicate(),
                            _ => Folder::default(),
                        };
                        self.state = State::Ready { current_set_id: None, folders, edit_folder };
                    },
                    Err(_) => {
                        self.state = st;
                    },
                }
                Action::Nothing
            },
            Message::OpenCreateFolderDialog => {
                self.state = st;
                Action::OpenCreateFolderDialog
            },
            Message::OpenContextPage(context_page, folder) => {
                match st {
                    State::Ready { current_set_id, folders, .. } => {
                        self.state = State::Ready { current_set_id, edit_folder: folder, folders };
                        Action::OpenContextPage(context_page)
                    },
                    other => {
                        self.state = other;
                        Action::Nothing
                    },
                }
            },
            Message::EditFolder => {
                let action = match &st {
                    State::Ready { edit_folder, .. } => Action::Run(
                        Job::EditFolder(edit_folder.duplicate()),
                    ),
                    _ => Action::Nothing,
                };
                self.state = st;
                action
            },
            Message::EditFolderInput(value) => {
                match st {
                    State::Ready { current_set_id, edit_folder, folders } => {
                        let mut f = edit_folder;
                        f.name = value;
                        self.state = State::Ready { current_set_id, edit_folder: f, folders };
                    },
                    other => {
                        self.state = other;
                    },
                }
                Action::Nothing
            },
            Message::DeleteFolder(folder_id) => {
                self.state = st;
                Action::OpenDeleteFolderDialog(folder_id)
            },
            Message::OpenFolder(folder_id) => {
                self.state = st;
                Action::OpenFolder(folder_id)
            },
        }
    }
}

} // verus!
