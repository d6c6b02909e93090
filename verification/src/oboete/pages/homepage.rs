//! The home page of the `oboete` pages: the folders of a study set.

use vstd::prelude::*;

use crate::oboete::models::folder::Folder;

verus! {

/// The folder being edited.
#[derive(Debug)]
pub struct EditFolderState {
    pub id: Option<i32>,
    pub name: String,
    pub rtl_fix: bool,
}

/// An empty folder form.
pub open spec fn is_empty_edit_folder(f: EditFolderState) -> bool {
    f.id is None && f.name@.len() == 0 && !f.rtl_fix
}

impl EditFolderState {
    /// An empty folder form.
    pub fn new() -> (f: EditFolderState)
        ensures
            is_empty_edit_folder(f),
    {
        EditFolderState { id: None, name: String::new(), rtl_fix: false }
    }
}

/// The messages of the page.
#[derive(Debug)]
pub enum Message {
    FetchSetFolders,
    EditFolder,
    DeleteFolder(Option<i32>),
    SetFolders(Vec<Folder>),
    EditedFolder,
    DeletedFolder,
    AddedNewFolder,
    OpenEditContextPage(Folder),
    EditFolderNameInput(String),
    ToggleRLTCheckboxValue,
    OpenCreateFolderDialog,
    OpenFolder(i32, bool),
}

/// What the page asks of the application.
#[derive(Debug)]
pub enum HomePageTask {
    /// Load the folders of the study set with this id.
    FetchSetFolders(i32),
    EditFolder(Folder),
    DeleteFolder(i32),
    OpenEditContextPage,
    CloseContextPage,
    OpenCreateFolderDialog,
    /// Open the folder with this id, right to left or not.
    OpenFolder(i32, bool),
}

/// The home page.
#[derive(Debug)]
pub struct HomePage {
    pub current_set_id: Option<i32>,
    pub folders: Vec<Folder>,
    pub edit_folder: EditFolderState,
}

/// The reload of the folders, when a study set is selected.
pub open spec fn refetch(set_id: Option<i32>) -> Seq<HomePageTask> {
    match set_id {
        Some(id) => seq![HomePageTask::FetchSetFolders(id)],
        None => Seq::empty(),
    }
}

/// The page after a message, and the tasks the message gives.
pub open spec fn home_step(old: HomePage, msg: Message, new: HomePage, tasks: Seq<HomePageTask>) -> bool {
    match msg {
        Message::FetchSetFolders => new == old && tasks == refetch(old.current_set_id),
        Message::EditFolder => {
            &&& new == old
            &&& tasks.len() == 1
            &&& tasks[0] matches HomePageTask::EditFolder(f)
            &&& f.id == old.edit_folder.id && f.name == old.edit_folder.name
            &&& f.rtl_fix == old.edit_folder.rtl_fix && f.flashcards@.len() == 0
        },
        Message::DeleteFolder(id) => new == old && tasks == match id {
            Some(i) => seq![HomePageTask::DeleteFolder(i)],
            None => Seq::empty(),
        },
        Message::SetFolders(folders) => new == HomePage { folders, ..old } && tasks.len() == 0,
        Message::EditedFolder => {
            &&& is_empty_edit_folder(new.edit_folder)
            &&& new == HomePage { edit_folder: new.edit_folder, ..old }
            &&& tasks == refetch(old.current_set_id).push(HomePageTask::CloseContextPage)
        },
        Message::DeletedFolder | Message::AddedNewFolder => new == old && tasks == refetch(
            old.current_set_id,
        ),
        Message::OpenEditContextPage(folder) => new == HomePage {
            edit_folder: EditFolderState { id: folder.id, name: folder.name, rtl_fix: folder.rtl_fix },
            ..old
        } && tasks == seq![HomePageTask::OpenEditContextPage],
        Message::EditFolderNameInput(v) => new == HomePage {
            edit_folder: EditFolderState { name: v, ..old.edit_folder },
            ..old
        } && tasks.len() == 0,
        Message::ToggleRLTCheckboxValue => new == HomePage {
            edit_folder: EditFolderState { rtl_fix: !old.edit_folder.rtl_fix, ..old.edit_folder },
            ..old
        } && tasks.len() == 0,
        Message::OpenCreateFolderDialog => new == old && tasks == seq![HomePageTask::OpenCreateFolderDialog],
        Message::OpenFolder(id, rtl) => new == old && tasks == seq![HomePageTask::OpenFolder(id, rtl)],
    }
}

impl HomePage {
    /// A page with no study set selected.
    pub fn init() -> (p: Self)
        ensures
            p.current_set_id is None,
            p.folders@.len() == 0,
            is_empty_edit_folder(p.edit_folder),
    {
        Self { current_set_id: None, folders: Vec::new(), edit_folder: EditFolderState::new() }
    }

    /// Sets the currently selected study set.
    pub fn set_current_studyset_id(&mut self, id: Option<i32>)
        ensures
            *final(self) == (HomePage { current_set_id: id, ..*old(self) }),
    {
        self.current_set_id = id;
    }

    /// The currently selected study set.
    pub fn get_current_studyset_id(&self) -> (id: Option<i32>)
        ensures
            id == self.current_set_id,
    {
        self.current_set_id
    }

    /// Handles a message of the page.
    pub fn update(&mut self, message: Message) -> (tasks: Vec<HomePageTask>)
        ensures
            home_step(*old(self), message, *final(self), tasks@),
    {
        let mut tasks: Vec<HomePageTask> = Vec::new();
        match message {
            Message::FetchSetFolders => {
                if let Some(set_id) = self.current_set_id {
                    tasks.push(HomePageTask::FetchSetFolders(set_id));
                }
            },
            Message::EditFolder => {
                tasks.push(
                    HomePageTask::EditFolder(
                        Folder {
                            id: self.edit_folder.id,
                            name: self.edit_folder.name.clone(),
                            rtl_fix: self.edit_folder.rtl_fix,
                            flashcards: Vec::new(),
                        },
                    ),
                );
            },
            Message::DeleteFolder(maybe_id) => {
                if let Some(id) = maybe_id {
                    tasks.push(HomePageTask::DeleteFolder(id));
                }
            },
            Message::SetFolders(folders) => self.folders = folders,
            Message::EditedFolder => {
                self.edit_folder = EditFolderState::new();
                if let Some(set_id) = self.current_set_id {
                    tasks.push(HomePageTask::FetchSetFolders(set_id));
                }
                tasks.push(HomePageTask::CloseContextPage);
            },
            Message::DeletedFolder => {
                if let Some(set_id) = self.current_set_id {
                    tasks.push(HomePageTask::FetchSetFolders(set_id));
                }
            },
            Message::AddedNewFolder => {
                if let Some(set_id) = self.current_set_id {
                    tasks.push(HomePageTask::FetchSetFolders(set_id));
                }
            },
            Message::OpenEditContextPage(folder) => {
                self.edit_folder = EditFolderState {
                    id: folder.id,
                    name: folder.name,
                    rtl_fix: folder.rtl_fix,
                };
                tasks.push(HomePageTask::OpenEditContextPage);
            },
            Message::EditFolderNameInput(value) => self.edit_folder.name = value,
            Message::ToggleRLTCheckboxValue => self.edit_folder.rtl_fix = !self.edit_folder.rtl_fix,
            Message::OpenCreateFolderDialog => {
                tasks.push(HomePageTask::OpenCreateFolderDialog);
            },
            Message::OpenFolder(folder_id, rtl_fix) => {
                tasks.push(HomePageTask::OpenFolder(folder_id, rtl_fix));
            },
        }
        proof {
            if tasks@.len() == 1 {
                assert(tasks@ =~= seq![tasks@[0]]);
            }
            if tasks@.len() == 2 {
                assert(tasks@ =~= seq![tasks@[0]].push(tasks@[1]));
            }
            assert(Seq::<HomePageTask>::empty().push(HomePageTask::CloseContextPage) =~= seq![
                HomePageTask::CloseContextPage,
            ]);
        }
        tasks
    }
}

} // verus!
