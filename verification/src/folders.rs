//! The folders page for plain text cards.

use vstd::prelude::*;

use crate::models::Folder;

verus! {

/// The folder being created or renamed.
#[derive(Debug)]
pub struct NewFolderState {
    pub id: Option<i32>,
    pub name: String,
}

/// An empty folder form.
pub open spec fn is_empty_folder_form(f: NewFolderState) -> bool {
    f.id is None && f.name@.len() == 0
}

impl NewFolderState {
    /// An empty folder form.
    pub fn new() -> (f: NewFolderState)
        ensures
            is_empty_folder_form(f),
    {
        NewFolderState { id: None, name: String::new() }
    }
}

/// The messages of the page.
#[derive(Debug)]
pub enum Message {
    OpenCreateFolderDialog,
    ToggleEditContextPage(Option<Folder>),
    LoadFolders,
    Upsert,
    Delete(Option<i32>),
    Upserted,
    SetFolders(Vec<Folder>),
    LoadedSingle(Folder),
    OpenFolder(i32),
    NewFolderNameInput(String),
}

/// What the page asks of the application.
#[derive(Debug)]
pub enum Command {
    /// Load the folders of the study set with this id.
    LoadFolders(i32),
    /// Open the folder with this id.
    OpenFolder(i32),
    UpsertFolder(Folder),
    OpenCreateFolderDialog,
    ToggleEditContextPage(Option<Folder>),
    DeleteFolder(Option<i32>),
}

/// The folders page.
#[derive(Debug)]
pub struct Folders {
    pub current_studyset_id: Option<i32>,
    pub folders: Vec<Folder>,
    pub new_folder: NewFolderState,
}

/// The page after a message, and the commands the message gives.
pub open spec fn folders_step(old: Folders, msg: Message, new: Folders, cmds: Seq<Command>) -> bool {
    match msg {
        Message::OpenCreateFolderDialog => new == old && cmds == seq![Command::OpenCreateFolderDialog],
        Message::Upsert => {
            &&& new == old
            &&& cmds.len() == 1
            &&& cmds[0] matches Command::UpsertFolder(f)
            &&& f.id == old.new_folder.id && f.name == old.new_folder.name && f.flashcards@.len() == 0
        },
        Message::Upserted => {
            &&& is_empty_folder_form(new.new_folder)
            &&& new == Folders { new_folder: new.new_folder, ..old }
            &&& cmds == seq![Command::LoadFolders(old.current_studyset_id->0)]
        },
        Message::LoadedSingle(folder) => new == Folders {
            new_folder: NewFolderState { id: folder.id, name: folder.name },
            ..old
        } && cmds.len() == 0,
        Message::LoadFolders => new == old && match old.current_studyset_id {
            Some(id) => cmds == seq![Command::LoadFolders(id)],
            None => cmds.len() == 0,
        },
        Message::SetFolders(folders) => new == Folders { folders, ..old } && cmds.len() == 0,
        Message::NewFolderNameInput(v) => new == Folders {
            new_folder: NewFolderState { name: v, ..old.new_folder },
            ..old
        } && cmds.len() == 0,
        Message::OpenFolder(id) => new == old && cmds == seq![Command::OpenFolder(id)],
        Message::ToggleEditContextPage(folder) => {
            &&& if folder is None {
                is_empty_folder_form(new.new_folder) && new == Folders { new_folder: new.new_folder, ..old }
            } else {
                new == old
            }
            &&& cmds == seq![Command::ToggleEditContextPage(folder)]
        },
        Message::Delete(id) => new == old && cmds == seq![Command::DeleteFolder(id)],
    }
}

impl Folders {
    /// A page with no study set, no folders and an empty form.
    pub fn new() -> (p: Self)
        ensures
            p.current_studyset_id is None,
            p.folders@.len() == 0,
            is_empty_folder_form(p.new_folder),
    {
        Self { current_studyset_id: None, folders: Vec::new(), new_folder: NewFolderState::new() }
    }

    /// Handles a message of the page. Saving a folder is only reported on a
    /// page that has a study set.
    pub fn update(&mut self, message: Message) -> (commands: Vec<Command>)
        requires
            message is Upserted ==> old(self).current_studyset_id is Some,
        ensures
            folders_step(*old(self), message, *final(self), commands@),
    {
        let mut commands: Vec<Command> = Vec::new();
        match message {
            Message::OpenCreateFolderDialog => commands.push(Command::OpenCreateFolderDialog),
            Message::Upsert => commands.push(
                Command::UpsertFolder(
                    Folder { id: self.new_folder.id, name: self.new_folder.name.clone(), flashcards: Vec::new() },
                ),
            ),
            Message::Upserted => {
                self.new_folder = NewFolderState::new();
                let set_id = match self.current_studyset_id {
                    Some(id) => id,
                    None => 0,
                };
                commands.push(Command::LoadFolders(set_id));
            },
            Message::LoadedSingle(folder) => {
                self.new_folder = NewFolderState { id: folder.id, name: folder.name };
            },
            Message::LoadFolders => match self.current_studyset_id {
                Some(set_id) => commands.push(Command::LoadFolders(set_id)),
                None => self.current_studyset_id = None,
            },
            Message::SetFolders(folders) => self.folders = folders,
            Message::NewFolderNameInput(value) => self.new_folder.name = value,
            Message::OpenFolder(id) => commands.push(Command::OpenFolder(id)),
            Message::ToggleEditContextPage(folder) => {
                if folder.is_none() {
                    self.new_folder = NewFolderState::new();
                }
                commands.push(Command::ToggleEditContextPage(folder));
            },
            Message::Delete(folder_id) => commands.push(Command::DeleteFolder(folder_id)),
        }
        proof {
            if commands@.len() == 1 {
                assert(commands@ =~= seq![commands@[0]]);
            }
        }
        commands
    }
}

} // verus!
