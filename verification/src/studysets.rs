//! The study sets page for plain text cards.

use vstd::prelude::*;

use crate::models::StudySet;

verus! {

/// The study set being created.
#[derive(Debug)]
pub struct NewStudySetState {
    pub name: String,
}

/// The messages of the page.
#[derive(Debug)]
pub enum Message {
    Create,
    Created,
    GetStudySets,
    SetStudySets(Vec<StudySet>),
    ToggleCreatePage,
    NewStudySetNameInput(String),
    OpenStudySet(i32),
}

/// What the page asks of the application.
#[derive(Debug)]
pub enum Command {
    LoadStudySets,
    ToggleCreateStudySetPage,
    CreateStudySet(StudySet),
    /// Open the study set with this id.
    OpenStudySet(i32),
}

/// The study sets page.
#[derive(Debug)]
pub struct StudySets {
    pub studysets: Vec<StudySet>,
    pub new_studyset: NewStudySetState,
}

/// The page after a message, and the commands the message gives.
pub open spec fn studysets_step(old: StudySets, msg: Message, new: StudySets, cmds: Seq<Command>) -> bool {
    match msg {
        Message::GetStudySets => new == old && cmds == seq![Command::LoadStudySets],
        Message::Create => {
            &&& new == old
            &&& cmds.len() == 1
            &&& cmds[0] matches Command::CreateStudySet(s)
            &&& s.id is None && s.name == old.new_studyset.name && s.folders@.len() == 0
        },
        Message::SetStudySets(sets) => new == StudySets { studysets: sets, ..old } && cmds.len() == 0,
        Message::ToggleCreatePage => new == old && cmds == seq![Command::ToggleCreateStudySetPage],
        Message::NewStudySetNameInput(v) => new == StudySets {
            new_studyset: NewStudySetState { name: v },
            ..old
        } && cmds.len() == 0,
        Message::Created => {
            &&& new.new_studyset.name@.len() == 0
            &&& new.studysets == old.studysets
            &&& cmds == seq![Command::LoadStudySets]
        },
        Message::OpenStudySet(id) => new == old && cmds == seq![Command::OpenStudySet(id)],
    }
}

impl StudySets {
    /// A page with no study sets and an empty name.
    pub fn new() -> (p: Self)
        ensures
            p.studysets@.len() == 0,
            p.new_studyset.name@.len() == 0,
    {
        Self { studysets: Vec::new(), new_studyset: NewStudySetState { name: String::new() } }
    }

    /// Handles a message of the page.
    pub fn update(&mut self, message: Message) -> (commands: Vec<Command>)
        ensures
            studysets_step(*old(self), message, *final(self), commands@),
    {
        let mut commands: Vec<Command> = Vec::new();
        match message {
            Message::GetStudySets => commands.push(Command::LoadStudySets),
            Message::Create => commands.push(
                Command::CreateStudySet(
                    StudySet { id: None, name: self.new_studyset.name.clone(), folders: Vec::new() },
                ),
            ),
            Message::SetStudySets(studysets) => self.studysets = studysets,
            Message::ToggleCreatePage => commands.push(Command::ToggleCreateStudySetPage),
            Message::NewStudySetNameInput(value) => self.new_studyset.name = value,
            Message::Created => {
                self.new_studyset = NewStudySetState { name: String::new() };
                commands.push(Command::LoadStudySets);
            },
            Message::OpenStudySet(id) => commands.push(Command::OpenStudySet(id)),
        }
        proof {
            if commands@.len() == 1 {
                assert(commands@ =~= seq![commands@[0]]);
            }
        }
        commands
    }
}

} // verus!
