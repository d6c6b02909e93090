//! The folder page of the `oboete` pages: its cards, their editing, import
//! and export.

use vstd::prelude::*;

use crate::app::common::utils::flashcards::{
    anki_export_path, anki_export_text, decode_selected_path, export_text, import_pairs,
    percent_decoded,
};
use crate::models::Flashcard;
use crate::oboete::utils::{export_flashcards_anki_text, export_flashcards_text, parse_import_content};
use crate::utils::{is_plain_card, plain_texts};

verus! {

broadcast use vstd::string::group_string_axioms;

/// The card being added or edited.
#[derive(Debug)]
pub struct AddEditFlashcardState {
    pub id: Option<i32>,
    pub front: String,
    pub back: String,
    pub status: i32,
}

/// An empty card form.
pub open spec fn is_empty_card_form(f: AddEditFlashcardState) -> bool {
    f.id is None && f.front@.len() == 0 && f.back@.len() == 0 && f.status == 0
}

impl AddEditFlashcardState {
    /// An empty card form.
    pub fn new() -> (f: AddEditFlashcardState)
        ensures
            is_empty_card_form(f),
    {
        AddEditFlashcardState { id: None, front: String::new(), back: String::new(), status: 0 }
    }
}

/// The inputs of the custom import.
#[derive(Debug)]
pub struct FolderOptionsContextPageState {
    pub between_terms: String,
    pub between_cards: String,
    pub import_content: String,
}

/// Empty import inputs.
pub open spec fn is_empty_options(o: FolderOptionsContextPageState) -> bool {
    o.between_terms@.len() == 0 && o.between_cards@.len() == 0 && o.import_content@.len() == 0
}

impl FolderOptionsContextPageState {
    /// Empty import inputs.
    pub fn new() -> (o: FolderOptionsContextPageState)
        ensures
            is_empty_options(o),
    {
        FolderOptionsContextPageState {
            between_terms: String::new(),
            between_cards: String::new(),
            import_content: String::new(),
        }
    }
}

/// The export formats.
#[derive(Debug, Clone, Copy, PartialEq, Eq, Structural)]
pub enum ExportOptions {
    Normal,
    Anki,
}

/// The messages of the page.
#[derive(Debug)]
pub enum Message {
    EditFlashcard,
    AddFlashcard,
    DeleteFlashcard(Option<i32>),
    SetFlashcards(Vec<Flashcard>),
    EditedFlashcard,
    DeletedFlashcard,
    AddedNewFlashcard,
    OpenAddEditContextPage(Flashcard),
    AddEditFlashcardFrontInput(String),
    AddEditFlashcardBackInput(String),
    RestartSingleFlashcardStatus(i32),
    OpenFolderOptionsContextPage,
    FolderOptionsBetweenTermsInput(String),
    FolderOptionsBetweenCardsInput(String),
    FolderOptionsImportContentInput(String),
    ImportContent,
    ContentImported,
    OpenAnkiFileSelection,
    OpenAnkiFileResult(Vec<String>),
    LaunchUrl(String),
    RestartFolderFlashcardsStatus,
    OpenFolderExport(ExportOptions),
    OpenFolderExportResult(Vec<String>, ExportOptions),
    StudyFolder(i32),
}

/// What the page asks of the application.
#[derive(Debug)]
pub enum FolderContentTask {
    /// Load the cards of the folder with this id.
    FetchFolderFlashcards(i32),
    EditFlashcard(Flashcard),
    AddFlashcard(Flashcard),
    DeleteFlashcard(i32),
    OpenAddEditContextPage,
    CloseContextPage,
    RestartSingleFlashcardStatus(i32),
    OpenFolderOptionsContextPage,
    ImportContent(Vec<Flashcard>),
    OpenAnkiFileSelection,
    /// Reset the status of every card of the folder with this id.
    RestartFolderFlashcardsStatus(i32),
    OpenFolderExport(ExportOptions),
    StudyFolder(i32),
    /// Read the Anki export at this (decoded) path and import its cards
    /// (`parse_anki_content`, then as `ImportContent`); nothing when the file
    /// cannot be read.
    ImportAnkiFile(String),
    /// Open the link in the browser.
    OpenUrl(String),
    /// Write the text to the file, ignoring failure.
    WriteExport { path: String, contents: String },
}

/// The folder page.
#[derive(Debug)]
pub struct FolderContent {
    pub current_folder_id: Option<i32>,
    pub flashcards: Vec<Flashcard>,
    pub add_edit_flashcard: AddEditFlashcardState,
    pub folder_options_state: FolderOptionsContextPageState,
}

/// The reload of the cards, when a folder is selected.
pub open spec fn refetch(folder_id: Option<i32>) -> Seq<FolderContentTask> {
    match folder_id {
        Some(id) => seq![FolderContentTask::FetchFolderFlashcards(id)],
        None => Seq::empty(),
    }
}

/// The exports of the cards to the chosen paths.
pub open spec fn exports(paths: Seq<String>, kind: ExportOptions, cards: Seq<Flashcard>, tasks: Seq<FolderContentTask>) -> bool {
    &&& tasks.len() == paths.len()
    &&& forall|i: int|
        0 <= i < tasks.len() ==> (#[trigger] tasks[i] matches FolderContentTask::WriteExport { path, contents }
            && match kind {
            ExportOptions::Normal => path@ == paths[i]@ && contents@ == export_text(plain_texts(cards)),
            ExportOptions::Anki => path@ == paths[i]@ + ".txt"@ && contents@ == anki_export_text(
                plain_texts(cards),
            ),
        })
}

/// The imports of the Anki exports at the chosen paths.
pub open spec fn anki_imports(paths: Seq<String>, tasks: Seq<FolderContentTask>) -> bool {
    &&& tasks.len() == paths.len()
    &&& forall|i: int|
        0 <= i < tasks.len() ==> (#[trigger] tasks[i] matches FolderContentTask::ImportAnkiFile(p)
            && p@ == percent_decoded(paths[i]@))
}

/// The page after a message, and the tasks the message gives.
pub open spec fn folder_content_step(old: FolderContent, msg: Message, new: FolderContent, tasks: Seq<FolderContentTask>) -> bool {
    match msg {
        Message::EditFlashcard => new == old && tasks == seq![
            FolderContentTask::EditFlashcard(
                Flashcard {
                    id: old.add_edit_flashcard.id,
                    front: old.add_edit_flashcard.front,
                    back: old.add_edit_flashcard.back,
                    status: old.add_edit_flashcard.status,
                },
            ),
        ],
        Message::AddFlashcard => new == old && tasks == seq![
            FolderContentTask::AddFlashcard(
                Flashcard {
                    id: None,
                    front: old.add_edit_flashcard.front,
                    back: old.add_edit_flashcard.back,
                    status: 0,
                },
            ),
        ],
        Message::DeleteFlashcard(id) => new == old && tasks == match id {
            Some(i) => seq![FolderContentTask::DeleteFlashcard(i)],
            None => Seq::empty(),
        },
        Message::SetFlashcards(cards) => new == FolderContent { flashcards: cards, ..old } && tasks.len()
            == 0,
        Message::EditedFlashcard => {
            &&& is_empty_card_form(new.add_edit_flashcard)
            &&& new == FolderContent { add_edit_flashcard: new.add_edit_flashcard, ..old }
            &&& tasks == refetch(old.current_folder_id).push(FolderContentTask::CloseContextPage)
        },
        Message::AddedNewFlashcard => new == old && tasks == refetch(old.current_folder_id).push(
            FolderContentTask::CloseContextPage,
        ),
        Message::DeletedFlashcard => new == old && tasks == refetch(old.current_folder_id),
        Message::OpenAddEditContextPage(card) => new == FolderContent {
            add_edit_flashcard: AddEditFlashcardState {
                id: card.id,
                front: card.front,
                back: card.back,
                status: card.status,
            },
            ..old
        } && tasks == seq![FolderContentTask::OpenAddEditContextPage],
        Message::AddEditFlashcardFrontInput(v) => new == FolderContent {
            add_edit_flashcard: AddEditFlashcardState { front: v, ..old.add_edit_flashcard },
            ..old
        } && tasks.len() == 0,
        Message::AddEditFlashcardBackInput(v) => new == FolderContent {
            add_edit_flashcard: AddEditFlashcardState { back: v, ..old.add_edit_flashcard },
            ..old
        } && tasks.len() == 0,
        Message::RestartSingleFlashcardStatus(id) => new == old && tasks == seq![
            FolderContentTask::RestartSingleFlashcardStatus(id),
        ],
        Message::OpenFolderOptionsContextPage => new == old && tasks == seq![
            FolderContentTask::OpenFolderOptionsContextPage,
        ],
        Message::FolderOptionsBetweenTermsInput(v) => new == FolderContent {
            folder_options_state: FolderOptionsContextPageState {
                between_terms: v,
                ..old.folder_options_state
            },
            ..old
        } && tasks.len() == 0,
        Message::FolderOptionsBetweenCardsInput(v) => new == FolderContent {
            folder_options_state: FolderOptionsContextPageState {
                between_cards: v,
                ..old.folder_options_state
            },
            ..old
        } && tasks.len() == 0,
        Message::FolderOptionsImportContentInput(v) => new == FolderContent {
            folder_options_state: FolderOptionsContextPageState {
                import_content: v,
                ..old.folder_options_state
            },
            ..old
        } && tasks.len() == 0,
        Message::ImportContent => {
            let pairs = import_pairs(
                old.folder_options_state.between_cards@,
                old.folder_options_state.between_terms@,
                old.folder_options_state.import_content@,
            );
            &&& new == old
            &&& tasks.len() == 1
            &&& tasks[0] matches FolderContentTask::ImportContent(cards)
            &&& cards.len() == pairs.len()
            &&& forall|i: int| 0 <= i < cards.len() ==> is_plain_card(#[trigger] cards@[i], pairs[i])
        },
        Message::ContentImported => {
            &&& is_empty_options(new.folder_options_state)
            &&& new == FolderContent { folder_options_state: new.folder_options_state, ..old }
            &&& tasks == seq![
                FolderContentTask::FetchFolderFlashcards(old.current_folder_id->0),
                FolderContentTask::CloseContextPage,
            ]
        },
        Message::OpenAnkiFileSelection => new == old && tasks == seq![
            FolderContentTask::OpenAnkiFileSelection,
        ],
        Message::OpenAnkiFileResult(paths) => new == old && anki_imports(paths@, tasks),
        Message::LaunchUrl(url) => new == old && tasks == seq![FolderContentTask::OpenUrl(url)],
        Message::RestartFolderFlashcardsStatus => new == old && tasks == seq![
            FolderContentTask::RestartFolderFlashcardsStatus(old.current_folder_id->0),
        ],
        Message::OpenFolderExport(kind) => new == old && tasks == if old.flashcards@.len() > 0 {
            seq![FolderContentTask::OpenFolderExport(kind)]
        } else {
            Seq::empty()
        },
        Message::OpenFolderExportResult(paths, kind) => new == old && exports(
            paths@,
            kind,
            old.flashcards@,
            tasks,
        ),
        Message::StudyFolder(id) => new == old && tasks == seq![FolderContentTask::StudyFolder(id)],
    }
}

/// Which buttons of the folder options page can be pressed.
#[derive(Debug, Clone, Copy, PartialEq, Eq, Structural)]
pub struct FolderContentButtons {
    /// `ImportContent`.
    pub import_content: bool,
    /// `OpenAnkiFileSelection`.
    pub anki_import: bool,
    /// `RestartFolderFlashcardsStatus`.
    pub reset_status: bool,
    /// `OpenFolderExport(Normal)`.
    pub export: bool,
    /// `OpenFolderExport(Anki)`.
    pub export_anki: bool,
}

/// The label of the button that submits the card of the add/edit page.
#[derive(Debug, Clone, Copy, PartialEq, Eq, Structural)]
pub enum CardSubmitLabel {
    /// A stored card is edited.
    Edit,
    /// A new card is created.
    Create,
}

impl FolderContent {
    /// The submit button of the add/edit page: labelled for editing a stored
    /// card or creating a new one, and sending `EditFlashcard` or
    /// `AddFlashcard` only when both sides have text.
    pub fn add_edit_submit(&self) -> (r: (CardSubmitLabel, Option<Message>))
        ensures
            r.0 == (if self.add_edit_flashcard.id is Some {
                CardSubmitLabel::Edit
            } else {
                CardSubmitLabel::Create
            }),
            r.1 == (if self.add_edit_flashcard.front@.len() == 0 || self.add_edit_flashcard.back@.len() == 0 {
                None
            } else if self.add_edit_flashcard.id is Some {
                Some(Message::EditFlashcard)
            } else {
                Some(Message::AddFlashcard)
            }),
    {
        let f = &self.add_edit_flashcard;
        let stored = f.id.is_some();
        let label = if stored {
            CardSubmitLabel::Edit
        } else {
            CardSubmitLabel::Create
        };
        let msg = if f.front.as_str().is_empty() || f.back.as_str().is_empty() {
            None
        } else if stored {
            Some(Message::EditFlashcard)
        } else {
            Some(Message::AddFlashcard)
        };
        (label, msg)
    }

    /// The reset-status button of the add/edit page: shown only for a stored
    /// card, where it sends the reset of that card's status.
    pub fn reset_status_message(&self) -> (r: Option<Message>)
        ensures
            r == (match self.add_edit_flashcard.id {
                Some(id) => Some(Message::RestartSingleFlashcardStatus(id)),
                None => None,
            }),
    {
        match self.add_edit_flashcard.id {
            Some(id) => Some(Message::RestartSingleFlashcardStatus(id)),
            None => None,
        }
    }

    /// The buttons of the folder options page that can be pressed: the
    /// custom import once its content and both separators are given, the Anki
    /// import always, and resetting and exporting when the folder has cards.
    pub fn options_buttons(&self) -> (r: FolderContentButtons)
        ensures
            r.import_content == (self.folder_options_state.import_content@.len() > 0
                && self.folder_options_state.between_cards@.len() > 0
                && self.folder_options_state.between_terms@.len() > 0),
            r.anki_import,
            r.reset_status == (self.flashcards@.len() > 0),
            r.export == (self.flashcards@.len() > 0),
            r.export_anki == (self.flashcards@.len() > 0),
    {
        let o = &self.folder_options_state;
        let has_cards = self.flashcards.len() > 0;
        FolderContentButtons {
            import_content: !o.import_content.as_str().is_empty() && !o.between_cards.as_str().is_empty()
                && !o.between_terms.as_str().is_empty(),
            anki_import: true,
            reset_status: has_cards,
            export: has_cards,
            export_anki: has_cards,
        }
    }

    /// A page with no folder selected.
    pub fn init() -> (p: Self)
        ensures
            p.current_folder_id is None,
            p.flashcards@.len() == 0,
            is_empty_card_form(p.add_edit_flashcard),
            is_empty_options(p.folder_options_state),
    {
        Self {
            current_folder_id: None,
            flashcards: Vec::new(),
            add_edit_flashcard: AddEditFlashcardState::new(),
            folder_options_state: FolderOptionsContextPageState::new(),
        }
    }

    /// Sets the currently selected folder.
    pub fn set_current_folder_id(&mut self, id: Option<i32>)
        ensures
            *final(self) == (FolderContent { current_folder_id: id, ..*old(self) }),
    {
        self.current_folder_id = id;
    }

    /// The currently selected folder.
    pub fn get_current_folder_id(&self) -> (id: Option<i32>)
        ensures
            id == self.current_folder_id,
    {
        self.current_folder_id
    }

    /// Empties the list of cards.
    pub fn clean_flashcards_vec(&mut self)
        ensures
            final(self).flashcards@.len() == 0,
            final(self).current_folder_id == old(self).current_folder_id,
            final(self).add_edit_flashcard == old(self).add_edit_flashcard,
            final(self).folder_options_state == old(self).folder_options_state,
    {
        self.flashcards = Vec::new();
    }

    /// Handles a message of the page. Reloading after an import and
    /// resetting the folder need a selected folder.
    pub fn update(&mut self, message: Message) -> (tasks: Vec<FolderContentTask>)
        requires
            (message is ContentImported || message is RestartFolderFlashcardsStatus)
                ==> old(self).current_folder_id is Some,
        ensures
            folder_content_step(*old(self), message, *final(self), tasks@),
    {
        let mut tasks: Vec<FolderContentTask> = Vec::new();
        match message {
            Message::EditFlashcard => {
                tasks.push(
                    FolderContentTask::EditFlashcard(
                        Flashcard {
                            id: self.add_edit_flashcard.id,
                            front: self.add_edit_flashcard.front.clone(),
                            back: self.add_edit_flashcard.back.clone(),
                            status: self.add_edit_flashcard.status,
                        },
                    ),
                );
            },
            Message::AddFlashcard => {
                tasks.push(
                    FolderContentTask::AddFlashcard(
                        Flashcard {
                            id: None,
                            front: self.add_edit_flashcard.front.clone(),
                            back: self.add_edit_flashcard.back.clone(),
                            status: 0,
                        },
                    ),
                );
            },
            Message::DeleteFlashcard(maybe_id) => {
                if let Some(id) = maybe_id {
                    tasks.push(FolderContentTask::DeleteFlashcard(id));
                }
            },
            Message::SetFlashcards(flashcards) => {
                self.flashcards = flashcards;
            },
            Message::EditedFlashcard => {
                self.add_edit_flashcard = AddEditFlashcardState::new();
                if let Some(folder_id) = self.current_folder_id {
                    tasks.push(FolderContentTask::FetchFolderFlashcards(folder_id));
                }
                tasks.push(FolderContentTask::CloseContextPage);
            },
            Message::DeletedFlashcard => {
                if let Some(folder_id) = self.current_folder_id {
                    tasks.push(FolderContentTask::FetchFolderFlashcards(folder_id));
                }
            },
            Message::AddedNewFlashcard => {
                if let Some(folder_id) = self.current_folder_id {
                    tasks.push(FolderContentTask::FetchFolderFlashcards(folder_id));
                }
                tasks.push(FolderContentTask::CloseContextPage);
            },
            Message::OpenAddEditContextPage(flashcard) => {
                self.add_edit_flashcard = AddEditFlashcardState {
                    id: flashcard.id,
                    front: flashcard.front,
                    back: flashcard.back,
                    status: flashcard.status,
                };
                tasks.push(FolderContentTask::OpenAddEditContextPage);
            },
            Message::AddEditFlashcardFrontInput(value) => {
                self.add_edit_flashcard.front = value;
            },
            Message::AddEditFlashcardBackInput(value) => {
                self.add_edit_flashcard.back = value;
            },
            Message::RestartSingleFlashcardStatus(flashcard_id) => {
                tasks.push(FolderContentTask::RestartSingleFlashcardStatus(flashcard_id));
            },
            Message::OpenFolderOptionsContextPage => {
                tasks.push(FolderContentTask::OpenFolderOptionsContextPage);
            },
            Message::FolderOptionsBetweenTermsInput(value) => {
                self.folder_options_state.between_terms = value;
            },
            Message::FolderOptionsBetweenCardsInput(value) => {
                self.folder_options_state.between_cards = value;
            },
            Message::FolderOptionsImportContentInput(value) => {
                self.folder_options_state.import_content = value;
            },
            Message::ImportContent => {
                let content = parse_import_content(
                    &self.folder_options_state.between_cards,
                    &self.folder_options_state.between_terms,
                    self.folder_options_state.import_content.as_str(),
                );
                tasks.push(FolderContentTask::ImportContent(content));
            },
            Message::ContentImported => {
                self.folder_options_state = FolderOptionsContextPageState::new();
                let folder_id = match self.current_folder_id {
                    Some(id) => id,
                    None => 0,
                };
                tasks.push(FolderContentTask::FetchFolderFlashcards(folder_id));
                tasks.push(FolderContentTask::CloseContextPage);
            },
            Message::OpenAnkiFileSelection => {
                tasks.push(FolderContentTask::OpenAnkiFileSelection);
            },
            Message::OpenAnkiFileResult(result) => {
                let mut i: usize = 0;
                while i < result.len()
                    invariant
                        i <= result.len(),
                        anki_imports(result@.take(i as int), tasks@),
                    decreases result.len() - i,
                {
                    let path = decode_selected_path(result[i].as_str());
                    tasks.push(FolderContentTask::ImportAnkiFile(path));
                    i = i + 1;
                    proof {
                        assert forall|k: int| 0 <= k < tasks@.len() implies (#[trigger] tasks@[k] matches FolderContentTask::ImportAnkiFile(p)
                            && p@ == percent_decoded(result@.take(i as int)[k]@)) by {
                            assert(result@.take(i as int)[k] == result@[k]);
                            if k < i - 1 {
                                assert(result@.take((i - 1) as int)[k] == result@[k]);
                            }
                        }
                    }
                }
                proof {
                    assert(result@.take(result.len() as int) =~= result@);
                }
            },
            Message::LaunchUrl(url) => {
                tasks.push(FolderContentTask::OpenUrl(url));
            },
            Message::RestartFolderFlashcardsStatus => {
                let folder_id = match self.current_folder_id {
                    Some(id) => id,
                    None => 0,
                };
                tasks.push(FolderContentTask::RestartFolderFlashcardsStatus(folder_id));
            },
            Message::OpenFolderExport(options) => {
                if self.flashcards.len() > 0 {
                    tasks.push(FolderContentTask::OpenFolderExport(options));
                }
            },
            Message::OpenFolderExportResult(save_result, options) => {
                let mut i: usize = 0;
                while i < save_result.len()
                    invariant
                        i <= save_result.len(),
                        exports(save_result@.take(i as int), options, self.flashcards@, tasks@),
                    decreases save_result.len() - i,
                {
                    let task = match options {
                        ExportOptions::Normal => FolderContentTask::WriteExport {
                            path: save_result[i].clone(),
                            contents: export_flashcards_text(&self.flashcards),
                        },
                        ExportOptions::Anki => FolderContentTask::WriteExport {
                            path: anki_export_path(save_result[i].as_str()),
                            contents: export_flashcards_anki_text(&self.flashcards),
                        },
                    };
                    tasks.push(task);
                    i = i + 1;
                    proof {
                        assert forall|k: int| 0 <= k < tasks@.len() implies (#[trigger] tasks@[k] matches FolderContentTask::WriteExport { path, contents }
                            && match options {
                            ExportOptions::Normal => path@ == save_result@.take(i as int)[k]@
                                && contents@ == export_text(plain_texts(self.flashcards@)),
                            ExportOptions::Anki => path@ == save_result@.take(i as int)[k]@ + ".txt"@
                                && contents@ == anki_export_text(plain_texts(self.flashcards@)),
                        }) by {
                            assert(save_result@.take(i as int)[k] == save_result@[k]);
                            if k < i - 1 {
                                assert(save_result@.take((i - 1) as int)[k] == save_result@[k]);
                            }
                        }
                    }
                }
                proof {
                    assert(save_result@.take(save_result.len() as int) =~= save_result@);
                }
            },
            Message::StudyFolder(folder_id) => {
                tasks.push(FolderContentTask::StudyFolder(folder_id));
            },
        }
        proof {
            if tasks@.len() == 1 {
                assert(tasks@ =~= seq![tasks@[0]]);
            }
            if tasks@.len() == 2 {
                assert(tasks@ =~= seq![tasks@[0]].push(tasks@[1]));
                assert(tasks@ =~= seq![tasks@[0], tasks@[1]]);
            }
            assert(Seq::<FolderContentTask>::empty().push(FolderContentTask::CloseContextPage) =~= seq![
                FolderContentTask::CloseContextPage,
            ]);
        }
        tasks
    }
}

} // verus!
