//! The flashcards screen of a folder: its state, the messages it handles,
//! and the work it asks the interface to carry out.

use vstd::prelude::*;

use crate::app::common::models::flashcard::{Flashcard, FlashcardField, card_is_valid, is_blank_card};
use crate::app::common::utils::flashcards::{
    anki_export_path, anki_export_text, cards_texts, decode_selected_path, export_flashcards_anki_text,
    export_flashcards_text, export_text, import_pairs, is_imported_card, parse_import_content,
    percent_decoded,
};
use crate::app::common::utils::images::{check_path_in, is_saved_image_path, opt_view};
use crate::app::context_page::ContextPage;

verus! {

broadcast use vstd::string::group_string_axioms;

/// The inputs of the custom import of the folder options page.
#[derive(Debug)]
pub struct FolderOptions {
    pub import_content: String,
    pub between_cards: String,
    pub between_terms: String,
}

/// The custom import can run when the content and both separators are given.
pub open spec fn options_valid(o: FolderOptions) -> bool {
    o.import_content@.len() > 0 && o.between_cards@.len() > 0 && o.between_terms@.len() > 0
}

/// Empty import inputs.
pub open spec fn options_empty(o: FolderOptions) -> bool {
    o.import_content@.len() == 0 && o.between_cards@.len() == 0 && o.between_terms@.len() == 0
}

impl FolderOptions {
    /// Empty import inputs.
    pub fn new() -> (o: Self)
        ensures
            options_empty(o),
    {
        FolderOptions {
            import_content: String::new(),
            between_cards: String::new(),
            between_terms: String::new(),
        }
    }

    /// Returns true when the custom import can run.
    pub fn is_valid(&self) -> (b: bool)
        ensures
            b == options_valid(*self),
    {
        !self.import_content.as_str().is_empty() && !self.between_cards.as_str().is_empty()
            && !self.between_terms.as_str().is_empty()
    }
}

/// An edit of the card being added or edited.
#[derive(Debug, Clone)]
pub enum AddEditFlashcardInput {
    FrontFieldTypeChanged(FlashcardField),
    FrontTextInput(String),
    FrontSelectImage,
    FrontImageSelected(String),
    DeleteFrontSelectedImage,
    FrontAltTextInput(String),
    BackFieldTypeChanged(FlashcardField),
    BackTextInput(String),
    BackSelectImage,
    BackImageSelected(String),
    DeleteBackSelectedImage,
    BackAltTextInput(String),
}

/// An input of the folder options page.
#[derive(Debug, Clone)]
pub enum FolderOptionsInput {
    ImportContentInput(String),
    BetweenCardsInput(String),
    BetweenTermsInput(String),
    CustomImport,
    AnkiImport,
    CompleteAnkiImport(String),
    ResetAllStatus,
    Export,
    CompleteExport(String),
    ExportAnki,
    CompleteAnkiExport(String),
}

/// A side of a card.
#[derive(Debug, Clone, Copy, PartialEq, Eq, Structural)]
pub enum Side {
    Front,
    Back,
}

/// The two export formats.
#[derive(Debug, Clone, Copy, PartialEq, Eq, Structural)]
pub enum ExportKind {
    Plain,
    Anki,
}

/// What happens once the chosen images of the card are saved.
#[derive(Debug, Clone, Copy, PartialEq, Eq, Structural)]
pub enum SaveThen {
    /// Store the edited card.
    Edit,
    /// Add the card to this folder.
    Add(i32),
}

/// Work the screen asks the interface to carry out, and the message each
/// brings back.
#[derive(Debug, Clone)]
pub enum Job {
    /// Load the cards of the folder: `FlashcardsLoaded`, then
    /// `UpdateCurrentFolderId` with the folder.
    LoadFlashcards(i32),
    /// Store the edited card, then `LoadFlashcards`.
    EditFlashcard(Flashcard),
    /// Add the card to the folder, then `LoadFlashcards`.
    AddFlashcard(Flashcard, i32),
    /// Reset the status of the card with this id, then `LoadFlashcards`.
    ResetFlashcardStatus(i32),
    /// Ask for an image file, then the matching `ImageSelected` input with
    /// its path (empty when none was chosen).
    ChooseImage(Side),
    /// Delete the saved image at this path, then `Noop`.
    DeleteImage(String),
    /// Save copies of these images into the data directory, then
    /// `ImagesSaved` with the new paths; the follow-up only when all saves
    /// succeeded; nothing when the first save fails.
    SaveImages { front: Option<String>, back: Option<String>, then: SaveThen },
    /// Add the cards to the folder, then `LoadFlashcards`.
    AddFlashcards(Vec<Flashcard>, i32),
    /// Ask for an Anki export file, then `CompleteAnkiImport` with its path.
    ChooseAnkiFile,
    /// Read the Anki export at this (decoded) path, parse it with
    /// `parse_anki_content` and add its cards to the folder, then
    /// `LoadFlashcards`; nothing when the file cannot be read.
    ImportAnkiFile(String, i32),
    /// Reset the status of every card of the folder, then `LoadFlashcards`.
    ResetAllStatus(i32),
    /// Ask for a file to export to, then the matching `Complete..Export`.
    ChooseExportFile(ExportKind),
    /// Write the text to the file, then `LoadFlashcards`; nothing when the
    /// file cannot be written.
    WriteExport { path: String, contents: String },
}

/// What the screen asks of the application.
#[derive(Debug, Clone)]
pub enum Action {
    Nothing,
    Run(Job),
    OpenDeleteFlashcardDialog(Flashcard),
    OpenContextPage(ContextPage),
    StudyFolder(i32),
    /// Open the link in the browser.
    OpenUrl(String),
}

/// The messages of the screen.
#[derive(Debug)]
pub enum Message {
    Noop,
    LaunchUrl(String),
    UpdateCurrentFolderId(i32),
    LoadFlashcards,
    FlashcardsLoaded(Result<Vec<Flashcard>, String>),
    OpenContextPage(ContextPage, Option<Flashcard>),
    EditFlashcard,
    AddFlashcard,
    AddEditFlashcardInput(AddEditFlashcardInput),
    ResetFlashcardStatus(i32),
    DeleteFlashcard(Flashcard),
    FolderOptionsInput(FolderOptionsInput),
    Study,
    /// The chosen images were saved at these paths.
    ImagesSaved { front: Option<String>, back: Option<String>, then: Option<SaveThen> },
}

/// The state of the screen.
#[derive(Debug)]
pub enum State {
    Loading,
    Ready {
        current_folder_id: Option<i32>,
        add_edit_flashcard: Flashcard,
        flashcards: Vec<Flashcard>,
        options: FolderOptions,
    },
}

/// The flashcards screen.
#[derive(Debug)]
pub struct FlashcardsScreen {
    pub state: State,
}

/// The side after an edit, and what the edit asks for, for a card with id
/// `card_id` and the data directory `data_dir`.
pub open spec fn side_edit(
    field: FlashcardField,
    card_id: Option<i32>,
    side: Side,
    input: AddEditFlashcardInput,
    data_dir: Option<Seq<char>>,
    new_field: FlashcardField,
    action: Action,
) -> bool {
    match input {
        AddEditFlashcardInput::FrontFieldTypeChanged(f) | AddEditFlashcardInput::BackFieldTypeChanged(
            f,
        ) => new_field == f && action is Nothing,
        AddEditFlashcardInput::FrontTextInput(s) | AddEditFlashcardInput::BackTextInput(s) => new_field
            == FlashcardField::Text(s) && action is Nothing,
        AddEditFlashcardInput::FrontSelectImage | AddEditFlashcardInput::BackSelectImage => new_field
            == field && action == Action::Run(Job::ChooseImage(side)),
        AddEditFlashcardInput::FrontImageSelected(p) | AddEditFlashcardInput::BackImageSelected(p) => {
            &&& action is Nothing
            &&& if p@.len() > 0 && field is Image {
                new_field matches FlashcardField::Image { path, alt_text } && path@ == percent_decoded(
                    p@,
                ) && alt_text == field->alt_text
            } else {
                new_field == field
            }
        },
        AddEditFlashcardInput::DeleteFrontSelectedImage
        | AddEditFlashcardInput::DeleteBackSelectedImage => match field {
            FlashcardField::Image { path, alt_text } => {
                &&& new_field matches FlashcardField::Image { path: np, alt_text: na } && np@.len() == 0
                    && na == alt_text
                &&& if card_id is Some && is_saved_image_path(path@, data_dir) {
                    action matches Action::Run(Job::DeleteImage(d)) && d@ == path@
                } else {
                    action is Nothing
                }
            },
            FlashcardField::Text(_) => new_field == field && action is Nothing,
        },
        AddEditFlashcardInput::FrontAltTextInput(s) | AddEditFlashcardInput::BackAltTextInput(s) => {
            &&& action is Nothing
            &&& match field {
                FlashcardField::Image { path, .. } => new_field == FlashcardField::Image {
                    path,
                    alt_text: s,
                },
                FlashcardField::Text(_) => new_field == field,
            }
        },
    }
}

/// The side that an edit is about.
pub open spec fn input_side(input: AddEditFlashcardInput) -> Side {
    match input {
        AddEditFlashcardInput::FrontFieldTypeChanged(_)
        | AddEditFlashcardInput::FrontTextInput(_)
        | AddEditFlashcardInput::FrontSelectImage
        | AddEditFlashcardInput::FrontImageSelected(_)
        | AddEditFlashcardInput::DeleteFrontSelectedImage
        | AddEditFlashcardInput::FrontAltTextInput(_) => Side::Front,
        _ => Side::Back,
    }
}

/// The side an edit is about.
fn side_of_input(input: &AddEditFlashcardInput) -> (side: Side)
    ensures
        side == input_side(*input),
{
    match input {
        AddEditFlashcardInput::FrontFieldTypeChanged(_)
        | AddEditFlashcardInput::FrontTextInput(_)
        | AddEditFlashcardInput::FrontSelectImage
        | AddEditFlashcardInput::FrontImageSelected(_)
        | AddEditFlashcardInput::DeleteFrontSelectedImage
        | AddEditFlashcardInput::FrontAltTextInput(_) => Side::Front,
        _ => Side::Back,
    }
}

/// Applies an edit to one side.
fn apply_side_input(
    field: FlashcardField,
    card_id: Option<i32>,
    side: Side,
    input: AddEditFlashcardInput,
    data_dir: &Option<String>,
) -> (r: (FlashcardField, Action))
    ensures
        side_edit(field, card_id, side, input, opt_view(*data_dir), r.0, r.1),
{
    match input {
        AddEditFlashcardInput::FrontFieldTypeChanged(f)
        | AddEditFlashcardInput::BackFieldTypeChanged(f) => (f, Action::Nothing),
        AddEditFlashcardInput::FrontTextInput(s) | AddEditFlashcardInput::BackTextInput(s) => (
            FlashcardField::Text(s),
            Action::Nothing,
        ),
        AddEditFlashcardInput::FrontSelectImage | AddEditFlashcardInput::BackSelectImage => (
            field,
            Action::Run(Job::ChooseImage(side)),
        ),
        AddEditFlashcardInput::FrontImageSelected(p) | AddEditFlashcardInput::BackImageSelected(p) => {
            if !p.as_str().is_empty() {
                match field {
                    FlashcardField::Image { path, alt_text } => {
                        let decoded = decode_selected_path(p.as_str());
                        (FlashcardField::Image { path: decoded, alt_text }, Action::Nothing)
                    },
                    FlashcardField::Text(t) => (FlashcardField::Text(t), Action::Nothing),
                }
            } else {
                (field, Action::Nothing)
            }
        },
        AddEditFlashcardInput::DeleteFrontSelectedImage
        | AddEditFlashcardInput::DeleteBackSelectedImage => match field {
            FlashcardField::Image { path, alt_text } => {
                if card_id.is_some() && check_path_in(&path, data_dir) {
                    (
                        FlashcardField::Image { path: String::new(), alt_text },
                        Action::Run(Job::DeleteImage(path)),
                    )
                } else {
                    (FlashcardField::Image { path: String::new(), alt_text }, Action::Nothing)
                }
            },
            FlashcardField::Text(t) => (FlashcardField::Text(t), Action::Nothing),
        },
        AddEditFlashcardInput::FrontAltTextInput(s) | AddEditFlashcardInput::BackAltTextInput(s) => {
            match field {
                FlashcardField::Image { path, .. } => (
                    FlashcardField::Image { path, alt_text: s },
                    Action::Nothing,
                ),
                FlashcardField::Text(t) => (FlashcardField::Text(t), Action::Nothing),
            }
        },
    }
}

/// The card after an edit, and what the edit asks for: the side the edit is
/// about changes as `side_edit` says, everything else stays.
pub open spec fn card_edited(
    input: AddEditFlashcardInput,
    card: Flashcard,
    data_dir: Option<Seq<char>>,
    new_card: Flashcard,
    action: Action,
) -> bool {
    &&& input_side(input) == Side::Front ==> {
        &&& side_edit(card.front, card.id, Side::Front, input, data_dir, new_card.front, action)
        &&& new_card.back == card.back
    }
    &&& input_side(input) == Side::Back ==> {
        &&& side_edit(card.back, card.id, Side::Back, input, data_dir, new_card.back, action)
        &&& new_card.front == card.front
    }
    &&& new_card.id == card.id
    &&& new_card.status == card.status
    &&& new_card.fsrs_state == card.fsrs_state
    &&& new_card.due_date == card.due_date
    &&& new_card.last_reviewed == card.last_reviewed
}

/// Applies an edit to the card being added or edited.
pub fn apply_flashcard_add_edit_input(
    input: AddEditFlashcardInput,
    flashcard: &mut Flashcard,
    data_dir: &Option<String>,
) -> (action: Action)
    ensures
        card_edited(input, *old(flashcard), opt_view(*data_dir), *final(flashcard), action),
{
    let side = side_of_input(&input);
    let mut taken = FlashcardField::empty_text();
    match side {
        Side::Front => {
            std::mem::swap(&mut taken, &mut flashcard.front);
            let (new_field, action) = apply_side_input(taken, flashcard.id, side, input, data_dir);
            flashcard.front = new_field;
            action
        },
        Side::Back => {
            std::mem::swap(&mut taken, &mut flashcard.back);
            let (new_field, action) = apply_side_input(taken, flashcard.id, side, input, data_dir);
            flashcard.back = new_field;
            action
        },
    }
}

} // verus!

verus! {

/// The options after an input of the options page, and what it asks for, for
/// the folder `folder_id` holding `cards`.
pub open spec fn options_step(
    input: FolderOptionsInput,
    options: FolderOptions,
    folder_id: i32,
    cards: Seq<Flashcard>,
    new_options: FolderOptions,
    action: Action,
) -> bool {
    match input {
        FolderOptionsInput::ImportContentInput(s) => new_options == FolderOptions {
            import_content: s,
            ..options
        } && action is Nothing,
        FolderOptionsInput::BetweenCardsInput(s) => new_options == FolderOptions {
            between_cards: s,
            ..options
        } && action is Nothing,
        FolderOptionsInput::BetweenTermsInput(s) => new_options == FolderOptions {
            between_terms: s,
            ..options
        } && action is Nothing,
        FolderOptionsInput::CustomImport => {
            let pairs = import_pairs(
                options.between_cards@,
                options.between_terms@,
                options.import_content@,
            );
            &&& new_options == options
            &&& action matches Action::Run(Job::AddFlashcards(added, id))
            &&& id == folder_id
            &&& added.len() == pairs.len()
            &&& forall|i: int| 0 <= i < added.len() ==> is_imported_card(#[trigger] added@[i], pairs[i])
        },
        FolderOptionsInput::AnkiImport => new_options == options && action == Action::Run(
            Job::ChooseAnkiFile,
        ),
        FolderOptionsInput::CompleteAnkiImport(p) => {
            &&& new_options == options
            &&& action matches Action::Run(Job::ImportAnkiFile(d, id))
            &&& d@ == percent_decoded(p@)
            &&& id == folder_id
        },
        FolderOptionsInput::ResetAllStatus => new_options == options && action == Action::Run(
            Job::ResetAllStatus(folder_id),
        ),
        FolderOptionsInput::Export => new_options == options && action == Action::Run(
            Job::ChooseExportFile(ExportKind::Plain),
        ),
        FolderOptionsInput::ExportAnki => new_options == options && action == Action::Run(
            Job::ChooseExportFile(ExportKind::Anki),
        ),
        FolderOptionsInput::CompleteExport(p) => {
            &&& new_options == options
            &&& action matches Action::Run(Job::WriteExport { path, contents })
            &&& path@ == p@
            &&& contents@ == export_text(cards_texts(cards))
        },
        FolderOptionsInput::CompleteAnkiExport(p) => {
            &&& new_options == options
            &&& action matches Action::Run(Job::WriteExport { path, contents })
            &&& path@ == p@ + ".txt"@
            &&& contents@ == anki_export_text(cards_texts(cards))
        },
    }
}

/// Applies an input of the folder options page of the folder `folder_id`
/// holding `flashcards`.
pub fn apply_folder_options_input(
    input: FolderOptionsInput,
    options: &mut FolderOptions,
    folder_id: i32,
    flashcards: &[Flashcard],
) -> (action: Action)
    ensures
        options_step(input, *old(options), folder_id, flashcards@, *final(options), action),
{
    match input {
        FolderOptionsInput::ImportContentInput(s) => {
            options.import_content = s;
            Action::Nothing
        },
        FolderOptionsInput::BetweenCardsInput(s) => {
            options.between_cards = s;
            Action::Nothing
        },
        FolderOptionsInput::BetweenTermsInput(s) => {
            options.between_terms = s;
            Action::Nothing
        },
        FolderOptionsInput::CustomImport => {
            let content = parse_import_content(
                &options.between_cards,
                &options.between_terms,
                options.import_content.as_str(),
            );
            Action::Run(Job::AddFlashcards(content, folder_id))
        },
        FolderOptionsInput::AnkiImport => Action::Run(Job::ChooseAnkiFile),
        FolderOptionsInput::CompleteAnkiImport(file_path) => {
            let decoded = decode_selected_path(file_path.as_str());
            Action::Run(Job::ImportAnkiFile(decoded, folder_id))
        },
        FolderOptionsInput::ResetAllStatus => Action::Run(Job::ResetAllStatus(folder_id)),
        FolderOptionsInput::Export => Action::Run(Job::ChooseExportFile(ExportKind::Plain)),
        FolderOptionsInput::CompleteExport(file_path) => {
            let contents = export_flashcards_text(flashcards);
            Action::Run(Job::WriteExport { path: file_path, contents })
        },
        FolderOptionsInput::ExportAnki => Action::Run(Job::ChooseExportFile(ExportKind::Anki)),
        FolderOptionsInput::CompleteAnkiExport(file_path) => {
            let path = anki_export_path(file_path.as_str());
            let contents = export_flashcards_anki_text(flashcards);
            Action::Run(Job::WriteExport { path, contents })
        },
    }
}

/// The path of an image side that adding or editing a card saves first: an
/// image side, when `always` (adding), or when its path is not already in the
/// directory of saved images (editing).
pub open spec fn image_to_save(field: FlashcardField, always: bool, data_dir: Option<Seq<char>>) -> Option<
    Seq<char>,
> {
    match field {
        FlashcardField::Image { path, .. } => if always || !is_saved_image_path(path@, data_dir) {
            Some(path@)
        } else {
            None
        },
        FlashcardField::Text(_) => None,
    }
}

/// The views of an optional string.
pub open spec fn opt_str(s: Option<String>) -> Option<Seq<char>> {
    match s {
        Some(t) => Some(t@),
        None => None,
    }
}

/// The image path of a side, as `ImagesSaved` sets it.
pub open spec fn with_saved_path(field: FlashcardField, saved: Option<String>) -> FlashcardField {
    match (field, saved) {
        (FlashcardField::Image { alt_text, .. }, Some(p)) => FlashcardField::Image {
            path: p,
            alt_text,
        },
        _ => field,
    }
}

/// The job that stores a card, once its images are saved.
pub open spec fn store_job(card: Flashcard, then: SaveThen) -> Job {
    match then {
        SaveThen::Edit => Job::EditFlashcard(card),
        SaveThen::Add(folder_id) => Job::AddFlashcard(card, folder_id),
    }
}

/// What storing the card asks for: saving its images first, or storing it
/// right away when it has none to save.
pub open spec fn store_or_save(card: Flashcard, always: bool, then: SaveThen, data_dir: Option<Seq<char>>, action: Action) -> bool {
    let f = image_to_save(card.front, always, data_dir);
    let b = image_to_save(card.back, always, data_dir);
    if f is None && b is None {
        action == Action::Run(store_job(card, then))
    } else {
        action matches Action::Run(Job::SaveImages { front, back, then: t }) && opt_str(front) == f
            && opt_str(back) == b && t == then
    }
}

/// The path to save for a side.
fn side_to_save(field: &FlashcardField, always: bool, data_dir: &Option<String>) -> (r: Option<String>)
    ensures
        opt_str(r) == image_to_save(*field, always, opt_view(*data_dir)),
{
    match field {
        FlashcardField::Image { path, .. } => {
            if always || !check_path_in(path, data_dir) {
                Some(path.clone())
            } else {
                None
            }
        },
        FlashcardField::Text(_) => None,
    }
}

/// The side with its image path set to the saved copy.
fn set_saved_path(field: FlashcardField, saved: Option<String>) -> (r: FlashcardField)
    ensures
        r == with_saved_path(field, saved),
{
    match (field, saved) {
        (FlashcardField::Image { alt_text, .. }, Some(p)) => FlashcardField::Image { path: p, alt_text },
        (f, _) => f,
    }
}

/// Stores the card, saving its images first when it has any to save.
fn store_card(card: &Flashcard, always: bool, then: SaveThen, data_dir: &Option<String>) -> (action: Action)
    ensures
        store_or_save(*card, always, then, opt_view(*data_dir), action),
{
    let front = side_to_save(&card.front, always, data_dir);
    let back = side_to_save(&card.back, always, data_dir);
    if front.is_none() && back.is_none() {
        match then {
            SaveThen::Edit => Action::Run(Job::EditFlashcard(card.duplicate())),
            SaveThen::Add(folder_id) => Action::Run(Job::AddFlashcard(card.duplicate(), folder_id)),
        }
    } else {
        Action::Run(Job::SaveImages { front, back, then })
    }
}

} // verus!

verus! {

/// The card being added or edited after the chosen images were saved.
pub open spec fn with_saved_images(card: Flashcard, front: Option<String>, back: Option<String>) -> Flashcard {
    Flashcard {
        front: with_saved_path(card.front, front),
        back: with_saved_path(card.back, back),
        ..card
    }
}

/// The state after a message, and what the message asks for, with the data
/// directory `data_dir`.
pub open spec fn screen_step(
    old: State,
    msg: Message,
    data_dir: Option<Seq<char>>,
    new: State,
    action: Action,
) -> bool {
    match msg {
        Message::Noop => new == old && action is Nothing,
        Message::LaunchUrl(url) => new == old && action == Action::OpenUrl(url),
        Message::UpdateCurrentFolderId(id) => action is Nothing && match old {
            State::Loading => new == old,
            State::Ready { add_edit_flashcard, flashcards, options, .. } => new == State::Ready {
                current_folder_id: Some(id),
                add_edit_flashcard,
                flashcards,
                options,
            },
        },
        Message::LoadFlashcards => new == old && match old {
            State::Ready { current_folder_id: Some(id), .. } => action == Action::Run(
                Job::LoadFlashcards(id),
            ),
            _ => action is Nothing,
        },
        Message::FlashcardsLoaded(Ok(cards)) => {
            &&& action is Nothing
            &&& new matches State::Ready {
                current_folder_id,
                add_edit_flashcard,
                flashcards,
                options,
            }
            &&& new->current_folder_id is None
            &&& new->flashcards == cards
            &&& options_empty(new->options)
            &&& if old matches State::Ready { add_edit_flashcard: a, .. } && a.id is Some {
                new->add_edit_flashcard == old->add_edit_flashcard
            } else {
                is_blank_card(new->add_edit_flashcard)
            }
        },
        Message::FlashcardsLoaded(Err(_)) => new == old && action is Nothing,
        Message::OpenContextPage(page, card) => match card {
            None => new == old && action == Action::OpenContextPage(page),
            Some(c) => match old {
                State::Loading => new == old && action is Nothing,
                State::Ready { current_folder_id, flashcards, options, .. } => new == State::Ready {
                    current_folder_id,
                    add_edit_flashcard: c,
                    flashcards,
                    options,
                } && action == Action::OpenContextPage(page),
            },
        },
        Message::EditFlashcard => new == old && match old {
            State::Loading => action is Nothing,
            State::Ready { add_edit_flashcard, .. } => store_or_save(
                add_edit_flashcard,
                false,
                SaveThen::Edit,
                data_dir,
                action,
            ),
        },
        Message::AddFlashcard => new == old && match old {
            State::Ready { current_folder_id: Some(id), add_edit_flashcard, .. } => store_or_save(
                add_edit_flashcard,
                true,
                SaveThen::Add(id),
                data_dir,
                action,
            ),
            _ => action is Nothing,
        },
        Message::AddEditFlashcardInput(input) => match old {
            State::Loading => new == old && action is Nothing,
            State::Ready { current_folder_id, add_edit_flashcard, flashcards, options } => {
                &&& new matches State::Ready { .. }
                &&& new->current_folder_id == current_folder_id
                &&& new->flashcards == flashcards
                &&& new->options == options
                &&& card_edited(input, add_edit_flashcard, data_dir, new->add_edit_flashcard, action)
            },
        },
        Message::ResetFlashcardStatus(id) => new == old && action == Action::Run(
            Job::ResetFlashcardStatus(id),
        ),
        Message::DeleteFlashcard(c) => new == old && action == Action::OpenDeleteFlashcardDialog(c),
        Message::FolderOptionsInput(input) => match old {
            State::Ready { current_folder_id: Some(id), add_edit_flashcard, flashcards, options } => {
                &&& new matches State::Ready { .. }
                &&& new->current_folder_id == Some(id)
                &&& new->add_edit_flashcard == add_edit_flashcard
                &&& new->flashcards == flashcards
                &&& options_step(input, options, id, flashcards@, new->options, action)
            },
            _ => new == old && action is Nothing,
        },
        Message::Study => new == old && match old {
            State::Ready { current_folder_id: Some(id), .. } => action == Action::StudyFolder(id),
            _ => action is Nothing,
        },
        Message::ImagesSaved { front, back, then } => match old {
            State::Loading => new == old && action is Nothing,
            State::Ready { current_folder_id, add_edit_flashcard, flashcards, options } => {
                let card = with_saved_images(add_edit_flashcard, front, back);
                &&& new == State::Ready {
                    current_folder_id,
                    add_edit_flashcard: card,
                    flashcards,
                    options,
                }
                &&& match then {
                    None => action is Nothing,
                    Some(t) => action == Action::Run(store_job(card, t)),
                }
            },
        },
    }
}

/// The label of the button that submits the card of the add/edit page.
#[derive(Debug, Clone, Copy, PartialEq, Eq, Structural)]
pub enum SubmitLabel {
    /// A stored card is edited.
    Edit,
    /// A new card is created.
    Create,
}

/// Which buttons of the folder options page can be pressed.
#[derive(Debug, Clone, Copy, PartialEq, Eq, Structural)]
pub struct OptionsButtons {
    pub custom_import: bool,
    pub anki_import: bool,
    pub reset_all: bool,
    pub export: bool,
    pub export_anki: bool,
}

/// The page that explains how to export from Anki for the import.
pub const ANKI_IMPORTING_URL: &'static str = "https://github.com/mariinkys/oboete/blob/main/info/ANKI_IMPORTING.md";

impl FlashcardsScreen {
    /// The submit button of the add/edit page: labelled for editing a stored
    /// card or creating a new one, and sending `EditFlashcard` or
    /// `AddFlashcard` only when the card is ready to be saved. `None` while
    /// the screen loads.
    pub fn add_edit_submit(&self) -> (r: Option<(SubmitLabel, Option<Message>)>)
        ensures
            match self.state {
                State::Loading => r is None,
                State::Ready { add_edit_flashcard: card, .. } => r matches Some((label, msg)) && label == (
                if card.id is Some {
                    SubmitLabel::Edit
                } else {
                    SubmitLabel::Create
                }) && msg == (if !card_is_valid(card) {
                    None
                } else if card.id is Some {
                    Some(Message::EditFlashcard)
                } else {
                    Some(Message::AddFlashcard)
                }),
            },
    {
        match &self.state {
            State::Loading => None,
            State::Ready { add_edit_flashcard, .. } => {
                let valid = add_edit_flashcard.is_valid();
                if add_edit_flashcard.id.is_some() {
                    Some((SubmitLabel::Edit, if valid { Some(Message::EditFlashcard) } else { None }))
                } else {
                    Some((SubmitLabel::Create, if valid { Some(Message::AddFlashcard) } else { None }))
                }
            },
        }
    }

    /// What the reset-status button of the add/edit page sends: the reset of
    /// the card's status for a stored card; nothing (the button is disabled)
    /// for a new card or while the screen loads.
    pub fn reset_status_message(&self) -> (r: Option<Message>)
        ensures
            match self.state {
                State::Ready { add_edit_flashcard: c, .. } => r == (match c.id {
                    Some(id) => Some(Message::ResetFlashcardStatus(id)),
                    None => None,
                }),
                State::Loading => r is None,
            },
    {
        match &self.state {
            State::Ready { add_edit_flashcard, .. } => match add_edit_flashcard.id {
                Some(id) => Some(Message::ResetFlashcardStatus(id)),
                None => None,
            },
            State::Loading => None,
        }
    }

    /// The buttons of the folder options page that can be pressed: the
    /// custom import once its content and separators are given, the Anki
    /// import always, and resetting and exporting when the folder has cards.
    /// `None` while the screen loads.
    pub fn options_buttons(&self) -> (r: Option<OptionsButtons>)
        ensures
            match self.state {
                State::Loading => r is None,
                State::Ready { options, flashcards, .. } => r == Some(
                    OptionsButtons {
                        custom_import: options_valid(options),
                        anki_import: true,
                        reset_all: flashcards.len() > 0,
                        export: flashcards.len() > 0,
                        export_anki: flashcards.len() > 0,
                    },
                ),
            },
    {
        match &self.state {
            State::Loading => None,
            State::Ready { options, flashcards, .. } => {
                let has_cards = flashcards.len() > 0;
                Some(
                    OptionsButtons {
                        custom_import: options.is_valid(),
                        anki_import: true,
                        reset_all: has_cards,
                        export: has_cards,
                        export_anki: has_cards,
                    },
                )
            },
        }
    }

    /// A loading screen for the folder, and the job that loads its cards.
    pub fn new(folder_id: i32) -> (r: (Self, Job))
        ensures
            r.0.state is Loading,
            r.1 == Job::LoadFlashcards(folder_id),
    {
        (FlashcardsScreen { state: State::Loading }, Job::LoadFlashcards(folder_id))
    }

    /// Handles a message of the screen, with `data_dir` the user's data
    /// directory.
    pub fn update(&mut self, message: Message, data_dir: &Option<String>) -> (action: Action)
        ensures
            screen_step(old(self).state, message, opt_view(*data_dir), final(self).state, action),
    {
        let mut st = State::Loading;
        std::mem::swap(&mut st, &mut self.state);
        let ghost before = st;
        match message {
            Message::Noop => {
                self.state = st;
                Action::Nothing
            },
            Message::LaunchUrl(url) => {
                self.state = st;
                Action::OpenUrl(url)
            },
            Message::UpdateCurrentFolderId(folder_id) => {
                match st {
                    State::Ready { add_edit_flashcard, flashcards, options, .. } => {
                        self.state = State::Ready {
                            current_folder_id: Some(folder_id),
                            add_edit_flashcard,
                            flashcards,
                            options,
                        };
                    },
                    State::Loading => {
                        self.state = State::Loading;
                    },
                }
                Action::Nothing
            },
            Message::LoadFlashcards => {
                let action = match &st {
                    State::Ready { current_folder_id: Some(folder_id), .. } => Action::Run(
                        Job::LoadFlashcards(*folder_id),
                    ),
                    _ => Action::Nothing,
                };
                self.state = st;
                action
            },
            Message::FlashcardsLoaded(res) => {
                match res {
                    Ok(flashcards) => {
                        let add_edit_flashcard = match &st {
                            State::Ready { add_edit_flashcard, .. } => {
                                if add_edit_flashcard.id.is_some() {
                                    add_edit_flashcard.duplicate()
                                } else {
                                    Flashcard::default()
                                }
                            },
                            State::Loading => Flashcard::default(),
                        };
                        self.state = State::Ready {
                            current_folder_id: None,
                            flashcards,
                            add_edit_flashcard,
                            options: FolderOptions::new(),
                        };
                    },
                    Err(_) => {
                        self.state = st;
                    },
                }
                Action::Nothing
            },
            Message::OpenContextPage(context_page, flashcard) => {
                match flashcard {
                    Some(card) => match st {
                        State::Ready { current_folder_id, flashcards, options, .. } => {
                            self.state = State::Ready {
                                current_folder_id,
                                add_edit_flashcard: card,
                                flashcards,
                                options,
                            };
                            Action::OpenContextPage(context_page)
                        },
                        State::Loading => {
                            self.state = State::Loading;
                            Action::Nothing
                        },
                    },
                    None => {
                        self.state = st;
                        Action::OpenContextPage(context_page)
                    },
                }
            },
            Message::EditFlashcard => {
                let action = match &st {
                    State::Ready { add_edit_flashcard, .. } => store_card(
                        add_edit_flashcard,
                        false,
                        SaveThen::Edit,
                        data_dir,
                    ),
                    State::Loading => Action::Nothing,
                };
                self.state = st;
                action
            },
            Message::AddFlashcard => {
                let action = match &st {
                    State::Ready { current_folder_id: Some(folder_id), add_edit_flashcard, .. } => {
                        store_card(add_edit_flashcard, true, SaveThen::Add(*folder_id), data_dir)
                    },
                    _ => Action::Nothing,
                };
                self.state = st;
                action
            },
            Message::AddEditFlashcardInput(input) => {
                match st {
                    State::Ready { current_folder_id, add_edit_flashcard, flashcards, options } => {
                        let mut card = add_edit_flashcard;
                        let action = apply_flashcard_add_edit_input(input, &mut card, data_dir);
                        self.state = State::Ready {
                            current_folder_id,
                            add_edit_flashcard: card,
                            flashcards,
                            options,
                        };
                        action
                    },
                    State::Loading => {
                        self.state = State::Loading;
                        Action::Nothing
                    },
                }
            },
            Message::ResetFlashcardStatus(flashcard_id) => {
                self.state = st;
                Action::Run(Job::ResetFlashcardStatus(flashcard_id))
            },
            Message::DeleteFlashcard(flashcard) => {
                self.state = st;
                Action::OpenDeleteFlashcardDialog(flashcard)
            },
            Message::FolderOptionsInput(input) => {
                match st {
                    State::Ready {
                        current_folder_id: Some(folder_id),
                        add_edit_flashcard,
                        flashcards,
                        options,
                    } => {
                        let mut opts = options;
                        let action = apply_folder_options_input(
                            input,
                            &mut opts,
                            folder_id,
                            flashcards.as_slice(),
                        );
                        self.state = State::Ready {
                            current_folder_id: Some(folder_id),
                            add_edit_flashcard,
                            flashcards,
                            options: opts,
                        };
                        action
                    },
                    other => {
                        self.state = other;
                        Action::Nothing
                    },
                }
            },
            Message::Study => {
                let action = match &st {
                    State::Ready { current_folder_id: Some(folder_id), .. } => Action::StudyFolder(
                        *folder_id,
                    ),
                    _ => Action::Nothing,
                };
                self.state = st;
                action
            },
            Message::ImagesSaved { front, back, then } => {
                match st {
                    State::Ready { current_folder_id, add_edit_flashcard, flashcards, options } => {
                        let mut card = add_edit_flashcard;
                        let mut taken = FlashcardField::empty_text();
                        std::mem::swap(&mut taken, &mut card.front);
                        card.front = set_saved_path(taken, front);
                        let mut taken = FlashcardField::empty_text();
                        std::mem::swap(&mut taken, &mut card.back);
                        card.back = set_saved_path(taken, back);
                        let action = match then {
                            None => Action::Nothing,
                            Some(SaveThen::Edit) => Action::Run(Job::EditFlashcard(card.duplicate())),
                            Some(SaveThen::Add(folder_id)) => Action::Run(
                                Job::AddFlashcard(card.duplicate(), folder_id),
                            ),
                        };
                        self.state = State::Ready {
                            current_folder_id,
                            add_edit_flashcard: card,
                            flashcards,
                            options,
                        };
                        action
                    },
                    State::Loading => {
                        self.state = State::Loading;
                        Action::Nothing
                    },
                }
            },
        }
    }
}

} // verus!

verus! {

/// An edit of the front of the card changes only the front, and an edit of
/// the back only the back. Picking a side's type sets that side to the
/// picked field, and typing a side's text sets it to that text.
pub proof fn lemma_edit_touches_its_side(
    input: AddEditFlashcardInput,
    card: Flashcard,
    data_dir: Option<Seq<char>>,
    new_card: Flashcard,
    action: Action,
)
    requires
        card_edited(input, card, data_dir, new_card, action),
    ensures
        (input is FrontFieldTypeChanged || input is FrontTextInput || input is FrontSelectImage
            || input is FrontImageSelected || input is DeleteFrontSelectedImage
            || input is FrontAltTextInput) ==> new_card.back == card.back,
        (input is BackFieldTypeChanged || input is BackTextInput || input is BackSelectImage
            || input is BackImageSelected || input is DeleteBackSelectedImage
            || input is BackAltTextInput) ==> new_card.front == card.front,
        input matches AddEditFlashcardInput::FrontFieldTypeChanged(f) ==> new_card.front == f,
        input matches AddEditFlashcardInput::BackFieldTypeChanged(f) ==> new_card.back == f,
        input matches AddEditFlashcardInput::FrontTextInput(s) ==> new_card.front == FlashcardField::Text(s),
        input matches AddEditFlashcardInput::BackTextInput(s) ==> new_card.back == FlashcardField::Text(s),
        new_card.id == card.id,
        new_card.status == card.status,
        new_card.fsrs_state == card.fsrs_state,
        new_card.due_date == card.due_date,
        new_card.last_reviewed == card.last_reviewed,
{
}

} // verus!
