use oboete::app::common::models::flashcard::{Flashcard, FlashcardStatus};
use oboete::app::common::models::folder::Folder;
use oboete::app::common::utils::flashcards::NewMemory;
use oboete::app::screen::flashcards::{self as fc, FlashcardsScreen, SubmitLabel};
use oboete::app::screen::folders::{self, FoldersScreen};
use oboete::app::screen::study::{self, FlashcardSide, PracticeMode, StudyScreen};

fn card(id: i32, front: &str, due: Option<i32>) -> Flashcard {
    let mut c = Flashcard::from_texts(front.to_string(), String::from("back"));
    c.id = Some(id);
    c.due_date = due;
    c
}

#[test]
fn folders_screen_without_a_study_set() {
    let (screen, job) = FoldersScreen::new(None);
    assert!(matches!(screen.state, folders::State::NoStudySet));
    assert!(job.is_none());
    let (screen, job) = FoldersScreen::new(Some(3));
    assert!(matches!(screen.state, folders::State::Loading));
    assert!(matches!(job, Some(folders::Job::LoadFolders(3))));
}

#[test]
fn folders_screen_loads_and_edits() {
    let (mut screen, _) = FoldersScreen::new(Some(3));
    let folder = Folder { id: Some(8), name: String::from("Verbs"), desired_retention_bits: 0 };
    let a = screen.update(folders::Message::FoldersLoaded(Ok(vec![folder.duplicate()])));
    assert!(matches!(a, folders::Action::Nothing));
    let a = screen.update(folders::Message::UpdateCurrentSetId(3));
    assert!(matches!(a, folders::Action::Nothing));
    let a = screen.update(folders::Message::LoadFolders);
    assert!(matches!(a, folders::Action::Run(folders::Job::LoadFolders(3))));
    screen.update(folders::Message::OpenContextPage(
        oboete::app::context_page::ContextPage::FolderSettings,
        folder,
    ));
    screen.update(folders::Message::EditFolderInput(String::from("Nouns")));
    let a = screen.update(folders::Message::EditFolder);
    assert!(matches!(a, folders::Action::Run(folders::Job::EditFolder(f)) if f.name == "Nouns" && f.id == Some(8)));
    assert!(matches!(screen.update(folders::Message::OpenFolder(8)), folders::Action::OpenFolder(8)));
    assert!(matches!(screen.update(folders::Message::DeleteFolder(8)), folders::Action::OpenDeleteFolderDialog(8)));
}

#[test]
fn study_session_runs_through_due_cards() {
    let (mut screen, job) = StudyScreen::new(5);
    assert!(matches!(job, study::Job::LoadFlashcards(5)));
    let cards = vec![card(1, "later", Some(50)), card(2, "first", Some(5)), card(3, "next", Some(9))];
    let bits = 0.9f32.to_bits();
    let a = screen.update(study::Message::FlashcardsLoaded(Ok((cards, bits)), 10));
    assert!(matches!(a, study::Action::Nothing));
    screen.update(study::Message::UpdateCurrentFolderId(5));
    match &screen.state {
        study::State::Ready { flashcards, studying_flashcard, current_mode, current_index, .. } => {
            assert_eq!(*current_mode, PracticeMode::Fsrs);
            assert_eq!(*current_index, 0);
            assert_eq!(flashcards.len(), 2);
            assert_eq!(studying_flashcard.flashcard.id, Some(2));
            assert_eq!(studying_flashcard.flashcard_side, FlashcardSide::Front);
        },
        _ => panic!("the session did not start"),
    }
    screen.update(study::Message::SwapFlashcardSide);
    assert!(matches!(
        &screen.state,
        study::State::Ready { studying_flashcard, .. } if studying_flashcard.flashcard_side == FlashcardSide::Back
    ));
    let a = screen.update(study::Message::UpdateFlashcardStatus(2, FlashcardStatus::Great));
    assert!(matches!(
        a,
        study::Action::Run(study::Job::ScheduleReview { flashcard_id: 2, status: FlashcardStatus::Great, desired_retention_bits, .. })
            if desired_retention_bits == bits
    ));
    let a = screen.update(study::Message::ReviewScheduled {
        flashcard_id: 2,
        status: FlashcardStatus::Great,
        current: 10,
        next_states: None,
    });
    assert!(matches!(
        a,
        study::Action::Run(study::Job::SaveReview {
            flashcard_id: 2,
            status: FlashcardStatus::Great,
            memory: NewMemory::Fallback { interval_days: 7 },
            due_date: 17,
        })
    ));
    let a = screen.update(study::Message::FlashcardStatusUpdated);
    assert!(matches!(a, study::Action::Nothing));
    assert!(matches!(
        &screen.state,
        study::State::Ready { studying_flashcard, current_index: 1, .. } if studying_flashcard.flashcard.id == Some(3)
    ));
    let a = screen.update(study::Message::FlashcardStatusUpdated);
    assert!(matches!(a, study::Action::Back(5)));
}

#[test]
fn study_of_an_empty_folder_goes_back() {
    let (mut screen, _) = StudyScreen::new(5);
    let a = screen.update(study::Message::FlashcardsLoaded(Ok((Vec::new(), 0)), 10));
    assert!(matches!(a, study::Action::Nothing));
    assert!(matches!(screen.state, study::State::Loading));
    let a = screen.update(study::Message::FlashcardsLoaded(Err(String::from("locked")), 10));
    assert!(matches!(a, study::Action::AddToast(t) if t.message == "locked"));
}

#[test]
fn add_edit_submit_button() {
    let (mut screen, _) = FlashcardsScreen::new(2);
    assert!(screen.add_edit_submit().is_none());
    assert!(screen.options_buttons().is_none());
    screen.update(fc::Message::FlashcardsLoaded(Ok(Vec::new())), &None);
    match screen.add_edit_submit() {
        Some((SubmitLabel::Create, None)) => {},
        other => panic!("unexpected {other:?}"),
    }
    let buttons = screen.options_buttons().unwrap();
    assert!(!buttons.custom_import);
    assert!(buttons.anki_import);
    assert!(!buttons.export);
    assert!(!buttons.reset_all);
    screen.update(
        fc::Message::AddEditFlashcardInput(fc::AddEditFlashcardInput::FrontTextInput(String::from("q"))),
        &None,
    );
    screen.update(
        fc::Message::AddEditFlashcardInput(fc::AddEditFlashcardInput::BackTextInput(String::from("a"))),
        &None,
    );
    assert!(matches!(screen.add_edit_submit(), Some((SubmitLabel::Create, Some(fc::Message::AddFlashcard)))));
    let mut stored = card(4, "x", None);
    stored.back = oboete::app::common::models::flashcard::FlashcardField::Text(String::from("y"));
    screen.update(fc::Message::OpenContextPage(oboete::app::context_page::ContextPage::AddEditFlashcard, Some(stored)), &None);
    assert!(matches!(screen.add_edit_submit(), Some((SubmitLabel::Edit, Some(fc::Message::EditFlashcard)))));
}

#[test]
fn folder_settings_need_a_name() {
    let (mut screen, _) = FoldersScreen::new(Some(1));
    assert_eq!(screen.can_edit_folder(), None);
    screen.update(folders::Message::FoldersLoaded(Ok(Vec::new())));
    assert_eq!(screen.can_edit_folder(), Some(false));
    screen.update(folders::Message::EditFolderInput(String::from("Kanji")));
    assert_eq!(screen.can_edit_folder(), Some(true));
}

#[test]
fn reset_status_only_for_stored_cards() {
    let (mut screen, _) = FlashcardsScreen::new(2);
    assert!(screen.reset_status_message().is_none());
    screen.update(fc::Message::FlashcardsLoaded(Ok(Vec::new())), &None);
    assert!(screen.reset_status_message().is_none());
    screen.update(
        fc::Message::OpenContextPage(oboete::app::context_page::ContextPage::AddEditFlashcard, Some(card(9, "x", None))),
        &None,
    );
    assert!(matches!(screen.reset_status_message(), Some(fc::Message::ResetFlashcardStatus(9))));
}

#[test]
fn folder_page_options_buttons() {
    use_folder_page();
}

fn use_folder_page() {
    let mut page = oboete::oboete::pages::folder_content::FolderContent::init();
    let b = page.options_buttons();
    assert!(!b.import_content && b.anki_import && !b.reset_status && !b.export && !b.export_anki);
    page.folder_options_state.import_content = String::from("a-b");
    page.folder_options_state.between_cards = String::from("\n");
    page.folder_options_state.between_terms = String::from("-");
    page.flashcards.push(oboete::models::Flashcard {
        id: Some(1),
        front: String::from("a"),
        back: String::from("b"),
        status: 0,
    });
    let b = page.options_buttons();
    assert!(b.import_content && b.anki_import && b.reset_status && b.export && b.export_anki);
}
