use std::collections::VecDeque;

use oboete::app::app_menu::{MenuAction, MenuRoute};
use oboete::app::common::models::flashcard::Flashcard;
use oboete::app::common::models::studyset::StudySet;
use oboete::app::context_page::ContextPage;
use oboete::app::dialogs::{DialogAction, DialogEffect, DialogJob, DialogPage, NavSelection};
use oboete::app::screen::folders::{self, FoldersScreen};
use oboete::app::screen::flashcards;
use oboete::app::{
    theme_from_index, theme_index, toggle_context_page, window_title, AppModel, AppScreen, AppState,
    Effect, Message,
};
use oboete::config::{AppTheme, OboeteConfig};

fn ready_model() -> AppModel {
    let (mut model, _) = AppModel::new(OboeteConfig::default(), true);
    let effects = model.update(Message::DatabaseLoaded, &None);
    assert!(matches!(effects.as_slice(), [Effect::FetchStudySets]));
    model
}

fn set(id: i32, name: &str) -> StudySet {
    StudySet { id: Some(id), name: name.to_string() }
}

#[test]
fn theme_indices_round_trip() {
    for theme in [AppTheme::Dark, AppTheme::Light, AppTheme::System] {
        assert_eq!(theme_from_index(theme_index(theme)), theme);
    }
    assert_eq!(theme_from_index(0), AppTheme::System);
    assert_eq!(theme_from_index(1), AppTheme::Dark);
    assert_eq!(theme_from_index(2), AppTheme::Light);
    assert_eq!(theme_from_index(9), AppTheme::System);
}

#[test]
fn window_titles() {
    assert_eq!(window_title(None), "Oboete");
    assert_eq!(window_title(Some("Japanese")), "Oboete — Japanese");
}

#[test]
fn toggling_context_pages() {
    assert_eq!(toggle_context_page(ContextPage::About, false, ContextPage::About), (ContextPage::About, true));
    assert_eq!(toggle_context_page(ContextPage::About, true, ContextPage::About), (ContextPage::About, false));
    assert_eq!(
        toggle_context_page(ContextPage::About, true, ContextPage::Settings),
        (ContextPage::Settings, true)
    );
    let once = toggle_context_page(ContextPage::Settings, false, ContextPage::Settings);
    let twice = toggle_context_page(once.0, once.1, ContextPage::Settings);
    assert_eq!(twice, (ContextPage::Settings, false));
}

#[test]
fn a_new_application_is_loading() {
    let (model, effects) = AppModel::new(OboeteConfig { app_theme: AppTheme::Dark }, false);
    assert!(matches!(model.state, AppState::Loading));
    assert!(model.nav.is_empty());
    assert_eq!(effects.len(), 3);
    assert!(matches!(&effects[0], Effect::SetWindowTitle(t) if t == "Oboete"));
    assert!(matches!(effects[1], Effect::ApplyTheme(AppTheme::Dark)));
    assert!(matches!(effects[2], Effect::InitDatabase));
}

#[test]
fn menu_actions_before_the_database_do_nothing() {
    let (mut model, _) = AppModel::new(OboeteConfig::default(), true);
    let effects = model.update(Message::MenuAction(MenuAction::About), &None);
    assert!(effects.is_empty());
    assert!(!model.show_context);
}

#[test]
fn database_loaded_shows_the_empty_folders_screen() {
    let model = ready_model();
    assert!(matches!(
        model.state,
        AppState::Ready { screen: AppScreen::Folders(FoldersScreen { state: folders::State::NoStudySet }) }
    ));
}

#[test]
fn fetched_study_sets_fill_the_navigation_and_open_the_first() {
    let mut model = ready_model();
    let effects = model.update(Message::FetchedStudySets(Ok(vec![set(4, "German"), set(9, "Latin")])), &None);
    assert_eq!(model.nav.len(), 2);
    assert_eq!(model.nav[0].text, "German");
    assert_eq!(model.nav[1].set_id, 9);
    assert_eq!(model.active_nav, Some(0));
    assert!(!model.show_context);
    assert!(matches!(
        model.state,
        AppState::Ready { screen: AppScreen::Folders(FoldersScreen { state: folders::State::Loading }) }
    ));
    assert_eq!(effects.len(), 2);
    assert!(matches!(effects[0], Effect::Folders(folders::Job::LoadFolders(4))));
    assert!(matches!(&effects[1], Effect::SetWindowTitle(t) if t == "Oboete — German"));
    assert_eq!(model.update_title(), "Oboete — German");
}

#[test]
fn no_study_sets_leave_the_empty_screen() {
    let mut model = ready_model();
    model.update(Message::FetchedStudySets(Ok(vec![set(1, "A")])), &None);
    let effects = model.update(Message::FetchedStudySets(Ok(Vec::new())), &None);
    assert!(effects.is_empty());
    assert!(model.nav.is_empty());
    assert_eq!(model.active_nav, None);
    assert!(matches!(
        model.state,
        AppState::Ready { screen: AppScreen::Folders(FoldersScreen { state: folders::State::NoStudySet }) }
    ));
}

#[test]
fn a_failed_fetch_is_reported() {
    let mut model = ready_model();
    let effects = model.update(Message::FetchedStudySets(Err(String::from("no table"))), &None);
    assert!(matches!(&effects[..], [Effect::ReportError(e)] if e == "no table"));
}

#[test]
fn selecting_a_navigation_entry() {
    let mut model = ready_model();
    model.update(Message::FetchedStudySets(Ok(vec![set(4, "German"), set(9, "Latin")])), &None);
    model.show_context = true;
    let effects = model.on_nav_select(1);
    assert_eq!(model.active_nav, Some(1));
    assert!(!model.show_context);
    assert!(matches!(effects[0], Effect::Folders(folders::Job::LoadFolders(9))));
    assert!(matches!(&effects[1], Effect::SetWindowTitle(t) if t == "Oboete — Latin"));
    let effects = model.on_nav_select(5);
    assert_eq!(model.active_nav, Some(1));
    assert!(matches!(&effects[..], [Effect::SetWindowTitle(t)] if t == "Oboete — Latin"));
}

#[test]
fn about_menu_toggles_the_drawer() {
    let mut model = ready_model();
    model.update(Message::MenuAction(MenuAction::About), &None);
    assert_eq!(model.context_page, ContextPage::About);
    assert!(model.show_context);
    model.update(Message::MenuAction(MenuAction::About), &None);
    assert!(!model.show_context);
    model.update(Message::MenuAction(MenuAction::Settings), &None);
    assert_eq!(model.context_page, ContextPage::Settings);
    assert!(model.show_context);
}

#[test]
fn menu_actions_route() {
    assert!(matches!(MenuAction::About.route(), MenuRoute::ToggleContextPage(ContextPage::About)));
    assert!(matches!(
        MenuAction::NewStudySet.route(),
        MenuRoute::Dialog(DialogAction::OpenNewStudySetDialog)
    ));
    assert!(matches!(MenuAction::Settings.message(), Message::MenuAction(MenuAction::Settings)));
}

#[test]
fn theme_updates_are_saved_when_the_configuration_is() {
    let mut model = ready_model();
    let effects = model.update(Message::UpdateTheme(2), &None);
    assert_eq!(model.config.app_theme, AppTheme::Light);
    assert!(matches!(effects.as_slice(), [Effect::SaveTheme(AppTheme::Light), Effect::ApplyTheme(AppTheme::Light)]));

    let (mut no_config, _) = AppModel::new(OboeteConfig::default(), false);
    let effects = no_config.update(Message::UpdateTheme(1), &None);
    assert!(effects.is_empty());
    assert_eq!(no_config.config.app_theme, AppTheme::System);
}

#[test]
fn new_study_set_dialog_then_complete() {
    let mut model = ready_model();
    let effects = model.update(Message::MenuAction(MenuAction::NewStudySet), &None);
    assert!(matches!(effects.as_slice(), [Effect::Dialog(DialogEffect::FocusTextInput)]));
    assert_eq!(model.dialog_pages.len(), 1);
    model.update(
        Message::DialogAction(DialogAction::DialogUpdate(DialogPage::NewStudySet(String::from("Greek")))),
        &None,
    );
    let effects = model.update(Message::DialogAction(DialogAction::DialogComplete), &None);
    assert!(model.dialog_pages.is_empty());
    assert!(matches!(
        effects.as_slice(),
        [Effect::Dialog(DialogEffect::Run(DialogJob::AddStudySet(name)))] if name == "Greek"
    ));
}

#[test]
fn opening_then_cancelling_a_dialog_restores_the_queue() {
    let mut pages: VecDeque<DialogPage> = VecDeque::new();
    let nav = NavSelection { active_text: Some(String::from("Set")), active_id: Some(1) };
    DialogAction::OpenDeleteFolderDialog(3).execute(&mut pages, &nav);
    assert_eq!(pages.len(), 1);
    let effect = DialogAction::DialogCancel.execute(&mut pages, &nav);
    assert!(pages.is_empty());
    assert!(matches!(effect, DialogEffect::Nothing));
}

#[test]
fn dialog_jobs() {
    let nav_id = Some(5);
    assert!(matches!(DialogPage::NewStudySet(String::new()).complete(nav_id), DialogJob::Nothing));
    assert!(matches!(DialogPage::DeleteStudySet.complete(nav_id), DialogJob::DeleteStudySet(5)));
    assert!(matches!(DialogPage::DeleteStudySet.complete(None), DialogJob::Nothing));
    assert!(matches!(
        DialogPage::NewFolder(String::from("Verbs")).complete(nav_id),
        DialogJob::AddFolder { name, studyset_id: 5 } if name == "Verbs"
    ));
    assert!(matches!(
        DialogPage::RenameStudySet { to: String::from("New") }.complete(nav_id),
        DialogJob::EditStudySet { id: 5, name } if name == "New"
    ));
    let mut card = Flashcard::from_texts(String::from("a"), String::from("b"));
    card.id = Some(11);
    assert!(matches!(
        DialogPage::DeleteFlashcard(card).complete(nav_id),
        DialogJob::DeleteFlashcard { id: 11, front_image: None, back_image: None }
    ));
}

#[test]
fn opening_a_folder_shows_its_flashcards() {
    let mut model = ready_model();
    model.update(Message::FetchedStudySets(Ok(vec![set(4, "German")])), &None);
    model.update(Message::Folders(folders::Message::FoldersLoaded(Ok(Vec::new()))), &None);
    let effects = model.update(Message::Folders(folders::Message::OpenFolder(7)), &None);
    assert!(matches!(effects.as_slice(), [Effect::Flashcards(flashcards::Job::LoadFlashcards(7))]));
    assert!(matches!(
        model.state,
        AppState::Ready { screen: AppScreen::Flashcards(flashcards::FlashcardsScreen { state: flashcards::State::Loading }) }
    ));
}

#[test]
fn launching_a_url() {
    let mut model = ready_model();
    let effects = model.update(Message::LaunchUrl(String::from("https://example.org")), &None);
    assert!(matches!(&effects[..], [Effect::OpenUrl(u)] if u == "https://example.org"));
}

#[test]
fn context_drawer_follows_the_screen() {
    let mut model = ready_model();
    assert!(model.context_drawer().is_none());
    model.update(Message::ToggleContextPage(ContextPage::Settings), &None);
    assert_eq!(model.context_drawer(), Some((ContextPage::Settings, "folder-details")));
    model.update(Message::ToggleContextPage(ContextPage::AddEditFlashcard), &None);
    // The folders screen has no card page.
    assert!(model.context_drawer().is_none());
    model.update(Message::OpenFlashcards(3), &None);
    assert_eq!(model.context_drawer(), Some((ContextPage::AddEditFlashcard, "flashcard-options")));
    model.update(Message::ToggleContextPage(ContextPage::About), &None);
    assert_eq!(model.context_drawer(), Some((ContextPage::About, "about")));
}
