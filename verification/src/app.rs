pub mod app_menu;
pub mod common;
pub mod context_page;
pub mod dialogs;
pub mod screen;

use std::collections::VecDeque;

use vstd::prelude::*;

use crate::app::app_menu::{MenuAction, MenuRoute, menu_route_spec};
use crate::app::common::models::studyset::StudySet;
use crate::app::common::utils::flashcards::due_dates_fit;
use crate::app::common::utils::images::opt_view;
use crate::app::common::utils::toast::OboeteToast;
use crate::app::context_page::ContextPage;
use crate::app::dialogs::{DialogAction, DialogEffect, DialogPage, NavSelection, executed};
use crate::app::screen::flashcards::{self as flashcards_screen, FlashcardsScreen, screen_step};
use crate::app::screen::folders::{self as folders_screen, FoldersScreen, folders_step};
use crate::app::screen::study::{self as study_screen, StudyScreen, study_step, study_wf};
use crate::config::{AppTheme, OboeteConfig};
use crate::app::common::utils::flashcards::append_str;
use crate::text::{chars_of, string_from_chars};

verus! {

broadcast use vstd::string::group_string_axioms;

/// The context page shown and whether the drawer is open, after asking for
/// `requested`: asking for the page already chosen opens or closes the
/// drawer; asking for another page shows it in an open drawer.
pub open spec fn toggled_context(current: ContextPage, show: bool, requested: ContextPage) -> (
    ContextPage,
    bool,
) {
    if current == requested {
        (current, !show)
    } else {
        (requested, true)
    }
}

/// Toggles the context drawer to the requested page.
pub fn toggle_context_page(current: ContextPage, show_context: bool, requested: ContextPage) -> (r: (
    ContextPage,
    bool,
))
    ensures
        r == toggled_context(current, show_context, requested),
{
    if current == requested {
        (current, !show_context)
    } else {
        (requested, true)
    }
}

/// Toggling the page that the drawer shows twice leaves the drawer as it
/// was: the first toggle opens or closes it, the second undoes that.
pub proof fn lemma_toggle_same_page_twice(current: ContextPage, show: bool)
    ensures
        ({
            let (p1, s1) = toggled_context(current, show, current);
            toggled_context(p1, s1, current)
        }) == (current, show),
{
}

/// The theme of each entry of the theme list of the settings page.
pub open spec fn theme_of_index(index: usize) -> AppTheme {
    if index == 1 {
        AppTheme::Dark
    } else if index == 2 {
        AppTheme::Light
    } else {
        AppTheme::System
    }
}

/// The entry of the theme list that shows each theme.
pub open spec fn index_of_theme(theme: AppTheme) -> usize {
    match theme {
        AppTheme::Dark => 1,
        AppTheme::Light => 2,
        AppTheme::System => 0,
    }
}

/// The theme chosen in the theme list.
pub fn theme_from_index(index: usize) -> (theme: AppTheme)
    ensures
        theme == theme_of_index(index),
{
    match index {
        1 => AppTheme::Dark,
        2 => AppTheme::Light,
        _ => AppTheme::System,
    }
}

/// The entry of the theme list that the settings page selects for a theme.
pub fn theme_index(theme: AppTheme) -> (index: usize)
    ensures
        index == index_of_theme(theme),
{
    match theme {
        AppTheme::Dark => 1,
        AppTheme::Light => 2,
        AppTheme::System => 0,
    }
}

/// Choosing the entry that the settings page shows for a theme chooses that
/// theme again.
pub proof fn lemma_theme_index_roundtrip(theme: AppTheme)
    ensures
        theme_of_index(index_of_theme(theme)) == theme,
{
}

/// The window title: the application name, and the active study set after a
/// dash when there is one.
pub open spec fn window_title_spec(page: Option<Seq<char>>) -> Seq<char> {
    match page {
        Some(p) => "Oboete"@ + " — "@ + p,
        None => "Oboete"@,
    }
}

/// The window title for the active study set.
pub fn window_title(page: Option<&str>) -> (title: String)
    ensures
        title@ == window_title_spec(match page {
            Some(p) => Some(p@),
            None => None,
        }),
{
    let mut out = chars_of("Oboete");
    if let Some(p) = page {
        append_str(&mut out, " — ");
        append_str(&mut out, p);
    }
    string_from_chars(out.as_slice())
}

/// An entry of the navigation bar: a study set's name and id.
#[derive(Debug, Clone)]
pub struct NavEntry {
    pub text: String,
    pub set_id: i32,
}

/// The screen the application shows once its database is open.
#[derive(Debug)]
pub enum AppScreen {
    Folders(FoldersScreen),
    Flashcards(FlashcardsScreen),
    Study(StudyScreen),
}

/// Whether the database is open yet, and the screen shown once it is.
#[derive(Debug)]
pub enum AppState {
    Loading,
    Ready { screen: AppScreen },
}

/// The messages of the application.
#[derive(Debug)]
pub enum Message {
    LaunchUrl(String),
    ToggleContextPage(ContextPage),
    UpdateConfig(OboeteConfig),
    UpdateTheme(usize),
    MenuAction(MenuAction),
    DialogAction(DialogAction),
    /// The database is open.
    DatabaseLoaded,
    FetchStudySets,
    FetchedStudySets(Result<Vec<StudySet>, String>),
    Folders(folders_screen::Message),
    Flashcards(flashcards_screen::Message),
    Study(study_screen::Message),
    OpenFolders(i32),
    OpenFlashcards(i32),
    OpenStudy(i32),
}

/// What the application asks of its surroundings.
#[derive(Debug)]
pub enum Effect {
    /// Open the database, then `DatabaseLoaded`.
    InitDatabase,
    /// Open the link in the browser.
    OpenUrl(String),
    /// Store the theme in the configuration.
    SaveTheme(AppTheme),
    /// Show the application in the theme.
    ApplyTheme(AppTheme),
    /// Load the study sets, then `FetchedStudySets`.
    FetchStudySets,
    Dialog(DialogEffect),
    Folders(folders_screen::Job),
    Flashcards(flashcards_screen::Job),
    Study(study_screen::Job),
    SetWindowTitle(String),
    AddToast(OboeteToast),
    /// Report an error on the standard error stream.
    ReportError(String),
}

/// The state of the application: the context drawer, the open dialogs, the
/// navigation bar of study sets, the configuration (and whether it can be
/// stored) and the screen.
#[derive(Debug)]
pub struct AppModel {
    pub context_page: ContextPage,
    pub show_context: bool,
    pub dialog_pages: VecDeque<DialogPage>,
    pub nav: Vec<NavEntry>,
    pub active_nav: Option<usize>,
    pub config: OboeteConfig,
    pub config_available: bool,
    pub state: AppState,
}

/// The model after toggling the context drawer to `page`.
pub open spec fn with_toggle(m: AppModel, page: ContextPage) -> AppModel {
    let (p, s) = toggled_context(m.context_page, m.show_context, page);
    AppModel { context_page: p, show_context: s, ..m }
}

/// The model with the given screen, when the database is open.
pub open spec fn with_screen(m: AppModel, screen: AppScreen) -> (AppModel, bool) {
    if m.state is Ready {
        (AppModel { state: AppState::Ready { screen }, ..m }, true)
    } else {
        (m, false)
    }
}

/// Opening the folders of a study set: a loading folders screen and its
/// loading job, once the database is open.
pub open spec fn opened_folders(m: AppModel, id: i32) -> (AppModel, Seq<Effect>) {
    let (n, ready) = with_screen(m, AppScreen::Folders(FoldersScreen { state: folders_screen::State::Loading }));
    (n, if ready { seq![Effect::Folders(folders_screen::Job::LoadFolders(id))] } else { seq![] })
}

/// Opening the flashcards of a folder.
pub open spec fn opened_flashcards(m: AppModel, id: i32) -> (AppModel, Seq<Effect>) {
    let (n, ready) = with_screen(
        m,
        AppScreen::Flashcards(FlashcardsScreen { state: flashcards_screen::State::Loading }),
    );
    (n, if ready { seq![Effect::Flashcards(flashcards_screen::Job::LoadFlashcards(id))] } else { seq![] })
}

/// Studying a folder.
pub open spec fn opened_study(m: AppModel, id: i32) -> (AppModel, Seq<Effect>) {
    let (n, ready) = with_screen(m, AppScreen::Study(StudyScreen { state: study_screen::State::Loading }));
    (n, if ready { seq![Effect::Study(study_screen::Job::LoadFlashcards(id))] } else { seq![] })
}

/// The study set selected in the navigation bar.
pub open spec fn nav_selection(m: AppModel) -> NavSelection {
    match m.active_nav {
        Some(i) => if i < m.nav@.len() {
            NavSelection { active_text: Some(m.nav@[i as int].text), active_id: Some(m.nav@[i as int].set_id) }
        } else {
            NavSelection { active_text: None, active_id: None }
        },
        None => NavSelection { active_text: None, active_id: None },
    }
}

/// The models are equal but for their dialogs.
pub open spec fn same_but_dialogs(a: AppModel, b: AppModel) -> bool {
    &&& a.context_page == b.context_page
    &&& a.show_context == b.show_context
    &&& a.nav == b.nav
    &&& a.active_nav == b.active_nav
    &&& a.config == b.config
    &&& a.config_available == b.config_available
    &&& a.state == b.state
}

/// The models are equal but for their navigation bars.
pub open spec fn same_but_nav(a: AppModel, b: AppModel) -> bool {
    &&& a.context_page == b.context_page
    &&& a.show_context == b.show_context
    &&& a.dialog_pages == b.dialog_pages
    &&& a.active_nav == b.active_nav
    &&& a.config == b.config
    &&& a.config_available == b.config_available
    &&& a.state == b.state
}

/// A dialog action: executed on the dialogs once the database is open,
/// ignored before.
pub open spec fn dialog_step(m: AppModel, action: DialogAction, after: AppModel, effects: Seq<Effect>) -> bool {
    if m.state is Ready {
        &&& same_but_dialogs(m, after)
        &&& effects.len() == 1
        &&& effects[0] matches Effect::Dialog(e) && executed(
            action,
            m.dialog_pages@,
            nav_selection(m),
            after.dialog_pages@,
            e,
        )
    } else {
        after == m && effects == Seq::<Effect>::empty()
    }
}

/// Where an action of the folders screen leads.
pub open spec fn folders_route(m: AppModel, action: folders_screen::Action, after: AppModel, effects: Seq<Effect>) -> bool {
    match action {
        folders_screen::Action::Nothing => after == m && effects == Seq::<Effect>::empty(),
        folders_screen::Action::Run(job) => after == m && effects == seq![Effect::Folders(job)],
        folders_screen::Action::OpenCreateFolderDialog => dialog_step(
            m,
            DialogAction::OpenCreateFolderDialog,
            after,
            effects,
        ),
        folders_screen::Action::OpenDeleteFolderDialog(id) => dialog_step(
            m,
            DialogAction::OpenDeleteFolderDialog(id),
            after,
            effects,
        ),
        folders_screen::Action::OpenContextPage(page) => after == with_toggle(m, page) && effects
            == Seq::<Effect>::empty(),
        folders_screen::Action::OpenFolder(id) => (after, effects) == opened_flashcards(m, id),
    }
}

/// Where an action of the flashcards screen leads.
pub open spec fn flashcards_route(
    m: AppModel,
    action: flashcards_screen::Action,
    after: AppModel,
    effects: Seq<Effect>,
) -> bool {
    match action {
        flashcards_screen::Action::Nothing => after == m && effects == Seq::<Effect>::empty(),
        flashcards_screen::Action::Run(job) => after == m && effects == seq![Effect::Flashcards(job)],
        flashcards_screen::Action::OpenDeleteFlashcardDialog(card) => dialog_step(
            m,
            DialogAction::OpenDeleteFlashcardDialog(card),
            after,
            effects,
        ),
        flashcards_screen::Action::OpenContextPage(page) => after == with_toggle(m, page) && effects
            == Seq::<Effect>::empty(),
        flashcards_screen::Action::StudyFolder(id) => (after, effects) == opened_study(
            AppModel { show_context: false, ..m },
            id,
        ),
        flashcards_screen::Action::OpenUrl(url) => after == m && effects == seq![Effect::OpenUrl(url)],
    }
}

/// Where an action of the study screen leads.
pub open spec fn study_route(m: AppModel, action: study_screen::Action, after: AppModel, effects: Seq<Effect>) -> bool {
    match action {
        study_screen::Action::Nothing => after == m && effects == Seq::<Effect>::empty(),
        study_screen::Action::Back(id) => (after, effects) == opened_flashcards(m, id),
        study_screen::Action::Run(job) => after == m && effects == seq![Effect::Study(job)],
        study_screen::Action::AddToast(toast) => after == m && effects == seq![Effect::AddToast(toast)],
    }
}

/// The window title for the study set selected in the navigation bar.
pub open spec fn active_title(m: AppModel) -> Seq<char> {
    window_title_spec(
        match nav_selection(m).active_text {
            Some(t) => Some(t@),
            None => None,
        },
    )
}

/// Selecting the entry at `index` of the navigation bar: for an entry, the
/// model with the entry active, its study set's folders open and the drawer
/// closed, and the effects of opening the folders followed by the new window
/// title; for an index past the entries, only the window title.
pub open spec fn nav_selected(m: AppModel, index: usize, after: AppModel, effects: Seq<Effect>) -> bool {
    let (model, first) = if index < m.nav@.len() {
        let (opened, e) = opened_folders(AppModel { active_nav: Some(index), ..m }, m.nav@[index as int].set_id);
        (AppModel { show_context: false, ..opened }, e)
    } else {
        (m, Seq::<Effect>::empty())
    };
    &&& after == model
    &&& effects.len() == first.len() + 1
    &&& effects.take(first.len() as int) == first
    &&& effects.last() matches Effect::SetWindowTitle(t) && t@ == active_title(model)
}

/// The navigation entries of the study sets: each set's name and id.
pub open spec fn nav_entries(sets: Seq<StudySet>) -> Seq<(Seq<char>, i32)> {
    sets.map_values(|s: StudySet| (s.name@, s.id->0))
}

pub open spec fn nav_view(nav: Seq<NavEntry>) -> Seq<(Seq<char>, i32)> {
    nav.map_values(|e: NavEntry| (e.text@, e.set_id))
}

/// A message can be handled: backing up and importing are not implemented,
/// an edit of a dialog needs an open dialog, the loaded study sets need ids,
/// and a review's due dates fit the calendar.
pub open spec fn handles(m: AppModel, msg: Message) -> bool {
    match msg {
        Message::MenuAction(a) => m.state is Ready ==> !(a is Backup || a is Import),
        Message::DialogAction(a) => (m.state is Ready && a is DialogUpdate) ==> m.dialog_pages@.len() > 0,
        Message::FetchedStudySets(Ok(sets)) => forall|i: int| 0 <= i < sets@.len() ==> (#[trigger] sets@[i]).id is Some,
        Message::Study(study_screen::Message::ReviewScheduled { status, current, next_states, .. }) => (m.state matches AppState::Ready { screen: AppScreen::Study(_) }) ==> due_dates_fit(status, current, next_states),
        _ => true,
    }
}

/// The model and the effects after a message, with `data_dir` the user's
/// data directory.
pub open spec fn app_step(m: AppModel, msg: Message, data_dir: Option<Seq<char>>, after: AppModel, effects: Seq<Effect>) -> bool {
    match msg {
        Message::LaunchUrl(url) => after == m && effects == seq![Effect::OpenUrl(url)],
        Message::ToggleContextPage(page) => after == with_toggle(m, page) && effects == Seq::<Effect>::empty(),
        Message::UpdateConfig(config) => after == AppModel { config, ..m } && effects == Seq::<Effect>::empty(),
        Message::UpdateTheme(index) => if m.config_available {
            let theme = theme_of_index(index);
            &&& after == AppModel { config: OboeteConfig { app_theme: theme }, ..m }
            &&& effects == seq![Effect::SaveTheme(theme), Effect::ApplyTheme(theme)]
        } else {
            after == m && effects == Seq::<Effect>::empty()
        },
        Message::MenuAction(action) => if m.state is Ready {
            match action {
                MenuAction::About => after == with_toggle(m, ContextPage::About) && effects == Seq::<Effect>::empty(),
                MenuAction::Settings => after == with_toggle(m, ContextPage::Settings) && effects == Seq::<Effect>::empty(),
                MenuAction::NewStudySet => dialog_step(m, DialogAction::OpenNewStudySetDialog, after, effects),
                MenuAction::RenameStudySet => dialog_step(m, DialogAction::OpenRenameStudySetDialog, after, effects),
                MenuAction::DeleteStudySet => dialog_step(m, DialogAction::OpenDeleteStudySetDialog, after, effects),
                MenuAction::Backup | MenuAction::Import => false,
            }
        } else {
            after == m && effects == Seq::<Effect>::empty()
        },
        Message::DialogAction(action) => dialog_step(m, action, after, effects),
        Message::DatabaseLoaded => {
            &&& after == AppModel {
                state: AppState::Ready { screen: AppScreen::Folders(FoldersScreen { state: folders_screen::State::NoStudySet }) },
                ..m
            }
            &&& effects == seq![Effect::FetchStudySets]
        },
        Message::FetchStudySets => after == m && effects == (if m.state is Ready {
            seq![Effect::FetchStudySets]
        } else {
            Seq::<Effect>::empty()
        }),
        Message::FetchedStudySets(Err(e)) => after == m && effects == seq![Effect::ReportError(e)],
        Message::FetchedStudySets(Ok(sets)) => {
            &&& nav_view(after.nav@) == nav_entries(sets@)
            &&& if sets@.len() == 0 {
                let cleared = AppModel {
                    active_nav: None,
                    state: if m.state is Ready {
                        AppState::Ready { screen: AppScreen::Folders(FoldersScreen { state: folders_screen::State::NoStudySet }) }
                    } else {
                        m.state
                    },
                    ..m
                };
                same_but_nav(after, cleared) && effects == Seq::<Effect>::empty()
            } else {
                let (opened, first) = opened_folders(AppModel { active_nav: Some(0), ..m }, sets@[0].id->0);
                &&& same_but_nav(after, AppModel { show_context: false, ..opened })
                &&& effects.len() == first.len() + 1
                &&& effects.take(first.len() as int) == first
                &&& effects.last() matches Effect::SetWindowTitle(t) && t@ == window_title_spec(
                    Some(sets@[0].name@),
                )
            }
        },
        Message::Folders(fm) => match m.state {
            AppState::Ready { screen: AppScreen::Folders(f) } => exists|s: folders_screen::State, a: folders_screen::Action|
                #[trigger] folders_step(f.state, fm, s, a) && folders_route(
                    AppModel { state: AppState::Ready { screen: AppScreen::Folders(FoldersScreen { state: s }) }, ..m },
                    a,
                    after,
                    effects,
                ),
            _ => after == m && effects == Seq::<Effect>::empty(),
        },
        Message::Flashcards(fm) => match m.state {
            AppState::Ready { screen: AppScreen::Flashcards(f) } => exists|s: flashcards_screen::State, a: flashcards_screen::Action|
                #[trigger] screen_step(f.state, fm, data_dir, s, a) && flashcards_route(
                    AppModel { state: AppState::Ready { screen: AppScreen::Flashcards(FlashcardsScreen { state: s }) }, ..m },
                    a,
                    after,
                    effects,
                ),
            _ => after == m && effects == Seq::<Effect>::empty(),
        },
        Message::Study(sm) => match m.state {
            AppState::Ready { screen: AppScreen::Study(st) } => exists|s: study_screen::State, a: study_screen::Action|
                #[trigger] study_step(st.state, sm, s, a) && (study_wf(st.state) ==> study_wf(s)) && study_route(
                    AppModel { state: AppState::Ready { screen: AppScreen::Study(StudyScreen { state: s }) }, ..m },
                    a,
                    after,
                    effects,
                ),
            _ => after == m && effects == Seq::<Effect>::empty(),
        },
        Message::OpenFolders(id) => (after, effects) == opened_folders(m, id),
        Message::OpenFlashcards(id) => (after, effects) == opened_flashcards(m, id),
        Message::OpenStudy(id) => (after, effects) == opened_study(m, id),
    }
}

/// A consistent application: the selected entry of the navigation bar is
/// one of its entries, and a study session studies a card of its list.
pub open spec fn app_wf(m: AppModel) -> bool {
    &&& m.active_nav matches Some(i) ==> i < m.nav@.len()
    &&& m.state matches AppState::Ready { screen: AppScreen::Study(s) } ==> study_wf(s.state)
}

/// Whether the context page can be shown with the screen the application
/// shows: the about and settings pages always, the folder settings with the
/// folders screen, the card and folder options pages with the flashcards
/// screen.
pub open spec fn page_available(page: ContextPage, state: AppState) -> bool {
    match page {
        ContextPage::About | ContextPage::Settings => true,
        ContextPage::FolderSettings => state matches AppState::Ready { screen: AppScreen::Folders(_) },
        ContextPage::AddEditFlashcard | ContextPage::FolderContentOptions => state matches AppState::Ready {
            screen: AppScreen::Flashcards(_),
        },
    }
}

/// The key of the title of each context page in the translations.
pub open spec fn page_title_key(page: ContextPage) -> Seq<char> {
    match page {
        ContextPage::About => "about"@,
        ContextPage::Settings => "folder-details"@,
        ContextPage::FolderSettings => "folder-details"@,
        ContextPage::AddEditFlashcard => "flashcard-options"@,
        ContextPage::FolderContentOptions => "flashcard-options"@,
    }
}

impl AppModel {
    /// The context drawer shown, if any, with the key of its title: the
    /// chosen page while the drawer is open and the page goes with the screen.
    pub fn context_drawer(&self) -> (r: Option<(ContextPage, &'static str)>)
        ensures
            match r {
                Some((page, key)) => {
                    &&& self.show_context
                    &&& page == self.context_page
                    &&& page_available(page, self.state)
                    &&& key@ == page_title_key(page)
                },
                None => !self.show_context || !page_available(self.context_page, self.state),
            },
    {
        if !self.show_context {
            return None;
        }
        let available = match self.context_page {
            ContextPage::About | ContextPage::Settings => true,
            ContextPage::FolderSettings => match &self.state {
                AppState::Ready { screen: AppScreen::Folders(_) } => true,
                _ => false,
            },
            ContextPage::AddEditFlashcard | ContextPage::FolderContentOptions => match &self.state {
                AppState::Ready { screen: AppScreen::Flashcards(_) } => true,
                _ => false,
            },
        };
        if !available {
            return None;
        }
        let key = match self.context_page {
            ContextPage::About => "about",
            ContextPage::Settings => "folder-details",
            ContextPage::FolderSettings => "folder-details",
            ContextPage::AddEditFlashcard => "flashcard-options",
            ContextPage::FolderContentOptions => "flashcard-options",
        };
        Some((self.context_page, key))
    }

    /// A new application, loading, with the stored configuration; the
    /// effects set the window title and the theme and open the database.
    pub fn new(config: OboeteConfig, config_available: bool) -> (r: (Self, Vec<Effect>))
        ensures
            r.0.context_page == ContextPage::About,
            !r.0.show_context,
            r.0.dialog_pages@.len() == 0,
            r.0.nav@.len() == 0,
            r.0.active_nav is None,
            r.0.config == config,
            r.0.config_available == config_available,
            r.0.state is Loading,
            r.1@.len() == 3,
            r.1@[0] matches Effect::SetWindowTitle(t) && t@ == window_title_spec(None),
            r.1@[1] == Effect::ApplyTheme(config.app_theme),
            r.1@[2] is InitDatabase,
            app_wf(r.0),
    {
        let model = AppModel {
            context_page: ContextPage::About,
            show_context: false,
            dialog_pages: VecDeque::new(),
            nav: Vec::new(),
            active_nav: None,
            config,
            config_available,
            state: AppState::Loading,
        };
        let mut effects: Vec<Effect> = Vec::new();
        effects.push(Effect::SetWindowTitle(window_title(None)));
        effects.push(Effect::ApplyTheme(config.app_theme));
        effects.push(Effect::InitDatabase);
        (model, effects)
    }

    /// The study set selected in the navigation bar.
    pub fn selection(&self) -> (r: NavSelection)
        ensures
            r == nav_selection(*self),
    {
        match self.active_nav {
            Some(i) => {
                if i < self.nav.len() {
                    NavSelection {
                        active_text: Some(self.nav[i].text.clone()),
                        active_id: Some(self.nav[i].set_id),
                    }
                } else {
                    NavSelection { active_text: None, active_id: None }
                }
            },
            None => NavSelection { active_text: None, active_id: None },
        }
    }

    fn toggle(&mut self, page: ContextPage)
        ensures
            *final(self) == with_toggle(*old(self), page),
            app_wf(*old(self)) ==> app_wf(*final(self)),
    {
        let (p, s) = toggle_context_page(self.context_page, self.show_context, page);
        self.context_page = p;
        self.show_context = s;
    }

    fn set_screen(&mut self, screen: AppScreen) -> (ready: bool)
        ensures
            (*final(self), ready) == with_screen(*old(self), screen),
    {
        match self.state {
            AppState::Ready { .. } => {
                self.state = AppState::Ready { screen };
                true
            },
            AppState::Loading => false,
        }
    }

    fn open_folders(&mut self, id: i32) -> (effects: Vec<Effect>)
        ensures
            (*final(self), effects@) == opened_folders(*old(self), id),
            app_wf(*old(self)) ==> app_wf(*final(self)),
    {
        let (screen, job) = FoldersScreen::new(Some(id));
        let mut effects: Vec<Effect> = Vec::new();
        if self.set_screen(AppScreen::Folders(screen)) {
            if let Some(j) = job {
                effects.push(Effect::Folders(j));
            }
        }
        proof {
            assert(effects@ =~= opened_folders(*old(self), id).1);
        }
        effects
    }

    fn open_flashcards(&mut self, id: i32) -> (effects: Vec<Effect>)
        ensures
            (*final(self), effects@) == opened_flashcards(*old(self), id),
            app_wf(*old(self)) ==> app_wf(*final(self)),
    {
        let (screen, job) = FlashcardsScreen::new(id);
        let mut effects: Vec<Effect> = Vec::new();
        if self.set_screen(AppScreen::Flashcards(screen)) {
            effects.push(Effect::Flashcards(job));
        }
        proof {
            assert(effects@ =~= opened_flashcards(*old(self), id).1);
        }
        effects
    }

    fn open_study(&mut self, id: i32) -> (effects: Vec<Effect>)
        ensures
            (*final(self), effects@) == opened_study(*old(self), id),
            app_wf(*old(self)) ==> app_wf(*final(self)),
    {
        let (screen, job) = StudyScreen::new(id);
        let mut effects: Vec<Effect> = Vec::new();
        if self.set_screen(AppScreen::Study(screen)) {
            effects.push(Effect::Study(job));
        }
        proof {
            assert(effects@ =~= opened_study(*old(self), id).1);
        }
        effects
    }

    fn run_dialog(&mut self, action: DialogAction) -> (effects: Vec<Effect>)
        requires
            (old(self).state is Ready && action is DialogUpdate) ==> old(self).dialog_pages@.len() > 0,
        ensures
            dialog_step(*old(self), action, *final(self), effects@),
            app_wf(*old(self)) ==> app_wf(*final(self)),
    {
        let mut effects: Vec<Effect> = Vec::new();
        match self.state {
            AppState::Ready { .. } => {
                let nav = self.selection();
                let e = action.execute(&mut self.dialog_pages, &nav);
                effects.push(Effect::Dialog(e));
            },
            AppState::Loading => {},
        }
        effects
    }

    fn route_folders(&mut self, action: folders_screen::Action) -> (effects: Vec<Effect>)
        ensures
            folders_route(*old(self), action, *final(self), effects@),
            app_wf(*old(self)) ==> app_wf(*final(self)),
    {
        match action {
            folders_screen::Action::Nothing => Vec::new(),
            folders_screen::Action::Run(job) => {
                let mut effects: Vec<Effect> = Vec::new();
                effects.push(Effect::Folders(job));
                effects
            },
            folders_screen::Action::OpenCreateFolderDialog => self.run_dialog(DialogAction::OpenCreateFolderDialog),
            folders_screen::Action::OpenDeleteFolderDialog(id) => self.run_dialog(DialogAction::OpenDeleteFolderDialog(id)),
            folders_screen::Action::OpenContextPage(page) => {
                self.toggle(page);
                Vec::new()
            },
            folders_screen::Action::OpenFolder(id) => self.open_flashcards(id),
        }
    }

    fn route_flashcards(&mut self, action: flashcards_screen::Action) -> (effects: Vec<Effect>)
        ensures
            flashcards_route(*old(self), action, *final(self), effects@),
            app_wf(*old(self)) ==> app_wf(*final(self)),
    {
        match action {
            flashcards_screen::Action::Nothing => Vec::new(),
            flashcards_screen::Action::Run(job) => {
                let mut effects: Vec<Effect> = Vec::new();
                effects.push(Effect::Flashcards(job));
                effects
            },
            flashcards_screen::Action::OpenDeleteFlashcardDialog(card) => self.run_dialog(
                DialogAction::OpenDeleteFlashcardDialog(card),
            ),
            flashcards_screen::Action::OpenContextPage(page) => {
                self.toggle(page);
                Vec::new()
            },
            flashcards_screen::Action::StudyFolder(id) => {
                self.show_context = false;
                self.open_study(id)
            },
            flashcards_screen::Action::OpenUrl(url) => {
                let mut effects: Vec<Effect> = Vec::new();
                effects.push(Effect::OpenUrl(url));
                effects
            },
        }
    }

    fn route_study(&mut self, action: study_screen::Action) -> (effects: Vec<Effect>)
        ensures
            study_route(*old(self), action, *final(self), effects@),
            app_wf(*old(self)) ==> app_wf(*final(self)),
    {
        match action {
            study_screen::Action::Nothing => Vec::new(),
            study_screen::Action::Back(id) => self.open_flashcards(id),
            study_screen::Action::Run(job) => {
                let mut effects: Vec<Effect> = Vec::new();
                effects.push(Effect::Study(job));
                effects
            },
            study_screen::Action::AddToast(toast) => {
                let mut effects: Vec<Effect> = Vec::new();
                effects.push(Effect::AddToast(toast));
                effects
            },
        }
    }

    /// The window title for the study set selected in the navigation bar.
    pub fn update_title(&self) -> (title: String)
        ensures
            title@ == active_title(*self),
    {
        let nav = self.selection();
        match &nav.active_text {
            Some(t) => window_title(Some(t.as_str())),
            None => window_title(None),
        }
    }

    /// Selects the entry at `index` of the navigation bar: its study set's
    /// folders are opened, the context drawer is closed and the window title
    /// follows. An index past the entries only sets the title again.
    pub fn on_nav_select(&mut self, index: usize) -> (effects: Vec<Effect>)
        ensures
            nav_selected(*old(self), index, *final(self), effects@),
            app_wf(*old(self)) ==> app_wf(*final(self)),
    {
        let mut effects: Vec<Effect> = Vec::new();
        if index < self.nav.len() {
            self.active_nav = Some(index);
            let set_id = self.nav[index].set_id;
            effects = self.open_folders(set_id);
            self.show_context = false;
        }
        let ghost first = effects@;
        let title = self.update_title();
        effects.push(Effect::SetWindowTitle(title));
        proof {
            assert(effects@.take(first.len() as int) =~= first);
        }
        effects
    }

    fn fetched_study_sets(&mut self, sets: Vec<StudySet>) -> (effects: Vec<Effect>)
        requires
            forall|i: int| 0 <= i < sets@.len() ==> (#[trigger] sets@[i]).id is Some,
        ensures
            app_step(*old(self), Message::FetchedStudySets(Ok(sets)), None, *final(self), effects@),
            app_wf(*old(self)) ==> app_wf(*final(self)),
    {
        let mut nav: Vec<NavEntry> = Vec::new();
        let mut i: usize = 0;
        while i < sets.len()
            invariant
                i <= sets.len(),
                forall|k: int| 0 <= k < sets@.len() ==> (#[trigger] sets@[k]).id is Some,
                nav_view(nav@) == nav_entries(sets@.take(i as int)),
            decreases sets.len() - i,
        {
            let set_id = match sets[i].id {
                Some(id) => id,
                None => 0,
            };
            let ghost before = nav_view(nav@);
            nav.push(NavEntry { text: sets[i].name.clone(), set_id });
            proof {
                assert(nav_view(nav@) =~= before.push((sets@[i as int].name@, set_id)));
                assert(nav_entries(sets@.take(i + 1)) =~= nav_entries(sets@.take(i as int)).push(
                    (sets@[i as int].name@, set_id),
                ));
            }
            i = i + 1;
        }
        proof {
            assert(sets@.take(sets.len() as int) =~= sets@);
        }
        self.nav = nav;
        if sets.len() == 0 {
            self.active_nav = None;
            match self.state {
                AppState::Ready { .. } => {
                    let (screen, _job) = FoldersScreen::new(None);
                    proof {
                        assert(screen == FoldersScreen { state: folders_screen::State::NoStudySet });
                    }
                    self.state = AppState::Ready { screen: AppScreen::Folders(screen) };
                },
                AppState::Loading => {},
            }
            Vec::new()
        } else {
            let ghost mid = *self;
            proof {
                assert(nav_view(mid.nav@)[0] == nav_entries(sets@)[0]);
            }
            let effects = self.on_nav_select(0);
            proof {
                let (opened, _) = opened_folders(AppModel { active_nav: Some(0usize), ..mid }, mid.nav@[0].set_id);
                assert(nav_selection(AppModel { show_context: false, ..opened }).active_text == Some(mid.nav@[0].text));
            }
            effects
        }
    }

    /// Handles a message of the application, with `data_dir` the user's data
    /// directory, and returns what it asks of the surroundings.
    pub fn update(&mut self, message: Message, data_dir: &Option<String>) -> (effects: Vec<Effect>)
        requires
            handles(*old(self), message),
        ensures
            app_step(*old(self), message, opt_view(*data_dir), *final(self), effects@),
            app_wf(*old(self)) ==> app_wf(*final(self)),
    {
        match message {
            Message::LaunchUrl(url) => {
                let mut effects: Vec<Effect> = Vec::new();
                effects.push(Effect::OpenUrl(url));
                effects
            },
            Message::ToggleContextPage(page) => {
                self.toggle(page);
                Vec::new()
            },
            Message::UpdateConfig(config) => {
                self.config = config;
                Vec::new()
            },
            Message::UpdateTheme(index) => {
                let mut effects: Vec<Effect> = Vec::new();
                if self.config_available {
                    let theme = theme_from_index(index);
                    self.config = OboeteConfig { app_theme: theme };
                    effects.push(Effect::SaveTheme(theme));
                    effects.push(Effect::ApplyTheme(theme));
                    assert(effects@ =~= seq![Effect::SaveTheme(theme), Effect::ApplyTheme(theme)]);
                }
                effects
            },
            Message::MenuAction(action) => {
                match self.state {
                    AppState::Ready { .. } => {},
                    AppState::Loading => {
                        return Vec::new();
                    },
                }
                match action.route() {
                    MenuRoute::ToggleContextPage(page) => {
                        self.toggle(page);
                        Vec::new()
                    },
                    MenuRoute::Dialog(d) => self.run_dialog(d),
                }
            },
            Message::DialogAction(action) => self.run_dialog(action),
            Message::DatabaseLoaded => {
                let (screen, _job) = FoldersScreen::new(None);
                self.state = AppState::Ready { screen: AppScreen::Folders(screen) };
                let mut effects: Vec<Effect> = Vec::new();
                effects.push(Effect::FetchStudySets);
                effects
            },
            Message::FetchStudySets => {
                let mut effects: Vec<Effect> = Vec::new();
                match self.state {
                    AppState::Ready { .. } => {
                        effects.push(Effect::FetchStudySets);
                    },
                    AppState::Loading => {},
                }
                effects
            },
            Message::FetchedStudySets(result) => match result {
                Ok(sets) => self.fetched_study_sets(sets),
                Err(e) => {
                    let mut effects: Vec<Effect> = Vec::new();
                    effects.push(Effect::ReportError(e));
                    effects
                },
            },
            Message::Folders(fm) => {
                let mut st = AppState::Loading;
                std::mem::swap(&mut st, &mut self.state);
                match st {
                    AppState::Ready { screen: AppScreen::Folders(mut f) } => {
                        let ghost f0 = f;
                        let action = f.update(fm);
                        let ghost a = action;
                        self.state = AppState::Ready { screen: AppScreen::Folders(f) };
                        let effects = self.route_folders(action);
                        proof {
                            assert(folders_step(f0.state, fm, f.state, a));
                        }
                        effects
                    },
                    other => {
                        self.state = other;
                        Vec::new()
                    },
                }
            },
            Message::Flashcards(fm) => {
                let mut st = AppState::Loading;
                std::mem::swap(&mut st, &mut self.state);
                match st {
                    AppState::Ready { screen: AppScreen::Flashcards(mut f) } => {
                        let ghost f0 = f;
                        let action = f.update(fm, data_dir);
                        let ghost a = action;
                        self.state = AppState::Ready { screen: AppScreen::Flashcards(f) };
                        let effects = self.route_flashcards(action);
                        proof {
                            assert(screen_step(f0.state, fm, opt_view(*data_dir), f.state, a));
                        }
                        effects
                    },
                    other => {
                        self.state = other;
                        Vec::new()
                    },
                }
            },
            Message::Study(sm) => {
                let mut st = AppState::Loading;
                std::mem::swap(&mut st, &mut self.state);
                match st {
                    AppState::Ready { screen: AppScreen::Study(mut s) } => {
                        let ghost s0 = s;
                        let action = s.update(sm);
                        let ghost a = action;
                        self.state = AppState::Ready { screen: AppScreen::Study(s) };
                        let effects = self.route_study(action);
                        proof {
                            assert(study_step(s0.state, sm, s.state, a));
                        }
                        effects
                    },
                    other => {
                        self.state = other;
                        Vec::new()
                    },
                }
            },
            Message::OpenFolders(id) => self.open_folders(id),
            Message::OpenFlashcards(id) => self.open_flashcards(id),
            Message::OpenStudy(id) => self.open_study(id),
        }
    }
}

} // verus!
