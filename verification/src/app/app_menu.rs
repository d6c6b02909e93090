use vstd::prelude::*;

use crate::app::context_page::ContextPage;
use crate::app::Message;
use crate::app::dialogs::DialogAction;

verus! {

/// An action of the application menu.
#[derive(Clone, Copy, Debug, PartialEq, Eq, Structural)]
pub enum MenuAction {
    /// Create a new study set.
    NewStudySet,
    /// Back up the entire application.
    Backup,
    /// Import a backup of the entire application.
    Import,
    /// Rename the active study set.
    RenameStudySet,
    /// Delete the active study set.
    DeleteStudySet,
    /// Open the About context page.
    About,
    /// Open the Settings context page.
    Settings,
}

/// Where a menu action leads: a context page or a dialog.
#[derive(Clone, Debug)]
pub enum MenuRoute {
    ToggleContextPage(ContextPage),
    Dialog(DialogAction),
}

/// The route of each menu action; backing up and importing have none yet.
pub open spec fn menu_route_spec(action: MenuAction, route: MenuRoute) -> bool {
    match action {
        MenuAction::About => route == MenuRoute::ToggleContextPage(ContextPage::About),
        MenuAction::Settings => route == MenuRoute::ToggleContextPage(ContextPage::Settings),
        MenuAction::NewStudySet => route == MenuRoute::Dialog(DialogAction::OpenNewStudySetDialog),
        MenuAction::RenameStudySet => route == MenuRoute::Dialog(
            DialogAction::OpenRenameStudySetDialog,
        ),
        MenuAction::DeleteStudySet => route == MenuRoute::Dialog(
            DialogAction::OpenDeleteStudySetDialog,
        ),
        MenuAction::Backup | MenuAction::Import => false,
    }
}

impl MenuAction {
    /// The application message that choosing the menu action sends.
    pub fn message(self) -> (m: Message)
        ensures
            m == Message::MenuAction(self),
    {
        Message::MenuAction(self)
    }

    /// Where the menu action leads. Backing up and importing are not
    /// implemented (the application stops on them).
    pub fn route(self) -> (route: MenuRoute)
        requires
            !(self is Backup || self is Import),
        ensures
            menu_route_spec(self, route),
    {
        match self {
            MenuAction::About => MenuRoute::ToggleContextPage(ContextPage::About),
            MenuAction::Settings => MenuRoute::ToggleContextPage(ContextPage::Settings),
            MenuAction::NewStudySet => MenuRoute::Dialog(DialogAction::OpenNewStudySetDialog),
            MenuAction::RenameStudySet => MenuRoute::Dialog(DialogAction::OpenRenameStudySetDialog),
            MenuAction::DeleteStudySet => MenuRoute::Dialog(DialogAction::OpenDeleteStudySetDialog),
            MenuAction::Backup | MenuAction::Import => {
                proof {
                    assert(false);
                }
                MenuRoute::ToggleContextPage(ContextPage::About)
            },
        }
    }
}

} // verus!
