use vstd::prelude::*;

verus! {

/// The context page to display in the context drawer.
#[derive(Copy, Clone, Debug, PartialEq, Eq, Structural)]
pub enum ContextPage {
    About,
    Settings,
    FolderSettings,
    AddEditFlashcard,
    FolderContentOptions,
}

impl Default for ContextPage {
    fn default() -> (p: Self)
        ensures
            p == ContextPage::About,
    {
        ContextPage::About
    }
}

} // verus!
