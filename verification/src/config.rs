use vstd::prelude::*;

verus! {

/// The theme the application is shown in.
#[derive(Clone, Copy, Debug, PartialEq, Eq, Structural)]
pub enum AppTheme {
    Dark,
    Light,
    System,
}

impl Default for AppTheme {
    fn default() -> (t: Self)
        ensures
            t == AppTheme::System,
    {
        AppTheme::System
    }
}

/// Configuration data that persists between application runs.
#[derive(Clone, Copy, Debug, PartialEq, Eq, Structural)]
pub struct OboeteConfig {
    pub app_theme: AppTheme,
}

impl Default for OboeteConfig {
    fn default() -> (c: Self)
        ensures
            c.app_theme == AppTheme::System,
    {
        OboeteConfig { app_theme: AppTheme::System }
    }
}

} // verus!
