//! Oboete: a flashcards library with spaced-repetition scheduling, text and
//! Anki import/export, and the state machines of its screens and dialogs.

pub mod app;
pub mod config;
pub mod flashcards;
pub mod folders;
pub mod models;
pub mod oboete;
pub mod studysets;
pub mod text;
pub mod utils;
