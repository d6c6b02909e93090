pub mod flashcards;
pub mod fsrs_scheduler;
pub mod images;
pub mod toast;
pub mod archive_manager;
