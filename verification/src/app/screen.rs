pub mod flashcards;
pub mod folders;
pub mod study;
