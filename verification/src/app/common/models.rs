pub mod flashcard;
pub mod folder;
pub mod studyset;
