//! The flashcard of the `oboete` pages, the plain card of [`crate::models`]:
//! texts on both sides and a numeric status.

pub use crate::models::Flashcard;
