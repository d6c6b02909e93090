pub mod folder_content;
pub mod homepage;
pub mod study_page;
