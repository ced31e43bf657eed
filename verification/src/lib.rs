//! View-state core of a small syntax-highlighting page: a fixed catalog of
//! supported languages, an image-URL builder that prefers `webp` renditions,
//! and the state machine that decides when the external highlighter runs.

pub mod catalog;
pub mod images;
pub mod laws;
pub mod state;
