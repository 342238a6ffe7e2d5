//! Editing core of a terminal tablature editor: a document model of measures,
//! rhythmic values and notes, and the modal key-input state machine that edits it.


pub mod app;
pub mod tab;
