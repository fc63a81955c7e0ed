//! The interactive front end: the reference table and what the user has
//! chosen from it.

pub mod app;
pub mod event;
pub mod phoneme_db;
pub mod ui;
