//! Decision logic of a tray utility that silences notifications (Do Not
//! Disturb / Focus) by hand or automatically while the user is in a call.
//!
//! The library never touches the system itself: it says which commands to
//! run, reads what they printed, and decides what the tray does next.
pub mod command;
pub mod text;
pub mod dnd;
pub mod controller;
pub mod meeting;
