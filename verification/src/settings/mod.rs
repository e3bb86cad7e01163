//! The settings panels: the application's preferences and the stored
//! configuration, and the room, space and user panels.
pub mod config;
pub mod app;
pub mod room;
pub mod space;
pub mod user;
