//! Change detection and notification text for a music player that is polled
//! for its status.
pub mod text;
pub mod track;
pub mod player_settings;
pub mod template;
pub mod events;
pub mod query;
pub mod settings;
pub mod notification;
pub mod cover;
pub mod command;
pub mod handler;
