//! The control surface of a desktop media player: the decisions that turn
//! playback events and user requests into commands for the playback engine
//! and the window that hosts it.

pub mod action;
pub mod channel;
pub mod command;
pub mod decimal;
pub mod event;
pub mod media;
pub mod menu;
pub mod state;
pub mod text;
pub mod track_id;
pub mod video_player;
