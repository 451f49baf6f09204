//! The pane, workspace and picker operations of a terminal multiplexer, as verified state
//! transitions over a plain model of the multiplexer's state.

pub mod model;

pub mod tiling;
pub mod focus;
pub mod workspace;

pub mod control;
pub mod spawn_reply;
pub mod input_queue;
pub mod ui_capture;
pub mod attached;
pub mod capture_wait;
pub mod confirm;
pub mod popup;
pub mod last_output;

pub mod registry;
pub mod json;
pub mod text;
pub mod streams;
pub mod pick;

pub mod profile;
pub mod overlay;
pub mod agents;

pub mod extensions;
pub mod install;
pub mod reload;
pub mod editor;
