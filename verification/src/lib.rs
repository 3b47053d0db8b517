//! Verified core of the Ciphey terminal interface: text editing buffers,
//! navigation state, settings parsing and validation, colour themes and the
//! setup wizard's state machine.

mod strings;
pub mod text;
pub mod text_input;
pub mod multiline_text_input;
pub mod state;
pub mod human_checker_bridge;
pub mod parse;
pub mod validation;
pub mod settings_fields;
pub mod themes;
pub mod keys;
pub mod setup;
pub mod setup_download;
pub mod colors;
pub mod spinner;
pub mod input;
pub mod search;
pub mod editors;
pub mod runner;
pub mod app_state;
pub mod settings_screens;
pub mod dispatch;
