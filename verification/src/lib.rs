//! Core of a keyboard-layout switcher: the typed-text buffer, the key
//! tables, device selection and the retype protocol, as verified logic on
//! plain values.

pub mod buffer;
pub mod config;
pub mod error;
pub mod event;
pub mod keys;
pub mod output;
pub mod selector;
pub mod state;
pub mod switcher;
pub mod text;
pub mod ui_key;
