//! A small interactive key/value editor: a state machine over three screens
//! (browsing, modal text entry, exit confirmation), two draft text buffers,
//! and a store of committed string pairs that is rendered as a JSON object
//! on a confirmed exit.

pub mod app;
pub mod input;
pub mod store;
