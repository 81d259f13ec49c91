//! A terminal-resident directory browser core: paginated directory
//! listings with a focus cursor, a modal input state machine, and a
//! layered text-rendering engine that composes fixed-width colored
//! fragments into full terminal frames.

pub mod app;
pub mod listing;
pub mod numfmt;
pub mod perm;
pub mod strutil;
pub mod textbox;
pub mod textline;
pub mod timefmt;
pub mod ui;
pub mod window;
