//! A verified core of a multi-window application framework: window types,
//! log level handling, the window manager, session data, localised string
//! tables and the preferences logic.

pub mod application;
pub mod clap;
pub mod constants;
pub mod enums;
pub mod error;
pub mod foreign;
pub mod layout;
pub mod localisation;
pub mod localised;
pub mod log;
pub mod manager;
pub mod session;
pub mod text;
pub mod vec_option;
pub mod window;
