//! Window listing, matching and activation logic for a Wayland application
//! switcher: query matching, window records, picker and notification
//! decisions, and the errors they produce.

pub mod text;
pub mod error;
pub mod backend;
pub mod picker;
pub mod resolve;
pub mod list;
pub mod notify;
pub mod timeout;
pub mod gnome;
pub mod kwin;
