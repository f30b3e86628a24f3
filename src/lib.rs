//! A two-panel terminal file browser: the verified core of focus routing,
//! directory listing, selection and the metadata report.
pub mod app;
pub mod events;
pub mod file_browser;
pub mod focus_manager;
pub mod listing;
pub mod state;
pub mod video_info;
