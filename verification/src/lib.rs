//! The verified core of a download manager backend.
pub mod api;
pub mod manager;
pub mod model;
pub mod naming;
pub mod platform;
pub mod segmented;
pub mod text;
pub mod torrent;
pub mod video;
