//! A catalog of song records, a uniformly random pick among them, and the
//! replies of the small HTTP surface that serves them.

pub mod generator;
pub mod handlers;
pub mod song;

pub use generator::SongGenerator;
pub use handlers::{not_found_handler, root_get_handler, song_handler};
pub use song::{Song, SongView};
