//! Fields of the podcast namespace.

pub mod alternate_enclosure;
pub mod guid;
pub mod transcript;
