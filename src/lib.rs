//! Searching a music catalogue for tracks and rendering the matches as text.
pub mod model;
pub mod listing;
pub mod search;
