//! Retrieves charging-station records from an Overpass endpoint, validates the
//! response, projects each element onto a reduced schema, and serializes the
//! result as a pretty-printed, counted, timestamped snapshot.

pub mod cli;
pub mod errors;
pub mod json;
pub mod num;
pub mod overpass;
pub mod render;
pub mod text;

pub use errors::Error;
