//! Core logic of a desktop screen recorder: capture argv assembly, the
//! cursor-event to zoom-track pipeline, export job management, filter-graph
//! synthesis, and the persisted document formats.

pub mod capture;
pub mod color;
pub mod cursor;
pub mod devices;
pub mod duration;
pub mod edit_state;
pub mod errors;
pub mod export;
pub mod filter;
pub mod geom;
pub mod json;
pub mod kinds;
pub mod num;
pub mod paths;
pub mod strutil;
pub mod tracks;
pub mod zoom;
