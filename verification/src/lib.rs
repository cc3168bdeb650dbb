//! Building blocks of an SRT media source: filter descriptions and their
//! parameters, stream selection, filter-graph layout, and the decisions that
//! drive reading frames from a live stream.
pub mod text;
mod error;
mod next_frame_result;
pub mod source;
pub mod source_stream;

pub use error::{Error, Result};
pub use next_frame_result::{description, lemma_frame_description_names_its_stream, NextFrameResult};
