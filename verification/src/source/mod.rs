//! SRT source: filters, stream selection, filter-graph layout and the
//! decisions taken while frames are read.
pub mod filters;
mod graph;
mod srt_source;
mod stream_descriptor;

pub use graph::{
    chain, chain_links, lemma_chain_passes_every_filter, plan_audio_graph, plan_video_graph,
    FilterGraphPlan, GraphLink, GraphNode,
};
pub use srt_source::{
    decode_result, packet_error_result, ContainerFormat, DecodeOutcome, StreamProbe,
    RECEIVE_BUFFER_CAPACITY,
};
pub use stream_descriptor::{
    decoder_name_of, lemma_decoder_name_reads_back, lemma_descriptor_from_audio_filters, lemma_descriptor_from_video_filters,
    AudioDescriptor, Descriptor, ImageDescriptor, StreamDescriptor,
};
