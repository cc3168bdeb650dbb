mod audio_format;
mod filter_parameters;
mod region_of_interest;
mod video_crop;
mod video_format;
mod video_scaling;

pub use audio_format::{
    audio_format_parameters, free_of_bars, lemma_audio_format_parameters_round_trip, AudioFormat,
};
pub use filter_parameters::{
    distinct_keys, lemma_read_after_write, pair_views, pairs_to_map, FilterParameters,
};
pub use region_of_interest::{axis_span, lemma_crop_edges, lemma_crop_fits_picture, region_crop, RegionOfInterest};
pub use video_crop::{crop_parameters, VideoCrop};
pub use video_format::{video_format_parameters, VideoFormat};
pub use video_scaling::{dimension_text, scaling_parameters, VideoScaling};
