mod audio_filter;
mod generic_filter;
mod parameters;
mod video_filter;

pub use audio_filter::{audio_filter_view, lemma_aformat_filter_carries_the_format, AudioFilter};
pub use generic_filter::{label_view, GenericFilter, GenericFilterView};
pub use parameters::{
    audio_format_parameters, axis_span, free_of_bars, lemma_audio_format_parameters_round_trip, lemma_crop_edges, lemma_crop_fits_picture, lemma_read_after_write, crop_parameters, dimension_text, distinct_keys,
    pair_views, pairs_to_map, region_crop, scaling_parameters, video_format_parameters,
    AudioFormat, FilterParameters, RegionOfInterest, VideoCrop, VideoFormat, VideoScaling,
};
pub use video_filter::{
    generic_result_view, lemma_crop_filter_carries_the_region,
    lemma_format_filter_carries_the_pixel_formats, lemma_scale_filter_carries_both_dimensions,
    video_filter_view, VideoFilter,
};
