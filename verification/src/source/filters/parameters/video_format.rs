//! Converting a video to a pixel format.
use vstd::prelude::*;
use super::filter_parameters::FilterParameters;

verus! {

/// The pixel formats to convert to, written as the format filter takes them.
#[derive(Debug, PartialEq)]
pub struct VideoFormat {
    pub pixel_formats: String,
}

/// The parameters of the format filter for `format`.
pub open spec fn video_format_parameters(format: VideoFormat) -> Map<Seq<char>, Seq<char>> {
    Map::empty().insert("pix_fmts"@, format.pixel_formats@)
}

impl Clone for VideoFormat {
    fn clone(&self) -> (r: VideoFormat)
        ensures
            r == *self,
    {
        VideoFormat { pixel_formats: self.pixel_formats.clone() }
    }
}

impl VideoFormat {
    /// The format filter's parameters: `pix_fmts`.
    pub fn parameters(&self) -> (p: FilterParameters)
        ensures
            p@ == video_format_parameters(*self),
    {
        let mut p = FilterParameters::new();
        p.insert("pix_fmts".to_owned(), self.pixel_formats.clone());
        p
    }
}

} // verus!
