//! Filters that apply to a video stream.
use vstd::prelude::*;
use super::generic_filter::{GenericFilter, GenericFilterView};
use super::parameters::{
    crop_parameters, region_crop, scaling_parameters, video_format_parameters, RegionOfInterest,
    VideoFormat, VideoScaling,
};
use crate::text::{all_digits, digits_value, lemma_decimal_reads_back};

verus! {

/// A filter on a video stream.
#[derive(Debug, PartialEq)]
pub enum VideoFilter {
    Crop(RegionOfInterest),
    Resize(VideoScaling),
    Format(VideoFormat),
    Generic(GenericFilter),
}

/// The generic filter that `filter` stands for in a picture `width` by
/// `height`, or the message of a region that does not fit.
pub open spec fn video_filter_view(filter: VideoFilter, width: u32, height: u32) -> Result<GenericFilterView, Seq<char>> {
    match filter {
        VideoFilter::Crop(region) => match region_crop(region, width, height) {
            Ok(crop) => Ok(
                GenericFilterView {
                    name: "crop"@,
                    label: Some("crop_filter"@),
                    parameters: crop_parameters(crop),
                },
            ),
            Err(m) => Err(m),
        },
        VideoFilter::Resize(scaling) => Ok(
            GenericFilterView {
                name: "scale"@,
                label: Some("scale_filter"@),
                parameters: scaling_parameters(scaling),
            },
        ),
        VideoFilter::Format(format) => Ok(
            GenericFilterView {
                name: "format"@,
                label: Some("format_filter"@),
                parameters: video_format_parameters(format),
            },
        ),
        VideoFilter::Generic(generic) => Ok(generic@),
    }
}

/// A built generic filter or a message, as plain values.
pub open spec fn generic_result_view(r: Result<GenericFilter, String>) -> Result<GenericFilterView, Seq<char>> {
    match r {
        Ok(g) => Ok(g@),
        Err(m) => Err(m@),
    }
}

/// The filter of a region is the crop filter of that region's own crop
/// rectangle: it exists exactly when the region fits, its `x`, `y`, `out_w`
/// and `out_h` read back as the rectangle's left, top, width and height, and
/// it has no other parameter; a region that does not fit gives its message.
pub proof fn lemma_crop_filter_carries_the_region(region: RegionOfInterest, width: u32, height: u32)
    ensures
        video_filter_view(VideoFilter::Crop(region), width, height) is Ok <==> region_crop(region, width, height) is Ok,
        region_crop(region, width, height) matches Err(m) ==> video_filter_view(VideoFilter::Crop(region), width, height)
            == Err::<GenericFilterView, Seq<char>>(m),
        region_crop(region, width, height) matches Ok(c) ==> (video_filter_view(VideoFilter::Crop(region), width, height) matches Ok(g)
            && g.name == "crop"@
            && g.label == Some("crop_filter"@)
            && g.parameters.dom() == set!["out_w"@, "out_h"@, "x"@, "y"@]
            && all_digits(g.parameters["x"@]) && digits_value(g.parameters["x"@]) == c.left
            && all_digits(g.parameters["y"@]) && digits_value(g.parameters["y"@]) == c.top
            && all_digits(g.parameters["out_w"@]) && digits_value(g.parameters["out_w"@]) == c.width
            && all_digits(g.parameters["out_h"@]) && digits_value(g.parameters["out_h"@]) == c.height),
{
    reveal_strlit("out_w");
    reveal_strlit("out_h");
    reveal_strlit("x");
    reveal_strlit("y");
    if let Ok(c) = region_crop(region, width, height) {
        lemma_decimal_reads_back(c.left as nat);
        lemma_decimal_reads_back(c.top as nat);
        lemma_decimal_reads_back(c.width as nat);
        lemma_decimal_reads_back(c.height as nat);
        assert("out_w"@ != "out_h"@ && "x"@ != "y"@ && "x"@ != "out_w"@ && "x"@ != "out_h"@ && "y"@ != "out_w"@
            && "y"@ != "out_h"@) by {
            assert("out_w"@[4] != "out_h"@[4]);
            assert("x"@[0] != "y"@[0]);
            assert("x"@.len() != "out_w"@.len());
        }
        let g = video_filter_view(VideoFilter::Crop(region), width, height)->Ok_0;
        assert(g.parameters.dom() =~= set!["out_w"@, "out_h"@, "x"@, "y"@]);
    }
}

/// The filter of a scaling is the scale filter with both of the scaling's
/// dimensions: `width` and `height` each read back as the requested size, or
/// are `-1` when that size is left free, whatever the other dimension is.
pub proof fn lemma_scale_filter_carries_both_dimensions(scaling: VideoScaling, width: u32, height: u32)
    ensures
        video_filter_view(VideoFilter::Resize(scaling), width, height) matches Ok(g)
            && g.name == "scale"@
            && g.label == Some("scale_filter"@)
            && g.parameters.dom() == set!["width"@, "height"@]
            && (scaling.width matches Some(n) ==> all_digits(g.parameters["width"@])
                && digits_value(g.parameters["width"@]) == n)
            && (scaling.width is None ==> g.parameters["width"@] == seq!['-', '1'])
            && (scaling.height matches Some(n) ==> all_digits(g.parameters["height"@])
                && digits_value(g.parameters["height"@]) == n)
            && (scaling.height is None ==> g.parameters["height"@] == seq!['-', '1']),
{
    reveal_strlit("width");
    reveal_strlit("height");
    assert("width"@ != "height"@) by {
        assert("width"@.len() != "height"@.len());
    }
    if let Some(n) = scaling.width {
        lemma_decimal_reads_back(n as nat);
    }
    if let Some(n) = scaling.height {
        lemma_decimal_reads_back(n as nat);
    }
    let g = video_filter_view(VideoFilter::Resize(scaling), width, height)->Ok_0;
    assert(g.parameters.dom() =~= set!["width"@, "height"@]);
}

/// The filter of a pixel format is the format filter whose only parameter,
/// `pix_fmts`, is the format's text as given.
pub proof fn lemma_format_filter_carries_the_pixel_formats(format: VideoFormat, width: u32, height: u32)
    ensures
        video_filter_view(VideoFilter::Format(format), width, height) matches Ok(g)
            && g.name == "format"@
            && g.label == Some("format_filter"@)
            && g.parameters.dom() == set!["pix_fmts"@]
            && g.parameters["pix_fmts"@] == format.pixel_formats@,
{
    let g = video_filter_view(VideoFilter::Format(format), width, height)->Ok_0;
    assert(g.parameters.dom() =~= set!["pix_fmts"@]);
}

impl Clone for VideoFilter {
    fn clone(&self) -> (r: VideoFilter)
        ensures
            match *self {
                VideoFilter::Crop(a) => r matches VideoFilter::Crop(b) && b == a,
                VideoFilter::Resize(a) => r matches VideoFilter::Resize(b) && b == a,
                VideoFilter::Format(a) => r matches VideoFilter::Format(b) && b == a,
                VideoFilter::Generic(a) => r matches VideoFilter::Generic(b) && b@ == a@,
            },
            forall|w: u32, h: u32| #[trigger] video_filter_view(r, w, h) == video_filter_view(*self, w, h),
    {
        match self {
            VideoFilter::Crop(region) => VideoFilter::Crop(*region),
            VideoFilter::Resize(scaling) => VideoFilter::Resize(*scaling),
            VideoFilter::Format(format) => VideoFilter::Format(format.clone()),
            VideoFilter::Generic(generic) => VideoFilter::Generic(generic.clone()),
        }
    }
}

impl VideoFilter {
    /// The generic filter for this filter, for pictures `image_width` by
    /// `image_height`: a region becomes the `crop` filter, a scaling the
    /// `scale` filter, a pixel format the `format` filter, each labelled with
    /// its name and `_filter`; a generic filter stays as it is. A region that
    /// does not fit the picture gives its message.
    pub fn as_generic_filter(&self, image_width: u32, image_height: u32) -> (r: Result<GenericFilter, String>)
        ensures
            generic_result_view(r) == video_filter_view(*self, image_width, image_height),
    {
        match self {
            VideoFilter::Crop(region) => {
                let crop = match region.get_video_crop(image_width, image_height) {
                    Ok(crop) => crop,
                    Err(m) => {
                        return Err(m);
                    },
                };
                Ok(GenericFilter {
                    name: "crop".to_owned(),
                    label: Some("crop_filter".to_owned()),
                    parameters: crop.parameters(),
                })
            },
            VideoFilter::Resize(scaling) => Ok(GenericFilter {
                name: "scale".to_owned(),
                label: Some("scale_filter".to_owned()),
                parameters: scaling.parameters(),
            }),
            VideoFilter::Format(format) => Ok(GenericFilter {
                name: "format".to_owned(),
                label: Some("format_filter".to_owned()),
                parameters: format.parameters(),
            }),
            VideoFilter::Generic(generic) => Ok(generic.clone()),
        }
    }
}

} // verus!
