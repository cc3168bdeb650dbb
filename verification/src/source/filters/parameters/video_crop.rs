//! Cropping a video to a rectangle.
use vstd::prelude::*;
use super::filter_parameters::FilterParameters;
use crate::text::{decimal, decimal_string};

verus! {

/// A rectangle of a picture: its top-left corner and its size, in pixels.
#[derive(Clone, Copy, Debug, PartialEq)]
pub struct VideoCrop {
    pub top: u32,
    pub left: u32,
    pub width: u32,
    pub height: u32,
}

/// The parameters of the crop filter for `crop`.
pub open spec fn crop_parameters(crop: VideoCrop) -> Map<Seq<char>, Seq<char>> {
    Map::empty()
        .insert("out_w"@, decimal(crop.width as nat))
        .insert("out_h"@, decimal(crop.height as nat))
        .insert("x"@, decimal(crop.left as nat))
        .insert("y"@, decimal(crop.top as nat))
}

impl VideoCrop {
    /// The crop filter's parameters: `out_w`, `out_h`, `x` and `y`.
    pub fn parameters(&self) -> (p: FilterParameters)
        ensures
            p@ == crop_parameters(*self),
    {
        let mut p = FilterParameters::new();
        p.insert("out_w".to_owned(), decimal_string(self.width as u64));
        p.insert("out_h".to_owned(), decimal_string(self.height as u64));
        p.insert("x".to_owned(), decimal_string(self.left as u64));
        p.insert("y".to_owned(), decimal_string(self.top as u64));
        p
    }
}

} // verus!
