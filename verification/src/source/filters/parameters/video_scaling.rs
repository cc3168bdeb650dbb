//! Scaling a video.
use vstd::prelude::*;
use super::filter_parameters::FilterParameters;
use crate::text::{decimal, decimal_string};

verus! {

/// A target size; a missing dimension is left to the scaler (`-1`).
#[derive(Clone, Copy, Debug, PartialEq)]
pub struct VideoScaling {
    pub width: Option<u32>,
    pub height: Option<u32>,
}

/// How one dimension is written: its decimal value, or `-1` when absent.
pub open spec fn dimension_text(dimension: Option<u32>) -> Seq<char> {
    match dimension {
        Some(d) => decimal(d as nat),
        None => seq!['-', '1'],
    }
}

/// The parameters of the scale filter for `scaling`.
pub open spec fn scaling_parameters(scaling: VideoScaling) -> Map<Seq<char>, Seq<char>> {
    Map::empty()
        .insert("width"@, dimension_text(scaling.width))
        .insert("height"@, dimension_text(scaling.height))
}

fn dimension_string(dimension: Option<u32>) -> (s: String)
    ensures
        s@ == dimension_text(dimension),
{
    match dimension {
        Some(d) => decimal_string(d as u64),
        None => {
            let s = "-1".to_owned();
            proof {
                reveal_strlit("-1");
            }
            assert(s@ =~= seq!['-', '1']);
            s
        },
    }
}

impl VideoScaling {
    /// The scale filter's parameters: `width` and `height`.
    pub fn parameters(&self) -> (p: FilterParameters)
        ensures
            p@ == scaling_parameters(*self),
    {
        let mut p = FilterParameters::new();
        p.insert("width".to_owned(), dimension_string(self.width));
        p.insert("height".to_owned(), dimension_string(self.height));
        p
    }
}

} // verus!
