//! A region of a picture given by any fitting combination of its edges and
//! its size, turned into a crop rectangle once the picture's size is known.
use vstd::prelude::*;
use super::video_crop::VideoCrop;

verus! {

/// A region of a picture. Along each axis the region is given by at most two
/// of: its offset from the near edge (`left`, `top`), its distance from the
/// far edge (`right`, `bottom`), and its extent (`width`, `height`). A missing
/// offset counts as zero unless the far distance and the extent are both given.
#[derive(Clone, Copy, Debug, PartialEq)]
pub struct RegionOfInterest {
    pub top: Option<u32>,
    pub left: Option<u32>,
    pub right: Option<u32>,
    pub bottom: Option<u32>,
    pub width: Option<u32>,
    pub height: Option<u32>,
}

/// Where one axis of the region starts and how long it is, inside a picture
/// that is `extent` long on that axis; `None` when the three values are all
/// given, or when the span does not lie inside the picture or is empty.
pub open spec fn axis_span(near: Option<u32>, far: Option<u32>, size: Option<u32>, extent: u32) -> Option<(int, int)> {
    let resolved: Option<(int, int)> = match (near, far, size) {
        (Some(_), Some(_), Some(_)) => None,
        (None, Some(f), Some(n)) => Some((extent - f - n, n as int)),
        (_, Some(f), None) => {
            let s: int = match near { Some(v) => v as int, None => 0 };
            Some((s, extent - s - f))
        },
        (_, None, Some(n)) => {
            let s: int = match near { Some(v) => v as int, None => 0 };
            Some((s, n as int))
        },
        (_, None, None) => {
            let s: int = match near { Some(v) => v as int, None => 0 };
            Some((s, extent - s))
        },
    };
    match resolved {
        Some((s, n)) => if 0 <= s && 0 < n && s + n <= extent {
            Some((s, n))
        } else {
            None
        },
        None => None,
    }
}

/// The crop rectangle of `region` in a picture `width` by `height`, or the
/// message that names the axis that does not fit (the horizontal one first).
pub open spec fn region_crop(region: RegionOfInterest, width: u32, height: u32) -> Result<VideoCrop, Seq<char>> {
    match (
        axis_span(region.left, region.right, region.width, width),
        axis_span(region.top, region.bottom, region.height, height),
    ) {
        (Some(h), Some(v)) => Ok(VideoCrop { top: v.0 as u32, left: h.0 as u32, width: h.1 as u32, height: v.1 as u32 }),
        (None, _) => Err("Invalid region of interest: horizontal bounds do not fit the image"@),
        (Some(_), None) => Err("Invalid region of interest: vertical bounds do not fit the image"@),
    }
}

/// A region that gives a crop rectangle gives one of positive size that lies
/// inside the picture.
pub proof fn lemma_crop_fits_picture(region: RegionOfInterest, width: u32, height: u32)
    ensures
        region_crop(region, width, height) matches Ok(crop) ==> {
            &&& 0 < crop.width && crop.left + crop.width <= width
            &&& 0 < crop.height && crop.top + crop.height <= height
        },
{
}

/// Where a region's crop lies, in terms of what the region gives: a given
/// offset is where the crop starts, a given extent is its length, a given far
/// distance is what is left between the crop and the picture's far edge, and
/// with neither a far distance nor an extent the crop runs to the far edge.
/// A region that gives all three values on an axis is refused. A region that
/// gives at most an offset on each axis, inside the picture, is accepted, and
/// its crop is what lies beyond those offsets.
pub proof fn lemma_crop_edges(region: RegionOfInterest, width: u32, height: u32)
    ensures
        region_crop(region, width, height) matches Ok(c) ==> {
            &&& (region.left matches Some(l) ==> c.left == l)
            &&& (region.width matches Some(n) ==> c.width == n)
            &&& (region.right matches Some(r) ==> c.left + c.width + r == width)
            &&& (region.right is None && region.width is None ==> c.left + c.width == width)
            &&& (region.left is None && !(region.right is Some && region.width is Some) ==> c.left == 0)
            &&& (region.top matches Some(t) ==> c.top == t)
            &&& (region.height matches Some(n) ==> c.height == n)
            &&& (region.bottom matches Some(b) ==> c.top + c.height + b == height)
            &&& (region.bottom is None && region.height is None ==> c.top + c.height == height)
            &&& (region.top is None && !(region.bottom is Some && region.height is Some) ==> c.top == 0)
        },
        region.left is Some && region.right is Some && region.width is Some ==> region_crop(region, width, height) is Err,
        region.top is Some && region.bottom is Some && region.height is Some ==> region_crop(region, width, height) is Err,
        ({
            let l: int = match region.left { Some(v) => v as int, None => 0 };
            let t: int = match region.top { Some(v) => v as int, None => 0 };
            region.right is None && region.width is None && region.bottom is None && region.height is None
                && l < width && t < height ==> region_crop(region, width, height) == Ok::<VideoCrop, Seq<char>>(
                VideoCrop { top: t as u32, left: l as u32, width: (width - l) as u32, height: (height - t) as u32 },
            )
        }),
{
}

fn resolve_axis(near: Option<u32>, far: Option<u32>, size: Option<u32>, extent: u32) -> (r: Option<(u32, u32)>)
    ensures
        match r {
            Some((s, n)) => axis_span(near, far, size, extent) == Some((s as int, n as int)),
            None => axis_span(near, far, size, extent) is None,
        },
{
    let start: i64;
    let length: i64;
    match (near, far, size) {
        (Some(_), Some(_), Some(_)) => {
            return None;
        },
        (None, Some(f), Some(n)) => {
            start = extent as i64 - f as i64 - n as i64;
            length = n as i64;
        },
        (_, Some(f), None) => {
            let s: i64 = match near { Some(v) => v as i64, None => 0 };
            start = s;
            length = extent as i64 - s - f as i64;
        },
        (_, None, Some(n)) => {
            let s: i64 = match near { Some(v) => v as i64, None => 0 };
            start = s;
            length = n as i64;
        },
        (_, None, None) => {
            let s: i64 = match near { Some(v) => v as i64, None => 0 };
            start = s;
            length = extent as i64 - s;
        },
    }
    if 0 <= start && 0 < length && start + length <= extent as i64 {
        Some((start as u32, length as u32))
    } else {
        None
    }
}

impl RegionOfInterest {
    /// The crop rectangle of this region in a picture of the given size, or
    /// a message saying which axis does not fit.
    pub fn get_video_crop(&self, image_width: u32, image_height: u32) -> (r: Result<VideoCrop, String>)
        ensures
            match r {
                Ok(crop) => region_crop(*self, image_width, image_height) == Ok::<VideoCrop, Seq<char>>(crop),
                Err(m) => region_crop(*self, image_width, image_height) == Err::<VideoCrop, Seq<char>>(m@),
            },
    {
        let horizontal = resolve_axis(self.left, self.right, self.width, image_width);
        let vertical = resolve_axis(self.top, self.bottom, self.height, image_height);
        match (horizontal, vertical) {
            (Some((left, width)), Some((top, height))) => Ok(VideoCrop { top, left, width, height }),
            (None, _) => Err("Invalid region of interest: horizontal bounds do not fit the image".to_owned()),
            (Some(_), None) => Err("Invalid region of interest: vertical bounds do not fit the image".to_owned()),
        }
    }
}

} // verus!
