//! Which streams of a source to decode, and with which filters.
use vstd::prelude::*;
use super::filters::{AudioFilter, VideoFilter};
use crate::text::{all_digits, decimal, digits_value, lemma_decimal_reads_back, push_decimal};

verus! {

/// The filters to apply to an audio stream.
#[derive(Debug, PartialEq)]
pub struct AudioDescriptor {
    filters: Vec<AudioFilter>,
}

/// The filters to apply to a video (image) stream.
#[derive(Debug, PartialEq)]
pub struct ImageDescriptor {
    filters: Vec<VideoFilter>,
}

impl AudioDescriptor {
    /// The filters, in the order they apply.
    pub closed spec fn filter_list(&self) -> Seq<AudioFilter> {
        self.filters@
    }

    /// The filters, in the order they apply.
    pub fn filters(&self) -> (r: &Vec<AudioFilter>)
        ensures
            r@ == self.filter_list(),
    {
        &self.filters
    }
}

impl ImageDescriptor {
    /// The filters, in the order they apply.
    pub closed spec fn filter_list(&self) -> Seq<VideoFilter> {
        self.filters@
    }

    /// The filters, in the order they apply.
    pub fn filters(&self) -> (r: &Vec<VideoFilter>)
        ensures
            r@ == self.filter_list(),
    {
        &self.filters
    }
}

/// What kind of stream is selected, with its filters.
#[derive(Debug, PartialEq)]
pub enum Descriptor {
    AudioDescriptor(AudioDescriptor),
    ImageDescriptor(ImageDescriptor),
    DataDescriptor,
}

impl From<Vec<AudioFilter>> for Descriptor {
    fn from(filters: Vec<AudioFilter>) -> (d: Descriptor) {
        Descriptor::AudioDescriptor(AudioDescriptor { filters })
    }
}

impl vstd::std_specs::convert::FromSpecImpl<Vec<AudioFilter>> for Descriptor {
    open spec fn obeys_from_spec() -> bool {
        true
    }

    closed spec fn from_spec(filters: Vec<AudioFilter>) -> Descriptor {
        Descriptor::AudioDescriptor(AudioDescriptor { filters })
    }
}

impl From<Vec<VideoFilter>> for Descriptor {
    fn from(filters: Vec<VideoFilter>) -> (d: Descriptor) {
        Descriptor::ImageDescriptor(ImageDescriptor { filters })
    }
}

impl vstd::std_specs::convert::FromSpecImpl<Vec<VideoFilter>> for Descriptor {
    open spec fn obeys_from_spec() -> bool {
        true
    }

    closed spec fn from_spec(filters: Vec<VideoFilter>) -> Descriptor {
        Descriptor::ImageDescriptor(ImageDescriptor { filters })
    }
}

/// `Descriptor::from` a list of audio filters is an audio descriptor holding
/// that list.
pub proof fn lemma_descriptor_from_audio_filters(filters: Vec<AudioFilter>)
    ensures
        <Descriptor as vstd::std_specs::convert::FromSpec<Vec<AudioFilter>>>::obeys_from_spec(),
        <Descriptor as vstd::std_specs::convert::FromSpec<Vec<AudioFilter>>>::from_spec(filters) matches Descriptor::AudioDescriptor(a)
            && a.filter_list() == filters@,
{
}

/// `Descriptor::from` a list of video filters is an image descriptor holding
/// that list.
pub proof fn lemma_descriptor_from_video_filters(filters: Vec<VideoFilter>)
    ensures
        <Descriptor as vstd::std_specs::convert::FromSpec<Vec<VideoFilter>>>::obeys_from_spec(),
        <Descriptor as vstd::std_specs::convert::FromSpec<Vec<VideoFilter>>>::from_spec(filters) matches Descriptor::ImageDescriptor(v)
            && v.filter_list() == filters@,
{
}

/// A stream of the source, by its index, and what to do with it.
#[derive(Debug, PartialEq)]
pub struct StreamDescriptor {
    pub index: usize,
    pub descriptor: Descriptor,
}

/// The name given to the decoder of stream `index`: `decoder_` and the index.
pub open spec fn decoder_name_of(index: usize) -> Seq<char> {
    "decoder_"@ + decimal(index as nat)
}

/// A decoder's name is `decoder_` followed by the digits of its stream's
/// index, so streams of different indexes get different names.
pub proof fn lemma_decoder_name_reads_back(index: usize, other: usize)
    ensures
        decoder_name_of(index).take(8) == "decoder_"@,
        all_digits(decoder_name_of(index).skip(8)),
        digits_value(decoder_name_of(index).skip(8)) == index,
        index != other ==> decoder_name_of(index) != decoder_name_of(other),
{
    reveal_strlit("decoder_");
    lemma_decimal_reads_back(index as nat);
    lemma_decimal_reads_back(other as nat);
    assert(decoder_name_of(index).take(8) =~= "decoder_"@);
    assert(decoder_name_of(index).skip(8) =~= decimal(index as nat));
    assert(decoder_name_of(other).skip(8) =~= decimal(other as nat));
}

impl StreamDescriptor {
    /// Stream `index`, decoded as audio, through `filters` in order.
    pub fn new_audio(index: usize, filters: Vec<AudioFilter>) -> (d: StreamDescriptor)
        ensures
            d.index == index,
            d.descriptor matches Descriptor::AudioDescriptor(a) && a.filter_list() == filters@,
    {
        StreamDescriptor { index, descriptor: Descriptor::from(filters) }
    }

    /// Stream `index`, decoded as video, through `filters` in order.
    pub fn new_video(index: usize, filters: Vec<VideoFilter>) -> (d: StreamDescriptor)
        ensures
            d.index == index,
            d.descriptor matches Descriptor::ImageDescriptor(v) && v.filter_list() == filters@,
    {
        StreamDescriptor { index, descriptor: Descriptor::from(filters) }
    }

    /// Stream `index`, carrying data.
    pub fn new_data(index: usize) -> (d: StreamDescriptor)
        ensures
            d.index == index,
            d.descriptor is DataDescriptor,
    {
        let descriptor = Descriptor::DataDescriptor;
        StreamDescriptor { index, descriptor }
    }

    /// The name of this stream's decoder: `decoder_` and the stream index.
    pub fn decoder_name(&self) -> (s: String)
        ensures
            s@ == decoder_name_of(self.index),
    {
        let mut s = "decoder_".to_owned();
        push_decimal(&mut s, self.index as u64);
        s
    }
}

} // verus!
