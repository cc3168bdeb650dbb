//! Filters that apply to an audio stream.
use vstd::prelude::*;
use super::generic_filter::{GenericFilter, GenericFilterView};
use super::parameters::{
    audio_format_parameters, free_of_bars, lemma_audio_format_parameters_round_trip, AudioFormat,
};
use crate::text::{digits_value, split_on, views_of};

verus! {

/// A filter on an audio stream.
#[derive(Debug, PartialEq)]
pub enum AudioFilter {
    Format(AudioFormat),
    Generic(GenericFilter),
}

/// The generic filter that `filter` stands for.
pub open spec fn audio_filter_view(filter: AudioFilter) -> GenericFilterView {
    match filter {
        AudioFilter::Format(format) => GenericFilterView {
            name: "aformat"@,
            label: Some("aformat_filter"@),
            parameters: audio_format_parameters(format),
        },
        AudioFilter::Generic(generic) => generic@,
    }
}

/// The `aformat` filter of an audio format accepts exactly what the format
/// accepts: each list is a parameter exactly when it is not empty, every
/// sample rate reads back from it in order, and the channel layouts and
/// sample formats split back into their items when none holds a `|`.
pub proof fn lemma_aformat_filter_carries_the_format(format: AudioFormat)
    ensures
        ({
            let g = audio_filter_view(AudioFilter::Format(format));
            &&& g.name == "aformat"@
            &&& g.label == Some("aformat_filter"@)
            &&& g.parameters.contains_key("sample_rates"@) <==> format.sample_rates@.len() > 0
            &&& g.parameters.contains_key("channel_layouts"@) <==> format.channel_layouts@.len() > 0
            &&& g.parameters.contains_key("sample_fmts"@) <==> format.sample_formats@.len() > 0
            &&& forall|k: Seq<char>| #[trigger] g.parameters.contains_key(k) ==> k == "sample_rates"@
                || k == "channel_layouts"@ || k == "sample_fmts"@
            &&& format.sample_rates@.len() > 0 ==> split_on(g.parameters["sample_rates"@], '|').map_values(
                |p: Seq<char>| digits_value(p),
            ) == format.sample_rates@.map_values(|r: usize| r as nat)
            &&& format.channel_layouts@.len() > 0 && free_of_bars(format.channel_layouts@) ==> split_on(
                g.parameters["channel_layouts"@],
                '|',
            ) == views_of(format.channel_layouts@)
            &&& format.sample_formats@.len() > 0 && free_of_bars(format.sample_formats@) ==> split_on(
                g.parameters["sample_fmts"@],
                '|',
            ) == views_of(format.sample_formats@)
        }),
{
    lemma_audio_format_parameters_round_trip(format);
}

impl AudioFilter {
    /// The generic filter for this filter: a format becomes the `aformat`
    /// filter labelled `aformat_filter`; a generic filter stays as it is.
    pub fn to_generic_filter(&self) -> (r: GenericFilter)
        ensures
            r@ == audio_filter_view(*self),
    {
        match self {
            AudioFilter::Format(format) => GenericFilter {
                name: "aformat".to_owned(),
                label: Some("aformat_filter".to_owned()),
                parameters: format.parameters(),
            },
            AudioFilter::Generic(generic) => generic.clone(),
        }
    }
}

impl Clone for AudioFilter {
    fn clone(&self) -> (r: AudioFilter)
        ensures
            match *self {
                AudioFilter::Format(a) => r matches AudioFilter::Format(b) && b.sample_rates@ == a.sample_rates@
                    && b.channel_layouts@ == a.channel_layouts@ && b.sample_formats@ == a.sample_formats@,
                AudioFilter::Generic(a) => r matches AudioFilter::Generic(b) && b@ == a@,
            },
            audio_filter_view(r) == audio_filter_view(*self),
    {
        match self {
            AudioFilter::Format(format) => {
                let f = format.clone();
                assert(f.sample_rates@ =~= format.sample_rates@);
                AudioFilter::Format(f)
            },
            AudioFilter::Generic(generic) => AudioFilter::Generic(generic.clone()),
        }
    }
}

} // verus!
