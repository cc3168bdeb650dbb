//! Converting audio to given rates, layouts and sample formats.
use vstd::prelude::*;
use super::filter_parameters::FilterParameters;
use crate::text::{
    clone_strings, decimal, decimals_of, digits_value, join, join_decimals, join_strings,
    lemma_decimal_reads_back, lemma_split_join, split_on, views_of,
};

verus! {

/// The accepted sample rates, channel layouts and sample formats; an empty
/// list leaves that aspect free.
#[derive(Debug, PartialEq)]
pub struct AudioFormat {
    pub sample_rates: Vec<usize>,
    pub channel_layouts: Vec<String>,
    pub sample_formats: Vec<String>,
}

/// The parameters of the aformat filter for `format`: each non-empty list,
/// its items separated by `|`.
pub open spec fn audio_format_parameters(format: AudioFormat) -> Map<Seq<char>, Seq<char>> {
    let rates = if format.sample_rates@.len() > 0 {
        Map::empty().insert("sample_rates"@, join(decimals_of(format.sample_rates@), "|"@))
    } else {
        Map::empty()
    };
    let layouts = if format.channel_layouts@.len() > 0 {
        rates.insert("channel_layouts"@, join(views_of(format.channel_layouts@), "|"@))
    } else {
        rates
    };
    if format.sample_formats@.len() > 0 {
        layouts.insert("sample_fmts"@, join(views_of(format.sample_formats@), "|"@))
    } else {
        layouts
    }
}

/// No item of `items` holds a `|`.
pub open spec fn free_of_bars(items: Seq<String>) -> bool {
    forall|i: int| 0 <= i < items.len() ==> !(#[trigger] items[i])@.contains('|')
}

/// The parameters of an audio format give the format back: a list is
/// present exactly when it is not empty, splitting the rates on `|` reads
/// back every rate in order, and splitting the layouts or the sample formats
/// on `|` gives their items in order when no item holds a `|` itself.
pub proof fn lemma_audio_format_parameters_round_trip(format: AudioFormat)
    ensures
        ({
            let m = audio_format_parameters(format);
            &&& m.contains_key("sample_rates"@) <==> format.sample_rates@.len() > 0
            &&& m.contains_key("channel_layouts"@) <==> format.channel_layouts@.len() > 0
            &&& m.contains_key("sample_fmts"@) <==> format.sample_formats@.len() > 0
            &&& forall|k: Seq<char>| #[trigger] m.contains_key(k) ==> k == "sample_rates"@ || k
                == "channel_layouts"@ || k == "sample_fmts"@
            &&& format.sample_rates@.len() > 0 ==> split_on(m["sample_rates"@], '|').map_values(
                |p: Seq<char>| digits_value(p),
            ) == format.sample_rates@.map_values(|r: usize| r as nat)
            &&& format.channel_layouts@.len() > 0 && free_of_bars(format.channel_layouts@) ==> split_on(m["channel_layouts"@], '|') == views_of(
                format.channel_layouts@,
            )
            &&& format.sample_formats@.len() > 0 && free_of_bars(format.sample_formats@) ==> split_on(m["sample_fmts"@], '|') == views_of(
                format.sample_formats@,
            )
        }),
{
    reveal_strlit("sample_rates");
    reveal_strlit("channel_layouts");
    reveal_strlit("sample_fmts");
    reveal_strlit("|");
    assert("|"@ =~= seq!['|']);
    assert("sample_rates"@ != "channel_layouts"@ && "sample_rates"@ != "sample_fmts"@ && "channel_layouts"@
        != "sample_fmts"@) by {
        assert("sample_rates"@.len() == 12 && "channel_layouts"@.len() == 15 && "sample_fmts"@.len() == 11);
    }
    let rates = decimals_of(format.sample_rates@);
    if format.sample_rates@.len() > 0 {
        assert forall|i: int| 0 <= i < rates.len() implies !(#[trigger] rates[i]).contains('|') by {
            lemma_decimal_reads_back(format.sample_rates@[i] as nat);
            if rates[i].contains('|') {
                let j = choose|j: int| 0 <= j < rates[i].len() && rates[i][j] == '|';
                assert(crate::text::is_digit(rates[i][j]));
            }
        }
        lemma_split_join(rates, '|');
        assert forall|i: int| 0 <= i < rates.len() implies #[trigger] digits_value(rates[i])
            == format.sample_rates@[i] as nat by {
            lemma_decimal_reads_back(format.sample_rates@[i] as nat);
        }
        assert(rates.map_values(|p: Seq<char>| digits_value(p)) =~= format.sample_rates@.map_values(
            |r: usize| r as nat,
        ));
    }
    let layouts = views_of(format.channel_layouts@);
    if format.channel_layouts@.len() > 0 && free_of_bars(format.channel_layouts@) {
        assert forall|i: int| 0 <= i < layouts.len() implies !(#[trigger] layouts[i]).contains('|') by {
            assert(layouts[i] == format.channel_layouts@[i]@);
        }
        lemma_split_join(layouts, '|');
    }
    let formats = views_of(format.sample_formats@);
    if format.sample_formats@.len() > 0 && free_of_bars(format.sample_formats@) {
        assert forall|i: int| 0 <= i < formats.len() implies !(#[trigger] formats[i]).contains('|') by {
            assert(formats[i] == format.sample_formats@[i]@);
        }
        lemma_split_join(formats, '|');
    }
}

impl Clone for AudioFormat {
    fn clone(&self) -> (r: AudioFormat)
        ensures
            r.sample_rates@ == self.sample_rates@,
            r.channel_layouts@ == self.channel_layouts@,
            r.sample_formats@ == self.sample_formats@,
    {
        AudioFormat {
            sample_rates: self.sample_rates.clone(),
            channel_layouts: clone_strings(&self.channel_layouts),
            sample_formats: clone_strings(&self.sample_formats),
        }
    }
}

impl AudioFormat {
    /// The aformat filter's parameters: `sample_rates`, `channel_layouts`
    /// and `sample_fmts`, each present when its list is not empty.
    pub fn parameters(&self) -> (p: FilterParameters)
        ensures
            p@ == audio_format_parameters(*self),
    {
        let mut p = FilterParameters::new();
        if self.sample_rates.len() > 0 {
            p.insert("sample_rates".to_owned(), join_decimals(&self.sample_rates, "|"));
        }
        if self.channel_layouts.len() > 0 {
            p.insert("channel_layouts".to_owned(), join_strings(&self.channel_layouts, "|"));
        }
        if self.sample_formats.len() > 0 {
            p.insert("sample_fmts".to_owned(), join_strings(&self.sample_formats, "|"));
        }
        p
    }
}

} // verus!
