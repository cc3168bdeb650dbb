//! What one step of reading a source gives.
use vstd::prelude::*;
use crate::text::{all_digits, decimal, digits_value, lemma_decimal_reads_back, push_decimal};

verus! {

/// The outcome of asking a source for its next frame; `F` is the frame.
#[derive(Debug)]
pub enum NextFrameResult<F> {
    EndOfStream,
    Frame { stream_index: usize, frame: F },
    Nothing,
    WaitMore,
}

/// How an outcome is written for people.
pub open spec fn description<F>(result: NextFrameResult<F>) -> Seq<char> {
    match result {
        NextFrameResult::EndOfStream => "End of stream"@,
        NextFrameResult::Frame { stream_index, .. } => "Frame for stream "@ + decimal(stream_index as nat),
        NextFrameResult::Nothing => "Nothing"@,
        NextFrameResult::WaitMore => "Wait more"@,
    }
}

/// A frame's description is `Frame for stream ` followed by the digits of
/// its stream's index; the other outcomes are described by fixed words.
pub proof fn lemma_frame_description_names_its_stream<F>(stream_index: usize, frame: F)
    ensures
        ({
            let d = description(NextFrameResult::Frame { stream_index, frame });
            let prefix = "Frame for stream "@;
            &&& d.take(prefix.len() as int) == prefix
            &&& all_digits(d.skip(prefix.len() as int))
            &&& d.skip(prefix.len() as int).len() > 0
            &&& digits_value(d.skip(prefix.len() as int)) == stream_index
        }),
        description(NextFrameResult::<F>::EndOfStream) == "End of stream"@,
        description(NextFrameResult::<F>::Nothing) == "Nothing"@,
        description(NextFrameResult::<F>::WaitMore) == "Wait more"@,
{
    let d = description(NextFrameResult::Frame { stream_index, frame });
    let prefix = "Frame for stream "@;
    lemma_decimal_reads_back(stream_index as nat);
    assert(d.take(prefix.len() as int) =~= prefix);
    assert(d.skip(prefix.len() as int) =~= decimal(stream_index as nat));
}

impl<F> NextFrameResult<F> {
    /// The outcome written for people: `End of stream`, `Frame for stream`
    /// and the stream's index, `Nothing`, or `Wait more`.
    pub fn to_string(&self) -> (s: String)
        ensures
            s@ == description(*self),
    {
        match self {
            NextFrameResult::EndOfStream => "End of stream".to_owned(),
            NextFrameResult::Frame { stream_index, .. } => {
                let mut s = "Frame for stream ".to_owned();
                push_decimal(&mut s, *stream_index as u64);
                s
            },
            NextFrameResult::Nothing => "Nothing".to_owned(),
            NextFrameResult::WaitMore => "Wait more".to_owned(),
        }
    }
}

} // verus!
