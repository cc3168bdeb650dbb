//! The decisions of a live SRT source: how to read the first bytes, when
//! the stream can be probed, and what each packet read or decode gives.
use vstd::prelude::*;
use crate::error::Error;
use crate::next_frame_result::NextFrameResult;

verus! {

/// How many bytes received from the network are held before they are
/// demultiplexed (100 MiB).
pub const RECEIVE_BUFFER_CAPACITY: usize = 104857600;

/// The container that the first received bytes announce.
#[derive(Clone, Copy, Debug, PartialEq, Eq, Structural)]
pub enum ContainerFormat {
    /// An MPEG transport stream, whose packets start with the sync byte 0x47.
    MpegTs,
    /// Anything else, read as raw data.
    Data,
}

impl ContainerFormat {
    /// The container announced by the first byte of the stream.
    pub fn detect(first_bytes: &[u8]) -> (f: ContainerFormat)
        requires
            first_bytes@.len() > 0,
        ensures
            f == (if first_bytes@[0] == 0x47u8 { ContainerFormat::MpegTs } else { ContainerFormat::Data }),
    {
        if first_bytes[0] == 0x47u8 {
            ContainerFormat::MpegTs
        } else {
            ContainerFormat::Data
        }
    }

    /// The demuxer's name for this container.
    pub fn name(&self) -> (s: &'static str)
        ensures
            s@ == (match *self {
                ContainerFormat::MpegTs => "mpegts"@,
                ContainerFormat::Data => "data"@,
            }),
    {
        match self {
            ContainerFormat::MpegTs => "mpegts",
            ContainerFormat::Data => "data",
        }
    }

    /// How many bytes must be held before the stream is probed: 1 MiB for a
    /// transport stream, none for raw data.
    pub fn probe_threshold(&self) -> (n: usize)
        ensures
            n == (match *self {
                ContainerFormat::MpegTs => 1048576usize,
                ContainerFormat::Data => 0usize,
            }),
    {
        match self {
            ContainerFormat::MpegTs => 1048576,
            ContainerFormat::Data => 0,
        }
    }
}

/// Whether the stream's layout is known yet, for a stream of a given
/// container.
#[derive(Debug)]
pub struct StreamProbe {
    pub format: ContainerFormat,
    pub got_stream_info: bool,
}

impl StreamProbe {
    /// A probe for the stream whose first bytes are `first_bytes`; nothing
    /// is known yet of its layout.
    pub fn new(first_bytes: &[u8]) -> (p: StreamProbe)
        requires
            first_bytes@.len() > 0,
        ensures
            p.format == (if first_bytes@[0] == 0x47u8 { ContainerFormat::MpegTs } else { ContainerFormat::Data }),
            !p.got_stream_info,
    {
        StreamProbe { format: ContainerFormat::detect(first_bytes), got_stream_info: false }
    }

    /// Whether to probe the stream now that `buffered` bytes are held: only
    /// while its layout is unknown, and once more than the container's
    /// threshold is held.
    pub fn should_probe(&self, buffered: usize) -> (b: bool)
        ensures
            b == (!self.got_stream_info && buffered > (match self.format {
                ContainerFormat::MpegTs => 1048576usize,
                ContainerFormat::Data => 0usize,
            })),
    {
        !self.got_stream_info && buffered > self.format.probe_threshold()
    }

    /// Notes that the stream's layout is known; it is not probed again.
    pub fn record_stream_info(&mut self)
        ensures
            final(self).got_stream_info,
            final(self).format == old(self).format,
    {
        self.got_stream_info = true;
    }
}

/// What the decoder of a packet's stream made of it.
#[derive(Debug)]
pub enum DecodeOutcome<F> {
    /// No decoder was selected for the packet's stream.
    NoDecoder,
    /// The decoder gave a frame, or needs more packets first.
    Decoded(Option<F>),
    /// The decoder failed with this message.
    Failed(String),
}

/// The step's outcome when the next packet could not be read: wait when no
/// packet is ready yet, the end when the stream is over, else the error.
pub fn packet_error_result<F>(message: String) -> (r: Result<NextFrameResult<F>, Error>)
    ensures
        message@ == "Unable to read next packet"@ ==> r matches Ok(NextFrameResult::WaitMore),
        message@ != "Unable to read next packet"@ && message@ == "End of data stream"@ ==> r matches Ok(
            NextFrameResult::EndOfStream,
        ),
        message@ != "Unable to read next packet"@ && message@ != "End of data stream"@ ==> r == Err::<
            NextFrameResult<F>,
            Error,
        >(Error::Other(message)),
{
    if message == "Unable to read next packet".to_owned() {
        return Ok(NextFrameResult::WaitMore);
    }
    if message == "End of data stream".to_owned() {
        Ok(NextFrameResult::EndOfStream)
    } else {
        Err(Error::from_message(message))
    }
}

/// The step's outcome once a packet of stream `stream_index` was read and
/// handed to that stream's decoder: the frame it gave; wait when it needs
/// more, or when it met invalid or not yet available data; nothing when the
/// stream is not selected; else the decoder's error.
pub fn decode_result<F>(stream_index: usize, outcome: DecodeOutcome<F>) -> (r: Result<NextFrameResult<F>, Error>)
    ensures
        match outcome {
            DecodeOutcome::NoDecoder => r matches Ok(NextFrameResult::Nothing),
            DecodeOutcome::Decoded(Some(frame)) => r matches Ok(NextFrameResult::Frame { stream_index: i, frame: f })
                && i == stream_index && f == frame,
            DecodeOutcome::Decoded(None) => r matches Ok(NextFrameResult::WaitMore),
            DecodeOutcome::Failed(m) => if m@ == "Invalid data found when processing input"@ || m@
                == "Resource temporarily unavailable"@ {
                r matches Ok(NextFrameResult::WaitMore)
            } else {
                r == Err::<NextFrameResult<F>, Error>(Error::Other(m))
            },
        },
{
    match outcome {
        DecodeOutcome::NoDecoder => Ok(NextFrameResult::Nothing),
        DecodeOutcome::Decoded(Some(frame)) => Ok(NextFrameResult::Frame { stream_index, frame }),
        DecodeOutcome::Decoded(None) => Ok(NextFrameResult::WaitMore),
        DecodeOutcome::Failed(message) => {
            if message == "Invalid data found when processing input".to_owned() || message
                == "Resource temporarily unavailable".to_owned() {
                Ok(NextFrameResult::WaitMore)
            } else {
                Err(Error::from_message(message))
            }
        },
    }
}

} // verus!
