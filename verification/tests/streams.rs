use srt_media::source::filters::{
    AudioFilter, AudioFormat, RegionOfInterest, VideoFilter, VideoFormat, VideoScaling,
};
use srt_media::source::{
    decode_result, packet_error_result, plan_audio_graph, plan_video_graph, ContainerFormat,
    DecodeOutcome, Descriptor, GraphLink, GraphNode, StreamDescriptor, StreamProbe,
    RECEIVE_BUFFER_CAPACITY,
};
use srt_media::{Error, NextFrameResult};

#[test]
fn audio_descriptor_keeps_index_and_filters() {
    let filters = vec![AudioFilter::Format(AudioFormat {
        sample_rates: vec![48000],
        channel_layouts: vec![],
        sample_formats: vec![],
    })];
    let d = StreamDescriptor::new_audio(3, filters);
    assert_eq!(d.index, 3);
    match &d.descriptor {
        Descriptor::AudioDescriptor(a) => assert_eq!(a.filters().len(), 1),
        _ => panic!("not an audio descriptor"),
    }
    assert_eq!(d.decoder_name(), "decoder_3");
}

#[test]
fn video_and_data_descriptors() {
    let d = StreamDescriptor::new_video(0, vec![]);
    assert_eq!(d.index, 0);
    assert!(matches!(&d.descriptor, Descriptor::ImageDescriptor(v) if v.filters().is_empty()));
    assert_eq!(d.decoder_name(), "decoder_0");

    let d = StreamDescriptor::new_data(12);
    assert_eq!(d.index, 12);
    assert!(matches!(d.descriptor, Descriptor::DataDescriptor));
    assert_eq!(d.decoder_name(), "decoder_12");
}

#[test]
fn descriptor_from_filter_lists() {
    let d: Descriptor = Vec::<AudioFilter>::new().into();
    assert!(matches!(d, Descriptor::AudioDescriptor(_)));
    let d: Descriptor = vec![VideoFilter::Format(VideoFormat { pixel_formats: "gray".to_string() })].into();
    assert!(matches!(&d, Descriptor::ImageDescriptor(v) if v.filters().len() == 1));
}

#[test]
fn no_audio_filter_means_no_graph() {
    assert!(plan_audio_graph(&[]).is_none());
    assert!(plan_video_graph(&[], 10, 10).unwrap().is_none());
}

#[test]
fn audio_graph_chains_filters_in_order() {
    let filters = vec![
        AudioFilter::Format(AudioFormat {
            sample_rates: vec![48000],
            channel_layouts: vec![],
            sample_formats: vec![],
        }),
        AudioFilter::Format(AudioFormat {
            sample_rates: vec![],
            channel_layouts: vec!["mono".to_string()],
            sample_formats: vec![],
        }),
    ];
    let plan = plan_audio_graph(&filters).unwrap();
    assert_eq!(plan.filters.len(), 2);
    assert_eq!(plan.filters[0].parameters.get("sample_rates").unwrap(), "48000");
    assert_eq!(plan.filters[1].parameters.get("channel_layouts").unwrap(), "mono");
    assert_eq!(
        plan.links,
        vec![
            GraphLink { from: GraphNode::Input, to: GraphNode::Filter(0) },
            GraphLink { from: GraphNode::Filter(0), to: GraphNode::Filter(1) },
            GraphLink { from: GraphNode::Filter(1), to: GraphNode::Output },
        ]
    );
}

#[test]
fn video_graph_with_one_filter() {
    let filters = vec![VideoFilter::Resize(VideoScaling { width: Some(2), height: Some(3) })];
    let plan = plan_video_graph(&filters, 10, 10).unwrap().unwrap();
    assert_eq!(plan.filters.len(), 1);
    assert_eq!(plan.filters[0].name, "scale");
    assert_eq!(
        plan.links,
        vec![
            GraphLink { from: GraphNode::Input, to: GraphNode::Filter(0) },
            GraphLink { from: GraphNode::Filter(0), to: GraphNode::Output },
        ]
    );
}

#[test]
fn video_graph_stops_at_a_region_that_does_not_fit() {
    let filters = vec![
        VideoFilter::Resize(VideoScaling { width: None, height: None }),
        VideoFilter::Crop(RegionOfInterest {
            top: None,
            left: Some(11),
            right: None,
            bottom: None,
            width: None,
            height: None,
        }),
    ];
    let err = plan_video_graph(&filters, 10, 10).unwrap_err();
    assert_eq!(err, "Invalid region of interest: horizontal bounds do not fit the image");
}

#[test]
fn first_byte_picks_the_container() {
    assert_eq!(ContainerFormat::detect(&[0x47, 0, 1]), ContainerFormat::MpegTs);
    assert_eq!(ContainerFormat::detect(&[0x48]), ContainerFormat::Data);
    assert_eq!(ContainerFormat::MpegTs.name(), "mpegts");
    assert_eq!(ContainerFormat::Data.name(), "data");
    assert_eq!(ContainerFormat::MpegTs.probe_threshold(), 1024 * 1024);
    assert_eq!(ContainerFormat::Data.probe_threshold(), 0);
    assert_eq!(RECEIVE_BUFFER_CAPACITY, 100 * 1024 * 1024);
}

#[test]
fn probe_waits_for_enough_bytes_and_runs_until_it_succeeds() {
    let mut probe = StreamProbe::new(&[0x47]);
    assert!(!probe.should_probe(1024 * 1024));
    assert!(probe.should_probe(1024 * 1024 + 1));
    probe.record_stream_info();
    assert!(!probe.should_probe(usize::MAX));

    let probe = StreamProbe::new(&[0]);
    assert!(!probe.should_probe(0));
    assert!(probe.should_probe(1));
}

#[test]
fn packet_errors() {
    let r: Result<NextFrameResult<u8>, Error> = packet_error_result("Unable to read next packet".to_string());
    assert!(matches!(r, Ok(NextFrameResult::WaitMore)));
    let r: Result<NextFrameResult<u8>, Error> = packet_error_result("End of data stream".to_string());
    assert!(matches!(r, Ok(NextFrameResult::EndOfStream)));
    let r: Result<NextFrameResult<u8>, Error> = packet_error_result("broken pipe".to_string());
    match r {
        Err(Error::Other(m)) => {
            assert_eq!(m, "broken pipe");
            let e = Error::Other(m).into_io_error();
            assert_eq!(e.kind(), std::io::ErrorKind::Other);
            assert_eq!(e.to_string(), "broken pipe");
        }
        _ => panic!("expected an error"),
    }
}

#[test]
fn decode_outcomes() {
    assert!(matches!(decode_result::<u8>(4, DecodeOutcome::NoDecoder), Ok(NextFrameResult::Nothing)));
    assert!(matches!(
        decode_result(4, DecodeOutcome::Decoded(Some(9u8))),
        Ok(NextFrameResult::Frame { stream_index: 4, frame: 9 })
    ));
    assert!(matches!(decode_result::<u8>(4, DecodeOutcome::Decoded(None)), Ok(NextFrameResult::WaitMore)));
    assert!(matches!(
        decode_result::<u8>(4, DecodeOutcome::Failed("Invalid data found when processing input".to_string())),
        Ok(NextFrameResult::WaitMore)
    ));
    assert!(matches!(
        decode_result::<u8>(4, DecodeOutcome::Failed("Resource temporarily unavailable".to_string())),
        Ok(NextFrameResult::WaitMore)
    ));
    match decode_result::<u8>(4, DecodeOutcome::Failed("bad codec".to_string())) {
        Err(Error::Other(m)) => assert_eq!(m, "bad codec"),
        _ => panic!("expected an error"),
    }
}

#[test]
fn next_frame_results_are_described() {
    assert_eq!(NextFrameResult::<u8>::EndOfStream.to_string(), "End of stream");
    assert_eq!(NextFrameResult::Frame { stream_index: 17, frame: 0u8 }.to_string(), "Frame for stream 17");
    assert_eq!(NextFrameResult::<u8>::Nothing.to_string(), "Nothing");
    assert_eq!(NextFrameResult::<u8>::WaitMore.to_string(), "Wait more");
}

#[test]
fn error_from_io_error() {
    let e: Error = std::io::Error::new(std::io::ErrorKind::NotFound, "gone").into();
    match e {
        Error::Io(io) => assert_eq!(io.kind(), std::io::ErrorKind::NotFound),
        Error::Other(_) => panic!("expected the I/O error itself"),
    }
    let e = Error::from_message("message".to_string());
    assert!(matches!(&e, Error::Other(m) if m == "message"));
    let io = e.into_io_error();
    assert_eq!(io.kind(), std::io::ErrorKind::Other);
    assert_eq!(io.to_string(), "message");
    let from_string: Error = "text".to_string().into();
    assert!(matches!(&from_string, Error::Other(m) if m == "text"));
    let kept = Error::Io(std::io::Error::new(std::io::ErrorKind::TimedOut, "late")).into_io_error();
    assert_eq!(kept.kind(), std::io::ErrorKind::TimedOut);
}
