use srt_media::source::filters::{
    AudioFilter, AudioFormat, FilterParameters, GenericFilter, RegionOfInterest, VideoFilter,
    VideoFormat, VideoScaling,
};

fn generic(name: &str) -> GenericFilter {
    let mut parameters = FilterParameters::new();
    parameters.insert("key".to_string(), "value".to_string());
    GenericFilter::new(name.to_string(), Some("my_label".to_string()), parameters)
}

#[test]
fn audio_format_becomes_aformat() {
    let filter = AudioFilter::Format(AudioFormat {
        sample_rates: vec![48000],
        channel_layouts: vec!["stereo".to_string()],
        sample_formats: vec!["s32".to_string()],
    });
    let g = filter.to_generic_filter();
    assert_eq!(g.name, "aformat");
    assert_eq!(g.label.as_deref(), Some("aformat_filter"));
    assert_eq!(g.parameters.get("sample_rates").unwrap(), "48000");
    assert_eq!(g.parameters.get("channel_layouts").unwrap(), "stereo");
    assert_eq!(g.parameters.get("sample_fmts").unwrap(), "s32");
}

#[test]
fn generic_audio_filter_is_kept() {
    let filter = AudioFilter::Generic(generic("volume"));
    let g = filter.to_generic_filter();
    assert_eq!(g.name, "volume");
    assert_eq!(g.label.as_deref(), Some("my_label"));
    assert_eq!(g.parameters.get("key").unwrap(), "value");
    assert_eq!(g.parameters.entries().len(), 1);
}

#[test]
fn resize_becomes_scale() {
    let filter = VideoFilter::Resize(VideoScaling { width: Some(1280), height: None });
    let g = filter.as_generic_filter(1920, 1080).unwrap();
    assert_eq!(g.name, "scale");
    assert_eq!(g.label.as_deref(), Some("scale_filter"));
    assert_eq!(g.parameters.get("width").unwrap(), "1280");
    assert_eq!(g.parameters.get("height").unwrap(), "-1");
}

#[test]
fn video_format_becomes_format() {
    let filter = VideoFilter::Format(VideoFormat { pixel_formats: "rgb24".to_string() });
    let g = filter.as_generic_filter(1920, 1080).unwrap();
    assert_eq!(g.name, "format");
    assert_eq!(g.label.as_deref(), Some("format_filter"));
    assert_eq!(g.parameters.get("pix_fmts").unwrap(), "rgb24");
}

#[test]
fn region_becomes_crop() {
    let filter = VideoFilter::Crop(RegionOfInterest {
        top: Some(10),
        left: Some(20),
        right: None,
        bottom: None,
        width: Some(300),
        height: Some(200),
    });
    let g = filter.as_generic_filter(1920, 1080).unwrap();
    assert_eq!(g.name, "crop");
    assert_eq!(g.label.as_deref(), Some("crop_filter"));
    assert_eq!(g.parameters.get("x").unwrap(), "20");
    assert_eq!(g.parameters.get("y").unwrap(), "10");
    assert_eq!(g.parameters.get("out_w").unwrap(), "300");
    assert_eq!(g.parameters.get("out_h").unwrap(), "200");
}

#[test]
fn region_outside_the_picture_gives_its_message() {
    let filter = VideoFilter::Crop(RegionOfInterest {
        top: Some(1000),
        left: Some(0),
        right: None,
        bottom: None,
        width: Some(10),
        height: Some(100),
    });
    let err = filter.as_generic_filter(1920, 1080).unwrap_err();
    assert_eq!(err, "Invalid region of interest: vertical bounds do not fit the image");
}

#[test]
fn generic_video_filter_is_kept() {
    let filter = VideoFilter::Generic(generic("hflip"));
    let g = filter.as_generic_filter(1, 1).unwrap();
    assert_eq!(g.name, "hflip");
    assert_eq!(g.label.as_deref(), Some("my_label"));
    assert_eq!(g.parameters.get("key").unwrap(), "value");
}

#[test]
fn cloned_filters_are_equal_in_content() {
    let g = generic("afade");
    let c = g.clone();
    assert_eq!(c.name, g.name);
    assert_eq!(c.label, g.label);
    assert_eq!(c.parameters.get("key"), g.parameters.get("key"));

    let a = AudioFilter::Format(AudioFormat {
        sample_rates: vec![8000],
        channel_layouts: vec![],
        sample_formats: vec!["u8".to_string()],
    });
    let b = a.clone();
    assert_eq!(
        b.to_generic_filter().parameters.get("sample_rates").unwrap(),
        a.to_generic_filter().parameters.get("sample_rates").unwrap()
    );
}

#[test]
fn generic_filters_compare_by_content() {
    assert!(generic("a") == generic("a"));
    assert!(generic("a") != generic("b"));
    let mut unlabelled = generic("a");
    unlabelled.label = None;
    assert!(unlabelled != generic("a"));
    assert!(AudioFilter::Generic(generic("a")) == AudioFilter::Generic(generic("a")));
    assert!(VideoFilter::Generic(generic("a")) != VideoFilter::Format(VideoFormat { pixel_formats: "a".to_string() }));
}

#[test]
fn cloned_filters_keep_their_variant_and_fields() {
    let crop = VideoFilter::Crop(RegionOfInterest {
        top: None,
        left: Some(0),
        right: None,
        bottom: None,
        width: None,
        height: None,
    });
    match crop.clone() {
        VideoFilter::Crop(region) => {
            assert_eq!(region.left, Some(0));
            assert_eq!(region.top, None);
        }
        _ => panic!("the clone changed variant"),
    }
    assert!(crop.clone() == crop);
    let resize = VideoFilter::Resize(VideoScaling { width: Some(3), height: None });
    assert!(matches!(resize.clone(), VideoFilter::Resize(VideoScaling { width: Some(3), height: None })));
    let format = VideoFilter::Format(VideoFormat { pixel_formats: "nv12".to_string() });
    assert!(format.clone() == format);

    let audio = AudioFilter::Format(AudioFormat {
        sample_rates: vec![1, 2],
        channel_layouts: vec!["5.1".to_string()],
        sample_formats: vec![],
    });
    match audio.clone() {
        AudioFilter::Format(f) => {
            assert_eq!(f.sample_rates, vec![1, 2]);
            assert_eq!(f.channel_layouts, vec!["5.1".to_string()]);
            assert!(f.sample_formats.is_empty());
        }
        AudioFilter::Generic(_) => panic!("the clone changed variant"),
    }
    assert!(matches!(AudioFilter::Generic(generic("g")).clone(), AudioFilter::Generic(g) if g == generic("g")));
}
