use srt_media::source::filters::{
    AudioFormat, FilterParameters, RegionOfInterest, VideoCrop, VideoFormat, VideoScaling,
};

#[test]
pub fn test_video_crop_get_filter_parameters() {
    let crop = VideoCrop {
        top: 147,
        left: 258,
        width: 123,
        height: 456,
    };

    let parameters: FilterParameters = crop.parameters();

    assert_eq!(&147.to_string(), parameters.get("y").unwrap());
    assert_eq!(&258.to_string(), parameters.get("x").unwrap());
    assert_eq!(&123.to_string(), parameters.get("out_w").unwrap());
    assert_eq!(&456.to_string(), parameters.get("out_h").unwrap());
}

#[test]
pub fn test_video_scaling_get_filter_parameters() {
    let scaling = VideoScaling {
        width: None,
        height: None,
    };
    let parameters: FilterParameters = scaling.parameters();
    assert_eq!(&(-1).to_string(), parameters.get("width").unwrap());
    assert_eq!(&(-1).to_string(), parameters.get("height").unwrap());

    let scaling = VideoScaling {
        width: Some(1234),
        height: None,
    };
    let parameters: FilterParameters = scaling.parameters();
    assert_eq!(&1234.to_string(), parameters.get("width").unwrap());
    assert_eq!(&(-1).to_string(), parameters.get("height").unwrap());

    let scaling = VideoScaling {
        width: None,
        height: Some(1234),
    };
    let parameters: FilterParameters = scaling.parameters();
    assert_eq!(&(-1).to_string(), parameters.get("width").unwrap());
    assert_eq!(&1234.to_string(), parameters.get("height").unwrap());

    let scaling = VideoScaling {
        width: Some(1234),
        height: Some(5678),
    };
    let parameters: FilterParameters = scaling.parameters();
    assert_eq!(&1234.to_string(), parameters.get("width").unwrap());
    assert_eq!(&5678.to_string(), parameters.get("height").unwrap());
}

#[test]
fn crop_parameters_hold_exactly_four_entries() {
    let crop = VideoCrop { top: 0, left: 4294967295, width: 1, height: 10 };
    let parameters = crop.parameters();
    assert_eq!(parameters.entries().len(), 4);
    assert_eq!(parameters.get("x").unwrap(), "4294967295");
    assert_eq!(parameters.get("y").unwrap(), "0");
    assert!(parameters.get("top").is_none());
}

#[test]
fn video_format_parameters_carry_pixel_formats() {
    let format = VideoFormat { pixel_formats: "yuv420p|rgb24".to_string() };
    let parameters = format.parameters();
    assert_eq!(parameters.entries().len(), 1);
    assert_eq!(parameters.get("pix_fmts").unwrap(), "yuv420p|rgb24");
}

#[test]
fn audio_format_parameters_join_with_bars() {
    let format = AudioFormat {
        sample_rates: vec![48000, 44100],
        channel_layouts: vec!["stereo".to_string(), "mono".to_string()],
        sample_formats: vec!["s32".to_string()],
    };
    let parameters = format.parameters();
    assert_eq!(parameters.entries().len(), 3);
    assert_eq!(parameters.get("sample_rates").unwrap(), "48000|44100");
    assert_eq!(parameters.get("channel_layouts").unwrap(), "stereo|mono");
    assert_eq!(parameters.get("sample_fmts").unwrap(), "s32");
}

#[test]
fn audio_format_parameters_leave_out_empty_lists() {
    let format = AudioFormat {
        sample_rates: vec![],
        channel_layouts: vec![],
        sample_formats: vec!["fltp".to_string(), "s16".to_string()],
    };
    let parameters = format.parameters();
    assert_eq!(parameters.entries().len(), 1);
    assert!(!parameters.contains_key("sample_rates"));
    assert!(!parameters.contains_key("channel_layouts"));
    assert_eq!(parameters.get("sample_fmts").unwrap(), "fltp|s16");

    let empty = AudioFormat { sample_rates: vec![], channel_layouts: vec![], sample_formats: vec![] };
    assert!(empty.parameters().entries().is_empty());
}

#[test]
fn parameters_keep_the_last_value_of_a_name() {
    let mut parameters = FilterParameters::new();
    assert!(parameters.get("a").is_none());
    parameters.insert("a".to_string(), "1".to_string());
    parameters.insert("b".to_string(), "2".to_string());
    parameters.insert("a".to_string(), "3".to_string());
    assert_eq!(parameters.entries().len(), 2);
    assert_eq!(parameters.get("a").unwrap(), "3");
    assert_eq!(parameters.get("b").unwrap(), "2");
    assert!(parameters.contains_key("b"));
    assert!(!parameters.contains_key("c"));
    let copy = parameters.clone();
    assert_eq!(copy.get("a").unwrap(), "3");
    assert_eq!(copy.entries().len(), 2);
}

fn region(
    top: Option<u32>,
    left: Option<u32>,
    right: Option<u32>,
    bottom: Option<u32>,
    width: Option<u32>,
    height: Option<u32>,
) -> RegionOfInterest {
    RegionOfInterest { top, left, right, bottom, width, height }
}

#[test]
fn region_with_offsets_and_size() {
    let crop = region(Some(10), Some(20), None, None, Some(100), Some(50))
        .get_video_crop(1920, 1080)
        .unwrap();
    assert_eq!(crop, VideoCrop { top: 10, left: 20, width: 100, height: 50 });
}

#[test]
fn region_with_offsets_and_margins() {
    let crop = region(Some(10), Some(20), Some(30), Some(40), None, None)
        .get_video_crop(200, 100)
        .unwrap();
    assert_eq!(crop, VideoCrop { top: 10, left: 20, width: 150, height: 50 });
}

#[test]
fn region_with_margins_and_size() {
    let crop = region(None, None, Some(30), Some(40), Some(70), Some(20))
        .get_video_crop(200, 100)
        .unwrap();
    assert_eq!(crop, VideoCrop { top: 40, left: 100, width: 70, height: 20 });
}

#[test]
fn region_with_nothing_given_is_the_whole_picture() {
    let crop = region(None, None, None, None, None, None).get_video_crop(640, 480).unwrap();
    assert_eq!(crop, VideoCrop { top: 0, left: 0, width: 640, height: 480 });
}

#[test]
fn region_that_overflows_horizontally_is_refused() {
    let err = region(Some(0), Some(600), None, None, Some(100), Some(10))
        .get_video_crop(640, 480)
        .unwrap_err();
    assert_eq!(err, "Invalid region of interest: horizontal bounds do not fit the image");
}

#[test]
fn region_that_overflows_vertically_is_refused() {
    let err = region(Some(470), Some(0), None, None, Some(100), Some(20))
        .get_video_crop(640, 480)
        .unwrap_err();
    assert_eq!(err, "Invalid region of interest: vertical bounds do not fit the image");
}

#[test]
fn region_with_all_three_horizontal_values_is_refused() {
    let err = region(None, Some(1), Some(1), None, Some(1), None)
        .get_video_crop(640, 480)
        .unwrap_err();
    assert_eq!(err, "Invalid region of interest: horizontal bounds do not fit the image");
}

#[test]
fn region_of_zero_size_is_refused() {
    let err = region(None, Some(640), None, None, None, None).get_video_crop(640, 480).unwrap_err();
    assert_eq!(err, "Invalid region of interest: horizontal bounds do not fit the image");
    let err = region(Some(0), None, None, None, None, Some(0)).get_video_crop(640, 480).unwrap_err();
    assert_eq!(err, "Invalid region of interest: vertical bounds do not fit the image");
}

#[test]
fn region_with_huge_values_does_not_wrap() {
    let err = region(None, None, Some(u32::MAX), None, Some(u32::MAX), None)
        .get_video_crop(u32::MAX, 10)
        .unwrap_err();
    assert_eq!(err, "Invalid region of interest: horizontal bounds do not fit the image");
    let crop = region(None, None, None, None, None, None).get_video_crop(u32::MAX, u32::MAX).unwrap();
    assert_eq!(crop.width, u32::MAX);
}

#[test]
fn parameters_are_equal_when_they_map_names_alike() {
    let mut a = FilterParameters::new();
    a.insert("x".to_string(), "1".to_string());
    a.insert("y".to_string(), "2".to_string());
    let mut b = FilterParameters::new();
    b.insert("y".to_string(), "2".to_string());
    b.insert("x".to_string(), "1".to_string());
    assert!(a == b);
    assert!(a.is_included_in(&b) && b.is_included_in(&a));

    b.insert("x".to_string(), "9".to_string());
    assert!(a != b);

    let mut c = FilterParameters::new();
    c.insert("x".to_string(), "1".to_string());
    assert!(c.is_included_in(&a));
    assert!(!a.is_included_in(&c));
    assert!(a != c);
    assert!(FilterParameters::new() == FilterParameters::new());
}

#[test]
fn audio_format_parameters_split_back_into_the_format() {
    let format = AudioFormat {
        sample_rates: vec![48000, 0, 44100],
        channel_layouts: vec!["stereo".to_string(), "".to_string(), "5.1(side)".to_string()],
        sample_formats: vec!["s16".to_string()],
    };
    let parameters = format.parameters();
    let rates: Vec<usize> = parameters
        .get("sample_rates")
        .unwrap()
        .split('|')
        .map(|r| r.parse().unwrap())
        .collect();
    assert_eq!(rates, format.sample_rates);
    let layouts: Vec<String> = parameters.get("channel_layouts").unwrap().split('|').map(String::from).collect();
    assert_eq!(layouts, format.channel_layouts);
    let formats: Vec<String> = parameters.get("sample_fmts").unwrap().split('|').map(String::from).collect();
    assert_eq!(formats, format.sample_formats);
}
